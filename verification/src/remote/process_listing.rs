use vstd::prelude::*;

use crate::remote::wire::Pid;
use crate::utils::text::{contains_text, str_contains, str_equal};

verus! {

/// Declares `regex::Regex` to the verifier; its contents stay hidden.
#[verifier::external_type_specification]
#[verifier::external_body]
pub struct ExRegex(regex::Regex);

/// Whether `regex::Regex::new` accepts `pattern` with its default settings.
pub uninterp spec fn regex_compiles(pattern: Seq<char>) -> bool;

/// What `regex::Regex::is_match` answers for the regex compiled from
/// `pattern` and the haystack `text`.
pub uninterp spec fn regex_is_match(pattern: Seq<char>, text: Seq<char>) -> bool;

/// A regular expression together with the pattern it was compiled from.
pub struct CompiledPattern {
    source: String,
    regex: regex::Regex,
}

impl CompiledPattern {
    /// The pattern the expression was compiled from.
    pub closed spec fn spec_source(&self) -> Seq<char> {
        self.source@
    }
}

/// Compiles `pattern` with `regex::Regex::new`.
///
/// The contract claims that compiling succeeds exactly when the pattern is
/// one that `Regex::new` accepts, which depends on the pattern alone, and
/// that the result remembers its pattern.  The text of the error, taken from
/// `regex::Error`'s `Display`, is left unsaid.
#[verifier::external_body]
fn compile_pattern(pattern: &str) -> (r: Result<CompiledPattern, String>)
    ensures
        r is Ok <==> regex_compiles(pattern@),
        r matches Ok(c) ==> c.spec_source() == pattern@,
{
    match regex::Regex::new(pattern) {
        Ok(regex) => Ok(CompiledPattern { source: pattern.to_string(), regex }),
        Err(e) => Err(e.to_string()),
    }
}

/// Calls `regex::Regex::is_match`: whether the expression matches anywhere
/// in `text`.  The contract names the answer by the pattern and the text.
#[verifier::external_body]
fn pattern_is_match(pattern: &CompiledPattern, text: &str) -> (r: bool)
    ensures
        r == regex_is_match(pattern.spec_source(), text@),
{
    pattern.regex.is_match(text)
}

/// How a process listing selects process ids.
#[derive(Debug, Clone, Copy, PartialEq, Eq, Structural)]
pub enum ListProcessesMatchType {
    /// The pattern occurs in the id.
    MatchPartOfString,
    /// The pattern is the id.
    MatchExactString,
    /// The pattern, as a regular expression, matches the id.
    MatchRegex,
}

impl ListProcessesMatchType {
    /// The match type with wire number `value` (0, 1 and 2 in the order of
    /// the variants); any other number asks for a substring match.
    pub fn from_i32(value: i32) -> (r: Self)
        ensures
            value == 1 ==> r == ListProcessesMatchType::MatchExactString,
            value == 2 ==> r == ListProcessesMatchType::MatchRegex,
            value != 1 && value != 2 ==> r == ListProcessesMatchType::MatchPartOfString,
    {
        if value == 1 {
            ListProcessesMatchType::MatchExactString
        } else if value == 2 {
            ListProcessesMatchType::MatchRegex
        } else {
            ListProcessesMatchType::MatchPartOfString
        }
    }
}

/// Why a process listing failed.
#[derive(Debug, Clone, PartialEq, Eq)]
pub enum ListProcessesError {
    /// The pattern is not a valid regular expression; the message names it.
    InvalidRegex(String),
}

/// Whether a listing with `pattern` and `match_type` selects a process
/// whose id is `id`; an empty pattern selects every process.
pub open spec fn pid_selected(id: Seq<char>, pattern: Seq<char>, match_type: ListProcessesMatchType) -> bool {
    pattern.len() == 0 || match match_type {
        ListProcessesMatchType::MatchPartOfString => contains_text(id, pattern),
        ListProcessesMatchType::MatchExactString => id == pattern,
        ListProcessesMatchType::MatchRegex => regex_is_match(pattern, id),
    }
}

/// Whether the listing fails: a non-empty regular expression that does not compile.
pub open spec fn listing_fails(pattern: Seq<char>, match_type: ListProcessesMatchType) -> bool {
    match_type == ListProcessesMatchType::MatchRegex && pattern.len() > 0 && !regex_compiles(
        pattern,
    )
}

/// The processes of `pids` that a listing with `pattern` and `match_type`
/// selects, in their order.  A non-empty pattern that is not a valid regular
/// expression, under `MatchRegex`, fails with a message that quotes it.
pub fn list_processes(pids: Vec<Pid>, pattern: &str, match_type: ListProcessesMatchType) -> (r: Result<Vec<Pid>, ListProcessesError>)
    ensures
        listing_fails(pattern@, match_type) <==> r is Err,
        r matches Err(ListProcessesError::InvalidRegex(m)) ==> exists|detail: Seq<char>|
            m@ == "invalid regex '"@ + pattern@ + "': "@ + detail,
        r matches Ok(v) ==> v@ == pids@.filter(
            |p: Pid| pid_selected(p.id@, pattern@, match_type),
        ),
        r matches Ok(v) ==> match_type == ListProcessesMatchType::MatchExactString && pattern@.len()
            > 0 ==> forall|i: int| 0 <= i < v@.len() ==> #[trigger] v@[i].id@ == pattern@,
{
    let empty = pattern.unicode_len() == 0;
    let compiled = if match_type == ListProcessesMatchType::MatchRegex && !empty {
        match compile_pattern(pattern) {
            Ok(c) => Some(c),
            Err(e) => {
                let message = String::from_str("invalid regex '").concat(pattern).concat(
                    "': ",
                ).concat(e.as_str());
                proof {
                    reveal_strlit("invalid regex '");
                    reveal_strlit("': ");
                    assert(message@ == "invalid regex '"@ + pattern@ + "': "@ + e@);
                }
                return Err(ListProcessesError::InvalidRegex(message));
            },
        }
    } else {
        None
    };
    let ghost pred = |p: Pid| pid_selected(p.id@, pattern@, match_type);
    let mut filtered: Vec<Pid> = Vec::new();
    let mut i: usize = 0;
    while i < pids.len()
        invariant
            i <= pids@.len(),
            pred == (|p: Pid| pid_selected(p.id@, pattern@, match_type)),
            empty == (pattern@.len() == 0),
            match_type == ListProcessesMatchType::MatchRegex && !empty ==> compiled is Some
                && compiled->0.spec_source() == pattern@,
            filtered@ == pids@.take(i as int).filter(pred),
        decreases pids@.len() - i,
    {
        let pid = &pids[i];
        let selected = if empty {
            true
        } else {
            match match_type {
                ListProcessesMatchType::MatchPartOfString => str_contains(pid.id.as_str(), pattern),
                ListProcessesMatchType::MatchExactString => str_equal(pid.id.as_str(), pattern),
                ListProcessesMatchType::MatchRegex => match &compiled {
                    Some(c) => pattern_is_match(c, pid.id.as_str()),
                    None => false,
                },
            }
        };
        proof {
            assert(pids@.take(i + 1) =~= pids@.take(i as int).push(pids@[i as int]));
            pids@.take(i as int).lemma_filter_push(pids@[i as int], pred);
        }
        if selected {
            filtered.push(pid.duplicate());
        }
        i = i + 1;
    }
    proof {
        assert(pids@.take(pids@.len() as int) =~= pids@);
        if match_type == ListProcessesMatchType::MatchExactString && pattern@.len() > 0 {
            lemma_exact_listing(pids@, pattern@);
        }
    }
    Ok(filtered)
}

/// An empty pattern selects every process.  Otherwise an exact match
/// selects exactly the ids equal to the pattern, a substring match exactly
/// the ids in which the pattern occurs at some position, and a regular
/// expression match exactly the ids the compiled pattern matches.
pub proof fn lemma_selection_by_match_type(id: Seq<char>, pattern: Seq<char>)
    ensures
        pattern.len() == 0 ==> pid_selected(id, pattern, ListProcessesMatchType::MatchExactString)
            && pid_selected(id, pattern, ListProcessesMatchType::MatchPartOfString)
            && pid_selected(id, pattern, ListProcessesMatchType::MatchRegex),
        pattern.len() > 0 ==> (pid_selected(id, pattern, ListProcessesMatchType::MatchExactString)
            <==> id == pattern),
        pattern.len() > 0 ==> (pid_selected(id, pattern, ListProcessesMatchType::MatchPartOfString)
            <==> exists|start: int|
            0 <= start && start + pattern.len() <= id.len() && #[trigger] id.subrange(
                start,
                start + pattern.len(),
            ) == pattern),
        pattern.len() > 0 ==> (pid_selected(id, pattern, ListProcessesMatchType::MatchRegex)
            <==> regex_is_match(pattern, id)),
{
    if pattern.len() > 0 {
        if pid_selected(id, pattern, ListProcessesMatchType::MatchPartOfString) {
            let start = choose|start: int| crate::utils::text::occurs_at(id, pattern, start);
            assert(id.subrange(start, start + pattern.len()) == pattern);
        }
        if exists|start: int|
            0 <= start && start + pattern.len() <= id.len() && #[trigger] id.subrange(
                start,
                start + pattern.len(),
            ) == pattern {
            let start = choose|start: int|
                0 <= start && start + pattern.len() <= id.len() && #[trigger] id.subrange(
                    start,
                    start + pattern.len(),
                ) == pattern;
            assert(crate::utils::text::occurs_at(id, pattern, start));
        }
    }
}

/// Listing with an exact match and a non-empty pattern gives exactly the
/// processes whose id is the pattern: every listed id equals it, and every
/// process whose id equals it is listed.
pub proof fn lemma_exact_listing(pids: Seq<Pid>, pattern: Seq<char>)
    requires
        pattern.len() > 0,
    ensures
        ({
            let listed = pids.filter(
                |p: Pid| pid_selected(p.id@, pattern, ListProcessesMatchType::MatchExactString),
            );
            &&& forall|i: int| 0 <= i < listed.len() ==> #[trigger] listed[i].id@ == pattern
            &&& forall|i: int| 0 <= i < pids.len() && pids[i].id@ == pattern ==> listed.contains(
                #[trigger] pids[i],
            )
        }),
{
    let pred = |p: Pid| pid_selected(p.id@, pattern, ListProcessesMatchType::MatchExactString);
    let listed = pids.filter(pred);
    assert forall|i: int| 0 <= i < listed.len() implies #[trigger] listed[i].id@ == pattern by {
        #[allow(deprecated)]
        pids.filter_lemma(pred);
        assert(pred(listed[i]));
    }
    assert forall|i: int| 0 <= i < pids.len() && pids[i].id@ == pattern implies listed.contains(
        #[trigger] pids[i],
    ) by {
        pids.lemma_filter_contains(pred, i);
    }
}

} // verus!
