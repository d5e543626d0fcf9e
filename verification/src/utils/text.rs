use vstd::prelude::*;

verus! {

/// The character of the decimal digit `d`.
pub open spec fn digit_char(d: nat) -> char {
    (48 + d) as char
}

/// The decimal representation of `n`, without sign or leading zeros.
pub open spec fn decimal_digits(n: nat) -> Seq<char>
    decreases n,
{
    if n < 10 {
        seq![digit_char(n)]
    } else {
        decimal_digits(n / 10).push(digit_char(n % 10))
    }
}

/// `value` written in decimal, with a minus sign when negative.
pub open spec fn signed_decimal(value: i32) -> Seq<char> {
    if value < 0 {
        seq!['-'] + decimal_digits((-value) as nat)
    } else {
        decimal_digits(value as nat)
    }
}

/// The one-character text of the decimal digit `d`.
fn digit_text(d: u64) -> (r: &'static str)
    requires
        d < 10,
    ensures
        r@ == seq![digit_char(d as nat)],
{
    proof {
        reveal_strlit("0");
        reveal_strlit("1");
        reveal_strlit("2");
        reveal_strlit("3");
        reveal_strlit("4");
        reveal_strlit("5");
        reveal_strlit("6");
        reveal_strlit("7");
        reveal_strlit("8");
        reveal_strlit("9");
    }
    if d == 0 {
        "0"
    } else if d == 1 {
        "1"
    } else if d == 2 {
        "2"
    } else if d == 3 {
        "3"
    } else if d == 4 {
        "4"
    } else if d == 5 {
        "5"
    } else if d == 6 {
        "6"
    } else if d == 7 {
        "7"
    } else if d == 8 {
        "8"
    } else {
        "9"
    }
}

/// `value` written in decimal.
pub(crate) fn u64_to_decimal(value: u64) -> (r: String)
    ensures
        r@ == decimal_digits(value as nat),
    decreases value,
{
    if value < 10 {
        String::from_str(digit_text(value))
    } else {
        let head = u64_to_decimal(value / 10);
        head.concat(digit_text(value % 10))
    }
}

/// `value` written in decimal.
pub(crate) fn u32_to_decimal(value: u32) -> (r: String)
    ensures
        r@ == decimal_digits(value as nat),
{
    u64_to_decimal(value as u64)
}

/// `value` written in decimal, with a minus sign when negative.
pub(crate) fn i32_to_decimal(value: i32) -> (r: String)
    ensures
        r@ == signed_decimal(value),
{
    if value < 0 {
        let magnitude: u64 = (-(value as i64)) as u64;
        proof {
            reveal_strlit("-");
        }
        String::from_str("-").concat(u64_to_decimal(magnitude).as_str())
    } else {
        u64_to_decimal(value as u64)
    }
}

/// Whether `pattern` occurs in `text` starting at position `start`.
pub open spec fn occurs_at(text: Seq<char>, pattern: Seq<char>, start: int) -> bool {
    0 <= start && start + pattern.len() <= text.len() && text.subrange(
        start,
        start + pattern.len(),
    ) == pattern
}

/// Whether `pattern` occurs somewhere in `text`.
pub open spec fn contains_text(text: Seq<char>, pattern: Seq<char>) -> bool {
    exists|start: int| occurs_at(text, pattern, start)
}

/// Whether two strings hold the same characters.
pub fn str_equal(a: &str, b: &str) -> (r: bool)
    ensures
        r == (a@ == b@),
{
    let n = a.unicode_len();
    let m = b.unicode_len();
    if n != m {
        return false;
    }
    let mut i: usize = 0;
    while i < n
        invariant
            n == a@.len(),
            m == b@.len(),
            n == m,
            i <= n,
            forall|j: int| 0 <= j < i ==> a@[j] == b@[j],
        decreases n - i,
    {
        if a.get_char(i) != b.get_char(i) {
            return false;
        }
        i = i + 1;
    }
    proof {
        assert(a@ =~= b@);
    }
    true
}

/// Whether `pattern` occurs in `text` at position `start`.
fn matches_at(text: &str, pattern: &str, start: usize) -> (r: bool)
    requires
        start + pattern@.len() <= text@.len(),
    ensures
        r == occurs_at(text@, pattern@, start as int),
{
    let n = text.unicode_len();
    let m = pattern.unicode_len();
    let mut j: usize = 0;
    while j < m
        invariant
            n == text@.len(),
            m == pattern@.len(),
            start + m <= text@.len(),
            j <= m,
            forall|k: int| 0 <= k < j ==> text@[start + k] == pattern@[k],
        decreases m - j,
    {
        if text.get_char(start + j) != pattern.get_char(j) {
            proof {
                assert(text@.subrange(start as int, start + m)[j as int] != pattern@[j as int]);
            }
            return false;
        }
        j = j + 1;
    }
    proof {
        assert(text@.subrange(start as int, start + m) =~= pattern@);
    }
    true
}

/// Whether `pattern` occurs somewhere in `text`; the empty pattern occurs in every text.
pub fn str_contains(text: &str, pattern: &str) -> (r: bool)
    ensures
        r == contains_text(text@, pattern@),
{
    let n = text.unicode_len();
    let m = pattern.unicode_len();
    if m > n {
        proof {
            assert forall|start: int| !occurs_at(text@, pattern@, start) by {}
        }
        return false;
    }
    let last = n - m;
    let mut start: usize = 0;
    while start < last
        invariant
            n == text@.len(),
            m == pattern@.len(),
            m <= n,
            last == n - m,
            start <= last,
            forall|s: int| 0 <= s < start ==> !occurs_at(text@, pattern@, s),
        decreases last - start,
    {
        if matches_at(text, pattern, start) {
            return true;
        }
        start = start + 1;
    }
    if matches_at(text, pattern, last) {
        return true;
    }
    proof {
        assert forall|s: int| !occurs_at(text@, pattern@, s) by {
            if 0 <= s < last {
            } else if s == last {
            } else {
            }
        }
    }
    false
}

} // verus!
