use dashmap::DashSet;
use vstd::prelude::*;

verus! {

/// Declares `dashmap::DashSet` to the verifier; its contents are reached
/// only through [`blocked_members_of`].
#[verifier::external_type_specification]
#[verifier::external_body]
#[verifier::reject_recursive_types(K)]
#[verifier::reject_recursive_types(S)]
pub struct ExDashSet<K, S>(DashSet<K, S>);

/// The strings held by a `DashSet<String>`, as character sequences.
pub uninterp spec fn blocked_members_of(s: DashSet<String>) -> Set<Seq<char>>;

/// Calls `DashSet::new`: an empty set.
#[verifier::external_body]
fn members_new() -> (r: DashSet<String>)
    ensures
        blocked_members_of(r) == Set::<Seq<char>>::empty(),
{
    DashSet::new()
}

/// Calls `DashSet::insert`: the key is in the set afterwards, and the answer
/// says whether it was absent before.
#[verifier::external_body]
fn members_insert(s: &mut DashSet<String>, key: String) -> (r: bool)
    ensures
        blocked_members_of(*final(s)) == blocked_members_of(*old(s)).insert(key@),
        r == !blocked_members_of(*old(s)).contains(key@),
{
    s.insert(key)
}

/// Calls `DashSet::remove`: the key is absent afterwards, and the removed
/// key is handed back when it was present.
#[verifier::external_body]
fn members_remove(s: &mut DashSet<String>, key: &str) -> (r: Option<String>)
    ensures
        blocked_members_of(*final(s)) == blocked_members_of(*old(s)).remove(key@),
        r is Some == blocked_members_of(*old(s)).contains(key@),
        r matches Some(k) ==> k@ == key@,
{
    s.remove(key)
}

/// Calls `DashSet::contains`: whether the key is in the set.
#[verifier::external_body]
fn members_contains(s: &DashSet<String>, key: &str) -> (r: bool)
    ensures
        r == blocked_members_of(*s).contains(key@),
{
    s.contains(key)
}

/// Calls `DashSet::clear`: the set is empty afterwards.
#[verifier::external_body]
fn members_clear(s: &mut DashSet<String>)
    ensures
        blocked_members_of(*final(s)) == Set::<Seq<char>>::empty(),
{
    s.clear()
}

/// Collects the keys of the set through `DashSet::iter`, each key once, in
/// the order the iterator gives, which is left unsaid.
#[verifier::external_body]
fn members_list(s: &DashSet<String>) -> (r: Vec<String>)
    ensures
        r@.map_values(|k: String| k@).to_set() == blocked_members_of(*s) && r@.map_values(
            |k: String| k@,
        ).no_duplicates(),
{
    s.iter().map(|k| k.key().clone()).collect()
}

/// Membership in a block list, as the remote layer consults it.
pub trait BlockListStore {
    /// Whether the system is blocked.
    fn is_blocked(&self, system: &str) -> bool;
}

/// The systems whose connections are refused.
///
/// A block list owns its set and is not cloned: handles that must see the
/// same set share one block list value.
#[derive(Debug)]
pub struct BlockList {
    blocked_members: DashSet<String>,
}

impl View for BlockList {
    type V = Set<Seq<char>>;

    closed spec fn view(&self) -> Set<Seq<char>> {
        blocked_members_of(self.blocked_members)
    }
}

impl BlockList {
    /// A list that blocks nobody.
    pub fn new() -> (r: Self)
        ensures
            r@ == Set::<Seq<char>>::empty(),
    {
        BlockList { blocked_members: members_new() }
    }

    /// Blocks `member`.
    pub fn block(&mut self, member: String)
        ensures
            final(self)@ == old(self)@.insert(member@),
    {
        members_insert(&mut self.blocked_members, member);
    }

    /// Blocks every member of `members`.
    pub fn block_multi(&mut self, members: Vec<String>)
        ensures
            final(self)@ == old(self)@.union(members@.map_values(|m: String| m@).to_set()),
    {
        let mut i: usize = 0;
        while i < members.len()
            invariant
                i <= members@.len(),
                self@ == old(self)@.union(
                    members@.take(i as int).map_values(|m: String| m@).to_set(),
                ),
            decreases members@.len() - i,
        {
            proof {
                let before = members@.take(i as int).map_values(|m: String| m@);
                assert(members@.take(i + 1).map_values(|m: String| m@) =~= before.push(
                    members@[i as int]@,
                ));
                before.lemma_push_to_set_commute(members@[i as int]@);
            }
            self.block(members[i].clone());
            i = i + 1;
        }
        proof {
            assert(members@.take(members@.len() as int) =~= members@);
        }
    }

    /// Unblocks `member`.
    pub fn unblock(&mut self, member: String)
        ensures
            final(self)@ == old(self)@.remove(member@),
    {
        members_remove(&mut self.blocked_members, member.as_str());
    }

    /// Unblocks every member of `members`.
    pub fn unblock_multi(&mut self, members: Vec<String>)
        ensures
            final(self)@ == old(self)@.difference(members@.map_values(|m: String| m@).to_set()),
    {
        let mut i: usize = 0;
        while i < members.len()
            invariant
                i <= members@.len(),
                self@ == old(self)@.difference(
                    members@.take(i as int).map_values(|m: String| m@).to_set(),
                ),
            decreases members@.len() - i,
        {
            proof {
                let before = members@.take(i as int).map_values(|m: String| m@);
                assert(members@.take(i + 1).map_values(|m: String| m@) =~= before.push(
                    members@[i as int]@,
                ));
                before.lemma_push_to_set_commute(members@[i as int]@);
            }
            self.unblock(members[i].clone());
            i = i + 1;
        }
        proof {
            assert(members@.take(members@.len() as int) =~= members@);
        }
    }

    /// Whether `member` is blocked.
    pub fn is_blocked(&self, member: &str) -> (r: bool)
        ensures
            r == self@.contains(member@),
    {
        members_contains(&self.blocked_members, member)
    }

    /// Unblocks everybody.
    pub fn clear(&mut self)
        ensures
            final(self)@ == Set::<Seq<char>>::empty(),
    {
        members_clear(&mut self.blocked_members);
    }

    /// The blocked members, each once, in no particular order.
    pub fn get_blocked_members(&self) -> (r: Vec<String>)
        ensures
            r@.map_values(|k: String| k@).to_set() == self@,
            r@.map_values(|k: String| k@).no_duplicates(),
    {
        members_list(&self.blocked_members)
    }
}

impl BlockListStore for BlockList {
    fn is_blocked(&self, system: &str) -> (r: bool)
        ensures
            r == self@.contains(system@),
    {
        members_contains(&self.blocked_members, system)
    }
}

/// Blocking a member makes it blocked and unblocking it makes it no
/// longer blocked; neither changes whether any other member is blocked.
pub proof fn lemma_block_then_unblock(blocked: Set<Seq<char>>, member: Seq<char>, other: Seq<char>)
    requires
        other != member,
    ensures
        blocked.insert(member).contains(member),
        !blocked.insert(member).remove(member).contains(member),
        blocked.insert(member).contains(other) == blocked.contains(other),
        blocked.remove(member).contains(other) == blocked.contains(other),
{
}

} // verus!
