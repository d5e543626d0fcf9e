use vstd::prelude::*;

verus! {

/// The number of priority levels of a priority mailbox.
pub const PRIORITY_LEVELS: usize = 8;

/// The priority of a message that names none: the middle level, half of
/// `PRIORITY_LEVELS`.
pub const DEFAULT_PRIORITY: i8 = 4;

/// A message that may carry its own priority.
pub trait PriorityMessage {
    /// The priority, or `None` for the default.
    fn get_priority(&self) -> Option<i8>;
}

/// The default priority is the middle of the levels.
pub proof fn lemma_default_priority_is_middle()
    ensures
        DEFAULT_PRIORITY as int * 2 == PRIORITY_LEVELS as int,
{
}

} // verus!
