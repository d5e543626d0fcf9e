use nexus_actor::utils::priority::{PriorityMessage, DEFAULT_PRIORITY, PRIORITY_LEVELS};
use nexus_actor::utils::stack::Stack;
use nexus_actor::utils::text::{str_contains, str_equal};
use nexus_actor::utils::wait_group::WaitGroup;

#[test]
fn stack_is_last_in_first_out() {
    let mut stack: Stack<i32> = Stack::new();
    assert!(stack.is_empty());
    assert_eq!(stack.pop(), None);
    stack.push(1);
    stack.push(2);
    assert_eq!(stack.size(), 2);
    assert_eq!(stack.peek(), Some(2));
    assert_eq!(stack.pop(), Some(2));
    assert_eq!(stack.pop(), Some(1));
    assert_eq!(stack.peek(), None);
    stack.push(3);
    stack.clear();
    assert!(stack.is_empty());
    let default: Stack<u8> = Stack::default();
    assert_eq!(default.size(), 0);
}

#[test]
fn wait_group_wakes_on_last_done() {
    let mut wg = WaitGroup::new();
    assert_eq!(wg.count(), 0);
    wg.add(3);
    assert!(!wg.done());
    assert!(!wg.done());
    assert!(wg.done());
    assert_eq!(wg.count(), 0);
    let mut wg = WaitGroup::with_count(1);
    assert!(wg.done());
    let mut wg = WaitGroup::default();
    wg.add(usize::MAX);
    wg.add(2);
    assert_eq!(wg.count(), 1);
}

struct Urgent;

impl PriorityMessage for Urgent {
    fn get_priority(&self) -> Option<i8> {
        Some(7)
    }
}

#[test]
fn priority_levels_and_default() {
    assert_eq!(PRIORITY_LEVELS, 8);
    assert_eq!(DEFAULT_PRIORITY, 4);
    assert_eq!(Urgent.get_priority(), Some(7));
}

#[test]
fn text_helpers_compare_and_search() {
    assert!(str_equal("abc", "abc"));
    assert!(!str_equal("abc", "abd"));
    assert!(!str_equal("abc", "ab"));
    assert!(str_contains("user/alpha", "alpha"));
    assert!(str_contains("user/alpha", ""));
    assert!(!str_contains("user", "user/alpha"));
}

#[test]
fn stack_size_counts_pushes_less_found_pops() {
    let mut stack: Stack<u64> = Stack::new();
    stack.push(1);
    stack.push(2);
    assert_eq!(stack.pop(), Some(2));
    stack.push(3);
    assert_eq!(stack.size(), 2);
    stack.clear();
    assert_eq!(stack.pop(), None);
    stack.push(4);
    assert_eq!(stack.size(), 1);
    assert_eq!(stack.peek(), Some(4));
    assert_eq!(stack.pop(), Some(4));
    assert!(stack.is_empty());
}
