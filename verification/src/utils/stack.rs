use vstd::prelude::*;

verus! {

/// A last-in, first-out stack backed by a `Vec`.
#[derive(Debug, Clone)]
pub struct Stack<T> {
    items: Vec<T>,
}

impl<T> View for Stack<T> {
    type V = Seq<T>;

    /// The items from bottom (index 0) to top (last index).
    closed spec fn view(&self) -> Seq<T> {
        self.items@
    }
}

impl<T> Stack<T> {
    /// An empty stack.
    pub fn new() -> (s: Self)
        ensures
            s@ == Seq::<T>::empty(),
    {
        Stack { items: Vec::new() }
    }

    /// Puts `item` on top.
    pub fn push(&mut self, item: T)
        ensures
            final(self)@ == old(self)@.push(item),
    {
        self.items.push(item);
    }

    /// Takes the top item off, or returns `None` on an empty stack.
    pub fn pop(&mut self) -> (r: Option<T>)
        ensures
            old(self)@.len() == 0 ==> r is None && final(self)@ == old(self)@,
            old(self)@.len() > 0 ==> r == Some(old(self)@.last()) && final(self)@
                == old(self)@.drop_last(),
    {
        self.items.pop()
    }

    /// A clone of the top item, or `None` on an empty stack; the stack is unchanged.
    pub fn peek(&self) -> (r: Option<T>) where T: Clone
        ensures
            self@.len() == 0 ==> r is None,
            self@.len() > 0 ==> r is Some && cloned(self@.last(), r->0),
    {
        let n = self.items.len();
        if n == 0 {
            None
        } else {
            Some(self.items[n - 1].clone())
        }
    }

    /// Whether the stack holds no item.
    pub fn is_empty(&self) -> (r: bool)
        ensures
            r == (self@.len() == 0),
    {
        self.items.len() == 0
    }

    /// The number of items.
    pub fn size(&self) -> (r: usize)
        ensures
            r == self@.len(),
    {
        self.items.len()
    }

    /// Removes every item.
    pub fn clear(&mut self)
        ensures
            final(self)@ == Seq::<T>::empty(),
    {
        self.items.clear();
    }
}

impl<T> Default for Stack<T> {
    fn default() -> (s: Self)
        ensures
            s@ == Seq::<T>::empty(),
    {
        Stack::new()
    }
}

/// Pushing an item and popping it again gives that item back and leaves the
/// stack as it was.
pub proof fn lemma_push_then_pop<T>(s: Seq<T>, item: T)
    ensures
        s.push(item).len() == s.len() + 1,
        s.push(item).last() == item,
        s.push(item).drop_last() == s,
{
    assert(s.push(item).drop_last() =~= s);
}

/// One call on a stack.
pub enum StackOp<T> {
    Push(T),
    Pop,
    Clear,
}

/// The items after one call, as that call's contract gives them.
pub open spec fn stack_after<T>(items: Seq<T>, op: StackOp<T>) -> Seq<T> {
    match op {
        StackOp::Push(item) => items.push(item),
        StackOp::Pop => if items.len() > 0 {
            items.drop_last()
        } else {
            items
        },
        StackOp::Clear => Seq::empty(),
    }
}

/// The items of a new stack after a sequence of calls.
pub open spec fn stack_after_all<T>(ops: Seq<StackOp<T>>) -> Seq<T>
    decreases ops.len(),
{
    if ops.len() == 0 {
        Seq::empty()
    } else {
        stack_after(stack_after_all(ops.drop_last()), ops.last())
    }
}

/// The pushes since the last clear, less the pops since then that found an
/// item.
pub open spec fn net_pushes<T>(ops: Seq<StackOp<T>>) -> nat
    decreases ops.len(),
{
    if ops.len() == 0 {
        0
    } else {
        let before = net_pushes(ops.drop_last());
        match ops.last() {
            StackOp::Push(_) => before + 1,
            StackOp::Pop => if before > 0 {
                (before - 1) as nat
            } else {
                0
            },
            StackOp::Clear => 0,
        }
    }
}

/// The size of a new stack after any sequence of calls is the number of
/// pushes since the last clear less the pops since then that found an
/// item; the stack is empty exactly when that number is 0.
pub proof fn lemma_size_counts_pushes<T>(ops: Seq<StackOp<T>>)
    ensures
        stack_after_all(ops).len() == net_pushes(ops),
    decreases ops.len(),
{
    if ops.len() > 0 {
        lemma_size_counts_pushes(ops.drop_last());
    }
}

} // verus!
