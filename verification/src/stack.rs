//! A LIFO stack over a forward-linked chain of singly-owned nodes, with an
//! optional hard capacity ceiling.
//!
//! The abstract model of a stack is the sequence of its values from the
//! bottom of the chain to the top, so `push` appends to the model and `pop`
//! removes the model's last element.

use vstd::prelude::*;

verus! {

/// A single forward-link cell: one value and exclusive ownership of the
/// rest of the chain.
struct Node<T> {
    value: T,
    next: Option<Box<Node<T>>>,
}

/// A LIFO container with head-only access.
///
/// `capacity` is the maximum number of live nodes the stack permits;
/// an unbounded stack represents that ceiling as `usize::MAX`.
pub struct Stack<T> {
    head: Option<Box<Node<T>>>,
    capacity: usize,
    size: usize,
}

impl<T> Node<T> {
    /// The values of the chain hanging from `node_opt`, ordered from the
    /// deepest node up to `node_opt` itself.
    spec fn chain_values(node_opt: Option<Box<Node<T>>>) -> Seq<T>
        decreases node_opt,
    {
        match node_opt {
            None => Seq::empty(),
            Some(node) => Node::chain_values(node.next).push(node.value),
        }
    }
}

/// The values that popping a stack until it is empty yields, in the order
/// popped: each pop returns the model's last element and drops it, exactly
/// as [`Stack::pop`]'s contract states.
pub open spec fn drain_order<T>(s: Seq<T>) -> Seq<T>
    decreases s.len(),
{
    if s.len() == 0 {
        Seq::empty()
    } else {
        seq![s.last()] + drain_order(s.drop_last())
    }
}

/// LIFO law: for every sequence of pushes followed by pops, the pop order is
/// the exact reverse of the push order. A stack built by pushing the values
/// of `s` in order has `s` as its model, and draining it yields `s` reversed.
pub proof fn lemma_lifo_order<T>(s: Seq<T>)
    ensures
        drain_order(s) == s.reverse(),
    decreases s.len(),
{
    if s.len() == 0 {
        assert(drain_order(s) =~= s.reverse());
    } else {
        lemma_lifo_order(s.drop_last());
        assert(drain_order(s) =~= s.reverse());
    }
}

impl<T> View for Stack<T> {
    type V = Seq<T>;

    /// The stack as a sequence: index 0 is the bottom, the last element is
    /// the top of the stack.
    closed spec fn view(&self) -> Seq<T> {
        Node::chain_values(self.head)
    }
}

impl<T> Stack<T> {
    /// The capacity ceiling configured at construction.
    pub closed spec fn spec_capacity(self) -> usize {
        self.capacity
    }

    /// Well-formedness: the tracked size counts the nodes reachable from the
    /// head, and never exceeds the capacity ceiling.
    pub closed spec fn wf(self) -> bool {
        &&& self.size == self@.len()
        &&& self.size <= self.capacity
    }

    /// Constructs a new, empty stack with an unbounded capacity ceiling.
    pub fn new() -> (s: Self)
        ensures
            s.wf(),
            s@ == Seq::<T>::empty(),
            s.spec_capacity() == usize::MAX,
    {
        Stack { head: None, capacity: usize::MAX, size: 0 }
    }

    /// Constructs a new, empty stack that permits at most `capacity` values.
    /// A capacity of 0 is legal: every push then overflows immediately.
    pub fn with_capacity(capacity: usize) -> (s: Self)
        ensures
            s.wf(),
            s@ == Seq::<T>::empty(),
            s.spec_capacity() == capacity,
    {
        Stack { head: None, capacity, size: 0 }
    }

    /// Pushes `value` on top of the stack.
    ///
    /// Pushing past the capacity ceiling is a hard precondition violation,
    /// not a recoverable error: callers that want silent rejection must
    /// check `is_full` beforehand.
    pub fn push(&mut self, value: T)
        requires
            old(self).wf(),
            old(self)@.len() < old(self).spec_capacity(),
        ensures
            final(self).wf(),
            final(self)@ == old(self)@.push(value),
            final(self).spec_capacity() == old(self).spec_capacity(),
    {
        let next = self.head.take();
        self.head = Some(Box::new(Node { value, next }));
        self.size = self.size + 1;
    }

    /// Removes and returns the top value, or returns no value when the
    /// stack is empty.
    pub fn pop(&mut self) -> (r: Option<T>)
        requires
            old(self).wf(),
        ensures
            final(self).wf(),
            final(self).spec_capacity() == old(self).spec_capacity(),
            old(self)@.len() == 0 ==> r is None && final(self)@ == old(self)@,
            old(self)@.len() > 0 ==> r == Some(old(self)@.last())
                && final(self)@ == old(self)@.drop_last(),
    {
        match self.head.take() {
            None => None,
            Some(node) => {
                let n = *node;
                self.head = n.next;
                self.size = self.size - 1;
                Some(n.value)
            }
        }
    }

    /// Returns a read-only reference to the top value without mutation, or
    /// no value when the stack is empty.
    pub fn peek(&self) -> (r: Option<&T>)
        requires
            self.wf(),
        ensures
            self@.len() == 0 ==> r is None,
            self@.len() > 0 ==> (r matches Some(v) && *v == self@.last()),
    {
        match &self.head {
            None => None,
            Some(node) => Some(&node.value),
        }
    }

    /// True exactly when the stack holds no values.
    pub fn is_empty(&self) -> (r: bool)
        requires
            self.wf(),
        ensures
            r <==> self@.len() == 0,
    {
        self.size == 0
    }

    /// True exactly when the stack has reached its capacity ceiling, so
    /// that the next push would overflow.
    pub fn is_full(&self) -> (r: bool)
        requires
            self.wf(),
        ensures
            r <==> self@.len() >= self.spec_capacity(),
    {
        self.size >= self.capacity
    }

    /// The number of values currently on the stack.
    pub fn size(&self) -> (n: usize)
        requires
            self.wf(),
        ensures
            n == self@.len(),
    {
        self.size
    }

    /// The capacity ceiling configured at construction.
    pub fn capacity(&self) -> (c: usize)
        ensures
            c == self.spec_capacity(),
    {
        self.capacity
    }
}

impl<T> Drop for Stack<T> {
    /// Releases the owned chain node by node with an iterative drain loop,
    /// so that dropping a very long stack cannot exhaust the call stack the
    /// way a recursive release of the links would.
    fn drop(&mut self)
        opens_invariants none
        no_unwind
    {
        let mut cur: Option<Box<Node<T>>> = None;
        core::mem::swap(&mut cur, &mut self.head);
        loop
            decreases cur,
        {
            match cur {
                None => {
                    break;
                }
                Some(node) => {
                    let n = *node;
                    cur = n.next;
                }
            }
        }
    }
}

} // verus!
