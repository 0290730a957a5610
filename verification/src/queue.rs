//! A FIFO queue over a forward-linked chain of nodes held in an arena, with
//! a tracked tail index for constant-time append.

use vstd::pervasive::unreached;
use vstd::prelude::*;

verus! {

/// A single forward-link cell: one value and the arena index of the next
/// node in the chain, or `None` at the chain's end.
struct Node<T> {
    value: T,
    next: Option<usize>,
}

/// A FIFO container with constant-time access to both ends.
///
/// Nodes live in an arena of slots addressed by integer indices; a slot of a
/// dequeued node holds `None`. The chain of live nodes starts at `front` and
/// runs along each node's `next` index; `back` caches the index of the last
/// node so that enqueue never traverses the chain.
pub struct Queue<T> {
    nodes: Vec<Option<Node<T>>>,
    front: Option<usize>,
    back: Option<usize>,
    size: usize,
    chain: Ghost<Seq<usize>>,
}

/// The values that dequeueing a queue until it is empty yields, in the
/// order dequeued: each dequeue returns the model's first element and drops
/// it, exactly as [`Queue::dequeue`]'s contract states.
pub open spec fn drain_order<T>(s: Seq<T>) -> Seq<T>
    decreases s.len(),
{
    if s.len() == 0 {
        Seq::empty()
    } else {
        seq![s.first()] + drain_order(s.drop_first())
    }
}

/// FIFO law: for every sequence of enqueues followed by dequeues, the
/// dequeue order equals the enqueue order. A queue built by enqueueing the
/// values of `s` in order has `s` as its model, and draining it yields `s`
/// itself.
pub proof fn lemma_fifo_order<T>(s: Seq<T>)
    ensures
        drain_order(s) == s,
    decreases s.len(),
{
    if s.len() == 0 {
        assert(drain_order(s) =~= s);
    } else {
        lemma_fifo_order(s.drop_first());
        assert(drain_order(s) =~= s);
    }
}

impl<T> View for Queue<T> {
    type V = Seq<T>;

    /// The queue as a sequence: index 0 is the front (next to leave), the
    /// last element is the rear (most recently enqueued).
    closed spec fn view(&self) -> Seq<T> {
        Seq::new(self.chain@.len(), |k: int| self.nodes@[self.chain@[k] as int].unwrap().value)
    }
}

impl<T> Queue<T> {
    /// Well-formedness: `chain` lists the arena indices of the live nodes in
    /// queue order; the front and back fields locate its two ends, the
    /// stored links thread it together, and `size` counts its nodes.
    pub closed spec fn wf(self) -> bool {
        let ch = self.chain@;
        &&& self.size == ch.len()
        &&& (self.front is None <==> ch.len() == 0)
        &&& (self.back is None <==> ch.len() == 0)
        &&& (ch.len() > 0 ==> self.front == Some(ch[0]) && self.back == Some(ch[ch.len() - 1]))
        &&& (forall|k: int|
            0 <= k < ch.len() ==> (#[trigger] ch[k]) < self.nodes@.len()
                && self.nodes@[ch[k] as int] is Some)
        &&& (forall|k: int|
            0 <= k < ch.len() - 1 ==> (#[trigger] self.nodes@[ch[k] as int]).unwrap().next
                == Some(ch[k + 1]))
        &&& (ch.len() > 0 ==> self.nodes@[ch[ch.len() - 1] as int].unwrap().next is None)
        &&& (forall|k1: int, k2: int|
            0 <= k1 < k2 < ch.len() ==> #[trigger] ch[k1] != #[trigger] ch[k2])
    }

    /// Constructs a new, empty queue.
    pub fn new() -> (q: Self)
        ensures
            q.wf(),
            q@ == Seq::<T>::empty(),
    {
        Queue {
            nodes: Vec::new(),
            front: None,
            back: None,
            size: 0,
            chain: Ghost(Seq::empty()),
        }
    }

    /// Adds `value` at the rear of the queue.
    ///
    /// The new node takes a fresh arena slot; the old tail node's link is
    /// redirected to it and the tail index updated, so no step traverses
    /// the chain.
    pub fn enqueue(&mut self, value: T)
        requires
            old(self).wf(),
            old(self)@.len() < usize::MAX,
        ensures
            final(self).wf(),
            final(self)@ == old(self)@.push(value),
    {
        let j = self.nodes.len();
        self.nodes.push(Some(Node { value, next: None }));
        match self.back {
            None => {
                self.front = Some(j);
            }
            Some(b) => {
                let slot = &mut self.nodes[b];
                match slot {
                    Some(node) => {
                        node.next = Some(j);
                    }
                    None => unreached(),
                }
            }
        }
        self.back = Some(j);
        self.size = self.size + 1;
        self.chain = Ghost(self.chain@.push(j));
    }

    /// Removes and returns the front value, or returns no value when the
    /// queue is empty.
    ///
    /// When the removal drains the chain, the tail index is reset and the
    /// arena released: the tail index is a cache, and must never outlive
    /// the chain it points into.
    pub fn dequeue(&mut self) -> (r: Option<T>)
        requires
            old(self).wf(),
        ensures
            final(self).wf(),
            old(self)@.len() == 0 ==> r is None && final(self)@ == old(self)@,
            old(self)@.len() > 0 ==> r == Some(old(self)@.first())
                && final(self)@ == old(self)@.drop_first(),
    {
        match self.front {
            None => None,
            Some(f) => {
                let slot = &mut self.nodes[f];
                let n = slot.take().unwrap();
                self.front = n.next;
                self.size = self.size - 1;
                self.chain = Ghost(self.chain@.drop_first());
                if self.front.is_none() {
                    self.back = None;
                    self.nodes.clear();
                }
                Some(n.value)
            }
        }
    }

    /// Returns a read-only reference to the front value, or no value when
    /// the queue is empty.
    pub fn front(&self) -> (r: Option<&T>)
        requires
            self.wf(),
        ensures
            self@.len() == 0 ==> r is None,
            self@.len() > 0 ==> (r matches Some(v) && *v == self@.first()),
    {
        match self.front {
            None => None,
            Some(f) => {
                match &self.nodes[f] {
                    Some(node) => Some(&node.value),
                    None => unreached(),
                }
            }
        }
    }

    /// Returns a read-only reference to the rear value, located through the
    /// tail index, or no value when the queue is empty.
    pub fn rear(&self) -> (r: Option<&T>)
        requires
            self.wf(),
        ensures
            self@.len() == 0 ==> r is None,
            self@.len() > 0 ==> (r matches Some(v) && *v == self@.last()),
    {
        match self.back {
            None => None,
            Some(b) => {
                match &self.nodes[b] {
                    Some(node) => Some(&node.value),
                    None => unreached(),
                }
            }
        }
    }

    /// True exactly when the queue holds no values.
    pub fn is_empty(&self) -> (r: bool)
        requires
            self.wf(),
        ensures
            r <==> self@.len() == 0,
    {
        self.size == 0
    }

    /// The number of values currently in the queue.
    pub fn size(&self) -> (n: usize)
        requires
            self.wf(),
        ensures
            n == self@.len(),
    {
        self.size
    }
}

} // verus!
