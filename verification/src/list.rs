//! The ready ring: an ordered queue of nodes with a head and a tail.

use std::collections::VecDeque;
use vstd::prelude::*;

verus! {

/// The ring `s` turned by one place: its head becomes its tail.
pub open spec fn rotate<T>(s: Seq<T>) -> Seq<T> {
    if s.len() == 0 {
        s
    } else {
        s.drop_first().push(s[0])
    }
}

/// The ring `s` turned until the node at position `k` is the head. The nodes
/// before it go to the tail, in their order.
pub open spec fn rotate_to<T>(s: Seq<T>, k: int) -> Seq<T>
    recommends
        0 <= k <= s.len(),
{
    s.subrange(k, s.len() as int) + s.subrange(0, k)
}

/// Turning a ring until position 1 is the head turns it by one place.
pub proof fn rotate_to_one<T>(s: Seq<T>)
    requires
        s.len() > 0,
    ensures
        rotate_to(s, 1) == rotate(s),
{
}

/// Turning a ring by one more place than `k` is turning it to `k`, then once.
pub proof fn rotate_to_next<T>(s: Seq<T>, k: int)
    requires
        0 <= k < s.len(),
    ensures
        rotate_to(s, k + 1) == rotate(rotate_to(s, k)),
{
}

/// Where the nodes of a ring stand after it was turned to `k`: the node that
/// was at position `i` stands `k` places nearer to the head, or has gone
/// round to the tail.
pub proof fn rotate_to_moves<T>(s: Seq<T>, k: int, i: int)
    requires
        0 <= k <= s.len(),
        0 <= i < s.len(),
    ensures
        rotate_to(s, k).len() == s.len(),
        i >= k ==> rotate_to(s, k)[i - k] == s[i],
        i < k ==> rotate_to(s, k)[i + s.len() - k] == s[i],
{
}

/// A ring turned to any place holds what it held, each node as often.
pub proof fn rotate_to_keeps_nodes<T>(s: Seq<T>, k: int)
    requires
        0 <= k <= s.len(),
    ensures
        rotate_to(s, k).to_multiset() == s.to_multiset(),
{
    let front = s.subrange(0, k);
    let back = s.subrange(k, s.len() as int);
    vstd::seq_lib::lemma_multiset_commutative(back, front);
    vstd::seq_lib::lemma_multiset_commutative(front, back);
    assert(front + back =~= s);
}

/// A ring turned by one place holds what it held, each node as often.
pub proof fn rotate_keeps_nodes<T>(s: Seq<T>)
    ensures
        rotate(s).to_multiset() == s.to_multiset(),
{
    if s.len() > 0 {
        rotate_to_one(s);
        rotate_to_keeps_nodes(s, 1);
    }
}

/// A ring that holds each node once does so when turned by one place.
pub proof fn rotate_keeps_distinct<T>(s: Seq<T>)
    requires
        s.no_duplicates(),
    ensures
        rotate(s).no_duplicates(),
{
    let turned = rotate(s);
    if s.len() > 0 {
        assert forall|i: int, j: int|
            0 <= i < turned.len() && 0 <= j < turned.len() && i != j implies turned[i]
            != turned[j] by {}
    }
}

/// A queue of nodes. The view is the sequence of its nodes from head to tail.
pub struct List<T> {
    nodes: VecDeque<T>,
}

impl<T> View for List<T> {
    type V = Seq<T>;

    closed spec fn view(&self) -> Seq<T> {
        self.nodes@
    }
}

impl<T> List<T> {
    pub fn new() -> (list: List<T>)
        ensures
            list@ == Seq::<T>::empty(),
    {
        List { nodes: VecDeque::new() }
    }

    pub fn len(&self) -> (len: usize)
        ensures
            len == self@.len(),
    {
        self.nodes.len()
    }

    /// The node at the head, if the list has one.
    pub fn head(&self) -> (head: Option<&T>)
        ensures
            self@.len() == 0 ==> head is None,
            self@.len() > 0 ==> head == Some(&self@[0]),
    {
        if self.nodes.len() == 0 {
            None
        } else {
            Some(&self.nodes[0])
        }
    }

    /// The node at position `i`, counted from the head.
    pub fn get(&self, i: usize) -> (node: &T)
        requires
            i < self@.len(),
        ensures
            *node == self@[i as int],
    {
        &self.nodes[i]
    }

    pub fn push_head(&mut self, node: T)
        ensures
            final(self)@ == seq![node] + old(self)@,
    {
        self.nodes.push_front(node);
    }

    pub fn push_tail(&mut self, node: T)
        ensures
            final(self)@ == old(self)@.push(node),
    {
        self.nodes.push_back(node);
    }

    /// Takes the head off the list.
    pub fn pop_head(&mut self) -> (head: Option<T>)
        ensures
            old(self)@.len() == 0 ==> head is None && final(self)@ == old(self)@,
            old(self)@.len() > 0 ==> head == Some(old(self)@[0]) && final(self)@ == old(
                self,
            )@.drop_first(),
    {
        self.nodes.pop_front()
    }

    /// Moves every node of `other` to the tail of this list, in order.
    pub fn append(&mut self, other: &mut List<T>)
        ensures
            final(self)@ == old(self)@ + old(other)@,
            final(other)@ == Seq::<T>::empty(),
    {
        self.nodes.append(&mut other.nodes);
    }

    /// Turns the ring until the node at position `k` is the head.
    pub fn rotate_to(&mut self, k: usize)
        requires
            k <= old(self)@.len(),
        ensures
            final(self)@ == rotate_to(old(self)@, k as int),
    {
        let mut i: usize = 0;
        while i < k
            invariant
                i <= k <= old(self)@.len(),
                self@ == rotate_to(old(self)@, i as int),
            decreases k - i,
        {
            proof {
                rotate_to_next(old(self)@, i as int);
            }
            let head = self.nodes.pop_front();
            match head {
                Some(node) => {
                    self.nodes.push_back(node);
                },
                None => {},
            }
            i = i + 1;
        }
    }
}

} // verus!
