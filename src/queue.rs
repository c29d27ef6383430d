//! The content queue: fragments waiting to be paced out, in arrival order.

use vstd::prelude::*;
use std::collections::VecDeque;

verus! {

/// A first-in first-out queue of text fragments.
pub struct ContentQueue {
    items: VecDeque<String>,
}

impl View for ContentQueue {
    type V = Seq<Seq<char>>;

    closed spec fn view(&self) -> Seq<Seq<char>> {
        self.items@.map_values(|s: String| s@)
    }
}

impl ContentQueue {
    /// An empty queue.
    pub fn new() -> (r: ContentQueue)
        ensures
            r@ == Seq::<Seq<char>>::empty(),
    {
        let q = ContentQueue { items: VecDeque::new() };
        assert(q@ =~= Seq::<Seq<char>>::empty());
        q
    }

    /// Appends a fragment at the back.
    pub fn enqueue(&mut self, fragment: String)
        ensures
            final(self)@ == old(self)@.push(fragment@),
    {
        self.items.push_back(fragment);
        assert(self@ =~= old(self)@.push(fragment@));
    }

    /// Takes the fragment at the front, if any.
    pub fn dequeue(&mut self) -> (r: Option<String>)
        ensures
            old(self)@.len() == 0 ==> r is None && final(self)@ == old(self)@,
            old(self)@.len() > 0 ==> r is Some && r->0@ == old(self)@[0] && final(self)@
                == old(self)@.drop_first(),
    {
        let r = self.items.pop_front();
        assert(self@ =~= old(self)@.subrange(if old(self)@.len() > 0 { 1 } else { 0 }, old(self)@.len() as int));
        r
    }

    /// Whether no fragment is waiting.
    pub fn is_empty(&self) -> (r: bool)
        ensures
            r == (self@.len() == 0),
    {
        self.items.len() == 0
    }

    /// How many fragments are waiting.
    pub fn len(&self) -> (r: usize)
        ensures
            r == self@.len(),
    {
        self.items.len()
    }
}

} // verus!
