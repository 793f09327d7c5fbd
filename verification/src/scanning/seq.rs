//! A pull-based sequence with bounded lookahead over a vector of items.

use vstd::prelude::*;

verus! {

/// The abstract value of a character sequence: the items it was created
/// over, and how many of them have been returned so far.
pub ghost struct CharacterSequenceView<T> {
    pub items: Seq<T>,
    pub position: int,
}

/// A pull-based cursor over the items of a vector: `next` returns the
/// items in order, `peek_next` and `peek_ahead` look one and two items
/// ahead without consuming, and `previous` remembers the last item
/// returned, even after the iteration is complete.
pub struct CharacterSequence<T: Copy> {
    items: Vec<T>,
    position: usize,
}

impl<T: Copy> View for CharacterSequence<T> {
    type V = CharacterSequenceView<T>;

    closed spec fn view(&self) -> CharacterSequenceView<T> {
        CharacterSequenceView { items: self.items@, position: self.position as int }
    }
}

impl<T: Copy> CharacterSequence<T> {
    /// The cursor never moves past the end of its items, and its
    /// position always fits the machine's word.
    pub open spec fn wf(self) -> bool {
        &&& self@.position <= self@.items.len()
        &&& self@.position <= usize::MAX
    }

    /// What `peek_next` returns: the next item to be returned, if any.
    pub open spec fn peek_next_spec(self) -> Option<T> {
        if self@.position < self@.items.len() {
            Some(self@.items[self@.position])
        } else {
            None
        }
    }

    /// What `peek_ahead` returns: the item after the next one, if any.
    pub open spec fn peek_ahead_spec(self) -> Option<T> {
        if self@.position + 1 < self@.items.len() {
            Some(self@.items[self@.position + 1])
        } else {
            None
        }
    }

    /// What `previous` returns: the last item returned, if any.
    pub open spec fn previous_spec(self) -> Option<T> {
        if self@.position > 0 {
            Some(self@.items[self@.position - 1])
        } else {
            None
        }
    }

    /// Builds a sequence positioned before the first item of `source`.
    pub fn new(source: Vec<T>) -> (s: CharacterSequence<T>)
        ensures
            s.wf(),
            s@.items == source@,
            s@.position == 0,
    {
        CharacterSequence { items: source, position: 0 }
    }

    /// The next item to be returned, without consuming it.
    pub fn peek_next(&self) -> (r: Option<T>)
        requires
            self.wf(),
        ensures
            r == self.peek_next_spec(),
    {
        if self.position < self.items.len() {
            Some(self.items[self.position])
        } else {
            None
        }
    }

    /// The item after the next one, without consuming anything.
    pub fn peek_ahead(&self) -> (r: Option<T>)
        requires
            self.wf(),
        ensures
            r == self.peek_ahead_spec(),
    {
        if self.position < self.items.len() && self.items.len() - self.position > 1 {
            Some(self.items[self.position + 1])
        } else {
            None
        }
    }

    /// The last item returned by `next`, kept after iteration completes.
    pub fn previous(&self) -> (r: Option<T>)
        requires
            self.wf(),
        ensures
            r == self.previous_spec(),
    {
        if self.position > 0 {
            Some(self.items[self.position - 1])
        } else {
            None
        }
    }

    /// Returns the next item and advances past it, or `None` once every
    /// item has been returned.
    pub fn next(&mut self) -> (r: Option<T>)
        requires
            old(self).wf(),
        ensures
            final(self).wf(),
            final(self)@.items == old(self)@.items,
            old(self)@.position < old(self)@.items.len() ==> {
                &&& r == Some(old(self)@.items[old(self)@.position])
                &&& final(self)@.position == old(self)@.position + 1
            },
            old(self)@.position == old(self)@.items.len() ==> {
                &&& r is None
                &&& final(self)@.position == old(self)@.position
            },
    {
        if self.position < self.items.len() {
            let item = self.items[self.position];
            self.position = self.position + 1;
            Some(item)
        } else {
            None
        }
    }
}

} // verus!
