//! The bounded operand stack of 256-bit words.

use crate::word::Word;
use vstd::prelude::*;

verus! {

/// Highest number of words the operand stack may hold.
pub const STACK_LIMIT: usize = 1024;

/// Bounded last-in-first-out stack of 256-bit words. The view is the
/// sequence of word contents, bottom of the stack first.
pub struct Stack {
    items: Vec<Word>,
}

impl View for Stack {
    type V = Seq<Seq<u8>>;

    closed spec fn view(&self) -> Seq<Seq<u8>> {
        self.items@.map_values(|w: Word| w@)
    }
}

impl Stack {
    /// Within the size bound, and every entry a full 32-byte word.
    pub open spec fn wf(&self) -> bool {
        &&& self@.len() <= 1024
        &&& forall|i: int| 0 <= i < self@.len() ==> (#[trigger] self@[i]).len() == 32
    }

    pub fn new() -> (s: Stack)
        ensures
            s.wf(),
            s@ =~= Seq::<Seq<u8>>::empty(),
    {
        Stack { items: Vec::new() }
    }

    pub fn len(&self) -> (n: usize)
        ensures
            n == self@.len(),
    {
        self.items.len()
    }

    pub fn push(&mut self, w: Word)
        requires
            old(self).wf(),
            w.wf(),
            old(self)@.len() < 1024,
        ensures
            final(self).wf(),
            final(self)@ == old(self)@.push(w@),
    {
        self.items.push(w);
        proof {
            assert(self@ =~= old(self)@.push(w@));
        }
    }

    pub fn pop(&mut self) -> (w: Word)
        requires
            old(self).wf(),
            old(self)@.len() > 0,
        ensures
            final(self).wf(),
            w@ == old(self)@.last(),
            final(self)@ == old(self)@.drop_last(),
    {
        let w = self.items.pop().unwrap();
        proof {
            assert(self@ =~= old(self)@.drop_last());
        }
        w
    }

    /// A copy of the top word, which stays on the stack.
    pub fn peek(&self) -> (w: Word)
        requires
            self.wf(),
            self@.len() > 0,
        ensures
            w.wf(),
            w@ == self@.last(),
    {
        let i = self.items.len() - 1;
        let w = self.items[i].clone();
        proof {
            assert(self@[i as int] == self.items@[i as int]@);
        }
        w
    }

    /// Replaces the top word in place.
    pub fn set_top(&mut self, w: Word)
        requires
            old(self).wf(),
            w.wf(),
            old(self)@.len() > 0,
        ensures
            final(self).wf(),
            final(self)@ == old(self)@.update(old(self)@.len() - 1, w@),
    {
        let i = self.items.len() - 1;
        self.items[i] = w;
        proof {
            assert(self@ =~= old(self)@.update(old(self)@.len() - 1, w@));
        }
    }
}

} // verus!
