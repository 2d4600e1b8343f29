//! The rolling buffer of a windowing stage.

use std::collections::VecDeque;
use vstd::prelude::*;

verus! {

/// The last items that were pushed, at most `n - 1` of them, for windows of
/// `n` items. Its view is what it holds, oldest first.
///
/// It never holds more than `n - 1` items: the item that would be the
/// `n`-th completes a window, and the oldest item leaves for it.
pub struct RollingBuffer<T> {
    num: usize,
    memory: VecDeque<T>,
}

impl<T> View for RollingBuffer<T> {
    type V = Seq<T>;

    closed spec fn view(&self) -> Seq<T> {
        self.memory@
    }
}

impl<T: Clone> RollingBuffer<T> {
    /// The window size `n`.
    pub closed spec fn size(&self) -> nat {
        self.num as nat
    }

    /// The invariant of the buffer: the window size is at least 1, and at
    /// most `n - 1` items are held.
    pub open spec fn wf(&self) -> bool {
        &&& self.size() >= 1
        &&& self@.len() <= self.size() - 1
    }

    /// Whether the buffer holds `n - 1` items, so that the next one
    /// completes a window.
    pub open spec fn is_full(&self) -> bool {
        self@.len() == self.size() - 1
    }

    /// An empty buffer for windows of `n` items, with room for `n - 1`.
    pub fn new(n: usize) -> (buffer: Self)
        requires
            n >= 1,
        ensures
            buffer.wf(),
            buffer.size() == n,
            buffer@ == Seq::<T>::empty(),
    {
        RollingBuffer { num: n, memory: VecDeque::with_capacity(n - 1) }
    }

    /// The number of items held.
    pub fn len(&self) -> (len: usize)
        ensures
            len == self@.len(),
    {
        self.memory.len()
    }

    /// A clone of each item held, oldest first, then a clone of `tail`.
    fn window_with(&self, tail: &T) -> (window: Vec<T>)
        requires
            self.wf(),
        ensures
            window@.len() == self@.len() + 1,
            forall|j: int| 0 <= j < self@.len() ==> cloned(self@[j], #[trigger] window@[j]),
            cloned(*tail, window@[self@.len() as int]),
    {
        let mut window: Vec<T> = Vec::with_capacity(self.num);
        let mut i: usize = 0;
        while i < self.memory.len()
            invariant
                i <= self.memory@.len(),
                window@.len() == i,
                forall|j: int| 0 <= j < i ==> cloned(self.memory@[j], #[trigger] window@[j]),
            decreases self.memory@.len() - i,
        {
            window.push(self.memory[i].clone());
            i = i + 1;
        }
        window.push(tail.clone());
        window
    }

    /// Takes the next item of a sequence.
    ///
    /// While fewer than `n - 1` items are held, `item` is kept and there is
    /// no window yet. From then on each item completes a window: a clone of
    /// each item held, oldest first, then a clone of `item`. The oldest item
    /// then leaves the buffer and `item` enters it, so that the buffer still
    /// holds `n - 1` items.
    pub fn push(&mut self, item: T) -> (window: Option<Vec<T>>)
        requires
            old(self).wf(),
        ensures
            final(self).wf(),
            final(self).size() == old(self).size(),
            !old(self).is_full() ==> window is None && final(self)@ == old(self)@.push(item),
            old(self).is_full() ==> {
                &&& window matches Some(w)
                &&& w@.len() == old(self).size()
                &&& forall|j: int|
                    0 <= j < old(self).size() ==> cloned(
                        old(self)@.push(item)[j],
                        #[trigger] w@[j],
                    )
                &&& final(self)@ == old(self)@.push(item).drop_first()
            },
    {
        if self.memory.len() < self.num - 1 {
            self.memory.push_back(item);
            return None;
        }
        let window = self.window_with(&item);
        let _ = self.memory.pop_front();
        if self.num > 1 {
            self.memory.push_back(item);
        }
        Some(window)
    }
}

} // verus!
