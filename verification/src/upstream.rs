//! What a windowing stage pulls its items from.

use crate::padded::Padded;
use vstd::prelude::*;
use vstd::std_specs::iter::IteratorSpec;

verus! {

/// The producer under a windowing stage: an iterator as it is, or a padding
/// stage around one.
pub enum Upstream<I: Iterator> {
    /// The iterator itself: nothing is added to what it yields.
    Raw(I),
    /// A padding stage around the iterator.
    Padded(Padded<I>),
}

impl<I: Iterator> Upstream<I> where I::Item: Clone {
    /// The iterator at the bottom, as far as it has been advanced.
    pub open spec fn source(&self) -> I {
        match self {
            Upstream::Raw(source) => *source,
            Upstream::Padded(stage) => stage.source(),
        }
    }

    /// What the producer has yet to yield, sentinels standing for
    /// themselves, if the iterator at the bottom has yet to yield `upstream`.
    pub open spec fn output(&self, upstream: Seq<I::Item>) -> Seq<I::Item> {
        match self {
            Upstream::Raw(_) => upstream,
            Upstream::Padded(stage) => stage.output(upstream),
        }
    }

    /// The item of `output` that `item` stands for, when the producer
    /// went from `self` to `after` by yielding it: the sentinel where a
    /// padding stage cloned it, else `item` itself, which then came from the
    /// iterator at the bottom.
    pub open spec fn stands_for(&self, after: &Self, item: I::Item) -> I::Item {
        match (self, after) {
            (Upstream::Padded(before), Upstream::Padded(after)) => before.stands_for(after, item),
            _ => item,
        }
    }

    /// Whether one call of `next` that returns `item` may take the producer
    /// from `self` to `after`, whatever the iterator at the bottom does: it
    /// stays of its kind, and a padding stage steps as padding stages do.
    pub open spec fn steps_to(&self, after: &Self, item: Option<I::Item>) -> bool {
        &&& after.source().obeys_prophetic_iter_laws() == self.source().obeys_prophetic_iter_laws()
        &&& match (self, after) {
            (Upstream::Raw(_), Upstream::Raw(_)) => true,
            (Upstream::Padded(before), Upstream::Padded(after)) => before.steps_to(after, item),
            _ => false,
        }
        &&& item matches Some(x) ==> cloned(self.stands_for(after, x), x)
    }

    /// 1 while the iterator at the bottom may still be pulled, 0 from then
    /// on.
    pub open spec fn live(&self) -> nat {
        match self {
            Upstream::Raw(_) => 1,
            Upstream::Padded(stage) => stage.live(),
        }
    }

    /// The number of sentinels that are yielded before anything else.
    pub open spec fn pending(&self) -> nat {
        match self {
            Upstream::Raw(_) => 0,
            Upstream::Padded(stage) => stage.pending(),
        }
    }

    /// Whether `after` is nearer to the end than `self`, by a measure that
    /// cannot go down forever: first `live`, then the measure of the
    /// iterator at the bottom, then the sentinels owed.
    pub open spec fn spent(&self, after: &Self) -> bool {
        decreases_to!(
            self.live(), self.source().decrease()->0, self.pending()
            => after.live(), after.source().decrease()->0, after.pending()
        )
    }

    /// The next item of the producer, or `None` at its end.
    ///
    /// An item is a clone of the sentinel or an item of the iterator at the
    /// bottom as it came. For an iterator that keeps the laws of iterators,
    /// it stands for the first item of `output`, and `output` loses that
    /// item.
    pub fn next(&mut self) -> (item: Option<I::Item>)
        ensures
            old(self).steps_to(final(self), item),
            old(self).source().obeys_prophetic_iter_laws() ==> ({
                let ahead = old(self).output(old(self).source().remaining());
                let after = final(self).output(final(self).source().remaining());
                if ahead.len() > 0 {
                    &&& item matches Some(x) && ahead[0] == old(self).stands_for(final(self), x)
                    &&& after == ahead.drop_first()
                } else {
                    item is None && after == ahead
                }
            }),
            old(self).source().obeys_prophetic_iter_laws() && old(self).source().decrease() is Some
                ==> final(self).source().decrease() is Some && (item is Some ==> old(self).spent(
                final(self),
            )),
    {
        match self {
            Upstream::Raw(source) => source.next(),
            Upstream::Padded(stage) => stage.next(),
        }
    }
}

} // verus!
