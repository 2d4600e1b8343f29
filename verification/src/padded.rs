//! The padding stage: sentinels before and after what an iterator yields.

use crate::model::{padded, pads};
use crate::pad::Pad;
use crate::padding::Padding;
use vstd::prelude::*;
use vstd::std_specs::iter::IteratorSpec;

verus! {

/// Yields a number of sentinels, then every item of the wrapped iterator in
/// order, then a number of sentinels again, and after that nothing, ever.
///
/// Nothing is pulled from the wrapped iterator before an item is asked for.
pub struct Padded<I: Iterator> {
    source: I,
    symbol: I::Item,
    /// How many sentinels follow the last item of `source`.
    right: usize,
    /// How many sentinels are owed right now, before anything else.
    remaining: usize,
    /// Whether `source` was seen to be exhausted.
    end: bool,
}

impl<I: Iterator> Padded<I> where I::Item: Clone {
    /// The wrapped iterator, as far as it has been advanced.
    pub closed spec fn source(&self) -> I {
        self.source
    }

    /// The sentinel.
    pub closed spec fn symbol(&self) -> I::Item {
        self.symbol
    }

    /// The number of sentinels that are yielded before anything else.
    pub closed spec fn pending(&self) -> nat {
        self.remaining as nat
    }

    /// The number of sentinels that follow the last item of the wrapped
    /// iterator.
    pub closed spec fn trailing(&self) -> nat {
        self.right as nat
    }

    /// Whether the wrapped iterator was seen to be exhausted. From then on it
    /// is not pulled again.
    pub closed spec fn ended(&self) -> bool {
        self.end
    }

    /// Whether the stage has yielded all it ever will.
    pub open spec fn finished(&self) -> bool {
        self.ended() && self.pending() == 0
    }

    /// What the stage has yet to yield, sentinels standing for themselves,
    /// if the wrapped iterator has yet to yield `upstream`.
    pub open spec fn output(&self, upstream: Seq<I::Item>) -> Seq<I::Item> {
        if self.ended() {
            pads(self.symbol(), self.pending())
        } else {
            padded(upstream, self.symbol(), self.pending(), self.trailing())
        }
    }

    /// The item of `output` that `item` stands for, when the stage went
    /// from `self` to `after` by yielding it: the sentinel where the stage
    /// cloned it, else `item` itself, which then came from the wrapped
    /// iterator.
    pub open spec fn stands_for(&self, after: &Self, item: I::Item) -> I::Item {
        if self.pending() > 0 || after.ended() {
            self.symbol()
        } else {
            item
        }
    }

    /// Whether one call of `next` that returns `item` may take the stage
    /// from `self` to `after`, whatever the wrapped iterator does.
    ///
    /// While sentinels are owed, one of them is yielded and the wrapped
    /// iterator is left alone. At the end nothing is yielded and nothing
    /// changes. Between the two the wrapped iterator is pulled: either the
    /// stage goes on as it is and yields the item that came, or the wrapped
    /// iterator has ended and the trailing sentinels start.
    pub open spec fn steps_to(&self, after: &Self, item: Option<I::Item>) -> bool {
        &&& after.symbol() == self.symbol()
        &&& after.trailing() == self.trailing()
        &&& after.source().obeys_prophetic_iter_laws() == self.source().obeys_prophetic_iter_laws()
        &&& if self.pending() > 0 {
            &&& item is Some
            &&& after.pending() == self.pending() - 1
            &&& after.ended() == self.ended()
            &&& after.source() == self.source()
        } else if self.ended() {
            item is None && after == self
        } else if !after.ended() {
            item is Some && after.pending() == 0
        } else if self.trailing() > 0 {
            item is Some && after.pending() == self.trailing() - 1
        } else {
            item is None && after.pending() == 0
        }
        &&& item matches Some(x) ==> cloned(self.stands_for(after, x), x)
    }

    /// 1 while the wrapped iterator may still be pulled, 0 from then on.
    pub open spec fn live(&self) -> nat {
        if self.ended() {
            0
        } else {
            1
        }
    }

    /// Whether `after` is nearer to the end than `self`, by a measure that
    /// cannot go down forever: first `live`, then the measure of the wrapped
    /// iterator, then the sentinels owed.
    pub open spec fn spent(&self, after: &Self) -> bool {
        decreases_to!(
            self.live(), self.source().decrease()->0, self.pending()
            => after.live(), after.source().decrease()->0, after.pending()
        )
    }

    /// Whether the stage stands at its start over `source`, with the
    /// defaults of the item type for windows of size `n`: its sentinel is a
    /// value that `Pad::symbol()` returns, and a count that `Pad::len(n)`
    /// returns is owed on both sides.
    pub open spec fn is_default_over(&self, source: I, n: usize) -> bool where I::Item: Pad {
        &&& self.source() == source
        &&& !self.ended()
        &&& call_ensures(<I::Item as Pad>::symbol, (), self.symbol())
        &&& self.pending() <= usize::MAX
        &&& call_ensures(<I::Item as Pad>::len, (n,), self.pending() as usize)
        &&& self.trailing() == self.pending()
    }

    /// A padding stage over `source` for windows of size `n`, with the
    /// defaults of the item type: `Pad::symbol()` as the sentinel and
    /// `Pad::len(n)` of it on both sides.
    pub fn new(source: I, n: usize) -> (stage: Self) where I::Item: Pad
        requires
            n >= 1,
        ensures
            stage.is_default_over(source, n),
    {
        let l = <I::Item as Pad>::len(n);
        Padded { source, symbol: <I::Item as Pad>::symbol(), right: l, remaining: l, end: false }
    }

    /// A padding stage over `source` with `symbol` as the sentinel,
    /// `padding.left` of it before the first item and `padding.right` after
    /// the last.
    pub fn with_padding(source: I, symbol: I::Item, padding: Padding) -> (stage: Self)
        ensures
            stage.source() == source,
            stage.symbol() == symbol,
            stage.pending() == padding.left,
            stage.trailing() == padding.right,
            !stage.ended(),
            forall|upstream: Seq<I::Item>| #[trigger]
                stage.output(upstream) == padded(
                    upstream,
                    symbol,
                    padding.left as nat,
                    padding.right as nat,
                ),
    {
        Padded { source, symbol, right: padding.right, remaining: padding.left, end: false }
    }

    /// What the stage yields when the wrapped iterator has answered `pulled`
    /// to a pull: the item that came, as it is, or, at the end of the wrapped
    /// iterator, the first of the trailing sentinels, if there is any.
    ///
    /// The wrapped iterator is pulled only where no sentinel is owed and its
    /// end was not seen yet; its end is recorded and it is not pulled again.
    pub fn relay(&mut self, pulled: Option<I::Item>) -> (item: Option<I::Item>)
        requires
            old(self).pending() == 0,
            !old(self).ended(),
        ensures
            final(self).symbol() == old(self).symbol(),
            final(self).trailing() == old(self).trailing(),
            final(self).source() == old(self).source(),
            final(self).ended() == (pulled is None),
            pulled is Some ==> item == pulled && final(self).pending() == 0,
            pulled is None && old(self).trailing() > 0 ==> {
                &&& item is Some && cloned(old(self).symbol(), item->0)
                &&& final(self).pending() == old(self).trailing() - 1
            },
            pulled is None && old(self).trailing() == 0 ==> item is None && final(self).pending()
                == 0,
    {
        match pulled {
            Some(item) => Some(item),
            None => {
                self.end = true;
                self.remaining = self.right;
                if self.remaining > 0 {
                    self.remaining = self.remaining - 1;
                    Some(self.symbol.clone())
                } else {
                    None
                }
            },
        }
    }

    /// The next item, or `None` once the trailing sentinels are out.
    ///
    /// While sentinels are owed, one of them is cloned and the wrapped
    /// iterator is left alone. Otherwise the wrapped iterator is pulled: its
    /// item is handed on as it is, and its end starts the trailing sentinels.
    /// After the last of them every call returns `None` and changes nothing.
    ///
    /// For an iterator that keeps the laws of iterators, the item stands for
    /// the first item of `output`, and `output` loses that item.
    pub fn next(&mut self) -> (item: Option<I::Item>)
        ensures
            old(self).steps_to(final(self), item),
            old(self).source().obeys_prophetic_iter_laws() ==> ({
                let ahead = old(self).output(old(self).source().remaining());
                let after = final(self).output(final(self).source().remaining());
                if ahead.len() > 0 {
                    &&& item matches Some(x) && ahead[0] == old(self).stands_for(final(self), x)
                    &&& after == ahead.drop_first()
                } else {
                    item is None && after == ahead
                }
            }),
            old(self).source().obeys_prophetic_iter_laws() && old(self).source().decrease() is Some
                ==> final(self).source().decrease() is Some && (item is Some ==> old(self).spent(
                final(self),
            )),
    {
        if self.remaining > 0 {
            self.remaining = self.remaining - 1;
            return Some(self.symbol.clone());
        }
        if self.end {
            return None;
        }
        let pulled = self.source.next();
        self.relay(pulled)
    }
}

} // verus!
