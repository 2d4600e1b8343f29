//! The windowing stage: overlapping windows of one size over what a
//! producer yields.

use crate::buffer::RollingBuffer;
use crate::model::{copies, lemma_windows_drop_first, padded, windows};
use crate::pad::Pad;
use crate::padded::Padded;
use crate::padding::Padding;
use crate::upstream::Upstream;
use vstd::prelude::*;
use vstd::std_specs::iter::IteratorSpec;

verus! {

/// Why a windowing stage could not be built.
#[derive(Clone, Copy, Debug, PartialEq, Eq, Structural)]
pub enum ConfigError {
    /// The window size was 0. A window holds at least one item.
    ZeroSize,
}

/// Cuts what a producer yields into all its windows of `n` items, in order,
/// one window for each call of [`Ngrams::next`].
///
/// Only the last `n - 1` items are kept, in a rolling buffer. Nothing is
/// pulled from the producer before the first window is asked for. The stage
/// goes from filling the buffer to yielding windows to its end, and never
/// back.
pub struct Ngrams<I: Iterator> {
    source: Upstream<I>,
    memory: RollingBuffer<I::Item>,
    /// For each item of `memory`, the item of the producer's output that it
    /// stands for.
    nominal: Ghost<Seq<I::Item>>,
    /// Whether the producer was seen to end.
    exhausted: bool,
}

impl<I: Iterator> Ngrams<I> where I::Item: Clone {
    /// The invariant of the stage: that of its rolling buffer.
    pub closed spec fn wf(&self) -> bool {
        &&& self.memory.wf()
        &&& !self.exhausted ==> {
            &&& self.nominal@.len() == self.memory@.len()
            &&& forall|i: int|
                0 <= i < self.memory@.len() ==> cloned(self.nominal@[i], #[trigger] self.memory@[i])
        }
    }

    /// The window size `n`.
    pub closed spec fn size(&self) -> nat {
        self.memory.size()
    }

    /// The producer that the stage pulls from, as far as it has been
    /// advanced.
    pub closed spec fn feed(&self) -> Upstream<I> {
        self.source
    }

    /// The items of the producer's output that the rolling buffer holds,
    /// oldest first, a sentinel standing for its clone.
    pub closed spec fn held(&self) -> Seq<I::Item> {
        self.nominal@
    }

    /// Whether the stage has reached its end. From then on it yields nothing
    /// and pulls nothing.
    pub closed spec fn finished(&self) -> bool {
        self.exhausted
    }

    /// The iterator at the bottom, as far as it has been advanced.
    pub open spec fn source(&self) -> I {
        self.feed().source()
    }

    /// The items that the windows to come are cut from, if the iterator at
    /// the bottom has yet to yield `upstream`: what the buffer holds, then
    /// what the producer has yet to yield.
    pub open spec fn ahead(&self, upstream: Seq<I::Item>) -> Seq<I::Item> {
        if self.finished() {
            Seq::empty()
        } else {
            self.held() + self.feed().output(upstream)
        }
    }

    /// The windows to come, sentinels standing for themselves, if the
    /// iterator at the bottom has yet to yield `upstream`.
    pub open spec fn windows_ahead(&self, upstream: Seq<I::Item>) -> Seq<Seq<I::Item>> {
        windows(self.ahead(upstream), self.size())
    }

    /// A windowing stage of size `n` over `upstream`. Nothing is pulled yet.
    pub fn over(upstream: Upstream<I>, n: usize) -> (stage: Self)
        requires
            n >= 1,
        ensures
            stage.wf(),
            stage.size() == n,
            stage.feed() == upstream,
            stage.held() == Seq::<I::Item>::empty(),
            !stage.finished(),
    {
        Ngrams {
            source: upstream,
            memory: RollingBuffer::new(n),
            nominal: Ghost(Seq::empty()),
            exhausted: false,
        }
    }

    /// A windowing stage of size `n` over `source` with the padding that the
    /// item type asks for: `Pad::symbol()` as the sentinel and `Pad::len(n)`
    /// of it on both sides. With the default `Pad::len` the first and the
    /// last item of `source` each stand in `n` windows.
    ///
    /// `source` is expected to be tokenized already: the stage takes its
    /// items as they come.
    pub fn new(source: I, n: usize) -> (stage: Self) where I::Item: Pad
        requires
            n >= 1,
        ensures
            stage.wf(),
            stage.size() == n,
            stage.held() == Seq::<I::Item>::empty(),
            !stage.finished(),
            stage.feed() matches Upstream::Padded(pad) && pad.is_default_over(source, n),
    {
        Self::over(Upstream::Padded(Padded::new(source, n)), n)
    }

    /// As [`Ngrams::new`], for a window size that may be 0: that size is
    /// refused, and nothing else is.
    pub fn try_new(source: I, n: usize) -> (built: Result<Self, ConfigError>) where I::Item: Pad
        ensures
            built is Err <==> n == 0,
            built matches Err(e) ==> e == ConfigError::ZeroSize,
            built matches Ok(stage) ==> {
                &&& stage.wf()
                &&& stage.size() == n
                &&& stage.held() == Seq::<I::Item>::empty()
                &&& !stage.finished()
                &&& stage.feed() matches Upstream::Padded(pad) && pad.is_default_over(source, n)
            },
    {
        if n == 0 {
            Err(ConfigError::ZeroSize)
        } else {
            Ok(Self::new(source, n))
        }
    }

    /// As [`Ngrams::over`], for a window size that may be 0: that size is
    /// refused, and nothing else is.
    pub fn try_over(upstream: Upstream<I>, n: usize) -> (built: Result<Self, ConfigError>)
        ensures
            built is Err <==> n == 0,
            built matches Err(e) ==> e == ConfigError::ZeroSize,
            built matches Ok(stage) ==> {
                &&& stage.wf()
                &&& stage.size() == n
                &&& stage.feed() == upstream
                &&& stage.held() == Seq::<I::Item>::empty()
                &&& !stage.finished()
            },
    {
        if n == 0 {
            Err(ConfigError::ZeroSize)
        } else {
            Ok(Self::over(upstream, n))
        }
    }

    /// A windowing stage of size `n` over `source` as it is, without any
    /// sentinel.
    pub fn unpadded(source: I, n: usize) -> (stage: Self)
        requires
            n >= 1,
        ensures
            stage.wf(),
            stage.size() == n,
            stage.held() == Seq::<I::Item>::empty(),
            !stage.finished(),
            stage.feed() == Upstream::Raw(source),
    {
        Self::over(Upstream::Raw(source), n)
    }

    /// A windowing stage of size `n` over `source` with `symbol` as the
    /// sentinel, `padding.left` of it before the first item and
    /// `padding.right` after the last.
    pub fn with_padding(source: I, n: usize, symbol: I::Item, padding: Padding) -> (stage: Self)
        requires
            n >= 1,
        ensures
            stage.wf(),
            stage.size() == n,
            stage.held() == Seq::<I::Item>::empty(),
            !stage.finished(),
            stage.source() == source,
            forall|upstream: Seq<I::Item>| #[trigger]
                stage.windows_ahead(upstream) == windows(
                    padded(upstream, symbol, padding.left as nat, padding.right as nat),
                    n as nat,
                ),
    {
        Self::over(Upstream::Padded(Padded::with_padding(source, symbol, padding)), n)
    }

    /// The next window, or `None` when there is no further one.
    ///
    /// Items are pulled from the producer and pushed into the rolling buffer
    /// until one of them completes a window: `n` items before the first
    /// window, one item for each later window. If the producer ends before
    /// that, there is no further window, and where it ends before the first
    /// one, there is none at all. Once the producer has ended, every call
    /// returns `None`, pulls nothing and changes nothing.
    pub fn next(&mut self) -> (window: Option<Vec<I::Item>>)
        requires
            old(self).wf(),
        ensures
            final(self).wf(),
            final(self).size() == old(self).size(),
            final(self).source().obeys_prophetic_iter_laws() == old(
                self,
            ).source().obeys_prophetic_iter_laws(),
            old(self).finished() ==> window is None && *final(self) == *old(self),
            window is None ==> final(self).finished(),
            window matches Some(w) ==> {
                &&& w@.len() == old(self).size()
                &&& !final(self).finished()
                &&& copies(final(self).held(), w@.drop_first())
                &&& old(self).held().len() == old(self).size() - 1 ==> copies(
                    old(self).held(),
                    w@.drop_last(),
                )
            },
            old(self).source().obeys_prophetic_iter_laws() ==> ({
                let ahead = old(self).windows_ahead(old(self).source().remaining());
                let after = final(self).windows_ahead(final(self).source().remaining());
                if ahead.len() > 0 {
                    &&& window matches Some(w) && copies(ahead[0], w@)
                    &&& after == ahead.drop_first()
                } else {
                    window is None
                }
            }),
            old(self).source().obeys_prophetic_iter_laws() && old(self).source().decrease() is Some
                ==> final(self).source().decrease() is Some && (window is Some ==> old(
                self,
            ).feed().spent(&final(self).feed())),
    {
        if self.exhausted {
            return None;
        }
        let ghost lawful = self.source.source().obeys_prophetic_iter_laws();
        let ghost measured = lawful && self.source.source().decrease() is Some;
        let ghost start = self.nominal@ + self.source.output(self.source.source().remaining());
        loop
            invariant
                old(self).wf(),
                !old(self).exhausted,
                lawful == old(self).source.source().obeys_prophetic_iter_laws(),
                measured == (lawful && old(self).source.source().decrease() is Some),
                start == old(self).nominal@ + old(self).source.output(
                    old(self).source.source().remaining(),
                ),
                self.memory.wf(),
                self.memory.size() == old(self).memory.size(),
                !self.exhausted,
                self.nominal@.len() == self.memory@.len(),
                forall|i: int|
                    0 <= i < self.memory@.len() ==> cloned(
                        self.nominal@[i],
                        #[trigger] self.memory@[i],
                    ),
                old(self).nominal@.is_prefix_of(self.nominal@),
                self.source.source().obeys_prophetic_iter_laws() == lawful,
                lawful ==> self.nominal@ + self.source.output(self.source.source().remaining())
                    == start,
                measured ==> self.source.source().decrease() is Some && (self.source == old(
                    self,
                ).source || old(self).source.spent(&self.source)),
            decreases self.memory.size() - self.memory@.len(),
        {
            let ghost before = self.source;
            match self.source.next() {
                None => {
                    self.exhausted = true;
                    return None;
                },
                Some(item) => {
                    let ghost run = self.nominal@.push(before.stands_for(&self.source, item));
                    match self.memory.push(item) {
                        None => {
                            self.nominal = Ghost(run);
                        },
                        Some(window) => {
                            self.nominal = Ghost(run.drop_first());
                            proof {
                                if lawful {
                                    assert(run.drop_first() + self.source.output(
                                        self.source.source().remaining(),
                                    ) =~= start.drop_first());
                                    lemma_windows_drop_first(start, self.memory.size());
                                }
                            }
                            return Some(window);
                        },
                    }
                },
            }
        }
    }

    /// All the windows that are still to come, in order, for a producer that
    /// ends.
    ///
    /// There are `max(0, len - n + 1)` of them, where `len` is the number of
    /// items that the windows are cut from, and each holds `n` items.
    pub fn collect(self) -> (all: Vec<Vec<I::Item>>)
        requires
            self.wf(),
            self.source().obeys_prophetic_iter_laws(),
            self.source().decrease() is Some,
        ensures
            ({
                let ahead = self.windows_ahead(self.source().remaining());
                &&& all@.len() == ahead.len()
                &&& forall|i: int| 0 <= i < ahead.len() ==> copies(ahead[i], (#[trigger] all@[i])@)
            }),
            ({
                let len = self.ahead(self.source().remaining()).len();
                all@.len() == if len - self.size() + 1 > 0 {
                    len - self.size() + 1
                } else {
                    0
                }
            }),
            forall|i: int| 0 <= i < all@.len() ==> (#[trigger] all@[i])@.len() == self.size(),
    {
        let ghost ahead = self.windows_ahead(self.source().remaining());
        let mut stage = self;
        let mut all: Vec<Vec<I::Item>> = Vec::new();
        loop
            invariant
                stage.wf(),
                stage.source().obeys_prophetic_iter_laws(),
                stage.source().decrease() is Some,
                all@.len() <= ahead.len(),
                stage.windows_ahead(stage.source().remaining()) == ahead.skip(all@.len() as int),
                forall|i: int| 0 <= i < all@.len() ==> copies(ahead[i], (#[trigger] all@[i])@),
            ensures
                all@.len() == ahead.len(),
                forall|i: int| 0 <= i < ahead.len() ==> copies(ahead[i], (#[trigger] all@[i])@),
            decreases
                    stage.feed().live(),
                    stage.feed().source().decrease()->0,
                    stage.feed().pending(),
        {
            match stage.next() {
                Some(window) => {
                    all.push(window);
                },
                None => {
                    break ;
                },
            }
        }
        all
    }
}

} // verus!
