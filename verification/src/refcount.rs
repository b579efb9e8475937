//! Strong and weak sender handles and the count of strong ones.
//!
//! Only strong handles are counted. The count reaching zero is final: no
//! weak handle can be upgraded afterwards.

use crate::chan::Chan;
use crate::model::ChanView;
use vstd::prelude::*;

verus! {

/// The reference count of a strong address: it keeps the mailbox open.
#[derive(Debug)]
pub struct TxStrong(());

/// The reference count of a weak address: it does not keep the mailbox open.
#[derive(Debug)]
pub struct TxWeak(());

/// A reference count that is strong or weak, decided at run time.
#[derive(Debug)]
pub enum TxEither {
    /// A strong reference counter.
    Strong(TxStrong),
    /// A weak reference counter.
    Weak(TxWeak),
}

/// The sender count after a handle of the given strength was added.
pub open spec fn count_after_increment(strong: bool, count: usize) -> usize {
    if strong {
        (count + 1) as usize
    } else {
        count
    }
}

/// The sender count after a handle of the given strength was dropped.
pub open spec fn count_after_decrement(strong: bool, count: usize) -> usize {
    if strong {
        (count - 1) as usize
    } else {
        count
    }
}

/// What a reference counter does to the mailbox's count of strong senders.
pub trait RefCounterInner: Sized {
    /// Whether this counter keeps the mailbox open.
    spec fn strong(&self) -> bool;

    /// Counts one more handle of the same strength and returns its counter.
    fn increment<M, W>(&self, inner: &mut Chan<M, W>) -> (counter: Self)
        requires
            old(inner)@.sender_count < usize::MAX,
        ensures
            counter.strong() == self.strong(),
            final(inner)@ == (ChanView {
                sender_count: count_after_increment(self.strong(), old(inner)@.sender_count),
                ..old(inner)@
            }),
    ;

    /// Counts one handle less, and says whether it was the last strong one,
    /// in which case the receivers must be told.
    fn decrement<M, W>(&self, inner: &mut Chan<M, W>) -> (last: bool)
        requires
            self.strong() ==> old(inner)@.sender_count > 0,
        ensures
            last == (self.strong() && old(inner)@.sender_count == 1),
            final(inner)@ == (ChanView {
                sender_count: count_after_decrement(self.strong(), old(inner)@.sender_count),
                ..old(inner)@
            }),
    ;

    /// Converts this counter into one whose strength is decided at run time.
    fn into_either(self) -> (either: TxEither)
        ensures
            (either is Strong) == self.strong(),
    ;

    /// Whether this counter is strong.
    fn is_strong(&self) -> (strong: bool)
        ensures
            strong == self.strong(),
    ;
}

/// The strength of an address's reference counting.
pub trait TxRefCounter: RefCounterInner {

}

impl TxRefCounter for TxStrong {

}

impl TxRefCounter for TxWeak {

}

impl TxRefCounter for TxEither {

}

impl TxStrong {
    /// The counter of the first handle of a mailbox. The caller accounts for it.
    pub(crate) fn first() -> (counter: TxStrong)
        ensures
            counter.strong(),
    {
        TxStrong(())
    }

    /// A new strong counter if a strong one still exists; `None` once the
    /// count has reached zero.
    pub fn try_new<M, W>(inner: &mut Chan<M, W>) -> (counter: Option<TxStrong>)
        requires
            old(inner)@.sender_count < usize::MAX,
        ensures
            counter is Some == (old(inner)@.sender_count > 0),
            final(inner)@ == (ChanView {
                sender_count: count_after_increment(
                    old(inner)@.sender_count > 0,
                    old(inner)@.sender_count,
                ),
                ..old(inner)@
            }),
    {
        if inner.sender_count == 0 {
            None
        } else {
            inner.sender_count = inner.sender_count + 1;
            Some(TxStrong(()))
        }
    }
}

impl TxWeak {
    /// A weak counter; there is nothing to account for.
    pub(crate) fn first() -> (counter: TxWeak)
        ensures
            !counter.strong(),
    {
        TxWeak(())
    }

    /// A weak counter; the mailbox is not touched.
    pub fn new<M, W>(_inner: &Chan<M, W>) -> (counter: TxWeak)
        ensures
            !counter.strong(),
    {
        TxWeak(())
    }
}

impl RefCounterInner for TxStrong {
    open spec fn strong(&self) -> bool {
        true
    }

    fn increment<M, W>(&self, inner: &mut Chan<M, W>) -> (counter: Self) {
        inner.sender_count = inner.sender_count + 1;
        TxStrong(())
    }

    fn decrement<M, W>(&self, inner: &mut Chan<M, W>) -> (last: bool) {
        let before = inner.sender_count;
        inner.sender_count = before - 1;
        before == 1
    }

    fn into_either(self) -> (either: TxEither)
        ensures
            either == TxEither::Strong(self),
    {
        TxEither::Strong(self)
    }

    fn is_strong(&self) -> (strong: bool) {
        true
    }
}

impl RefCounterInner for TxWeak {
    open spec fn strong(&self) -> bool {
        false
    }

    fn increment<M, W>(&self, inner: &mut Chan<M, W>) -> (counter: Self)
        ensures
            counter == *self,
            final(inner)@ == old(inner)@,
    {
        TxWeak(())
    }

    fn decrement<M, W>(&self, inner: &mut Chan<M, W>) -> (last: bool) {
        false
    }

    fn into_either(self) -> (either: TxEither)
        ensures
            either == TxEither::Weak(self),
    {
        TxEither::Weak(self)
    }

    fn is_strong(&self) -> (strong: bool) {
        false
    }
}

impl RefCounterInner for TxEither {
    open spec fn strong(&self) -> bool {
        self is Strong
    }

    fn increment<M, W>(&self, inner: &mut Chan<M, W>) -> (counter: Self) {
        match self {
            TxEither::Strong(strong) => TxEither::Strong(strong.increment(inner)),
            TxEither::Weak(weak) => TxEither::Weak(weak.increment(inner)),
        }
    }

    fn decrement<M, W>(&self, inner: &mut Chan<M, W>) -> (last: bool) {
        match self {
            TxEither::Strong(strong) => strong.decrement(inner),
            TxEither::Weak(weak) => weak.decrement(inner),
        }
    }

    fn into_either(self) -> (either: TxEither) {
        self
    }

    fn is_strong(&self) -> (strong: bool) {
        match self {
            TxEither::Strong(_) => true,
            TxEither::Weak(_) => false,
        }
    }
}

} // verus!
