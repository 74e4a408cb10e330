use vstd::prelude::*;

use crate::meta::AsyncMethodType;
use crate::receiver::PollMethodReceiverType;

verus! {

/// How the generated async method takes its receiver.
#[derive(Debug, Clone, Copy, PartialEq, Eq, Structural)]
pub enum AsyncReceiver {
    /// `self`, with `where Self: Sized`
    ByValue,
    /// `&self`
    Shared,
    /// `&mut self`
    Exclusive,
    /// `self: Pin<&mut Self>`
    Pinned,
}

/// What the generated future holds in its `inner` field, for an implementor `T`.
#[derive(Debug, Clone, Copy, PartialEq, Eq, Structural)]
pub enum FutureInner {
    /// `T` itself
    Owned,
    /// `&'a T`
    SharedBorrow,
    /// `&'a mut T`
    ExclusiveBorrow,
    /// `Pin<&'a mut T>`
    PinnedBorrow,
}

/// How the future's `poll` reaches the implementor to call the polling method.
#[derive(Debug, Clone, Copy, PartialEq, Eq, Structural)]
pub enum PollProjection {
    /// `unsafe { self.get_unchecked_mut() }.inner.poll_x(cx)`
    UncheckedMutInner,
    /// `self.into_ref().get_ref().inner.poll_x(cx)`
    SharedInner,
    /// `unsafe { Pin::new_unchecked(&mut self.get_unchecked_mut().inner) }.poll_x(cx)`
    PinnedInnerUnchecked,
    /// `self.get_mut().inner.poll_x(cx)`
    BorrowedInner,
    /// `self.get_mut().inner.as_mut().poll_x(cx)`
    PinnedBorrowedInner,
}

/// The form of the generated async method and future.
#[derive(Debug, Clone, Copy, PartialEq, Eq, Structural)]
pub struct GenerationShape {
    pub receiver: AsyncReceiver,
    pub inner: FutureInner,
    pub projection: PollProjection,
}

/// The form of the generated code for an async method of type `ty` over a
/// polling method that takes its receiver as `recv`.
pub open spec fn spec_generation_shape(ty: AsyncMethodType, recv: PollMethodReceiverType) -> GenerationShape {
    match ty {
        AsyncMethodType::Owned => GenerationShape {
            receiver: AsyncReceiver::ByValue,
            inner: FutureInner::Owned,
            projection: match recv {
                PollMethodReceiverType::MutRef => PollProjection::UncheckedMutInner,
                PollMethodReceiverType::Ref => PollProjection::SharedInner,
                PollMethodReceiverType::Pinned => PollProjection::PinnedInnerUnchecked,
            },
        },
        AsyncMethodType::Ref => match recv {
            PollMethodReceiverType::Ref => GenerationShape {
                receiver: AsyncReceiver::Shared,
                inner: FutureInner::SharedBorrow,
                projection: PollProjection::BorrowedInner,
            },
            PollMethodReceiverType::MutRef => GenerationShape {
                receiver: AsyncReceiver::Exclusive,
                inner: FutureInner::ExclusiveBorrow,
                projection: PollProjection::BorrowedInner,
            },
            PollMethodReceiverType::Pinned => GenerationShape {
                receiver: AsyncReceiver::Pinned,
                inner: FutureInner::PinnedBorrow,
                projection: PollProjection::PinnedBorrowedInner,
            },
        },
    }
}

/// Chooses the form of the generated async method and future.
pub fn generation_shape(ty: AsyncMethodType, recv: PollMethodReceiverType) -> (s: GenerationShape)
    ensures
        s == spec_generation_shape(ty, recv),
{
    match ty {
        AsyncMethodType::Owned => GenerationShape {
            receiver: AsyncReceiver::ByValue,
            inner: FutureInner::Owned,
            projection: match recv {
                PollMethodReceiverType::MutRef => PollProjection::UncheckedMutInner,
                PollMethodReceiverType::Ref => PollProjection::SharedInner,
                PollMethodReceiverType::Pinned => PollProjection::PinnedInnerUnchecked,
            },
        },
        AsyncMethodType::Ref => match recv {
            PollMethodReceiverType::Ref => GenerationShape {
                receiver: AsyncReceiver::Shared,
                inner: FutureInner::SharedBorrow,
                projection: PollProjection::BorrowedInner,
            },
            PollMethodReceiverType::MutRef => GenerationShape {
                receiver: AsyncReceiver::Exclusive,
                inner: FutureInner::ExclusiveBorrow,
                projection: PollProjection::BorrowedInner,
            },
            PollMethodReceiverType::Pinned => GenerationShape {
                receiver: AsyncReceiver::Pinned,
                inner: FutureInner::PinnedBorrow,
                projection: PollProjection::PinnedBorrowedInner,
            },
        },
    }
}

/// An `owned` async method takes `self` by value and its future owns the
/// implementor, whatever receiver the polling method takes.
pub proof fn lemma_owned_takes_self_by_value(recv: PollMethodReceiverType)
    ensures
        spec_generation_shape(AsyncMethodType::Owned, recv).receiver == AsyncReceiver::ByValue,
        spec_generation_shape(AsyncMethodType::Owned, recv).inner == FutureInner::Owned,
{
}

/// A borrowing async method takes its receiver exactly as the polling method
/// does, and its future borrows the implementor the same way.
pub proof fn lemma_ref_mirrors_receiver(recv: PollMethodReceiverType)
    ensures
        spec_generation_shape(AsyncMethodType::Ref, recv).receiver == match recv {
            PollMethodReceiverType::Ref => AsyncReceiver::Shared,
            PollMethodReceiverType::MutRef => AsyncReceiver::Exclusive,
            PollMethodReceiverType::Pinned => AsyncReceiver::Pinned,
        },
        spec_generation_shape(AsyncMethodType::Ref, recv).inner == match recv {
            PollMethodReceiverType::Ref => FutureInner::SharedBorrow,
            PollMethodReceiverType::MutRef => FutureInner::ExclusiveBorrow,
            PollMethodReceiverType::Pinned => FutureInner::PinnedBorrow,
        },
{
}

/// The generated future owns the implementor exactly when the async method
/// takes `self` by value, which is exactly when it is `owned`.
pub proof fn lemma_ownership_agrees(ty: AsyncMethodType, recv: PollMethodReceiverType)
    ensures
        (spec_generation_shape(ty, recv).receiver == AsyncReceiver::ByValue) == (ty
            == AsyncMethodType::Owned),
        (spec_generation_shape(ty, recv).inner == FutureInner::Owned) == (ty == AsyncMethodType::Owned),
{
}

} // verus!
