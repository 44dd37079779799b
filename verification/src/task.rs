//! The parts of `std::task` that pass through the library.
use std::future::Future;
use std::task::Context;
use std::task::Poll;
use vstd::prelude::*;

verus! {

/// `std::task::Context`: carried through to whoever has to be able to wake the
/// task, never looked into.
#[verifier::external_type_specification]
#[verifier::external_body]
pub struct ExContext<'a>(std::task::Context<'a>);

/// `std::task::Poll`, with its two variants `Ready` and `Pending`.
#[verifier::external_type_specification]
pub struct ExPoll<T>(std::task::Poll<T>);

/// `Future::poll`: what a future answers is up to the future, so nothing is
/// claimed of the result. The future comes back only while it has not
/// completed: one that has may panic when it is polled again.
#[verifier::external_body]
fn future_poll<F: Future + Unpin>(fut: F, cx: &mut Context<'_>) -> (r: Result<F::Output, F>) {
    let mut fut = fut;
    match std::pin::Pin::new(&mut fut).poll(cx) {
        Poll::Ready(out) => Ok(out),
        Poll::Pending => Err(fut),
    }
}

/// Whether a future was polled, and gave `r`: its output, or itself where it
/// has not completed.
pub closed spec fn polled<F: Future + Unpin>(fut: F, r: Result<F::Output, F>) -> bool {
    exists|cx: &mut Context<'_>| #[trigger] call_ensures(future_poll::<F>, (fut, cx), r)
}

/// Whether a future was polled once and answered `r`, and `kept` is what is
/// left of it: the future that came back, or nothing once it has completed.
pub open spec fn advanced<F: Future + Unpin>(
    fut: F,
    kept: Option<F>,
    r: Poll<F::Output>,
) -> bool {
    match r {
        Poll::Ready(out) => kept is None && polled(fut, Ok(out)),
        Poll::Pending => kept matches Some(rest) && polled(fut, Err(rest)),
    }
}

/// Poll a future that is kept, once; it is kept until it has completed.
pub(crate) fn poll_kept<F: Future + Unpin>(kept: &mut Option<F>, cx: &mut Context<'_>) -> (r: Poll<
    F::Output,
>)
    requires
        *old(kept) is Some,
    ensures
        advanced(old(kept)->0, *final(kept), r),
{
    match kept.take() {
        None => Poll::Pending,
        Some(fut) => match future_poll(fut, cx) {
            Ok(out) => Poll::Ready(out),
            Err(rest) => {
                *kept = Some(rest);
                Poll::Pending
            },
        },
    }
}

/// The law of a future that is kept: it is kept exactly until it has completed,
/// and what is kept is what its own poll gave back; its output is what comes
/// out.
pub proof fn law_advanced<F: Future + Unpin>(fut: F, kept: Option<F>, r: Poll<F::Output>)
    requires
        advanced(fut, kept, r),
    ensures
        r is Pending <==> kept is Some,
        r matches Poll::Ready(out) ==> polled(fut, Ok(out)),
        kept matches Some(rest) ==> polled(fut, Err(rest)),
{
}

} // verus!
