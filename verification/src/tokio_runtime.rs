//! Channels backed by tokio
use crate::error::AqErr;
use crate::error::AqResult;
use crate::rt::MultiSend;
use crate::stream::backend;
use crate::stream::write_outcome;
use crate::util::Receive;
use std::task::Context;
use std::task::Poll;
use tokio::sync::mpsc::UnboundedReceiver;
use tokio::sync::mpsc::UnboundedSender;
use vstd::prelude::*;

verus! {

/// Channel sender type
#[verifier::reject_recursive_types(T)]
pub struct TokioMultiSend<T> {
    /// the channel
    pub send: UnboundedSender<T>,
}

impl<T> TokioMultiSend<T> {
    /// Whether `t` was handed to the channel, and `sent` is what came of it.
    pub open spec fn handed(self, t: T, sent: bool) -> bool {
        exists|a: &mut UnboundedSender<T>|
            backend::doubled(self.send, *a) && #[trigger] backend::handed(a, t, sent)
    }

    /// Whether a channel was made whose two ends these are.
    pub open spec fn joined(self, recv: TokioMultiRecv<T>) -> bool {
        backend::joined(self.send, recv.recv)
    }
}

impl<T> MultiSend<T> for TokioMultiSend<T> {
    /// Fails where the receiver is gone, and only in one way.
    fn send(&self, t: T) -> (r: AqResult<()>)
        ensures
            self.handed(t, r is Ok),
            r is Err ==> r == Err::<(), AqErr>(AqErr::ChannelClosed),
    {
        let mut send = backend::double(&self.send);
        let sent = backend::hand(&mut send, t);
        write_outcome(sent)
    }
}

/// Channel receiver type
#[verifier::reject_recursive_types(T)]
pub struct TokioMultiRecv<T> {
    /// the channel
    pub recv: UnboundedReceiver<T>,
}

impl<T> Receive<T> for TokioMultiRecv<T> {
    fn poll_next(&mut self, cx: &mut Context<'_>) -> (r: Poll<Option<T>>)
        ensures
            exists|a: &mut UnboundedReceiver<T>|
                {
                    &&& *a == old(self).recv
                    &&& *final(a) == final(self).recv
                    &&& #[trigger] backend::asked(a, r)
                },
    {
        backend::ask(&mut self.recv, cx)
    }
}

/// Absquic_core AsyncRuntime backed by tokio
pub struct TokioRt;

impl TokioRt {
    /// Creates a channel for multiple data transfer
    pub fn channel<T>() -> (r: (TokioMultiSend<T>, TokioMultiRecv<T>))
        ensures
            r.0.joined(r.1),
    {
        let (send, recv) = backend::channel();
        (TokioMultiSend { send }, TokioMultiRecv { recv })
    }
}

} // verus!
