//! The iteration adapter: repeated receives as a drainable sequence.
//!
//! A sequence caches the queue's maximum message length at construction and
//! receives into a freshly sized buffer each step; if the queue's maximum
//! length changes afterwards, the behavior is unsupported. A step
//! distinguishes three outcomes by type, and the classification is pinned
//! by contract: a message, the would-block refusal as the one and only end
//! of the drain, or any other error handed through unchanged — so the end
//! of the sequence can never be confused with a real failure. On a blocking
//! descriptor a step blocks and the sequence never ends on its own. A
//! drained sequence is restarted only by constructing a new one from the
//! handle.

use vstd::prelude::*;
use crate::error::Error;
use crate::mq::PosixMq;

verus! {

/// A sequence of `(priority, message)` pairs received from a borrowed
/// queue handle; the queue remains usable afterwards.
pub struct Iter<'a> {
    mq: &'a PosixMq,
    /// The buffer size for each receive, cached at construction.
    max_msg_len: usize,
}

/// A sequence of `(priority, message)` pairs received from an owned queue
/// handle; the queue is closed when the sequence is dropped.
pub struct IntoIter {
    mq: PosixMq,
    /// The buffer size for each receive, cached at construction.
    max_msg_len: usize,
}

/// Classify one receive outcome into an iteration step.
///
/// The classification is total and exact: a received message becomes the
/// next element, as its priority and the first reported-length bytes of
/// the buffer; the would-block refusal, and only it, becomes the end of
/// the sequence; every other error is handed through unchanged. The end of
/// a drain can therefore never be confused with a real failure.
fn classify_step(outcome: Result<(u32, usize), Error>, buf: Vec<u8>) -> (r: Result<
    Option<(u32, Vec<u8>)>,
    Error,
>)
    requires
        outcome is Ok ==> (outcome->Ok_0).1 <= buf@.len(),
    ensures
        outcome is Ok ==> r is Ok && r->Ok_0 is Some && (r->Ok_0->0).0 == (outcome->Ok_0).0 && (
        r->Ok_0->0).1@ == buf@.take((outcome->Ok_0).1 as int),
        outcome == Err::<(u32, usize), Error>(Error::WouldBlock) ==> r == Ok::<
            Option<(u32, Vec<u8>)>,
            Error,
        >(None),
        outcome is Err && outcome->Err_0 != Error::WouldBlock ==> r == Err::<
            Option<(u32, Vec<u8>)>,
            Error,
        >(outcome->Err_0),
{
    match outcome {
        Ok((priority, len)) => {
            let mut message = buf;
            message.truncate(len);
            proof {
                assert(message@ =~= buf@.take(len as int));
            }
            Ok(Some((priority, message)))
        },
        Err(e) => {
            if e == Error::WouldBlock {
                Ok(None)
            } else {
                Err(e)
            }
        },
    }
}

/// One receive step, shared by the borrowing and the owning sequence: a
/// receive into a freshly sized buffer, classified by [`classify_step`].
fn next_step(mq: &PosixMq, max_msg_len: usize) -> (r: Result<Option<(u32, Vec<u8>)>, Error>)
    requires
        mq.wf(),
    ensures
        r is Err ==> r->Err_0 != Error::WouldBlock && r->Err_0 != Error::Interrupted,
        r is Ok && r->Ok_0 is Some ==> (r->Ok_0->0).1@.len() <= max_msg_len,
{
    let mut buf: Vec<u8> = vec![0u8; max_msg_len];
    let outcome = mq.receive(buf.as_mut_slice());
    classify_step(outcome, buf)
}

impl<'a> Iter<'a> {
    /// The borrowed handle is open.
    pub closed spec fn wf(&self) -> bool {
        self.mq.wf()
    }

    /// The next message, the would-block end of the drain, or an error;
    /// see [`PosixMq::iter`].
    pub fn next(&mut self) -> (r: Result<Option<(u32, Vec<u8>)>, Error>)
        requires
            old(self).wf(),
        ensures
            *final(self) == *old(self),
            r is Err ==> r->Err_0 != Error::WouldBlock && r->Err_0 != Error::Interrupted,
    {
        next_step(self.mq, self.max_msg_len)
    }
}

impl IntoIter {
    /// The owned handle is open.
    pub closed spec fn wf(&self) -> bool {
        self.mq.wf()
    }

    /// The next message, the would-block end of the drain, or an error;
    /// see [`PosixMq::into_iter`].
    pub fn next(&mut self) -> (r: Result<Option<(u32, Vec<u8>)>, Error>)
        requires
            old(self).wf(),
        ensures
            *final(self) == *old(self),
            r is Err ==> r->Err_0 != Error::WouldBlock && r->Err_0 != Error::Interrupted,
    {
        next_step(&self.mq, self.max_msg_len)
    }
}

impl PosixMq {
    /// A sequence that receives repeatedly from this handle with a buffer
    /// sized to the queue's maximum message length.
    ///
    /// On a non-blocking descriptor the sequence drains the queue and then
    /// ends; on a blocking one it blocks instead of ending.
    pub fn iter(&self) -> (it: Iter)
        requires
            self.wf(),
        ensures
            it.wf(),
    {
        Iter { mq: self, max_msg_len: self.attributes().max_msg_len }
    }

    /// Like [`PosixMq::iter`], but consuming the handle: the queue is
    /// closed when the sequence is dropped.
    pub fn into_iter(self) -> (it: IntoIter)
        requires
            self.wf(),
        ensures
            it.wf(),
    {
        let max_msg_len = self.attributes().max_msg_len;
        IntoIter { mq: self, max_msg_len }
    }
}

} // verus!
