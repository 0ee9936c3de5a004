//! The queue handle and the send/receive families.
//!
//! A [`PosixMq`] owns exactly one kernel descriptor: created by a successful
//! open call, released exactly once when the handle is dropped, never shared
//! and never copied. Every operation is a direct, synchronous kernel call
//! from the calling thread; the kernel, not this layer, serializes
//! concurrent senders and receivers. The send and receive families retry
//! transparently when a signal interrupts the call, and the time-bounded
//! forms reuse the original absolute deadline on each retry rather than
//! recompute it.

use vstd::prelude::*;
use crate::error::Error;
use crate::name::{effective_name_ok, name_ok, name_to_c, lemma_kernel_name_nul_free, trimmed, CNameBuf};
use crate::options::OpenOptions;
use crate::sys;
use crate::time::{deadline_to_realtime, TimeSpan, Timespec, Timestamp};
use nix::mqueue::MqdT;

verus! {

/// The descriptor flag word's non-blocking bit.
pub const NONBLOCK_FLAG: i64 = 0o4000;

/// The descriptor flag word's close-on-exec bit.
pub const CLOEXEC_FLAG: i32 = 1;

/// A snapshot of the capacities and state of a queue, as reported by the
/// kernel at the time it was taken; the message count is inherently racy
/// against concurrent senders and receivers.
#[derive(Clone, Copy, Debug, PartialEq, Eq, Structural)]
pub struct Attributes {
    /// The maximum size of messages that can be stored in the queue.
    pub max_msg_len: usize,
    /// The maximum number of messages in the queue.
    pub capacity: usize,
    /// The number of messages in the queue when the snapshot was taken.
    pub current_messages: usize,
    /// Whether the descriptor was in non-blocking mode at that time.
    pub nonblocking: bool,
}

/// The snapshot reported when the kernel cannot be asked at all (the
/// descriptor is closed or not a queue): all sizes zero and non-blocking
/// set, so a caller that acts on it does not block, and the next send or
/// receive surfaces the real problem as a proper error.
pub open spec fn degraded_attributes() -> Attributes {
    Attributes { max_msg_len: 0, capacity: 0, current_messages: 0, nonblocking: true }
}

/// Decode the outcome of the kernel's attribute query into a snapshot: a
/// reported quadruple is decoded as [`attributes_from_raw`] does, and a
/// refusal becomes the degraded snapshot.
pub fn attributes_of(r: Result<(i64, i64, i64, i64), i32>) -> (a: Attributes)
    ensures
        r is Ok ==> (a.nonblocking <==> ((r->Ok_0).0 & NONBLOCK_FLAG) != 0),
        r is Ok ==> a.capacity == (r->Ok_0).1 as usize,
        r is Ok ==> a.max_msg_len == (r->Ok_0).2 as usize,
        r is Ok ==> a.current_messages == (r->Ok_0).3 as usize,
        r is Err ==> a == degraded_attributes(),
{
    match r {
        Ok((flags, maxmsg, msgsize, curmsgs)) => attributes_from_raw(
            flags,
            maxmsg,
            msgsize,
            curmsgs,
        ),
        Err(_) => Attributes {
            max_msg_len: 0,
            capacity: 0,
            current_messages: 0,
            nonblocking: true,
        },
    }
}

/// Decode the outcome of reading the descriptor flag word into the
/// close-on-exec answer: the flag's bit decides, and an unreadable word
/// counts as set, since a closed descriptor will not survive a
/// program-image replacement either.
pub fn cloexec_of(r: Result<i32, i32>) -> (b: bool)
    ensures
        r is Ok ==> (b <==> (r->Ok_0 & CLOEXEC_FLAG) != 0),
        r is Err ==> b,
{
    match r {
        Ok(flags) => (flags & CLOEXEC_FLAG) != 0,
        Err(_) => true,
    }
}

/// The descriptor flag word handed to the kernel to set the blocking mode:
/// the non-blocking bit alone, or an empty word.
pub fn nonblocking_flag_word(nonblocking: bool) -> (r: i64)
    ensures
        r == if nonblocking {
            NONBLOCK_FLAG as i64
        } else {
            0i64
        },
{
    if nonblocking {
        NONBLOCK_FLAG
    } else {
        0
    }
}

/// Decode a raw attribute quadruple, as the kernel reports it, into a
/// snapshot: the non-blocking bit is read from the flag word and the sizes
/// are taken as they stand.
pub fn attributes_from_raw(flags: i64, maxmsg: i64, msgsize: i64, curmsgs: i64) -> (a: Attributes)
    ensures
        a.nonblocking <==> (flags & NONBLOCK_FLAG) != 0,
        a.max_msg_len == msgsize as usize,
        a.capacity == maxmsg as usize,
        a.current_messages == curmsgs as usize,
{
    Attributes {
        max_msg_len: msgsize as usize,
        capacity: maxmsg as usize,
        current_messages: curmsgs as usize,
        nonblocking: (flags & NONBLOCK_FLAG) != 0,
    }
}

/// A descriptor for an open queue.
///
/// The queue can be sent to and received from according to the options it
/// was opened with. The descriptor is owned exclusively and released when
/// the handle is dropped.
#[derive(Debug)]
pub struct PosixMq {
    mqd: Option<MqdT>,
}

impl PosixMq {
    /// An open handle holds its descriptor; only consuming it away (to hand
    /// ownership out raw) removes it, and such a handle is never seen again.
    pub closed spec fn wf(&self) -> bool {
        self.mqd is Some
    }

    /// The held descriptor.
    fn mqd_ref(&self) -> (r: &MqdT)
        requires
            self.wf(),
    {
        match &self.mqd {
            Some(d) => d,
            None => unreached(),
        }
    }

    /// Open an existing message queue in read-write mode.
    pub fn open(name: &[u8]) -> (r: Result<PosixMq, Error>)
        ensures
            !effective_name_ok(name@) ==> r == Err::<PosixMq, Error>(Error::InvalidInput),
            r is Ok ==> r->Ok_0.wf(),
    {
        OpenOptions::readwrite().open(name)
    }

    /// Open a message queue in read-write mode, creating it if it does not
    /// exist.
    pub fn create(name: &[u8]) -> (r: Result<PosixMq, Error>)
        ensures
            !effective_name_ok(name@) ==> r == Err::<PosixMq, Error>(Error::InvalidInput),
            r is Ok ==> r->Ok_0.wf(),
    {
        OpenOptions::readwrite().create().open(name)
    }

    /// Add a message to the queue.
    ///
    /// Blocks while the queue is full if the descriptor is in blocking
    /// mode; returns [`Error::WouldBlock`] at once if it is not. Retries
    /// transparently when a signal interrupts the call, so
    /// [`Error::Interrupted`] is never returned. The kernel rejects
    /// priorities above its platform ceiling with [`Error::InvalidInput`],
    /// and not every platform accepts zero-length messages.
    pub fn send(&self, priority: u32, msg: &[u8]) -> (r: Result<(), Error>)
        requires
            self.wf(),
        ensures
            r is Err ==> r->Err_0 != Error::Interrupted,
    {
        let mut tries: u64 = 0;
        while tries < u64::MAX
            invariant
                self.wf(),
            decreases u64::MAX - tries,
        {
            match sys::mq_send_raw(self.mqd_ref(), msg, priority) {
                Ok(()) => {
                    return Ok(());
                },
                Err(e) => {
                    let kind = Error::from_errno(e);
                    if kind != Error::Interrupted {
                        return Err(kind);
                    }
                },
            }
            tries += 1;
        }
        // A retry budget of two to the sixty-fourth consecutive
        // interruptions is never exhausted in practice.
        Err(Error::Other)
    }

    /// Take the message with the highest priority from the queue, into
    /// `msgbuf`, returning its priority and length.
    ///
    /// The buffer must be at least as large as the queue's maximum message
    /// length, or the kernel fails the call without consuming a message.
    /// Blocks while the queue is empty if the descriptor is in blocking
    /// mode; returns [`Error::WouldBlock`] at once if it is not. Retries
    /// transparently when a signal interrupts the call, so
    /// [`Error::Interrupted`] is never returned.
    pub fn receive(&self, msgbuf: &mut [u8]) -> (r: Result<(u32, usize), Error>)
        requires
            self.wf(),
        ensures
            r is Ok ==> r->Ok_0.1 <= old(msgbuf)@.len(),
            final(msgbuf)@.len() == old(msgbuf)@.len(),
            r is Err ==> r->Err_0 != Error::Interrupted,
    {
        let mut tries: u64 = 0;
        while tries < u64::MAX
            invariant
                self.wf(),
                msgbuf@.len() == old(msgbuf)@.len(),
            decreases u64::MAX - tries,
        {
            match sys::mq_receive_raw(self.mqd_ref(), msgbuf) {
                Ok((priority, len)) => {
                    return Ok((priority, len));
                },
                Err(e) => {
                    let kind = Error::from_errno(e);
                    if kind != Error::Interrupted {
                        return Err(kind);
                    }
                },
            }
            tries += 1;
        }
        // A retry budget of two to the sixty-fourth consecutive
        // interruptions is never exhausted in practice.
        Err(Error::Other)
    }

    /// The timed receive call, retrying on signal interruption with the
    /// same absolute deadline: a retry must not restart an expired wait.
    fn timedreceive(&self, msgbuf: &mut [u8], abs: Timespec) -> (r: Result<(u32, usize), Error>)
        requires
            self.wf(),
        ensures
            r is Ok ==> r->Ok_0.1 <= old(msgbuf)@.len(),
            final(msgbuf)@.len() == old(msgbuf)@.len(),
            r is Err ==> r->Err_0 != Error::Interrupted,
    {
        let mut tries: u64 = 0;
        while tries < u64::MAX
            invariant
                self.wf(),
                msgbuf@.len() == old(msgbuf)@.len(),
            decreases u64::MAX - tries,
        {
            match sys::mq_timedreceive_raw(self.mqd_ref(), msgbuf, abs) {
                Ok((priority, len)) => {
                    return Ok((priority, len));
                },
                Err(e) => {
                    let kind = Error::from_errno(e);
                    if kind != Error::Interrupted {
                        return Err(kind);
                    }
                },
            }
            tries += 1;
        }
        // A retry budget of two to the sixty-fourth consecutive
        // interruptions is never exhausted in practice.
        Err(Error::Other)
    }

    /// Take the highest-priority message, or give up once a point in time
    /// has passed.
    ///
    /// Reports [`Error::TimedOut`] when the deadline passes, distinctly
    /// from [`Error::WouldBlock`]: on a non-blocking descriptor the call
    /// returns would-block at once and the deadline has no effect. A
    /// deadline beyond the kernel's range is clamped to its nearest
    /// representable point, an effectively infinite future or past.
    pub fn receive_deadline(&self, msgbuf: &mut [u8], deadline: Timestamp) -> (r: Result<
        (u32, usize),
        Error,
    >)
        requires
            self.wf(),
            deadline.wf(),
        ensures
            r is Ok ==> r->Ok_0.1 <= old(msgbuf)@.len(),
            final(msgbuf)@.len() == old(msgbuf)@.len(),
            r is Err ==> r->Err_0 != Error::Interrupted,
    {
        let abs = match deadline_to_realtime(deadline) {
            Ok(ts) => ts,
            Err(saturated) => saturated,
        };
        self.timedreceive(msgbuf, abs)
    }

    /// Take the highest-priority message, or give up once `timeout` has
    /// elapsed from now.
    ///
    /// Reads the realtime clock, adds the span and delegates to the
    /// deadline form; a span that would carry the clock beyond the kernel's
    /// range is rejected as [`Error::InvalidInput`]. On a non-blocking
    /// descriptor the timeout has no effect and the call returns
    /// [`Error::WouldBlock`] at once instead of ever timing out.
    pub fn receive_timeout(&self, msgbuf: &mut [u8], timeout: TimeSpan) -> (r: Result<
        (u32, usize),
        Error,
    >)
        requires
            self.wf(),
            timeout.wf(),
        ensures
            r is Ok ==> r->Ok_0.1 <= old(msgbuf)@.len(),
            final(msgbuf)@.len() == old(msgbuf)@.len(),
            r is Err ==> r->Err_0 != Error::Interrupted,
            timeout.secs > i64::MAX ==> r == Err::<(u32, usize), Error>(Error::InvalidInput),
    {
        let abs = match crate::time::timeout_to_realtime(timeout) {
            Ok(ts) => ts,
            Err(e) => {
                return Err(e);
            },
        };
        self.timedreceive(msgbuf, abs)
    }

    /// A snapshot of the queue's attributes.
    ///
    /// A kernel refusal (possible only through a closed or foreign
    /// descriptor) is deliberately not surfaced: a degraded snapshot comes
    /// back instead, all sizes zero and non-blocking set, so a caller that
    /// acts on it does not block, and the next send or receive reports the
    /// real problem as a proper error.
    pub fn attributes(&self) -> (a: Attributes)
        requires
            self.wf(),
    {
        attributes_of(sys::mq_getattr_raw(self.mqd_ref()))
    }

    /// Whether this descriptor is in non-blocking mode; `true` also when
    /// the kernel cannot be asked, as for [`PosixMq::attributes`].
    pub fn is_nonblocking(&self) -> (r: bool)
        requires
            self.wf(),
    {
        self.attributes().nonblocking
    }

    /// Enable or disable non-blocking mode for this descriptor.
    ///
    /// The mode can also be set at open time with
    /// [`OpenOptions::nonblocking`]. Fails only through a closed or foreign
    /// descriptor.
    pub fn set_nonblocking(&self, nonblocking: bool) -> (r: Result<(), Error>)
        requires
            self.wf(),
    {
        let flags: i64 = nonblocking_flag_word(nonblocking);
        match sys::mq_setattr_raw(self.mqd_ref(), flags) {
            Ok(()) => Ok(()),
            Err(e) => Err(Error::from_errno(e)),
        }
    }

    /// Whether this descriptor will be closed if the process replaces its
    /// program image.
    ///
    /// Queue descriptors have close-on-exec set by default. `true` is also
    /// returned when the flag cannot be read at all: a closed descriptor
    /// will not be open after the replacement either.
    pub fn is_cloexec(&self) -> (r: bool)
        requires
            self.wf(),
    {
        cloexec_of(sys::fcntl_getfd_raw(self.mqd_ref()))
    }

    /// Change close-on-exec for this descriptor.
    ///
    /// It is on by default, so this is only needed to keep the descriptor
    /// open across a program-image replacement. Fails only through a closed
    /// or foreign descriptor.
    pub fn set_cloexec(&self, cloexec: bool) -> (r: Result<(), Error>)
        requires
            self.wf(),
    {
        match sys::fcntl_setfd_raw(self.mqd_ref(), cloexec) {
            Ok(()) => Ok(()),
            Err(e) => Err(Error::from_errno(e)),
        }
    }

    /// Borrow the raw message queue descriptor, for handing to readiness
    /// multiplexers or foreign code; the handle keeps ownership.
    pub fn as_raw_mqd(&self) -> (r: &MqdT)
        requires
            self.wf(),
    {
        self.mqd_ref()
    }

    /// Assemble a handle from a raw descriptor, taking ownership of it:
    /// dropping the returned handle releases the descriptor. The safe
    /// counterpart of [`PosixMq::into_raw_mqd`]; the caller vouches that
    /// the descriptor refers to an open queue.
    pub fn from_mqd(d: MqdT) -> (r: PosixMq)
        ensures
            r.wf(),
    {
        PosixMq { mqd: Some(d) }
    }

    /// Give up ownership of the raw descriptor without closing it; the
    /// handle is consumed and its drop then releases nothing.
    pub fn into_raw_mqd(self) -> (r: MqdT)
        requires
            self.wf(),
    {
        let mut this = self;
        match this.mqd.take() {
            Some(d) => d,
            None => unreached(),
        }
    }
}

impl Drop for PosixMq {
    /// Relies on nix's `mq_close`: releases the descriptor exactly once; a
    /// handle whose descriptor was consumed away releases nothing.
    #[verifier::external_body]
    fn drop(&mut self)
        opens_invariants none
        no_unwind
    {
        if let Some(d) = self.mqd.take() {
            let _ = nix::mqueue::mq_close(d);
        }
    }
}

impl OpenOptions {
    /// The capacity pair handed to the open call, and whether it is handed
    /// over at all.
    ///
    /// A zero/zero pair means the platform's default limits. The kernel
    /// call can carry the creation permissions only together with an
    /// explicit capacity pair, so a create with default limits spells the
    /// platform's defaults out; every other combination is passed through
    /// as it stands, a half-zero pair included, which the kernel rejects.
    fn effective_limits(&self) -> (r: (bool, usize, usize))
        ensures
            self.create && self.capacity == 0 && self.max_msg_len == 0 ==> r == (
                true,
                crate::options::DEFAULT_CAPACITY,
                crate::options::DEFAULT_MSG_LEN,
            ),
            !(self.create && self.capacity == 0 && self.max_msg_len == 0) ==> r == (
                self.capacity != 0 || self.max_msg_len != 0,
                self.capacity,
                self.max_msg_len,
            ),
    {
        if self.create && self.capacity == 0 && self.max_msg_len == 0 {
            (true, crate::options::DEFAULT_CAPACITY, crate::options::DEFAULT_MSG_LEN)
        } else {
            (self.capacity != 0 || self.max_msg_len != 0, self.capacity, self.max_msg_len)
        }
    }

    /// Open a queue with these options and a normalized form of `name`.
    ///
    /// The name gets a slash prepended when missing and a single trailing
    /// NUL absorbed, and is rejected as [`Error::InvalidInput`] exactly
    /// when an interior NUL remains after that; every other failure is the
    /// kernel's refusal, mapped onto the error taxonomy:
    /// [`Error::NotFound`] for an absent queue or a degenerate name,
    /// [`Error::AlreadyExists`] for an exclusive create of an existing
    /// queue, [`Error::PermissionDenied`] for a mode mismatch or extra
    /// path segments, [`Error::InvalidInput`] for a malformed capacity
    /// pair, and [`Error::Other`] for the rest.
    pub fn open(&self, name: &[u8]) -> (r: Result<PosixMq, Error>)
        ensures
            !effective_name_ok(name@) ==> r == Err::<PosixMq, Error>(Error::InvalidInput),
            r is Ok ==> r->Ok_0.wf(),
    {
        let cname = match name_to_c(name) {
            Ok(c) => c,
            Err(e) => {
                return Err(e);
            },
        };
        proof {
            lemma_kernel_name_nul_free(trimmed(name@));
        }
        self.open_normalized(&cname)
    }

    /// Open a queue with these options and a name already in C-string
    /// form, without inspecting or normalizing it: the bytes before the
    /// terminating NUL go to the kernel as they stand.
    pub fn open_c(&self, name_z: &[u8]) -> (r: Result<PosixMq, Error>)
        requires
            name_z@.len() > 0,
            name_z@.last() == 0,
            forall|i: int| 0 <= i < name_z@.len() - 1 ==> name_z@[i] != 0,
        ensures
            r is Ok ==> r->Ok_0.wf(),
    {
        let bare = vstd::slice::slice_subrange(name_z, 0, name_z.len() - 1);
        let (with_attr, capacity, max_msg_len) = self.effective_limits();
        match sys::mq_open_raw(
            bare,
            self.read,
            self.write,
            self.create,
            self.excl,
            self.nonblocking,
            self.mode,
            with_attr,
            capacity,
            max_msg_len,
        ) {
            Ok(mqd) => Ok(PosixMq { mqd: Some(mqd) }),
            Err(e) => Err(Error::from_errno(e)),
        }
    }

    /// The open call shared by the normalizing and raw-name entry points.
    ///
    /// On this platform the kernel sets close-on-exec on the new descriptor
    /// by itself, so no post-open fix-up step is needed here.
    fn open_normalized(&self, cname: &CNameBuf) -> (r: Result<PosixMq, Error>)
        requires
            cname.wf(),
            name_ok(cname@),
        ensures
            r is Ok ==> r->Ok_0.wf(),
    {
        let (with_attr, capacity, max_msg_len) = self.effective_limits();
        match sys::mq_open_raw(
            cname.as_bytes(),
            self.read,
            self.write,
            self.create,
            self.excl,
            self.nonblocking,
            self.mode,
            with_attr,
            capacity,
            max_msg_len,
        ) {
            Ok(mqd) => Ok(PosixMq { mqd: Some(mqd) }),
            Err(e) => Err(Error::from_errno(e)),
        }
    }
}

/// Delete a message queue from the kernel namespace.
///
/// The name is normalized like in [`OpenOptions::open`]: a single trailing
/// NUL is absorbed, and the name is rejected as [`Error::InvalidInput`]
/// exactly when an interior NUL remains; otherwise the kernel decides, and
/// its refusal is mapped onto the error taxonomy. Queues otherwise persist
/// until the system is rebooted.
pub fn unlink(name: &[u8]) -> (r: Result<(), Error>)
    ensures
        !effective_name_ok(name@) ==> r == Err::<(), Error>(Error::InvalidInput),
{
    let cname = match name_to_c(name) {
        Ok(c) => c,
        Err(e) => {
            return Err(e);
        },
    };
    proof {
        lemma_kernel_name_nul_free(trimmed(name@));
    }
    match sys::mq_unlink_raw(cname.as_bytes()) {
        Ok(()) => Ok(()),
        Err(e) => Err(Error::from_errno(e)),
    }
}

/// Delete a message queue by a name already in C-string form, without
/// inspecting or normalizing it.
pub fn unlink_c(name_z: &[u8]) -> (r: Result<(), Error>)
    requires
        name_z@.len() > 0,
        name_z@.last() == 0,
        forall|i: int| 0 <= i < name_z@.len() - 1 ==> name_z@[i] != 0,
{
    let bare = vstd::slice::slice_subrange(name_z, 0, name_z.len() - 1);
    match sys::mq_unlink_raw(bare) {
        Ok(()) => Ok(()),
        Err(e) => Err(Error::from_errno(e)),
    }
}

} // verus!
