//! The trusted boundary to the kernel's message-queue interface.
//!
//! Each function here wraps exactly one call into an outside crate and is
//! believed, not verified: its body only makes the call and converts plain
//! values at its edges. What a call returns depends on kernel state shared
//! with other processes, so these contracts promise only what holds of every
//! outcome; the verified callers state how each outcome is handled.
//!
//! Names are handed over without their terminating NUL: the callee appends
//! one itself and would reject a name holding interior NUL bytes, so every
//! wrapper taking a name requires the bytes to be NUL-free and therefore
//! reaches the kernel with exactly that name.

use vstd::prelude::*;
use crate::name::name_ok;
use crate::time::Timespec;
use nix::mqueue::{MqdT, MQ_OFlag, MqAttr};
use nix::fcntl::{FcntlArg, FdFlag};

verus! {

/// The kernel's queue-descriptor type, opaque to verification: on this
/// platform it is a plain file descriptor.
#[verifier::external_type_specification]
#[verifier::external_body]
pub struct ExMqd(MqdT);

/// Relies on nix's `mq_open`: opens or creates the queue named by `name`
/// (with a NUL appended) with the given access mode, creation disposition,
/// blocking mode, permissions and capacities. The callee hands the
/// permission bits to the kernel only together with an explicit capacity
/// pair, so the caller must set `with_attr` whenever the queue may be
/// created.
#[verifier::external_body]
pub(crate) fn mq_open_raw(
    name: &[u8],
    read: bool,
    write: bool,
    create: bool,
    excl: bool,
    nonblocking: bool,
    mode: u32,
    with_attr: bool,
    capacity: usize,
    max_msg_len: usize,
) -> (r: Result<MqdT, i32>)
    requires
        name_ok(name@),
        create ==> with_attr,
{
    let mut oflag = if read && write { MQ_OFlag::O_RDWR }
        else if write { MQ_OFlag::O_WRONLY }
        else { MQ_OFlag::O_RDONLY };
    if create { oflag |= MQ_OFlag::O_CREAT; }
    if excl { oflag |= MQ_OFlag::O_EXCL; }
    if nonblocking { oflag |= MQ_OFlag::O_NONBLOCK; }
    let attr = if with_attr {
        Some(MqAttr::new(0, capacity as libc::c_long, max_msg_len as libc::c_long, 0))
    } else { None };
    let perm = nix::sys::stat::Mode::from_bits_truncate(mode);
    nix::mqueue::mq_open(name, oflag, perm, attr.as_ref()).map_err(|e| e as i32)
}

/// Relies on nix's `mq_unlink`: removes the queue named by `name` (with a
/// NUL appended) from the kernel namespace.
#[verifier::external_body]
pub(crate) fn mq_unlink_raw(name: &[u8]) -> (r: Result<(), i32>)
    requires
        name_ok(name@),
{
    nix::mqueue::mq_unlink(name).map_err(|e| e as i32)
}

/// Relies on nix's `mq_send`: adds `msg` with priority `prio` to the queue,
/// blocking while the queue is full unless the descriptor is non-blocking.
#[verifier::external_body]
pub(crate) fn mq_send_raw(q: &MqdT, msg: &[u8], prio: u32) -> (r: Result<(), i32>) {
    nix::mqueue::mq_send(q, msg, prio).map_err(|e| e as i32)
}

/// Relies on nix's `mq_receive`: takes the highest-priority message into
/// `buf`, returning its priority and length; a received message fits the
/// buffer, whose length the callee cannot change.
#[verifier::external_body]
pub(crate) fn mq_receive_raw(q: &MqdT, buf: &mut [u8]) -> (r: Result<(u32, usize), i32>)
    ensures
        r is Ok ==> r->Ok_0.1 <= old(buf)@.len(),
        final(buf)@.len() == old(buf)@.len(),
{
    let mut prio: u32 = 0;
    match nix::mqueue::mq_receive(q, buf, &mut prio) {
        Ok(len) => Ok((prio, len)),
        Err(e) => Err(e as i32),
    }
}

/// Relies on nix's `mq_timedreceive`: like `mq_receive`, but gives up with
/// `ETIMEDOUT` once the absolute point `abs` has passed.
#[verifier::external_body]
pub(crate) fn mq_timedreceive_raw(q: &MqdT, buf: &mut [u8], abs: Timespec) -> (r: Result<
    (u32, usize),
    i32,
>)
    ensures
        r is Ok ==> r->Ok_0.1 <= old(buf)@.len(),
        final(buf)@.len() == old(buf)@.len(),
{
    let ts = nix::sys::time::TimeSpec::new(abs.sec, abs.nsec);
    let mut prio: u32 = 0;
    match nix::mqueue::mq_timedreceive(q, buf, &mut prio, &ts) {
        Ok(len) => Ok((prio, len)),
        Err(e) => Err(e as i32),
    }
}

/// Relies on nix's `mq_getattr`: a snapshot of the queue's flags, capacity,
/// maximum message length and current message count, in that field order.
#[verifier::external_body]
pub(crate) fn mq_getattr_raw(q: &MqdT) -> (r: Result<(i64, i64, i64, i64), i32>) {
    match nix::mqueue::mq_getattr(q) {
        Ok(a) => Ok((a.flags(), a.maxmsg(), a.msgsize(), a.curmsgs())),
        Err(e) => Err(e as i32),
    }
}

/// Relies on nix's `mq_setattr`: sets the descriptor's flag word, of which
/// the kernel heeds only the non-blocking bit, ignoring the other fields.
#[verifier::external_body]
pub(crate) fn mq_setattr_raw(q: &MqdT, flags: i64) -> (r: Result<(), i32>) {
    let attr = MqAttr::new(flags, 0, 0, 0);
    match nix::mqueue::mq_setattr(q, &attr) {
        Ok(_) => Ok(()),
        Err(e) => Err(e as i32),
    }
}

/// Relies on nix's `fcntl` with `F_GETFD`: the descriptor's flag word, whose
/// lowest bit is the close-on-exec flag.
#[verifier::external_body]
pub(crate) fn fcntl_getfd_raw(q: &MqdT) -> (r: Result<i32, i32>) {
    nix::fcntl::fcntl(q, FcntlArg::F_GETFD).map_err(|e| e as i32)
}

/// Relies on nix's `fcntl` with `F_SETFD`: sets or clears the descriptor's
/// close-on-exec flag.
#[verifier::external_body]
pub(crate) fn fcntl_setfd_raw(q: &MqdT, cloexec: bool) -> (r: Result<(), i32>) {
    let flag = if cloexec {
        FdFlag::FD_CLOEXEC
    } else {
        FdFlag::empty()
    };
    match nix::fcntl::fcntl(q, FcntlArg::F_SETFD(flag)) {
        Ok(_) => Ok(()),
        Err(e) => Err(e as i32),
    }
}

/// Relies on nix's `clock_gettime` on the realtime clock: the current wall
/// time as a normalized kernel pair, nanoseconds in `[0, 1_000_000_000)`.
#[verifier::external_body]
pub(crate) fn clock_realtime() -> (r: Result<Timespec, i32>)
    ensures
        r is Ok ==> r->Ok_0.wf(),
{
    match nix::time::clock_gettime(nix::time::ClockId::CLOCK_REALTIME) {
        Ok(ts) => Ok(Timespec { sec: ts.tv_sec(), nsec: ts.tv_nsec() }),
        Err(e) => Err(e as i32),
    }
}

} // verus!
