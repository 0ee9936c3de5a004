//! The open-options builder: an immutable-after-construction description of
//! how a queue is opened or created.
//!
//! Each setter consumes the builder and returns the updated one, so calls
//! chain; the final `open` call (on the queue module's side) consumes the
//! configuration and the name. Permission bits matter only when the queue is
//! created, are subject to the process umask, and are ignored entirely once
//! the queue exists. A capacity and maximum message length of zero each
//! leave both limits to the operating system; the kernel, not this layer,
//! rejects a pair of which only one is zero.

use vstd::prelude::*;

verus! {

/// The capacity a queue is created with when the caller left both limits
/// unset: this platform's stock default maximum number of queued messages.
///
/// The safe open binding can hand the creation permissions to the kernel
/// only together with an explicit capacity pair, so a create with both
/// limits unset cannot simply pass through whatever the system would
/// choose: it spells this value out instead. That differs from the
/// system's choice only where an administrator changed the platform's
/// default limits.
pub const DEFAULT_CAPACITY: usize = 10;

/// The maximum message length a queue is created with when the caller left
/// both limits unset: this platform's stock default. Spelled out for the
/// same reason as [`DEFAULT_CAPACITY`].
pub const DEFAULT_MSG_LEN: usize = 8192;

/// Flags and parameters which control how a queue is opened or created.
#[derive(Clone, Copy, Debug, PartialEq, Eq, Structural)]
pub struct OpenOptions {
    /// Whether the descriptor may receive.
    pub read: bool,
    /// Whether the descriptor may send.
    pub write: bool,
    /// Create the queue if it does not exist.
    pub create: bool,
    /// Together with `create`: fail if the queue already exists.
    pub excl: bool,
    /// Open the descriptor in non-blocking mode.
    pub nonblocking: bool,
    /// Permission bits used when the queue is created.
    pub mode: u32,
    /// Maximum number of queued messages, or zero for the OS default.
    pub capacity: usize,
    /// Maximum size of a message, or zero for the OS default.
    pub max_msg_len: usize,
}

impl OpenOptions {
    /// The defaults shared by the three access modes: open an existing
    /// queue, blocking, with owner-only permissions and OS-chosen limits.
    fn new(read: bool, write: bool) -> (r: OpenOptions)
        ensures
            r == (OpenOptions {
                read,
                write,
                create: false,
                excl: false,
                nonblocking: false,
                mode: 0o600,
                capacity: 0,
                max_msg_len: 0,
            }),
    {
        OpenOptions {
            read,
            write,
            create: false,
            excl: false,
            nonblocking: false,
            mode: 0o600,
            capacity: 0,
            max_msg_len: 0,
        }
    }

    /// Open the message queue for receiving only.
    pub fn readonly() -> (r: OpenOptions)
        ensures
            r == (OpenOptions {
                read: true,
                write: false,
                create: false,
                excl: false,
                nonblocking: false,
                mode: 0o600,
                capacity: 0,
                max_msg_len: 0,
            }),
    {
        OpenOptions::new(true, false)
    }

    /// Open the message queue for sending only.
    pub fn writeonly() -> (r: OpenOptions)
        ensures
            r == (OpenOptions {
                read: false,
                write: true,
                create: false,
                excl: false,
                nonblocking: false,
                mode: 0o600,
                capacity: 0,
                max_msg_len: 0,
            }),
    {
        OpenOptions::new(false, true)
    }

    /// Open the message queue both for sending and receiving.
    pub fn readwrite() -> (r: OpenOptions)
        ensures
            r == (OpenOptions {
                read: true,
                write: true,
                create: false,
                excl: false,
                nonblocking: false,
                mode: 0o600,
                capacity: 0,
                max_msg_len: 0,
            }),
    {
        OpenOptions::new(true, true)
    }

    /// Set the permissions to create the queue with. Bits the operating
    /// system does not know are ignored by it, and the process umask may
    /// clear some; without this call, queues are created with mode `600`.
    pub fn mode(self, mode: u32) -> (r: OpenOptions)
        ensures
            r == (OpenOptions { mode, ..self }),
    {
        OpenOptions { mode, ..self }
    }

    /// Set the maximum size of each message. Receiving fails when given a
    /// buffer smaller than this value. If this is set, the capacity should
    /// be too, or the kernel rejects the open call.
    pub fn max_msg_len(self, max_msg_len: usize) -> (r: OpenOptions)
        ensures
            r == (OpenOptions { max_msg_len, ..self }),
    {
        OpenOptions { max_msg_len, ..self }
    }

    /// Set the maximum number of messages in the queue. When the queue is
    /// full, further sends block or fail with a would-block error. If this
    /// is set, the maximum message length should be too, or the kernel
    /// rejects the open call.
    pub fn capacity(self, capacity: usize) -> (r: OpenOptions)
        ensures
            r == (OpenOptions { capacity, ..self }),
    {
        OpenOptions { capacity, ..self }
    }

    /// Create the message queue if it does not exist.
    pub fn create(self) -> (r: OpenOptions)
        ensures
            r == (OpenOptions { create: true, excl: false, ..self }),
    {
        OpenOptions { create: true, excl: false, ..self }
    }

    /// Create a new queue, failing if it already exists.
    pub fn create_new(self) -> (r: OpenOptions)
        ensures
            r == (OpenOptions { create: true, excl: true, ..self }),
    {
        OpenOptions { create: true, excl: true, ..self }
    }

    /// Require the queue to already exist, failing if it does not.
    pub fn existing(self) -> (r: OpenOptions)
        ensures
            r == (OpenOptions { create: false, excl: false, ..self }),
    {
        OpenOptions { create: false, excl: false, ..self }
    }

    /// Open the message queue in non-blocking mode: sends and receives that
    /// cannot proceed return a would-block error instead of blocking.
    pub fn nonblocking(self) -> (r: OpenOptions)
        ensures
            r == (OpenOptions { nonblocking: true, ..self }),
    {
        OpenOptions { nonblocking: true, ..self }
    }
}

} // verus!
