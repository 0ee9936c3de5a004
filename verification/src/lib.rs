//! A safe, verified access layer over POSIX message queues.
//!
//! Queues live in a kernel-managed flat namespace of `/name`-style names and
//! deliver messages in descending priority order, FIFO within a priority.
//! This crate wraps the kernel interface behind one consistent contract:
//! queue names are normalized to the kernel's slash-prefixed, NUL-terminated
//! form, time-bounded operations convert deadlines into the kernel's
//! seconds-plus-nanoseconds representation, descriptors are owned exclusively
//! and released exactly once, and interrupted system calls are retried rather
//! than surfaced.

pub use error::Error;
pub use iter::{IntoIter, Iter};
pub use mq::{attributes_from_raw, attributes_of, cloexec_of, nonblocking_flag_word, unlink, unlink_c, Attributes, PosixMq};
pub use name::{name_from_bytes, KernelName};
pub use options::OpenOptions;
pub use time::{deadline_to_realtime, timeout_to_abs, timeout_to_realtime, TimeSpan, Timespec, Timestamp};

pub mod error;
pub mod iter;
pub mod mq;
pub mod name;
pub mod options;
mod sys;
pub mod time;
