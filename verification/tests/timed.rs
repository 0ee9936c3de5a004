//! Tests for the time-bounded receive calls and the deadline arithmetic.

use std::time::Duration;

use posixmq::{deadline_to_realtime, timeout_to_abs, unlink};
use posixmq::{Error, OpenOptions, PosixMq, TimeSpan, Timespec, Timestamp};

/// Create smaller queues to avoid running into the total queue size limit.
/// Several of the tests also require a capacity of one.
fn tmp_mq(name: &[u8]) -> PosixMq {
    let mq = OpenOptions::readwrite()
        .capacity(1)
        .max_msg_len(64)
        .create()
        .open(name)
        .expect("cannot open or create queue");
    let _ = unlink(name);
    mq
}

/// The current wall time as a point-in-time value.
fn now_ts() -> Timestamp {
    match std::time::SystemTime::now().duration_since(std::time::SystemTime::UNIX_EPOCH) {
        Ok(d) => Timestamp {
            before_epoch: false,
            secs: d.as_secs(),
            nanos: d.subsec_nanos(),
        },
        Err(e) => Timestamp {
            before_epoch: true,
            secs: e.duration().as_secs(),
            nanos: e.duration().subsec_nanos(),
        },
    }
}

fn millis(ms: u32) -> TimeSpan {
    TimeSpan {
        secs: 0,
        nanos: ms * 1_000_000,
    }
}

#[test]
fn timeout_doesnt_block_indefinitely() {
    let mq = tmp_mq(b"/timed_send_and_receive");
    let err = mq
        .receive_timeout(&mut [0; 64], millis(10))
        .unwrap_err();
    assert_eq!(err, Error::TimedOut);
    mq.send(1, b"1").unwrap();
    mq.receive_timeout(&mut [0; 64], millis(10)).unwrap();
}

#[test]
fn timeout_expires_after_about_the_duration() {
    // a timed-out receive returns neither immediately nor indefinitely
    // later, but about when the requested span has elapsed
    let mq = tmp_mq(b"/timeout_duration");
    let started = std::time::Instant::now();
    let err = mq.receive_timeout(&mut [0; 64], millis(300)).unwrap_err();
    let elapsed = started.elapsed();
    assert_eq!(err, Error::TimedOut);
    assert!(elapsed >= Duration::from_millis(300), "not immediately");
    assert!(elapsed < Duration::from_secs(5), "not indefinitely");

    let started = std::time::Instant::now();
    let err = mq
        .receive_timeout(
            &mut [0; 64],
            TimeSpan {
                secs: 1,
                nanos: 500_000_000,
            },
        )
        .unwrap_err();
    let elapsed = started.elapsed();
    assert_eq!(err, Error::TimedOut);
    assert!(elapsed >= Duration::from_millis(1_500), "whole seconds count");
    assert!(elapsed < Duration::from_secs(6), "not indefinitely");
}

#[test]
fn deadline() {
    let mq = tmp_mq(b"/deadline");
    let mut later = now_ts();
    later.secs += 1;
    assert_eq!(
        mq.receive_deadline(&mut [0; 64], later).unwrap_err(),
        Error::TimedOut
    );
    // returns immediately after the previous call timed out
    assert_eq!(
        mq.receive_deadline(&mut [0; 64], later).unwrap_err(),
        Error::TimedOut
    );
}

#[test]
fn expired() {
    let mq = tmp_mq(b"/expired");
    let result = mq.receive_timeout(&mut [0; 64], TimeSpan { secs: 0, nanos: 0 });
    assert_eq!(result.unwrap_err(), Error::TimedOut);
    let mut past = now_ts();
    past.secs -= 100;
    let result = mq.receive_deadline(&mut [0; 64], past);
    assert_eq!(result.unwrap_err(), Error::TimedOut);
}

#[test]
fn ignored_when_nonblocking() {
    let mq = OpenOptions::readwrite()
        .nonblocking()
        .capacity(1)
        .max_msg_len(64)
        .create()
        .open(b"/deadline_is_now")
        .unwrap();
    let _ = unlink(b"/deadline_is_now");
    let mut later = now_ts();
    later.secs += 60;
    let result = mq.receive_deadline(&mut [0; 64], later);
    assert_eq!(result.unwrap_err(), Error::WouldBlock);
    mq.send(0, b"I can't wait").unwrap();
    let result = mq.send(0, b"I can't wait");
    assert_eq!(result.unwrap_err(), Error::WouldBlock);
}

#[test]
fn bad_timeouts() {
    let mq = tmp_mq(b"/time_overflow");
    let result = mq.receive_timeout(
        &mut [0; 64],
        TimeSpan {
            secs: !0,
            nanos: 999_999_999,
        },
    );
    assert_eq!(result.expect_err("complete wraparound"), Error::InvalidInput);
    let result = mq.receive_timeout(
        &mut [0; 64],
        TimeSpan {
            secs: !0 - 100,
            nanos: 0,
        },
    );
    assert_eq!(result.expect_err("too big"), Error::InvalidInput);
    let result = mq.receive_timeout(
        &mut [0; 64],
        TimeSpan {
            secs: i64::MAX as u64 - 100,
            nanos: 0,
        },
    );
    assert_eq!(result.expect_err("overflow"), Error::InvalidInput);
}

#[test]
fn negative_deadline() {
    // this platform rejects pre-epoch deadlines with an invalid-input error
    let mq = tmp_mq(b"/negative_deadline");
    let error = Error::InvalidInput;
    let no_fraction = Timestamp {
        before_epoch: true,
        secs: 365 * 24 * 60 * 60,
        nanos: 0,
    };
    let result = mq.receive_deadline(&mut [0; 64], no_fraction);
    assert_eq!(result.expect_err("negative deadline"), error);
    let only_fraction = Timestamp {
        before_epoch: true,
        secs: 0,
        nanos: 100_000_000,
    };
    let result = mq.receive_deadline(&mut [0; 64], only_fraction);
    assert_eq!(result.expect_err("negative deadline"), error);
    let with_fraction = Timestamp {
        before_epoch: true,
        secs: 10,
        nanos: 999_999_999,
    };
    let result = mq.receive_deadline(&mut [0; 64], with_fraction);
    assert_eq!(result.expect_err("negative deadline"), error);
}

#[test]
fn deadline_conversion_exact() {
    // after the epoch, seconds and nanoseconds carry over unchanged
    assert_eq!(
        deadline_to_realtime(Timestamp {
            before_epoch: false,
            secs: 5,
            nanos: 3
        }),
        Ok(Timespec { sec: 5, nsec: 3 })
    );
    // before the epoch the fractional part flips direction: ten seconds
    // and almost another one before the epoch is eleven seconds before,
    // plus one nanosecond
    assert_eq!(
        deadline_to_realtime(Timestamp {
            before_epoch: true,
            secs: 10,
            nanos: 999_999_999
        }),
        Ok(Timespec { sec: -11, nsec: 1 })
    );
    assert_eq!(
        deadline_to_realtime(Timestamp {
            before_epoch: true,
            secs: 10,
            nanos: 0
        }),
        Ok(Timespec { sec: -10, nsec: 0 })
    );
    // the whole-second extreme on either side
    assert_eq!(
        deadline_to_realtime(Timestamp {
            before_epoch: true,
            secs: i64::MAX as u64 + 1,
            nanos: 0
        }),
        Ok(Timespec {
            sec: i64::MIN,
            nsec: 0
        })
    );
    // beyond the representable range, the conversion saturates
    assert_eq!(
        deadline_to_realtime(Timestamp {
            before_epoch: false,
            secs: u64::MAX,
            nanos: 0
        }),
        Err(Timespec {
            sec: i64::MAX,
            nsec: 0
        })
    );
    assert_eq!(
        deadline_to_realtime(Timestamp {
            before_epoch: true,
            secs: i64::MAX as u64 + 2,
            nanos: 0
        }),
        Err(Timespec {
            sec: i64::MIN + 1,
            nsec: 0
        })
    );
}

#[test]
fn timeout_conversion_exact() {
    let now = Timespec {
        sec: 100,
        nsec: 900_000_000,
    };
    assert_eq!(
        timeout_to_abs(
            now,
            TimeSpan {
                secs: 2,
                nanos: 200_000_000
            }
        ),
        Ok(Timespec {
            sec: 103,
            nsec: 100_000_000
        })
    );
    assert_eq!(
        timeout_to_abs(
            Timespec {
                sec: i64::MAX,
                nsec: 0
            },
            TimeSpan { secs: 1, nanos: 0 }
        ),
        Err(Error::InvalidInput)
    );
    assert_eq!(
        timeout_to_abs(
            Timespec {
                sec: i64::MAX,
                nsec: 0
            },
            TimeSpan {
                secs: 0,
                nanos: 999_999_999
            }
        ),
        Ok(Timespec {
            sec: i64::MAX,
            nsec: 999_999_999
        })
    );
    // a pre-epoch clock is handled too
    assert_eq!(
        timeout_to_abs(
            Timespec {
                sec: -10,
                nsec: 500_000_000
            },
            TimeSpan {
                secs: 3,
                nanos: 600_000_000
            }
        ),
        Ok(Timespec {
            sec: -6,
            nsec: 100_000_000
        })
    );
}
