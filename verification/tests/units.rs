//! Unit tests of the pure pieces: the error-number mapping, the attribute
//! decoding, the options builder, and the name normalizer's two paths.

use posixmq::name::{name_to_c, CNameBuf};
use posixmq::{attributes_from_raw, Attributes, Error, OpenOptions};

#[test]
fn normalizer_short_and_long_paths() {
    let short = name_to_c(b"q").unwrap();
    assert!(matches!(short, CNameBuf::Short { .. }));
    assert_eq!(short.as_bytes(), b"/q");

    let slashed = name_to_c(b"/q").unwrap();
    assert_eq!(slashed.as_bytes(), b"/q");

    // a short name keeps a second slash: one is stripped, one is prepended
    let doubled = name_to_c(b"//").unwrap();
    assert_eq!(doubled.as_bytes(), b"//");

    let name = [b'a'; 40];
    let long = name_to_c(&name).unwrap();
    assert!(matches!(long, CNameBuf::Long { .. }));
    let mut expected = vec![b'/'];
    expected.extend_from_slice(&name);
    assert_eq!(long.as_bytes(), &expected[..]);

    // on the allocating path the slash is prepended only when missing, so
    // a long doubled slash collapses
    let mut doubled_long = vec![b'/', b'/'];
    doubled_long.extend_from_slice(&[b'a'; 35]);
    let collapsed = name_to_c(&doubled_long).unwrap();
    assert_eq!(collapsed.as_bytes(), &doubled_long[1..]);

    // a single trailing NUL is absorbed
    assert_eq!(name_to_c(b"/q\0").unwrap().as_bytes(), b"/q");
    assert_eq!(name_to_c(b"q\0").unwrap().as_bytes(), b"/q");
    assert_eq!(name_to_c(b"\0").unwrap().as_bytes(), b"/");

    // but only one: after the trim, a remaining NUL is interior
    assert_eq!(name_to_c(b"q\0\0").unwrap_err(), Error::InvalidInput);
    assert_eq!(name_to_c(b"a\0b").unwrap_err(), Error::InvalidInput);
    assert_eq!(name_to_c(b"/a\0b").unwrap_err(), Error::InvalidInput);
    assert_eq!(name_to_c(b"a\0b\0").unwrap_err(), Error::InvalidInput);
}

#[test]
fn attribute_decoding_of_outcomes() {
    assert_eq!(
        posixmq::attributes_of(Ok((0o4000, 10, 8192, 3))),
        Attributes {
            max_msg_len: 8192,
            capacity: 10,
            current_messages: 3,
            nonblocking: true,
        }
    );
    // a refused query decodes to the degraded snapshot
    assert_eq!(
        posixmq::attributes_of(Err(9)),
        Attributes {
            max_msg_len: 0,
            capacity: 0,
            current_messages: 0,
            nonblocking: true,
        }
    );
}

#[test]
fn flag_word_decoding() {
    assert_eq!(posixmq::nonblocking_flag_word(true), 0o4000);
    assert_eq!(posixmq::nonblocking_flag_word(false), 0);
    assert!(posixmq::cloexec_of(Ok(1)));
    assert!(posixmq::cloexec_of(Ok(3)));
    assert!(!posixmq::cloexec_of(Ok(0)));
    assert!(!posixmq::cloexec_of(Ok(2)));
    assert!(posixmq::cloexec_of(Err(9)));
}

#[test]
fn errno_mapping() {
    assert_eq!(Error::from_errno(2), Error::NotFound);
    assert_eq!(Error::from_errno(17), Error::AlreadyExists);
    assert_eq!(Error::from_errno(13), Error::PermissionDenied);
    assert_eq!(Error::from_errno(1), Error::PermissionDenied);
    assert_eq!(Error::from_errno(22), Error::InvalidInput);
    assert_eq!(Error::from_errno(11), Error::WouldBlock);
    assert_eq!(Error::from_errno(110), Error::TimedOut);
    assert_eq!(Error::from_errno(4), Error::Interrupted);
    // everything else is folded into the catch-all kind
    assert_eq!(Error::from_errno(90), Error::Other); // message too long
    assert_eq!(Error::from_errno(36), Error::Other); // name too long
    assert_eq!(Error::from_errno(38), Error::Other); // queues disabled
    assert_eq!(Error::from_errno(0), Error::Other);
}

#[test]
fn attribute_decoding() {
    assert_eq!(
        attributes_from_raw(0o4000, 10, 8192, 3),
        Attributes {
            max_msg_len: 8192,
            capacity: 10,
            current_messages: 3,
            nonblocking: true,
        }
    );
    assert_eq!(
        attributes_from_raw(0, 2, 100, 0),
        Attributes {
            max_msg_len: 100,
            capacity: 2,
            current_messages: 0,
            nonblocking: false,
        }
    );
    // other bits in the flag word do not count as non-blocking
    assert!(!attributes_from_raw(0o2, 1, 1, 0).nonblocking);
}

#[test]
fn builder_fields() {
    let o = OpenOptions::readonly();
    assert!(o.read && !o.write && !o.create && !o.excl && !o.nonblocking);
    assert_eq!((o.mode, o.capacity, o.max_msg_len), (0o600, 0, 0));

    let o = OpenOptions::writeonly()
        .mode(0o644)
        .capacity(7)
        .max_msg_len(80)
        .create_new()
        .nonblocking();
    assert!(!o.read && o.write && o.create && o.excl && o.nonblocking);
    assert_eq!((o.mode, o.capacity, o.max_msg_len), (0o644, 7, 80));

    let o = OpenOptions::readwrite().create().existing();
    assert!(o.read && o.write && !o.create && !o.excl);
}
