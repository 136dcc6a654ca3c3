use std::cell::Cell;

use git_toy::error::{check, complete, failed, LOCAL_CLASS, LOCAL_CODE};
use git_toy::{Error, ErrorRecord};

fn record(message: &[u8], class: i32) -> ErrorRecord {
    ErrorRecord { message: message.to_vec(), class }
}

#[test]
fn check_passes_success_codes_through_without_reading_the_record() {
    let reads = Cell::new(0u32);
    for code in [0, 1, 7, i32::MAX] {
        let r = check(code, || {
            reads.set(reads.get() + 1);
            record(b"unused", 1)
        });
        assert_eq!(r.unwrap(), code);
    }
    assert_eq!(reads.get(), 0);
}

#[test]
fn check_reads_the_record_once_on_failure() {
    let reads = Cell::new(0u32);
    let r = check(-3, || {
        reads.set(reads.get() + 1);
        record(b"reference 'refs/heads/x' not found", 4)
    });
    let e = r.unwrap_err();
    assert_eq!(reads.get(), 1);
    assert_eq!(e.code, -3);
    assert_eq!(e.class, 4);
    assert_eq!(e.message, "reference 'refs/heads/x' not found");
    assert!(!e.is_local());
}

#[test]
fn check_fails_on_the_smallest_code() {
    let e = check(i32::MIN, || record(b"boom", 2)).unwrap_err();
    assert_eq!(e.code, i32::MIN);
}

#[test]
fn native_message_with_invalid_bytes_is_decoded_lossily() {
    let e = check(-1, || record(b"bad \xff path", 3)).unwrap_err();
    assert_eq!(e.message, "bad \u{FFFD} path");
    assert!(!e.message.is_empty());
}

#[test]
fn error_text_is_the_message_alone() {
    let e = check(-5, || record(b"the index is locked", 10)).unwrap_err();
    assert_eq!(e.to_string(), "the index is locked");
}

#[test]
fn error_from_string_is_local() {
    let e = Error::from(String::from("Couldn't convert path"));
    assert_eq!(e.code, LOCAL_CODE);
    assert_eq!(e.class, LOCAL_CLASS);
    assert_eq!(e.code, -1);
    assert_eq!(e.class, 0);
    assert_eq!(e.to_string(), "Couldn't convert path");
    assert!(e.is_local());
}

#[test]
fn failed_tells_negative_codes() {
    assert!(failed(-1));
    assert!(failed(i32::MIN));
    assert!(!failed(0));
    assert!(!failed(5));
}

#[test]
fn complete_reads_the_out_parameter_only_on_success() {
    let reads = Cell::new(0u32);
    let fetches = Cell::new(0u32);
    let ok = complete(
        0,
        || {
            reads.set(reads.get() + 1);
            42u64
        },
        || {
            fetches.set(fetches.get() + 1);
            record(b"unused", 0)
        },
    );
    assert_eq!(ok.unwrap(), 42);
    assert_eq!((reads.get(), fetches.get()), (1, 0));

    let err = complete(
        -1,
        || {
            reads.set(reads.get() + 1);
            42u64
        },
        || {
            fetches.set(fetches.get() + 1);
            record(b"failed to resolve path", 2)
        },
    );
    assert_eq!(err.unwrap_err().message, "failed to resolve path");
    assert_eq!((reads.get(), fetches.get()), (1, 1));
}
