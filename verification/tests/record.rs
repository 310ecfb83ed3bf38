use rs_wrapper::parse::ParseFailure;
use rs_wrapper::record::{Dom, NO_ERROR};

fn failure(offset: usize, message: &str) -> ParseFailure {
    ParseFailure { offset, message: message.to_string() }
}

#[test]
fn the_sentinel_is_minus_one() {
    assert_eq!(NO_ERROR, -1);
}

#[test]
fn success_record_holds_the_three_addresses_and_no_error() {
    let d = Dom::success(0x1000, 0x2000, 0x3000);
    assert_eq!(
        d,
        Dom {
            dom: 0x1000,
            str_buf: 0x2000,
            node: 0x3000,
            error_offset: -1,
            error_msg: 0,
            error_msg_len: 0,
            error_msg_cap: 0,
        }
    );
}

#[test]
fn failure_record_holds_offset_and_message_and_no_document() {
    let d = Dom::failure(&failure(5, "Invalid JSON value"), 0x4000, 64);
    assert_eq!(
        d,
        Dom {
            dom: 0,
            str_buf: 0,
            node: 0,
            error_offset: 5,
            error_msg: 0x4000,
            error_msg_len: 18,
            error_msg_cap: 64,
        }
    );
}

#[test]
fn message_length_counts_bytes_not_characters() {
    let d = Dom::failure(&failure(1, "gr\u{fc}\u{df}e \u{4f60} \u{1f600}"), 0x4000, 100);
    assert_eq!(d.error_msg_len, 2 + 2 + 2 + 2 + 3 + 1 + 4);
    assert_eq!(d.error_msg_len, 16);
}

#[test]
fn failure_at_the_start_has_offset_zero_not_the_sentinel() {
    let d = Dom::failure(&failure(0, ""), 8, 0);
    assert_eq!(d.error_offset, 0);
    assert_ne!(d.error_offset, NO_ERROR);
    assert_eq!(d.error_msg, 8);
    assert_eq!(d.error_msg_len, 0);
    assert_eq!(d.error_msg_cap, 0);
}

#[test]
fn message_may_fill_its_buffer_exactly() {
    let d = Dom::failure(&failure(1, "0123456789abcdef0123456789abcdef"), 0x10, 32);
    assert_eq!(d.error_msg_len, 32);
    assert_eq!(d.error_msg_cap, 32);
}

#[test]
fn offset_beyond_the_signed_field_is_stored_as_its_greatest_value() {
    let expected =
        if (usize::MAX as u128) > (i64::MAX as u128) { i64::MAX } else { usize::MAX as i64 };
    let d = Dom::failure(&failure(usize::MAX, "x"), 0x10, 1);
    assert_eq!(d.error_offset, expected);
    assert!(d.error_offset >= 0);
}

#[test]
fn greatest_offset_that_fits_is_kept() {
    let fits =
        if (usize::MAX as u128) > (i64::MAX as u128) { i64::MAX as usize } else { usize::MAX };
    assert_eq!(Dom::failure(&failure(fits, "x"), 0x10, 1).error_offset as u128, fits as u128);
    assert_eq!(Dom::failure(&failure(0x7fff_ffff, "x"), 0x10, 1).error_offset, 0x7fff_ffff);
}

#[test]
fn exactly_one_owner_is_set() {
    let ok = Dom::success(1, 2, 3);
    assert!(ok.dom != 0 && ok.error_msg == 0);
    let bad = Dom::failure(&failure(7, "oops"), 4, 6);
    assert!(bad.dom == 0 && bad.error_msg != 0);
}

#[test]
fn views_are_set_with_the_document_only() {
    let ok = Dom::success(1, 2, 3);
    assert!(ok.str_buf != 0 && ok.node != 0);
    let bad = Dom::failure(&failure(7, "oops"), 4, 6);
    assert!(bad.str_buf == 0 && bad.node == 0);
}
