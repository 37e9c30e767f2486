use fast_down_c::pusher::{flush_result, push_result};

#[test]
fn push_without_callback_is_an_error() {
    assert_eq!(push_result(None), Err(b"Push callback is none".to_vec()));
}

#[test]
fn push_code_zero_is_success() {
    assert_eq!(push_result(Some(0)), Ok(()));
}

#[test]
fn push_nonzero_code_names_it() {
    assert_eq!(
        push_result(Some(-5)),
        Err(b"Push callback returned error code: -5".to_vec())
    );
    assert_eq!(
        push_result(Some(12)),
        Err(b"Push callback returned error code: 12".to_vec())
    );
}

#[test]
fn flush_without_callback_is_success() {
    assert_eq!(flush_result(None), Ok(()));
    assert_eq!(flush_result(Some(0)), Ok(()));
}

#[test]
fn flush_nonzero_code_names_it() {
    assert_eq!(
        flush_result(Some(3)),
        Err(b"Flush callback returned error code: 3".to_vec())
    );
}
