//! What a user-supplied push or flush callback's return code means.
//!
//! The callbacks themselves are C function pointers and are invoked by the
//! binding layer; it hands their return code here (`None` when no callback was
//! registered) and gets back the outcome that the downloader receives.
use vstd::prelude::*;
use crate::ctext::{append_bytes, utf8_bytes};
use crate::text::{decimal_numeral, law_decimal_numeral, numeral_value, push_decimal_i32};

verus! {

/// An outcome taken by its view: `Ok` or the error message bytes.
pub open spec fn outcome_view(r: Result<(), Vec<u8>>) -> Result<(), Seq<u8>> {
    match r {
        Ok(_) => Ok(()),
        Err(m) => Err(m@),
    }
}

/// The message when data must be pushed but no push callback was registered.
pub open spec fn missing_push_text() -> Seq<u8> {
    utf8_bytes("Push callback is none"@)
}

/// The message when the push callback returned the non-zero `code`.
pub open spec fn push_error_text(code: i32) -> Seq<u8> {
    utf8_bytes("Push callback returned error code: "@) + decimal_numeral(code as int)
}

/// The message when the flush callback returned the non-zero `code`.
pub open spec fn flush_error_text(code: i32) -> Seq<u8> {
    utf8_bytes("Flush callback returned error code: "@) + decimal_numeral(code as int)
}

/// The outcome of a push given the callback's return code (`None`: no callback).
pub open spec fn push_outcome(code: Option<i32>) -> Result<(), Seq<u8>> {
    match code {
        None => Err(missing_push_text()),
        Some(c) => if c == 0 {
            Ok(())
        } else {
            Err(push_error_text(c))
        },
    }
}

/// The outcome of a flush given the callback's return code (`None`: no callback,
/// which is no error).
pub open spec fn flush_outcome(code: Option<i32>) -> Result<(), Seq<u8>> {
    match code {
        None => Ok(()),
        Some(c) => if c == 0 {
            Ok(())
        } else {
            Err(flush_error_text(c))
        },
    }
}

/// Builds `prefix` followed by the decimal numeral of `code`.
fn code_message(prefix: &str, code: i32) -> (r: Vec<u8>)
    ensures
        r@ == utf8_bytes(prefix@) + decimal_numeral(code as int),
{
    let mut out: Vec<u8> = Vec::new();
    append_bytes(&mut out, prefix.as_bytes());
    push_decimal_i32(&mut out, code);
    out
}

/// Outcome of sending one chunk to the push callback, from the callback's
/// return code: 0 is success, anything else an error naming the code.
pub fn push_result(code: Option<i32>) -> (r: Result<(), Vec<u8>>)
    ensures
        outcome_view(r) == push_outcome(code),
        code is None ==> r is Err,
        code matches Some(c) ==> (r is Ok <==> c == 0),
{
    match code {
        None => {
            let mut out: Vec<u8> = Vec::new();
            append_bytes(&mut out, "Push callback is none".as_bytes());
            Err(out)
        },
        Some(c) => {
            if c == 0 {
                Ok(())
            } else {
                Err(code_message("Push callback returned error code: ", c))
            }
        },
    }
}

/// Outcome of a flush, from the flush callback's return code; a missing
/// callback means there is nothing to flush.
pub fn flush_result(code: Option<i32>) -> (r: Result<(), Vec<u8>>)
    ensures
        outcome_view(r) == flush_outcome(code),
        code is None ==> r is Ok,
        code matches Some(c) ==> (r is Ok <==> c == 0),
{
    match code {
        None => Ok(()),
        Some(c) => {
            if c == 0 {
                Ok(())
            } else {
                Err(code_message("Flush callback returned error code: ", c))
            }
        },
    }
}

} // verus!

verus! {

/// Law: a callback's return code is a success exactly when it is 0, whatever
/// its sign; a missing push callback is a failure, a missing flush callback is
/// none. A failure's message is the fixed text followed by the code's decimal
/// numeral, which reads back as the code.
pub proof fn law_callback_codes(c: i32)
    ensures
        push_outcome(Some(c)) is Ok <==> c == 0,
        flush_outcome(Some(c)) is Ok <==> c == 0,
        push_outcome(None) == Err::<(), Seq<u8>>(utf8_bytes("Push callback is none"@)),
        flush_outcome(None) is Ok,
        c != 0 ==> push_outcome(Some(c)) == Err::<(), Seq<u8>>(
            utf8_bytes("Push callback returned error code: "@) + decimal_numeral(c as int),
        ),
        c != 0 ==> flush_outcome(Some(c)) == Err::<(), Seq<u8>>(
            utf8_bytes("Flush callback returned error code: "@) + decimal_numeral(c as int),
        ),
        numeral_value(decimal_numeral(c as int)) == c,
{
    law_decimal_numeral(c as int);
}

} // verus!
