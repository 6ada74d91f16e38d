//! Classification of the service's answers into a payload or an error.
//!
//! Every answer is expected in an envelope `{success, result, errors}`. The
//! JSON codec decodes the body; here the decoded envelope (or `None` where the
//! body was not an envelope), the status and the raw text decide the outcome.
use vstd::prelude::*;
use crate::error::{GazenotErrorInner, Inconsistency, ResultInner};

verus! {

/// A decoded envelope whose `result` carries a payload of type `T`.
#[derive(Clone, Debug, PartialEq, Eq)]
pub struct Response<T> {
    pub success: bool,
    pub result: Option<T>,
    pub errors: Option<Vec<String>>,
}

/// A decoded envelope without a payload.
#[derive(Clone, Debug, PartialEq, Eq)]
pub struct BasicResponse {
    pub success: bool,
    pub errors: Option<Vec<String>>,
}

/// A success status is one of the 2xx codes.
pub open spec fn status_success(status: u16) -> bool {
    200 <= status && status <= 299
}

/// Whether `status` is a success code (2xx).
pub fn is_success(status: u16) -> (r: bool)
    ensures
        r == status_success(status),
{
    200 <= status && status <= 299
}

/// The messages of an error for a body that was not an envelope: none for an
/// empty body, else the raw text.
pub open spec fn raw_text_errors(text: String) -> Seq<String> {
    if text@.len() == 0 {
        seq![]
    } else {
        seq![text]
    }
}

/// The messages that the server reported, none where it sent no list.
pub open spec fn reported_errors(errors: Option<Vec<String>>) -> Seq<String> {
    match errors {
        Some(e) => e@,
        None => seq![],
    }
}

/// `r` is a response error with this status, these messages and this
/// inconsistency diagnostic.
pub open spec fn is_response_error<T>(
    r: ResultInner<T>,
    status: u16,
    errors: Seq<String>,
    inconsistency: Option<Inconsistency>,
) -> bool {
    match r {
        Err(GazenotErrorInner::ResponseError { status: s, errors: e, inconsistency: i }) => {
            s == status && e@ == errors && i == inconsistency
        },
        _ => false,
    }
}

/// The three signals of a payload-carrying answer agree: the body's success
/// flag, the status class and the presence of a payload.
pub open spec fn typed_cohesive(status: u16, success: bool, has_result: bool) -> bool {
    success == status_success(status) && success == has_result
}

/// The two signals of an answer without payload agree.
pub open spec fn basic_cohesive(status: u16, success: bool) -> bool {
    success == status_success(status)
}

/// The error for a body that did not decode as an envelope.
fn unparsed_error(status: u16, text: String) -> (r: GazenotErrorInner)
    ensures
        is_response_error::<()>(Err(r), status, raw_text_errors(text), None),
{
    let errors = if text.as_str().is_empty() {
        let e: Vec<String> = Vec::new();
        assert(e@ =~= raw_text_errors(text));
        e
    } else {
        let ghost t = text;
        let e = vec![text];
        assert(e@ =~= raw_text_errors(t));
        e
    };
    GazenotErrorInner::ResponseError { status, errors, inconsistency: None }
}

/// The server's messages, none where it sent no list.
fn take_errors(errors: Option<Vec<String>>) -> (r: Vec<String>)
    ensures
        r@ == reported_errors(errors),
{
    match errors {
        Some(e) => e,
        None => {
            let e: Vec<String> = Vec::new();
            assert(e@ =~= reported_errors(errors));
            e
        },
    }
}

/// Classifies an answer that should carry a payload.
///
/// The payload is returned only where the body reported success, the status
/// is 2xx and the payload is present. Otherwise the error carries the status
/// and the server's messages, and a diagnostic where the three signals
/// disagreed. A body that did not decode (`parsed` is `None`) gives an error
/// whose only message is the raw text, or no message for an empty body.
pub fn process_response<T>(status: u16, text: String, parsed: Option<Response<T>>) -> (r:
    ResultInner<T>)
    ensures
        parsed is None ==> is_response_error(r, status, raw_text_errors(text), None),
        parsed matches Some(p) ==> {
            if p.success && status_success(status) && p.result is Some {
                r == Ok::<T, GazenotErrorInner>(p.result->Some_0)
            } else {
                is_response_error(
                    r,
                    status,
                    reported_errors(p.errors),
                    if typed_cohesive(status, p.success, p.result is Some) {
                        None
                    } else {
                        Some(Inconsistency { success: p.success, has_result: Some(p.result is Some) })
                    },
                )
            }
        },
{
    let parsed = match parsed {
        Some(p) => p,
        None => return Err(unparsed_error(status, text)),
    };
    let ok_status = is_success(status);
    let has_result = parsed.result.is_some();
    if parsed.success && ok_status {
        if let Some(result) = parsed.result {
            return Ok(result);
        }
    }
    let cohesive = parsed.success == ok_status && parsed.success == has_result;
    let inconsistency = if !cohesive {
        Some(Inconsistency { success: parsed.success, has_result: Some(has_result) })
    } else {
        None
    };
    Err(GazenotErrorInner::ResponseError { status, errors: take_errors(parsed.errors), inconsistency })
}

/// Classifies an answer without payload.
///
/// Success is returned only where the body reported success and the status is
/// 2xx. Otherwise the error carries the status and the server's messages, and a
/// diagnostic where the two signals disagreed. A body that did not decode gives
/// an error whose only message is the raw text, or no message for an empty body.
pub fn process_response_basic(status: u16, text: String, parsed: Option<BasicResponse>) -> (r:
    ResultInner<()>)
    ensures
        parsed is None ==> is_response_error(r, status, raw_text_errors(text), None),
        parsed matches Some(p) ==> {
            if p.success && status_success(status) {
                r is Ok
            } else {
                is_response_error(
                    r,
                    status,
                    reported_errors(p.errors),
                    if basic_cohesive(status, p.success) {
                        None
                    } else {
                        Some(Inconsistency { success: p.success, has_result: None })
                    },
                )
            }
        },
{
    let parsed = match parsed {
        Some(p) => p,
        None => return Err(unparsed_error(status, text)),
    };
    let ok_status = is_success(status);
    if parsed.success && ok_status {
        return Ok(());
    }
    let inconsistency = if parsed.success != ok_status {
        Some(Inconsistency { success: parsed.success, has_result: None })
    } else {
        None
    };
    Err(GazenotErrorInner::ResponseError { status, errors: take_errors(parsed.errors), inconsistency })
}

} // verus!
