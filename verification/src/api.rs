//! Decoding of the FLEX web-service responses.
//!
//! The web service is a two-call protocol: a query submission answered by
//! a reference code, and a statement redemption answered by either the raw
//! statement XML or a "not ready, retry later" status.  The network side
//! lives outside this crate; the functions here decode the small status
//! documents the service answers with, from plain text to plain values.

use vstd::prelude::*;
use crate::chars::{chars_of_str, find_from, first_occurrence, occurs_from, string_from_chars,
    sub_vec};

verus! {

/// An error of the web-service protocol.
#[derive(Debug, Clone, PartialEq, Eq)]
pub enum FlexApiError {
    /// The HTTP request itself failed; carries the transport's message.
    RequestFailed(String),
    /// The service answered with an error status and message.
    ApiError(String),
    /// The service's XML could not be understood.
    XmlError(String),
    /// The statement is not ready yet; retry later.
    StatementNotReady,
    /// The response matched no expected shape.
    InvalidResponse(String),
}

/// The reference code a submission response carries: the text between the
/// code tags, when both exist in order.
pub open spec fn spec_reference_code(s: Seq<char>) -> Option<Seq<char>> {
    if occurs_from(s, "<ReferenceCode>"@, 0) {
        let start = first_occurrence(s, "<ReferenceCode>"@, 0);
        if occurs_from(s, "</ReferenceCode>"@, start) {
            let e = first_occurrence(s, "</ReferenceCode>"@, start);
            if e >= start + 15 {
                Some(s.subrange(start + 15, e))
            } else {
                None
            }
        } else {
            None
        }
    } else {
        None
    }
}

/// Whether a status document announces a failure or a warning.
pub open spec fn spec_is_failed_status(s: Seq<char>) -> bool {
    occurs_from(s, "<Status>Fail</Status>"@, 0) || occurs_from(s, "<Status>Warn</Status>"@, 0)
}

/// Extracts the message between the error-message tags, or a fixed text.
fn status_error(s: &Vec<char>) -> (r: FlexApiError)
    ensures
        r is ApiError || r is InvalidResponse,
        spec_is_failed_status(s@) <==> r is ApiError,
{
    // The length call bounds every position the checks below compute.
    let n = s.len();
    proof {
        reveal_strlit("<Status>Fail</Status>");
        reveal_strlit("<Status>Warn</Status>");
        reveal_strlit("<ErrorMessage>");
        reveal_strlit("</ErrorMessage>");
    }
    let fail = chars_of_str("<Status>Fail</Status>");
    let warn = chars_of_str("<Status>Warn</Status>");
    let is_err = find_from(s, &fail, 0).is_some() || find_from(s, &warn, 0).is_some();
    if !is_err {
        return FlexApiError::InvalidResponse("could not parse the response".to_owned());
    }
    let open_tag = chars_of_str("<ErrorMessage>");
    let close_tag = chars_of_str("</ErrorMessage>");
    match find_from(s, &open_tag, 0) {
        None => FlexApiError::ApiError("Unknown error".to_owned()),
        Some(start) => {
            match find_from(s, &close_tag, start) {
                None => FlexApiError::ApiError("Unknown error".to_owned()),
                Some(e) => {
                    if e >= start + 14 {
                        let msg = sub_vec(s, start + 14, e);
                        FlexApiError::ApiError(string_from_chars(&msg))
                    } else {
                        FlexApiError::ApiError("Unknown error".to_owned())
                    }
                },
            }
        },
    }
}

/// Decodes the submission response: the reference code on success, the
/// service's error on a failure or warning status, and an
/// invalid-response error on anything else.
pub fn parse_send_request_response(xml: &str) -> (r: Result<String, FlexApiError>)
    ensures
        match spec_reference_code(xml@) {
            Some(c) => r is Ok && r->Ok_0@ == c,
            None => r is Err && (r->Err_0 is ApiError <==> spec_is_failed_status(xml@)),
        },
{
    let s = chars_of_str(xml);
    // The length call bounds every position the checks below compute.
    let n = s.len();
    proof {
        reveal_strlit("<ReferenceCode>");
        reveal_strlit("</ReferenceCode>");
    }
    let open_tag = chars_of_str("<ReferenceCode>");
    let close_tag = chars_of_str("</ReferenceCode>");
    match find_from(&s, &open_tag, 0) {
        Some(start) => {
            match find_from(&s, &close_tag, start) {
                Some(e) => {
                    if e >= start + 15 {
                        let code = sub_vec(&s, start + 15, e);
                        Ok(string_from_chars(&code))
                    } else {
                        Err(status_error(&s))
                    }
                },
                None => Err(status_error(&s)),
            }
        },
        None => Err(status_error(&s)),
    }
}

/// Whether the redemption response announces that the statement is still
/// being generated.
pub open spec fn spec_not_ready(s: Seq<char>) -> bool {
    occurs_from(s, "<ErrorCode>1019</ErrorCode>"@, 0)
}

/// Decodes the redemption status document: the not-ready condition is
/// distinguished from hard failures, which carry the service's message.
pub fn parse_get_statement_response(xml: &str) -> (r: Result<String, FlexApiError>)
    ensures
        r is Err,
        spec_not_ready(xml@) <==> r->Err_0 is StatementNotReady,
        !spec_not_ready(xml@) ==> (r->Err_0 is ApiError <==> spec_is_failed_status(xml@)),
{
    let s = chars_of_str(xml);
    // The length call bounds every position the checks below compute.
    let n = s.len();
    proof {
        reveal_strlit("<ErrorCode>1019</ErrorCode>");
    }
    let not_ready = chars_of_str("<ErrorCode>1019</ErrorCode>");
    if find_from(&s, &not_ready, 0).is_some() {
        return Err(FlexApiError::StatementNotReady);
    }
    Err(status_error(&s))
}

/// Whether a redemption body is a status document rather than the
/// statement payload itself.
pub open spec fn spec_is_status_body(s: Seq<char>) -> bool {
    occurs_from(s, "<Status>"@, 0)
}

/// Tells a status document apart from a statement payload: the service
/// answers with the raw XML statement once it is ready.
pub fn is_status_body(xml: &str) -> (r: bool)
    ensures
        r == spec_is_status_body(xml@),
{
    let s = chars_of_str(xml);
    proof {
        reveal_strlit("<Status>");
    }
    let tag = chars_of_str("<Status>");
    find_from(&s, &tag, 0).is_some()
}

} // verus!
