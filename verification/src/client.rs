//! The client's reading of the server's answers.
use vstd::prelude::*;
use crate::error::XrplError;
use crate::json::{opt_view, parse_json, serde_json_reads, JsonValue, JsonView};

verus! {

broadcast use vstd::string::group_string_axioms;

/// The error an answer reports: the text of its `error` member (`unknown`
/// when that is not a string) and of its `error_message` member, when that
/// is a string.
pub open spec fn reported_error(answer: JsonView) -> Option<(Seq<char>, Option<Seq<char>>)> {
    match answer.get("error"@) {
        Some(e) => Some(
            (
                match e.as_str() {
                    Some(s) => s,
                    None => "unknown"@,
                },
                match answer.get("error_message"@) {
                    Some(m) => m.as_str(),
                    None => None,
                },
            ),
        ),
        None => None,
    }
}

/// `r` is what a call gives for the server's answer `response`, read as
/// JSON into `parsed` (`None` when it is not JSON): the API error the answer
/// reports, if it reports one, else the answer's text unchanged.
pub open spec fn call_outcome(response: String, parsed: Option<JsonView>, r: Result<String, XrplError>) -> bool {
    match parsed {
        Some(p) => match reported_error(p) {
            Some((e, m)) => r matches Err(XrplError::ApiError { error, error_message }) && error@ == e
                && match error_message {
                Some(x) => m == Some(x@),
                None => m is None,
            },
            None => r == Ok::<String, XrplError>(response),
        },
        None => r == Ok::<String, XrplError>(response),
    }
}

/// An answer that is JSON and has an `error` member fails the call with
/// that error: its text when it is a string, else `unknown`, and the text of
/// `error_message` when that is a string. Any other answer, JSON or not, is
/// handed back unchanged.
pub proof fn lemma_call_outcome_exactly(response: String, parsed: Option<JsonView>, r: Result<String, XrplError>)
    ensures
        (parsed is None || parsed->0.get("error"@) is None) ==> (call_outcome(response, parsed, r) <==> r
            == Ok::<String, XrplError>(response)),
        (parsed is Some && parsed->0.get("error"@) is Some) ==> (call_outcome(response, parsed, r) <==> {
            let p = parsed->0;
            let e = p.get("error"@)->0;
            &&& r is Err
            &&& r->Err_0 matches XrplError::ApiError { error, error_message }
            &&& error@ == (if e is Str {
                e->Str_0
            } else {
                "unknown"@
            })
            &&& match p.get("error_message"@) {
                Some(JsonView::Str(m)) => error_message is Some && error_message->0@ == m,
                _ => error_message is None,
            }
        }),
{
}

/// What a call gives for the server's answer `response`, given what
/// `parsed` holds of it as JSON (`None` when it is not JSON).
pub fn interpret_call_response(response: String, parsed: Option<JsonValue>) -> (r: Result<String, XrplError>)
    ensures
        call_outcome(response, opt_view(parsed), r),
{
    match &parsed {
        Some(p) => match p.get("error") {
            Some(e) => {
                let error = match e.as_str() {
                    Some(s) => s.to_string(),
                    None => "unknown".to_string(),
                };
                let error_message = match p.get("error_message") {
                    Some(m) => match m.as_str() {
                        Some(s) => Some(s.to_string()),
                        None => None,
                    },
                    None => None,
                };
                Err(XrplError::ApiError { error, error_message })
            },
            None => Ok(response),
        },
        None => Ok(response),
    }
}

/// What a call gives for the server's answer `response`: the answer is
/// read as JSON, and an error it reports becomes
/// [`XrplError::ApiError`]; any other answer, JSON or not, is handed back
/// unchanged.
pub fn check_call_response(response: String) -> (r: Result<String, XrplError>)
    ensures
        call_outcome(response, serde_json_reads(response@), r),
{
    let parsed = parse_json(response.as_str());
    interpret_call_response(response, parsed)
}

} // verus!
