//! The JSON envelopes of the administrative endpoint that updates crawler
//! credentials. The HTTP surface itself is unverified glue; it parses the
//! request body into `UpdatePassportRequest`, applies the update, and answers
//! with the envelope built here.

use vstd::prelude::*;
use vstd::string::StringExecFns;

verus! {

/// A request to replace the crawler session credentials.
#[derive(Debug, PartialEq)]
pub struct UpdatePassportRequest {
    pub cid: String,
    pub uid: String,
}

/// The envelope every answer of the administrative endpoint takes: a success
/// flag, and a message or an error, never both.
#[derive(Debug, PartialEq)]
pub struct ApiResponse {
    pub success: bool,
    pub message: Option<String>,
    pub error: Option<String>,
}

/// The envelope for a credential update that succeeded.
pub fn passport_success_response() -> (res: ApiResponse)
    ensures
        res.success,
        res.message is Some,
        res.message->0@ == "Passport updated successfully"@,
        res.error is None,
{
    ApiResponse {
        success: true,
        message: Some("Passport updated successfully".to_owned()),
        error: None,
    }
}

/// The envelope for a credential update that failed, naming the failure.
pub fn passport_error_response(detail: &String) -> (res: ApiResponse)
    ensures
        !res.success,
        res.message is None,
        res.error is Some,
        res.error->0@ == "Failed to update passport: "@ + detail@,
{
    let mut text = "Failed to update passport: ".to_owned();
    text.append(detail.as_str());
    ApiResponse { success: false, message: None, error: Some(text) }
}

} // verus!
