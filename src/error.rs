//! The closed set of failures, and the table that turns an API error code
//! into a message.
use vstd::prelude::*;

verus! {

/// Every way a request can fail.
#[derive(Debug)]
pub enum Error {
    /// The endpoint could not be parsed as a URL.
    UrlParsing(url::ParseError),
    /// The API rejected the request; the reason is a message of the code table.
    BadRequest(String),
    /// The transport failed before a response was obtained.
    RequestFailed(String),
    /// The response body could not be read as text.
    FailedResponseToString(String),
    /// The body was not JSON, or did not have the expected shape.
    DataParseFailed,
}

/// What an `Error` says, with its text as characters.
pub enum ErrorModel {
    UrlParsing,
    BadRequest(Seq<char>),
    RequestFailed(Seq<char>),
    FailedResponseToString(Seq<char>),
    DataParseFailed,
}

impl View for Error {
    type V = ErrorModel;

    open spec fn view(&self) -> ErrorModel {
        match self {
            Error::UrlParsing(_) => ErrorModel::UrlParsing,
            Error::BadRequest(s) => ErrorModel::BadRequest(s@),
            Error::RequestFailed(s) => ErrorModel::RequestFailed(s@),
            Error::FailedResponseToString(s) => ErrorModel::FailedResponseToString(s@),
            Error::DataParseFailed => ErrorModel::DataParseFailed,
        }
    }
}

/// The message for an API error code; an absent or unlisted code is unknown.
pub open spec fn error_message(code: Option<Seq<char>>) -> Seq<char> {
    match code {
        Some(c) => if c == "1002"@ {
            "API key not provided"@
        } else if c == "1003"@ {
            "Parameter 'q' not provided"@
        } else if c == "1005"@ {
            "API request url is invalid"@
        } else if c == "1006"@ {
            "No location found matching parameter 'q'"@
        } else if c == "2006"@ {
            "API key provided is invalid"@
        } else if c == "2007"@ {
            "API key has exceeded calls per month quota"@
        } else if c == "2008"@ {
            "API key has been disabled"@
        } else if c == "2009"@ {
            "API key does not have access to the resource. Please check pricing page for what is allowed in your API subscription plan"@
        } else if c == "9000"@ {
            "Json body passed in bulk request is invalid. Please make sure it is valid json with utf-8 encoding"@
        } else if c == "9001"@ {
            "Json body contains too many locations for bulk request. Please keep it below 50 in a single request"@
        } else if c == "9999"@ {
            "Internal application error"@
        } else {
            "Unknown error"@
        },
        None => "Unknown error"@,
    }
}

fn is_code(code: &String, listed: &str) -> (r: bool)
    ensures
        r == (code@ == listed@),
{
    *code == listed.to_owned()
}

fn bad_request(message: &str) -> (r: Error)
    ensures
        r@ == ErrorModel::BadRequest(message@),
{
    Error::BadRequest(message.to_owned())
}

/// Maps an API error code to a `BadRequest` with the code's message; lookup is
/// by exact text, and an absent code gives "Unknown error".
pub fn map_response_err(code: Option<String>) -> (r: Error)
    ensures
        r@ == ErrorModel::BadRequest(error_message(
            match code {
                Some(c) => Some(c@),
                None => None,
            },
        )),
{
    match code {
        Some(c) => if is_code(&c, "1002") {
            bad_request("API key not provided")
        } else if is_code(&c, "1003") {
            bad_request("Parameter 'q' not provided")
        } else if is_code(&c, "1005") {
            bad_request("API request url is invalid")
        } else if is_code(&c, "1006") {
            bad_request("No location found matching parameter 'q'")
        } else if is_code(&c, "2006") {
            bad_request("API key provided is invalid")
        } else if is_code(&c, "2007") {
            bad_request("API key has exceeded calls per month quota")
        } else if is_code(&c, "2008") {
            bad_request("API key has been disabled")
        } else if is_code(&c, "2009") {
            bad_request(
                "API key does not have access to the resource. Please check pricing page for what is allowed in your API subscription plan",
            )
        } else if is_code(&c, "9000") {
            bad_request(
                "Json body passed in bulk request is invalid. Please make sure it is valid json with utf-8 encoding",
            )
        } else if is_code(&c, "9001") {
            bad_request(
                "Json body contains too many locations for bulk request. Please keep it below 50 in a single request",
            )
        } else if is_code(&c, "9999") {
            bad_request("Internal application error")
        } else {
            bad_request("Unknown error")
        },
        None => bad_request("Unknown error"),
    }
}

} // verus!
