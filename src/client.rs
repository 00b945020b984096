//! The client: its credentials, the request URL, and the reading of a reply.
use vstd::prelude::*;

use crate::error::{error_message, map_response_err, Error, ErrorModel};
use crate::json::{json_of_text, json_tree, member, member_of, number_text, parse_json, Json};
use crate::model::{response_of, Response, ResponseModel};
use crate::url_query::{params_view, parse_with_params, url_with_params};

verus! {

/// The "current weather" endpoint.
pub const BASE_URL: &'static str = "https://api.weatherapi.com/v1/current.json";

/// A client for one API key and one location, fixed when it is made.
#[derive(Debug)]
pub struct WeatherAPI {
    api_key: String,
    location: String,
}

/// The query of a request: the API key as `key`, the location as `q`.
pub open spec fn request_params(api_key: Seq<char>, location: Seq<char>) -> Seq<
    (Seq<char>, Seq<char>),
> {
    seq![("key"@, api_key), ("q"@, location)]
}

impl WeatherAPI {
    /// The API key the client sends.
    pub closed spec fn key(&self) -> Seq<char> {
        self.api_key@
    }

    /// The location the client asks about.
    pub closed spec fn place(&self) -> Seq<char> {
        self.location@
    }

    pub fn new(api_key: &str, location: &str) -> (r: WeatherAPI)
        ensures
            r.key() == api_key@,
            r.place() == location@,
    {
        WeatherAPI { api_key: api_key.to_owned(), location: location.to_owned() }
    }

    /// The request URL: the endpoint with `key` and `q` appended, escaped.
    pub fn prepare_url(&self) -> (r: Result<String, Error>)
        ensures
            match url_with_params(BASE_URL@, request_params(self.key(), self.place())) {
                Some(u) => r is Ok && r->Ok_0@ == u,
                None => r is Err && r->Err_0@ == ErrorModel::UrlParsing,
            },
    {
        let params: Vec<(String, String)> = vec![
            ("key".to_owned(), self.api_key.clone()),
            ("q".to_owned(), self.location.clone()),
        ];
        assert(params_view(params@) =~= request_params(self.key(), self.place()));
        match parse_with_params(BASE_URL, &params) {
            Ok(u) => Ok(u),
            Err(e) => Err(Error::UrlParsing(e)),
        }
    }
}

/// What the transport brought back for one request.
#[derive(Debug)]
pub enum Reply {
    /// No response was obtained; the transport's diagnostic text.
    TransportFailed(String),
    /// A response came, but its body could not be read; the diagnostic text.
    BodyUnreadable(String),
    /// A response: its HTTP status and its body.
    Received(u16, String),
}

/// The API's error code in an error document: the text of
/// `error.code`, whether the code is written as a string or as a number.
pub open spec fn error_code_of(t: Json) -> Option<Seq<char>> {
    match member_of(t, "error"@) {
        Some(e) => match member_of(e, "code"@) {
            Some(Json::Text(s)) => Some(s),
            Some(Json::Number(s)) => Some(s),
            _ => None,
        },
        None => None,
    }
}

/// The outcome of a response with `status` and `body`: on status 200 the
/// reply the body describes, on any other status the API's error; a body that
/// is not JSON, or a 200 body of the wrong shape, fails to parse.
pub open spec fn body_outcome(status: u16, body: Seq<char>) -> Result<ResponseModel, ErrorModel> {
    match json_of_text(body) {
        None => Err(ErrorModel::DataParseFailed),
        Some(t) => if status == 200 {
            match response_of(t) {
                Some(m) => Ok(m),
                None => Err(ErrorModel::DataParseFailed),
            }
        } else {
            Err(ErrorModel::BadRequest(error_message(error_code_of(t))))
        },
    }
}

/// The outcome of a request, given what the transport brought back.
pub open spec fn reply_outcome(reply: Reply) -> Result<ResponseModel, ErrorModel> {
    match reply {
        Reply::TransportFailed(s) => Err(ErrorModel::RequestFailed(s@)),
        Reply::BodyUnreadable(s) => Err(ErrorModel::FailedResponseToString(s@)),
        Reply::Received(status, body) => body_outcome(status, body@),
    }
}

/// A result seen through the views of its values.
pub open spec fn outcome_view(r: Result<Response, Error>) -> Result<ResponseModel, ErrorModel> {
    match r {
        Ok(x) => Ok(x@),
        Err(e) => Err(e@),
    }
}

/// The error code of an error document.
pub fn error_code(v: &serde_json::Value) -> (r: Option<String>)
    ensures
        match error_code_of(json_tree(*v)) {
            Some(c) => r is Some && r->0@ == c,
            None => r is None,
        },
{
    let e = match member(v, "error") {
        Some(e) => e,
        None => return None,
    };
    let c = match member(e, "code") {
        Some(c) => c,
        None => return None,
    };
    match c.as_str() {
        Some(s) => Some(s.to_owned()),
        None => number_text(c),
    }
}

/// Reads a response with `status` and `body` into a reply or an error.
pub fn read_body(status: u16, body: &str) -> (r: Result<Response, Error>)
    ensures
        outcome_view(r) == body_outcome(status, body@),
{
    let doc = match parse_json(body) {
        Some(doc) => doc,
        None => return Err(Error::DataParseFailed),
    };
    if status == 200 {
        match Response::from_json(&doc) {
            Some(resp) => Ok(resp),
            None => Err(Error::DataParseFailed),
        }
    } else {
        Err(map_response_err(error_code(&doc)))
    }
}

/// Turns what the transport brought back into a reply or a classified error.
pub fn read_reply(reply: Reply) -> (r: Result<Response, Error>)
    ensures
        outcome_view(r) == reply_outcome(reply),
{
    match reply {
        Reply::TransportFailed(s) => Err(Error::RequestFailed(s)),
        Reply::BodyUnreadable(s) => Err(Error::FailedResponseToString(s)),
        Reply::Received(status, body) => read_body(status, body.as_str()),
    }
}

} // verus!
