//! The envelopes of the REST surface: errors, successes, and the admission
//! check of the admin paths.

use crate::error::{DynExecuteError, ExecuteFailure};
use crate::json::{members_view, object_of, push_member, Json, JsonValue};
use vstd::prelude::*;

verus! {

/// An error as the REST surface reports it: a status and a message.
#[derive(Debug, PartialEq, Eq)]
pub struct RestAPIError {
    pub error: String,
    pub status: u16,
}

/// What a [`RestAPIError`] stands for.
pub struct RestFailure {
    pub error: Seq<char>,
    pub status: u16,
}

impl View for RestAPIError {
    type V = RestFailure;

    open spec fn view(&self) -> RestFailure {
        RestFailure { error: self.error@, status: self.status }
    }
}

impl RestFailure {
    /// The failure under which a protocol error is reported: the status and
    /// the message of the error.
    pub open spec fn for_json_rpc(err: ExecuteFailure) -> RestFailure {
        RestFailure { error: err.message(), status: err.status().code() }
    }

    /// The body of the answer: `{"code": <status>, "error": <message>}`.
    pub open spec fn body(self) -> JsonValue {
        JsonValue::Object(
            seq![
                ("code"@, JsonValue::Unsigned(self.status as u64)),
                ("error"@, JsonValue::Str(self.error)),
            ],
        )
    }
}

impl RestAPIError {
    pub fn internal(err: String) -> (r: RestAPIError)
        ensures
            r@ == (RestFailure { error: err@, status: 500 }),
    {
        RestAPIError { error: err, status: 500 }
    }

    pub fn bad_request(err: String) -> (r: RestAPIError)
        ensures
            r@ == (RestFailure { error: err@, status: 400 }),
    {
        RestAPIError { error: err, status: 400 }
    }

    pub fn unauthorized(err: String) -> (r: RestAPIError)
        ensures
            r@ == (RestFailure { error: err@, status: 401 }),
    {
        RestAPIError { error: err, status: 401 }
    }

    pub fn not_found(err: String) -> (r: RestAPIError)
        ensures
            r@ == (RestFailure { error: err@, status: 404 }),
    {
        RestAPIError { error: err, status: 404 }
    }

    pub fn for_json_rpc(err: DynExecuteError) -> (r: RestAPIError)
        ensures
            r@ == RestFailure::for_json_rpc(err@),
    {
        RestAPIError { error: err.message(), status: err.status().as_u16() }
    }

    /// The body of the answer.
    pub fn body(&self) -> (r: Json)
        ensures
            r@ == self@.body(),
    {
        let mut m: Vec<(String, Json)> = Vec::new();
        push_member(&mut m, "code", Json::Unsigned(self.status as u64));
        push_member(&mut m, "error", Json::string(self.error.as_str()));
        assert(members_view(m@) =~= seq![
            ("code"@, JsonValue::Unsigned(self.status as u64)),
            ("error"@, JsonValue::Str(self.error@)),
        ]);
        object_of(m)
    }
}

/// A success, or a failure without a status of its own, as the admin and
/// health paths report it.
#[derive(Debug, PartialEq, Eq)]
pub struct RestAPIResponse {
    pub code: u16,
    pub message: String,
    pub data: Option<Json>,
}

impl RestAPIResponse {
    /// The body of the answer:
    /// `{"code": <code>, "message": <message>, "data": <data or null>}`.
    pub open spec fn wire(&self) -> JsonValue {
        JsonValue::Object(
            seq![
                ("code"@, JsonValue::Unsigned(self.code as u64)),
                ("message"@, JsonValue::Str(self.message@)),
                (
                    "data"@,
                    match self.data {
                        Some(d) => d@,
                        None => JsonValue::Null,
                    },
                ),
            ],
        )
    }

    pub fn success(data: Json) -> (r: RestAPIResponse)
        ensures
            r.code == 200,
            r.message@ == "success"@,
            r.data matches Some(d) && d@ == data@,
    {
        RestAPIResponse { code: 200, message: "success".to_string(), data: Some(data) }
    }

    pub fn error(msg: &str) -> (r: RestAPIResponse)
        ensures
            r.code == 500,
            r.message@ == msg@,
            r.data is None,
    {
        RestAPIResponse { code: 500, message: msg.to_string(), data: None }
    }

    /// The body of the answer.
    pub fn body(&self) -> (r: Json)
        ensures
            r@ == self.wire(),
    {
        let data = match &self.data {
            Some(d) => d.clone(),
            None => Json::Null,
        };
        let mut m: Vec<(String, Json)> = Vec::new();
        push_member(&mut m, "code", Json::Unsigned(self.code as u64));
        push_member(&mut m, "message", Json::string(self.message.as_str()));
        push_member(&mut m, "data", data);
        assert(members_view(m@) =~= seq![
            ("code"@, JsonValue::Unsigned(self.code as u64)),
            ("message"@, JsonValue::Str(self.message@)),
            (
                "data"@,
                match self.data {
                    Some(d) => d@,
                    None => JsonValue::Null,
                },
            ),
        ]);
        object_of(m)
    }
}

/// The answer of the health path.
pub fn healthz() -> (r: RestAPIResponse)
    ensures
        r.wire() == JsonValue::Object(
            seq![
                ("code"@, JsonValue::Unsigned(200)),
                ("message"@, JsonValue::Str("success"@)),
                ("data"@, JsonValue::Str("OK"@)),
            ],
        ),
{
    let r = RestAPIResponse::success(Json::string("OK"));
    assert(r.wire()->Object_0 =~= seq![
        ("code"@, JsonValue::Unsigned(200)),
        ("message"@, JsonValue::Str("success"@)),
        ("data"@, JsonValue::Str("OK"@)),
    ]);
    r
}

/// The header that carries the admin key.
pub const API_KEY_HEADER: &'static str = "x-api-key";

/// An admin key that was presented and found right.
#[derive(Debug, PartialEq, Eq)]
pub struct ApiKey(pub String);

impl ApiKey {
    /// Admits a request to the admin paths: the key that the request
    /// presents must be the configured one.
    pub fn check(expected: &str, presented: Option<&str>) -> (r: Result<ApiKey, RestAPIError>)
        ensures
            match r {
                Ok(key) => presented matches Some(p) && p@ == expected@ && key.0@ == expected@,
                Err(e) => !(presented matches Some(p) && p@ == expected@) && e@ == (RestFailure {
                    error: "Invalid or missing API key"@,
                    status: 401,
                }),
            },
    {
        match presented {
            Some(key) => {
                if *key == *expected {
                    return Ok(ApiKey(key.to_string()));
                }
            },
            None => {},
        }
        Err(RestAPIError::unauthorized("Invalid or missing API key".to_string()))
    }
}

/// A request body that was read as JSON into `T`.
#[derive(Debug)]
pub struct ValidatedJson<T>(pub T);

/// Marks the reading of a remote answer as JSON.
#[derive(Debug, Clone, Copy, PartialEq, Eq, Structural)]
pub struct JsonResponse;

} // verus!
