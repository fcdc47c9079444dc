//! What the handler hands to the HTTP layer: a status code and a JSON body.

use vstd::prelude::*;
use vstd::string::StringExecFns;

use crate::error::AppError;
use crate::error::ErrorModel;
use crate::error::STATUS_OK;

verus! {

/// The text of the JSON object that has the one member `key`, whose value is
/// the string `value`, in compact form.
pub uninterp spec fn json_object_text(key: Seq<char>, value: Seq<char>) -> Seq<char>;

/// Renders a JSON object with a single string member.
///
/// Trusted: builds a `serde_json::Map` with the one entry and prints it through
/// `serde_json::Value`'s `Display`, which is compact JSON. The result depends on
/// the two strings alone; the contract only gives it its name.
#[verifier::external_body]
fn json_object(key: &str, value: &str) -> (text: String)
    ensures
        text@ == json_object_text(key@, value@),
{
    let mut members = serde_json::Map::new();
    members.insert(key.to_string(), serde_json::Value::String(value.to_string()));
    serde_json::Value::Object(members).to_string()
}

/// A finished response: status code and JSON body.
#[derive(Debug, Clone)]
pub struct HttpResponse {
    pub status: u16,
    pub body: String,
}

impl HttpResponse {
    /// The response as plain values: status and body text.
    pub open spec fn view(self) -> (u16, Seq<char>) {
        (self.status, self.body@)
    }

    /// A response with the given status and an already rendered body.
    pub fn with_body(status: u16, body: String) -> (response: HttpResponse)
        ensures
            response@ == (status, body@),
    {
        HttpResponse { status, body }
    }

    /// A copy of the response.
    pub fn duplicate(&self) -> (copy: HttpResponse)
        ensures
            copy@ == self@,
    {
        HttpResponse { status: self.status, body: self.body.clone() }
    }
}

/// The greeting sent back for an accepted message.
pub open spec fn greeting_text(service: Seq<char>, message: Seq<char>) -> Seq<char> {
    "Hello from "@ + service + "! You sent: "@ + message
}

/// The response to a request that succeeded, as plain values.
pub open spec fn success_view(service: Seq<char>, message: Seq<char>) -> (u16, Seq<char>) {
    (STATUS_OK, json_object_text("message"@, greeting_text(service, message)))
}

/// The response to a request that failed with `error`, as plain values.
pub open spec fn failure_view(error: ErrorModel) -> (u16, Seq<char>) {
    (error.status(), json_object_text("error"@, error.text()))
}

/// Builds the greeting for `message` in the name of `service`.
pub fn greeting(service: &str, message: &str) -> (text: String)
    ensures
        text@ == greeting_text(service@, message@),
{
    String::from_str("Hello from ").concat(service).concat("! You sent: ").concat(message)
}

/// The `200` response whose `message` member greets the client with what it sent.
pub fn success_response(service: &str, message: &str) -> (response: HttpResponse)
    ensures
        response@ == success_view(service@, message@),
{
    let text = greeting(service, message);
    HttpResponse::with_body(STATUS_OK, json_object("message", text.as_str()))
}

impl AppError {
    /// Maps the error to its response: the status of its kind and a body whose
    /// `error` member is the message, kind prefix included.
    pub fn into_response(self) -> (response: HttpResponse)
        ensures
            response@ == failure_view(self@),
    {
        let status = self.status_code();
        let text = self.message();
        HttpResponse::with_body(status, json_object("error", text.as_str()))
    }
}

} // verus!
