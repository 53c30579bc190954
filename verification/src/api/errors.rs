//! What the API reports when it refuses a request.
//!
//! A refusal carries a status code and, most of the time, a body with a
//! `reason` and a `message`. Where the body gives none, both are taken from
//! the status code, so an [`ApiError`] always says something.

use crate::api::common::text::{decimal, text_of, u64_to_string};
use vstd::prelude::*;
use vstd::string::*;

verus! {

/// The body of an error response, as far as it could be decoded.
#[derive(Debug)]
pub struct ApiErrorResponse {
    pub reason: Option<String>,
    pub message: Option<String>,
}

/// What an error body gives: a reason and a message, each only where the
/// body has one.
pub struct ErrorFields {
    pub reason: Option<Seq<char>>,
    pub message: Option<Seq<char>>,
}

/// What a JSON object holds under a name.
#[derive(Debug, Clone, PartialEq, Eq)]
pub enum JsonMember {
    /// The object has no member of that name.
    Missing,
    /// The member is `null`.
    Null,
    /// The member is a string.
    Text(String),
    /// The member is a number, a boolean, an array or an object.
    Other,
}

/// What a JSON object holds under a name, a string by its characters.
pub enum Member {
    Missing,
    Null,
    Text(Seq<char>),
    Other,
}

impl View for JsonMember {
    type V = Member;

    open spec fn view(&self) -> Member {
        match self {
            JsonMember::Missing => Member::Missing,
            JsonMember::Null => Member::Null,
            JsonMember::Text(text) => Member::Text(text@),
            JsonMember::Other => Member::Other,
        }
    }
}

impl View for ApiErrorResponse {
    type V = ErrorFields;

    open spec fn view(&self) -> ErrorFields {
        ErrorFields { reason: text_of(self.reason), message: text_of(self.message) }
    }
}

/// The member of a name in the JSON object that `body` holds, as
/// `serde_json` reads it; `None` where `body` is not one JSON object.
pub uninterp spec fn json_object_member(body: Seq<u8>, name: Seq<char>) -> Option<Member>;

/// The view of a member that was looked up.
pub open spec fn member_of(found: Option<JsonMember>) -> Option<Member> {
    match found {
        Some(member) => Some(member@),
        None => None,
    }
}

/// `serde_json::from_slice` to a `serde_json::Value`, then `Map::get` on the
/// object that it holds: the member of that name, told apart by its kind.
/// `None` where the bytes are no JSON document or the document is no object.
#[verifier::external_body]
fn object_member(body: &[u8], name: &str) -> (found: Option<JsonMember>)
    ensures
        member_of(found) == json_object_member(body@, name@),
{
    match serde_json::from_slice::<serde_json::Value>(body) {
        Ok(serde_json::Value::Object(members)) => Some(
            match members.get(name) {
                None => JsonMember::Missing,
                Some(serde_json::Value::Null) => JsonMember::Null,
                Some(serde_json::Value::String(text)) => JsonMember::Text(text.clone()),
                Some(_) => JsonMember::Other,
            },
        ),
        _ => None,
    }
}

/// The text that a member gives to an optional field: its string, or none
/// where it is missing or `null`.
pub open spec fn member_text(member: Member) -> Option<Seq<char>> {
    match member {
        Member::Text(text) => Some(text),
        _ => None,
    }
}

/// The fields of an error object from the two members looked up in a body:
/// `None` unless the body is an object and neither member is anything but
/// a string, `null` or missing.
pub open spec fn error_object(reason: Option<Member>, message: Option<Member>) -> Option<
    ErrorFields,
> {
    match (reason, message) {
        (Some(reason), Some(message)) => if reason is Other || message is Other {
            None
        } else {
            Some(ErrorFields { reason: member_text(reason), message: member_text(message) })
        },
        _ => None,
    }
}

/// The error object that a body decodes to, if it decodes to one.
pub open spec fn decoded_body(body: Seq<u8>) -> Option<ErrorFields> {
    error_object(json_object_member(body, "reason"@), json_object_member(body, "message"@))
}

/// The fields of a decoded body: nothing where nothing was decoded.
pub open spec fn fields_of(decoded: Option<ErrorFields>) -> ErrorFields {
    match decoded {
        Some(fields) => fields,
        None => ErrorFields { reason: None, message: None },
    }
}

/// The view of an optional error object.
pub open spec fn decoded_view(decoded: Option<ApiErrorResponse>) -> Option<ErrorFields> {
    match decoded {
        Some(body) => Some(body@),
        None => None,
    }
}

/// A refusal by the API.
#[derive(Debug)]
pub struct ApiError {
    pub status_code: u16,
    pub reason: String,
    pub message: String,
}

/// The reason phrase that HTTP registers for a status code, if it registers
/// one, as `reqwest::StatusCode::canonical_reason` returns it.
pub uninterp spec fn canonical_reason(status_code: u16) -> Option<Seq<char>>;

/// `reqwest::StatusCode::from_u16`, then `canonical_reason` on the status:
/// the registered reason phrase of a number from 100 to 999, which are the
/// numbers that `from_u16` accepts.
#[verifier::external_body]
fn canonical_reason_of(status_code: u16) -> (phrase: Option<String>)
    requires
        100 <= status_code <= 999,
    ensures
        text_of(phrase) == canonical_reason(status_code),
{
    reqwest::StatusCode::from_u16(status_code).ok().and_then(
        |status| status.canonical_reason(),
    ).map(|phrase| phrase.to_owned())
}

/// The reason given for a status code without an entry of its own: a fixed
/// sentence, then the reason phrase where there is one.
pub open spec fn unspecified_reason_text(phrase: Option<Seq<char>>) -> Seq<char> {
    "Unspecified reason occured. Canonical reason: "@ + match phrase {
        Some(p) => p,
        None => Seq::empty(),
    }
}

/// The reason phrase to quote for a status code: none for a number that is
/// no status code.
pub open spec fn quoted_phrase(status_code: u16) -> Option<Seq<char>> {
    if 100 <= status_code <= 999 {
        canonical_reason(status_code)
    } else {
        None
    }
}

/// The reason that stands for a status code where the body gives none.
pub open spec fn default_reason_text(status_code: u16) -> Seq<char> {
    if status_code == 400 {
        "badRequest"@
    } else if status_code == 403 {
        "accessDenied"@
    } else if status_code == 404 {
        "notFound"@
    } else if status_code == 429 {
        "requestThrottled"@
    } else if status_code == 500 {
        "unknownException"@
    } else if status_code == 503 {
        "inMaintenance"@
    } else if status_code == 504 {
        "requestAborted"@
    } else {
        unspecified_reason_text(quoted_phrase(status_code))
    }
}

/// The message that stands for a status code where the body gives none.
pub open spec fn default_message_text(status_code: u16) -> Seq<char> {
    if status_code == 400 {
        "Client provided incorrect parameters for the request."@
    } else if status_code == 403 {
        "Access denied, either because of missing/incorrect credentials or used API token does not grant access to the requested resource."@
    } else if status_code == 404 {
        "Resource was not found."@
    } else if status_code == 429 {
        "Request was throttled, because amount of requests was above the threshold defined for the used API token."@
    } else if status_code == 500 {
        "Unknown error happened when handling the request."@
    } else if status_code == 503 {
        "Service is temprorarily unavailable because of maintenance."@
    } else if status_code == 504 {
        "The user aborted this request."@
    } else {
        "Unspecified error occurred."@
    }
}

/// The reason of the error for a response: the body's, where it has one.
pub open spec fn resolved_reason(status_code: u16, fields: ErrorFields) -> Seq<char> {
    match fields.reason {
        Some(reason) => reason,
        None => default_reason_text(status_code),
    }
}

/// The message of the error for a response: the body's, where it has one.
pub open spec fn resolved_message(status_code: u16, fields: ErrorFields) -> Seq<char> {
    match fields.message {
        Some(message) => message,
        None => default_message_text(status_code),
    }
}

/// The reason for a status code without an entry of its own, from the reason
/// phrase that was found for it.
pub fn unspecified_reason(phrase: Option<String>) -> (reason: String)
    ensures
        reason@ == unspecified_reason_text(text_of(phrase)),
        reason@.len() > 0,
{
    proof {
        reveal_strlit("Unspecified reason occured. Canonical reason: ");
    }
    let mut reason = "Unspecified reason occured. Canonical reason: ".to_owned();
    match phrase {
        Some(p) => {
            reason.append(p.as_str());
        },
        None => {
        },
    }
    reason
}

/// The reason that stands for a status code where the body gives none. It
/// is never empty.
pub fn default_reason(status_code: u16) -> (reason: String)
    ensures
        reason@ == default_reason_text(status_code),
        reason@.len() > 0,
{
    proof {
        reveal_strlit("badRequest");
        reveal_strlit("accessDenied");
        reveal_strlit("notFound");
        reveal_strlit("requestThrottled");
        reveal_strlit("unknownException");
        reveal_strlit("inMaintenance");
        reveal_strlit("requestAborted");
    }
    if status_code == 400 {
        "badRequest".to_owned()
    } else if status_code == 403 {
        "accessDenied".to_owned()
    } else if status_code == 404 {
        "notFound".to_owned()
    } else if status_code == 429 {
        "requestThrottled".to_owned()
    } else if status_code == 500 {
        "unknownException".to_owned()
    } else if status_code == 503 {
        "inMaintenance".to_owned()
    } else if status_code == 504 {
        "requestAborted".to_owned()
    } else if 100 <= status_code && status_code <= 999 {
        unspecified_reason(canonical_reason_of(status_code))
    } else {
        unspecified_reason(None)
    }
}

/// The message that stands for a status code where the body gives none. It
/// is never empty.
pub fn default_message(status_code: u16) -> (message: String)
    ensures
        message@ == default_message_text(status_code),
        message@.len() > 0,
{
    proof {
        reveal_strlit("Client provided incorrect parameters for the request.");
        reveal_strlit(
            "Access denied, either because of missing/incorrect credentials or used API token does not grant access to the requested resource.",
        );
        reveal_strlit("Resource was not found.");
        reveal_strlit(
            "Request was throttled, because amount of requests was above the threshold defined for the used API token.",
        );
        reveal_strlit("Unknown error happened when handling the request.");
        reveal_strlit("Service is temprorarily unavailable because of maintenance.");
        reveal_strlit("The user aborted this request.");
        reveal_strlit("Unspecified error occurred.");
    }
    if status_code == 400 {
        "Client provided incorrect parameters for the request.".to_owned()
    } else if status_code == 403 {
        "Access denied, either because of missing/incorrect credentials or used API token does not grant access to the requested resource.".to_owned()
    } else if status_code == 404 {
        "Resource was not found.".to_owned()
    } else if status_code == 429 {
        "Request was throttled, because amount of requests was above the threshold defined for the used API token.".to_owned()
    } else if status_code == 500 {
        "Unknown error happened when handling the request.".to_owned()
    } else if status_code == 503 {
        "Service is temprorarily unavailable because of maintenance.".to_owned()
    } else if status_code == 504 {
        "The user aborted this request.".to_owned()
    } else {
        "Unspecified error occurred.".to_owned()
    }
}

impl ApiErrorResponse {
    /// The error object for the two members found in a body.
    ///
    /// `None` stands for a body that is no JSON object. A member that is a
    /// string gives its field; one that is missing or `null` leaves the
    /// field empty; one of any other kind makes the whole body unusable.
    pub fn from_members(reason: Option<JsonMember>, message: Option<JsonMember>) -> (decoded:
        Option<Self>)
        ensures
            decoded_view(decoded) == error_object(member_of(reason), member_of(message)),
    {
        let reason = match reason {
            Some(JsonMember::Text(text)) => Some(text),
            Some(JsonMember::Missing) | Some(JsonMember::Null) => None,
            Some(JsonMember::Other) | None => {
                return None;
            },
        };
        let message = match message {
            Some(JsonMember::Text(text)) => Some(text),
            Some(JsonMember::Missing) | Some(JsonMember::Null) => None,
            Some(JsonMember::Other) | None => {
                return None;
            },
        };
        Some(ApiErrorResponse { reason, message })
    }

    /// Decodes the body of an error response: a JSON object whose members
    /// `reason` and `message` are strings, `null` or missing. Anything else
    /// gives `None`.
    pub fn from_body(body: &[u8]) -> (decoded: Option<Self>)
        ensures
            decoded_view(decoded) == decoded_body(body@),
    {
        let reason = object_member(body, "reason");
        let message = object_member(body, "message");
        Self::from_members(reason, message)
    }
}

impl ApiError {
    /// An error with the given status code, reason and message.
    pub fn new(status_code: u16, reason: String, message: String) -> (error: Self)
        ensures
            error.status_code == status_code,
            error.reason == reason,
            error.message == message,
    {
        Self { status_code, reason, message }
    }

    /// The error for a status code and a decoded error body.
    ///
    /// `decoded` is the response body decoded as an error object, or `None`
    /// where there was no body or it did not decode. A reason or a message
    /// that the body gives is kept, whatever the status code; one that it
    /// does not give is the default for the status code.
    pub fn from_decoded(status_code: u16, decoded: Option<ApiErrorResponse>) -> (error: Self)
        ensures
            error.status_code == status_code,
            error.reason@ == resolved_reason(status_code, fields_of(decoded_view(decoded))),
            error.message@ == resolved_message(status_code, fields_of(decoded_view(decoded))),
            decoded matches Some(ApiErrorResponse { reason: Some(reason), .. }) ==> error.reason
                == reason,
            decoded matches Some(ApiErrorResponse { message: Some(message), .. })
                ==> error.message == message,
            fields_of(decoded_view(decoded)).reason is None ==> error.reason@.len() > 0,
            fields_of(decoded_view(decoded)).message is None ==> error.message@.len() > 0,
    {
        let (given_reason, given_message) = match decoded {
            Some(data) => (data.reason, data.message),
            None => (None, None),
        };
        let reason = match given_reason {
            Some(reason) => reason,
            None => default_reason(status_code),
        };
        let message = match given_message {
            Some(message) => message,
            None => default_message(status_code),
        };
        Self::new(status_code, reason, message)
    }

    /// The error for a response that was not a success.
    ///
    /// The body is read as an error object. Where it is one, its reason and
    /// its message are kept, whatever the status code. What it does not
    /// give, or all of it where the body is no error object, is the default
    /// for the status code: a body that cannot be read never fails the
    /// classification.
    pub fn from_response(status_code: u16, body: &[u8]) -> (error: Self)
        ensures
            error.status_code == status_code,
            error.reason@ == resolved_reason(status_code, fields_of(decoded_body(body@))),
            error.message@ == resolved_message(status_code, fields_of(decoded_body(body@))),
            fields_of(decoded_body(body@)).reason is None ==> error.reason@.len() > 0,
            fields_of(decoded_body(body@)).message is None ==> error.message@.len() > 0,
    {
        Self::from_decoded(status_code, ApiErrorResponse::from_body(body))
    }

    /// The error in one line: the status code, the reason and the message.
    pub fn to_string(&self) -> (line: String)
        ensures
            line@ == self.line(),
    {
        let mut line = "Error ".to_owned();
        line.append(u64_to_string(self.status_code as u64).as_str());
        line.append(": ");
        line.append(self.reason.as_str());
        line.append(" - ");
        line.append(self.message.as_str());
        line
    }

    /// The text of [`ApiError::to_string`].
    pub open spec fn line(&self) -> Seq<char> {
        "Error "@ + decimal(self.status_code as int) + ": "@ + self.reason@ + " - "@
            + self.message@
    }
}

} // verus!
