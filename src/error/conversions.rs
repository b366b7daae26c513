//! Conversions from transport signals to error codes and to the envelope.
use vstd::prelude::*;
use crate::error::codes::DeribitErrorCode;
use crate::error::types::{DeribitError, Envelope};
use crate::error::wire::{int_from_json, int_to_json, json_error_text};
use crate::text::int_text;

verus! {

/// The envelope derived from a code: its number and its message.
pub open spec fn code_envelope(c: DeribitErrorCode) -> Envelope {
    Envelope::Api(c.spec_code(), c.spec_message())
}

/// The code that a transport status stands for; any status outside the
/// table becomes `Unknown` holding the status.
pub open spec fn spec_from_status(status: u16) -> DeribitErrorCode {
    match status {
        400u16 => DeribitErrorCode::BadRequest,
        401u16 => DeribitErrorCode::Unauthorized,
        403u16 => DeribitErrorCode::Forbidden,
        404u16 => DeribitErrorCode::NotFound,
        429u16 => DeribitErrorCode::TooManyRequests,
        500u16 => DeribitErrorCode::InternalServerError,
        503u16 => DeribitErrorCode::TemporarilyUnavailable,
        _ => DeribitErrorCode::Unknown(status as i32),
    }
}

/// The envelope that a transport status stands for, read off in one step.
pub open spec fn status_envelope(status: u16) -> Envelope {
    match status {
        400u16 => Envelope::Api(11050, "bad_request"@),
        401u16 => Envelope::Api(13009, "unauthorized"@),
        403u16 => Envelope::Api(13021, "forbidden"@),
        404u16 => Envelope::Api(13020, "not_found"@),
        429u16 => Envelope::Api(10028, "too_many_requests"@),
        500u16 => Envelope::Api(11094, "internal_server_error"@),
        503u16 => Envelope::Api(13028, "temporarily_unavailable"@),
        _ => Envelope::Api(status as i32, "unknown_error"@),
    }
}

/// Going from a status to its code and then to the envelope gives the same
/// envelope as reading the status off in one step, for every status.
pub proof fn lemma_status_chain(status: u16)
    ensures
        code_envelope(spec_from_status(status)) == status_envelope(status),
{
}

/// A variant that decoding its own code gives back: every named variant, and
/// `Unknown` with a number outside the table.
pub open spec fn is_canonical(c: DeribitErrorCode) -> bool {
    !(c matches DeribitErrorCode::Unknown(v) && DeribitErrorCode::is_registered(v))
}

/// Decoding the number of a canonical code gives the code again. As `to_json`
/// writes exactly that number as decimal text and `from_json` reads such text
/// back through `from_code`, a canonical code survives the wire unchanged.
pub proof fn lemma_wire_round_trip(c: DeribitErrorCode)
    requires
        is_canonical(c),
    ensures
        DeribitErrorCode::spec_from_code(c.spec_code()) == c,
{
}

impl DeribitErrorCode {
    /// Maps a transport status to a code: 400, 401, 403, 404, 429, 500 and 503
    /// have their own variant, every other status becomes `Unknown`.
    pub fn from_status(status: u16) -> (r: DeribitErrorCode)
        ensures
            r == spec_from_status(status),
    {
        match status {
            400 => DeribitErrorCode::BadRequest,
            401 => DeribitErrorCode::Unauthorized,
            403 => DeribitErrorCode::Forbidden,
            404 => DeribitErrorCode::NotFound,
            429 => DeribitErrorCode::TooManyRequests,
            500 => DeribitErrorCode::InternalServerError,
            503 => DeribitErrorCode::TemporarilyUnavailable,
            _ => DeribitErrorCode::Unknown(status as i32),
        }
    }

    /// The wire form of a code: its number as bare JSON, never a name.
    pub fn to_json(&self) -> (r: String)
        ensures
            r@ == int_text(self.spec_code() as int),
    {
        int_to_json(self.code()).unwrap()
    }

    /// Reads a code from its wire form. The decimal text of any `i32` gives
    /// the code that number names; text that is no JSON integer in range is
    /// a serialization error.
    pub fn from_json(s: &str) -> (r: Result<DeribitErrorCode, DeribitError>)
        ensures
            forall|v: i32|
                #![trigger int_text(v as int)]
                s@ == int_text(v as int) ==> r == Ok::<DeribitErrorCode, DeribitError>(
                    DeribitErrorCode::spec_from_code(v),
                ),
            r matches Err(e) ==> e is Serialization,
    {
        match int_from_json(s) {
            Ok(v) => Ok(DeribitErrorCode::from_code(v)),
            Err(e) => Err(DeribitError::from_json_error(e)),
        }
    }
}

impl DeribitError {
    /// The envelope of a code: `Api` with the code's number and message.
    pub fn from_error_code(c: DeribitErrorCode) -> (r: DeribitError)
        ensures
            r@ == code_envelope(c),
    {
        DeribitError::Api { code: c.code(), message: String::from_str(c.message()) }
    }

    /// The envelope of a transport status, through its code.
    pub fn from_status(status: u16) -> (r: DeribitError)
        ensures
            r@ == status_envelope(status),
    {
        proof {
            lemma_status_chain(status);
        }
        DeribitError::from_error_code(DeribitErrorCode::from_status(status))
    }

    /// A free-text failure is reported as a connection error.
    pub fn from_text(message: &str) -> (r: DeribitError)
        ensures
            r@ == Envelope::Connection(message@),
    {
        DeribitError::Connection(String::from_str(message))
    }

    /// A serialization failure with the given description, kept unchanged.
    pub fn from_serialization_text(text: String) -> (r: DeribitError)
        ensures
            r@ == Envelope::Serialization(text@),
    {
        DeribitError::Serialization(text)
    }

    /// A deserialization failure is reported as a serialization error
    /// carrying the parser's text, as `from_serialization_text` does with it.
    pub fn from_json_error(e: serde_json::Error) -> (r: DeribitError)
        ensures
            r is Serialization,
    {
        let text = json_error_text(&e);
        DeribitError::from_serialization_text(text)
    }
}

impl From<DeribitErrorCode> for DeribitError {
    fn from(error_code: DeribitErrorCode) -> (r: DeribitError)
        ensures
            r@ == code_envelope(error_code),
    {
        DeribitError::from_error_code(error_code)
    }
}

impl vstd::std_specs::convert::FromSpecImpl<DeribitErrorCode> for DeribitError {
    open spec fn obeys_from_spec() -> bool {
        false
    }

    open spec fn from_spec(v: DeribitErrorCode) -> DeribitError {
        DeribitError::Timeout
    }
}

impl From<u16> for DeribitErrorCode {
    fn from(status: u16) -> DeribitErrorCode {
        DeribitErrorCode::from_status(status)
    }
}

impl vstd::std_specs::convert::FromSpecImpl<u16> for DeribitErrorCode {
    open spec fn obeys_from_spec() -> bool {
        true
    }

    open spec fn from_spec(v: u16) -> DeribitErrorCode {
        spec_from_status(v)
    }
}

impl From<i32> for DeribitErrorCode {
    fn from(code: i32) -> DeribitErrorCode {
        DeribitErrorCode::from_code(code)
    }
}

impl vstd::std_specs::convert::FromSpecImpl<i32> for DeribitErrorCode {
    open spec fn obeys_from_spec() -> bool {
        true
    }

    open spec fn from_spec(v: i32) -> DeribitErrorCode {
        DeribitErrorCode::spec_from_code(v)
    }
}

impl From<DeribitErrorCode> for i32 {
    fn from(error: DeribitErrorCode) -> i32 {
        error.code()
    }
}

impl vstd::std_specs::convert::FromSpecImpl<DeribitErrorCode> for i32 {
    open spec fn obeys_from_spec() -> bool {
        true
    }

    open spec fn from_spec(v: DeribitErrorCode) -> i32 {
        v.spec_code()
    }
}

impl From<String> for DeribitError {
    fn from(message: String) -> DeribitError {
        DeribitError::Connection(message)
    }
}

impl vstd::std_specs::convert::FromSpecImpl<String> for DeribitError {
    open spec fn obeys_from_spec() -> bool {
        true
    }

    open spec fn from_spec(v: String) -> DeribitError {
        DeribitError::Connection(v)
    }
}

impl From<&str> for DeribitError {
    fn from(message: &str) -> (r: DeribitError)
        ensures
            r@ == Envelope::Connection(message@),
    {
        DeribitError::from_text(message)
    }
}

impl vstd::std_specs::convert::FromSpecImpl<&str> for DeribitError {
    open spec fn obeys_from_spec() -> bool {
        false
    }

    open spec fn from_spec(v: &str) -> DeribitError {
        DeribitError::Timeout
    }
}

impl From<serde_json::Error> for DeribitError {
    fn from(error: serde_json::Error) -> (r: DeribitError)
        ensures
            r is Serialization,
    {
        DeribitError::from_json_error(error)
    }
}

impl vstd::std_specs::convert::FromSpecImpl<serde_json::Error> for DeribitError {
    open spec fn obeys_from_spec() -> bool {
        false
    }

    open spec fn from_spec(v: serde_json::Error) -> DeribitError {
        DeribitError::Timeout
    }
}

} // verus!
