//! The error envelope: the one error type that every client operation returns.
use vstd::prelude::*;
use crate::text::{int_text, push_int};

verus! {

/// Common error type for all Deribit clients
#[derive(Debug, Clone)]
pub enum DeribitError {
    /// Connection error
    Connection(String),
    /// Authentication error
    Authentication(String),
    /// API error with code and message
    Api {
        /// Error code returned by the API
        code: i32,
        /// Human-readable error message
        message: String,
    },
    /// Serialization/deserialization error
    Serialization(String),
    /// Network timeout
    Timeout,
    /// Invalid configuration
    InvalidConfig(String),
    /// Generic error
    Other(String),
}

/// What a `DeribitError` holds, with its texts as character sequences.
pub enum Envelope {
    /// A connection failure and its description
    Connection(Seq<char>),
    /// An authentication failure and its description
    Authentication(Seq<char>),
    /// A venue error: its code and its message
    Api(i32, Seq<char>),
    /// A serialization failure and its description
    Serialization(Seq<char>),
    /// A request that timed out
    Timeout,
    /// An invalid configuration and its description
    InvalidConfig(Seq<char>),
    /// Any other failure and its description
    Other(Seq<char>),
}

impl View for DeribitError {
    type V = Envelope;

    open spec fn view(&self) -> Envelope {
        match self {
            DeribitError::Connection(t) => Envelope::Connection(t@),
            DeribitError::Authentication(t) => Envelope::Authentication(t@),
            DeribitError::Api { code, message } => Envelope::Api(*code, message@),
            DeribitError::Serialization(t) => Envelope::Serialization(t@),
            DeribitError::Timeout => Envelope::Timeout,
            DeribitError::InvalidConfig(t) => Envelope::InvalidConfig(t@),
            DeribitError::Other(t) => Envelope::Other(t@),
        }
    }
}

/// The fixed text of each kind of error, with its payload in place.
pub open spec fn render(e: Envelope) -> Seq<char> {
    match e {
        Envelope::Connection(t) => "Connection error: "@ + t,
        Envelope::Authentication(t) => "Authentication error: "@ + t,
        Envelope::Api(code, message) => "API error "@ + int_text(code as int) + ": "@ + message,
        Envelope::Serialization(t) => "Serialization error: "@ + t,
        Envelope::Timeout => "Request timeout"@,
        Envelope::InvalidConfig(t) => "Invalid configuration: "@ + t,
        Envelope::Other(t) => "Error: "@ + t,
    }
}

/// Result type alias for Deribit operations
pub type DeribitResult<T> = Result<T, DeribitError>;

impl DeribitError {
    /// The text of this error, by the template of its kind.
    pub fn to_string(&self) -> (r: String)
        ensures
            r@ == render(self@),
    {
        match self {
            DeribitError::Connection(t) => String::from_str("Connection error: ").concat(t.as_str()),
            DeribitError::Authentication(t) => String::from_str("Authentication error: ").concat(
                t.as_str(),
            ),
            DeribitError::Api { code, message } => {
                let mut s = String::from_str("API error ");
                push_int(&mut s, *code);
                s.append(": ");
                s.append(message.as_str());
                s
            },
            DeribitError::Serialization(t) => String::from_str("Serialization error: ").concat(
                t.as_str(),
            ),
            DeribitError::Timeout => String::from_str("Request timeout"),
            DeribitError::InvalidConfig(t) => String::from_str("Invalid configuration: ").concat(
                t.as_str(),
            ),
            DeribitError::Other(t) => String::from_str("Error: ").concat(t.as_str()),
        }
    }
}

impl PartialEq for DeribitError {
    fn eq(&self, other: &DeribitError) -> (r: bool) {
        match (self, other) {
            (DeribitError::Connection(a), DeribitError::Connection(b)) => a.eq(b),
            (DeribitError::Authentication(a), DeribitError::Authentication(b)) => a.eq(b),
            (
                DeribitError::Api { code: c1, message: m1 },
                DeribitError::Api { code: c2, message: m2 },
            ) => *c1 == *c2 && m1.eq(m2),
            (DeribitError::Serialization(a), DeribitError::Serialization(b)) => a.eq(b),
            (DeribitError::Timeout, DeribitError::Timeout) => true,
            (DeribitError::InvalidConfig(a), DeribitError::InvalidConfig(b)) => a.eq(b),
            (DeribitError::Other(a), DeribitError::Other(b)) => a.eq(b),
            _ => false,
        }
    }
}

impl vstd::std_specs::cmp::PartialEqSpecImpl for DeribitError {
    open spec fn obeys_eq_spec() -> bool {
        true
    }

    open spec fn eq_spec(&self, other: &DeribitError) -> bool {
        self@ == other@
    }
}

} // verus!
