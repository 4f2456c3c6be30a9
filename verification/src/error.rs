use vstd::prelude::*;

use crate::text::{spec_dec_nat, u64_to_string};

verus! {

/// Every failure the library can report, one variant per cause.
///
/// The first five variants come from compiling an operation's parameter
/// list; the others arise per call: a body supplied twice, a non-success
/// status, a failure of the transport, of encoding, of decoding, or of a
/// state downcast.
#[derive(Debug, PartialEq)]
pub enum ClientError {
    EmptyHosts,
    MissingRole { param: String },
    UnknownRole { param: String, role: String },
    DuplicateBodyRole { param: String },
    DuplicateHeadersRole { param: String },
    DuplicateArgsRole { param: String },
    BodyDeclaredTwice,
    HttpStatus { status: u16, body: String },
    Transport { detail: String },
    Encode { detail: String },
    Decode { detail: String },
    StateDowncast { have: String, want: String },
}

/// The human-readable cause carried by an error.
pub open spec fn spec_message(e: ClientError) -> Seq<char> {
    match e {
        ClientError::EmptyHosts => "HostRound hosts is empty"@,
        ClientError::MissingRole { param } => "param must declare a role: "@ + param@,
        ClientError::UnknownRole { param, role } => "not allowed param type : "@ + role@,
        ClientError::DuplicateBodyRole { param } => "json or form only once"@,
        ClientError::DuplicateHeadersRole { param } => "headers only once"@,
        ClientError::DuplicateArgsRole { param } => "args only once"@,
        ClientError::BodyDeclaredTwice => "json or form can only once"@,
        ClientError::HttpStatus { status, body } => "http status "@ + spec_dec_nat(status as int)
            + ": "@ + body@,
        ClientError::Transport { detail } => "transport error: "@ + detail@,
        ClientError::Encode { detail } => "encode error: "@ + detail@,
        ClientError::Decode { detail } => "decode error: "@ + detail@,
        ClientError::StateDowncast { have, want } => "State downcast failed: have "@ + have@
            + ", want "@ + want@,
    }
}

impl ClientError {
    /// The human-readable cause, as a string of its own.
    pub fn message(&self) -> (r: String)
        ensures
            r@ == spec_message(*self),
    {
        match self {
            ClientError::EmptyHosts => String::from_str("HostRound hosts is empty"),
            ClientError::MissingRole { param } => {
                let mut r = String::from_str("param must declare a role: ");
                r.append(param.as_str());
                r
            },
            ClientError::UnknownRole { param, role } => {
                let mut r = String::from_str("not allowed param type : ");
                r.append(role.as_str());
                r
            },
            ClientError::DuplicateBodyRole { param } => String::from_str("json or form only once"),
            ClientError::DuplicateHeadersRole { param } => String::from_str("headers only once"),
            ClientError::DuplicateArgsRole { param } => String::from_str("args only once"),
            ClientError::BodyDeclaredTwice => String::from_str("json or form can only once"),
            ClientError::HttpStatus { status, body } => {
                let mut r = String::from_str("http status ");
                let digits = u64_to_string(*status as u64);
                r.append(digits.as_str());
                r.append(": ");
                r.append(body.as_str());
                r
            },
            ClientError::Transport { detail } => {
                let mut r = String::from_str("transport error: ");
                r.append(detail.as_str());
                r
            },
            ClientError::Encode { detail } => {
                let mut r = String::from_str("encode error: ");
                r.append(detail.as_str());
                r
            },
            ClientError::Decode { detail } => {
                let mut r = String::from_str("decode error: ");
                r.append(detail.as_str());
                r
            },
            ClientError::StateDowncast { have, want } => {
                let mut r = String::from_str("State downcast failed: have ");
                r.append(have.as_str());
                r.append(", want ");
                r.append(want.as_str());
                r
            },
        }
    }
}

} // verus!
