//! The four failure kinds of the client: a local validation failure
//! (no request was sent), a transport failure, a non-2xx service
//! answer, and a response body that could not be decoded.

use crate::text::{dec_chars, u32_dec_string};
use vstd::prelude::*;
use vstd::string::*;

verus! {

/// Why a client operation failed.
#[derive(Debug)]
pub enum ApiError {
    /// An input failed a local precondition; no request was sent.
    Validation { reason: String },
    /// The request never completed: connection, DNS or TLS failure.
    Transport { cause: String },
    /// The service answered with a status outside 2xx.
    ApiStatus { status: u16, body: String },
    /// The response body was not the expected JSON shape.
    Decode { cause: String },
}

/// The one-line description of `e`.
pub open spec fn spec_message(e: ApiError) -> Seq<char> {
    match e {
        ApiError::Validation { reason } => reason@,
        ApiError::Transport { cause } => "transport error: "@ + cause@,
        ApiError::ApiStatus { status, body } => "request failed with status "@ + dec_chars(
            status as nat,
        ),
        ApiError::Decode { cause } => "decode error: "@ + cause@,
    }
}

impl ApiError {
    /// A human-readable line describing the failure.
    pub fn message(&self) -> (r: String)
        ensures
            r@ == spec_message(*self),
    {
        match self {
            ApiError::Validation { reason } => reason.clone(),
            ApiError::Transport { cause } => {
                let mut m = "transport error: ".to_owned();
                m.append(cause.as_str());
                m
            },
            ApiError::ApiStatus { status, .. } => {
                let mut m = "request failed with status ".to_owned();
                let d = u32_dec_string(*status as u32);
                m.append(d.as_str());
                m
            },
            ApiError::Decode { cause } => {
                let mut m = "decode error: ".to_owned();
                m.append(cause.as_str());
                m
            },
        }
    }

    /// The HTTP status carried by an `ApiStatus` failure.
    pub fn status(&self) -> (r: Option<u16>)
        ensures
            r == (match *self {
                ApiError::ApiStatus { status, .. } => Some(status),
                _ => None::<u16>,
            }),
    {
        match self {
            ApiError::ApiStatus { status, .. } => Some(*status),
            _ => None,
        }
    }

    pub fn is_validation(&self) -> (r: bool)
        ensures
            r == (self is Validation),
    {
        match self {
            ApiError::Validation { .. } => true,
            _ => false,
        }
    }

    pub fn is_transport(&self) -> (r: bool)
        ensures
            r == (self is Transport),
    {
        match self {
            ApiError::Transport { .. } => true,
            _ => false,
        }
    }

    pub fn is_api_status(&self) -> (r: bool)
        ensures
            r == (self is ApiStatus),
    {
        match self {
            ApiError::ApiStatus { .. } => true,
            _ => false,
        }
    }

    pub fn is_decode(&self) -> (r: bool)
        ensures
            r == (self is Decode),
    {
        match self {
            ApiError::Decode { .. } => true,
            _ => false,
        }
    }
}

} // verus!
