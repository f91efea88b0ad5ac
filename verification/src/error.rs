//! The ways in which resolving a release fails.

use crate::text::{decimal, decimal_string};
use vstd::prelude::*;

verus! {

/// Why a release could not be resolved. Every failure ends the request: none
/// is retried.
#[derive(Debug, Clone, PartialEq, Eq)]
pub enum ResolveError {
    /// The credential could not be had from the configuration; the text is
    /// what the configuration store said.
    Configuration(String),
    /// The outbound call itself failed; the text is what the transport said.
    Transport(String),
    /// The release index answered with a status other than 200.
    UpstreamStatus(u16),
    /// The release index answered without a body.
    EmptyBody,
    /// The body of the answer is not JSON.
    Parse,
}

/// A `ResolveError` with its texts as sequences of characters.
pub enum Failure {
    Configuration(Seq<char>),
    Transport(Seq<char>),
    UpstreamStatus(u16),
    EmptyBody,
    Parse,
}

impl View for ResolveError {
    type V = Failure;

    open spec fn view(&self) -> Failure {
        match self {
            ResolveError::Configuration(detail) => Failure::Configuration(detail@),
            ResolveError::Transport(detail) => Failure::Transport(detail@),
            ResolveError::UpstreamStatus(status) => Failure::UpstreamStatus(*status),
            ResolveError::EmptyBody => Failure::EmptyBody,
            ResolveError::Parse => Failure::Parse,
        }
    }
}

/// The line of text that describes a failure to a reader.
pub open spec fn failure_message(failure: Failure) -> Seq<char> {
    match failure {
        Failure::Configuration(detail) => "Could not read the release index credential: "@
            + detail,
        Failure::Transport(detail) => "Could not reach the release index: "@ + detail,
        Failure::UpstreamStatus(status) => "Could not determine latest Spin CLI release. ("@
            + decimal(status as nat) + ")"@,
        Failure::EmptyBody => "The release index answered without a body."@,
        Failure::Parse => "The release index answered with a body that is not JSON."@,
    }
}

impl ResolveError {
    /// The line of text that describes this failure.
    pub fn message(&self) -> (r: String)
        ensures
            r@ == failure_message(self@),
    {
        match self {
            ResolveError::Configuration(detail) => {
                let mut out = "Could not read the release index credential: ".to_owned();
                out.append(detail.as_str());
                out
            },
            ResolveError::Transport(detail) => {
                let mut out = "Could not reach the release index: ".to_owned();
                out.append(detail.as_str());
                out
            },
            ResolveError::UpstreamStatus(status) => {
                let mut out = "Could not determine latest Spin CLI release. (".to_owned();
                let numeral = decimal_string(*status);
                out.append(numeral.as_str());
                out.append(")");
                out
            },
            ResolveError::EmptyBody => "The release index answered without a body.".to_owned(),
            ResolveError::Parse => "The release index answered with a body that is not JSON.".to_owned(),
        }
    }
}

} // verus!
