//! Resolves the latest release of the Spin CLI, or the release of a named
//! channel, from the answer of a release index, and shapes the reply of a
//! small HTTP endpoint:
//!
//! | Route                    | Reply                                        |
//! |--------------------------|----------------------------------------------|
//! | `GET /version`           | the bare version, as `text/plain`            |
//! | `GET /version/{channel}` | the whole record, as `application/json`      |
//!
//! The library performs no I/O. A request is served in three steps:
//!
//! 1. the caller looks up the credential named by
//!    [`resolver::credential_name`] and hands what it got to
//!    [`resolver::release_request`], which makes the one request to send, or
//!    fails for want of a credential;
//! 2. the caller sends that request;
//! 3. the caller hands what came of it, an answer or a transport failure, to
//!    [`endpoint::handle_check_spin_cli_version`], which makes the reply;
//!    [`endpoint::log_line`] says what to log for it.
//!
//! Every function states what it returns in its contract, over the views of
//! the types, and the contracts are proved with Verus. JSON is read and
//! written by `serde_json`; what is taken on trust of it is written down in
//! [`json`].

pub mod endpoint;
pub mod error;
pub mod json;
pub mod release;
pub mod resolver;
pub mod text;

pub use crate::endpoint::{
    error_reply, get_latest_stable_version, get_version_by_channel,
    handle_check_spin_cli_version, log_line, HttpReply,
};
pub use crate::error::ResolveError;
pub use crate::release::ReleaseInfo;
pub use crate::resolver::{
    credential_name, get_authorization_header_value, get_release_info, release_request,
    release_url, GetRequest, Header, Route, UpstreamResponse,
};
