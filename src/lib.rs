//! Client logic for a generative-AI HTTP service: synchronous text completion, and image
//! generation through a long-running operation that is submitted and then checked until it
//! ends.
//!
//! - `request`: the image request and its builders, with the validating `RequestConfig::build`.
//! - `operation`: snapshots of a server-side operation and what each one means.
//! - `poller`: the submit-and-check state machine, the reading of replies, and the calls to make.
//! - `text`: the text completion models and credentials.
//! - `error`: the error taxonomy shared by both paths.
//!
//! HTTP and JSON stay with the caller: it performs the calls that the library describes and
//! hands back what came.

use vstd::prelude::*;

pub mod error;
pub mod operation;
pub mod poller;
pub mod request;
pub mod text;

verus! {

} // verus!
