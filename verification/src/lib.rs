//! A backend-agnostic object-storage client core: a multipart upload engine
//! that buffers an unbounded byte stream into minimum-size parts, tracks
//! per-part identifiers under a bounded concurrency budget, and assembles the
//! ordered completion list; plus a capability-signing subsystem that produces
//! time-limited authorized URLs for single and batch paths.
//!
//! Network transport is a collaborator, not part of this crate: the engine is
//! a synchronous state machine that decides what to buffer, when to carve a
//! part, and what to hand to the backend; an asynchronous driver performs the
//! actual uploads and feeds results back.

use vstd::prelude::*;

pub mod azure;
pub mod multipart;
pub mod path;
pub mod signer;

verus! {

/// Identifier of a multipart session. Backends without a session concept use
/// the empty string as a sentinel.
pub type MultipartId = String;

/// Uniform error taxonomy for the whole crate.
///
/// - `Transport`: network or backend failure on an individual call; surfaced,
///   never retried at this layer.
/// - `Validation`: a structurally invalid request, such as a completion list
///   with missing indices.
/// - `Credential`: a signing credential could not be obtained.
/// - `Signing`: signature computation failed, e.g. an expiry that cannot be
///   represented.
#[derive(Debug)]
pub enum Error {
    Transport(String),
    Validation(String),
    Credential(String),
    Signing(String),
}

} // verus!
