//! The error taxonomy of the pull-and-launch pipeline.
//!
//! Every error is fatal to the run: nothing is retried or recovered
//! locally, each value names the stage that failed.

use vstd::prelude::*;
use vstd::string::*;

verus! {

/// How sandbox construction failed.
#[derive(Debug, PartialEq, Eq, Structural)]
pub enum SandboxFailure {
    /// Missing privilege to change the process's filesystem root.
    Privilege,
    /// The host kernel offers no process-identifier namespaces.
    NamespaceUnsupported,
    /// The working directory inside the jail could not be entered.
    WorkdirChange,
}

/// A fatal failure of one stage of the pipeline.
#[derive(Debug, PartialEq, Eq, Structural)]
pub enum PullError {
    /// A malformed image reference (unreachable with the permissive parser).
    IdentityParse,
    /// The authentication exchange failed or its response did not decode.
    Auth,
    /// A manifest body did not decode or matched no known shape.
    ManifestDecode,
    /// A multi-architecture index offered no allow-listed platform.
    NoCompatibleManifest,
    /// Index indirection exceeded the fixed resolution depth bound.
    RecursionLimit,
    /// A layer blob could not be fetched; carries the layer's position.
    BlobFetch { layer_index: usize },
    /// A layer's compression or archive framing was corrupt.
    Extraction,
    /// Sandbox construction failed.
    Sandbox(SandboxFailure),
    /// The target command could not be spawned.
    Launch,
    /// The launched command's output was not valid text.
    OutputDecode,
}

/// The diagnostic line for each error.
pub open spec fn spec_describe(e: PullError) -> Seq<char> {
    match e {
        PullError::IdentityParse => "malformed image reference"@,
        PullError::Auth => "authentication with the registry failed"@,
        PullError::ManifestDecode => "manifest response did not match any known shape"@,
        PullError::NoCompatibleManifest => "no compatible manifest"@,
        PullError::RecursionLimit => "manifest index indirection exceeded the depth bound"@,
        PullError::BlobFetch { .. } => "failed to fetch a layer blob"@,
        PullError::Extraction => "corrupt layer archive"@,
        PullError::Sandbox(SandboxFailure::Privilege) => "insufficient privilege to jail the filesystem"@,
        PullError::Sandbox(SandboxFailure::NamespaceUnsupported) => "process-identifier namespaces are unsupported on this host"@,
        PullError::Sandbox(SandboxFailure::WorkdirChange) => "could not enter the working directory inside the jail"@,
        PullError::Launch => "could not spawn the target command"@,
        PullError::OutputDecode => "the command produced non-text output"@,
    }
}

impl PullError {
    /// A human-readable message naming the failed stage.
    pub fn describe(&self) -> (r: String)
        ensures
            r@ == spec_describe(*self),
    {
        match self {
            PullError::IdentityParse => String::from_str("malformed image reference"),
            PullError::Auth => String::from_str("authentication with the registry failed"),
            PullError::ManifestDecode => String::from_str(
                "manifest response did not match any known shape",
            ),
            PullError::NoCompatibleManifest => String::from_str("no compatible manifest"),
            PullError::RecursionLimit => String::from_str(
                "manifest index indirection exceeded the depth bound",
            ),
            PullError::BlobFetch { .. } => String::from_str("failed to fetch a layer blob"),
            PullError::Extraction => String::from_str("corrupt layer archive"),
            PullError::Sandbox(SandboxFailure::Privilege) => String::from_str(
                "insufficient privilege to jail the filesystem",
            ),
            PullError::Sandbox(SandboxFailure::NamespaceUnsupported) => String::from_str(
                "process-identifier namespaces are unsupported on this host",
            ),
            PullError::Sandbox(SandboxFailure::WorkdirChange) => String::from_str(
                "could not enter the working directory inside the jail",
            ),
            PullError::Launch => String::from_str("could not spawn the target command"),
            PullError::OutputDecode => String::from_str("the command produced non-text output"),
        }
    }
}

} // verus!
