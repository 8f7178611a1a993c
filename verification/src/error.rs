//! The failures that loading and running a pipeline can report.

use vstd::prelude::*;

verus! {

/// A failure while the artifacts of a model are acquired.
#[derive(Clone, Copy, Debug, PartialEq, Eq, Structural)]
pub enum DownloadError {
    /// The artifact store does not hold the artifact.
    NotFound,
    /// The artifact store refuses the caller.
    Auth,
    /// The artifact store could not be reached, or did not answer as
    /// expected.
    Network,
}

impl DownloadError {
    /// The failure that an answer of the artifact store stands for, by its
    /// HTTP status: 404 is a missing artifact, 401 and 403 are a refusal, and
    /// anything else, or no answer at all, is a failure of the transport.
    pub open spec fn of_status(status: Option<u16>) -> DownloadError {
        match status {
            Some(code) => if code == 404 {
                DownloadError::NotFound
            } else if code == 401 || code == 403 {
                DownloadError::Auth
            } else {
                DownloadError::Network
            },
            None => DownloadError::Network,
        }
    }

    /// The failure that an answer of the artifact store stands for.
    pub fn from_status(status: Option<u16>) -> (e: DownloadError)
        ensures
            e == Self::of_status(status),
    {
        match status {
            Some(code) => if code == 404 {
                DownloadError::NotFound
            } else if code == 401 || code == 403 {
                DownloadError::Auth
            } else {
                DownloadError::Network
            },
            None => DownloadError::Network,
        }
    }
}

/// Why a requested model variant cannot be built.
#[derive(Clone, Copy, Debug, PartialEq, Eq, Structural)]
pub enum VariantIssue {
    /// The requested kind asks for a quantized weight format, which this
    /// architecture does not implement.
    QuantizedFormat,
    /// An adapter-augmented model was requested, and an adapter artifact is
    /// missing.
    MissingAdapters,
}

/// A failure while a pipeline is built. The caller may retry or give up on
/// this one pipeline.
#[derive(Clone, Debug, PartialEq, Eq)]
pub enum LoadError {
    /// The raw configuration, or the chat template's, does not follow its
    /// schema.
    ConfigParse(String),
    /// The weights could not be loaded.
    WeightLoad(String),
    /// The tokenizer could not be loaded.
    TokenizerLoad(String),
    /// The requested variant is not one that can be built.
    UnsupportedVariant(VariantIssue),
}

/// A failure of a loaded pipeline. None of them can be recovered from.
#[derive(Debug)]
pub enum PipelineError {
    /// A tensor computation failed.
    ComputeFailure(candle_core::Error),
    /// The chat template's end-of-sequence marker, given here, is not in the
    /// tokenizer's vocabulary.
    MissingEosToken(String),
}

} // verus!
