//! Failure taxonomy of the pipeline.
//!
//! Every stage failure is tagged with the stage it arose in and a cause, so
//! the caller always learns which step failed and why; nothing is swallowed
//! or retried inside the library.

use vstd::prelude::*;

verus! {

/// A credential field a destination requires before any request is issued.
#[derive(Clone, Copy, Debug, PartialEq, Eq, Structural)]
pub enum CredentialField {
    /// API key of the video-hosting destination.
    ApiKey,
    /// Bot token of the messaging destination.
    BotToken,
    /// Conversation identifier of the messaging destination.
    ConversationId,
    /// Access token of the social destination.
    AccessToken,
}

/// Why an upload attempt failed.
#[derive(Clone, Copy, Debug, PartialEq, Eq, Structural)]
pub enum UploadError {
    /// The target lacked a required credential; detected before any network
    /// request.
    MissingCredential(CredentialField),
    /// A request could not be delivered, with nothing delivered before it.
    Network,
    /// The destination answered a request with a non-success status.
    DestinationRejected,
    /// Some requests of a multi-part delivery went through before one
    /// failed, leaving residue on the destination side.
    PartialDelivery {
        /// Requests that were delivered before the failure.
        delivered: u64,
        /// Requests the whole transfer would have taken.
        total: u64,
    },
}

/// Why fetching the source asset failed.
#[derive(Clone, Copy, Debug, PartialEq, Eq, Structural)]
pub enum FetchError {
    /// The source was unreachable or the downloader reported failure.
    SourceUnreachable,
    /// The source's metadata names no local file to produce.
    MissingFilename,
}

/// The stage of a pipeline run in which a failure arose.
#[derive(Clone, Copy, Debug, PartialEq, Eq, Structural)]
pub enum Stage {
    Fetching,
    Transforming,
    Uploading,
}

/// The cause recorded with a terminal pipeline failure.
#[derive(Clone, Copy, Debug, PartialEq, Eq, Structural)]
pub enum FailureCause {
    /// Fetching the source asset failed.
    Fetch(FetchError),
    /// Re-encoding the fetched asset failed.
    Transform,
    /// The upload failed; carries the upload-level cause.
    Upload(UploadError),
    /// The run's owning context was cancelled mid-stage.
    Cancelled,
}

/// Acknowledgement of a completed transfer.
#[derive(Clone, Copy, Debug, PartialEq, Eq, Structural)]
pub struct Ack {
    /// Number of requests the destination accepted.
    pub requests_delivered: u64,
}

} // verus!
