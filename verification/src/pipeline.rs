//! The fetch -> transform -> upload state machine.
//!
//! A pipeline run walks the stages strictly in order — each stage's output
//! is the next stage's input — and reaches either `Done` or a terminal
//! `Failed` tagged with the stage and cause. The machine only decides; the
//! caller performs each returned action (run the fetcher, the encoder, the
//! upload) and feeds the outcome back as the next event. Cleanup of the
//! temporary files is gated on overall success and on the run's two
//! deletion flags; a failure never deletes anything.

use vstd::prelude::*;

use crate::asset::MediaAsset;
use crate::errors::{FailureCause, FetchError, Stage, UploadError};

verus! {

/// Configuration of one end-to-end run, captured once at its start.
#[derive(Clone, Debug)]
pub struct PipelineRun {
    /// Where the source asset is fetched from.
    pub source_url: String,
    /// Directory the fetched file is placed in.
    pub output_dir: String,
    /// Delete the fetched file after a successful upload.
    pub delete_source_on_success: bool,
    /// Delete the re-encoded file after a successful upload.
    pub delete_transformed_on_success: bool,
}

/// Where a run stands. `Done` and `Failed` are terminal: no event applies
/// to them.
#[derive(Clone, Debug)]
pub enum PipelineState {
    /// Waiting for the fetch stage's outcome.
    Fetching,
    /// The source is on disk; waiting for the transform stage's outcome.
    Transforming { source: MediaAsset },
    /// Source and re-encoded asset are on disk; waiting for the upload's
    /// outcome.
    Uploading { source: MediaAsset, transformed: MediaAsset },
    /// The upload succeeded. Cleanup, if any, has been handed out; a
    /// failure to delete is reported by the caller but no longer fails the
    /// run.
    Done,
    /// The run failed in `stage` for `cause`; no stage after it was
    /// entered.
    Failed { stage: Stage, cause: FailureCause },
}

/// The outcome of the action last handed out, fed back into the machine.
#[derive(Clone, Debug)]
pub enum PipelineEvent {
    /// The fetch produced this asset.
    Fetched { asset: MediaAsset },
    /// The fetch failed.
    FetchFailed { error: FetchError },
    /// The transform produced this asset; the source asset is untouched.
    Transformed { asset: MediaAsset },
    /// The transform failed; the fetched file is left on disk.
    TransformFailed,
    /// The destination acknowledged the upload.
    Uploaded,
    /// The upload failed.
    UploadFailed { error: UploadError },
    /// The run's owning context was cancelled during the current stage.
    Cancelled,
}

/// What the caller is to do next.
#[derive(Clone, Debug)]
pub enum PipelineAction {
    /// Fetch the source into the run's output directory.
    Fetch { url: String, dest_dir: String },
    /// Re-encode the file at this path into a new file.
    Transform { input_path: String },
    /// Deliver this asset through the router.
    Upload { asset: MediaAsset },
    /// Delete the named files, each present only when its flag opted in.
    /// Deletion failures are reported, not retried, and do not fail the
    /// run.
    Cleanup { delete_source: Option<String>, delete_transformed: Option<String> },
    /// Report the terminal failure to the caller.
    Report { stage: Stage, cause: FailureCause },
    /// The event does not belong to the state; nothing changes.
    Ignore,
}

/// Terminal failure: the state and the report handed to the caller.
pub open spec fn failure(stage: Stage, cause: FailureCause) -> (PipelineState, PipelineAction) {
    (
        PipelineState::Failed { stage, cause },
        PipelineAction::Report { stage, cause },
    )
}

/// Whether `event` is an outcome the machine awaits in `state`. Terminal
/// states await nothing.
pub open spec fn event_fits(state: PipelineState, event: PipelineEvent) -> bool {
    match state {
        PipelineState::Fetching => event matches PipelineEvent::Fetched { .. } || event matches
            PipelineEvent::FetchFailed { .. } || event is Cancelled,
        PipelineState::Transforming { .. } => event matches PipelineEvent::Transformed { .. }
            || event is TransformFailed || event is Cancelled,
        PipelineState::Uploading { .. } => event is Uploaded || event matches
            PipelineEvent::UploadFailed { .. } || event is Cancelled,
        PipelineState::Done => false,
        PipelineState::Failed { .. } => false,
    }
}

/// The machine itself: from a state and the stage outcome fed back, the
/// next state and the next action. An event that does not fit the state
/// changes nothing.
pub open spec fn transition(
    run: PipelineRun,
    state: PipelineState,
    event: PipelineEvent,
) -> (PipelineState, PipelineAction) {
    match (state, event) {
        (PipelineState::Fetching, PipelineEvent::Fetched { asset }) => (
            PipelineState::Transforming { source: asset },
            PipelineAction::Transform { input_path: asset.local_path },
        ),
        (PipelineState::Fetching, PipelineEvent::FetchFailed { error }) => failure(
            Stage::Fetching,
            FailureCause::Fetch(error),
        ),
        (PipelineState::Fetching, PipelineEvent::Cancelled) => failure(
            Stage::Fetching,
            FailureCause::Cancelled,
        ),
        (PipelineState::Transforming { source }, PipelineEvent::Transformed { asset }) => (
            PipelineState::Uploading { source, transformed: asset },
            PipelineAction::Upload { asset },
        ),
        (PipelineState::Transforming { .. }, PipelineEvent::TransformFailed) => failure(
            Stage::Transforming,
            FailureCause::Transform,
        ),
        (PipelineState::Transforming { .. }, PipelineEvent::Cancelled) => failure(
            Stage::Transforming,
            FailureCause::Cancelled,
        ),
        (PipelineState::Uploading { source, transformed }, PipelineEvent::Uploaded) => (
            PipelineState::Done,
            PipelineAction::Cleanup {
                delete_source: if run.delete_source_on_success {
                    Some(source.local_path)
                } else {
                    None
                },
                delete_transformed: if run.delete_transformed_on_success {
                    Some(transformed.local_path)
                } else {
                    None
                },
            },
        ),
        (PipelineState::Uploading { .. }, PipelineEvent::UploadFailed { error }) => failure(
            Stage::Uploading,
            FailureCause::Upload(error),
        ),
        (PipelineState::Uploading { .. }, PipelineEvent::Cancelled) => failure(
            Stage::Uploading,
            FailureCause::Cancelled,
        ),
        (s, _) => (s, PipelineAction::Ignore),
    }
}

/// Start a run: await the fetch of the source.
pub fn pipeline_start(run: &PipelineRun) -> (r: (PipelineState, PipelineAction))
    ensures
        r.0 is Fetching,
        r.1 == (PipelineAction::Fetch { url: run.source_url, dest_dir: run.output_dir }),
{
    (
        PipelineState::Fetching,
        PipelineAction::Fetch { url: run.source_url.clone(), dest_dir: run.output_dir.clone() },
    )
}

/// Advance the run by one stage outcome.
pub fn pipeline_step(run: &PipelineRun, state: PipelineState, event: PipelineEvent) -> (r: (
    PipelineState,
    PipelineAction,
))
    ensures
        r == transition(*run, state, event),
{
    match (state, event) {
        (PipelineState::Fetching, PipelineEvent::Fetched { asset }) => {
            let input_path = asset.local_path.clone();
            (
                PipelineState::Transforming { source: asset },
                PipelineAction::Transform { input_path },
            )
        },
        (PipelineState::Fetching, PipelineEvent::FetchFailed { error }) => report(
            Stage::Fetching,
            FailureCause::Fetch(error),
        ),
        (PipelineState::Fetching, PipelineEvent::Cancelled) => report(
            Stage::Fetching,
            FailureCause::Cancelled,
        ),
        (PipelineState::Transforming { source }, PipelineEvent::Transformed { asset }) => {
            let for_upload = crate::asset::clone_asset(&asset);
            assert(for_upload == asset);
            (
                PipelineState::Uploading { source, transformed: asset },
                PipelineAction::Upload { asset: for_upload },
            )
        },
        (PipelineState::Transforming { .. }, PipelineEvent::TransformFailed) => report(
            Stage::Transforming,
            FailureCause::Transform,
        ),
        (PipelineState::Transforming { .. }, PipelineEvent::Cancelled) => report(
            Stage::Transforming,
            FailureCause::Cancelled,
        ),
        (PipelineState::Uploading { source, transformed }, PipelineEvent::Uploaded) => {
            let delete_source = if run.delete_source_on_success {
                Some(source.local_path)
            } else {
                None
            };
            let delete_transformed = if run.delete_transformed_on_success {
                Some(transformed.local_path)
            } else {
                None
            };
            (PipelineState::Done, PipelineAction::Cleanup { delete_source, delete_transformed })
        },
        (PipelineState::Uploading { .. }, PipelineEvent::UploadFailed { error }) => report(
            Stage::Uploading,
            FailureCause::Upload(error),
        ),
        (PipelineState::Uploading { .. }, PipelineEvent::Cancelled) => report(
            Stage::Uploading,
            FailureCause::Cancelled,
        ),
        (s, _) => (s, PipelineAction::Ignore),
    }
}

/// Build the terminal failure pair.
fn report(stage: Stage, cause: FailureCause) -> (r: (PipelineState, PipelineAction))
    ensures
        r == failure(stage, cause),
{
    (
        PipelineState::Failed { stage, cause },
        PipelineAction::Report { stage, cause },
    )
}

/// Files are deleted only on overall success: the one transition that hands
/// out a cleanup is a successful upload outcome in the uploading stage.
pub proof fn lemma_cleanup_only_on_success(
    run: PipelineRun,
    state: PipelineState,
    event: PipelineEvent,
)
    ensures
        transition(run, state, event).1 matches PipelineAction::Cleanup { .. } ==> (state matches
            PipelineState::Uploading { .. } && event is Uploaded),
{
}

/// Stages are entered strictly in order: a transform is requested only by a
/// successful fetch, an upload only by a successful transform.
pub proof fn lemma_stage_order(run: PipelineRun, state: PipelineState, event: PipelineEvent)
    ensures
        transition(run, state, event).1 matches PipelineAction::Transform { .. } ==> (state
            is Fetching && event matches PipelineEvent::Fetched { .. }),
        transition(run, state, event).1 matches PipelineAction::Upload { .. } ==> (state matches
            PipelineState::Transforming { .. } && event matches PipelineEvent::Transformed { .. }),
{
}

/// A failed fetch ends the run at the fetching stage: the failure is
/// reported, nothing is cleaned up (nothing was created), the terminal
/// state admits no further event, and in particular neither a transform nor
/// an upload is ever requested afterwards.
pub proof fn lemma_fetch_failure_terminal(run: PipelineRun, error: FetchError)
    ensures
        transition(run, PipelineState::Fetching, PipelineEvent::FetchFailed { error }) == failure(
            Stage::Fetching,
            FailureCause::Fetch(error),
        ),
        forall|event: PipelineEvent|
            !event_fits(
                transition(run, PipelineState::Fetching, PipelineEvent::FetchFailed { error }).0,
                event,
            ),
{
}

/// An upload the destination rejects fails the run at the uploading stage
/// with the rejection as cause, and no file is deleted, whatever the run's
/// deletion flags say: cleanup is success-gated only.
pub proof fn lemma_rejection_deletes_nothing(
    run: PipelineRun,
    source: MediaAsset,
    transformed: MediaAsset,
)
    ensures
        transition(
            run,
            PipelineState::Uploading { source, transformed },
            PipelineEvent::UploadFailed { error: UploadError::DestinationRejected },
        ) == failure(
            Stage::Uploading,
            FailureCause::Upload(UploadError::DestinationRejected),
        ),
        !(transition(
            run,
            PipelineState::Uploading { source, transformed },
            PipelineEvent::UploadFailed { error: UploadError::DestinationRejected },
        ).1 matches PipelineAction::Cleanup { .. }),
{
}

/// After a successful upload the run is done and exactly the files whose
/// flag opted in are deleted: the fetched file if and only if
/// `delete_source_on_success`, the re-encoded file if and only if
/// `delete_transformed_on_success`.
pub proof fn lemma_cleanup_follows_flags(
    run: PipelineRun,
    source: MediaAsset,
    transformed: MediaAsset,
)
    ensures
        ({
            let (next, action) = transition(
                run,
                PipelineState::Uploading { source, transformed },
                PipelineEvent::Uploaded,
            );
            next is Done && action == (PipelineAction::Cleanup {
                delete_source: if run.delete_source_on_success {
                    Some(source.local_path)
                } else {
                    None
                },
                delete_transformed: if run.delete_transformed_on_success {
                    Some(transformed.local_path)
                } else {
                    None
                },
            })
        }),
{
}

} // verus!
