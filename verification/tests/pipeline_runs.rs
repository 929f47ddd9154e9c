use vidpipe::asset::MediaAsset;
use vidpipe::errors::{FailureCause, FetchError, Stage, UploadError};
use vidpipe::pipeline::{
    pipeline_start, pipeline_step, PipelineAction, PipelineEvent, PipelineRun, PipelineState,
};

fn run(delete_source: bool, delete_transformed: bool) -> PipelineRun {
    PipelineRun {
        source_url: String::from("https://source.example/v"),
        output_dir: String::from("./videos"),
        delete_source_on_success: delete_source,
        delete_transformed_on_success: delete_transformed,
    }
}

fn asset(path: &str) -> MediaAsset {
    MediaAsset {
        local_path: String::from(path),
        size_bytes: 1_000,
        title: String::from("A title"),
    }
}

#[test]
fn fetch_failure_ends_the_run_without_later_stages() {
    let run = run(true, true);
    let (state, first_action) = pipeline_start(&run);
    let mut transform_calls = 0;
    let mut upload_calls = 0;
    let mut actions = vec![first_action];
    let (state, action) = pipeline_step(
        &run,
        state,
        PipelineEvent::FetchFailed { error: FetchError::SourceUnreachable },
    );
    actions.push(action);
    for a in &actions {
        match a {
            PipelineAction::Transform { .. } => transform_calls += 1,
            PipelineAction::Upload { .. } => upload_calls += 1,
            _ => {}
        }
    }
    assert_eq!(transform_calls, 0);
    assert_eq!(upload_calls, 0);
    match state {
        PipelineState::Failed { stage, cause } => {
            assert_eq!(stage, Stage::Fetching);
            assert_eq!(cause, FailureCause::Fetch(FetchError::SourceUnreachable));
        }
        other => panic!("expected a failed run, got {:?}", other),
    }
    assert!(matches!(&actions[1], PipelineAction::Report { .. }));
}

#[test]
fn successful_run_deletes_exactly_the_flagged_files() {
    let run = run(true, false);
    let (state, _) = pipeline_start(&run);
    let (state, action) =
        pipeline_step(&run, state, PipelineEvent::Fetched { asset: asset("./videos/a.mp4") });
    match &action {
        PipelineAction::Transform { input_path } => assert_eq!(input_path, "./videos/a.mp4"),
        other => panic!("expected a transform action, got {:?}", other),
    }
    let (state, action) = pipeline_step(
        &run,
        state,
        PipelineEvent::Transformed { asset: asset("./videos/a.mp4_compressed.mp4") },
    );
    match &action {
        PipelineAction::Upload { asset } => {
            assert_eq!(asset.local_path, "./videos/a.mp4_compressed.mp4")
        }
        other => panic!("expected an upload action, got {:?}", other),
    }
    let (state, action) = pipeline_step(&run, state, PipelineEvent::Uploaded);
    assert!(matches!(state, PipelineState::Done));

    // Apply the cleanup to a simulated file system and check what survives.
    let mut files = vec![
        String::from("./videos/a.mp4"),
        String::from("./videos/a.mp4_compressed.mp4"),
    ];
    match action {
        PipelineAction::Cleanup { delete_source, delete_transformed } => {
            assert_eq!(delete_source.as_deref(), Some("./videos/a.mp4"));
            assert_eq!(delete_transformed, None);
            for doomed in [delete_source, delete_transformed].into_iter().flatten() {
                files.retain(|f| *f != doomed);
            }
        }
        other => panic!("expected a cleanup action, got {:?}", other),
    }
    assert!(!files.contains(&String::from("./videos/a.mp4")));
    assert!(files.contains(&String::from("./videos/a.mp4_compressed.mp4")));
}

#[test]
fn rejected_upload_fails_the_run_and_deletes_nothing() {
    // Both deletion flags set: cleanup is still success-gated.
    let run = run(true, true);
    let (state, _) = pipeline_start(&run);
    let (state, _) =
        pipeline_step(&run, state, PipelineEvent::Fetched { asset: asset("./videos/a.mp4") });
    let (state, _) = pipeline_step(
        &run,
        state,
        PipelineEvent::Transformed { asset: asset("./videos/a.mp4_compressed.mp4") },
    );
    let (state, action) = pipeline_step(
        &run,
        state,
        PipelineEvent::UploadFailed { error: UploadError::DestinationRejected },
    );
    match state {
        PipelineState::Failed { stage, cause } => {
            assert_eq!(stage, Stage::Uploading);
            assert_eq!(cause, FailureCause::Upload(UploadError::DestinationRejected));
        }
        other => panic!("expected a failed run, got {:?}", other),
    }
    assert!(!matches!(&action, PipelineAction::Cleanup { .. }));
    assert!(matches!(&action, PipelineAction::Report { .. }));
}

#[test]
fn transform_failure_leaves_the_fetched_file() {
    let run = run(true, true);
    let (state, _) = pipeline_start(&run);
    let (state, _) =
        pipeline_step(&run, state, PipelineEvent::Fetched { asset: asset("./videos/a.mp4") });
    let (state, action) = pipeline_step(&run, state, PipelineEvent::TransformFailed);
    match state {
        PipelineState::Failed { stage, cause } => {
            assert_eq!(stage, Stage::Transforming);
            assert_eq!(cause, FailureCause::Transform);
        }
        other => panic!("expected a failed run, got {:?}", other),
    }
    assert!(!matches!(&action, PipelineAction::Cleanup { .. }));
}

#[test]
fn cancellation_is_tagged_with_the_current_stage() {
    let run = run(false, false);
    let (state, _) = pipeline_start(&run);
    let (state, _) =
        pipeline_step(&run, state, PipelineEvent::Fetched { asset: asset("./videos/a.mp4") });
    let (state, action) = pipeline_step(&run, state, PipelineEvent::Cancelled);
    match state {
        PipelineState::Failed { stage, cause } => {
            assert_eq!(stage, Stage::Transforming);
            assert_eq!(cause, FailureCause::Cancelled);
        }
        other => panic!("expected a failed run, got {:?}", other),
    }
    assert!(matches!(&action, PipelineAction::Report { .. }));
}

#[test]
fn start_asks_for_the_fetch() {
    let run = run(false, false);
    let (state, action) = pipeline_start(&run);
    assert!(matches!(state, PipelineState::Fetching));
    match action {
        PipelineAction::Fetch { url, dest_dir } => {
            assert_eq!(url, "https://source.example/v");
            assert_eq!(dest_dir, "./videos");
        }
        other => panic!("expected a fetch action, got {:?}", other),
    }
}
