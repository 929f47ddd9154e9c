use vidpipe::dispatch::{classify_message, MessageAction};
use vidpipe::errors::{Ack, UploadError};
use vidpipe::social::{session_upload_url, upload_status_outcome};

#[test]
fn session_response_yields_the_upload_url() {
    let body = r#"{"response": {"upload_url": "https://up.example/video/77"}}"#;
    assert_eq!(session_upload_url(body), Ok(String::from("https://up.example/video/77")));
}

#[test]
fn session_response_without_url_is_a_rejection() {
    assert_eq!(
        session_upload_url(r#"{"response": {}}"#),
        Err(UploadError::DestinationRejected)
    );
    assert_eq!(session_upload_url(r#"{}"#), Err(UploadError::DestinationRejected));
    assert_eq!(session_upload_url("garbage"), Err(UploadError::DestinationRejected));
}

#[test]
fn only_success_statuses_acknowledge() {
    assert_eq!(upload_status_outcome(200), Ok(Ack { requests_delivered: 1 }));
    assert_eq!(upload_status_outcome(299), Ok(Ack { requests_delivered: 1 }));
    assert_eq!(upload_status_outcome(199), Err(UploadError::DestinationRejected));
    assert_eq!(upload_status_outcome(300), Err(UploadError::DestinationRejected));
    assert_eq!(upload_status_outcome(404), Err(UploadError::DestinationRejected));
    assert_eq!(upload_status_outcome(500), Err(UploadError::DestinationRejected));
}

#[test]
fn unauthorized_senders_are_refused() {
    let allowed = vec![1, 2, 3];
    assert!(matches!(
        classify_message(9, &allowed, "/start"),
        MessageAction::Refuse
    ));
}

#[test]
fn commands_are_answered() {
    let allowed = vec![7];
    assert!(matches!(classify_message(7, &allowed, "/start"), MessageAction::Welcome));
    assert!(matches!(classify_message(7, &allowed, "/help"), MessageAction::ShowHelp));
}

#[test]
fn a_link_in_free_text_starts_a_run() {
    let allowed = vec![7];
    let text = "please do https://www.youtube.com/watch?v=abc_123 soon";
    match classify_message(7, &allowed, text) {
        MessageAction::Process { url } => {
            assert_eq!(url, "https://www.youtube.com/watch?v=abc_123")
        }
        other => panic!("expected a run to start, got {:?}", other),
    }
    match classify_message(7, &allowed, "youtu.be/xyz-9") {
        MessageAction::Process { url } => assert_eq!(url, "youtu.be/xyz-9"),
        other => panic!("expected a run to start, got {:?}", other),
    }
}

#[test]
fn text_without_a_link_asks_for_one() {
    let allowed = vec![7];
    assert!(matches!(
        classify_message(7, &allowed, "hello there"),
        MessageAction::Clarify
    ));
}
