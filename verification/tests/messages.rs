use vidpipe::asset::{MediaAsset, TransferRequest};
use vidpipe::errors::{Ack, UploadError};
use vidpipe::messaging::{messaging_outcome, messaging_steps, MessagingStep};

fn request(size: u64, caption: &str, pre: &str, post: &str) -> TransferRequest {
    TransferRequest {
        asset: MediaAsset {
            local_path: String::from("/tmp/video.mp4"),
            size_bytes: size,
            title: String::from("A title"),
        },
        caption: String::from(caption),
        pre_message: String::from(pre),
        post_message: String::from(post),
    }
}

#[test]
fn small_asset_is_one_request() {
    let steps = messaging_steps(&request(10, "cap", "", ""), 45);
    assert_eq!(steps.len(), 1);
    match &steps[0] {
        MessagingStep::WholeAsset { caption } => assert_eq!(caption, "cap"),
        other => panic!("expected a whole-asset step, got {:?}", other),
    }
}

#[test]
fn small_asset_with_framing_messages() {
    let steps = messaging_steps(&request(10, "cap", "before", "after"), 45);
    assert_eq!(steps.len(), 3);
    match &steps[0] {
        MessagingStep::Preamble { text } => assert_eq!(text, "before"),
        other => panic!("expected the pre-message first, got {:?}", other),
    }
    assert!(matches!(&steps[1], MessagingStep::WholeAsset { .. }));
    match &steps[2] {
        MessagingStep::Postscript { text } => assert_eq!(text, "after"),
        other => panic!("expected the post-message last, got {:?}", other),
    }
}

#[test]
fn large_asset_is_chunked_in_order() {
    let steps = messaging_steps(&request(100, "cap", "", ""), 40);
    assert_eq!(steps.len(), 3);
    let expected = [(0u64, 40u64), (40, 40), (80, 20)];
    for (step, (start, len)) in steps.iter().zip(expected) {
        match step {
            MessagingStep::Chunk { start: s, len: l } => {
                assert_eq!((*s, *l), (start, len));
            }
            other => panic!("expected a chunk step, got {:?}", other),
        }
    }
}

#[test]
fn large_asset_keeps_framing_order() {
    let steps = messaging_steps(&request(100, "cap", "first", "last"), 40);
    assert_eq!(steps.len(), 5);
    assert!(matches!(&steps[0], MessagingStep::Preamble { .. }));
    assert!(matches!(&steps[1], MessagingStep::Chunk { start: 0, len: 40 }));
    assert!(matches!(&steps[2], MessagingStep::Chunk { start: 40, len: 40 }));
    assert!(matches!(&steps[3], MessagingStep::Chunk { start: 80, len: 20 }));
    assert!(matches!(&steps[4], MessagingStep::Postscript { .. }));
}

#[test]
fn full_delivery_is_acknowledged() {
    assert_eq!(messaging_outcome(5, 5), Ok(Ack { requests_delivered: 5 }));
}

#[test]
fn nothing_delivered_is_a_network_failure() {
    assert_eq!(messaging_outcome(5, 0), Err(UploadError::Network));
}

#[test]
fn partial_delivery_is_reported_distinctly() {
    assert_eq!(
        messaging_outcome(7, 3),
        Err(UploadError::PartialDelivery { delivered: 3, total: 7 })
    );
}
