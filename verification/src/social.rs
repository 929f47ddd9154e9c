//! The social destination's two-phase handshake.
//!
//! Phase one asks the platform for an upload destination, supplying the
//! asset's metadata; its answer must name an upload URL, else the transfer
//! fails without attempting phase two. Phase two streams the asset to that
//! URL; a non-success status there is a hard failure, never a silent one.

use vstd::prelude::*;

use crate::errors::{Ack, UploadError};
use crate::json::{json_str_at_path, json_string_field_at};

verus! {

/// Read the upload URL out of the phase-one session response. A response
/// that names none is a rejection by the destination, and phase two is not
/// to be attempted.
pub fn session_upload_url(body: &str) -> (r: Result<String, UploadError>)
    ensures
        ({
            let u = json_str_at_path(body@, "response"@, "upload_url"@);
            match r {
                Ok(url) => u == Some(url@),
                Err(e) => u is None && e == UploadError::DestinationRejected,
            }
        }),
{
    match json_string_field_at(body, "response", "upload_url") {
        Some(url) => Ok(url),
        None => Err(UploadError::DestinationRejected),
    }
}

/// Judge the phase-two answer by its status code: only a success status
/// acknowledges the transfer; anything else is a rejection by the
/// destination.
pub fn upload_status_outcome(status: u16) -> (r: Result<Ack, UploadError>)
    ensures
        200 <= status < 300 ==> r == Ok::<Ack, UploadError>(Ack { requests_delivered: 1 }),
        !(200 <= status < 300) ==> r == Err::<Ack, UploadError>(UploadError::DestinationRejected),
{
    if 200 <= status && status < 300 {
        Ok(Ack { requests_delivered: 1 })
    } else {
        Err(UploadError::DestinationRejected)
    }
}

} // verus!
