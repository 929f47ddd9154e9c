//! Interpretation of the fetcher's metadata document.
//!
//! The downloader describes a source video as a JSON document. The fetch
//! stage needs two things from it: the local file the download will
//! produce, without which the fetch cannot proceed, and a display title,
//! which falls back to a fixed placeholder and is cleaned of the short-form
//! marker the source platform appends.

use vstd::prelude::*;

use crate::errors::FetchError;
use crate::json::{json_str_at, json_string_field};
use crate::text::{strip_occurrences, strip_spec};

verus! {

/// What the fetch stage learns from the metadata document.
#[derive(Clone, Debug, PartialEq, Eq)]
pub struct FetchedMetadata {
    /// Path of the file the download produces.
    pub local_path: String,
    /// Cleaned display title of the asset.
    pub title: String,
}

/// The title named by the document, or the placeholder when it names none.
pub open spec fn title_or_default(t: Option<Seq<char>>) -> Seq<char> {
    match t {
        Some(x) => x,
        None => "Unknown Title"@,
    }
}

/// Read the fetcher's metadata document: the filename field must be present
/// and non-empty, else the fetch fails before any download; the title falls
/// back to a placeholder and has every occurrence of the short-form marker
/// removed.
pub fn interpret_fetch_metadata(doc: &str) -> (r: Result<FetchedMetadata, FetchError>)
    ensures
        ({
            let f = json_str_at(doc@, "_filename"@);
            let t = json_str_at(doc@, "title"@);
            match r {
                Ok(info) => (f matches Some(p) && p.len() > 0 && info.local_path@ == p)
                    && info.title@ == strip_spec(title_or_default(t), " #shortvideo"@),
                Err(e) => e == FetchError::MissingFilename && (f is None || (f matches Some(p)
                    && p.len() == 0)),
            }
        }),
{
    let filename = json_string_field(doc, "_filename");
    match filename {
        None => Err(FetchError::MissingFilename),
        Some(p) => {
            if p.as_str().is_empty() {
                Err(FetchError::MissingFilename)
            } else {
                let base = match json_string_field(doc, "title") {
                    Some(t) => t,
                    None => String::from_str("Unknown Title"),
                };
                proof {
                    reveal_strlit(" #shortvideo");
                }
                let title = strip_occurrences(base.as_str(), " #shortvideo");
                Ok(FetchedMetadata { local_path: p, title })
            }
        },
    }
}

} // verus!
