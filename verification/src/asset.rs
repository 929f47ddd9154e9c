//! The data carried through a pipeline run.

use vstd::prelude::*;

verus! {

/// A video file flowing through the pipeline. Created by the fetch stage;
/// a transform produces a new asset rather than mutating the original.
/// The file-system backing is owned by the pipeline, which decides deletion.
#[derive(Clone, Debug)]
pub struct MediaAsset {
    /// Path of the file on the local file system.
    pub local_path: String,
    /// Size of the file in bytes.
    pub size_bytes: u64,
    /// Display title of the asset.
    pub title: String,
}

/// One upload attempt: the asset, the caption to attach, and the optional
/// text messages framing the delivery. Constructed once per attempt and not
/// mutated.
#[derive(Clone, Debug)]
pub struct TransferRequest {
    /// The asset to deliver.
    pub asset: MediaAsset,
    /// Caption attached to the asset where the destination supports one.
    pub caption: String,
    /// Standalone text delivered before the asset; skipped when empty.
    pub pre_message: String,
    /// Standalone text delivered after the asset; skipped when empty.
    pub post_message: String,
}

/// Configuration of the re-encode stage. The pipeline treats it as opaque:
/// it only selects which variant the external encoder is driven with.
#[derive(Clone, Copy, Debug, PartialEq, Eq, Structural)]
pub enum EncodingProfile {
    /// Two analysis/encode passes aiming at a target size.
    TwoPass {
        /// Target size of the produced file, in megabytes.
        target_size_mb: u32,
    },
    /// One pass at a constant quality factor.
    SinglePassQuality {
        /// Constant rate factor handed to the encoder.
        crf: u32,
    },
}

/// Path under which the transform stage writes its output for a given
/// input: the input path with a fixed suffix, so concurrent runs working on
/// distinct sources never collide.
pub fn transformed_output_path(input: &str) -> (r: String)
    ensures
        r@ == input@ + "_compressed.mp4"@,
{
    let out = String::from_str(input);
    out.concat("_compressed.mp4")
}

/// Distinct inputs get distinct transform outputs: appending the fixed
/// suffix never makes two different paths collide, so concurrent runs on
/// different sources never write over each other.
pub proof fn lemma_output_paths_distinct(a: Seq<char>, b: Seq<char>)
    requires
        a != b,
    ensures
        a + "_compressed.mp4"@ != b + "_compressed.mp4"@,
{
    let suffix = "_compressed.mp4"@;
    if a + suffix == b + suffix {
        assert((a + suffix).len() == a.len() + suffix.len());
        assert((b + suffix).len() == b.len() + suffix.len());
        assert(a =~= (a + suffix).take(a.len() as int));
        assert(b =~= (b + suffix).take(b.len() as int));
    }
}

/// An asset equal to `a` in every field; what the pipeline hands to a stage
/// while it keeps its own record of the same asset.
pub fn clone_asset(a: &MediaAsset) -> (r: MediaAsset)
    ensures
        r == *a,
{
    MediaAsset {
        local_path: a.local_path.clone(),
        size_bytes: a.size_bytes,
        title: a.title.clone(),
    }
}

} // verus!
