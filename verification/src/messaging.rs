//! The messaging destination's delivery protocol.
//!
//! A messaging transfer is a fixed sequence of requests: an optional
//! pre-message, the asset itself — in one request when it fits under the
//! destination's ceiling, otherwise as the chunk plan — and an optional
//! post-message, all in that order within one conversation. This module
//! computes that sequence and classifies how far a delivery got.

use vstd::prelude::*;

use crate::asset::TransferRequest;
use crate::chunk::{chunk_count, chunk_len, chunk_start, plan_chunks};
use crate::errors::{Ack, UploadError};

verus! {

/// One request of a messaging transfer, in delivery order.
#[derive(Clone, Debug)]
pub enum MessagingStep {
    /// Standalone text sent before the asset.
    Preamble { text: String },
    /// The whole asset in a single request, with its caption.
    WholeAsset { caption: String },
    /// One byte range of the asset, sent as an independent request.
    Chunk { start: u64, len: u64 },
    /// Standalone text sent after the asset.
    Postscript { text: String },
}

/// Mathematical image of a [`MessagingStep`].
pub enum StepView {
    Preamble { text: Seq<char> },
    WholeAsset { caption: Seq<char> },
    Chunk { start: nat, len: nat },
    Postscript { text: Seq<char> },
}

impl View for MessagingStep {
    type V = StepView;

    open spec fn view(&self) -> StepView {
        match self {
            MessagingStep::Preamble { text } => StepView::Preamble { text: text@ },
            MessagingStep::WholeAsset { caption } => StepView::WholeAsset { caption: caption@ },
            MessagingStep::Chunk { start, len } => StepView::Chunk {
                start: *start as nat,
                len: *len as nat,
            },
            MessagingStep::Postscript { text } => StepView::Postscript { text: text@ },
        }
    }
}

/// The request sequence of a messaging transfer for an asset of `size`
/// bytes under a per-request `ceiling`: optional pre-message, then the asset
/// (whole, or chunked when it exceeds the ceiling), then the optional
/// post-message.
pub open spec fn messaging_plan(
    size: nat,
    ceiling: nat,
    caption: Seq<char>,
    pre: Seq<char>,
    post: Seq<char>,
) -> Seq<StepView>
    recommends
        ceiling > 0,
{
    let pre_part: Seq<StepView> = if pre.len() > 0 {
        seq![StepView::Preamble { text: pre }]
    } else {
        seq![]
    };
    let asset_part: Seq<StepView> = if size <= ceiling {
        seq![StepView::WholeAsset { caption }]
    } else {
        Seq::new(
            chunk_count(size, ceiling),
            |i: int|
                StepView::Chunk {
                    start: chunk_start(ceiling, i as nat),
                    len: chunk_len(size, ceiling, i as nat),
                },
        )
    };
    let post_part: Seq<StepView> = if post.len() > 0 {
        seq![StepView::Postscript { text: post }]
    } else {
        seq![]
    };
    pre_part + asset_part + post_part
}

/// Whether a step carries asset bytes (rather than framing text).
pub open spec fn is_asset_step(s: StepView) -> bool {
    s is WholeAsset || s is Chunk
}

/// Number of steps of `plan` that carry asset bytes.
pub open spec fn asset_step_count(plan: Seq<StepView>) -> nat
    decreases plan.len(),
{
    if plan.len() == 0 {
        0
    } else {
        asset_step_count(plan.drop_last()) + if is_asset_step(plan.last()) {
            1 as nat
        } else {
            0 as nat
        }
    }
}

/// Number of steps of `plan` that are chunk submissions.
pub open spec fn chunk_step_count(plan: Seq<StepView>) -> nat
    decreases plan.len(),
{
    if plan.len() == 0 {
        0
    } else {
        chunk_step_count(plan.drop_last()) + if plan.last() is Chunk {
            1 as nat
        } else {
            0 as nat
        }
    }
}

proof fn lemma_counts_singleton(s: StepView)
    ensures
        asset_step_count(seq![s]) == if is_asset_step(s) {
            1 as nat
        } else {
            0 as nat
        },
        chunk_step_count(seq![s]) == if s is Chunk {
            1 as nat
        } else {
            0 as nat
        },
{
    reveal_with_fuel(asset_step_count, 2);
    reveal_with_fuel(chunk_step_count, 2);
    assert(seq![s].drop_last() =~= Seq::<StepView>::empty());
    assert(seq![s].last() == s);
}

proof fn lemma_asset_step_count_concat(a: Seq<StepView>, b: Seq<StepView>)
    ensures
        asset_step_count(a + b) == asset_step_count(a) + asset_step_count(b),
        chunk_step_count(a + b) == chunk_step_count(a) + chunk_step_count(b),
    decreases b.len(),
{
    if b.len() == 0 {
        assert(a + b =~= a);
    } else {
        lemma_asset_step_count_concat(a, b.drop_last());
        assert((a + b).drop_last() =~= a + b.drop_last());
        assert((a + b).last() == b.last());
    }
}

proof fn lemma_chunk_seq_counts(size: nat, ceiling: nat, k: nat)
    requires
        ceiling > 0,
    ensures
        ({
            let chunks = Seq::new(
                k,
                |i: int|
                    StepView::Chunk {
                        start: chunk_start(ceiling, i as nat),
                        len: chunk_len(size, ceiling, i as nat),
                    },
            );
            asset_step_count(chunks) == k && chunk_step_count(chunks) == k
        }),
    decreases k,
{
    let chunks = Seq::new(
        k,
        |i: int|
            StepView::Chunk {
                start: chunk_start(ceiling, i as nat),
                len: chunk_len(size, ceiling, i as nat),
            },
    );
    if k == 0 {
    } else {
        lemma_chunk_seq_counts(size, ceiling, (k - 1) as nat);
        let shorter = Seq::new(
            (k - 1) as nat,
            |i: int|
                StepView::Chunk {
                    start: chunk_start(ceiling, i as nat),
                    len: chunk_len(size, ceiling, i as nat),
                },
        );
        assert(chunks.drop_last() =~= shorter);
    }
}

/// An asset that fits under the ceiling is sent in exactly one request and
/// the chunked sub-protocol is never invoked: its plan holds no chunk step
/// and exactly one asset-carrying step.
pub proof fn lemma_small_asset_single_request(
    size: nat,
    ceiling: nat,
    caption: Seq<char>,
    pre: Seq<char>,
    post: Seq<char>,
)
    requires
        ceiling > 0,
        size <= ceiling,
    ensures
        chunk_step_count(messaging_plan(size, ceiling, caption, pre, post)) == 0,
        asset_step_count(messaging_plan(size, ceiling, caption, pre, post)) == 1,
{
    let pre_part: Seq<StepView> = if pre.len() > 0 {
        seq![StepView::Preamble { text: pre }]
    } else {
        seq![]
    };
    let asset_part: Seq<StepView> = seq![StepView::WholeAsset { caption }];
    let post_part: Seq<StepView> = if post.len() > 0 {
        seq![StepView::Postscript { text: post }]
    } else {
        seq![]
    };
    lemma_asset_step_count_concat(pre_part + asset_part, post_part);
    lemma_asset_step_count_concat(pre_part, asset_part);
    if pre.len() > 0 {
        lemma_counts_singleton(StepView::Preamble { text: pre });
    }
    if post.len() > 0 {
        lemma_counts_singleton(StepView::Postscript { text: post });
    }
    lemma_counts_singleton(StepView::WholeAsset { caption });
}

/// An asset over the ceiling is sent as exactly `ceil(size / ceiling)`
/// chunk requests, and every asset-carrying step of its plan is a chunk.
pub proof fn lemma_large_asset_chunked(
    size: nat,
    ceiling: nat,
    caption: Seq<char>,
    pre: Seq<char>,
    post: Seq<char>,
)
    requires
        ceiling > 0,
        size > ceiling,
    ensures
        chunk_step_count(messaging_plan(size, ceiling, caption, pre, post)) == chunk_count(
            size,
            ceiling,
        ),
        asset_step_count(messaging_plan(size, ceiling, caption, pre, post)) == chunk_count(
            size,
            ceiling,
        ),
{
    let pre_part: Seq<StepView> = if pre.len() > 0 {
        seq![StepView::Preamble { text: pre }]
    } else {
        seq![]
    };
    let asset_part: Seq<StepView> = Seq::new(
        chunk_count(size, ceiling),
        |i: int|
            StepView::Chunk {
                start: chunk_start(ceiling, i as nat),
                len: chunk_len(size, ceiling, i as nat),
            },
    );
    let post_part: Seq<StepView> = if post.len() > 0 {
        seq![StepView::Postscript { text: post }]
    } else {
        seq![]
    };
    lemma_asset_step_count_concat(pre_part + asset_part, post_part);
    lemma_asset_step_count_concat(pre_part, asset_part);
    lemma_chunk_seq_counts(size, ceiling, chunk_count(size, ceiling));
    if pre.len() > 0 {
        lemma_counts_singleton(StepView::Preamble { text: pre });
    }
    if post.len() > 0 {
        lemma_counts_singleton(StepView::Postscript { text: post });
    }
}

/// Compute the request sequence for one messaging transfer. The steps are
/// to be performed strictly in order; a failure at any step aborts the
/// remaining ones.
pub fn messaging_steps(request: &TransferRequest, ceiling: u64) -> (steps: Vec<MessagingStep>)
    requires
        ceiling > 0,
    ensures
        ({
            let plan = messaging_plan(
                request.asset.size_bytes as nat,
                ceiling as nat,
                request.caption@,
                request.pre_message@,
                request.post_message@,
            );
            steps@.len() == plan.len() && (forall|i: int|
                0 <= i < plan.len() ==> (#[trigger] steps@[i])@ == plan[i])
        }),
{
    let ghost plan = messaging_plan(
        request.asset.size_bytes as nat,
        ceiling as nat,
        request.caption@,
        request.pre_message@,
        request.post_message@,
    );
    let ghost pre_part: Seq<StepView> = if request.pre_message@.len() > 0 {
        seq![StepView::Preamble { text: request.pre_message@ }]
    } else {
        seq![]
    };
    let mut steps: Vec<MessagingStep> = Vec::new();
    if !request.pre_message.as_str().is_empty() {
        steps.push(MessagingStep::Preamble { text: request.pre_message.clone() });
    }
    assert(steps@.len() == pre_part.len());
    assert(forall|i: int| 0 <= i < pre_part.len() ==> (#[trigger] steps@[i])@ == plan[i]);
    if request.asset.size_bytes <= ceiling {
        steps.push(MessagingStep::WholeAsset { caption: request.caption.clone() });
    } else {
        let ranges = plan_chunks(request.asset.size_bytes, ceiling);
        let mut i: usize = 0;
        while i < ranges.len()
            invariant
                ceiling > 0,
                request.asset.size_bytes > ceiling,
                ranges@.len() == chunk_count(request.asset.size_bytes as nat, ceiling as nat),
                forall|j: int|
                    0 <= j < ranges@.len() ==> (#[trigger] ranges@[j]).start == chunk_start(
                        ceiling as nat,
                        j as nat,
                    ),
                forall|j: int|
                    0 <= j < ranges@.len() ==> (#[trigger] ranges@[j]).len == chunk_len(
                        request.asset.size_bytes as nat,
                        ceiling as nat,
                        j as nat,
                    ),
                i <= ranges@.len(),
                steps@.len() == pre_part.len() + i,
                pre_part.len() + ranges@.len() + 1 >= plan.len(),
                plan == messaging_plan(
                    request.asset.size_bytes as nat,
                    ceiling as nat,
                    request.caption@,
                    request.pre_message@,
                    request.post_message@,
                ),
                pre_part == (if request.pre_message@.len() > 0 {
                    seq![StepView::Preamble { text: request.pre_message@ }]
                } else {
                    Seq::<StepView>::empty()
                }),
                forall|j: int|
                    0 <= j < steps@.len() ==> (#[trigger] steps@[j])@ == plan[j],
            decreases ranges@.len() - i,
        {
            steps.push(MessagingStep::Chunk { start: ranges[i].start, len: ranges[i].len });
            i = i + 1;
        }
    }
    if !request.post_message.as_str().is_empty() {
        steps.push(MessagingStep::Postscript { text: request.post_message.clone() });
    }
    steps
}

/// Classify how a messaging transfer of `total` requests ended when
/// `delivered` of them were accepted before the first failure (or all were):
/// full delivery acknowledges the transfer; a failure with nothing delivered
/// is a clean network failure; a failure part-way is a partial delivery,
/// reported distinctly because it leaves destination-side residue.
pub fn messaging_outcome(total: u64, delivered: u64) -> (r: Result<Ack, UploadError>)
    requires
        delivered <= total,
    ensures
        delivered == total ==> r == Ok::<Ack, UploadError>(Ack { requests_delivered: total }),
        delivered < total && delivered == 0 ==> r == Err::<Ack, UploadError>(UploadError::Network),
        0 < delivered < total ==> r == Err::<Ack, UploadError>(
            UploadError::PartialDelivery { delivered, total },
        ),
{
    if delivered == total {
        Ok(Ack { requests_delivered: total })
    } else if delivered == 0 {
        Err(UploadError::Network)
    } else {
        Err(UploadError::PartialDelivery { delivered, total })
    }
}

} // verus!
