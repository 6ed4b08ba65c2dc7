//! Decoded results and the values exchanged with the decoding pipeline.

use std::sync::Arc;
use vstd::prelude::*;

use crate::ops::opt_ops_view;
use crate::ops::OpsView;
use crate::ops::ProcOps;

verus! {

/// A decoded bitmap: tightly packed 8-bit RGB rows.
#[derive(Clone, Debug)]
pub struct Bitmap {
    pub data: Vec<u8>,
    pub width: usize,
    pub height: usize,
}

/// Mathematical value of a `Bitmap`.
#[verifier::ext_equal]
pub struct BitmapView {
    pub data: Seq<u8>,
    pub width: usize,
    pub height: usize,
}

impl View for Bitmap {
    type V = BitmapView;

    open spec fn view(&self) -> BitmapView {
        BitmapView { data: self.data@, width: self.width, height: self.height }
    }
}

impl BitmapView {
    /// A well-formed bitmap holds exactly three bytes per pixel.
    pub open spec fn wf(self) -> bool {
        self.data.len() == self.width * self.height * 3
    }
}

/// The cached value: the decoded bitmap, the options the decoder actually
/// applied, the options it would have chosen on its own, and the resolution
/// bound the decode honored (`u32::MAX` when the bitmap is already native
/// size, so the caller knows not to ask for a larger one).
#[derive(Clone, Debug)]
pub struct ImageOutput {
    pub image: Bitmap,
    pub ops: ProcOps,
    pub default_ops: ProcOps,
    pub maxwidth: u32,
    pub maxheight: u32,
}

/// Mathematical value of an `ImageOutput`.
#[verifier::ext_equal]
pub struct OutputView {
    pub image: BitmapView,
    pub ops: OpsView,
    pub default_ops: OpsView,
    pub maxwidth: u32,
    pub maxheight: u32,
}

impl View for ImageOutput {
    type V = OutputView;

    open spec fn view(&self) -> OutputView {
        OutputView {
            image: self.image@,
            ops: self.ops@,
            default_ops: self.default_ops@,
            maxwidth: self.maxwidth,
            maxheight: self.maxheight,
        }
    }
}

/// The response handed back for a request: the file it concerns and, when
/// decoding succeeded, the shared decoded output.
#[derive(Clone, Debug)]
pub struct ImageResult {
    pub file: String,
    pub image: Option<Arc<ImageOutput>>,
}

/// Mathematical value of an `ImageResult`.
#[verifier::ext_equal]
pub struct ResultView {
    pub file: Seq<char>,
    pub image: Option<OutputView>,
}

impl View for ImageResult {
    type V = ResultView;

    open spec fn view(&self) -> ResultView {
        ResultView {
            file: self.file@,
            image: match self.image {
                Some(out) => Some(out@),
                None => None,
            },
        }
    }
}

/// One stored cache entry: a computation may be in flight, finished, or
/// known to have failed.  Keeping the three states apart lets a reader
/// tell "still computing" from "permanently broken".
#[derive(Clone, Debug)]
pub enum CacheEntry {
    /// A guard written at miss time, so a second lookup for the same key
    /// sees work in flight instead of re-triggering the decode.
    Pending,
    Ready(Arc<ImageOutput>),
    Failed,
}

/// Mathematical value of a `CacheEntry`.
#[verifier::ext_equal]
pub enum EntryView {
    Pending,
    Ready(OutputView),
    Failed,
}

impl View for CacheEntry {
    type V = EntryView;

    open spec fn view(&self) -> EntryView {
        match self {
            CacheEntry::Pending => EntryView::Pending,
            CacheEntry::Ready(out) => EntryView::Ready(out@),
            CacheEntry::Failed => EntryView::Failed,
        }
    }
}

/// What the caller must hand to the decoding pipeline to service a miss.
#[derive(Clone, Debug)]
pub struct PipelineRequest {
    pub file: String,
    /// Width bound for the decode; 0 means unbounded (native size).
    pub maxwidth: u32,
    /// Height bound for the decode; 0 means unbounded.
    pub maxheight: u32,
    /// Options to force on the decoder; `None` lets it choose defaults.
    pub ops: Option<ProcOps>,
}

/// Mathematical value of a `PipelineRequest`.
#[verifier::ext_equal]
pub struct PipeReqView {
    pub file: Seq<char>,
    pub maxwidth: u32,
    pub maxheight: u32,
    pub ops: Option<OpsView>,
}

impl View for PipelineRequest {
    type V = PipeReqView;

    open spec fn view(&self) -> PipeReqView {
        PipeReqView {
            file: self.file@,
            maxwidth: self.maxwidth,
            maxheight: self.maxheight,
            ops: opt_ops_view(self.ops),
        }
    }
}

/// What came back from the decoding pipeline for one request.
#[derive(Clone, Debug)]
pub enum PipelineOutcome {
    /// A decoded bitmap, the options actually applied, and the options the
    /// decoder would have chosen on its own.
    Decoded { image: Bitmap, ops: ProcOps, default_ops: ProcOps },
    /// The file could not be read or processed.
    Failed,
}

/// Mathematical value of a `PipelineOutcome`.
#[verifier::ext_equal]
pub enum OutcomeView {
    Decoded { image: BitmapView, ops: OpsView, default_ops: OpsView },
    Failed,
}

impl View for PipelineOutcome {
    type V = OutcomeView;

    open spec fn view(&self) -> OutcomeView {
        match self {
            PipelineOutcome::Decoded { image, ops, default_ops } => OutcomeView::Decoded {
                image: image@,
                ops: ops@,
                default_ops: default_ops@,
            },
            PipelineOutcome::Failed => OutcomeView::Failed,
        }
    }
}

/// What a lookup found: a finished result, work already in flight, a key
/// known to be broken, or a miss the caller must service by running the
/// pipeline and then calling `complete`.
#[derive(Clone, Debug)]
pub enum GetOutcome {
    Hit(ImageResult),
    Pending(String),
    Failed(String),
    Miss(PipelineRequest),
}

/// Mathematical value of a `GetOutcome`.
#[verifier::ext_equal]
pub enum GetOutcomeView {
    Hit(ResultView),
    Pending(Seq<char>),
    Failed(Seq<char>),
    Miss(PipeReqView),
}

impl View for GetOutcome {
    type V = GetOutcomeView;

    open spec fn view(&self) -> GetOutcomeView {
        match self {
            GetOutcome::Hit(res) => GetOutcomeView::Hit(res@),
            GetOutcome::Pending(file) => GetOutcomeView::Pending(file@),
            GetOutcome::Failed(file) => GetOutcomeView::Failed(file@),
            GetOutcome::Miss(preq) => GetOutcomeView::Miss(preq@),
        }
    }
}

} // verus!
