//! Processing options attached to a request.
//!
//! The decoder's full option set is a large external value; the cache only
//! ever compares options for equality when forming keys, and the raw-input
//! panel reads the mosaic-pattern fields.  This type therefore holds those
//! fields as plain values, plus a digest standing for everything else the
//! decoder may vary.

use vstd::prelude::*;

verus! {

/// The raw-input stage settings the interface reads and edits.
#[derive(Clone, Copy, Debug, PartialEq, Eq, Hash, Structural)]
pub struct GoFloatOps {
    /// Whether the source is a color-filter-array (mosaic) image; a
    /// grayscale source has no mosaic pattern.
    pub is_cfa: bool,
    pub crop_top: usize,
    pub crop_left: usize,
    pub crop_right: usize,
    pub crop_bottom: usize,
}

/// The demosaic stage settings the interface reads and edits.
#[derive(Debug, PartialEq, Eq, Hash)]
pub struct DemosaicOps {
    /// The color-filter-array pattern, written out one letter per cell.
    pub cfa: String,
}

impl Clone for DemosaicOps {
    fn clone(&self) -> (res: Self)
        ensures
            res == *self,
    {
        DemosaicOps { cfa: self.cfa.clone() }
    }
}

/// One full set of processing options, as the cache keys and compares them.
#[derive(Debug, PartialEq, Eq, Hash)]
pub struct ProcOps {
    pub gofloat: GoFloatOps,
    pub demosaic: DemosaicOps,
    /// Digest standing for every remaining decoder parameter; two option
    /// sets with different remaining parameters carry different digests.
    pub extra: u64,
}

impl Clone for ProcOps {
    fn clone(&self) -> (res: Self)
        ensures
            res == *self,
    {
        ProcOps {
            gofloat: self.gofloat,
            demosaic: self.demosaic.clone(),
            extra: self.extra,
        }
    }
}

/// Mathematical value of a `ProcOps`.
#[verifier::ext_equal]
pub struct OpsView {
    pub gofloat: GoFloatOps,
    pub cfa: Seq<char>,
    pub extra: u64,
}

impl View for ProcOps {
    type V = OpsView;

    open spec fn view(&self) -> OpsView {
        OpsView { gofloat: self.gofloat, cfa: self.demosaic.cfa@, extra: self.extra }
    }
}

/// Mathematical value of an optional option set.
pub open spec fn opt_ops_view(ops: Option<ProcOps>) -> Option<OpsView> {
    match ops {
        Some(o) => Some(o@),
        None => None,
    }
}

} // verus!
