//! Requests and cache keys.
//!
//! A `RequestedImage` carries the raw viewport dimensions; the derived
//! `CacheKey` replaces them with their resolution level, which is what lets
//! many distinct pixel-dimension requests collapse onto one cache entry.

use vstd::prelude::*;

use crate::bucket::bucket_of;
use crate::bucket::find_level;
use crate::ops::opt_ops_view;
use crate::ops::OpsView;
use crate::ops::ProcOps;

verus! {

/// A lookup request: a file, the desired pixel dimensions, and optional
/// processing options (`None` means "let the decoder choose defaults").
#[derive(Debug, PartialEq, Eq, Hash)]
pub struct RequestedImage {
    pub file: String,
    pub width: u32,
    pub height: u32,
    pub ops: Option<ProcOps>,
}

impl Clone for RequestedImage {
    fn clone(&self) -> (res: Self)
        ensures
            res == *self,
    {
        RequestedImage {
            file: self.file.clone(),
            width: self.width,
            height: self.height,
            ops: match &self.ops {
                Some(o) => Some(o.clone()),
                None => None,
            },
        }
    }
}

/// Mathematical value of a `RequestedImage`.
#[verifier::ext_equal]
pub struct ReqView {
    pub file: Seq<char>,
    pub width: u32,
    pub height: u32,
    pub ops: Option<OpsView>,
}

impl View for RequestedImage {
    type V = ReqView;

    open spec fn view(&self) -> ReqView {
        ReqView {
            file: self.file@,
            width: self.width,
            height: self.height,
            ops: opt_ops_view(self.ops),
        }
    }
}

/// A cache key: the request with its dimensions quantized to a level.
#[derive(Clone, Debug, PartialEq, Eq, Hash)]
pub struct CacheKey {
    pub file: String,
    pub level: usize,
    pub ops: Option<ProcOps>,
}

/// Mathematical value of a `CacheKey`.
#[verifier::ext_equal]
pub struct KeyView {
    pub file: Seq<char>,
    pub level: int,
    pub ops: Option<OpsView>,
}

impl View for CacheKey {
    type V = KeyView;

    open spec fn view(&self) -> KeyView {
        KeyView { file: self.file@, level: self.level as int, ops: opt_ops_view(self.ops) }
    }
}

/// The key a request resolves to.
pub open spec fn key_of(req: ReqView) -> KeyView {
    KeyView {
        file: req.file,
        level: bucket_of(req.width as int, req.height as int),
        ops: req.ops,
    }
}

impl CacheKey {
    /// Derives the key for a request by bucketing its dimensions.
    pub fn from_request(req: RequestedImage) -> (k: Self)
        ensures
            k@ == key_of(req@),
    {
        let level = find_level(req.width, req.height);
        CacheKey { level, file: req.file, ops: req.ops }
    }
}

} // verus!
