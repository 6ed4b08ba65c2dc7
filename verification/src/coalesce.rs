//! Request coalescing for the cache worker.
//!
//! The worker blocks for one request, then drains whatever else is already
//! queued and keeps only the most recent request: only the freshest request
//! of a burst is ever serviced, so the result reflects the current
//! interface state; superseded requests are dropped without any decode or
//! publication of their own.

use vstd::prelude::*;

use crate::request::RequestedImage;

verus! {

/// Of one received request and the backlog drained after it, the request
/// that is to be serviced: the last of the backlog, or the received one
/// when nothing else was queued.  Every other request is discarded.
pub fn latest_request(first: RequestedImage, backlog: Vec<RequestedImage>) -> (r: RequestedImage)
    ensures
        r == if backlog@.len() == 0 {
            first
        } else {
            backlog@.last()
        },
{
    let mut rest = backlog;
    match rest.pop() {
        Some(r) => r,
        None => first,
    }
}

} // verus!
