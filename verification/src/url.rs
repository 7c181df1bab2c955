//! Urls together with their depth.

use vstd::prelude::*;
use crate::depth::DepthDescriptor;

verus! {

/// An url and its depth relative to the seed it was found from.
#[derive(Debug)]
pub struct UrlWithDepth {
    pub url: String,
    pub depth: DepthDescriptor,
}

impl UrlWithDepth {
    pub fn new(url: String, depth: DepthDescriptor) -> (r: Self)
        ensures r.url == url, r.depth == depth,
    {
        Self { url, depth }
    }

    /// The depth of the url.
    pub fn depth(&self) -> (r: &DepthDescriptor)
        ensures *r == self.depth,
    {
        &self.depth
    }

    /// The url as text.
    pub fn as_str(&self) -> (r: &str)
        ensures r@ == self.url@,
    {
        self.url.as_str()
    }
}

} // verus!
