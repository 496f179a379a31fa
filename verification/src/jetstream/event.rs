//! The record shapes of the earlier event model, still used where a post is
//! read as a whole.

use vstd::prelude::*;

verus! {

/// The operation of a commit.
#[derive(Debug, Clone, Copy, PartialEq, Eq)]
pub enum Operation {
    Create,
    Update,
    Delete,
}

/// A post record.
#[derive(Debug, Clone)]
pub struct PostRecord {
    pub text: String,
    pub created_at: String,
    pub facets: Vec<Facet>,
}

/// A rich-text facet of a post.
#[derive(Debug, Clone)]
pub struct Facet {
    pub index: ByteSlice,
    pub features: Vec<FacetFeature>,
}

/// A byte range of a post's text.
#[derive(Debug, Clone, Copy)]
pub struct ByteSlice {
    pub byte_start: usize,
    pub byte_end: usize,
}

/// What a facet marks.
#[derive(Debug, Clone)]
pub enum FacetFeature {
    Mention { did: String },
    Link { uri: String },
    Tag { tag: String },
}

} // verus!
