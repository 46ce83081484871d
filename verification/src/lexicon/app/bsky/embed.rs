//! Media embedded in posts.

use crate::lexicon::com::atproto::repo::Blob;
use vstd::prelude::*;

verus! {

/// An image attached to a post.
#[derive(Debug, Clone, PartialEq)]
pub struct Image {
    pub image: Blob,
    pub alt: String,
}

/// An external link card attached to a post.
#[derive(Debug, Clone, PartialEq)]
pub struct External {
    pub uri: String,
    pub title: String,
    pub description: String,
}

} // verus!
