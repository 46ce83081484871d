//! Rich-text annotations of a post body.

use vstd::prelude::*;

verus! {

/// A text segment.  Start is inclusive, end is exclusive.  Indices count
/// bytes of the UTF-8 encoded text.
#[derive(Debug, Clone, PartialEq)]
pub struct ByteSlice {
    pub byte_start: usize,
    pub byte_end: usize,
}

/// What a facet marks inside its segment.
#[derive(Debug, Clone, PartialEq)]
pub enum Features {
    /// A facet feature for actor mentions.
    Mention { did: String },
    /// A facet feature for links.
    Link { uri: String },
}

/// One annotated segment of a post body.
#[derive(Debug, Clone, PartialEq)]
pub struct Facet {
    pub index: ByteSlice,
    pub features: Features,
}

} // verus!
