//! Image encodings a rendition can be served in.

use vstd::prelude::*;

verus! {

/// The encoding of a rendition.
#[derive(Clone, Copy, Debug, PartialEq, Eq, Structural, Hash)]
pub enum ImageFormat {
    Png,
    Jpeg,
    Gif,
    WebP,
}

} // verus!
