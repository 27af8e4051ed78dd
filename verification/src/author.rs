//! The user behind an uploaded image.

use vstd::prelude::*;

verus! {

/// Author of the image
///
/// Constains the basic information about the user that has uploaded an image.
#[derive(Debug, Clone, PartialEq, Eq)]
pub struct Author {
    /// Name of the author
    pub name: String,
    /// Steam64 id of the user
    pub steam64: String,
    /// Optional url to the users avatar
    pub avatar: Option<String>,
}

} // verus!
