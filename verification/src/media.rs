//! The media type that a client declares for what it sends.

use vstd::prelude::*;

verus! {

/// A declared media type, `top/sub`, both parts in lower case as a parsed
/// `Content-Type` header gives them. Either part may be the wildcard `*`.
#[derive(Debug, Clone)]
pub struct MediaType {
    /// The part before the slash, such as `text`.
    pub top: String,
    /// The part after the slash, such as `plain`.
    pub sub: String,
}

} // verus!
