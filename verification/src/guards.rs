//! Which requests are multipart form uploads.

use vstd::prelude::*;
use crate::media::MediaType;
use crate::text::same_text;

verus! {

/// Lets a request through where its content type is `multipart/form-data`.
#[derive(Debug, Clone, Copy)]
pub struct MimeGuard;

/// Whether a declared type is `multipart/form-data`.
pub open spec fn is_form_data(top: Seq<char>, sub: Seq<char>) -> bool {
    sub == "form-data"@ && top == "multipart"@
}

impl MimeGuard {
    /// Whether a request with the given content type is let through: one
    /// without a content type never is.
    pub fn check(&self, content_type: Option<&MediaType>) -> (pass: bool)
        ensures
            pass == match content_type {
                Some(ct) => is_form_data(ct.top@, ct.sub@),
                None => false,
            },
    {
        match content_type {
            Some(ct) => same_text(ct.sub.as_str(), "form-data") && same_text(
                ct.top.as_str(),
                "multipart",
            ),
            None => false,
        }
    }
}

} // verus!
