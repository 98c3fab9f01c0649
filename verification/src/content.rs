//! The content classifier: output bytes are binary exactly when a content
//! type is declared and it is not textual.
use vstd::prelude::*;
use crate::config::opt_view;
use crate::text::{str_eq, str_starts_with};

verus! {

/// A MIME type names textual content when it is any `text/*` type, JSON, or
/// XML.
pub open spec fn spec_mime_is_text(m: Seq<char>) -> bool {
    "text/"@.is_prefix_of(m) || m == "application/json"@ || m == "application/xml"@
}

/// Output is binary exactly when a content type is declared and it is not
/// textual; absence of a content type always means text.
pub open spec fn spec_is_binary(ct: Option<Seq<char>>) -> bool {
    match ct {
        Some(m) => !spec_mime_is_text(m),
        None => false,
    }
}

pub fn mime_is_text(m: &str) -> (r: bool)
    ensures
        r == spec_mime_is_text(m@),
{
    str_starts_with(m, "text/") || str_eq(m, "application/json") || str_eq(m, "application/xml")
}

pub fn is_binary_content(ct: &Option<String>) -> (r: bool)
    ensures
        r == spec_is_binary(opt_view(*ct)),
{
    match ct {
        Some(m) => !mime_is_text(m.as_str()),
        None => false,
    }
}

} // verus!
