//! The machine's model name.

use vstd::prelude::*;
use crate::text::{trim, trim_text};

verus! {

/// The model name for the identity file's content, `None` when the file
/// could not be read: the content trimmed, or `"Unknown"`.
pub fn device_identity(content: Option<String>) -> (r: String)
    ensures
        content is Some ==> r@ == trim(content->0@),
        content is None ==> r@ == "Unknown"@,
{
    match content {
        Some(c) => trim_text(c.as_str()),
        None => "Unknown".to_owned(),
    }
}

} // verus!
