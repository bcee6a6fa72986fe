//! Models of the texts that the library's values hold.

use vstd::prelude::*;

verus! {

/// The characters of an optional string.
pub open spec fn opt_chars(text: Option<String>) -> Option<Seq<char>> {
    match text {
        Some(s) => Some(s@),
        None => None,
    }
}

/// The characters of a borrowed text that may be absent.
pub open spec fn opt_str_chars(text: Option<&str>) -> Option<Seq<char>> {
    match text {
        Some(s) => Some(s@),
        None => None,
    }
}

/// The characters of each string of a sequence.
pub open spec fn strings(items: Seq<String>) -> Seq<Seq<char>> {
    items.map_values(|item: String| item@)
}

} // verus!
