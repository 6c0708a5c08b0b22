//! Decision logic behind the three interactive prompts.
//!
//! The prompts themselves are terminal work and live outside the library;
//! these functions take the operator's raw answers as plain values and
//! decide what each answer means: which glyph a selection picks, whether a
//! title is acceptable, and whether a body line counts as a body at all.

use vstd::prelude::*;

use crate::catalog::EmojiEntry;

verus! {

/// The glyph that a selection at `index` picks out of the catalog:
/// `Some` of that entry's glyph when the index is in range, `None`
/// otherwise.
pub fn select_glyph(catalog: &Vec<EmojiEntry>, index: usize) -> (r: Option<String>)
    ensures
        match r {
            Some(g) => index < catalog@.len() && g@ == catalog@[index as int]@.glyph,
            None => index >= catalog@.len(),
        },
{
    if index < catalog.len() {
        Some(catalog[index].glyph.clone())
    } else {
        None
    }
}

/// Accepts a title answer only when it is non-empty: `Some` of the input
/// unchanged for a non-empty line, `None` for an empty one, which the
/// prompt loop answers by asking again.
pub fn accept_title(input: String) -> (r: Option<String>)
    ensures
        r is None <==> input@.len() == 0,
        r matches Some(t) ==> t == input,
{
    if input.as_str().is_empty() {
        None
    } else {
        Some(input)
    }
}

/// Maps a body answer to an optional body: the empty line means "no
/// body" (`None`), any other line is kept as `Some` of itself.
pub fn accept_body(input: String) -> (r: Option<String>)
    ensures
        r is None <==> input@.len() == 0,
        r matches Some(b) ==> b == input,
{
    if input.as_str().is_empty() {
        None
    } else {
        Some(input)
    }
}

} // verus!
