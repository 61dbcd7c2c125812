use crate::channel::patterns::{ansi_pattern, without_matches, ANSI_PATTERN};
use vstd::prelude::*;

verus! {

/// Strips ANSI escape sequences out of the given byte slice.
pub fn strip_ansi(b: &[u8]) -> (r: Vec<u8>)
    ensures
        r@ == without_matches(ANSI_PATTERN@, b@),
{
    ansi_pattern().remove_all(b)
}

} // verus!
