//! The consumer side: unpacking an archive into an output directory once.
use vstd::prelude::*;
use crate::layout::PART_EXT;
use crate::strings::join2;

verus! {

/// An unpack extracts exactly when the output directory is not there yet.
pub open spec fn unpack_needed(output_exists: bool) -> bool {
    !output_exists
}

/// Whether the archive still has to be extracted into an output directory
/// that does (`true`) or does not exist.
pub fn must_unpack(output_exists: bool) -> (r: bool)
    ensures
        r == unpack_needed(output_exists),
{
    !output_exists
}

/// The scratch directory an extraction writes into before it is renamed to
/// `output`, so that a failed extraction leaves no output directory.
pub fn unpack_scratch_dir(output: &str) -> (r: String)
    ensures
        r@ == output@ + PART_EXT@,
{
    join2(output, PART_EXT)
}

/// Unpacking twice into the same output directory extracts at most once.
/// A call that finds no directory extracts and, on success, leaves the
/// directory in place; a call that finds the directory does nothing.
pub proof fn lemma_unpack_once()
    ensures
        unpack_needed(false),
        !unpack_needed(true),
{
}

} // verus!
