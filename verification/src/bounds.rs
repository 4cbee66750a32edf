//! Static range checks on const generic parameters.

use vstd::prelude::*;

verus! {

/// Statically checks that `VALUE` lies in the closed range `[MIN, MAX]`.
///
/// The check is the `requires` clause: a call with a value outside the
/// range is rejected when the caller is verified, before any code runs.
pub fn assert_in_range<const VALUE: usize, const MIN: usize, const MAX: usize>()
    requires
        MIN <= VALUE && VALUE <= MAX,
{
}

} // verus!
