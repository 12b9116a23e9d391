//! The placeholder token for ownership of the peripherals.

use vstd::prelude::*;

verus! {

/// The private marker that keeps [`Peripherals`] from being built as a
/// struct literal outside this crate.
#[derive(Clone, Copy, PartialEq, Eq, Structural, Debug)]
struct Sealed;

/// All the peripherals.
///
/// An inert marker with no content and no operations: it reserves the shape
/// of a future register-access layer. There is exactly one value of this
/// type.
#[derive(Clone, Copy, PartialEq, Eq, Structural, Debug)]
pub struct Peripherals {
    _0: Sealed,
}

/// The sole value of [`Peripherals`].
pub closed spec fn spec_token() -> Peripherals {
    Peripherals { _0: Sealed }
}

impl Peripherals {
    /// Conjure the token out of thin air.
    ///
    /// The caller is responsible for ensuring that no other code path holds a
    /// claim of exclusive hardware access; nothing here checks it. There is no
    /// register API yet, so today there is nothing to conflict over.
    pub fn steal() -> (p: Peripherals)
        ensures
            p == spec_token(),
    {
        Peripherals { _0: Sealed }
    }
}

/// The token carries no content: any two values of it are equal, so stealing
/// it twice yields two content-equal values.
pub proof fn lemma_tokens_equal(a: Peripherals, b: Peripherals)
    ensures
        a == b,
{
}

} // verus!
