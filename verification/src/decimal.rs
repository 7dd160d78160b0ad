//! Fixed-point amounts.
//!
//! Amounts, prices and balances are `scrypto` decimals: signed 192-bit counts
//! of attos, where one unit is `10^18` attos. The arithmetic is `scrypto`'s;
//! this module states what the rest of the crate relies on.

use scrypto::math::CheckedAdd;
use scrypto::math::CheckedSub;
use scrypto::math::Decimal;
use scrypto::math::I192;
use vstd::prelude::*;

verus! {

/// `scrypto::math::Decimal`, carried as an opaque value.
#[verifier::external_type_specification]
#[verifier::external_body]
pub struct ExDecimal(Decimal);

/// The number of attos (`10^-18` units) that a decimal holds: what
/// `Decimal::attos` returns, read as a mathematical integer.
pub uninterp spec fn attos(d: Decimal) -> int;

/// The number of attos in one unit.
pub open spec fn attos_per_unit() -> int {
    1_000_000_000_000_000_000int
}

/// The largest number of attos a decimal can hold, `2^191 - 1`.
pub open spec fn max_attos() -> int {
    0x7fff_ffff_ffff_ffff_ffff_ffff_ffff_ffff_ffff_ffff_ffff_ffffint
}

/// The smallest number of attos a decimal can hold, `-2^191`.
pub open spec fn min_attos() -> int {
    -0x8000_0000_0000_0000_0000_0000_0000_0000_0000_0000_0000_0000int
}

/// Whether a number of attos fits in a decimal.
pub open spec fn representable(v: int) -> bool {
    min_attos() <= v <= max_attos()
}

/// Calls `Decimal::from_attos` on the 192-bit widening of `v`. The result
/// holds exactly `v` attos; every `i128` fits.
#[verifier::external_body]
pub(crate) fn from_attos(v: i128) -> (d: Decimal)
    ensures
        attos(d) == v,
{
    Decimal::from_attos(I192::from(v))
}

/// Calls `>=` of `Decimal`, which orders decimals by their attos.
#[verifier::external_body]
pub(crate) fn at_least(a: &Decimal, b: &Decimal) -> (r: bool)
    ensures
        r == (attos(*a) >= attos(*b)),
{
    a >= b
}

/// Calls `Decimal::checked_add`. The result is the exact sum when the sum is
/// representable, and `None` otherwise.
#[verifier::external_body]
pub(crate) fn checked_sum(a: Decimal, b: Decimal) -> (r: Option<Decimal>)
    ensures
        r is Some <==> representable(attos(a) + attos(b)),
        r matches Some(c) ==> attos(c) == attos(a) + attos(b),
{
    a.checked_add(b)
}

/// Calls `Decimal::checked_sub`. The result is the exact difference when the
/// difference is representable, and `None` otherwise.
#[verifier::external_body]
pub(crate) fn checked_difference(a: Decimal, b: Decimal) -> (r: Option<Decimal>)
    ensures
        r is Some <==> representable(attos(a) - attos(b)),
        r matches Some(c) ==> attos(c) == attos(a) - attos(b),
{
    a.checked_sub(b)
}

} // verus!
