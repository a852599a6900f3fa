//! Checked products of sizes.

use vstd::prelude::*;

verus! {

/// The quantity that a checked product stands for.
#[derive(Clone, Copy, Debug, PartialEq, Eq, Structural)]
pub enum Quantity {
    CacheLayoutByteOffset,
    CacheViewByteCount,
    QkvKvHeadCount,
    QkvRowWidth,
    QkvElementCount,
    RopeTableElementCount,
}

/// A product that does not fit a `usize`.
#[derive(Clone, Copy, Debug, PartialEq, Eq, Structural)]
pub struct ProductOverflow {
    pub quantity: Quantity,
}

/// The product of two sizes, or an error that names the quantity where it does not
/// fit a `usize`.
pub fn checked_product(lhs: usize, rhs: usize, quantity: Quantity) -> (result: Result<
    usize,
    ProductOverflow,
>)
    ensures
        match result {
            Ok(product) => product == lhs * rhs,
            Err(error) => lhs * rhs > usize::MAX && error.quantity == quantity,
        },
{
    match lhs.checked_mul(rhs) {
        Some(product) => Ok(product),
        None => Err(ProductOverflow { quantity }),
    }
}

} // verus!
