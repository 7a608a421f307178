//! Enum-related traits and types.
use crate::field_path::{AssertTStrParam, IsTStr};
use vstd::prelude::*;

pub mod variant_proxy;

pub use self::variant_proxy::{EnumExt, VariantProxy};

verus! {

/// Queries whether an enum is the variant named `V`.
pub trait IsVariant<V>: AssertTStrParam<V> {
    spec fn is_variant_spec(&self) -> bool;

    fn is_variant_(&self, variant: V) -> (r: bool)
        ensures
            r == self.is_variant_spec(),
    ;
}

/// The number of variants of an enum, as a type-level string of decimal digits.
pub trait VariantCount {
    type Count: IsTStr;
}

} // verus!
