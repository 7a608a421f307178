//! Accessors for the variants of `Option` and `Result`: the variants `Some`,
//! `None`, `Ok` and `Err`, and the field `0` of each variant that has one.
use crate::enums::{IsVariant, VariantCount};
use crate::field::{FieldType, GetVariantField, GetVariantFieldMut, IntoVariantField};
use crate::field_path::names::{Str_0, Str_2, Str_Err, Str_None, Str_Ok, Str_Some};
use crate::field_path::{TStr, VariantField};
use vstd::prelude::*;

verus! {

impl<T> VariantCount for Option<T> {
    type Count = TStr<Str_2>;
}

impl<T> IsVariant<TStr<Str_Some>> for Option<T> {
    open spec fn is_variant_spec(&self) -> bool {
        *self is Some
    }

    fn is_variant_(&self, variant: TStr<Str_Some>) -> (r: bool) {
        match self {
            Option::Some(..) => true,
            _ => false,
        }
    }
}

impl<T> FieldType<VariantField<TStr<Str_Some>, TStr<Str_0>>> for Option<T> {
    type Ty = T;
}

impl<T> GetVariantField<TStr<Str_Some>, TStr<Str_0>> for Option<T> {
    open spec fn get_vfield_spec(&self) -> Option<&T> {
        match self {
            Option::Some(x) => Some(x),
            _ => None,
        }
    }

    proof fn lemma_vfield_iff_variant(&self) {
    }

    fn get_vfield_(&self, variant: TStr<Str_Some>, field: TStr<Str_0>) -> (r: Option<&T>) {
        match self {
            Option::Some(x) => Some(x),
            _ => None,
        }
    }
}

impl<T> GetVariantFieldMut<TStr<Str_Some>, TStr<Str_0>> for Option<T> {
    open spec fn vfield_updated(old: &Self, new: &Self, v: T) -> bool {
        match *old {
            Option::Some(f0) => *new == Self::Some(v),
            _ => false,
        }
    }

    open spec fn vfield_unchanged(old: &Self, new: &Self) -> bool {
        *new == *old
    }

    proof fn lemma_read_after_write(old: &Self, new: &Self, v: T) {
    }

    proof fn lemma_vfield_unchanged_reads_same(old: &Self, new: &Self) {
    }

    fn get_vfield_mut_(&mut self, variant: TStr<Str_Some>, field: TStr<Str_0>) -> (r: Option<&mut T>) {
        match self {
            Option::Some(x) => Some(x),
            _ => {
                assert(<Self as GetVariantFieldMut<TStr<Str_Some>, TStr<Str_0>>>::vfield_unchanged(&*old(self), &*final(self)));
                None
            },
        }
    }
}

impl<T> IntoVariantField<TStr<Str_Some>, TStr<Str_0>> for Option<T> {
    fn into_vfield_(self, variant: TStr<Str_Some>, field: TStr<Str_0>) -> (r: Option<T>) {
        match self {
            Option::Some(x) => Some(x),
            _ => None,
        }
    }
}

impl<T> IsVariant<TStr<Str_None>> for Option<T> {
    open spec fn is_variant_spec(&self) -> bool {
        *self is None
    }

    fn is_variant_(&self, variant: TStr<Str_None>) -> (r: bool) {
        match self {
            Option::None => true,
            _ => false,
        }
    }
}

impl<T, E> VariantCount for Result<T, E> {
    type Count = TStr<Str_2>;
}

impl<T, E> IsVariant<TStr<Str_Ok>> for Result<T, E> {
    open spec fn is_variant_spec(&self) -> bool {
        *self is Ok
    }

    fn is_variant_(&self, variant: TStr<Str_Ok>) -> (r: bool) {
        match self {
            Result::Ok(..) => true,
            _ => false,
        }
    }
}

impl<T, E> FieldType<VariantField<TStr<Str_Ok>, TStr<Str_0>>> for Result<T, E> {
    type Ty = T;
}

impl<T, E> GetVariantField<TStr<Str_Ok>, TStr<Str_0>> for Result<T, E> {
    open spec fn get_vfield_spec(&self) -> Option<&T> {
        match self {
            Result::Ok(x) => Some(x),
            _ => None,
        }
    }

    proof fn lemma_vfield_iff_variant(&self) {
    }

    fn get_vfield_(&self, variant: TStr<Str_Ok>, field: TStr<Str_0>) -> (r: Option<&T>) {
        match self {
            Result::Ok(x) => Some(x),
            _ => None,
        }
    }
}

impl<T, E> GetVariantFieldMut<TStr<Str_Ok>, TStr<Str_0>> for Result<T, E> {
    open spec fn vfield_updated(old: &Self, new: &Self, v: T) -> bool {
        match *old {
            Result::Ok(f0) => *new == Self::Ok(v),
            _ => false,
        }
    }

    open spec fn vfield_unchanged(old: &Self, new: &Self) -> bool {
        *new == *old
    }

    proof fn lemma_read_after_write(old: &Self, new: &Self, v: T) {
    }

    proof fn lemma_vfield_unchanged_reads_same(old: &Self, new: &Self) {
    }

    fn get_vfield_mut_(&mut self, variant: TStr<Str_Ok>, field: TStr<Str_0>) -> (r: Option<&mut T>) {
        match self {
            Result::Ok(x) => Some(x),
            _ => {
                assert(<Self as GetVariantFieldMut<TStr<Str_Ok>, TStr<Str_0>>>::vfield_unchanged(&*old(self), &*final(self)));
                None
            },
        }
    }
}

impl<T, E> IntoVariantField<TStr<Str_Ok>, TStr<Str_0>> for Result<T, E> {
    fn into_vfield_(self, variant: TStr<Str_Ok>, field: TStr<Str_0>) -> (r: Option<T>) {
        match self {
            Result::Ok(x) => Some(x),
            _ => None,
        }
    }
}

impl<T, E> IsVariant<TStr<Str_Err>> for Result<T, E> {
    open spec fn is_variant_spec(&self) -> bool {
        *self is Err
    }

    fn is_variant_(&self, variant: TStr<Str_Err>) -> (r: bool) {
        match self {
            Result::Err(..) => true,
            _ => false,
        }
    }
}

impl<T, E> FieldType<VariantField<TStr<Str_Err>, TStr<Str_0>>> for Result<T, E> {
    type Ty = E;
}

impl<T, E> GetVariantField<TStr<Str_Err>, TStr<Str_0>> for Result<T, E> {
    open spec fn get_vfield_spec(&self) -> Option<&E> {
        match self {
            Result::Err(x) => Some(x),
            _ => None,
        }
    }

    proof fn lemma_vfield_iff_variant(&self) {
    }

    fn get_vfield_(&self, variant: TStr<Str_Err>, field: TStr<Str_0>) -> (r: Option<&E>) {
        match self {
            Result::Err(x) => Some(x),
            _ => None,
        }
    }
}

impl<T, E> GetVariantFieldMut<TStr<Str_Err>, TStr<Str_0>> for Result<T, E> {
    open spec fn vfield_updated(old: &Self, new: &Self, v: E) -> bool {
        match *old {
            Result::Err(f0) => *new == Self::Err(v),
            _ => false,
        }
    }

    open spec fn vfield_unchanged(old: &Self, new: &Self) -> bool {
        *new == *old
    }

    proof fn lemma_read_after_write(old: &Self, new: &Self, v: E) {
    }

    proof fn lemma_vfield_unchanged_reads_same(old: &Self, new: &Self) {
    }

    fn get_vfield_mut_(&mut self, variant: TStr<Str_Err>, field: TStr<Str_0>) -> (r: Option<&mut E>) {
        match self {
            Result::Err(x) => Some(x),
            _ => {
                assert(<Self as GetVariantFieldMut<TStr<Str_Err>, TStr<Str_0>>>::vfield_unchanged(&*old(self), &*final(self)));
                None
            },
        }
    }
}

impl<T, E> IntoVariantField<TStr<Str_Err>, TStr<Str_0>> for Result<T, E> {
    fn into_vfield_(self, variant: TStr<Str_Err>, field: TStr<Str_0>) -> (r: Option<E>) {
        match self {
            Result::Err(x) => Some(x),
            _ => None,
        }
    }
}

} // verus!
