//! Accessor traits for fields.
//!
//! [`FieldType`] gives the type of a field. [`GetFieldImpl`],
//! [`GetFieldMutImpl`] and [`IntoFieldImpl`] give shared, mutable and
//! by-value access to it. Fields that always exist report [`InfallibleAccess`]
//! (the aliases [`GetField`], [`GetFieldMut`], [`IntoField`]); fields that may be
//! missing report [`FailedAccess`] (the `Opt*` aliases).
//!
//! For fields inside enum variants, see [`GetVariantField`],
//! [`GetVariantFieldMut`] and [`IntoVariantField`].
//!
//! Each trait states what its accessors return over a spec function, and each
//! impl proves the laws that tie the accessors together: a read after a write
//! gives back what was written, and by-value access gives what shared access does.
use crate::enums::IsVariant;
use crate::field_path::VariantField;
use vstd::prelude::*;

pub mod accessor_laws;
pub mod cloned_fields;
pub mod enum_impls;
pub mod errors;
pub mod for_arrays;
pub mod get_field_ext;
pub mod most_impls;
pub mod multi_fields;
pub mod normalize_fields;
pub mod path_laws;
pub mod rev_get_field;
pub mod split_fields;
pub mod tuple_impls;

pub use self::errors::{
    CombineErrs, CombinedErrs, FailedAccess, FieldErr, InfallibleAccess, IntoFieldErr, IsFieldErr,
    NonOptField, OptionalField,
};

verus! {

/// The type of the field that `FieldPath` names.
pub trait FieldType<FieldPath> {
    type Ty;
}

/// Shared access to the field that `FieldPath` names.
///
/// `get_field_spec` is what `get_field_` returns: `Ok` with a reference to the
/// field, or `Err` when the field is absent (only for optional fields, whose
/// `Error` is [`FailedAccess`]).
pub trait GetFieldImpl<FieldPath>: FieldType<FieldPath> {
    type Error: IsFieldErr;

    spec fn get_field_spec(&self) -> Result<&Self::Ty, Self::Error>;

    fn get_field_(&self, path: FieldPath) -> (r: Result<&Self::Ty, Self::Error>)
        ensures
            r == self.get_field_spec(),
    ;
}

/// Shared access to a field that always exists.
pub trait GetField<FieldPath>: GetFieldImpl<FieldPath, Error = InfallibleAccess> {}

impl<This: ?Sized + GetFieldImpl<P, Error = InfallibleAccess>, P> GetField<P> for This {}

/// Shared access to a field that may be absent.
pub trait OptGetField<FieldPath>: GetFieldImpl<FieldPath, Error = FailedAccess> {}

impl<This: ?Sized + GetFieldImpl<P, Error = FailedAccess>, P> OptGetField<P> for This {}

/// Mutable access to the field that `FieldPath` names.
///
/// `field_updated(old, new, v)` holds when `new` is `old` with the field set to
/// `v` and nothing else changed; `unchanged(old, new)` when nothing changed.
/// Each impl proves that reading the field after writing `v` gives back `v`.
pub trait GetFieldMutImpl<FieldPath>: GetFieldImpl<FieldPath> {
    spec fn field_updated(old: &Self, new: &Self, v: Self::Ty) -> bool;

    spec fn unchanged(old: &Self, new: &Self) -> bool;

    /// A read after a write gives back what the write wrote.
    proof fn lemma_read_after_write(old: &Self, new: &Self, v: Self::Ty)
        requires
            Self::field_updated(old, new, v),
        ensures
            new.get_field_spec() == Ok::<&Self::Ty, Self::Error>(&v),
    ;

    /// When nothing changed, a read gives what it gave before.
    proof fn lemma_unchanged_reads_same(old: &Self, new: &Self)
        requires
            Self::unchanged(old, new),
        ensures
            new.get_field_spec() == old.get_field_spec(),
    ;

    fn get_field_mut_(&mut self, path: FieldPath) -> (r: Result<&mut Self::Ty, Self::Error>)
        ensures
            match r {
                Ok(x) => {
                    &&& old(self).get_field_spec() == Ok::<&Self::Ty, Self::Error>(&*x)
                    &&& Self::field_updated(&*old(self), &*final(self), *final(x))
                },
                Err(e) => {
                    &&& old(self).get_field_spec() == Err::<&Self::Ty, Self::Error>(e)
                    &&& Self::unchanged(&*old(self), &*final(self))
                },
            },
    ;
}

/// Mutable access to a field that always exists.
pub trait GetFieldMut<FieldPath>: GetFieldMutImpl<FieldPath, Error = InfallibleAccess> {}

impl<This: ?Sized + GetFieldMutImpl<P, Error = InfallibleAccess>, P> GetFieldMut<P> for This {}

/// Mutable access to a field that may be absent.
pub trait OptGetFieldMut<FieldPath>: GetFieldMutImpl<FieldPath, Error = FailedAccess> {}

impl<This: ?Sized + GetFieldMutImpl<P, Error = FailedAccess>, P> OptGetFieldMut<P> for This {}

/// By-value access to the field that `FieldPath` names: it gives what
/// shared access to the field gives.
pub trait IntoFieldImpl<FieldPath>: GetFieldImpl<FieldPath> + Sized {
    fn into_field_(self, path: FieldPath) -> (r: Result<Self::Ty, Self::Error>)
        ensures
            match (r, self.get_field_spec()) {
                (Ok(x), Ok(y)) => x == *y,
                (Err(e), Err(f)) => e == f,
                _ => false,
            },
    ;
}

/// By-value access to a field that always exists.
pub trait IntoField<FieldPath>: IntoFieldImpl<FieldPath, Error = InfallibleAccess> {}

impl<This: IntoFieldImpl<P, Error = InfallibleAccess>, P> IntoField<P> for This {}

/// By-value access to a field that may be absent.
pub trait OptIntoField<FieldPath>: IntoFieldImpl<FieldPath, Error = FailedAccess> {}

impl<This: IntoFieldImpl<P, Error = FailedAccess>, P> OptIntoField<P> for This {}

/// Mutable and by-value access to a field that always exists.
pub trait IntoFieldMut<FieldPath>: IntoField<FieldPath> + GetFieldMut<FieldPath> {}

impl<This: IntoField<P> + GetFieldMut<P>, P> IntoFieldMut<P> for This {}

/// Mutable and by-value access to a field that may be absent.
pub trait OptIntoFieldMut<FieldPath>: OptIntoField<FieldPath> + OptGetFieldMut<FieldPath> {}

impl<This: OptIntoField<P> + OptGetFieldMut<P>, P> OptIntoFieldMut<P> for This {}

/// Shared access to the field named `F` inside the enum variant named `V`.
///
/// `get_vfield_spec` is `Some` exactly when the enum is the `V` variant
/// (each impl proves it).
pub trait GetVariantField<V, F>: IsVariant<V> + FieldType<VariantField<V, F>> {
    spec fn get_vfield_spec(&self) -> Option<&Self::Ty>;

    /// The field exists exactly when the enum is the variant.
    proof fn lemma_vfield_iff_variant(&self)
        ensures
            self.get_vfield_spec() is Some <==> self.is_variant_spec(),
    ;

    fn get_vfield_(&self, variant: V, field: F) -> (r: Option<&Self::Ty>)
        ensures
            r == self.get_vfield_spec(),
    ;

    /// Gets the field of an enum known to be the `V` variant.
    fn get_vfield_unchecked(&self, variant: V, field: F) -> (r: &Self::Ty)
        requires
            self.is_variant_spec(),
        ensures
            self.get_vfield_spec() == Some(r),
    {
        proof {
            self.lemma_vfield_iff_variant();
        }
        match self.get_vfield_(variant, field) {
            Some(x) => x,
            None => vstd::pervasive::unreached(),
        }
    }
}

/// Mutable access to the field named `F` inside the enum variant named `V`.
///
/// `vfield_updated(old, new, v)` holds when `new` is `old` with the field set to
/// `v` and nothing else changed; `vfield_unchanged(old, new)` when nothing changed.
pub trait GetVariantFieldMut<V, F>: GetVariantField<V, F> + Sized {
    spec fn vfield_updated(old: &Self, new: &Self, v: Self::Ty) -> bool;

    spec fn vfield_unchanged(old: &Self, new: &Self) -> bool;

    /// When nothing changed, a read gives what it gave before.
    proof fn lemma_vfield_unchanged_reads_same(old: &Self, new: &Self)
        requires
            Self::vfield_unchanged(old, new),
        ensures
            new.get_vfield_spec() == old.get_vfield_spec(),
    ;

    /// A read after a write gives back what the write wrote.
    proof fn lemma_read_after_write(old: &Self, new: &Self, v: Self::Ty)
        requires
            Self::vfield_updated(old, new, v),
        ensures
            new.get_vfield_spec() == Some(&v),
    ;

    fn get_vfield_mut_(&mut self, variant: V, field: F) -> (r: Option<&mut Self::Ty>)
        ensures
            match r {
                Some(x) => {
                    &&& old(self).get_vfield_spec() == Some(&*x)
                    &&& Self::vfield_updated(&*old(self), &*final(self), *final(x))
                },
                None => {
                    &&& old(self).get_vfield_spec() is None
                    &&& Self::vfield_unchanged(&*old(self), &*final(self))
                },
            },
    ;

    /// Gets a mutable reference to the field of an enum known to be the `V` variant.
    fn get_vfield_mut_unchecked(&mut self, variant: V, field: F) -> (r: &mut Self::Ty)
        requires
            old(self).is_variant_spec(),
        ensures
            old(self).get_vfield_spec() == Some(&*r),
            Self::vfield_updated(&*old(self), &*final(self), *final(r)),
    {
        proof {
            self.lemma_vfield_iff_variant();
        }
        match self.get_vfield_mut_(variant, field) {
            Some(x) => x,
            None => vstd::pervasive::unreached(),
        }
    }
}

/// By-value access to the field named `F` inside the enum variant named `V`:
/// it gives what shared access to the field gives.
pub trait IntoVariantField<V, F>: GetVariantField<V, F> + Sized {
    fn into_vfield_(self, variant: V, field: F) -> (r: Option<Self::Ty>)
        ensures
            match (r, self.get_vfield_spec()) {
                (Some(x), Some(y)) => x == *y,
                (None, None) => true,
                _ => false,
            },
    ;

    /// Moves the field out of an enum known to be the `V` variant.
    fn into_vfield_unchecked(self, variant: V, field: F) -> (r: Self::Ty)
        requires
            self.is_variant_spec(),
        ensures
            self.get_vfield_spec() == Some(&r),
    {
        proof {
            self.lemma_vfield_iff_variant();
        }
        match self.into_vfield_(variant, field) {
            Some(x) => x,
            None => vstd::pervasive::unreached(),
        }
    }
}

/// Mutable and by-value access to a field inside an enum variant.
pub trait IntoVariantFieldMut<V, F>: GetVariantFieldMut<V, F> + IntoVariantField<V, F> {}

impl<This: GetVariantFieldMut<V, F> + IntoVariantField<V, F>, V, F> IntoVariantFieldMut<
    V,
    F,
> for This {}

} // verus!
