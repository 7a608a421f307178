//! Extension trait for accessing fields through field paths.
use crate::enums::IsVariant;
use crate::field::cloned_fields::Cloned;
use crate::field::multi_fields::{RevGetMultiField, RevGetMultiFieldMut, RevIntoMultiField};
use crate::field::normalize_fields::NormalizeFields;
use crate::field::rev_get_field::{RevGetFieldImpl, RevGetFieldMutImpl, RevIntoFieldImpl};
use crate::field_path::IsTStr;
use vstd::prelude::*;

verus! {

/// Methods for accessing fields, implemented for every type.
///
/// Each method normalizes what the path's accessor gives: a field that always
/// exists comes as the field itself, one that may be absent as an `Option`.
pub trait GetFieldExt {
    /// Gets a reference to the field that `path` names.
    fn field_<'a, P>(&'a self, path: P) -> (r: <Result<&'a P::Ty, P::Error> as NormalizeFields>::Output) where
        P: RevGetFieldImpl<'a, Self>,
        Result<&'a P::Ty, P::Error>: NormalizeFields,

        ensures
            r == path.rev_get_field_spec(self).normalize_spec(),
    {
        path.rev_get_field(self).normalize_fields()
    }

    /// Gets references to the fields that `path` names.
    fn fields<'a, P>(&'a self, path: P) -> (r: P::Fields) where
        P: RevGetMultiField<'a, Self>,

        ensures
            r == path.rev_get_multi_field_norm_spec(self),
    {
        path.rev_get_multi_field(self)
    }

    /// Gets clones of the fields that `path` names.
    fn cloned_fields<'a, P>(&'a self, path: P) -> (r: <P::Fields as Cloned>::Cloned) where
        P: RevGetMultiField<'a, Self>,
        P::Fields: Cloned,

        ensures
            path.rev_get_multi_field_norm_spec(self).cloned_from(&r),
    {
        path.rev_get_multi_field(self).cloned_()
    }

    /// Gets a mutable reference to the field that `path` names.
    ///
    /// Writing `v` through the reference leaves `self` with the field set to `v`;
    /// when the field is absent, `self` is left as it was.
    fn field_mut<'a, P>(&'a mut self, path: P) -> (r: <Result<&'a mut P::Ty, P::Error> as NormalizeFields>::Output) where
        P: RevGetFieldMutImpl<'a, Self>,
        Result<&'a mut P::Ty, P::Error>: NormalizeFields,

        ensures
            match <Result<&'a mut P::Ty, P::Error> as NormalizeFields>::denormalize_spec(r) {
                Ok(x) => {
                    &&& path.rev_get_field_spec(&*old(self)) == Ok::<&P::Ty, P::Error>(&*x)
                    &&& path.rev_field_updated(&*old(self), &*final(self), *final(x))
                },
                Err(e) => {
                    &&& path.rev_get_field_spec(&*old(self)) == Err::<&P::Ty, P::Error>(e)
                    &&& path.rev_unchanged(&*old(self), &*final(self))
                },
            },
    {
        path.rev_get_field_mut(self).normalize_fields()
    }

    /// Gets mutable references to the fields that `path` names,
    /// which may not alias.
    ///
    /// Each reference starts at the value of its field. What writes through
    /// the references do to `self` is stated where a value is split into its
    /// fields (`SplitFieldsMut::split_fields_mut` of each tuple, array and
    /// example struct), not here.
    fn fields_mut<'a, P>(&'a mut self, path: P) -> (r: P::FieldsMut) where
        P: RevGetMultiFieldMut<'a, Self>,

        ensures
            path.rev_multi_field_mut_norm_reads(&*old(self), &r),
    {
        path.rev_get_multi_field_mut(self)
    }

    /// Moves out the fields that `path` names, which may not alias.
    fn into_fields<'a, P>(self, path: P) -> (r: P::IntoFields) where
        P: RevIntoMultiField<'a, Self>,
        Self: Sized + 'a,

        ensures
            path.rev_multi_into_norm_matches(&self, &r),
    {
        path.rev_into_multi_field(self)
    }

    /// Moves out the field that `path` names.
    fn into_field<'a, P>(self, path: P) -> (r: <Result<P::Ty, P::Error> as NormalizeFields>::Output) where
        P: RevIntoFieldImpl<'a, Self>,
        Result<P::Ty, P::Error>: NormalizeFields,
        Self: Sized + 'a,

        ensures
            match (
                <Result<P::Ty, P::Error> as NormalizeFields>::denormalize_spec(r),
                path.rev_get_field_spec(&self),
            ) {
                (Ok(x), Ok(y)) => x == *y,
                (Err(e), Err(f)) => e == f,
                _ => false,
            },
    {
        path.rev_into_field(self).normalize_fields()
    }

    /// Whether the enum is the variant that `variant` names.
    fn is_variant<P>(&self, variant: P) -> (r: bool) where
        P: IsTStr,
        Self: IsVariant<P>,

        ensures
            r == self.is_variant_spec(),
    {
        self.is_variant_(variant)
    }
}

impl<T: ?Sized> GetFieldExt for T {}

} // verus!
