//! Traits for accessing several fields at once.
//!
//! A [`FieldPathSet`] names several fields; [`RevGetMultiFieldImpl`] gives a
//! tuple with the result of accessing each of them, in the order of the paths,
//! and [`RevGetMultiField`] normalizes that tuple (see [`NormalizeFields`]).
//! A [`NestedFieldPathSet`] first accesses a nested field, then the fields of
//! the set inside it.
use crate::field::errors::IsFieldErr;
use crate::field::normalize_fields::NormalizeFields;
use crate::field::rev_get_field::{RevGetFieldImpl, RevGetFieldMutImpl, RevIntoFieldImpl};
use crate::field::split_fields::{SplitFieldsInto, SplitFieldsMut, TakeFieldInto, TakeFieldMut};
use crate::field::{FieldType, GetFieldImpl};
use crate::field_path::{
    is_prefix_of, lemma_field_names_differ, FieldPathSet, IsMultiFieldPath, IsSingleFieldPath, NestedFieldPathSet, PathTuple,
    TStr, TStrName, UniquePaths, Uniqueness,
};
use vstd::prelude::*;

verus! {

/// Shared access to the fields that the multi-field path `Self` names inside `This`.
///
/// `rev_get_multi_field_spec` is the tuple of the results of accessing each field.
pub trait RevGetMultiFieldImpl<'a, This: ?Sized + 'a>: IsMultiFieldPath + Sized {
    type UnnormFields: NormalizeFields;

    spec fn rev_get_multi_field_spec(self, this: &'a This) -> Self::UnnormFields;

    fn rev_get_multi_field_impl(self, this: &'a This) -> (r: Self::UnnormFields)
        ensures
            r == self.rev_get_multi_field_spec(this),
    ;
}

/// Shared access to several fields, with each result normalized:
/// a field that always exists is returned as a reference, one that may be
/// absent as an `Option` of a reference.
pub trait RevGetMultiField<'a, This: ?Sized + 'a>: RevGetMultiFieldImpl<'a, This> {
    type Fields;

    /// What `rev_get_multi_field` returns.
    spec fn rev_get_multi_field_norm_spec(self, this: &'a This) -> Self::Fields;

    fn rev_get_multi_field(self, this: &'a This) -> (r: Self::Fields)
        ensures
            r == self.rev_get_multi_field_norm_spec(this),
    ;
}

impl<'a, This: ?Sized + 'a, Path: RevGetMultiFieldImpl<'a, This>> RevGetMultiField<'a, This> for Path {
    type Fields = <Path::UnnormFields as NormalizeFields>::Output;

    open spec fn rev_get_multi_field_norm_spec(self, this: &'a This) -> Self::Fields {
        self.rev_get_multi_field_spec(this).normalize_spec()
    }

    fn rev_get_multi_field(self, this: &'a This) -> (r: Self::Fields) {
        self.rev_get_multi_field_impl(this).normalize_fields()
    }
}

/// The type of the fields that `Path` gives in `This`, before normalization.
pub type RevGetMultiFieldImplOut<'a, Path, This> = <Path as RevGetMultiFieldImpl<'a, This>>::UnnormFields;

/// The type of the fields that `Path` gives in `This`.
pub type RevGetMultiFieldOut<'a, Path, This> = <Path as RevGetMultiField<'a, This>>::Fields;

////////////////////////////////////////////////////////////////////////////////
// Sets of paths.

impl<'a, This: ?Sized + 'a, U: Uniqueness> RevGetMultiFieldImpl<'a, This> for FieldPathSet<(), U> {
    type UnnormFields = ();

    open spec fn rev_get_multi_field_spec(self, this: &'a This) -> () {
        ()
    }

    fn rev_get_multi_field_impl(self, this: &'a This) -> (r: ()) {
        ()
    }
}

impl<'a, This: ?Sized + 'a, U: Uniqueness, P0> RevGetMultiFieldImpl<'a, This> for FieldPathSet<
    (P0,),
    U,
> where
    P0: IsSingleFieldPath + RevGetFieldImpl<'a, This>,
    P0::Ty: 'a,
    Result<&'a P0::Ty, P0::Error>: NormalizeFields,
 {
    type UnnormFields = (Result<&'a P0::Ty, P0::Error>,);

    open spec fn rev_get_multi_field_spec(self, this: &'a This) -> Self::UnnormFields {
        (self.paths().0.rev_get_field_spec(this),)
    }

    fn rev_get_multi_field_impl(self, this: &'a This) -> (r: Self::UnnormFields) {
        let (p0,) = self.into_paths();
        (p0.rev_get_field(this),)
    }
}

impl<'a, This: ?Sized + 'a, U: Uniqueness, P0, P1> RevGetMultiFieldImpl<'a, This> for FieldPathSet<
    (P0, P1),
    U,
> where
    P0: IsSingleFieldPath + RevGetFieldImpl<'a, This>,
    P0::Ty: 'a,
    Result<&'a P0::Ty, P0::Error>: NormalizeFields,
    P1: IsSingleFieldPath + RevGetFieldImpl<'a, This>,
    P1::Ty: 'a,
    Result<&'a P1::Ty, P1::Error>: NormalizeFields,
 {
    type UnnormFields = (Result<&'a P0::Ty, P0::Error>, Result<&'a P1::Ty, P1::Error>);

    open spec fn rev_get_multi_field_spec(self, this: &'a This) -> Self::UnnormFields {
        (self.paths().0.rev_get_field_spec(this), self.paths().1.rev_get_field_spec(this))
    }

    fn rev_get_multi_field_impl(self, this: &'a This) -> (r: Self::UnnormFields) {
        let (p0, p1) = self.into_paths();
        (p0.rev_get_field(this), p1.rev_get_field(this))
    }
}

impl<'a, This: ?Sized + 'a, U: Uniqueness, P0, P1, P2> RevGetMultiFieldImpl<'a, This> for FieldPathSet<
    (P0, P1, P2),
    U,
> where
    P0: IsSingleFieldPath + RevGetFieldImpl<'a, This>,
    P0::Ty: 'a,
    Result<&'a P0::Ty, P0::Error>: NormalizeFields,
    P1: IsSingleFieldPath + RevGetFieldImpl<'a, This>,
    P1::Ty: 'a,
    Result<&'a P1::Ty, P1::Error>: NormalizeFields,
    P2: IsSingleFieldPath + RevGetFieldImpl<'a, This>,
    P2::Ty: 'a,
    Result<&'a P2::Ty, P2::Error>: NormalizeFields,
 {
    type UnnormFields = (
        Result<&'a P0::Ty, P0::Error>,
        Result<&'a P1::Ty, P1::Error>,
        Result<&'a P2::Ty, P2::Error>,
    );

    open spec fn rev_get_multi_field_spec(self, this: &'a This) -> Self::UnnormFields {
        (
            self.paths().0.rev_get_field_spec(this),
            self.paths().1.rev_get_field_spec(this),
            self.paths().2.rev_get_field_spec(this),
        )
    }

    fn rev_get_multi_field_impl(self, this: &'a This) -> (r: Self::UnnormFields) {
        let (p0, p1, p2) = self.into_paths();
        (p0.rev_get_field(this), p1.rev_get_field(this), p2.rev_get_field(this))
    }
}

impl<'a, This: ?Sized + 'a, U: Uniqueness, P0, P1, P2, P3> RevGetMultiFieldImpl<'a, This> for FieldPathSet<
    (P0, P1, P2, P3),
    U,
> where
    P0: IsSingleFieldPath + RevGetFieldImpl<'a, This>,
    P0::Ty: 'a,
    Result<&'a P0::Ty, P0::Error>: NormalizeFields,
    P1: IsSingleFieldPath + RevGetFieldImpl<'a, This>,
    P1::Ty: 'a,
    Result<&'a P1::Ty, P1::Error>: NormalizeFields,
    P2: IsSingleFieldPath + RevGetFieldImpl<'a, This>,
    P2::Ty: 'a,
    Result<&'a P2::Ty, P2::Error>: NormalizeFields,
    P3: IsSingleFieldPath + RevGetFieldImpl<'a, This>,
    P3::Ty: 'a,
    Result<&'a P3::Ty, P3::Error>: NormalizeFields,
 {
    type UnnormFields = (
        Result<&'a P0::Ty, P0::Error>,
        Result<&'a P1::Ty, P1::Error>,
        Result<&'a P2::Ty, P2::Error>,
        Result<&'a P3::Ty, P3::Error>,
    );

    open spec fn rev_get_multi_field_spec(self, this: &'a This) -> Self::UnnormFields {
        (
            self.paths().0.rev_get_field_spec(this),
            self.paths().1.rev_get_field_spec(this),
            self.paths().2.rev_get_field_spec(this),
            self.paths().3.rev_get_field_spec(this),
        )
    }

    fn rev_get_multi_field_impl(self, this: &'a This) -> (r: Self::UnnormFields) {
        let (p0, p1, p2, p3) = self.into_paths();
        (p0.rev_get_field(this), p1.rev_get_field(this), p2.rev_get_field(this), p3.rev_get_field(this))
    }
}


impl<'a, This: ?Sized + 'a, U: Uniqueness, P0, P1, P2, P3, P4> RevGetMultiFieldImpl<'a, This> for FieldPathSet<
    (P0, P1, P2, P3, P4),
    U,
> where
    P0: IsSingleFieldPath + RevGetFieldImpl<'a, This>,
    P0::Ty: 'a,
    Result<&'a P0::Ty, P0::Error>: NormalizeFields,
    P1: IsSingleFieldPath + RevGetFieldImpl<'a, This>,
    P1::Ty: 'a,
    Result<&'a P1::Ty, P1::Error>: NormalizeFields,
    P2: IsSingleFieldPath + RevGetFieldImpl<'a, This>,
    P2::Ty: 'a,
    Result<&'a P2::Ty, P2::Error>: NormalizeFields,
    P3: IsSingleFieldPath + RevGetFieldImpl<'a, This>,
    P3::Ty: 'a,
    Result<&'a P3::Ty, P3::Error>: NormalizeFields,
    P4: IsSingleFieldPath + RevGetFieldImpl<'a, This>,
    P4::Ty: 'a,
    Result<&'a P4::Ty, P4::Error>: NormalizeFields,
 {
    type UnnormFields = (
        Result<&'a P0::Ty, P0::Error>,
        Result<&'a P1::Ty, P1::Error>,
        Result<&'a P2::Ty, P2::Error>,
        Result<&'a P3::Ty, P3::Error>,
        Result<&'a P4::Ty, P4::Error>,
    );

    open spec fn rev_get_multi_field_spec(self, this: &'a This) -> Self::UnnormFields {
        (
            self.paths().0.rev_get_field_spec(this),
            self.paths().1.rev_get_field_spec(this),
            self.paths().2.rev_get_field_spec(this),
            self.paths().3.rev_get_field_spec(this),
            self.paths().4.rev_get_field_spec(this),
        )
    }

    fn rev_get_multi_field_impl(self, this: &'a This) -> (r: Self::UnnormFields) {
        let (p0, p1, p2, p3, p4) = self.into_paths();
        (
            p0.rev_get_field(this),
            p1.rev_get_field(this),
            p2.rev_get_field(this),
            p3.rev_get_field(this),
            p4.rev_get_field(this),
        )
    }
}

impl<'a, This: ?Sized + 'a, U: Uniqueness, P0, P1, P2, P3, P4, P5> RevGetMultiFieldImpl<'a, This> for FieldPathSet<
    (P0, P1, P2, P3, P4, P5),
    U,
> where
    P0: IsSingleFieldPath + RevGetFieldImpl<'a, This>,
    P0::Ty: 'a,
    Result<&'a P0::Ty, P0::Error>: NormalizeFields,
    P1: IsSingleFieldPath + RevGetFieldImpl<'a, This>,
    P1::Ty: 'a,
    Result<&'a P1::Ty, P1::Error>: NormalizeFields,
    P2: IsSingleFieldPath + RevGetFieldImpl<'a, This>,
    P2::Ty: 'a,
    Result<&'a P2::Ty, P2::Error>: NormalizeFields,
    P3: IsSingleFieldPath + RevGetFieldImpl<'a, This>,
    P3::Ty: 'a,
    Result<&'a P3::Ty, P3::Error>: NormalizeFields,
    P4: IsSingleFieldPath + RevGetFieldImpl<'a, This>,
    P4::Ty: 'a,
    Result<&'a P4::Ty, P4::Error>: NormalizeFields,
    P5: IsSingleFieldPath + RevGetFieldImpl<'a, This>,
    P5::Ty: 'a,
    Result<&'a P5::Ty, P5::Error>: NormalizeFields,
 {
    type UnnormFields = (
        Result<&'a P0::Ty, P0::Error>,
        Result<&'a P1::Ty, P1::Error>,
        Result<&'a P2::Ty, P2::Error>,
        Result<&'a P3::Ty, P3::Error>,
        Result<&'a P4::Ty, P4::Error>,
        Result<&'a P5::Ty, P5::Error>,
    );

    open spec fn rev_get_multi_field_spec(self, this: &'a This) -> Self::UnnormFields {
        (
            self.paths().0.rev_get_field_spec(this),
            self.paths().1.rev_get_field_spec(this),
            self.paths().2.rev_get_field_spec(this),
            self.paths().3.rev_get_field_spec(this),
            self.paths().4.rev_get_field_spec(this),
            self.paths().5.rev_get_field_spec(this),
        )
    }

    fn rev_get_multi_field_impl(self, this: &'a This) -> (r: Self::UnnormFields) {
        let (p0, p1, p2, p3, p4, p5) = self.into_paths();
        (
            p0.rev_get_field(this),
            p1.rev_get_field(this),
            p2.rev_get_field(this),
            p3.rev_get_field(this),
            p4.rev_get_field(this),
            p5.rev_get_field(this),
        )
    }
}

impl<'a, This: ?Sized + 'a, U: Uniqueness, P0, P1, P2, P3, P4, P5, P6> RevGetMultiFieldImpl<'a, This> for FieldPathSet<
    (P0, P1, P2, P3, P4, P5, P6),
    U,
> where
    P0: IsSingleFieldPath + RevGetFieldImpl<'a, This>,
    P0::Ty: 'a,
    Result<&'a P0::Ty, P0::Error>: NormalizeFields,
    P1: IsSingleFieldPath + RevGetFieldImpl<'a, This>,
    P1::Ty: 'a,
    Result<&'a P1::Ty, P1::Error>: NormalizeFields,
    P2: IsSingleFieldPath + RevGetFieldImpl<'a, This>,
    P2::Ty: 'a,
    Result<&'a P2::Ty, P2::Error>: NormalizeFields,
    P3: IsSingleFieldPath + RevGetFieldImpl<'a, This>,
    P3::Ty: 'a,
    Result<&'a P3::Ty, P3::Error>: NormalizeFields,
    P4: IsSingleFieldPath + RevGetFieldImpl<'a, This>,
    P4::Ty: 'a,
    Result<&'a P4::Ty, P4::Error>: NormalizeFields,
    P5: IsSingleFieldPath + RevGetFieldImpl<'a, This>,
    P5::Ty: 'a,
    Result<&'a P5::Ty, P5::Error>: NormalizeFields,
    P6: IsSingleFieldPath + RevGetFieldImpl<'a, This>,
    P6::Ty: 'a,
    Result<&'a P6::Ty, P6::Error>: NormalizeFields,
 {
    type UnnormFields = (
        Result<&'a P0::Ty, P0::Error>,
        Result<&'a P1::Ty, P1::Error>,
        Result<&'a P2::Ty, P2::Error>,
        Result<&'a P3::Ty, P3::Error>,
        Result<&'a P4::Ty, P4::Error>,
        Result<&'a P5::Ty, P5::Error>,
        Result<&'a P6::Ty, P6::Error>,
    );

    open spec fn rev_get_multi_field_spec(self, this: &'a This) -> Self::UnnormFields {
        (
            self.paths().0.rev_get_field_spec(this),
            self.paths().1.rev_get_field_spec(this),
            self.paths().2.rev_get_field_spec(this),
            self.paths().3.rev_get_field_spec(this),
            self.paths().4.rev_get_field_spec(this),
            self.paths().5.rev_get_field_spec(this),
            self.paths().6.rev_get_field_spec(this),
        )
    }

    fn rev_get_multi_field_impl(self, this: &'a This) -> (r: Self::UnnormFields) {
        let (p0, p1, p2, p3, p4, p5, p6) = self.into_paths();
        (
            p0.rev_get_field(this),
            p1.rev_get_field(this),
            p2.rev_get_field(this),
            p3.rev_get_field(this),
            p4.rev_get_field(this),
            p5.rev_get_field(this),
            p6.rev_get_field(this),
        )
    }
}

impl<'a, This: ?Sized + 'a, U: Uniqueness, P0, P1, P2, P3, P4, P5, P6, P7> RevGetMultiFieldImpl<'a, This> for FieldPathSet<
    (P0, P1, P2, P3, P4, P5, P6, P7),
    U,
> where
    P0: IsSingleFieldPath + RevGetFieldImpl<'a, This>,
    P0::Ty: 'a,
    Result<&'a P0::Ty, P0::Error>: NormalizeFields,
    P1: IsSingleFieldPath + RevGetFieldImpl<'a, This>,
    P1::Ty: 'a,
    Result<&'a P1::Ty, P1::Error>: NormalizeFields,
    P2: IsSingleFieldPath + RevGetFieldImpl<'a, This>,
    P2::Ty: 'a,
    Result<&'a P2::Ty, P2::Error>: NormalizeFields,
    P3: IsSingleFieldPath + RevGetFieldImpl<'a, This>,
    P3::Ty: 'a,
    Result<&'a P3::Ty, P3::Error>: NormalizeFields,
    P4: IsSingleFieldPath + RevGetFieldImpl<'a, This>,
    P4::Ty: 'a,
    Result<&'a P4::Ty, P4::Error>: NormalizeFields,
    P5: IsSingleFieldPath + RevGetFieldImpl<'a, This>,
    P5::Ty: 'a,
    Result<&'a P5::Ty, P5::Error>: NormalizeFields,
    P6: IsSingleFieldPath + RevGetFieldImpl<'a, This>,
    P6::Ty: 'a,
    Result<&'a P6::Ty, P6::Error>: NormalizeFields,
    P7: IsSingleFieldPath + RevGetFieldImpl<'a, This>,
    P7::Ty: 'a,
    Result<&'a P7::Ty, P7::Error>: NormalizeFields,
 {
    type UnnormFields = (
        Result<&'a P0::Ty, P0::Error>,
        Result<&'a P1::Ty, P1::Error>,
        Result<&'a P2::Ty, P2::Error>,
        Result<&'a P3::Ty, P3::Error>,
        Result<&'a P4::Ty, P4::Error>,
        Result<&'a P5::Ty, P5::Error>,
        Result<&'a P6::Ty, P6::Error>,
        Result<&'a P7::Ty, P7::Error>,
    );

    open spec fn rev_get_multi_field_spec(self, this: &'a This) -> Self::UnnormFields {
        (
            self.paths().0.rev_get_field_spec(this),
            self.paths().1.rev_get_field_spec(this),
            self.paths().2.rev_get_field_spec(this),
            self.paths().3.rev_get_field_spec(this),
            self.paths().4.rev_get_field_spec(this),
            self.paths().5.rev_get_field_spec(this),
            self.paths().6.rev_get_field_spec(this),
            self.paths().7.rev_get_field_spec(this),
        )
    }

    fn rev_get_multi_field_impl(self, this: &'a This) -> (r: Self::UnnormFields) {
        let (p0, p1, p2, p3, p4, p5, p6, p7) = self.into_paths();
        (
            p0.rev_get_field(this),
            p1.rev_get_field(this),
            p2.rev_get_field(this),
            p3.rev_get_field(this),
            p4.rev_get_field(this),
            p5.rev_get_field(this),
            p6.rev_get_field(this),
            p7.rev_get_field(this),
        )
    }
}

/// Mutable access to the fields that the multi-field path `Self` names inside
/// `This`; the paths may not alias (`Self::PathUniqueness` is [`UniquePaths`]).
///
/// `rev_multi_field_mut_reads(this, r)` holds when each reference in `r` points to
/// the value of its field in `this`, and each error is the error of accessing
/// its field. What writes through the references do to `this` is stated by each
/// impl.
pub trait RevGetMultiFieldMutImpl<'a, This: ?Sized + 'a>: IsMultiFieldPath<
    PathUniqueness = UniquePaths,
> + Sized {
    type UnnormFieldsMut: NormalizeFields;

    spec fn rev_multi_field_mut_reads(self, this: &This, r: &Self::UnnormFieldsMut) -> bool;

    fn rev_get_multi_field_mut_impl(self, this: &'a mut This) -> (r: Self::UnnormFieldsMut)
        ensures
            self.rev_multi_field_mut_reads(&*old(this), &r),
    ;
}

/// Mutable access to several fields, with each result normalized.
pub trait RevGetMultiFieldMut<'a, This: ?Sized + 'a>: RevGetMultiFieldMutImpl<'a, This> {
    type FieldsMut;

    /// Whether `r` is the normalization of fields that `rev_multi_field_mut_reads`
    /// accepts for `this`.
    spec fn rev_multi_field_mut_norm_reads(self, this: &This, r: &Self::FieldsMut) -> bool;

    fn rev_get_multi_field_mut(self, this: &'a mut This) -> (r: Self::FieldsMut)
        ensures
            self.rev_multi_field_mut_norm_reads(&*old(this), &r),
    ;
}

impl<'a, This: ?Sized + 'a, Path: RevGetMultiFieldMutImpl<'a, This>> RevGetMultiFieldMut<'a, This> for Path {
    type FieldsMut = <Path::UnnormFieldsMut as NormalizeFields>::Output;

    open spec fn rev_multi_field_mut_norm_reads(self, this: &This, r: &Self::FieldsMut) -> bool {
        self.rev_multi_field_mut_reads(
            this,
            &<Path::UnnormFieldsMut as NormalizeFields>::denormalize_spec(*r),
        )
    }

    fn rev_get_multi_field_mut(self, this: &'a mut This) -> (r: Self::FieldsMut) {
        self.rev_get_multi_field_mut_impl(this).normalize_fields()
    }
}

/// The type of the mutable references to the fields that `Path` gives in `This`.
pub type RevGetMultiFieldMutOut<'a, Path, This> = <Path as RevGetMultiFieldMut<'a, This>>::FieldsMut;

/// By-value access to the fields that the multi-field path `Self` names inside
/// `This`; the paths may not alias.
///
/// `rev_multi_into_matches(this, r)` holds when each value in `r` is the value of
/// its field in `this`, and each error the error of accessing its field.
pub trait RevIntoMultiFieldImpl<'a, This: 'a>: IsMultiFieldPath<PathUniqueness = UniquePaths> + Sized {
    type UnnormIntoFields: NormalizeFields;

    spec fn rev_multi_into_matches(self, this: &This, r: &Self::UnnormIntoFields) -> bool;

    fn rev_into_multi_field_impl(self, this: This) -> (r: Self::UnnormIntoFields)
        ensures
            self.rev_multi_into_matches(&this, &r),
    ;
}

/// By-value access to several fields, with each result normalized.
pub trait RevIntoMultiField<'a, This: 'a>: RevIntoMultiFieldImpl<'a, This> {
    type IntoFields;

    /// Whether `r` is the normalization of fields that `rev_multi_into_matches`
    /// accepts for `this`.
    spec fn rev_multi_into_norm_matches(self, this: &This, r: &Self::IntoFields) -> bool;

    fn rev_into_multi_field(self, this: This) -> (r: Self::IntoFields)
        ensures
            self.rev_multi_into_norm_matches(&this, &r),
    ;
}

impl<'a, This: 'a, Path: RevIntoMultiFieldImpl<'a, This>> RevIntoMultiField<'a, This> for Path {
    type IntoFields = <Path::UnnormIntoFields as NormalizeFields>::Output;

    open spec fn rev_multi_into_norm_matches(self, this: &This, r: &Self::IntoFields) -> bool {
        self.rev_multi_into_matches(
            this,
            &<Path::UnnormIntoFields as NormalizeFields>::denormalize_spec(*r),
        )
    }

    fn rev_into_multi_field(self, this: This) -> (r: Self::IntoFields) {
        self.rev_into_multi_field_impl(this).normalize_fields()
    }
}

/// The type of the fields that `Path` moves out of `This`.
pub type RevIntoMultiFieldOut<'a, Path, This> = <Path as RevIntoMultiField<'a, This>>::IntoFields;

impl<'a, This: ?Sized + 'a> RevGetMultiFieldMutImpl<'a, This> for FieldPathSet<(), UniquePaths> {
    type UnnormFieldsMut = ();

    open spec fn rev_multi_field_mut_reads(self, this: &This, r: &()) -> bool {
        true
    }

    fn rev_get_multi_field_mut_impl(self, this: &'a mut This) -> (r: ()) {
        ()
    }
}

impl<'a, This: ?Sized + 'a, P0> RevGetMultiFieldMutImpl<'a, This> for FieldPathSet<
    (P0,),
    UniquePaths,
> where
    P0: IsSingleFieldPath + RevGetFieldMutImpl<'a, This>,
    P0::Ty: 'a,
    Result<&'a mut P0::Ty, P0::Error>: NormalizeFields,
 {
    type UnnormFieldsMut = (Result<&'a mut P0::Ty, P0::Error>,);

    open spec fn rev_multi_field_mut_reads(self, this: &This, r: &Self::UnnormFieldsMut) -> bool {
        match r.0 {
            Ok(x) => self.paths().0.rev_get_field_spec(this) == Ok::<&P0::Ty, P0::Error>(&*x),
            Err(e) => self.paths().0.rev_get_field_spec(this) == Err::<&P0::Ty, P0::Error>(e),
        }
    }

    /// Writing `v` through the reference sets the field to `v`.
    fn rev_get_multi_field_mut_impl(self, this: &'a mut This) -> (r: Self::UnnormFieldsMut)
        ensures
            match r.0 {
                Ok(x) => self.paths().0.rev_field_updated(&*old(this), &*final(this), *final(x)),
                Err(_) => self.paths().0.rev_unchanged(&*old(this), &*final(this)),
            },
    {
        let (p0,) = self.into_paths();
        (p0.rev_get_field_mut(this),)
    }
}

impl<'a, This: 'a> RevIntoMultiFieldImpl<'a, This> for FieldPathSet<(), UniquePaths> {
    type UnnormIntoFields = ();

    open spec fn rev_multi_into_matches(self, this: &This, r: &()) -> bool {
        true
    }

    fn rev_into_multi_field_impl(self, this: This) -> (r: ()) {
        ()
    }
}

impl<'a, This: 'a, P0> RevIntoMultiFieldImpl<'a, This> for FieldPathSet<(P0,), UniquePaths> where
    P0: IsSingleFieldPath + RevIntoFieldImpl<'a, This>,
    Result<P0::Ty, P0::Error>: NormalizeFields,
 {
    type UnnormIntoFields = (Result<P0::Ty, P0::Error>,);

    open spec fn rev_multi_into_matches(self, this: &This, r: &Self::UnnormIntoFields) -> bool {
        match (r.0, self.paths().0.rev_get_field_spec(this)) {
            (Ok(x), Ok(y)) => x == *y,
            (Err(e), Err(f)) => e == f,
            _ => false,
        }
    }

    fn rev_into_multi_field_impl(self, this: This) -> (r: Self::UnnormIntoFields) {
        let (p0,) = self.into_paths();
        (p0.rev_into_field(this),)
    }
}

////////////////////////////////////////////////////////////////////////////////
// Several fields of a value that splits into its fields: each path takes its
// field's slot; the paths do not alias, so each slot is still there.

impl<'a, This: SplitFieldsMut<'a>, N0, N1> RevGetMultiFieldMutImpl<'a, This> for FieldPathSet<
    (TStr<N0>, TStr<N1>),
    UniquePaths,
> where
    N0: TStrName,
    N1: TStrName,
    This: GetFieldImpl<TStr<N0>>,
    This: GetFieldImpl<TStr<N1>>,
    <This as FieldType<TStr<N0>>>::Ty: 'a,
    <This as FieldType<TStr<N1>>>::Ty: 'a,
    This::SlotsMut: TakeFieldMut<'a, This, TStr<N0>>,
    This::SlotsMut: TakeFieldMut<'a, This, TStr<N1>>,
    Result<&'a mut <This as FieldType<TStr<N0>>>::Ty, <This as GetFieldImpl<TStr<N0>>>::Error>: NormalizeFields,
    Result<&'a mut <This as FieldType<TStr<N1>>>::Ty, <This as GetFieldImpl<TStr<N1>>>::Error>: NormalizeFields,
 {
    type UnnormFieldsMut = (
        Result<&'a mut <This as FieldType<TStr<N0>>>::Ty, <This as GetFieldImpl<TStr<N0>>>::Error>,
        Result<&'a mut <This as FieldType<TStr<N1>>>::Ty, <This as GetFieldImpl<TStr<N1>>>::Error>,
    );

    open spec fn rev_multi_field_mut_reads(self, this: &This, r: &Self::UnnormFieldsMut) -> bool {
        match (r.0, r.1) {
            (Ok(x0), Ok(x1)) => <This as GetFieldImpl<TStr<N0>>>::get_field_spec(this) == Ok::<&<This as FieldType<TStr<N0>>>::Ty, <This as GetFieldImpl<TStr<N0>>>::Error>(&*x0) && <This as GetFieldImpl<TStr<N1>>>::get_field_spec(this) == Ok::<&<This as FieldType<TStr<N1>>>::Ty, <This as GetFieldImpl<TStr<N1>>>::Error>(&*x1),
            _ => false,
        }
    }

    fn rev_get_multi_field_mut_impl(self, this: &'a mut This) -> (r: Self::UnnormFieldsMut) {
        let paths = self.into_paths();
        let (p0, p1) = paths;
        proof {
            <This::SlotsMut as TakeFieldMut<'a, This, TStr<N0>>>::lemma_slot_path(p0);
            <This::SlotsMut as TakeFieldMut<'a, This, TStr<N1>>>::lemma_slot_path(p1);
            assert(!is_prefix_of(paths.paths_view()[0], paths.paths_view()[1]));
            lemma_field_names_differ(<This::SlotsMut as TakeFieldMut<'a, This, TStr<N0>>>::slot_name(), <This::SlotsMut as TakeFieldMut<'a, This, TStr<N1>>>::slot_name());
        }
        let mut slots = this.split_fields_mut();
        proof {
            <This::SlotsMut as TakeFieldMut<'a, This, TStr<N0>>>::lemma_all_present(&slots);
            <This::SlotsMut as TakeFieldMut<'a, This, TStr<N1>>>::lemma_all_present(&slots);
        }
        let x0 = slots.take_field_mut(p0);
        let x1 = slots.take_field_mut(p1);
        match (x0, x1) {
            (Some(x0), Some(x1)) => (Ok(x0), Ok(x1)),
            _ => vstd::pervasive::unreached(),
        }
    }
}

impl<'a, This: SplitFieldsInto + 'a, N0, N1> RevIntoMultiFieldImpl<'a, This> for FieldPathSet<
    (TStr<N0>, TStr<N1>),
    UniquePaths,
> where
    N0: TStrName,
    N1: TStrName,
    This: GetFieldImpl<TStr<N0>>,
    This: GetFieldImpl<TStr<N1>>,
    This::SlotsInto: TakeFieldInto<This, TStr<N0>>,
    This::SlotsInto: TakeFieldInto<This, TStr<N1>>,
    Result<<This as FieldType<TStr<N0>>>::Ty, <This as GetFieldImpl<TStr<N0>>>::Error>: NormalizeFields,
    Result<<This as FieldType<TStr<N1>>>::Ty, <This as GetFieldImpl<TStr<N1>>>::Error>: NormalizeFields,
 {
    type UnnormIntoFields = (
        Result<<This as FieldType<TStr<N0>>>::Ty, <This as GetFieldImpl<TStr<N0>>>::Error>,
        Result<<This as FieldType<TStr<N1>>>::Ty, <This as GetFieldImpl<TStr<N1>>>::Error>,
    );

    open spec fn rev_multi_into_matches(self, this: &This, r: &Self::UnnormIntoFields) -> bool {
        match (r.0, r.1) {
            (Ok(x0), Ok(x1)) => <This as GetFieldImpl<TStr<N0>>>::get_field_spec(this) == Ok::<&<This as FieldType<TStr<N0>>>::Ty, <This as GetFieldImpl<TStr<N0>>>::Error>(&x0) && <This as GetFieldImpl<TStr<N1>>>::get_field_spec(this) == Ok::<&<This as FieldType<TStr<N1>>>::Ty, <This as GetFieldImpl<TStr<N1>>>::Error>(&x1),
            _ => false,
        }
    }

    fn rev_into_multi_field_impl(self, this: This) -> (r: Self::UnnormIntoFields) {
        let paths = self.into_paths();
        let (p0, p1) = paths;
        proof {
            <This::SlotsInto as TakeFieldInto<This, TStr<N0>>>::lemma_slot_path(p0);
            <This::SlotsInto as TakeFieldInto<This, TStr<N1>>>::lemma_slot_path(p1);
            assert(!is_prefix_of(paths.paths_view()[0], paths.paths_view()[1]));
            lemma_field_names_differ(<This::SlotsInto as TakeFieldInto<This, TStr<N0>>>::slot_name(), <This::SlotsInto as TakeFieldInto<This, TStr<N1>>>::slot_name());
        }
        let mut slots = this.split_fields_into();
        proof {
            <This::SlotsInto as TakeFieldInto<This, TStr<N0>>>::lemma_all_present(&slots);
            <This::SlotsInto as TakeFieldInto<This, TStr<N1>>>::lemma_all_present(&slots);
        }
        let x0 = slots.take_field_into(p0);
        let x1 = slots.take_field_into(p1);
        match (x0, x1) {
            (Some(x0), Some(x1)) => (Ok(x0), Ok(x1)),
            _ => vstd::pervasive::unreached(),
        }
    }
}

impl<'a, This: SplitFieldsMut<'a>, N0, N1, N2> RevGetMultiFieldMutImpl<'a, This> for FieldPathSet<
    (TStr<N0>, TStr<N1>, TStr<N2>),
    UniquePaths,
> where
    N0: TStrName,
    N1: TStrName,
    N2: TStrName,
    This: GetFieldImpl<TStr<N0>>,
    This: GetFieldImpl<TStr<N1>>,
    This: GetFieldImpl<TStr<N2>>,
    <This as FieldType<TStr<N0>>>::Ty: 'a,
    <This as FieldType<TStr<N1>>>::Ty: 'a,
    <This as FieldType<TStr<N2>>>::Ty: 'a,
    This::SlotsMut: TakeFieldMut<'a, This, TStr<N0>>,
    This::SlotsMut: TakeFieldMut<'a, This, TStr<N1>>,
    This::SlotsMut: TakeFieldMut<'a, This, TStr<N2>>,
    Result<&'a mut <This as FieldType<TStr<N0>>>::Ty, <This as GetFieldImpl<TStr<N0>>>::Error>: NormalizeFields,
    Result<&'a mut <This as FieldType<TStr<N1>>>::Ty, <This as GetFieldImpl<TStr<N1>>>::Error>: NormalizeFields,
    Result<&'a mut <This as FieldType<TStr<N2>>>::Ty, <This as GetFieldImpl<TStr<N2>>>::Error>: NormalizeFields,
 {
    type UnnormFieldsMut = (
        Result<&'a mut <This as FieldType<TStr<N0>>>::Ty, <This as GetFieldImpl<TStr<N0>>>::Error>,
        Result<&'a mut <This as FieldType<TStr<N1>>>::Ty, <This as GetFieldImpl<TStr<N1>>>::Error>,
        Result<&'a mut <This as FieldType<TStr<N2>>>::Ty, <This as GetFieldImpl<TStr<N2>>>::Error>,
    );

    open spec fn rev_multi_field_mut_reads(self, this: &This, r: &Self::UnnormFieldsMut) -> bool {
        match (r.0, r.1, r.2) {
            (Ok(x0), Ok(x1), Ok(x2)) => <This as GetFieldImpl<TStr<N0>>>::get_field_spec(this) == Ok::<&<This as FieldType<TStr<N0>>>::Ty, <This as GetFieldImpl<TStr<N0>>>::Error>(&*x0) && <This as GetFieldImpl<TStr<N1>>>::get_field_spec(this) == Ok::<&<This as FieldType<TStr<N1>>>::Ty, <This as GetFieldImpl<TStr<N1>>>::Error>(&*x1) && <This as GetFieldImpl<TStr<N2>>>::get_field_spec(this) == Ok::<&<This as FieldType<TStr<N2>>>::Ty, <This as GetFieldImpl<TStr<N2>>>::Error>(&*x2),
            _ => false,
        }
    }

    fn rev_get_multi_field_mut_impl(self, this: &'a mut This) -> (r: Self::UnnormFieldsMut) {
        let paths = self.into_paths();
        let (p0, p1, p2) = paths;
        proof {
            <This::SlotsMut as TakeFieldMut<'a, This, TStr<N0>>>::lemma_slot_path(p0);
            <This::SlotsMut as TakeFieldMut<'a, This, TStr<N1>>>::lemma_slot_path(p1);
            <This::SlotsMut as TakeFieldMut<'a, This, TStr<N2>>>::lemma_slot_path(p2);
            assert(!is_prefix_of(paths.paths_view()[0], paths.paths_view()[1]));
            lemma_field_names_differ(<This::SlotsMut as TakeFieldMut<'a, This, TStr<N0>>>::slot_name(), <This::SlotsMut as TakeFieldMut<'a, This, TStr<N1>>>::slot_name());
            assert(!is_prefix_of(paths.paths_view()[0], paths.paths_view()[2]));
            lemma_field_names_differ(<This::SlotsMut as TakeFieldMut<'a, This, TStr<N0>>>::slot_name(), <This::SlotsMut as TakeFieldMut<'a, This, TStr<N2>>>::slot_name());
            assert(!is_prefix_of(paths.paths_view()[1], paths.paths_view()[2]));
            lemma_field_names_differ(<This::SlotsMut as TakeFieldMut<'a, This, TStr<N1>>>::slot_name(), <This::SlotsMut as TakeFieldMut<'a, This, TStr<N2>>>::slot_name());
        }
        let mut slots = this.split_fields_mut();
        proof {
            <This::SlotsMut as TakeFieldMut<'a, This, TStr<N0>>>::lemma_all_present(&slots);
            <This::SlotsMut as TakeFieldMut<'a, This, TStr<N1>>>::lemma_all_present(&slots);
            <This::SlotsMut as TakeFieldMut<'a, This, TStr<N2>>>::lemma_all_present(&slots);
        }
        let x0 = slots.take_field_mut(p0);
        let x1 = slots.take_field_mut(p1);
        let x2 = slots.take_field_mut(p2);
        match (x0, x1, x2) {
            (Some(x0), Some(x1), Some(x2)) => (Ok(x0), Ok(x1), Ok(x2)),
            _ => vstd::pervasive::unreached(),
        }
    }
}

impl<'a, This: SplitFieldsInto + 'a, N0, N1, N2> RevIntoMultiFieldImpl<'a, This> for FieldPathSet<
    (TStr<N0>, TStr<N1>, TStr<N2>),
    UniquePaths,
> where
    N0: TStrName,
    N1: TStrName,
    N2: TStrName,
    This: GetFieldImpl<TStr<N0>>,
    This: GetFieldImpl<TStr<N1>>,
    This: GetFieldImpl<TStr<N2>>,
    This::SlotsInto: TakeFieldInto<This, TStr<N0>>,
    This::SlotsInto: TakeFieldInto<This, TStr<N1>>,
    This::SlotsInto: TakeFieldInto<This, TStr<N2>>,
    Result<<This as FieldType<TStr<N0>>>::Ty, <This as GetFieldImpl<TStr<N0>>>::Error>: NormalizeFields,
    Result<<This as FieldType<TStr<N1>>>::Ty, <This as GetFieldImpl<TStr<N1>>>::Error>: NormalizeFields,
    Result<<This as FieldType<TStr<N2>>>::Ty, <This as GetFieldImpl<TStr<N2>>>::Error>: NormalizeFields,
 {
    type UnnormIntoFields = (
        Result<<This as FieldType<TStr<N0>>>::Ty, <This as GetFieldImpl<TStr<N0>>>::Error>,
        Result<<This as FieldType<TStr<N1>>>::Ty, <This as GetFieldImpl<TStr<N1>>>::Error>,
        Result<<This as FieldType<TStr<N2>>>::Ty, <This as GetFieldImpl<TStr<N2>>>::Error>,
    );

    open spec fn rev_multi_into_matches(self, this: &This, r: &Self::UnnormIntoFields) -> bool {
        match (r.0, r.1, r.2) {
            (Ok(x0), Ok(x1), Ok(x2)) => <This as GetFieldImpl<TStr<N0>>>::get_field_spec(this) == Ok::<&<This as FieldType<TStr<N0>>>::Ty, <This as GetFieldImpl<TStr<N0>>>::Error>(&x0) && <This as GetFieldImpl<TStr<N1>>>::get_field_spec(this) == Ok::<&<This as FieldType<TStr<N1>>>::Ty, <This as GetFieldImpl<TStr<N1>>>::Error>(&x1) && <This as GetFieldImpl<TStr<N2>>>::get_field_spec(this) == Ok::<&<This as FieldType<TStr<N2>>>::Ty, <This as GetFieldImpl<TStr<N2>>>::Error>(&x2),
            _ => false,
        }
    }

    fn rev_into_multi_field_impl(self, this: This) -> (r: Self::UnnormIntoFields) {
        let paths = self.into_paths();
        let (p0, p1, p2) = paths;
        proof {
            <This::SlotsInto as TakeFieldInto<This, TStr<N0>>>::lemma_slot_path(p0);
            <This::SlotsInto as TakeFieldInto<This, TStr<N1>>>::lemma_slot_path(p1);
            <This::SlotsInto as TakeFieldInto<This, TStr<N2>>>::lemma_slot_path(p2);
            assert(!is_prefix_of(paths.paths_view()[0], paths.paths_view()[1]));
            lemma_field_names_differ(<This::SlotsInto as TakeFieldInto<This, TStr<N0>>>::slot_name(), <This::SlotsInto as TakeFieldInto<This, TStr<N1>>>::slot_name());
            assert(!is_prefix_of(paths.paths_view()[0], paths.paths_view()[2]));
            lemma_field_names_differ(<This::SlotsInto as TakeFieldInto<This, TStr<N0>>>::slot_name(), <This::SlotsInto as TakeFieldInto<This, TStr<N2>>>::slot_name());
            assert(!is_prefix_of(paths.paths_view()[1], paths.paths_view()[2]));
            lemma_field_names_differ(<This::SlotsInto as TakeFieldInto<This, TStr<N1>>>::slot_name(), <This::SlotsInto as TakeFieldInto<This, TStr<N2>>>::slot_name());
        }
        let mut slots = this.split_fields_into();
        proof {
            <This::SlotsInto as TakeFieldInto<This, TStr<N0>>>::lemma_all_present(&slots);
            <This::SlotsInto as TakeFieldInto<This, TStr<N1>>>::lemma_all_present(&slots);
            <This::SlotsInto as TakeFieldInto<This, TStr<N2>>>::lemma_all_present(&slots);
        }
        let x0 = slots.take_field_into(p0);
        let x1 = slots.take_field_into(p1);
        let x2 = slots.take_field_into(p2);
        match (x0, x1, x2) {
            (Some(x0), Some(x1), Some(x2)) => (Ok(x0), Ok(x1), Ok(x2)),
            _ => vstd::pervasive::unreached(),
        }
    }
}

impl<'a, This: SplitFieldsMut<'a>, N0, N1, N2, N3> RevGetMultiFieldMutImpl<'a, This> for FieldPathSet<
    (TStr<N0>, TStr<N1>, TStr<N2>, TStr<N3>),
    UniquePaths,
> where
    N0: TStrName,
    N1: TStrName,
    N2: TStrName,
    N3: TStrName,
    This: GetFieldImpl<TStr<N0>>,
    This: GetFieldImpl<TStr<N1>>,
    This: GetFieldImpl<TStr<N2>>,
    This: GetFieldImpl<TStr<N3>>,
    <This as FieldType<TStr<N0>>>::Ty: 'a,
    <This as FieldType<TStr<N1>>>::Ty: 'a,
    <This as FieldType<TStr<N2>>>::Ty: 'a,
    <This as FieldType<TStr<N3>>>::Ty: 'a,
    This::SlotsMut: TakeFieldMut<'a, This, TStr<N0>>,
    This::SlotsMut: TakeFieldMut<'a, This, TStr<N1>>,
    This::SlotsMut: TakeFieldMut<'a, This, TStr<N2>>,
    This::SlotsMut: TakeFieldMut<'a, This, TStr<N3>>,
    Result<&'a mut <This as FieldType<TStr<N0>>>::Ty, <This as GetFieldImpl<TStr<N0>>>::Error>: NormalizeFields,
    Result<&'a mut <This as FieldType<TStr<N1>>>::Ty, <This as GetFieldImpl<TStr<N1>>>::Error>: NormalizeFields,
    Result<&'a mut <This as FieldType<TStr<N2>>>::Ty, <This as GetFieldImpl<TStr<N2>>>::Error>: NormalizeFields,
    Result<&'a mut <This as FieldType<TStr<N3>>>::Ty, <This as GetFieldImpl<TStr<N3>>>::Error>: NormalizeFields,
 {
    type UnnormFieldsMut = (
        Result<&'a mut <This as FieldType<TStr<N0>>>::Ty, <This as GetFieldImpl<TStr<N0>>>::Error>,
        Result<&'a mut <This as FieldType<TStr<N1>>>::Ty, <This as GetFieldImpl<TStr<N1>>>::Error>,
        Result<&'a mut <This as FieldType<TStr<N2>>>::Ty, <This as GetFieldImpl<TStr<N2>>>::Error>,
        Result<&'a mut <This as FieldType<TStr<N3>>>::Ty, <This as GetFieldImpl<TStr<N3>>>::Error>,
    );

    open spec fn rev_multi_field_mut_reads(self, this: &This, r: &Self::UnnormFieldsMut) -> bool {
        match (r.0, r.1, r.2, r.3) {
            (Ok(x0), Ok(x1), Ok(x2), Ok(x3)) => <This as GetFieldImpl<TStr<N0>>>::get_field_spec(this) == Ok::<&<This as FieldType<TStr<N0>>>::Ty, <This as GetFieldImpl<TStr<N0>>>::Error>(&*x0) && <This as GetFieldImpl<TStr<N1>>>::get_field_spec(this) == Ok::<&<This as FieldType<TStr<N1>>>::Ty, <This as GetFieldImpl<TStr<N1>>>::Error>(&*x1) && <This as GetFieldImpl<TStr<N2>>>::get_field_spec(this) == Ok::<&<This as FieldType<TStr<N2>>>::Ty, <This as GetFieldImpl<TStr<N2>>>::Error>(&*x2) && <This as GetFieldImpl<TStr<N3>>>::get_field_spec(this) == Ok::<&<This as FieldType<TStr<N3>>>::Ty, <This as GetFieldImpl<TStr<N3>>>::Error>(&*x3),
            _ => false,
        }
    }

    fn rev_get_multi_field_mut_impl(self, this: &'a mut This) -> (r: Self::UnnormFieldsMut) {
        let paths = self.into_paths();
        let (p0, p1, p2, p3) = paths;
        proof {
            <This::SlotsMut as TakeFieldMut<'a, This, TStr<N0>>>::lemma_slot_path(p0);
            <This::SlotsMut as TakeFieldMut<'a, This, TStr<N1>>>::lemma_slot_path(p1);
            <This::SlotsMut as TakeFieldMut<'a, This, TStr<N2>>>::lemma_slot_path(p2);
            <This::SlotsMut as TakeFieldMut<'a, This, TStr<N3>>>::lemma_slot_path(p3);
            assert(!is_prefix_of(paths.paths_view()[0], paths.paths_view()[1]));
            lemma_field_names_differ(<This::SlotsMut as TakeFieldMut<'a, This, TStr<N0>>>::slot_name(), <This::SlotsMut as TakeFieldMut<'a, This, TStr<N1>>>::slot_name());
            assert(!is_prefix_of(paths.paths_view()[0], paths.paths_view()[2]));
            lemma_field_names_differ(<This::SlotsMut as TakeFieldMut<'a, This, TStr<N0>>>::slot_name(), <This::SlotsMut as TakeFieldMut<'a, This, TStr<N2>>>::slot_name());
            assert(!is_prefix_of(paths.paths_view()[0], paths.paths_view()[3]));
            lemma_field_names_differ(<This::SlotsMut as TakeFieldMut<'a, This, TStr<N0>>>::slot_name(), <This::SlotsMut as TakeFieldMut<'a, This, TStr<N3>>>::slot_name());
            assert(!is_prefix_of(paths.paths_view()[1], paths.paths_view()[2]));
            lemma_field_names_differ(<This::SlotsMut as TakeFieldMut<'a, This, TStr<N1>>>::slot_name(), <This::SlotsMut as TakeFieldMut<'a, This, TStr<N2>>>::slot_name());
            assert(!is_prefix_of(paths.paths_view()[1], paths.paths_view()[3]));
            lemma_field_names_differ(<This::SlotsMut as TakeFieldMut<'a, This, TStr<N1>>>::slot_name(), <This::SlotsMut as TakeFieldMut<'a, This, TStr<N3>>>::slot_name());
            assert(!is_prefix_of(paths.paths_view()[2], paths.paths_view()[3]));
            lemma_field_names_differ(<This::SlotsMut as TakeFieldMut<'a, This, TStr<N2>>>::slot_name(), <This::SlotsMut as TakeFieldMut<'a, This, TStr<N3>>>::slot_name());
        }
        let mut slots = this.split_fields_mut();
        proof {
            <This::SlotsMut as TakeFieldMut<'a, This, TStr<N0>>>::lemma_all_present(&slots);
            <This::SlotsMut as TakeFieldMut<'a, This, TStr<N1>>>::lemma_all_present(&slots);
            <This::SlotsMut as TakeFieldMut<'a, This, TStr<N2>>>::lemma_all_present(&slots);
            <This::SlotsMut as TakeFieldMut<'a, This, TStr<N3>>>::lemma_all_present(&slots);
        }
        let x0 = slots.take_field_mut(p0);
        let x1 = slots.take_field_mut(p1);
        let x2 = slots.take_field_mut(p2);
        let x3 = slots.take_field_mut(p3);
        match (x0, x1, x2, x3) {
            (Some(x0), Some(x1), Some(x2), Some(x3)) => (Ok(x0), Ok(x1), Ok(x2), Ok(x3)),
            _ => vstd::pervasive::unreached(),
        }
    }
}

impl<'a, This: SplitFieldsInto + 'a, N0, N1, N2, N3> RevIntoMultiFieldImpl<'a, This> for FieldPathSet<
    (TStr<N0>, TStr<N1>, TStr<N2>, TStr<N3>),
    UniquePaths,
> where
    N0: TStrName,
    N1: TStrName,
    N2: TStrName,
    N3: TStrName,
    This: GetFieldImpl<TStr<N0>>,
    This: GetFieldImpl<TStr<N1>>,
    This: GetFieldImpl<TStr<N2>>,
    This: GetFieldImpl<TStr<N3>>,
    This::SlotsInto: TakeFieldInto<This, TStr<N0>>,
    This::SlotsInto: TakeFieldInto<This, TStr<N1>>,
    This::SlotsInto: TakeFieldInto<This, TStr<N2>>,
    This::SlotsInto: TakeFieldInto<This, TStr<N3>>,
    Result<<This as FieldType<TStr<N0>>>::Ty, <This as GetFieldImpl<TStr<N0>>>::Error>: NormalizeFields,
    Result<<This as FieldType<TStr<N1>>>::Ty, <This as GetFieldImpl<TStr<N1>>>::Error>: NormalizeFields,
    Result<<This as FieldType<TStr<N2>>>::Ty, <This as GetFieldImpl<TStr<N2>>>::Error>: NormalizeFields,
    Result<<This as FieldType<TStr<N3>>>::Ty, <This as GetFieldImpl<TStr<N3>>>::Error>: NormalizeFields,
 {
    type UnnormIntoFields = (
        Result<<This as FieldType<TStr<N0>>>::Ty, <This as GetFieldImpl<TStr<N0>>>::Error>,
        Result<<This as FieldType<TStr<N1>>>::Ty, <This as GetFieldImpl<TStr<N1>>>::Error>,
        Result<<This as FieldType<TStr<N2>>>::Ty, <This as GetFieldImpl<TStr<N2>>>::Error>,
        Result<<This as FieldType<TStr<N3>>>::Ty, <This as GetFieldImpl<TStr<N3>>>::Error>,
    );

    open spec fn rev_multi_into_matches(self, this: &This, r: &Self::UnnormIntoFields) -> bool {
        match (r.0, r.1, r.2, r.3) {
            (Ok(x0), Ok(x1), Ok(x2), Ok(x3)) => <This as GetFieldImpl<TStr<N0>>>::get_field_spec(this) == Ok::<&<This as FieldType<TStr<N0>>>::Ty, <This as GetFieldImpl<TStr<N0>>>::Error>(&x0) && <This as GetFieldImpl<TStr<N1>>>::get_field_spec(this) == Ok::<&<This as FieldType<TStr<N1>>>::Ty, <This as GetFieldImpl<TStr<N1>>>::Error>(&x1) && <This as GetFieldImpl<TStr<N2>>>::get_field_spec(this) == Ok::<&<This as FieldType<TStr<N2>>>::Ty, <This as GetFieldImpl<TStr<N2>>>::Error>(&x2) && <This as GetFieldImpl<TStr<N3>>>::get_field_spec(this) == Ok::<&<This as FieldType<TStr<N3>>>::Ty, <This as GetFieldImpl<TStr<N3>>>::Error>(&x3),
            _ => false,
        }
    }

    fn rev_into_multi_field_impl(self, this: This) -> (r: Self::UnnormIntoFields) {
        let paths = self.into_paths();
        let (p0, p1, p2, p3) = paths;
        proof {
            <This::SlotsInto as TakeFieldInto<This, TStr<N0>>>::lemma_slot_path(p0);
            <This::SlotsInto as TakeFieldInto<This, TStr<N1>>>::lemma_slot_path(p1);
            <This::SlotsInto as TakeFieldInto<This, TStr<N2>>>::lemma_slot_path(p2);
            <This::SlotsInto as TakeFieldInto<This, TStr<N3>>>::lemma_slot_path(p3);
            assert(!is_prefix_of(paths.paths_view()[0], paths.paths_view()[1]));
            lemma_field_names_differ(<This::SlotsInto as TakeFieldInto<This, TStr<N0>>>::slot_name(), <This::SlotsInto as TakeFieldInto<This, TStr<N1>>>::slot_name());
            assert(!is_prefix_of(paths.paths_view()[0], paths.paths_view()[2]));
            lemma_field_names_differ(<This::SlotsInto as TakeFieldInto<This, TStr<N0>>>::slot_name(), <This::SlotsInto as TakeFieldInto<This, TStr<N2>>>::slot_name());
            assert(!is_prefix_of(paths.paths_view()[0], paths.paths_view()[3]));
            lemma_field_names_differ(<This::SlotsInto as TakeFieldInto<This, TStr<N0>>>::slot_name(), <This::SlotsInto as TakeFieldInto<This, TStr<N3>>>::slot_name());
            assert(!is_prefix_of(paths.paths_view()[1], paths.paths_view()[2]));
            lemma_field_names_differ(<This::SlotsInto as TakeFieldInto<This, TStr<N1>>>::slot_name(), <This::SlotsInto as TakeFieldInto<This, TStr<N2>>>::slot_name());
            assert(!is_prefix_of(paths.paths_view()[1], paths.paths_view()[3]));
            lemma_field_names_differ(<This::SlotsInto as TakeFieldInto<This, TStr<N1>>>::slot_name(), <This::SlotsInto as TakeFieldInto<This, TStr<N3>>>::slot_name());
            assert(!is_prefix_of(paths.paths_view()[2], paths.paths_view()[3]));
            lemma_field_names_differ(<This::SlotsInto as TakeFieldInto<This, TStr<N2>>>::slot_name(), <This::SlotsInto as TakeFieldInto<This, TStr<N3>>>::slot_name());
        }
        let mut slots = this.split_fields_into();
        proof {
            <This::SlotsInto as TakeFieldInto<This, TStr<N0>>>::lemma_all_present(&slots);
            <This::SlotsInto as TakeFieldInto<This, TStr<N1>>>::lemma_all_present(&slots);
            <This::SlotsInto as TakeFieldInto<This, TStr<N2>>>::lemma_all_present(&slots);
            <This::SlotsInto as TakeFieldInto<This, TStr<N3>>>::lemma_all_present(&slots);
        }
        let x0 = slots.take_field_into(p0);
        let x1 = slots.take_field_into(p1);
        let x2 = slots.take_field_into(p2);
        let x3 = slots.take_field_into(p3);
        match (x0, x1, x2, x3) {
            (Some(x0), Some(x1), Some(x2), Some(x3)) => (Ok(x0), Ok(x1), Ok(x2), Ok(x3)),
            _ => vstd::pervasive::unreached(),
        }
    }
}

impl<'a, This: SplitFieldsMut<'a>, N0, N1, N2, N3, N4> RevGetMultiFieldMutImpl<'a, This> for FieldPathSet<
    (TStr<N0>, TStr<N1>, TStr<N2>, TStr<N3>, TStr<N4>),
    UniquePaths,
> where
    N0: TStrName,
    N1: TStrName,
    N2: TStrName,
    N3: TStrName,
    N4: TStrName,
    This: GetFieldImpl<TStr<N0>>,
    This: GetFieldImpl<TStr<N1>>,
    This: GetFieldImpl<TStr<N2>>,
    This: GetFieldImpl<TStr<N3>>,
    This: GetFieldImpl<TStr<N4>>,
    <This as FieldType<TStr<N0>>>::Ty: 'a,
    <This as FieldType<TStr<N1>>>::Ty: 'a,
    <This as FieldType<TStr<N2>>>::Ty: 'a,
    <This as FieldType<TStr<N3>>>::Ty: 'a,
    <This as FieldType<TStr<N4>>>::Ty: 'a,
    This::SlotsMut: TakeFieldMut<'a, This, TStr<N0>>,
    This::SlotsMut: TakeFieldMut<'a, This, TStr<N1>>,
    This::SlotsMut: TakeFieldMut<'a, This, TStr<N2>>,
    This::SlotsMut: TakeFieldMut<'a, This, TStr<N3>>,
    This::SlotsMut: TakeFieldMut<'a, This, TStr<N4>>,
    Result<&'a mut <This as FieldType<TStr<N0>>>::Ty, <This as GetFieldImpl<TStr<N0>>>::Error>: NormalizeFields,
    Result<&'a mut <This as FieldType<TStr<N1>>>::Ty, <This as GetFieldImpl<TStr<N1>>>::Error>: NormalizeFields,
    Result<&'a mut <This as FieldType<TStr<N2>>>::Ty, <This as GetFieldImpl<TStr<N2>>>::Error>: NormalizeFields,
    Result<&'a mut <This as FieldType<TStr<N3>>>::Ty, <This as GetFieldImpl<TStr<N3>>>::Error>: NormalizeFields,
    Result<&'a mut <This as FieldType<TStr<N4>>>::Ty, <This as GetFieldImpl<TStr<N4>>>::Error>: NormalizeFields,
 {
    type UnnormFieldsMut = (
        Result<&'a mut <This as FieldType<TStr<N0>>>::Ty, <This as GetFieldImpl<TStr<N0>>>::Error>,
        Result<&'a mut <This as FieldType<TStr<N1>>>::Ty, <This as GetFieldImpl<TStr<N1>>>::Error>,
        Result<&'a mut <This as FieldType<TStr<N2>>>::Ty, <This as GetFieldImpl<TStr<N2>>>::Error>,
        Result<&'a mut <This as FieldType<TStr<N3>>>::Ty, <This as GetFieldImpl<TStr<N3>>>::Error>,
        Result<&'a mut <This as FieldType<TStr<N4>>>::Ty, <This as GetFieldImpl<TStr<N4>>>::Error>,
    );

    open spec fn rev_multi_field_mut_reads(self, this: &This, r: &Self::UnnormFieldsMut) -> bool {
        match (r.0, r.1, r.2, r.3, r.4) {
            (Ok(x0), Ok(x1), Ok(x2), Ok(x3), Ok(x4)) => <This as GetFieldImpl<TStr<N0>>>::get_field_spec(this) == Ok::<&<This as FieldType<TStr<N0>>>::Ty, <This as GetFieldImpl<TStr<N0>>>::Error>(&*x0) && <This as GetFieldImpl<TStr<N1>>>::get_field_spec(this) == Ok::<&<This as FieldType<TStr<N1>>>::Ty, <This as GetFieldImpl<TStr<N1>>>::Error>(&*x1) && <This as GetFieldImpl<TStr<N2>>>::get_field_spec(this) == Ok::<&<This as FieldType<TStr<N2>>>::Ty, <This as GetFieldImpl<TStr<N2>>>::Error>(&*x2) && <This as GetFieldImpl<TStr<N3>>>::get_field_spec(this) == Ok::<&<This as FieldType<TStr<N3>>>::Ty, <This as GetFieldImpl<TStr<N3>>>::Error>(&*x3) && <This as GetFieldImpl<TStr<N4>>>::get_field_spec(this) == Ok::<&<This as FieldType<TStr<N4>>>::Ty, <This as GetFieldImpl<TStr<N4>>>::Error>(&*x4),
            _ => false,
        }
    }

    fn rev_get_multi_field_mut_impl(self, this: &'a mut This) -> (r: Self::UnnormFieldsMut) {
        let paths = self.into_paths();
        let (p0, p1, p2, p3, p4) = paths;
        proof {
            <This::SlotsMut as TakeFieldMut<'a, This, TStr<N0>>>::lemma_slot_path(p0);
            <This::SlotsMut as TakeFieldMut<'a, This, TStr<N1>>>::lemma_slot_path(p1);
            <This::SlotsMut as TakeFieldMut<'a, This, TStr<N2>>>::lemma_slot_path(p2);
            <This::SlotsMut as TakeFieldMut<'a, This, TStr<N3>>>::lemma_slot_path(p3);
            <This::SlotsMut as TakeFieldMut<'a, This, TStr<N4>>>::lemma_slot_path(p4);
            assert(!is_prefix_of(paths.paths_view()[0], paths.paths_view()[1]));
            lemma_field_names_differ(<This::SlotsMut as TakeFieldMut<'a, This, TStr<N0>>>::slot_name(), <This::SlotsMut as TakeFieldMut<'a, This, TStr<N1>>>::slot_name());
            assert(!is_prefix_of(paths.paths_view()[0], paths.paths_view()[2]));
            lemma_field_names_differ(<This::SlotsMut as TakeFieldMut<'a, This, TStr<N0>>>::slot_name(), <This::SlotsMut as TakeFieldMut<'a, This, TStr<N2>>>::slot_name());
            assert(!is_prefix_of(paths.paths_view()[0], paths.paths_view()[3]));
            lemma_field_names_differ(<This::SlotsMut as TakeFieldMut<'a, This, TStr<N0>>>::slot_name(), <This::SlotsMut as TakeFieldMut<'a, This, TStr<N3>>>::slot_name());
            assert(!is_prefix_of(paths.paths_view()[0], paths.paths_view()[4]));
            lemma_field_names_differ(<This::SlotsMut as TakeFieldMut<'a, This, TStr<N0>>>::slot_name(), <This::SlotsMut as TakeFieldMut<'a, This, TStr<N4>>>::slot_name());
            assert(!is_prefix_of(paths.paths_view()[1], paths.paths_view()[2]));
            lemma_field_names_differ(<This::SlotsMut as TakeFieldMut<'a, This, TStr<N1>>>::slot_name(), <This::SlotsMut as TakeFieldMut<'a, This, TStr<N2>>>::slot_name());
            assert(!is_prefix_of(paths.paths_view()[1], paths.paths_view()[3]));
            lemma_field_names_differ(<This::SlotsMut as TakeFieldMut<'a, This, TStr<N1>>>::slot_name(), <This::SlotsMut as TakeFieldMut<'a, This, TStr<N3>>>::slot_name());
            assert(!is_prefix_of(paths.paths_view()[1], paths.paths_view()[4]));
            lemma_field_names_differ(<This::SlotsMut as TakeFieldMut<'a, This, TStr<N1>>>::slot_name(), <This::SlotsMut as TakeFieldMut<'a, This, TStr<N4>>>::slot_name());
            assert(!is_prefix_of(paths.paths_view()[2], paths.paths_view()[3]));
            lemma_field_names_differ(<This::SlotsMut as TakeFieldMut<'a, This, TStr<N2>>>::slot_name(), <This::SlotsMut as TakeFieldMut<'a, This, TStr<N3>>>::slot_name());
            assert(!is_prefix_of(paths.paths_view()[2], paths.paths_view()[4]));
            lemma_field_names_differ(<This::SlotsMut as TakeFieldMut<'a, This, TStr<N2>>>::slot_name(), <This::SlotsMut as TakeFieldMut<'a, This, TStr<N4>>>::slot_name());
            assert(!is_prefix_of(paths.paths_view()[3], paths.paths_view()[4]));
            lemma_field_names_differ(<This::SlotsMut as TakeFieldMut<'a, This, TStr<N3>>>::slot_name(), <This::SlotsMut as TakeFieldMut<'a, This, TStr<N4>>>::slot_name());
        }
        let mut slots = this.split_fields_mut();
        proof {
            <This::SlotsMut as TakeFieldMut<'a, This, TStr<N0>>>::lemma_all_present(&slots);
            <This::SlotsMut as TakeFieldMut<'a, This, TStr<N1>>>::lemma_all_present(&slots);
            <This::SlotsMut as TakeFieldMut<'a, This, TStr<N2>>>::lemma_all_present(&slots);
            <This::SlotsMut as TakeFieldMut<'a, This, TStr<N3>>>::lemma_all_present(&slots);
            <This::SlotsMut as TakeFieldMut<'a, This, TStr<N4>>>::lemma_all_present(&slots);
        }
        let x0 = slots.take_field_mut(p0);
        let x1 = slots.take_field_mut(p1);
        let x2 = slots.take_field_mut(p2);
        let x3 = slots.take_field_mut(p3);
        let x4 = slots.take_field_mut(p4);
        match (x0, x1, x2, x3, x4) {
            (Some(x0), Some(x1), Some(x2), Some(x3), Some(x4)) => (Ok(x0), Ok(x1), Ok(x2), Ok(x3), Ok(x4)),
            _ => vstd::pervasive::unreached(),
        }
    }
}

impl<'a, This: SplitFieldsInto + 'a, N0, N1, N2, N3, N4> RevIntoMultiFieldImpl<'a, This> for FieldPathSet<
    (TStr<N0>, TStr<N1>, TStr<N2>, TStr<N3>, TStr<N4>),
    UniquePaths,
> where
    N0: TStrName,
    N1: TStrName,
    N2: TStrName,
    N3: TStrName,
    N4: TStrName,
    This: GetFieldImpl<TStr<N0>>,
    This: GetFieldImpl<TStr<N1>>,
    This: GetFieldImpl<TStr<N2>>,
    This: GetFieldImpl<TStr<N3>>,
    This: GetFieldImpl<TStr<N4>>,
    This::SlotsInto: TakeFieldInto<This, TStr<N0>>,
    This::SlotsInto: TakeFieldInto<This, TStr<N1>>,
    This::SlotsInto: TakeFieldInto<This, TStr<N2>>,
    This::SlotsInto: TakeFieldInto<This, TStr<N3>>,
    This::SlotsInto: TakeFieldInto<This, TStr<N4>>,
    Result<<This as FieldType<TStr<N0>>>::Ty, <This as GetFieldImpl<TStr<N0>>>::Error>: NormalizeFields,
    Result<<This as FieldType<TStr<N1>>>::Ty, <This as GetFieldImpl<TStr<N1>>>::Error>: NormalizeFields,
    Result<<This as FieldType<TStr<N2>>>::Ty, <This as GetFieldImpl<TStr<N2>>>::Error>: NormalizeFields,
    Result<<This as FieldType<TStr<N3>>>::Ty, <This as GetFieldImpl<TStr<N3>>>::Error>: NormalizeFields,
    Result<<This as FieldType<TStr<N4>>>::Ty, <This as GetFieldImpl<TStr<N4>>>::Error>: NormalizeFields,
 {
    type UnnormIntoFields = (
        Result<<This as FieldType<TStr<N0>>>::Ty, <This as GetFieldImpl<TStr<N0>>>::Error>,
        Result<<This as FieldType<TStr<N1>>>::Ty, <This as GetFieldImpl<TStr<N1>>>::Error>,
        Result<<This as FieldType<TStr<N2>>>::Ty, <This as GetFieldImpl<TStr<N2>>>::Error>,
        Result<<This as FieldType<TStr<N3>>>::Ty, <This as GetFieldImpl<TStr<N3>>>::Error>,
        Result<<This as FieldType<TStr<N4>>>::Ty, <This as GetFieldImpl<TStr<N4>>>::Error>,
    );

    open spec fn rev_multi_into_matches(self, this: &This, r: &Self::UnnormIntoFields) -> bool {
        match (r.0, r.1, r.2, r.3, r.4) {
            (Ok(x0), Ok(x1), Ok(x2), Ok(x3), Ok(x4)) => <This as GetFieldImpl<TStr<N0>>>::get_field_spec(this) == Ok::<&<This as FieldType<TStr<N0>>>::Ty, <This as GetFieldImpl<TStr<N0>>>::Error>(&x0) && <This as GetFieldImpl<TStr<N1>>>::get_field_spec(this) == Ok::<&<This as FieldType<TStr<N1>>>::Ty, <This as GetFieldImpl<TStr<N1>>>::Error>(&x1) && <This as GetFieldImpl<TStr<N2>>>::get_field_spec(this) == Ok::<&<This as FieldType<TStr<N2>>>::Ty, <This as GetFieldImpl<TStr<N2>>>::Error>(&x2) && <This as GetFieldImpl<TStr<N3>>>::get_field_spec(this) == Ok::<&<This as FieldType<TStr<N3>>>::Ty, <This as GetFieldImpl<TStr<N3>>>::Error>(&x3) && <This as GetFieldImpl<TStr<N4>>>::get_field_spec(this) == Ok::<&<This as FieldType<TStr<N4>>>::Ty, <This as GetFieldImpl<TStr<N4>>>::Error>(&x4),
            _ => false,
        }
    }

    fn rev_into_multi_field_impl(self, this: This) -> (r: Self::UnnormIntoFields) {
        let paths = self.into_paths();
        let (p0, p1, p2, p3, p4) = paths;
        proof {
            <This::SlotsInto as TakeFieldInto<This, TStr<N0>>>::lemma_slot_path(p0);
            <This::SlotsInto as TakeFieldInto<This, TStr<N1>>>::lemma_slot_path(p1);
            <This::SlotsInto as TakeFieldInto<This, TStr<N2>>>::lemma_slot_path(p2);
            <This::SlotsInto as TakeFieldInto<This, TStr<N3>>>::lemma_slot_path(p3);
            <This::SlotsInto as TakeFieldInto<This, TStr<N4>>>::lemma_slot_path(p4);
            assert(!is_prefix_of(paths.paths_view()[0], paths.paths_view()[1]));
            lemma_field_names_differ(<This::SlotsInto as TakeFieldInto<This, TStr<N0>>>::slot_name(), <This::SlotsInto as TakeFieldInto<This, TStr<N1>>>::slot_name());
            assert(!is_prefix_of(paths.paths_view()[0], paths.paths_view()[2]));
            lemma_field_names_differ(<This::SlotsInto as TakeFieldInto<This, TStr<N0>>>::slot_name(), <This::SlotsInto as TakeFieldInto<This, TStr<N2>>>::slot_name());
            assert(!is_prefix_of(paths.paths_view()[0], paths.paths_view()[3]));
            lemma_field_names_differ(<This::SlotsInto as TakeFieldInto<This, TStr<N0>>>::slot_name(), <This::SlotsInto as TakeFieldInto<This, TStr<N3>>>::slot_name());
            assert(!is_prefix_of(paths.paths_view()[0], paths.paths_view()[4]));
            lemma_field_names_differ(<This::SlotsInto as TakeFieldInto<This, TStr<N0>>>::slot_name(), <This::SlotsInto as TakeFieldInto<This, TStr<N4>>>::slot_name());
            assert(!is_prefix_of(paths.paths_view()[1], paths.paths_view()[2]));
            lemma_field_names_differ(<This::SlotsInto as TakeFieldInto<This, TStr<N1>>>::slot_name(), <This::SlotsInto as TakeFieldInto<This, TStr<N2>>>::slot_name());
            assert(!is_prefix_of(paths.paths_view()[1], paths.paths_view()[3]));
            lemma_field_names_differ(<This::SlotsInto as TakeFieldInto<This, TStr<N1>>>::slot_name(), <This::SlotsInto as TakeFieldInto<This, TStr<N3>>>::slot_name());
            assert(!is_prefix_of(paths.paths_view()[1], paths.paths_view()[4]));
            lemma_field_names_differ(<This::SlotsInto as TakeFieldInto<This, TStr<N1>>>::slot_name(), <This::SlotsInto as TakeFieldInto<This, TStr<N4>>>::slot_name());
            assert(!is_prefix_of(paths.paths_view()[2], paths.paths_view()[3]));
            lemma_field_names_differ(<This::SlotsInto as TakeFieldInto<This, TStr<N2>>>::slot_name(), <This::SlotsInto as TakeFieldInto<This, TStr<N3>>>::slot_name());
            assert(!is_prefix_of(paths.paths_view()[2], paths.paths_view()[4]));
            lemma_field_names_differ(<This::SlotsInto as TakeFieldInto<This, TStr<N2>>>::slot_name(), <This::SlotsInto as TakeFieldInto<This, TStr<N4>>>::slot_name());
            assert(!is_prefix_of(paths.paths_view()[3], paths.paths_view()[4]));
            lemma_field_names_differ(<This::SlotsInto as TakeFieldInto<This, TStr<N3>>>::slot_name(), <This::SlotsInto as TakeFieldInto<This, TStr<N4>>>::slot_name());
        }
        let mut slots = this.split_fields_into();
        proof {
            <This::SlotsInto as TakeFieldInto<This, TStr<N0>>>::lemma_all_present(&slots);
            <This::SlotsInto as TakeFieldInto<This, TStr<N1>>>::lemma_all_present(&slots);
            <This::SlotsInto as TakeFieldInto<This, TStr<N2>>>::lemma_all_present(&slots);
            <This::SlotsInto as TakeFieldInto<This, TStr<N3>>>::lemma_all_present(&slots);
            <This::SlotsInto as TakeFieldInto<This, TStr<N4>>>::lemma_all_present(&slots);
        }
        let x0 = slots.take_field_into(p0);
        let x1 = slots.take_field_into(p1);
        let x2 = slots.take_field_into(p2);
        let x3 = slots.take_field_into(p3);
        let x4 = slots.take_field_into(p4);
        match (x0, x1, x2, x3, x4) {
            (Some(x0), Some(x1), Some(x2), Some(x3), Some(x4)) => (Ok(x0), Ok(x1), Ok(x2), Ok(x3), Ok(x4)),
            _ => vstd::pervasive::unreached(),
        }
    }
}

impl<'a, This: SplitFieldsMut<'a>, N0, N1, N2, N3, N4, N5> RevGetMultiFieldMutImpl<'a, This> for FieldPathSet<
    (TStr<N0>, TStr<N1>, TStr<N2>, TStr<N3>, TStr<N4>, TStr<N5>),
    UniquePaths,
> where
    N0: TStrName,
    N1: TStrName,
    N2: TStrName,
    N3: TStrName,
    N4: TStrName,
    N5: TStrName,
    This: GetFieldImpl<TStr<N0>>,
    This: GetFieldImpl<TStr<N1>>,
    This: GetFieldImpl<TStr<N2>>,
    This: GetFieldImpl<TStr<N3>>,
    This: GetFieldImpl<TStr<N4>>,
    This: GetFieldImpl<TStr<N5>>,
    <This as FieldType<TStr<N0>>>::Ty: 'a,
    <This as FieldType<TStr<N1>>>::Ty: 'a,
    <This as FieldType<TStr<N2>>>::Ty: 'a,
    <This as FieldType<TStr<N3>>>::Ty: 'a,
    <This as FieldType<TStr<N4>>>::Ty: 'a,
    <This as FieldType<TStr<N5>>>::Ty: 'a,
    This::SlotsMut: TakeFieldMut<'a, This, TStr<N0>>,
    This::SlotsMut: TakeFieldMut<'a, This, TStr<N1>>,
    This::SlotsMut: TakeFieldMut<'a, This, TStr<N2>>,
    This::SlotsMut: TakeFieldMut<'a, This, TStr<N3>>,
    This::SlotsMut: TakeFieldMut<'a, This, TStr<N4>>,
    This::SlotsMut: TakeFieldMut<'a, This, TStr<N5>>,
    Result<&'a mut <This as FieldType<TStr<N0>>>::Ty, <This as GetFieldImpl<TStr<N0>>>::Error>: NormalizeFields,
    Result<&'a mut <This as FieldType<TStr<N1>>>::Ty, <This as GetFieldImpl<TStr<N1>>>::Error>: NormalizeFields,
    Result<&'a mut <This as FieldType<TStr<N2>>>::Ty, <This as GetFieldImpl<TStr<N2>>>::Error>: NormalizeFields,
    Result<&'a mut <This as FieldType<TStr<N3>>>::Ty, <This as GetFieldImpl<TStr<N3>>>::Error>: NormalizeFields,
    Result<&'a mut <This as FieldType<TStr<N4>>>::Ty, <This as GetFieldImpl<TStr<N4>>>::Error>: NormalizeFields,
    Result<&'a mut <This as FieldType<TStr<N5>>>::Ty, <This as GetFieldImpl<TStr<N5>>>::Error>: NormalizeFields,
 {
    type UnnormFieldsMut = (
        Result<&'a mut <This as FieldType<TStr<N0>>>::Ty, <This as GetFieldImpl<TStr<N0>>>::Error>,
        Result<&'a mut <This as FieldType<TStr<N1>>>::Ty, <This as GetFieldImpl<TStr<N1>>>::Error>,
        Result<&'a mut <This as FieldType<TStr<N2>>>::Ty, <This as GetFieldImpl<TStr<N2>>>::Error>,
        Result<&'a mut <This as FieldType<TStr<N3>>>::Ty, <This as GetFieldImpl<TStr<N3>>>::Error>,
        Result<&'a mut <This as FieldType<TStr<N4>>>::Ty, <This as GetFieldImpl<TStr<N4>>>::Error>,
        Result<&'a mut <This as FieldType<TStr<N5>>>::Ty, <This as GetFieldImpl<TStr<N5>>>::Error>,
    );

    open spec fn rev_multi_field_mut_reads(self, this: &This, r: &Self::UnnormFieldsMut) -> bool {
        match (r.0, r.1, r.2, r.3, r.4, r.5) {
            (Ok(x0), Ok(x1), Ok(x2), Ok(x3), Ok(x4), Ok(x5)) => <This as GetFieldImpl<TStr<N0>>>::get_field_spec(this) == Ok::<&<This as FieldType<TStr<N0>>>::Ty, <This as GetFieldImpl<TStr<N0>>>::Error>(&*x0) && <This as GetFieldImpl<TStr<N1>>>::get_field_spec(this) == Ok::<&<This as FieldType<TStr<N1>>>::Ty, <This as GetFieldImpl<TStr<N1>>>::Error>(&*x1) && <This as GetFieldImpl<TStr<N2>>>::get_field_spec(this) == Ok::<&<This as FieldType<TStr<N2>>>::Ty, <This as GetFieldImpl<TStr<N2>>>::Error>(&*x2) && <This as GetFieldImpl<TStr<N3>>>::get_field_spec(this) == Ok::<&<This as FieldType<TStr<N3>>>::Ty, <This as GetFieldImpl<TStr<N3>>>::Error>(&*x3) && <This as GetFieldImpl<TStr<N4>>>::get_field_spec(this) == Ok::<&<This as FieldType<TStr<N4>>>::Ty, <This as GetFieldImpl<TStr<N4>>>::Error>(&*x4) && <This as GetFieldImpl<TStr<N5>>>::get_field_spec(this) == Ok::<&<This as FieldType<TStr<N5>>>::Ty, <This as GetFieldImpl<TStr<N5>>>::Error>(&*x5),
            _ => false,
        }
    }

    fn rev_get_multi_field_mut_impl(self, this: &'a mut This) -> (r: Self::UnnormFieldsMut) {
        let paths = self.into_paths();
        let (p0, p1, p2, p3, p4, p5) = paths;
        proof {
            <This::SlotsMut as TakeFieldMut<'a, This, TStr<N0>>>::lemma_slot_path(p0);
            <This::SlotsMut as TakeFieldMut<'a, This, TStr<N1>>>::lemma_slot_path(p1);
            <This::SlotsMut as TakeFieldMut<'a, This, TStr<N2>>>::lemma_slot_path(p2);
            <This::SlotsMut as TakeFieldMut<'a, This, TStr<N3>>>::lemma_slot_path(p3);
            <This::SlotsMut as TakeFieldMut<'a, This, TStr<N4>>>::lemma_slot_path(p4);
            <This::SlotsMut as TakeFieldMut<'a, This, TStr<N5>>>::lemma_slot_path(p5);
            assert(!is_prefix_of(paths.paths_view()[0], paths.paths_view()[1]));
            lemma_field_names_differ(<This::SlotsMut as TakeFieldMut<'a, This, TStr<N0>>>::slot_name(), <This::SlotsMut as TakeFieldMut<'a, This, TStr<N1>>>::slot_name());
            assert(!is_prefix_of(paths.paths_view()[0], paths.paths_view()[2]));
            lemma_field_names_differ(<This::SlotsMut as TakeFieldMut<'a, This, TStr<N0>>>::slot_name(), <This::SlotsMut as TakeFieldMut<'a, This, TStr<N2>>>::slot_name());
            assert(!is_prefix_of(paths.paths_view()[0], paths.paths_view()[3]));
            lemma_field_names_differ(<This::SlotsMut as TakeFieldMut<'a, This, TStr<N0>>>::slot_name(), <This::SlotsMut as TakeFieldMut<'a, This, TStr<N3>>>::slot_name());
            assert(!is_prefix_of(paths.paths_view()[0], paths.paths_view()[4]));
            lemma_field_names_differ(<This::SlotsMut as TakeFieldMut<'a, This, TStr<N0>>>::slot_name(), <This::SlotsMut as TakeFieldMut<'a, This, TStr<N4>>>::slot_name());
            assert(!is_prefix_of(paths.paths_view()[0], paths.paths_view()[5]));
            lemma_field_names_differ(<This::SlotsMut as TakeFieldMut<'a, This, TStr<N0>>>::slot_name(), <This::SlotsMut as TakeFieldMut<'a, This, TStr<N5>>>::slot_name());
            assert(!is_prefix_of(paths.paths_view()[1], paths.paths_view()[2]));
            lemma_field_names_differ(<This::SlotsMut as TakeFieldMut<'a, This, TStr<N1>>>::slot_name(), <This::SlotsMut as TakeFieldMut<'a, This, TStr<N2>>>::slot_name());
            assert(!is_prefix_of(paths.paths_view()[1], paths.paths_view()[3]));
            lemma_field_names_differ(<This::SlotsMut as TakeFieldMut<'a, This, TStr<N1>>>::slot_name(), <This::SlotsMut as TakeFieldMut<'a, This, TStr<N3>>>::slot_name());
            assert(!is_prefix_of(paths.paths_view()[1], paths.paths_view()[4]));
            lemma_field_names_differ(<This::SlotsMut as TakeFieldMut<'a, This, TStr<N1>>>::slot_name(), <This::SlotsMut as TakeFieldMut<'a, This, TStr<N4>>>::slot_name());
            assert(!is_prefix_of(paths.paths_view()[1], paths.paths_view()[5]));
            lemma_field_names_differ(<This::SlotsMut as TakeFieldMut<'a, This, TStr<N1>>>::slot_name(), <This::SlotsMut as TakeFieldMut<'a, This, TStr<N5>>>::slot_name());
            assert(!is_prefix_of(paths.paths_view()[2], paths.paths_view()[3]));
            lemma_field_names_differ(<This::SlotsMut as TakeFieldMut<'a, This, TStr<N2>>>::slot_name(), <This::SlotsMut as TakeFieldMut<'a, This, TStr<N3>>>::slot_name());
            assert(!is_prefix_of(paths.paths_view()[2], paths.paths_view()[4]));
            lemma_field_names_differ(<This::SlotsMut as TakeFieldMut<'a, This, TStr<N2>>>::slot_name(), <This::SlotsMut as TakeFieldMut<'a, This, TStr<N4>>>::slot_name());
            assert(!is_prefix_of(paths.paths_view()[2], paths.paths_view()[5]));
            lemma_field_names_differ(<This::SlotsMut as TakeFieldMut<'a, This, TStr<N2>>>::slot_name(), <This::SlotsMut as TakeFieldMut<'a, This, TStr<N5>>>::slot_name());
            assert(!is_prefix_of(paths.paths_view()[3], paths.paths_view()[4]));
            lemma_field_names_differ(<This::SlotsMut as TakeFieldMut<'a, This, TStr<N3>>>::slot_name(), <This::SlotsMut as TakeFieldMut<'a, This, TStr<N4>>>::slot_name());
            assert(!is_prefix_of(paths.paths_view()[3], paths.paths_view()[5]));
            lemma_field_names_differ(<This::SlotsMut as TakeFieldMut<'a, This, TStr<N3>>>::slot_name(), <This::SlotsMut as TakeFieldMut<'a, This, TStr<N5>>>::slot_name());
            assert(!is_prefix_of(paths.paths_view()[4], paths.paths_view()[5]));
            lemma_field_names_differ(<This::SlotsMut as TakeFieldMut<'a, This, TStr<N4>>>::slot_name(), <This::SlotsMut as TakeFieldMut<'a, This, TStr<N5>>>::slot_name());
        }
        let mut slots = this.split_fields_mut();
        proof {
            <This::SlotsMut as TakeFieldMut<'a, This, TStr<N0>>>::lemma_all_present(&slots);
            <This::SlotsMut as TakeFieldMut<'a, This, TStr<N1>>>::lemma_all_present(&slots);
            <This::SlotsMut as TakeFieldMut<'a, This, TStr<N2>>>::lemma_all_present(&slots);
            <This::SlotsMut as TakeFieldMut<'a, This, TStr<N3>>>::lemma_all_present(&slots);
            <This::SlotsMut as TakeFieldMut<'a, This, TStr<N4>>>::lemma_all_present(&slots);
            <This::SlotsMut as TakeFieldMut<'a, This, TStr<N5>>>::lemma_all_present(&slots);
        }
        let x0 = slots.take_field_mut(p0);
        let x1 = slots.take_field_mut(p1);
        let x2 = slots.take_field_mut(p2);
        let x3 = slots.take_field_mut(p3);
        let x4 = slots.take_field_mut(p4);
        let x5 = slots.take_field_mut(p5);
        match (x0, x1, x2, x3, x4, x5) {
            (Some(x0), Some(x1), Some(x2), Some(x3), Some(x4), Some(x5)) => (Ok(x0), Ok(x1), Ok(x2), Ok(x3), Ok(x4), Ok(x5)),
            _ => vstd::pervasive::unreached(),
        }
    }
}

impl<'a, This: SplitFieldsInto + 'a, N0, N1, N2, N3, N4, N5> RevIntoMultiFieldImpl<'a, This> for FieldPathSet<
    (TStr<N0>, TStr<N1>, TStr<N2>, TStr<N3>, TStr<N4>, TStr<N5>),
    UniquePaths,
> where
    N0: TStrName,
    N1: TStrName,
    N2: TStrName,
    N3: TStrName,
    N4: TStrName,
    N5: TStrName,
    This: GetFieldImpl<TStr<N0>>,
    This: GetFieldImpl<TStr<N1>>,
    This: GetFieldImpl<TStr<N2>>,
    This: GetFieldImpl<TStr<N3>>,
    This: GetFieldImpl<TStr<N4>>,
    This: GetFieldImpl<TStr<N5>>,
    This::SlotsInto: TakeFieldInto<This, TStr<N0>>,
    This::SlotsInto: TakeFieldInto<This, TStr<N1>>,
    This::SlotsInto: TakeFieldInto<This, TStr<N2>>,
    This::SlotsInto: TakeFieldInto<This, TStr<N3>>,
    This::SlotsInto: TakeFieldInto<This, TStr<N4>>,
    This::SlotsInto: TakeFieldInto<This, TStr<N5>>,
    Result<<This as FieldType<TStr<N0>>>::Ty, <This as GetFieldImpl<TStr<N0>>>::Error>: NormalizeFields,
    Result<<This as FieldType<TStr<N1>>>::Ty, <This as GetFieldImpl<TStr<N1>>>::Error>: NormalizeFields,
    Result<<This as FieldType<TStr<N2>>>::Ty, <This as GetFieldImpl<TStr<N2>>>::Error>: NormalizeFields,
    Result<<This as FieldType<TStr<N3>>>::Ty, <This as GetFieldImpl<TStr<N3>>>::Error>: NormalizeFields,
    Result<<This as FieldType<TStr<N4>>>::Ty, <This as GetFieldImpl<TStr<N4>>>::Error>: NormalizeFields,
    Result<<This as FieldType<TStr<N5>>>::Ty, <This as GetFieldImpl<TStr<N5>>>::Error>: NormalizeFields,
 {
    type UnnormIntoFields = (
        Result<<This as FieldType<TStr<N0>>>::Ty, <This as GetFieldImpl<TStr<N0>>>::Error>,
        Result<<This as FieldType<TStr<N1>>>::Ty, <This as GetFieldImpl<TStr<N1>>>::Error>,
        Result<<This as FieldType<TStr<N2>>>::Ty, <This as GetFieldImpl<TStr<N2>>>::Error>,
        Result<<This as FieldType<TStr<N3>>>::Ty, <This as GetFieldImpl<TStr<N3>>>::Error>,
        Result<<This as FieldType<TStr<N4>>>::Ty, <This as GetFieldImpl<TStr<N4>>>::Error>,
        Result<<This as FieldType<TStr<N5>>>::Ty, <This as GetFieldImpl<TStr<N5>>>::Error>,
    );

    open spec fn rev_multi_into_matches(self, this: &This, r: &Self::UnnormIntoFields) -> bool {
        match (r.0, r.1, r.2, r.3, r.4, r.5) {
            (Ok(x0), Ok(x1), Ok(x2), Ok(x3), Ok(x4), Ok(x5)) => <This as GetFieldImpl<TStr<N0>>>::get_field_spec(this) == Ok::<&<This as FieldType<TStr<N0>>>::Ty, <This as GetFieldImpl<TStr<N0>>>::Error>(&x0) && <This as GetFieldImpl<TStr<N1>>>::get_field_spec(this) == Ok::<&<This as FieldType<TStr<N1>>>::Ty, <This as GetFieldImpl<TStr<N1>>>::Error>(&x1) && <This as GetFieldImpl<TStr<N2>>>::get_field_spec(this) == Ok::<&<This as FieldType<TStr<N2>>>::Ty, <This as GetFieldImpl<TStr<N2>>>::Error>(&x2) && <This as GetFieldImpl<TStr<N3>>>::get_field_spec(this) == Ok::<&<This as FieldType<TStr<N3>>>::Ty, <This as GetFieldImpl<TStr<N3>>>::Error>(&x3) && <This as GetFieldImpl<TStr<N4>>>::get_field_spec(this) == Ok::<&<This as FieldType<TStr<N4>>>::Ty, <This as GetFieldImpl<TStr<N4>>>::Error>(&x4) && <This as GetFieldImpl<TStr<N5>>>::get_field_spec(this) == Ok::<&<This as FieldType<TStr<N5>>>::Ty, <This as GetFieldImpl<TStr<N5>>>::Error>(&x5),
            _ => false,
        }
    }

    fn rev_into_multi_field_impl(self, this: This) -> (r: Self::UnnormIntoFields) {
        let paths = self.into_paths();
        let (p0, p1, p2, p3, p4, p5) = paths;
        proof {
            <This::SlotsInto as TakeFieldInto<This, TStr<N0>>>::lemma_slot_path(p0);
            <This::SlotsInto as TakeFieldInto<This, TStr<N1>>>::lemma_slot_path(p1);
            <This::SlotsInto as TakeFieldInto<This, TStr<N2>>>::lemma_slot_path(p2);
            <This::SlotsInto as TakeFieldInto<This, TStr<N3>>>::lemma_slot_path(p3);
            <This::SlotsInto as TakeFieldInto<This, TStr<N4>>>::lemma_slot_path(p4);
            <This::SlotsInto as TakeFieldInto<This, TStr<N5>>>::lemma_slot_path(p5);
            assert(!is_prefix_of(paths.paths_view()[0], paths.paths_view()[1]));
            lemma_field_names_differ(<This::SlotsInto as TakeFieldInto<This, TStr<N0>>>::slot_name(), <This::SlotsInto as TakeFieldInto<This, TStr<N1>>>::slot_name());
            assert(!is_prefix_of(paths.paths_view()[0], paths.paths_view()[2]));
            lemma_field_names_differ(<This::SlotsInto as TakeFieldInto<This, TStr<N0>>>::slot_name(), <This::SlotsInto as TakeFieldInto<This, TStr<N2>>>::slot_name());
            assert(!is_prefix_of(paths.paths_view()[0], paths.paths_view()[3]));
            lemma_field_names_differ(<This::SlotsInto as TakeFieldInto<This, TStr<N0>>>::slot_name(), <This::SlotsInto as TakeFieldInto<This, TStr<N3>>>::slot_name());
            assert(!is_prefix_of(paths.paths_view()[0], paths.paths_view()[4]));
            lemma_field_names_differ(<This::SlotsInto as TakeFieldInto<This, TStr<N0>>>::slot_name(), <This::SlotsInto as TakeFieldInto<This, TStr<N4>>>::slot_name());
            assert(!is_prefix_of(paths.paths_view()[0], paths.paths_view()[5]));
            lemma_field_names_differ(<This::SlotsInto as TakeFieldInto<This, TStr<N0>>>::slot_name(), <This::SlotsInto as TakeFieldInto<This, TStr<N5>>>::slot_name());
            assert(!is_prefix_of(paths.paths_view()[1], paths.paths_view()[2]));
            lemma_field_names_differ(<This::SlotsInto as TakeFieldInto<This, TStr<N1>>>::slot_name(), <This::SlotsInto as TakeFieldInto<This, TStr<N2>>>::slot_name());
            assert(!is_prefix_of(paths.paths_view()[1], paths.paths_view()[3]));
            lemma_field_names_differ(<This::SlotsInto as TakeFieldInto<This, TStr<N1>>>::slot_name(), <This::SlotsInto as TakeFieldInto<This, TStr<N3>>>::slot_name());
            assert(!is_prefix_of(paths.paths_view()[1], paths.paths_view()[4]));
            lemma_field_names_differ(<This::SlotsInto as TakeFieldInto<This, TStr<N1>>>::slot_name(), <This::SlotsInto as TakeFieldInto<This, TStr<N4>>>::slot_name());
            assert(!is_prefix_of(paths.paths_view()[1], paths.paths_view()[5]));
            lemma_field_names_differ(<This::SlotsInto as TakeFieldInto<This, TStr<N1>>>::slot_name(), <This::SlotsInto as TakeFieldInto<This, TStr<N5>>>::slot_name());
            assert(!is_prefix_of(paths.paths_view()[2], paths.paths_view()[3]));
            lemma_field_names_differ(<This::SlotsInto as TakeFieldInto<This, TStr<N2>>>::slot_name(), <This::SlotsInto as TakeFieldInto<This, TStr<N3>>>::slot_name());
            assert(!is_prefix_of(paths.paths_view()[2], paths.paths_view()[4]));
            lemma_field_names_differ(<This::SlotsInto as TakeFieldInto<This, TStr<N2>>>::slot_name(), <This::SlotsInto as TakeFieldInto<This, TStr<N4>>>::slot_name());
            assert(!is_prefix_of(paths.paths_view()[2], paths.paths_view()[5]));
            lemma_field_names_differ(<This::SlotsInto as TakeFieldInto<This, TStr<N2>>>::slot_name(), <This::SlotsInto as TakeFieldInto<This, TStr<N5>>>::slot_name());
            assert(!is_prefix_of(paths.paths_view()[3], paths.paths_view()[4]));
            lemma_field_names_differ(<This::SlotsInto as TakeFieldInto<This, TStr<N3>>>::slot_name(), <This::SlotsInto as TakeFieldInto<This, TStr<N4>>>::slot_name());
            assert(!is_prefix_of(paths.paths_view()[3], paths.paths_view()[5]));
            lemma_field_names_differ(<This::SlotsInto as TakeFieldInto<This, TStr<N3>>>::slot_name(), <This::SlotsInto as TakeFieldInto<This, TStr<N5>>>::slot_name());
            assert(!is_prefix_of(paths.paths_view()[4], paths.paths_view()[5]));
            lemma_field_names_differ(<This::SlotsInto as TakeFieldInto<This, TStr<N4>>>::slot_name(), <This::SlotsInto as TakeFieldInto<This, TStr<N5>>>::slot_name());
        }
        let mut slots = this.split_fields_into();
        proof {
            <This::SlotsInto as TakeFieldInto<This, TStr<N0>>>::lemma_all_present(&slots);
            <This::SlotsInto as TakeFieldInto<This, TStr<N1>>>::lemma_all_present(&slots);
            <This::SlotsInto as TakeFieldInto<This, TStr<N2>>>::lemma_all_present(&slots);
            <This::SlotsInto as TakeFieldInto<This, TStr<N3>>>::lemma_all_present(&slots);
            <This::SlotsInto as TakeFieldInto<This, TStr<N4>>>::lemma_all_present(&slots);
            <This::SlotsInto as TakeFieldInto<This, TStr<N5>>>::lemma_all_present(&slots);
        }
        let x0 = slots.take_field_into(p0);
        let x1 = slots.take_field_into(p1);
        let x2 = slots.take_field_into(p2);
        let x3 = slots.take_field_into(p3);
        let x4 = slots.take_field_into(p4);
        let x5 = slots.take_field_into(p5);
        match (x0, x1, x2, x3, x4, x5) {
            (Some(x0), Some(x1), Some(x2), Some(x3), Some(x4), Some(x5)) => (Ok(x0), Ok(x1), Ok(x2), Ok(x3), Ok(x4), Ok(x5)),
            _ => vstd::pervasive::unreached(),
        }
    }
}

impl<'a, This: SplitFieldsMut<'a>, N0, N1, N2, N3, N4, N5, N6> RevGetMultiFieldMutImpl<'a, This> for FieldPathSet<
    (TStr<N0>, TStr<N1>, TStr<N2>, TStr<N3>, TStr<N4>, TStr<N5>, TStr<N6>),
    UniquePaths,
> where
    N0: TStrName,
    N1: TStrName,
    N2: TStrName,
    N3: TStrName,
    N4: TStrName,
    N5: TStrName,
    N6: TStrName,
    This: GetFieldImpl<TStr<N0>>,
    This: GetFieldImpl<TStr<N1>>,
    This: GetFieldImpl<TStr<N2>>,
    This: GetFieldImpl<TStr<N3>>,
    This: GetFieldImpl<TStr<N4>>,
    This: GetFieldImpl<TStr<N5>>,
    This: GetFieldImpl<TStr<N6>>,
    <This as FieldType<TStr<N0>>>::Ty: 'a,
    <This as FieldType<TStr<N1>>>::Ty: 'a,
    <This as FieldType<TStr<N2>>>::Ty: 'a,
    <This as FieldType<TStr<N3>>>::Ty: 'a,
    <This as FieldType<TStr<N4>>>::Ty: 'a,
    <This as FieldType<TStr<N5>>>::Ty: 'a,
    <This as FieldType<TStr<N6>>>::Ty: 'a,
    This::SlotsMut: TakeFieldMut<'a, This, TStr<N0>>,
    This::SlotsMut: TakeFieldMut<'a, This, TStr<N1>>,
    This::SlotsMut: TakeFieldMut<'a, This, TStr<N2>>,
    This::SlotsMut: TakeFieldMut<'a, This, TStr<N3>>,
    This::SlotsMut: TakeFieldMut<'a, This, TStr<N4>>,
    This::SlotsMut: TakeFieldMut<'a, This, TStr<N5>>,
    This::SlotsMut: TakeFieldMut<'a, This, TStr<N6>>,
    Result<&'a mut <This as FieldType<TStr<N0>>>::Ty, <This as GetFieldImpl<TStr<N0>>>::Error>: NormalizeFields,
    Result<&'a mut <This as FieldType<TStr<N1>>>::Ty, <This as GetFieldImpl<TStr<N1>>>::Error>: NormalizeFields,
    Result<&'a mut <This as FieldType<TStr<N2>>>::Ty, <This as GetFieldImpl<TStr<N2>>>::Error>: NormalizeFields,
    Result<&'a mut <This as FieldType<TStr<N3>>>::Ty, <This as GetFieldImpl<TStr<N3>>>::Error>: NormalizeFields,
    Result<&'a mut <This as FieldType<TStr<N4>>>::Ty, <This as GetFieldImpl<TStr<N4>>>::Error>: NormalizeFields,
    Result<&'a mut <This as FieldType<TStr<N5>>>::Ty, <This as GetFieldImpl<TStr<N5>>>::Error>: NormalizeFields,
    Result<&'a mut <This as FieldType<TStr<N6>>>::Ty, <This as GetFieldImpl<TStr<N6>>>::Error>: NormalizeFields,
 {
    type UnnormFieldsMut = (
        Result<&'a mut <This as FieldType<TStr<N0>>>::Ty, <This as GetFieldImpl<TStr<N0>>>::Error>,
        Result<&'a mut <This as FieldType<TStr<N1>>>::Ty, <This as GetFieldImpl<TStr<N1>>>::Error>,
        Result<&'a mut <This as FieldType<TStr<N2>>>::Ty, <This as GetFieldImpl<TStr<N2>>>::Error>,
        Result<&'a mut <This as FieldType<TStr<N3>>>::Ty, <This as GetFieldImpl<TStr<N3>>>::Error>,
        Result<&'a mut <This as FieldType<TStr<N4>>>::Ty, <This as GetFieldImpl<TStr<N4>>>::Error>,
        Result<&'a mut <This as FieldType<TStr<N5>>>::Ty, <This as GetFieldImpl<TStr<N5>>>::Error>,
        Result<&'a mut <This as FieldType<TStr<N6>>>::Ty, <This as GetFieldImpl<TStr<N6>>>::Error>,
    );

    open spec fn rev_multi_field_mut_reads(self, this: &This, r: &Self::UnnormFieldsMut) -> bool {
        match (r.0, r.1, r.2, r.3, r.4, r.5, r.6) {
            (Ok(x0), Ok(x1), Ok(x2), Ok(x3), Ok(x4), Ok(x5), Ok(x6)) => <This as GetFieldImpl<TStr<N0>>>::get_field_spec(this) == Ok::<&<This as FieldType<TStr<N0>>>::Ty, <This as GetFieldImpl<TStr<N0>>>::Error>(&*x0) && <This as GetFieldImpl<TStr<N1>>>::get_field_spec(this) == Ok::<&<This as FieldType<TStr<N1>>>::Ty, <This as GetFieldImpl<TStr<N1>>>::Error>(&*x1) && <This as GetFieldImpl<TStr<N2>>>::get_field_spec(this) == Ok::<&<This as FieldType<TStr<N2>>>::Ty, <This as GetFieldImpl<TStr<N2>>>::Error>(&*x2) && <This as GetFieldImpl<TStr<N3>>>::get_field_spec(this) == Ok::<&<This as FieldType<TStr<N3>>>::Ty, <This as GetFieldImpl<TStr<N3>>>::Error>(&*x3) && <This as GetFieldImpl<TStr<N4>>>::get_field_spec(this) == Ok::<&<This as FieldType<TStr<N4>>>::Ty, <This as GetFieldImpl<TStr<N4>>>::Error>(&*x4) && <This as GetFieldImpl<TStr<N5>>>::get_field_spec(this) == Ok::<&<This as FieldType<TStr<N5>>>::Ty, <This as GetFieldImpl<TStr<N5>>>::Error>(&*x5) && <This as GetFieldImpl<TStr<N6>>>::get_field_spec(this) == Ok::<&<This as FieldType<TStr<N6>>>::Ty, <This as GetFieldImpl<TStr<N6>>>::Error>(&*x6),
            _ => false,
        }
    }

    fn rev_get_multi_field_mut_impl(self, this: &'a mut This) -> (r: Self::UnnormFieldsMut) {
        let paths = self.into_paths();
        let (p0, p1, p2, p3, p4, p5, p6) = paths;
        proof {
            <This::SlotsMut as TakeFieldMut<'a, This, TStr<N0>>>::lemma_slot_path(p0);
            <This::SlotsMut as TakeFieldMut<'a, This, TStr<N1>>>::lemma_slot_path(p1);
            <This::SlotsMut as TakeFieldMut<'a, This, TStr<N2>>>::lemma_slot_path(p2);
            <This::SlotsMut as TakeFieldMut<'a, This, TStr<N3>>>::lemma_slot_path(p3);
            <This::SlotsMut as TakeFieldMut<'a, This, TStr<N4>>>::lemma_slot_path(p4);
            <This::SlotsMut as TakeFieldMut<'a, This, TStr<N5>>>::lemma_slot_path(p5);
            <This::SlotsMut as TakeFieldMut<'a, This, TStr<N6>>>::lemma_slot_path(p6);
            assert(!is_prefix_of(paths.paths_view()[0], paths.paths_view()[1]));
            lemma_field_names_differ(<This::SlotsMut as TakeFieldMut<'a, This, TStr<N0>>>::slot_name(), <This::SlotsMut as TakeFieldMut<'a, This, TStr<N1>>>::slot_name());
            assert(!is_prefix_of(paths.paths_view()[0], paths.paths_view()[2]));
            lemma_field_names_differ(<This::SlotsMut as TakeFieldMut<'a, This, TStr<N0>>>::slot_name(), <This::SlotsMut as TakeFieldMut<'a, This, TStr<N2>>>::slot_name());
            assert(!is_prefix_of(paths.paths_view()[0], paths.paths_view()[3]));
            lemma_field_names_differ(<This::SlotsMut as TakeFieldMut<'a, This, TStr<N0>>>::slot_name(), <This::SlotsMut as TakeFieldMut<'a, This, TStr<N3>>>::slot_name());
            assert(!is_prefix_of(paths.paths_view()[0], paths.paths_view()[4]));
            lemma_field_names_differ(<This::SlotsMut as TakeFieldMut<'a, This, TStr<N0>>>::slot_name(), <This::SlotsMut as TakeFieldMut<'a, This, TStr<N4>>>::slot_name());
            assert(!is_prefix_of(paths.paths_view()[0], paths.paths_view()[5]));
            lemma_field_names_differ(<This::SlotsMut as TakeFieldMut<'a, This, TStr<N0>>>::slot_name(), <This::SlotsMut as TakeFieldMut<'a, This, TStr<N5>>>::slot_name());
            assert(!is_prefix_of(paths.paths_view()[0], paths.paths_view()[6]));
            lemma_field_names_differ(<This::SlotsMut as TakeFieldMut<'a, This, TStr<N0>>>::slot_name(), <This::SlotsMut as TakeFieldMut<'a, This, TStr<N6>>>::slot_name());
            assert(!is_prefix_of(paths.paths_view()[1], paths.paths_view()[2]));
            lemma_field_names_differ(<This::SlotsMut as TakeFieldMut<'a, This, TStr<N1>>>::slot_name(), <This::SlotsMut as TakeFieldMut<'a, This, TStr<N2>>>::slot_name());
            assert(!is_prefix_of(paths.paths_view()[1], paths.paths_view()[3]));
            lemma_field_names_differ(<This::SlotsMut as TakeFieldMut<'a, This, TStr<N1>>>::slot_name(), <This::SlotsMut as TakeFieldMut<'a, This, TStr<N3>>>::slot_name());
            assert(!is_prefix_of(paths.paths_view()[1], paths.paths_view()[4]));
            lemma_field_names_differ(<This::SlotsMut as TakeFieldMut<'a, This, TStr<N1>>>::slot_name(), <This::SlotsMut as TakeFieldMut<'a, This, TStr<N4>>>::slot_name());
            assert(!is_prefix_of(paths.paths_view()[1], paths.paths_view()[5]));
            lemma_field_names_differ(<This::SlotsMut as TakeFieldMut<'a, This, TStr<N1>>>::slot_name(), <This::SlotsMut as TakeFieldMut<'a, This, TStr<N5>>>::slot_name());
            assert(!is_prefix_of(paths.paths_view()[1], paths.paths_view()[6]));
            lemma_field_names_differ(<This::SlotsMut as TakeFieldMut<'a, This, TStr<N1>>>::slot_name(), <This::SlotsMut as TakeFieldMut<'a, This, TStr<N6>>>::slot_name());
            assert(!is_prefix_of(paths.paths_view()[2], paths.paths_view()[3]));
            lemma_field_names_differ(<This::SlotsMut as TakeFieldMut<'a, This, TStr<N2>>>::slot_name(), <This::SlotsMut as TakeFieldMut<'a, This, TStr<N3>>>::slot_name());
            assert(!is_prefix_of(paths.paths_view()[2], paths.paths_view()[4]));
            lemma_field_names_differ(<This::SlotsMut as TakeFieldMut<'a, This, TStr<N2>>>::slot_name(), <This::SlotsMut as TakeFieldMut<'a, This, TStr<N4>>>::slot_name());
            assert(!is_prefix_of(paths.paths_view()[2], paths.paths_view()[5]));
            lemma_field_names_differ(<This::SlotsMut as TakeFieldMut<'a, This, TStr<N2>>>::slot_name(), <This::SlotsMut as TakeFieldMut<'a, This, TStr<N5>>>::slot_name());
            assert(!is_prefix_of(paths.paths_view()[2], paths.paths_view()[6]));
            lemma_field_names_differ(<This::SlotsMut as TakeFieldMut<'a, This, TStr<N2>>>::slot_name(), <This::SlotsMut as TakeFieldMut<'a, This, TStr<N6>>>::slot_name());
            assert(!is_prefix_of(paths.paths_view()[3], paths.paths_view()[4]));
            lemma_field_names_differ(<This::SlotsMut as TakeFieldMut<'a, This, TStr<N3>>>::slot_name(), <This::SlotsMut as TakeFieldMut<'a, This, TStr<N4>>>::slot_name());
            assert(!is_prefix_of(paths.paths_view()[3], paths.paths_view()[5]));
            lemma_field_names_differ(<This::SlotsMut as TakeFieldMut<'a, This, TStr<N3>>>::slot_name(), <This::SlotsMut as TakeFieldMut<'a, This, TStr<N5>>>::slot_name());
            assert(!is_prefix_of(paths.paths_view()[3], paths.paths_view()[6]));
            lemma_field_names_differ(<This::SlotsMut as TakeFieldMut<'a, This, TStr<N3>>>::slot_name(), <This::SlotsMut as TakeFieldMut<'a, This, TStr<N6>>>::slot_name());
            assert(!is_prefix_of(paths.paths_view()[4], paths.paths_view()[5]));
            lemma_field_names_differ(<This::SlotsMut as TakeFieldMut<'a, This, TStr<N4>>>::slot_name(), <This::SlotsMut as TakeFieldMut<'a, This, TStr<N5>>>::slot_name());
            assert(!is_prefix_of(paths.paths_view()[4], paths.paths_view()[6]));
            lemma_field_names_differ(<This::SlotsMut as TakeFieldMut<'a, This, TStr<N4>>>::slot_name(), <This::SlotsMut as TakeFieldMut<'a, This, TStr<N6>>>::slot_name());
            assert(!is_prefix_of(paths.paths_view()[5], paths.paths_view()[6]));
            lemma_field_names_differ(<This::SlotsMut as TakeFieldMut<'a, This, TStr<N5>>>::slot_name(), <This::SlotsMut as TakeFieldMut<'a, This, TStr<N6>>>::slot_name());
        }
        let mut slots = this.split_fields_mut();
        proof {
            <This::SlotsMut as TakeFieldMut<'a, This, TStr<N0>>>::lemma_all_present(&slots);
            <This::SlotsMut as TakeFieldMut<'a, This, TStr<N1>>>::lemma_all_present(&slots);
            <This::SlotsMut as TakeFieldMut<'a, This, TStr<N2>>>::lemma_all_present(&slots);
            <This::SlotsMut as TakeFieldMut<'a, This, TStr<N3>>>::lemma_all_present(&slots);
            <This::SlotsMut as TakeFieldMut<'a, This, TStr<N4>>>::lemma_all_present(&slots);
            <This::SlotsMut as TakeFieldMut<'a, This, TStr<N5>>>::lemma_all_present(&slots);
            <This::SlotsMut as TakeFieldMut<'a, This, TStr<N6>>>::lemma_all_present(&slots);
        }
        let x0 = slots.take_field_mut(p0);
        let x1 = slots.take_field_mut(p1);
        let x2 = slots.take_field_mut(p2);
        let x3 = slots.take_field_mut(p3);
        let x4 = slots.take_field_mut(p4);
        let x5 = slots.take_field_mut(p5);
        let x6 = slots.take_field_mut(p6);
        match (x0, x1, x2, x3, x4, x5, x6) {
            (Some(x0), Some(x1), Some(x2), Some(x3), Some(x4), Some(x5), Some(x6)) => (Ok(x0), Ok(x1), Ok(x2), Ok(x3), Ok(x4), Ok(x5), Ok(x6)),
            _ => vstd::pervasive::unreached(),
        }
    }
}

impl<'a, This: SplitFieldsInto + 'a, N0, N1, N2, N3, N4, N5, N6> RevIntoMultiFieldImpl<'a, This> for FieldPathSet<
    (TStr<N0>, TStr<N1>, TStr<N2>, TStr<N3>, TStr<N4>, TStr<N5>, TStr<N6>),
    UniquePaths,
> where
    N0: TStrName,
    N1: TStrName,
    N2: TStrName,
    N3: TStrName,
    N4: TStrName,
    N5: TStrName,
    N6: TStrName,
    This: GetFieldImpl<TStr<N0>>,
    This: GetFieldImpl<TStr<N1>>,
    This: GetFieldImpl<TStr<N2>>,
    This: GetFieldImpl<TStr<N3>>,
    This: GetFieldImpl<TStr<N4>>,
    This: GetFieldImpl<TStr<N5>>,
    This: GetFieldImpl<TStr<N6>>,
    This::SlotsInto: TakeFieldInto<This, TStr<N0>>,
    This::SlotsInto: TakeFieldInto<This, TStr<N1>>,
    This::SlotsInto: TakeFieldInto<This, TStr<N2>>,
    This::SlotsInto: TakeFieldInto<This, TStr<N3>>,
    This::SlotsInto: TakeFieldInto<This, TStr<N4>>,
    This::SlotsInto: TakeFieldInto<This, TStr<N5>>,
    This::SlotsInto: TakeFieldInto<This, TStr<N6>>,
    Result<<This as FieldType<TStr<N0>>>::Ty, <This as GetFieldImpl<TStr<N0>>>::Error>: NormalizeFields,
    Result<<This as FieldType<TStr<N1>>>::Ty, <This as GetFieldImpl<TStr<N1>>>::Error>: NormalizeFields,
    Result<<This as FieldType<TStr<N2>>>::Ty, <This as GetFieldImpl<TStr<N2>>>::Error>: NormalizeFields,
    Result<<This as FieldType<TStr<N3>>>::Ty, <This as GetFieldImpl<TStr<N3>>>::Error>: NormalizeFields,
    Result<<This as FieldType<TStr<N4>>>::Ty, <This as GetFieldImpl<TStr<N4>>>::Error>: NormalizeFields,
    Result<<This as FieldType<TStr<N5>>>::Ty, <This as GetFieldImpl<TStr<N5>>>::Error>: NormalizeFields,
    Result<<This as FieldType<TStr<N6>>>::Ty, <This as GetFieldImpl<TStr<N6>>>::Error>: NormalizeFields,
 {
    type UnnormIntoFields = (
        Result<<This as FieldType<TStr<N0>>>::Ty, <This as GetFieldImpl<TStr<N0>>>::Error>,
        Result<<This as FieldType<TStr<N1>>>::Ty, <This as GetFieldImpl<TStr<N1>>>::Error>,
        Result<<This as FieldType<TStr<N2>>>::Ty, <This as GetFieldImpl<TStr<N2>>>::Error>,
        Result<<This as FieldType<TStr<N3>>>::Ty, <This as GetFieldImpl<TStr<N3>>>::Error>,
        Result<<This as FieldType<TStr<N4>>>::Ty, <This as GetFieldImpl<TStr<N4>>>::Error>,
        Result<<This as FieldType<TStr<N5>>>::Ty, <This as GetFieldImpl<TStr<N5>>>::Error>,
        Result<<This as FieldType<TStr<N6>>>::Ty, <This as GetFieldImpl<TStr<N6>>>::Error>,
    );

    open spec fn rev_multi_into_matches(self, this: &This, r: &Self::UnnormIntoFields) -> bool {
        match (r.0, r.1, r.2, r.3, r.4, r.5, r.6) {
            (Ok(x0), Ok(x1), Ok(x2), Ok(x3), Ok(x4), Ok(x5), Ok(x6)) => <This as GetFieldImpl<TStr<N0>>>::get_field_spec(this) == Ok::<&<This as FieldType<TStr<N0>>>::Ty, <This as GetFieldImpl<TStr<N0>>>::Error>(&x0) && <This as GetFieldImpl<TStr<N1>>>::get_field_spec(this) == Ok::<&<This as FieldType<TStr<N1>>>::Ty, <This as GetFieldImpl<TStr<N1>>>::Error>(&x1) && <This as GetFieldImpl<TStr<N2>>>::get_field_spec(this) == Ok::<&<This as FieldType<TStr<N2>>>::Ty, <This as GetFieldImpl<TStr<N2>>>::Error>(&x2) && <This as GetFieldImpl<TStr<N3>>>::get_field_spec(this) == Ok::<&<This as FieldType<TStr<N3>>>::Ty, <This as GetFieldImpl<TStr<N3>>>::Error>(&x3) && <This as GetFieldImpl<TStr<N4>>>::get_field_spec(this) == Ok::<&<This as FieldType<TStr<N4>>>::Ty, <This as GetFieldImpl<TStr<N4>>>::Error>(&x4) && <This as GetFieldImpl<TStr<N5>>>::get_field_spec(this) == Ok::<&<This as FieldType<TStr<N5>>>::Ty, <This as GetFieldImpl<TStr<N5>>>::Error>(&x5) && <This as GetFieldImpl<TStr<N6>>>::get_field_spec(this) == Ok::<&<This as FieldType<TStr<N6>>>::Ty, <This as GetFieldImpl<TStr<N6>>>::Error>(&x6),
            _ => false,
        }
    }

    fn rev_into_multi_field_impl(self, this: This) -> (r: Self::UnnormIntoFields) {
        let paths = self.into_paths();
        let (p0, p1, p2, p3, p4, p5, p6) = paths;
        proof {
            <This::SlotsInto as TakeFieldInto<This, TStr<N0>>>::lemma_slot_path(p0);
            <This::SlotsInto as TakeFieldInto<This, TStr<N1>>>::lemma_slot_path(p1);
            <This::SlotsInto as TakeFieldInto<This, TStr<N2>>>::lemma_slot_path(p2);
            <This::SlotsInto as TakeFieldInto<This, TStr<N3>>>::lemma_slot_path(p3);
            <This::SlotsInto as TakeFieldInto<This, TStr<N4>>>::lemma_slot_path(p4);
            <This::SlotsInto as TakeFieldInto<This, TStr<N5>>>::lemma_slot_path(p5);
            <This::SlotsInto as TakeFieldInto<This, TStr<N6>>>::lemma_slot_path(p6);
            assert(!is_prefix_of(paths.paths_view()[0], paths.paths_view()[1]));
            lemma_field_names_differ(<This::SlotsInto as TakeFieldInto<This, TStr<N0>>>::slot_name(), <This::SlotsInto as TakeFieldInto<This, TStr<N1>>>::slot_name());
            assert(!is_prefix_of(paths.paths_view()[0], paths.paths_view()[2]));
            lemma_field_names_differ(<This::SlotsInto as TakeFieldInto<This, TStr<N0>>>::slot_name(), <This::SlotsInto as TakeFieldInto<This, TStr<N2>>>::slot_name());
            assert(!is_prefix_of(paths.paths_view()[0], paths.paths_view()[3]));
            lemma_field_names_differ(<This::SlotsInto as TakeFieldInto<This, TStr<N0>>>::slot_name(), <This::SlotsInto as TakeFieldInto<This, TStr<N3>>>::slot_name());
            assert(!is_prefix_of(paths.paths_view()[0], paths.paths_view()[4]));
            lemma_field_names_differ(<This::SlotsInto as TakeFieldInto<This, TStr<N0>>>::slot_name(), <This::SlotsInto as TakeFieldInto<This, TStr<N4>>>::slot_name());
            assert(!is_prefix_of(paths.paths_view()[0], paths.paths_view()[5]));
            lemma_field_names_differ(<This::SlotsInto as TakeFieldInto<This, TStr<N0>>>::slot_name(), <This::SlotsInto as TakeFieldInto<This, TStr<N5>>>::slot_name());
            assert(!is_prefix_of(paths.paths_view()[0], paths.paths_view()[6]));
            lemma_field_names_differ(<This::SlotsInto as TakeFieldInto<This, TStr<N0>>>::slot_name(), <This::SlotsInto as TakeFieldInto<This, TStr<N6>>>::slot_name());
            assert(!is_prefix_of(paths.paths_view()[1], paths.paths_view()[2]));
            lemma_field_names_differ(<This::SlotsInto as TakeFieldInto<This, TStr<N1>>>::slot_name(), <This::SlotsInto as TakeFieldInto<This, TStr<N2>>>::slot_name());
            assert(!is_prefix_of(paths.paths_view()[1], paths.paths_view()[3]));
            lemma_field_names_differ(<This::SlotsInto as TakeFieldInto<This, TStr<N1>>>::slot_name(), <This::SlotsInto as TakeFieldInto<This, TStr<N3>>>::slot_name());
            assert(!is_prefix_of(paths.paths_view()[1], paths.paths_view()[4]));
            lemma_field_names_differ(<This::SlotsInto as TakeFieldInto<This, TStr<N1>>>::slot_name(), <This::SlotsInto as TakeFieldInto<This, TStr<N4>>>::slot_name());
            assert(!is_prefix_of(paths.paths_view()[1], paths.paths_view()[5]));
            lemma_field_names_differ(<This::SlotsInto as TakeFieldInto<This, TStr<N1>>>::slot_name(), <This::SlotsInto as TakeFieldInto<This, TStr<N5>>>::slot_name());
            assert(!is_prefix_of(paths.paths_view()[1], paths.paths_view()[6]));
            lemma_field_names_differ(<This::SlotsInto as TakeFieldInto<This, TStr<N1>>>::slot_name(), <This::SlotsInto as TakeFieldInto<This, TStr<N6>>>::slot_name());
            assert(!is_prefix_of(paths.paths_view()[2], paths.paths_view()[3]));
            lemma_field_names_differ(<This::SlotsInto as TakeFieldInto<This, TStr<N2>>>::slot_name(), <This::SlotsInto as TakeFieldInto<This, TStr<N3>>>::slot_name());
            assert(!is_prefix_of(paths.paths_view()[2], paths.paths_view()[4]));
            lemma_field_names_differ(<This::SlotsInto as TakeFieldInto<This, TStr<N2>>>::slot_name(), <This::SlotsInto as TakeFieldInto<This, TStr<N4>>>::slot_name());
            assert(!is_prefix_of(paths.paths_view()[2], paths.paths_view()[5]));
            lemma_field_names_differ(<This::SlotsInto as TakeFieldInto<This, TStr<N2>>>::slot_name(), <This::SlotsInto as TakeFieldInto<This, TStr<N5>>>::slot_name());
            assert(!is_prefix_of(paths.paths_view()[2], paths.paths_view()[6]));
            lemma_field_names_differ(<This::SlotsInto as TakeFieldInto<This, TStr<N2>>>::slot_name(), <This::SlotsInto as TakeFieldInto<This, TStr<N6>>>::slot_name());
            assert(!is_prefix_of(paths.paths_view()[3], paths.paths_view()[4]));
            lemma_field_names_differ(<This::SlotsInto as TakeFieldInto<This, TStr<N3>>>::slot_name(), <This::SlotsInto as TakeFieldInto<This, TStr<N4>>>::slot_name());
            assert(!is_prefix_of(paths.paths_view()[3], paths.paths_view()[5]));
            lemma_field_names_differ(<This::SlotsInto as TakeFieldInto<This, TStr<N3>>>::slot_name(), <This::SlotsInto as TakeFieldInto<This, TStr<N5>>>::slot_name());
            assert(!is_prefix_of(paths.paths_view()[3], paths.paths_view()[6]));
            lemma_field_names_differ(<This::SlotsInto as TakeFieldInto<This, TStr<N3>>>::slot_name(), <This::SlotsInto as TakeFieldInto<This, TStr<N6>>>::slot_name());
            assert(!is_prefix_of(paths.paths_view()[4], paths.paths_view()[5]));
            lemma_field_names_differ(<This::SlotsInto as TakeFieldInto<This, TStr<N4>>>::slot_name(), <This::SlotsInto as TakeFieldInto<This, TStr<N5>>>::slot_name());
            assert(!is_prefix_of(paths.paths_view()[4], paths.paths_view()[6]));
            lemma_field_names_differ(<This::SlotsInto as TakeFieldInto<This, TStr<N4>>>::slot_name(), <This::SlotsInto as TakeFieldInto<This, TStr<N6>>>::slot_name());
            assert(!is_prefix_of(paths.paths_view()[5], paths.paths_view()[6]));
            lemma_field_names_differ(<This::SlotsInto as TakeFieldInto<This, TStr<N5>>>::slot_name(), <This::SlotsInto as TakeFieldInto<This, TStr<N6>>>::slot_name());
        }
        let mut slots = this.split_fields_into();
        proof {
            <This::SlotsInto as TakeFieldInto<This, TStr<N0>>>::lemma_all_present(&slots);
            <This::SlotsInto as TakeFieldInto<This, TStr<N1>>>::lemma_all_present(&slots);
            <This::SlotsInto as TakeFieldInto<This, TStr<N2>>>::lemma_all_present(&slots);
            <This::SlotsInto as TakeFieldInto<This, TStr<N3>>>::lemma_all_present(&slots);
            <This::SlotsInto as TakeFieldInto<This, TStr<N4>>>::lemma_all_present(&slots);
            <This::SlotsInto as TakeFieldInto<This, TStr<N5>>>::lemma_all_present(&slots);
            <This::SlotsInto as TakeFieldInto<This, TStr<N6>>>::lemma_all_present(&slots);
        }
        let x0 = slots.take_field_into(p0);
        let x1 = slots.take_field_into(p1);
        let x2 = slots.take_field_into(p2);
        let x3 = slots.take_field_into(p3);
        let x4 = slots.take_field_into(p4);
        let x5 = slots.take_field_into(p5);
        let x6 = slots.take_field_into(p6);
        match (x0, x1, x2, x3, x4, x5, x6) {
            (Some(x0), Some(x1), Some(x2), Some(x3), Some(x4), Some(x5), Some(x6)) => (Ok(x0), Ok(x1), Ok(x2), Ok(x3), Ok(x4), Ok(x5), Ok(x6)),
            _ => vstd::pervasive::unreached(),
        }
    }
}

impl<'a, This: SplitFieldsMut<'a>, N0, N1, N2, N3, N4, N5, N6, N7> RevGetMultiFieldMutImpl<'a, This> for FieldPathSet<
    (TStr<N0>, TStr<N1>, TStr<N2>, TStr<N3>, TStr<N4>, TStr<N5>, TStr<N6>, TStr<N7>),
    UniquePaths,
> where
    N0: TStrName,
    N1: TStrName,
    N2: TStrName,
    N3: TStrName,
    N4: TStrName,
    N5: TStrName,
    N6: TStrName,
    N7: TStrName,
    This: GetFieldImpl<TStr<N0>>,
    This: GetFieldImpl<TStr<N1>>,
    This: GetFieldImpl<TStr<N2>>,
    This: GetFieldImpl<TStr<N3>>,
    This: GetFieldImpl<TStr<N4>>,
    This: GetFieldImpl<TStr<N5>>,
    This: GetFieldImpl<TStr<N6>>,
    This: GetFieldImpl<TStr<N7>>,
    <This as FieldType<TStr<N0>>>::Ty: 'a,
    <This as FieldType<TStr<N1>>>::Ty: 'a,
    <This as FieldType<TStr<N2>>>::Ty: 'a,
    <This as FieldType<TStr<N3>>>::Ty: 'a,
    <This as FieldType<TStr<N4>>>::Ty: 'a,
    <This as FieldType<TStr<N5>>>::Ty: 'a,
    <This as FieldType<TStr<N6>>>::Ty: 'a,
    <This as FieldType<TStr<N7>>>::Ty: 'a,
    This::SlotsMut: TakeFieldMut<'a, This, TStr<N0>>,
    This::SlotsMut: TakeFieldMut<'a, This, TStr<N1>>,
    This::SlotsMut: TakeFieldMut<'a, This, TStr<N2>>,
    This::SlotsMut: TakeFieldMut<'a, This, TStr<N3>>,
    This::SlotsMut: TakeFieldMut<'a, This, TStr<N4>>,
    This::SlotsMut: TakeFieldMut<'a, This, TStr<N5>>,
    This::SlotsMut: TakeFieldMut<'a, This, TStr<N6>>,
    This::SlotsMut: TakeFieldMut<'a, This, TStr<N7>>,
    Result<&'a mut <This as FieldType<TStr<N0>>>::Ty, <This as GetFieldImpl<TStr<N0>>>::Error>: NormalizeFields,
    Result<&'a mut <This as FieldType<TStr<N1>>>::Ty, <This as GetFieldImpl<TStr<N1>>>::Error>: NormalizeFields,
    Result<&'a mut <This as FieldType<TStr<N2>>>::Ty, <This as GetFieldImpl<TStr<N2>>>::Error>: NormalizeFields,
    Result<&'a mut <This as FieldType<TStr<N3>>>::Ty, <This as GetFieldImpl<TStr<N3>>>::Error>: NormalizeFields,
    Result<&'a mut <This as FieldType<TStr<N4>>>::Ty, <This as GetFieldImpl<TStr<N4>>>::Error>: NormalizeFields,
    Result<&'a mut <This as FieldType<TStr<N5>>>::Ty, <This as GetFieldImpl<TStr<N5>>>::Error>: NormalizeFields,
    Result<&'a mut <This as FieldType<TStr<N6>>>::Ty, <This as GetFieldImpl<TStr<N6>>>::Error>: NormalizeFields,
    Result<&'a mut <This as FieldType<TStr<N7>>>::Ty, <This as GetFieldImpl<TStr<N7>>>::Error>: NormalizeFields,
 {
    type UnnormFieldsMut = (
        Result<&'a mut <This as FieldType<TStr<N0>>>::Ty, <This as GetFieldImpl<TStr<N0>>>::Error>,
        Result<&'a mut <This as FieldType<TStr<N1>>>::Ty, <This as GetFieldImpl<TStr<N1>>>::Error>,
        Result<&'a mut <This as FieldType<TStr<N2>>>::Ty, <This as GetFieldImpl<TStr<N2>>>::Error>,
        Result<&'a mut <This as FieldType<TStr<N3>>>::Ty, <This as GetFieldImpl<TStr<N3>>>::Error>,
        Result<&'a mut <This as FieldType<TStr<N4>>>::Ty, <This as GetFieldImpl<TStr<N4>>>::Error>,
        Result<&'a mut <This as FieldType<TStr<N5>>>::Ty, <This as GetFieldImpl<TStr<N5>>>::Error>,
        Result<&'a mut <This as FieldType<TStr<N6>>>::Ty, <This as GetFieldImpl<TStr<N6>>>::Error>,
        Result<&'a mut <This as FieldType<TStr<N7>>>::Ty, <This as GetFieldImpl<TStr<N7>>>::Error>,
    );

    open spec fn rev_multi_field_mut_reads(self, this: &This, r: &Self::UnnormFieldsMut) -> bool {
        match (r.0, r.1, r.2, r.3, r.4, r.5, r.6, r.7) {
            (Ok(x0), Ok(x1), Ok(x2), Ok(x3), Ok(x4), Ok(x5), Ok(x6), Ok(x7)) => <This as GetFieldImpl<TStr<N0>>>::get_field_spec(this) == Ok::<&<This as FieldType<TStr<N0>>>::Ty, <This as GetFieldImpl<TStr<N0>>>::Error>(&*x0) && <This as GetFieldImpl<TStr<N1>>>::get_field_spec(this) == Ok::<&<This as FieldType<TStr<N1>>>::Ty, <This as GetFieldImpl<TStr<N1>>>::Error>(&*x1) && <This as GetFieldImpl<TStr<N2>>>::get_field_spec(this) == Ok::<&<This as FieldType<TStr<N2>>>::Ty, <This as GetFieldImpl<TStr<N2>>>::Error>(&*x2) && <This as GetFieldImpl<TStr<N3>>>::get_field_spec(this) == Ok::<&<This as FieldType<TStr<N3>>>::Ty, <This as GetFieldImpl<TStr<N3>>>::Error>(&*x3) && <This as GetFieldImpl<TStr<N4>>>::get_field_spec(this) == Ok::<&<This as FieldType<TStr<N4>>>::Ty, <This as GetFieldImpl<TStr<N4>>>::Error>(&*x4) && <This as GetFieldImpl<TStr<N5>>>::get_field_spec(this) == Ok::<&<This as FieldType<TStr<N5>>>::Ty, <This as GetFieldImpl<TStr<N5>>>::Error>(&*x5) && <This as GetFieldImpl<TStr<N6>>>::get_field_spec(this) == Ok::<&<This as FieldType<TStr<N6>>>::Ty, <This as GetFieldImpl<TStr<N6>>>::Error>(&*x6) && <This as GetFieldImpl<TStr<N7>>>::get_field_spec(this) == Ok::<&<This as FieldType<TStr<N7>>>::Ty, <This as GetFieldImpl<TStr<N7>>>::Error>(&*x7),
            _ => false,
        }
    }

    fn rev_get_multi_field_mut_impl(self, this: &'a mut This) -> (r: Self::UnnormFieldsMut) {
        let paths = self.into_paths();
        let (p0, p1, p2, p3, p4, p5, p6, p7) = paths;
        proof {
            <This::SlotsMut as TakeFieldMut<'a, This, TStr<N0>>>::lemma_slot_path(p0);
            <This::SlotsMut as TakeFieldMut<'a, This, TStr<N1>>>::lemma_slot_path(p1);
            <This::SlotsMut as TakeFieldMut<'a, This, TStr<N2>>>::lemma_slot_path(p2);
            <This::SlotsMut as TakeFieldMut<'a, This, TStr<N3>>>::lemma_slot_path(p3);
            <This::SlotsMut as TakeFieldMut<'a, This, TStr<N4>>>::lemma_slot_path(p4);
            <This::SlotsMut as TakeFieldMut<'a, This, TStr<N5>>>::lemma_slot_path(p5);
            <This::SlotsMut as TakeFieldMut<'a, This, TStr<N6>>>::lemma_slot_path(p6);
            <This::SlotsMut as TakeFieldMut<'a, This, TStr<N7>>>::lemma_slot_path(p7);
            assert(!is_prefix_of(paths.paths_view()[0], paths.paths_view()[1]));
            lemma_field_names_differ(<This::SlotsMut as TakeFieldMut<'a, This, TStr<N0>>>::slot_name(), <This::SlotsMut as TakeFieldMut<'a, This, TStr<N1>>>::slot_name());
            assert(!is_prefix_of(paths.paths_view()[0], paths.paths_view()[2]));
            lemma_field_names_differ(<This::SlotsMut as TakeFieldMut<'a, This, TStr<N0>>>::slot_name(), <This::SlotsMut as TakeFieldMut<'a, This, TStr<N2>>>::slot_name());
            assert(!is_prefix_of(paths.paths_view()[0], paths.paths_view()[3]));
            lemma_field_names_differ(<This::SlotsMut as TakeFieldMut<'a, This, TStr<N0>>>::slot_name(), <This::SlotsMut as TakeFieldMut<'a, This, TStr<N3>>>::slot_name());
            assert(!is_prefix_of(paths.paths_view()[0], paths.paths_view()[4]));
            lemma_field_names_differ(<This::SlotsMut as TakeFieldMut<'a, This, TStr<N0>>>::slot_name(), <This::SlotsMut as TakeFieldMut<'a, This, TStr<N4>>>::slot_name());
            assert(!is_prefix_of(paths.paths_view()[0], paths.paths_view()[5]));
            lemma_field_names_differ(<This::SlotsMut as TakeFieldMut<'a, This, TStr<N0>>>::slot_name(), <This::SlotsMut as TakeFieldMut<'a, This, TStr<N5>>>::slot_name());
            assert(!is_prefix_of(paths.paths_view()[0], paths.paths_view()[6]));
            lemma_field_names_differ(<This::SlotsMut as TakeFieldMut<'a, This, TStr<N0>>>::slot_name(), <This::SlotsMut as TakeFieldMut<'a, This, TStr<N6>>>::slot_name());
            assert(!is_prefix_of(paths.paths_view()[0], paths.paths_view()[7]));
            lemma_field_names_differ(<This::SlotsMut as TakeFieldMut<'a, This, TStr<N0>>>::slot_name(), <This::SlotsMut as TakeFieldMut<'a, This, TStr<N7>>>::slot_name());
            assert(!is_prefix_of(paths.paths_view()[1], paths.paths_view()[2]));
            lemma_field_names_differ(<This::SlotsMut as TakeFieldMut<'a, This, TStr<N1>>>::slot_name(), <This::SlotsMut as TakeFieldMut<'a, This, TStr<N2>>>::slot_name());
            assert(!is_prefix_of(paths.paths_view()[1], paths.paths_view()[3]));
            lemma_field_names_differ(<This::SlotsMut as TakeFieldMut<'a, This, TStr<N1>>>::slot_name(), <This::SlotsMut as TakeFieldMut<'a, This, TStr<N3>>>::slot_name());
            assert(!is_prefix_of(paths.paths_view()[1], paths.paths_view()[4]));
            lemma_field_names_differ(<This::SlotsMut as TakeFieldMut<'a, This, TStr<N1>>>::slot_name(), <This::SlotsMut as TakeFieldMut<'a, This, TStr<N4>>>::slot_name());
            assert(!is_prefix_of(paths.paths_view()[1], paths.paths_view()[5]));
            lemma_field_names_differ(<This::SlotsMut as TakeFieldMut<'a, This, TStr<N1>>>::slot_name(), <This::SlotsMut as TakeFieldMut<'a, This, TStr<N5>>>::slot_name());
            assert(!is_prefix_of(paths.paths_view()[1], paths.paths_view()[6]));
            lemma_field_names_differ(<This::SlotsMut as TakeFieldMut<'a, This, TStr<N1>>>::slot_name(), <This::SlotsMut as TakeFieldMut<'a, This, TStr<N6>>>::slot_name());
            assert(!is_prefix_of(paths.paths_view()[1], paths.paths_view()[7]));
            lemma_field_names_differ(<This::SlotsMut as TakeFieldMut<'a, This, TStr<N1>>>::slot_name(), <This::SlotsMut as TakeFieldMut<'a, This, TStr<N7>>>::slot_name());
            assert(!is_prefix_of(paths.paths_view()[2], paths.paths_view()[3]));
            lemma_field_names_differ(<This::SlotsMut as TakeFieldMut<'a, This, TStr<N2>>>::slot_name(), <This::SlotsMut as TakeFieldMut<'a, This, TStr<N3>>>::slot_name());
            assert(!is_prefix_of(paths.paths_view()[2], paths.paths_view()[4]));
            lemma_field_names_differ(<This::SlotsMut as TakeFieldMut<'a, This, TStr<N2>>>::slot_name(), <This::SlotsMut as TakeFieldMut<'a, This, TStr<N4>>>::slot_name());
            assert(!is_prefix_of(paths.paths_view()[2], paths.paths_view()[5]));
            lemma_field_names_differ(<This::SlotsMut as TakeFieldMut<'a, This, TStr<N2>>>::slot_name(), <This::SlotsMut as TakeFieldMut<'a, This, TStr<N5>>>::slot_name());
            assert(!is_prefix_of(paths.paths_view()[2], paths.paths_view()[6]));
            lemma_field_names_differ(<This::SlotsMut as TakeFieldMut<'a, This, TStr<N2>>>::slot_name(), <This::SlotsMut as TakeFieldMut<'a, This, TStr<N6>>>::slot_name());
            assert(!is_prefix_of(paths.paths_view()[2], paths.paths_view()[7]));
            lemma_field_names_differ(<This::SlotsMut as TakeFieldMut<'a, This, TStr<N2>>>::slot_name(), <This::SlotsMut as TakeFieldMut<'a, This, TStr<N7>>>::slot_name());
            assert(!is_prefix_of(paths.paths_view()[3], paths.paths_view()[4]));
            lemma_field_names_differ(<This::SlotsMut as TakeFieldMut<'a, This, TStr<N3>>>::slot_name(), <This::SlotsMut as TakeFieldMut<'a, This, TStr<N4>>>::slot_name());
            assert(!is_prefix_of(paths.paths_view()[3], paths.paths_view()[5]));
            lemma_field_names_differ(<This::SlotsMut as TakeFieldMut<'a, This, TStr<N3>>>::slot_name(), <This::SlotsMut as TakeFieldMut<'a, This, TStr<N5>>>::slot_name());
            assert(!is_prefix_of(paths.paths_view()[3], paths.paths_view()[6]));
            lemma_field_names_differ(<This::SlotsMut as TakeFieldMut<'a, This, TStr<N3>>>::slot_name(), <This::SlotsMut as TakeFieldMut<'a, This, TStr<N6>>>::slot_name());
            assert(!is_prefix_of(paths.paths_view()[3], paths.paths_view()[7]));
            lemma_field_names_differ(<This::SlotsMut as TakeFieldMut<'a, This, TStr<N3>>>::slot_name(), <This::SlotsMut as TakeFieldMut<'a, This, TStr<N7>>>::slot_name());
            assert(!is_prefix_of(paths.paths_view()[4], paths.paths_view()[5]));
            lemma_field_names_differ(<This::SlotsMut as TakeFieldMut<'a, This, TStr<N4>>>::slot_name(), <This::SlotsMut as TakeFieldMut<'a, This, TStr<N5>>>::slot_name());
            assert(!is_prefix_of(paths.paths_view()[4], paths.paths_view()[6]));
            lemma_field_names_differ(<This::SlotsMut as TakeFieldMut<'a, This, TStr<N4>>>::slot_name(), <This::SlotsMut as TakeFieldMut<'a, This, TStr<N6>>>::slot_name());
            assert(!is_prefix_of(paths.paths_view()[4], paths.paths_view()[7]));
            lemma_field_names_differ(<This::SlotsMut as TakeFieldMut<'a, This, TStr<N4>>>::slot_name(), <This::SlotsMut as TakeFieldMut<'a, This, TStr<N7>>>::slot_name());
            assert(!is_prefix_of(paths.paths_view()[5], paths.paths_view()[6]));
            lemma_field_names_differ(<This::SlotsMut as TakeFieldMut<'a, This, TStr<N5>>>::slot_name(), <This::SlotsMut as TakeFieldMut<'a, This, TStr<N6>>>::slot_name());
            assert(!is_prefix_of(paths.paths_view()[5], paths.paths_view()[7]));
            lemma_field_names_differ(<This::SlotsMut as TakeFieldMut<'a, This, TStr<N5>>>::slot_name(), <This::SlotsMut as TakeFieldMut<'a, This, TStr<N7>>>::slot_name());
            assert(!is_prefix_of(paths.paths_view()[6], paths.paths_view()[7]));
            lemma_field_names_differ(<This::SlotsMut as TakeFieldMut<'a, This, TStr<N6>>>::slot_name(), <This::SlotsMut as TakeFieldMut<'a, This, TStr<N7>>>::slot_name());
        }
        let mut slots = this.split_fields_mut();
        proof {
            <This::SlotsMut as TakeFieldMut<'a, This, TStr<N0>>>::lemma_all_present(&slots);
            <This::SlotsMut as TakeFieldMut<'a, This, TStr<N1>>>::lemma_all_present(&slots);
            <This::SlotsMut as TakeFieldMut<'a, This, TStr<N2>>>::lemma_all_present(&slots);
            <This::SlotsMut as TakeFieldMut<'a, This, TStr<N3>>>::lemma_all_present(&slots);
            <This::SlotsMut as TakeFieldMut<'a, This, TStr<N4>>>::lemma_all_present(&slots);
            <This::SlotsMut as TakeFieldMut<'a, This, TStr<N5>>>::lemma_all_present(&slots);
            <This::SlotsMut as TakeFieldMut<'a, This, TStr<N6>>>::lemma_all_present(&slots);
            <This::SlotsMut as TakeFieldMut<'a, This, TStr<N7>>>::lemma_all_present(&slots);
        }
        let x0 = slots.take_field_mut(p0);
        let x1 = slots.take_field_mut(p1);
        let x2 = slots.take_field_mut(p2);
        let x3 = slots.take_field_mut(p3);
        let x4 = slots.take_field_mut(p4);
        let x5 = slots.take_field_mut(p5);
        let x6 = slots.take_field_mut(p6);
        let x7 = slots.take_field_mut(p7);
        match (x0, x1, x2, x3, x4, x5, x6, x7) {
            (Some(x0), Some(x1), Some(x2), Some(x3), Some(x4), Some(x5), Some(x6), Some(x7)) => (Ok(x0), Ok(x1), Ok(x2), Ok(x3), Ok(x4), Ok(x5), Ok(x6), Ok(x7)),
            _ => vstd::pervasive::unreached(),
        }
    }
}

impl<'a, This: SplitFieldsInto + 'a, N0, N1, N2, N3, N4, N5, N6, N7> RevIntoMultiFieldImpl<'a, This> for FieldPathSet<
    (TStr<N0>, TStr<N1>, TStr<N2>, TStr<N3>, TStr<N4>, TStr<N5>, TStr<N6>, TStr<N7>),
    UniquePaths,
> where
    N0: TStrName,
    N1: TStrName,
    N2: TStrName,
    N3: TStrName,
    N4: TStrName,
    N5: TStrName,
    N6: TStrName,
    N7: TStrName,
    This: GetFieldImpl<TStr<N0>>,
    This: GetFieldImpl<TStr<N1>>,
    This: GetFieldImpl<TStr<N2>>,
    This: GetFieldImpl<TStr<N3>>,
    This: GetFieldImpl<TStr<N4>>,
    This: GetFieldImpl<TStr<N5>>,
    This: GetFieldImpl<TStr<N6>>,
    This: GetFieldImpl<TStr<N7>>,
    This::SlotsInto: TakeFieldInto<This, TStr<N0>>,
    This::SlotsInto: TakeFieldInto<This, TStr<N1>>,
    This::SlotsInto: TakeFieldInto<This, TStr<N2>>,
    This::SlotsInto: TakeFieldInto<This, TStr<N3>>,
    This::SlotsInto: TakeFieldInto<This, TStr<N4>>,
    This::SlotsInto: TakeFieldInto<This, TStr<N5>>,
    This::SlotsInto: TakeFieldInto<This, TStr<N6>>,
    This::SlotsInto: TakeFieldInto<This, TStr<N7>>,
    Result<<This as FieldType<TStr<N0>>>::Ty, <This as GetFieldImpl<TStr<N0>>>::Error>: NormalizeFields,
    Result<<This as FieldType<TStr<N1>>>::Ty, <This as GetFieldImpl<TStr<N1>>>::Error>: NormalizeFields,
    Result<<This as FieldType<TStr<N2>>>::Ty, <This as GetFieldImpl<TStr<N2>>>::Error>: NormalizeFields,
    Result<<This as FieldType<TStr<N3>>>::Ty, <This as GetFieldImpl<TStr<N3>>>::Error>: NormalizeFields,
    Result<<This as FieldType<TStr<N4>>>::Ty, <This as GetFieldImpl<TStr<N4>>>::Error>: NormalizeFields,
    Result<<This as FieldType<TStr<N5>>>::Ty, <This as GetFieldImpl<TStr<N5>>>::Error>: NormalizeFields,
    Result<<This as FieldType<TStr<N6>>>::Ty, <This as GetFieldImpl<TStr<N6>>>::Error>: NormalizeFields,
    Result<<This as FieldType<TStr<N7>>>::Ty, <This as GetFieldImpl<TStr<N7>>>::Error>: NormalizeFields,
 {
    type UnnormIntoFields = (
        Result<<This as FieldType<TStr<N0>>>::Ty, <This as GetFieldImpl<TStr<N0>>>::Error>,
        Result<<This as FieldType<TStr<N1>>>::Ty, <This as GetFieldImpl<TStr<N1>>>::Error>,
        Result<<This as FieldType<TStr<N2>>>::Ty, <This as GetFieldImpl<TStr<N2>>>::Error>,
        Result<<This as FieldType<TStr<N3>>>::Ty, <This as GetFieldImpl<TStr<N3>>>::Error>,
        Result<<This as FieldType<TStr<N4>>>::Ty, <This as GetFieldImpl<TStr<N4>>>::Error>,
        Result<<This as FieldType<TStr<N5>>>::Ty, <This as GetFieldImpl<TStr<N5>>>::Error>,
        Result<<This as FieldType<TStr<N6>>>::Ty, <This as GetFieldImpl<TStr<N6>>>::Error>,
        Result<<This as FieldType<TStr<N7>>>::Ty, <This as GetFieldImpl<TStr<N7>>>::Error>,
    );

    open spec fn rev_multi_into_matches(self, this: &This, r: &Self::UnnormIntoFields) -> bool {
        match (r.0, r.1, r.2, r.3, r.4, r.5, r.6, r.7) {
            (Ok(x0), Ok(x1), Ok(x2), Ok(x3), Ok(x4), Ok(x5), Ok(x6), Ok(x7)) => <This as GetFieldImpl<TStr<N0>>>::get_field_spec(this) == Ok::<&<This as FieldType<TStr<N0>>>::Ty, <This as GetFieldImpl<TStr<N0>>>::Error>(&x0) && <This as GetFieldImpl<TStr<N1>>>::get_field_spec(this) == Ok::<&<This as FieldType<TStr<N1>>>::Ty, <This as GetFieldImpl<TStr<N1>>>::Error>(&x1) && <This as GetFieldImpl<TStr<N2>>>::get_field_spec(this) == Ok::<&<This as FieldType<TStr<N2>>>::Ty, <This as GetFieldImpl<TStr<N2>>>::Error>(&x2) && <This as GetFieldImpl<TStr<N3>>>::get_field_spec(this) == Ok::<&<This as FieldType<TStr<N3>>>::Ty, <This as GetFieldImpl<TStr<N3>>>::Error>(&x3) && <This as GetFieldImpl<TStr<N4>>>::get_field_spec(this) == Ok::<&<This as FieldType<TStr<N4>>>::Ty, <This as GetFieldImpl<TStr<N4>>>::Error>(&x4) && <This as GetFieldImpl<TStr<N5>>>::get_field_spec(this) == Ok::<&<This as FieldType<TStr<N5>>>::Ty, <This as GetFieldImpl<TStr<N5>>>::Error>(&x5) && <This as GetFieldImpl<TStr<N6>>>::get_field_spec(this) == Ok::<&<This as FieldType<TStr<N6>>>::Ty, <This as GetFieldImpl<TStr<N6>>>::Error>(&x6) && <This as GetFieldImpl<TStr<N7>>>::get_field_spec(this) == Ok::<&<This as FieldType<TStr<N7>>>::Ty, <This as GetFieldImpl<TStr<N7>>>::Error>(&x7),
            _ => false,
        }
    }

    fn rev_into_multi_field_impl(self, this: This) -> (r: Self::UnnormIntoFields) {
        let paths = self.into_paths();
        let (p0, p1, p2, p3, p4, p5, p6, p7) = paths;
        proof {
            <This::SlotsInto as TakeFieldInto<This, TStr<N0>>>::lemma_slot_path(p0);
            <This::SlotsInto as TakeFieldInto<This, TStr<N1>>>::lemma_slot_path(p1);
            <This::SlotsInto as TakeFieldInto<This, TStr<N2>>>::lemma_slot_path(p2);
            <This::SlotsInto as TakeFieldInto<This, TStr<N3>>>::lemma_slot_path(p3);
            <This::SlotsInto as TakeFieldInto<This, TStr<N4>>>::lemma_slot_path(p4);
            <This::SlotsInto as TakeFieldInto<This, TStr<N5>>>::lemma_slot_path(p5);
            <This::SlotsInto as TakeFieldInto<This, TStr<N6>>>::lemma_slot_path(p6);
            <This::SlotsInto as TakeFieldInto<This, TStr<N7>>>::lemma_slot_path(p7);
            assert(!is_prefix_of(paths.paths_view()[0], paths.paths_view()[1]));
            lemma_field_names_differ(<This::SlotsInto as TakeFieldInto<This, TStr<N0>>>::slot_name(), <This::SlotsInto as TakeFieldInto<This, TStr<N1>>>::slot_name());
            assert(!is_prefix_of(paths.paths_view()[0], paths.paths_view()[2]));
            lemma_field_names_differ(<This::SlotsInto as TakeFieldInto<This, TStr<N0>>>::slot_name(), <This::SlotsInto as TakeFieldInto<This, TStr<N2>>>::slot_name());
            assert(!is_prefix_of(paths.paths_view()[0], paths.paths_view()[3]));
            lemma_field_names_differ(<This::SlotsInto as TakeFieldInto<This, TStr<N0>>>::slot_name(), <This::SlotsInto as TakeFieldInto<This, TStr<N3>>>::slot_name());
            assert(!is_prefix_of(paths.paths_view()[0], paths.paths_view()[4]));
            lemma_field_names_differ(<This::SlotsInto as TakeFieldInto<This, TStr<N0>>>::slot_name(), <This::SlotsInto as TakeFieldInto<This, TStr<N4>>>::slot_name());
            assert(!is_prefix_of(paths.paths_view()[0], paths.paths_view()[5]));
            lemma_field_names_differ(<This::SlotsInto as TakeFieldInto<This, TStr<N0>>>::slot_name(), <This::SlotsInto as TakeFieldInto<This, TStr<N5>>>::slot_name());
            assert(!is_prefix_of(paths.paths_view()[0], paths.paths_view()[6]));
            lemma_field_names_differ(<This::SlotsInto as TakeFieldInto<This, TStr<N0>>>::slot_name(), <This::SlotsInto as TakeFieldInto<This, TStr<N6>>>::slot_name());
            assert(!is_prefix_of(paths.paths_view()[0], paths.paths_view()[7]));
            lemma_field_names_differ(<This::SlotsInto as TakeFieldInto<This, TStr<N0>>>::slot_name(), <This::SlotsInto as TakeFieldInto<This, TStr<N7>>>::slot_name());
            assert(!is_prefix_of(paths.paths_view()[1], paths.paths_view()[2]));
            lemma_field_names_differ(<This::SlotsInto as TakeFieldInto<This, TStr<N1>>>::slot_name(), <This::SlotsInto as TakeFieldInto<This, TStr<N2>>>::slot_name());
            assert(!is_prefix_of(paths.paths_view()[1], paths.paths_view()[3]));
            lemma_field_names_differ(<This::SlotsInto as TakeFieldInto<This, TStr<N1>>>::slot_name(), <This::SlotsInto as TakeFieldInto<This, TStr<N3>>>::slot_name());
            assert(!is_prefix_of(paths.paths_view()[1], paths.paths_view()[4]));
            lemma_field_names_differ(<This::SlotsInto as TakeFieldInto<This, TStr<N1>>>::slot_name(), <This::SlotsInto as TakeFieldInto<This, TStr<N4>>>::slot_name());
            assert(!is_prefix_of(paths.paths_view()[1], paths.paths_view()[5]));
            lemma_field_names_differ(<This::SlotsInto as TakeFieldInto<This, TStr<N1>>>::slot_name(), <This::SlotsInto as TakeFieldInto<This, TStr<N5>>>::slot_name());
            assert(!is_prefix_of(paths.paths_view()[1], paths.paths_view()[6]));
            lemma_field_names_differ(<This::SlotsInto as TakeFieldInto<This, TStr<N1>>>::slot_name(), <This::SlotsInto as TakeFieldInto<This, TStr<N6>>>::slot_name());
            assert(!is_prefix_of(paths.paths_view()[1], paths.paths_view()[7]));
            lemma_field_names_differ(<This::SlotsInto as TakeFieldInto<This, TStr<N1>>>::slot_name(), <This::SlotsInto as TakeFieldInto<This, TStr<N7>>>::slot_name());
            assert(!is_prefix_of(paths.paths_view()[2], paths.paths_view()[3]));
            lemma_field_names_differ(<This::SlotsInto as TakeFieldInto<This, TStr<N2>>>::slot_name(), <This::SlotsInto as TakeFieldInto<This, TStr<N3>>>::slot_name());
            assert(!is_prefix_of(paths.paths_view()[2], paths.paths_view()[4]));
            lemma_field_names_differ(<This::SlotsInto as TakeFieldInto<This, TStr<N2>>>::slot_name(), <This::SlotsInto as TakeFieldInto<This, TStr<N4>>>::slot_name());
            assert(!is_prefix_of(paths.paths_view()[2], paths.paths_view()[5]));
            lemma_field_names_differ(<This::SlotsInto as TakeFieldInto<This, TStr<N2>>>::slot_name(), <This::SlotsInto as TakeFieldInto<This, TStr<N5>>>::slot_name());
            assert(!is_prefix_of(paths.paths_view()[2], paths.paths_view()[6]));
            lemma_field_names_differ(<This::SlotsInto as TakeFieldInto<This, TStr<N2>>>::slot_name(), <This::SlotsInto as TakeFieldInto<This, TStr<N6>>>::slot_name());
            assert(!is_prefix_of(paths.paths_view()[2], paths.paths_view()[7]));
            lemma_field_names_differ(<This::SlotsInto as TakeFieldInto<This, TStr<N2>>>::slot_name(), <This::SlotsInto as TakeFieldInto<This, TStr<N7>>>::slot_name());
            assert(!is_prefix_of(paths.paths_view()[3], paths.paths_view()[4]));
            lemma_field_names_differ(<This::SlotsInto as TakeFieldInto<This, TStr<N3>>>::slot_name(), <This::SlotsInto as TakeFieldInto<This, TStr<N4>>>::slot_name());
            assert(!is_prefix_of(paths.paths_view()[3], paths.paths_view()[5]));
            lemma_field_names_differ(<This::SlotsInto as TakeFieldInto<This, TStr<N3>>>::slot_name(), <This::SlotsInto as TakeFieldInto<This, TStr<N5>>>::slot_name());
            assert(!is_prefix_of(paths.paths_view()[3], paths.paths_view()[6]));
            lemma_field_names_differ(<This::SlotsInto as TakeFieldInto<This, TStr<N3>>>::slot_name(), <This::SlotsInto as TakeFieldInto<This, TStr<N6>>>::slot_name());
            assert(!is_prefix_of(paths.paths_view()[3], paths.paths_view()[7]));
            lemma_field_names_differ(<This::SlotsInto as TakeFieldInto<This, TStr<N3>>>::slot_name(), <This::SlotsInto as TakeFieldInto<This, TStr<N7>>>::slot_name());
            assert(!is_prefix_of(paths.paths_view()[4], paths.paths_view()[5]));
            lemma_field_names_differ(<This::SlotsInto as TakeFieldInto<This, TStr<N4>>>::slot_name(), <This::SlotsInto as TakeFieldInto<This, TStr<N5>>>::slot_name());
            assert(!is_prefix_of(paths.paths_view()[4], paths.paths_view()[6]));
            lemma_field_names_differ(<This::SlotsInto as TakeFieldInto<This, TStr<N4>>>::slot_name(), <This::SlotsInto as TakeFieldInto<This, TStr<N6>>>::slot_name());
            assert(!is_prefix_of(paths.paths_view()[4], paths.paths_view()[7]));
            lemma_field_names_differ(<This::SlotsInto as TakeFieldInto<This, TStr<N4>>>::slot_name(), <This::SlotsInto as TakeFieldInto<This, TStr<N7>>>::slot_name());
            assert(!is_prefix_of(paths.paths_view()[5], paths.paths_view()[6]));
            lemma_field_names_differ(<This::SlotsInto as TakeFieldInto<This, TStr<N5>>>::slot_name(), <This::SlotsInto as TakeFieldInto<This, TStr<N6>>>::slot_name());
            assert(!is_prefix_of(paths.paths_view()[5], paths.paths_view()[7]));
            lemma_field_names_differ(<This::SlotsInto as TakeFieldInto<This, TStr<N5>>>::slot_name(), <This::SlotsInto as TakeFieldInto<This, TStr<N7>>>::slot_name());
            assert(!is_prefix_of(paths.paths_view()[6], paths.paths_view()[7]));
            lemma_field_names_differ(<This::SlotsInto as TakeFieldInto<This, TStr<N6>>>::slot_name(), <This::SlotsInto as TakeFieldInto<This, TStr<N7>>>::slot_name());
        }
        let mut slots = this.split_fields_into();
        proof {
            <This::SlotsInto as TakeFieldInto<This, TStr<N0>>>::lemma_all_present(&slots);
            <This::SlotsInto as TakeFieldInto<This, TStr<N1>>>::lemma_all_present(&slots);
            <This::SlotsInto as TakeFieldInto<This, TStr<N2>>>::lemma_all_present(&slots);
            <This::SlotsInto as TakeFieldInto<This, TStr<N3>>>::lemma_all_present(&slots);
            <This::SlotsInto as TakeFieldInto<This, TStr<N4>>>::lemma_all_present(&slots);
            <This::SlotsInto as TakeFieldInto<This, TStr<N5>>>::lemma_all_present(&slots);
            <This::SlotsInto as TakeFieldInto<This, TStr<N6>>>::lemma_all_present(&slots);
            <This::SlotsInto as TakeFieldInto<This, TStr<N7>>>::lemma_all_present(&slots);
        }
        let x0 = slots.take_field_into(p0);
        let x1 = slots.take_field_into(p1);
        let x2 = slots.take_field_into(p2);
        let x3 = slots.take_field_into(p3);
        let x4 = slots.take_field_into(p4);
        let x5 = slots.take_field_into(p5);
        let x6 = slots.take_field_into(p6);
        let x7 = slots.take_field_into(p7);
        match (x0, x1, x2, x3, x4, x5, x6, x7) {
            (Some(x0), Some(x1), Some(x2), Some(x3), Some(x4), Some(x5), Some(x6), Some(x7)) => (Ok(x0), Ok(x1), Ok(x2), Ok(x3), Ok(x4), Ok(x5), Ok(x6), Ok(x7)),
            _ => vstd::pervasive::unreached(),
        }
    }
}

////////////////////////////////////////////////////////////////////////////////
// Sets of paths inside a nested field.

/// What a [`NestedFieldPathSet`] gives: the fields of the set, if the nested
/// field exists, or the error of accessing the nested field.
///
/// Normalizing it normalizes the fields too.
pub struct NestedFieldPathSetOutput<T, E>(pub Result<T, E>);

impl<T, E> NormalizeFields for NestedFieldPathSetOutput<T, E> where
    T: NormalizeFields,
    Result<T::Output, E>: NormalizeFields,
 {
    type Output = <Result<T::Output, E> as NormalizeFields>::Output;

    open spec fn normalize_spec(self) -> Self::Output {
        match self.0 {
            Ok(x) => Ok::<T::Output, E>(x.normalize_spec()),
            Err(e) => Err::<T::Output, E>(e),
        }.normalize_spec()
    }

    open spec fn denormalize_spec(out: Self::Output) -> Self {
        match <Result<T::Output, E> as NormalizeFields>::denormalize_spec(out) {
            Ok(y) => NestedFieldPathSetOutput(Ok(T::denormalize_spec(y))),
            Err(e) => NestedFieldPathSetOutput(Err(e)),
        }
    }

    fn normalize_fields(self) -> (r: Self::Output) {
        let res: Result<T::Output, E> = match self.0 {
            Ok(x) => Ok(x.normalize_fields()),
            Err(e) => Err(e),
        };
        res.normalize_fields()
    }
}

impl<'a, This: ?Sized + 'a, F, S: PathTuple, U: Uniqueness> RevGetMultiFieldImpl<'a, This> for NestedFieldPathSet<
    F,
    S,
    U,
> where
    F: RevGetFieldImpl<'a, This>,
    F::Ty: 'a,
    FieldPathSet<S, U>: RevGetMultiFieldImpl<'a, F::Ty>,
    NestedFieldPathSetOutput<
        RevGetMultiFieldImplOut<'a, FieldPathSet<S, U>, F::Ty>,
        F::Error,
    >: NormalizeFields,
 {
    type UnnormFields = NestedFieldPathSetOutput<
        RevGetMultiFieldImplOut<'a, FieldPathSet<S, U>, F::Ty>,
        F::Error,
    >;

    open spec fn rev_get_multi_field_spec(self, this: &'a This) -> Self::UnnormFields {
        match self.nested().rev_get_field_spec(this) {
            Ok(mid) => NestedFieldPathSetOutput(Ok(self.set().rev_get_multi_field_spec(mid))),
            Err(e) => NestedFieldPathSetOutput(Err(e)),
        }
    }

    fn rev_get_multi_field_impl(self, this: &'a This) -> (r: Self::UnnormFields) {
        let (nested, set) = self.into_inner();
        match nested.rev_get_field(this) {
            Ok(mid) => NestedFieldPathSetOutput(Ok(set.rev_get_multi_field_impl(mid))),
            Err(e) => NestedFieldPathSetOutput(Err(e)),
        }
    }
}

impl<'a, This: ?Sized + 'a, F, S: PathTuple> RevGetMultiFieldMutImpl<'a, This> for NestedFieldPathSet<
    F,
    S,
    UniquePaths,
> where
    F: RevGetFieldMutImpl<'a, This>,
    F::Ty: 'a,
    FieldPathSet<S, UniquePaths>: RevGetMultiFieldMutImpl<'a, F::Ty>,
    NestedFieldPathSetOutput<
        <FieldPathSet<S, UniquePaths> as RevGetMultiFieldMutImpl<'a, F::Ty>>::UnnormFieldsMut,
        F::Error,
    >: NormalizeFields,
 {
    type UnnormFieldsMut = NestedFieldPathSetOutput<
        <FieldPathSet<S, UniquePaths> as RevGetMultiFieldMutImpl<'a, F::Ty>>::UnnormFieldsMut,
        F::Error,
    >;

    open spec fn rev_multi_field_mut_reads(self, this: &This, r: &Self::UnnormFieldsMut) -> bool {
        match (self.nested().rev_get_field_spec(this), r.0) {
            (Ok(mid), Ok(inner)) => self.set().rev_multi_field_mut_reads(mid, &inner),
            (Err(e), Err(f)) => e == f,
            _ => false,
        }
    }

    fn rev_get_multi_field_mut_impl(self, this: &'a mut This) -> (r: Self::UnnormFieldsMut) {
        let (nested, set) = self.into_inner();
        match nested.rev_get_field_mut(this) {
            Ok(mid) => NestedFieldPathSetOutput(Ok(set.rev_get_multi_field_mut_impl(mid))),
            Err(e) => NestedFieldPathSetOutput(Err(e)),
        }
    }
}

impl<'a, This: 'a, F, S: PathTuple> RevIntoMultiFieldImpl<'a, This> for NestedFieldPathSet<
    F,
    S,
    UniquePaths,
> where
    F: RevIntoFieldImpl<'a, This>,
    F::Ty: 'a,
    FieldPathSet<S, UniquePaths>: RevIntoMultiFieldImpl<'a, F::Ty>,
    NestedFieldPathSetOutput<
        <FieldPathSet<S, UniquePaths> as RevIntoMultiFieldImpl<'a, F::Ty>>::UnnormIntoFields,
        F::Error,
    >: NormalizeFields,
 {
    type UnnormIntoFields = NestedFieldPathSetOutput<
        <FieldPathSet<S, UniquePaths> as RevIntoMultiFieldImpl<'a, F::Ty>>::UnnormIntoFields,
        F::Error,
    >;

    open spec fn rev_multi_into_matches(self, this: &This, r: &Self::UnnormIntoFields) -> bool {
        match (self.nested().rev_get_field_spec(this), r.0) {
            (Ok(mid), Ok(inner)) => self.set().rev_multi_into_matches(mid, &inner),
            (Err(e), Err(f)) => e == f,
            _ => false,
        }
    }

    fn rev_into_multi_field_impl(self, this: This) -> (r: Self::UnnormIntoFields) {
        let (nested, set) = self.into_inner();
        match nested.rev_into_field(this) {
            Ok(mid) => NestedFieldPathSetOutput(Ok(set.rev_into_multi_field_impl(mid))),
            Err(e) => NestedFieldPathSetOutput(Err(e)),
        }
    }
}

} // verus!
