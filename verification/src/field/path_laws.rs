//! What accessing a field through a path does, stated over the accessors of
//! the value: a field name reads the field, a variant field reads the field of
//! the variant when the value is that variant, a nested path reads through
//! each of its components in turn, and a set of paths reads each of them.
use crate::field::errors::{CombinedErrs, FailedAccess, IntoFieldErr};
use crate::field::multi_fields::RevGetMultiFieldImpl;
use crate::field::normalize_fields::NormalizeFields;
use crate::field::rev_get_field::{RevGetFieldImpl, RevGetFieldMutImpl};
use crate::field::{GetFieldImpl, GetFieldMutImpl, GetVariantField, GetVariantFieldMut};
use crate::field_path::{FieldPath, FieldPathSet, IsSingleFieldPath, TStr, Uniqueness, VariantField};
use vstd::prelude::*;

verus! {

/// A field name reads and writes the field that the value's accessor for that
/// name gives.
pub proof fn lemma_name_path<T, This: GetFieldMutImpl<TStr<T>>>(
    path: TStr<T>,
    this: &This,
    new: &This,
    v: This::Ty,
)
    ensures
        path.rev_get_field_spec(this) == this.get_field_spec(),
        path.rev_field_updated(this, new, v) <==> This::field_updated(this, new, v),
{
}

/// A variant field is present exactly when the value's accessor for it gives
/// the field, and then it is that field.
pub proof fn lemma_variant_field_path<V, F, This: GetVariantFieldMut<V, F>>(
    path: VariantField<V, F>,
    this: &This,
    new: &This,
    v: This::Ty,
)
    ensures
        this.get_vfield_spec() is Some ==> path.rev_get_field_spec(this) == Ok::<&This::Ty, FailedAccess>(
            this.get_vfield_spec()->Some_0,
        ),
        this.get_vfield_spec() is None ==> path.rev_get_field_spec(this) == Err::<&This::Ty, FailedAccess>(
            FailedAccess,
        ),
        path.rev_field_updated(this, new, v) <==> This::vfield_updated(this, new, v),
{
}

/// A nested path of one component reads what that component reads.
pub proof fn lemma_one_step_path<'a, This: ?Sized + 'a, A: RevGetFieldImpl<'a, This>>(
    path: FieldPath<(A,)>,
    this: &This,
)
    ensures
        path.rev_get_field_spec(this) == path.list.0.rev_get_field_spec(this),
{
}

/// A nested path of two components reads, inside what its first component
/// reads, what its second one reads; it fails exactly when one of them fails.
pub proof fn lemma_two_step_path<'a, This: ?Sized + 'a, A, B>(path: FieldPath<(A, B)>, this: &This)
    where
        A: RevGetFieldImpl<'a, This>,
        A::Ty: 'a,
        B: RevGetFieldImpl<'a, A::Ty>,
        (A::Error, B::Error): CombinedErrs,
        A::Error: IntoFieldErr<<(A::Error, B::Error) as CombinedErrs>::Combined>,
        B::Error: IntoFieldErr<<(A::Error, B::Error) as CombinedErrs>::Combined>,
    ensures
        path.rev_get_field_spec(this) is Ok <==> (path.list.0.rev_get_field_spec(this) is Ok
            && path.list.1.rev_get_field_spec(path.list.0.rev_get_field_spec(this)->Ok_0) is Ok),
        path.rev_get_field_spec(this) is Ok ==> path.rev_get_field_spec(this)->Ok_0
            == path.list.1.rev_get_field_spec(path.list.0.rev_get_field_spec(this)->Ok_0)->Ok_0,
{
}

/// A set of 1 path reads, in order, what each of its paths reads.
pub proof fn lemma_set1_reads<'a, This: ?Sized + 'a, U: Uniqueness, P0>(
    set: FieldPathSet<(P0,), U>,
    this: &'a This,
)
    where
        P0: IsSingleFieldPath + RevGetFieldImpl<'a, This>,
        P0::Ty: 'a,
        Result<&'a P0::Ty, P0::Error>: NormalizeFields,
    ensures
        set.rev_get_multi_field_spec(this) == (set.paths().0.rev_get_field_spec(this),),
{
}

/// A set of 2 paths reads, in order, what each of its paths reads.
pub proof fn lemma_set2_reads<'a, This: ?Sized + 'a, U: Uniqueness, P0, P1>(
    set: FieldPathSet<(P0, P1), U>,
    this: &'a This,
)
    where
        P0: IsSingleFieldPath + RevGetFieldImpl<'a, This>,
        P0::Ty: 'a,
        Result<&'a P0::Ty, P0::Error>: NormalizeFields,
        P1: IsSingleFieldPath + RevGetFieldImpl<'a, This>,
        P1::Ty: 'a,
        Result<&'a P1::Ty, P1::Error>: NormalizeFields,
    ensures
        set.rev_get_multi_field_spec(this) == (set.paths().0.rev_get_field_spec(this), set.paths().1.rev_get_field_spec(this)),
{
}

/// A set of 3 paths reads, in order, what each of its paths reads.
pub proof fn lemma_set3_reads<'a, This: ?Sized + 'a, U: Uniqueness, P0, P1, P2>(
    set: FieldPathSet<(P0, P1, P2), U>,
    this: &'a This,
)
    where
        P0: IsSingleFieldPath + RevGetFieldImpl<'a, This>,
        P0::Ty: 'a,
        Result<&'a P0::Ty, P0::Error>: NormalizeFields,
        P1: IsSingleFieldPath + RevGetFieldImpl<'a, This>,
        P1::Ty: 'a,
        Result<&'a P1::Ty, P1::Error>: NormalizeFields,
        P2: IsSingleFieldPath + RevGetFieldImpl<'a, This>,
        P2::Ty: 'a,
        Result<&'a P2::Ty, P2::Error>: NormalizeFields,
    ensures
        set.rev_get_multi_field_spec(this) == (set.paths().0.rev_get_field_spec(this), set.paths().1.rev_get_field_spec(this), set.paths().2.rev_get_field_spec(this)),
{
}

/// A set of 4 paths reads, in order, what each of its paths reads.
pub proof fn lemma_set4_reads<'a, This: ?Sized + 'a, U: Uniqueness, P0, P1, P2, P3>(
    set: FieldPathSet<(P0, P1, P2, P3), U>,
    this: &'a This,
)
    where
        P0: IsSingleFieldPath + RevGetFieldImpl<'a, This>,
        P0::Ty: 'a,
        Result<&'a P0::Ty, P0::Error>: NormalizeFields,
        P1: IsSingleFieldPath + RevGetFieldImpl<'a, This>,
        P1::Ty: 'a,
        Result<&'a P1::Ty, P1::Error>: NormalizeFields,
        P2: IsSingleFieldPath + RevGetFieldImpl<'a, This>,
        P2::Ty: 'a,
        Result<&'a P2::Ty, P2::Error>: NormalizeFields,
        P3: IsSingleFieldPath + RevGetFieldImpl<'a, This>,
        P3::Ty: 'a,
        Result<&'a P3::Ty, P3::Error>: NormalizeFields,
    ensures
        set.rev_get_multi_field_spec(this) == (set.paths().0.rev_get_field_spec(this), set.paths().1.rev_get_field_spec(this), set.paths().2.rev_get_field_spec(this), set.paths().3.rev_get_field_spec(this)),
{
}

/// A set of 5 paths reads, in order, what each of its paths reads.
pub proof fn lemma_set5_reads<'a, This: ?Sized + 'a, U: Uniqueness, P0, P1, P2, P3, P4>(
    set: FieldPathSet<(P0, P1, P2, P3, P4), U>,
    this: &'a This,
)
    where
        P0: IsSingleFieldPath + RevGetFieldImpl<'a, This>,
        P0::Ty: 'a,
        Result<&'a P0::Ty, P0::Error>: NormalizeFields,
        P1: IsSingleFieldPath + RevGetFieldImpl<'a, This>,
        P1::Ty: 'a,
        Result<&'a P1::Ty, P1::Error>: NormalizeFields,
        P2: IsSingleFieldPath + RevGetFieldImpl<'a, This>,
        P2::Ty: 'a,
        Result<&'a P2::Ty, P2::Error>: NormalizeFields,
        P3: IsSingleFieldPath + RevGetFieldImpl<'a, This>,
        P3::Ty: 'a,
        Result<&'a P3::Ty, P3::Error>: NormalizeFields,
        P4: IsSingleFieldPath + RevGetFieldImpl<'a, This>,
        P4::Ty: 'a,
        Result<&'a P4::Ty, P4::Error>: NormalizeFields,
    ensures
        set.rev_get_multi_field_spec(this) == (set.paths().0.rev_get_field_spec(this), set.paths().1.rev_get_field_spec(this), set.paths().2.rev_get_field_spec(this), set.paths().3.rev_get_field_spec(this), set.paths().4.rev_get_field_spec(this)),
{
}

/// A set of 6 paths reads, in order, what each of its paths reads.
pub proof fn lemma_set6_reads<'a, This: ?Sized + 'a, U: Uniqueness, P0, P1, P2, P3, P4, P5>(
    set: FieldPathSet<(P0, P1, P2, P3, P4, P5), U>,
    this: &'a This,
)
    where
        P0: IsSingleFieldPath + RevGetFieldImpl<'a, This>,
        P0::Ty: 'a,
        Result<&'a P0::Ty, P0::Error>: NormalizeFields,
        P1: IsSingleFieldPath + RevGetFieldImpl<'a, This>,
        P1::Ty: 'a,
        Result<&'a P1::Ty, P1::Error>: NormalizeFields,
        P2: IsSingleFieldPath + RevGetFieldImpl<'a, This>,
        P2::Ty: 'a,
        Result<&'a P2::Ty, P2::Error>: NormalizeFields,
        P3: IsSingleFieldPath + RevGetFieldImpl<'a, This>,
        P3::Ty: 'a,
        Result<&'a P3::Ty, P3::Error>: NormalizeFields,
        P4: IsSingleFieldPath + RevGetFieldImpl<'a, This>,
        P4::Ty: 'a,
        Result<&'a P4::Ty, P4::Error>: NormalizeFields,
        P5: IsSingleFieldPath + RevGetFieldImpl<'a, This>,
        P5::Ty: 'a,
        Result<&'a P5::Ty, P5::Error>: NormalizeFields,
    ensures
        set.rev_get_multi_field_spec(this) == (set.paths().0.rev_get_field_spec(this), set.paths().1.rev_get_field_spec(this), set.paths().2.rev_get_field_spec(this), set.paths().3.rev_get_field_spec(this), set.paths().4.rev_get_field_spec(this), set.paths().5.rev_get_field_spec(this)),
{
}

/// A set of 7 paths reads, in order, what each of its paths reads.
pub proof fn lemma_set7_reads<'a, This: ?Sized + 'a, U: Uniqueness, P0, P1, P2, P3, P4, P5, P6>(
    set: FieldPathSet<(P0, P1, P2, P3, P4, P5, P6), U>,
    this: &'a This,
)
    where
        P0: IsSingleFieldPath + RevGetFieldImpl<'a, This>,
        P0::Ty: 'a,
        Result<&'a P0::Ty, P0::Error>: NormalizeFields,
        P1: IsSingleFieldPath + RevGetFieldImpl<'a, This>,
        P1::Ty: 'a,
        Result<&'a P1::Ty, P1::Error>: NormalizeFields,
        P2: IsSingleFieldPath + RevGetFieldImpl<'a, This>,
        P2::Ty: 'a,
        Result<&'a P2::Ty, P2::Error>: NormalizeFields,
        P3: IsSingleFieldPath + RevGetFieldImpl<'a, This>,
        P3::Ty: 'a,
        Result<&'a P3::Ty, P3::Error>: NormalizeFields,
        P4: IsSingleFieldPath + RevGetFieldImpl<'a, This>,
        P4::Ty: 'a,
        Result<&'a P4::Ty, P4::Error>: NormalizeFields,
        P5: IsSingleFieldPath + RevGetFieldImpl<'a, This>,
        P5::Ty: 'a,
        Result<&'a P5::Ty, P5::Error>: NormalizeFields,
        P6: IsSingleFieldPath + RevGetFieldImpl<'a, This>,
        P6::Ty: 'a,
        Result<&'a P6::Ty, P6::Error>: NormalizeFields,
    ensures
        set.rev_get_multi_field_spec(this) == (set.paths().0.rev_get_field_spec(this), set.paths().1.rev_get_field_spec(this), set.paths().2.rev_get_field_spec(this), set.paths().3.rev_get_field_spec(this), set.paths().4.rev_get_field_spec(this), set.paths().5.rev_get_field_spec(this), set.paths().6.rev_get_field_spec(this)),
{
}

/// A set of 8 paths reads, in order, what each of its paths reads.
pub proof fn lemma_set8_reads<'a, This: ?Sized + 'a, U: Uniqueness, P0, P1, P2, P3, P4, P5, P6, P7>(
    set: FieldPathSet<(P0, P1, P2, P3, P4, P5, P6, P7), U>,
    this: &'a This,
)
    where
        P0: IsSingleFieldPath + RevGetFieldImpl<'a, This>,
        P0::Ty: 'a,
        Result<&'a P0::Ty, P0::Error>: NormalizeFields,
        P1: IsSingleFieldPath + RevGetFieldImpl<'a, This>,
        P1::Ty: 'a,
        Result<&'a P1::Ty, P1::Error>: NormalizeFields,
        P2: IsSingleFieldPath + RevGetFieldImpl<'a, This>,
        P2::Ty: 'a,
        Result<&'a P2::Ty, P2::Error>: NormalizeFields,
        P3: IsSingleFieldPath + RevGetFieldImpl<'a, This>,
        P3::Ty: 'a,
        Result<&'a P3::Ty, P3::Error>: NormalizeFields,
        P4: IsSingleFieldPath + RevGetFieldImpl<'a, This>,
        P4::Ty: 'a,
        Result<&'a P4::Ty, P4::Error>: NormalizeFields,
        P5: IsSingleFieldPath + RevGetFieldImpl<'a, This>,
        P5::Ty: 'a,
        Result<&'a P5::Ty, P5::Error>: NormalizeFields,
        P6: IsSingleFieldPath + RevGetFieldImpl<'a, This>,
        P6::Ty: 'a,
        Result<&'a P6::Ty, P6::Error>: NormalizeFields,
        P7: IsSingleFieldPath + RevGetFieldImpl<'a, This>,
        P7::Ty: 'a,
        Result<&'a P7::Ty, P7::Error>: NormalizeFields,
    ensures
        set.rev_get_multi_field_spec(this) == (set.paths().0.rev_get_field_spec(this), set.paths().1.rev_get_field_spec(this), set.paths().2.rev_get_field_spec(this), set.paths().3.rev_get_field_spec(this), set.paths().4.rev_get_field_spec(this), set.paths().5.rev_get_field_spec(this), set.paths().6.rev_get_field_spec(this), set.paths().7.rev_get_field_spec(this)),
{
}

} // verus!
