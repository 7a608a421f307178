//! What the accessors of std types do, stated over their elements, fields
//! and variants: tuples, slices, arrays, ranges, `Option`, `Result`, and the
//! references, boxes and wrappers that give the fields of what they hold.
use crate::enums::IsVariant;
use crate::field::errors::{FailedAccess, InfallibleAccess};
use crate::field::for_arrays::IsPathForArray;
use crate::field::{
    GetFieldImpl, GetFieldMutImpl, GetVariantField, GetVariantFieldMut,
};
use crate::field_path::names::{
    Str_0, Str_1, Str_10, Str_11, Str_2, Str_3, Str_4, Str_5, Str_6, Str_7, Str_8, Str_9, Str_Err,
    Str_None, Str_Ok, Str_Some, Str_end, Str_start,
};
use crate::field_path::{TStr, ToUsize};
use std::mem::ManuallyDrop;
use std::ops::Range;
use std::rc::Rc;
use std::sync::Arc;
use vstd::prelude::*;

verus! {

/// The field named `i` of a tuple of 1 element is its element at index
/// `i`: shared access reads that element, and a write through it sets that
/// element and leaves the others as they were.
pub proof fn lemma_tuple1_accessors<C0>(x: (C0,), new: (C0,), v0: C0)
    ensures
        <(C0,) as GetFieldImpl<TStr<Str_0>>>::get_field_spec(&x) == Ok::<&C0, InfallibleAccess>(&x.0),
        <(C0,) as GetFieldMutImpl<TStr<Str_0>>>::field_updated(&x, &new, v0) <==> (new == (v0,)),
{
}

/// The field named `i` of a tuple of 2 elements is its element at index
/// `i`: shared access reads that element, and a write through it sets that
/// element and leaves the others as they were.
pub proof fn lemma_tuple2_accessors<C0, C1>(x: (C0, C1), new: (C0, C1), v0: C0, v1: C1)
    ensures
        <(C0, C1) as GetFieldImpl<TStr<Str_0>>>::get_field_spec(&x) == Ok::<&C0, InfallibleAccess>(&x.0),
        <(C0, C1) as GetFieldImpl<TStr<Str_1>>>::get_field_spec(&x) == Ok::<&C1, InfallibleAccess>(&x.1),
        <(C0, C1) as GetFieldMutImpl<TStr<Str_0>>>::field_updated(&x, &new, v0) <==> (new == (v0, x.1)),
        <(C0, C1) as GetFieldMutImpl<TStr<Str_1>>>::field_updated(&x, &new, v1) <==> (new == (x.0, v1)),
{
}

/// The field named `i` of a tuple of 3 elements is its element at index
/// `i`: shared access reads that element, and a write through it sets that
/// element and leaves the others as they were.
pub proof fn lemma_tuple3_accessors<C0, C1, C2>(x: (C0, C1, C2), new: (C0, C1, C2), v0: C0, v1: C1, v2: C2)
    ensures
        <(C0, C1, C2) as GetFieldImpl<TStr<Str_0>>>::get_field_spec(&x) == Ok::<&C0, InfallibleAccess>(&x.0),
        <(C0, C1, C2) as GetFieldImpl<TStr<Str_1>>>::get_field_spec(&x) == Ok::<&C1, InfallibleAccess>(&x.1),
        <(C0, C1, C2) as GetFieldImpl<TStr<Str_2>>>::get_field_spec(&x) == Ok::<&C2, InfallibleAccess>(&x.2),
        <(C0, C1, C2) as GetFieldMutImpl<TStr<Str_0>>>::field_updated(&x, &new, v0) <==> (new == (v0, x.1, x.2)),
        <(C0, C1, C2) as GetFieldMutImpl<TStr<Str_1>>>::field_updated(&x, &new, v1) <==> (new == (x.0, v1, x.2)),
        <(C0, C1, C2) as GetFieldMutImpl<TStr<Str_2>>>::field_updated(&x, &new, v2) <==> (new == (x.0, x.1, v2)),
{
}

/// The field named `i` of a tuple of 4 elements is its element at index
/// `i`: shared access reads that element, and a write through it sets that
/// element and leaves the others as they were.
pub proof fn lemma_tuple4_accessors<C0, C1, C2, C3>(x: (C0, C1, C2, C3), new: (C0, C1, C2, C3), v0: C0, v1: C1, v2: C2, v3: C3)
    ensures
        <(C0, C1, C2, C3) as GetFieldImpl<TStr<Str_0>>>::get_field_spec(&x) == Ok::<&C0, InfallibleAccess>(&x.0),
        <(C0, C1, C2, C3) as GetFieldImpl<TStr<Str_1>>>::get_field_spec(&x) == Ok::<&C1, InfallibleAccess>(&x.1),
        <(C0, C1, C2, C3) as GetFieldImpl<TStr<Str_2>>>::get_field_spec(&x) == Ok::<&C2, InfallibleAccess>(&x.2),
        <(C0, C1, C2, C3) as GetFieldImpl<TStr<Str_3>>>::get_field_spec(&x) == Ok::<&C3, InfallibleAccess>(&x.3),
        <(C0, C1, C2, C3) as GetFieldMutImpl<TStr<Str_0>>>::field_updated(&x, &new, v0) <==> (new == (v0, x.1, x.2, x.3)),
        <(C0, C1, C2, C3) as GetFieldMutImpl<TStr<Str_1>>>::field_updated(&x, &new, v1) <==> (new == (x.0, v1, x.2, x.3)),
        <(C0, C1, C2, C3) as GetFieldMutImpl<TStr<Str_2>>>::field_updated(&x, &new, v2) <==> (new == (x.0, x.1, v2, x.3)),
        <(C0, C1, C2, C3) as GetFieldMutImpl<TStr<Str_3>>>::field_updated(&x, &new, v3) <==> (new == (x.0, x.1, x.2, v3)),
{
}

/// The field named `i` of a tuple of 5 elements is its element at index
/// `i`: shared access reads that element, and a write through it sets that
/// element and leaves the others as they were.
pub proof fn lemma_tuple5_accessors<C0, C1, C2, C3, C4>(x: (C0, C1, C2, C3, C4), new: (C0, C1, C2, C3, C4), v0: C0, v1: C1, v2: C2, v3: C3, v4: C4)
    ensures
        <(C0, C1, C2, C3, C4) as GetFieldImpl<TStr<Str_0>>>::get_field_spec(&x) == Ok::<&C0, InfallibleAccess>(&x.0),
        <(C0, C1, C2, C3, C4) as GetFieldImpl<TStr<Str_1>>>::get_field_spec(&x) == Ok::<&C1, InfallibleAccess>(&x.1),
        <(C0, C1, C2, C3, C4) as GetFieldImpl<TStr<Str_2>>>::get_field_spec(&x) == Ok::<&C2, InfallibleAccess>(&x.2),
        <(C0, C1, C2, C3, C4) as GetFieldImpl<TStr<Str_3>>>::get_field_spec(&x) == Ok::<&C3, InfallibleAccess>(&x.3),
        <(C0, C1, C2, C3, C4) as GetFieldImpl<TStr<Str_4>>>::get_field_spec(&x) == Ok::<&C4, InfallibleAccess>(&x.4),
        <(C0, C1, C2, C3, C4) as GetFieldMutImpl<TStr<Str_0>>>::field_updated(&x, &new, v0) <==> (new == (v0, x.1, x.2, x.3, x.4)),
        <(C0, C1, C2, C3, C4) as GetFieldMutImpl<TStr<Str_1>>>::field_updated(&x, &new, v1) <==> (new == (x.0, v1, x.2, x.3, x.4)),
        <(C0, C1, C2, C3, C4) as GetFieldMutImpl<TStr<Str_2>>>::field_updated(&x, &new, v2) <==> (new == (x.0, x.1, v2, x.3, x.4)),
        <(C0, C1, C2, C3, C4) as GetFieldMutImpl<TStr<Str_3>>>::field_updated(&x, &new, v3) <==> (new == (x.0, x.1, x.2, v3, x.4)),
        <(C0, C1, C2, C3, C4) as GetFieldMutImpl<TStr<Str_4>>>::field_updated(&x, &new, v4) <==> (new == (x.0, x.1, x.2, x.3, v4)),
{
}

/// The field named `i` of a tuple of 6 elements is its element at index
/// `i`: shared access reads that element, and a write through it sets that
/// element and leaves the others as they were.
pub proof fn lemma_tuple6_accessors<C0, C1, C2, C3, C4, C5>(x: (C0, C1, C2, C3, C4, C5), new: (C0, C1, C2, C3, C4, C5), v0: C0, v1: C1, v2: C2, v3: C3, v4: C4, v5: C5)
    ensures
        <(C0, C1, C2, C3, C4, C5) as GetFieldImpl<TStr<Str_0>>>::get_field_spec(&x) == Ok::<&C0, InfallibleAccess>(&x.0),
        <(C0, C1, C2, C3, C4, C5) as GetFieldImpl<TStr<Str_1>>>::get_field_spec(&x) == Ok::<&C1, InfallibleAccess>(&x.1),
        <(C0, C1, C2, C3, C4, C5) as GetFieldImpl<TStr<Str_2>>>::get_field_spec(&x) == Ok::<&C2, InfallibleAccess>(&x.2),
        <(C0, C1, C2, C3, C4, C5) as GetFieldImpl<TStr<Str_3>>>::get_field_spec(&x) == Ok::<&C3, InfallibleAccess>(&x.3),
        <(C0, C1, C2, C3, C4, C5) as GetFieldImpl<TStr<Str_4>>>::get_field_spec(&x) == Ok::<&C4, InfallibleAccess>(&x.4),
        <(C0, C1, C2, C3, C4, C5) as GetFieldImpl<TStr<Str_5>>>::get_field_spec(&x) == Ok::<&C5, InfallibleAccess>(&x.5),
        <(C0, C1, C2, C3, C4, C5) as GetFieldMutImpl<TStr<Str_0>>>::field_updated(&x, &new, v0) <==> (new == (v0, x.1, x.2, x.3, x.4, x.5)),
        <(C0, C1, C2, C3, C4, C5) as GetFieldMutImpl<TStr<Str_1>>>::field_updated(&x, &new, v1) <==> (new == (x.0, v1, x.2, x.3, x.4, x.5)),
        <(C0, C1, C2, C3, C4, C5) as GetFieldMutImpl<TStr<Str_2>>>::field_updated(&x, &new, v2) <==> (new == (x.0, x.1, v2, x.3, x.4, x.5)),
        <(C0, C1, C2, C3, C4, C5) as GetFieldMutImpl<TStr<Str_3>>>::field_updated(&x, &new, v3) <==> (new == (x.0, x.1, x.2, v3, x.4, x.5)),
        <(C0, C1, C2, C3, C4, C5) as GetFieldMutImpl<TStr<Str_4>>>::field_updated(&x, &new, v4) <==> (new == (x.0, x.1, x.2, x.3, v4, x.5)),
        <(C0, C1, C2, C3, C4, C5) as GetFieldMutImpl<TStr<Str_5>>>::field_updated(&x, &new, v5) <==> (new == (x.0, x.1, x.2, x.3, x.4, v5)),
{
}

/// The field named `i` of a tuple of 7 elements is its element at index
/// `i`: shared access reads that element, and a write through it sets that
/// element and leaves the others as they were.
pub proof fn lemma_tuple7_accessors<C0, C1, C2, C3, C4, C5, C6>(x: (C0, C1, C2, C3, C4, C5, C6), new: (C0, C1, C2, C3, C4, C5, C6), v0: C0, v1: C1, v2: C2, v3: C3, v4: C4, v5: C5, v6: C6)
    ensures
        <(C0, C1, C2, C3, C4, C5, C6) as GetFieldImpl<TStr<Str_0>>>::get_field_spec(&x) == Ok::<&C0, InfallibleAccess>(&x.0),
        <(C0, C1, C2, C3, C4, C5, C6) as GetFieldImpl<TStr<Str_1>>>::get_field_spec(&x) == Ok::<&C1, InfallibleAccess>(&x.1),
        <(C0, C1, C2, C3, C4, C5, C6) as GetFieldImpl<TStr<Str_2>>>::get_field_spec(&x) == Ok::<&C2, InfallibleAccess>(&x.2),
        <(C0, C1, C2, C3, C4, C5, C6) as GetFieldImpl<TStr<Str_3>>>::get_field_spec(&x) == Ok::<&C3, InfallibleAccess>(&x.3),
        <(C0, C1, C2, C3, C4, C5, C6) as GetFieldImpl<TStr<Str_4>>>::get_field_spec(&x) == Ok::<&C4, InfallibleAccess>(&x.4),
        <(C0, C1, C2, C3, C4, C5, C6) as GetFieldImpl<TStr<Str_5>>>::get_field_spec(&x) == Ok::<&C5, InfallibleAccess>(&x.5),
        <(C0, C1, C2, C3, C4, C5, C6) as GetFieldImpl<TStr<Str_6>>>::get_field_spec(&x) == Ok::<&C6, InfallibleAccess>(&x.6),
        <(C0, C1, C2, C3, C4, C5, C6) as GetFieldMutImpl<TStr<Str_0>>>::field_updated(&x, &new, v0) <==> (new == (v0, x.1, x.2, x.3, x.4, x.5, x.6)),
        <(C0, C1, C2, C3, C4, C5, C6) as GetFieldMutImpl<TStr<Str_1>>>::field_updated(&x, &new, v1) <==> (new == (x.0, v1, x.2, x.3, x.4, x.5, x.6)),
        <(C0, C1, C2, C3, C4, C5, C6) as GetFieldMutImpl<TStr<Str_2>>>::field_updated(&x, &new, v2) <==> (new == (x.0, x.1, v2, x.3, x.4, x.5, x.6)),
        <(C0, C1, C2, C3, C4, C5, C6) as GetFieldMutImpl<TStr<Str_3>>>::field_updated(&x, &new, v3) <==> (new == (x.0, x.1, x.2, v3, x.4, x.5, x.6)),
        <(C0, C1, C2, C3, C4, C5, C6) as GetFieldMutImpl<TStr<Str_4>>>::field_updated(&x, &new, v4) <==> (new == (x.0, x.1, x.2, x.3, v4, x.5, x.6)),
        <(C0, C1, C2, C3, C4, C5, C6) as GetFieldMutImpl<TStr<Str_5>>>::field_updated(&x, &new, v5) <==> (new == (x.0, x.1, x.2, x.3, x.4, v5, x.6)),
        <(C0, C1, C2, C3, C4, C5, C6) as GetFieldMutImpl<TStr<Str_6>>>::field_updated(&x, &new, v6) <==> (new == (x.0, x.1, x.2, x.3, x.4, x.5, v6)),
{
}

/// The field named `i` of a tuple of 8 elements is its element at index
/// `i`: shared access reads that element, and a write through it sets that
/// element and leaves the others as they were.
pub proof fn lemma_tuple8_accessors<C0, C1, C2, C3, C4, C5, C6, C7>(x: (C0, C1, C2, C3, C4, C5, C6, C7), new: (C0, C1, C2, C3, C4, C5, C6, C7), v0: C0, v1: C1, v2: C2, v3: C3, v4: C4, v5: C5, v6: C6, v7: C7)
    ensures
        <(C0, C1, C2, C3, C4, C5, C6, C7) as GetFieldImpl<TStr<Str_0>>>::get_field_spec(&x) == Ok::<&C0, InfallibleAccess>(&x.0),
        <(C0, C1, C2, C3, C4, C5, C6, C7) as GetFieldImpl<TStr<Str_1>>>::get_field_spec(&x) == Ok::<&C1, InfallibleAccess>(&x.1),
        <(C0, C1, C2, C3, C4, C5, C6, C7) as GetFieldImpl<TStr<Str_2>>>::get_field_spec(&x) == Ok::<&C2, InfallibleAccess>(&x.2),
        <(C0, C1, C2, C3, C4, C5, C6, C7) as GetFieldImpl<TStr<Str_3>>>::get_field_spec(&x) == Ok::<&C3, InfallibleAccess>(&x.3),
        <(C0, C1, C2, C3, C4, C5, C6, C7) as GetFieldImpl<TStr<Str_4>>>::get_field_spec(&x) == Ok::<&C4, InfallibleAccess>(&x.4),
        <(C0, C1, C2, C3, C4, C5, C6, C7) as GetFieldImpl<TStr<Str_5>>>::get_field_spec(&x) == Ok::<&C5, InfallibleAccess>(&x.5),
        <(C0, C1, C2, C3, C4, C5, C6, C7) as GetFieldImpl<TStr<Str_6>>>::get_field_spec(&x) == Ok::<&C6, InfallibleAccess>(&x.6),
        <(C0, C1, C2, C3, C4, C5, C6, C7) as GetFieldImpl<TStr<Str_7>>>::get_field_spec(&x) == Ok::<&C7, InfallibleAccess>(&x.7),
        <(C0, C1, C2, C3, C4, C5, C6, C7) as GetFieldMutImpl<TStr<Str_0>>>::field_updated(&x, &new, v0) <==> (new == (v0, x.1, x.2, x.3, x.4, x.5, x.6, x.7)),
        <(C0, C1, C2, C3, C4, C5, C6, C7) as GetFieldMutImpl<TStr<Str_1>>>::field_updated(&x, &new, v1) <==> (new == (x.0, v1, x.2, x.3, x.4, x.5, x.6, x.7)),
        <(C0, C1, C2, C3, C4, C5, C6, C7) as GetFieldMutImpl<TStr<Str_2>>>::field_updated(&x, &new, v2) <==> (new == (x.0, x.1, v2, x.3, x.4, x.5, x.6, x.7)),
        <(C0, C1, C2, C3, C4, C5, C6, C7) as GetFieldMutImpl<TStr<Str_3>>>::field_updated(&x, &new, v3) <==> (new == (x.0, x.1, x.2, v3, x.4, x.5, x.6, x.7)),
        <(C0, C1, C2, C3, C4, C5, C6, C7) as GetFieldMutImpl<TStr<Str_4>>>::field_updated(&x, &new, v4) <==> (new == (x.0, x.1, x.2, x.3, v4, x.5, x.6, x.7)),
        <(C0, C1, C2, C3, C4, C5, C6, C7) as GetFieldMutImpl<TStr<Str_5>>>::field_updated(&x, &new, v5) <==> (new == (x.0, x.1, x.2, x.3, x.4, v5, x.6, x.7)),
        <(C0, C1, C2, C3, C4, C5, C6, C7) as GetFieldMutImpl<TStr<Str_6>>>::field_updated(&x, &new, v6) <==> (new == (x.0, x.1, x.2, x.3, x.4, x.5, v6, x.7)),
        <(C0, C1, C2, C3, C4, C5, C6, C7) as GetFieldMutImpl<TStr<Str_7>>>::field_updated(&x, &new, v7) <==> (new == (x.0, x.1, x.2, x.3, x.4, x.5, x.6, v7)),
{
}

/// The field named `i` of a tuple of 9 elements is its element at index
/// `i`: shared access reads that element, and a write through it sets that
/// element and leaves the others as they were.
pub proof fn lemma_tuple9_accessors<C0, C1, C2, C3, C4, C5, C6, C7, C8>(x: (C0, C1, C2, C3, C4, C5, C6, C7, C8), new: (C0, C1, C2, C3, C4, C5, C6, C7, C8), v0: C0, v1: C1, v2: C2, v3: C3, v4: C4, v5: C5, v6: C6, v7: C7, v8: C8)
    ensures
        <(C0, C1, C2, C3, C4, C5, C6, C7, C8) as GetFieldImpl<TStr<Str_0>>>::get_field_spec(&x) == Ok::<&C0, InfallibleAccess>(&x.0),
        <(C0, C1, C2, C3, C4, C5, C6, C7, C8) as GetFieldImpl<TStr<Str_1>>>::get_field_spec(&x) == Ok::<&C1, InfallibleAccess>(&x.1),
        <(C0, C1, C2, C3, C4, C5, C6, C7, C8) as GetFieldImpl<TStr<Str_2>>>::get_field_spec(&x) == Ok::<&C2, InfallibleAccess>(&x.2),
        <(C0, C1, C2, C3, C4, C5, C6, C7, C8) as GetFieldImpl<TStr<Str_3>>>::get_field_spec(&x) == Ok::<&C3, InfallibleAccess>(&x.3),
        <(C0, C1, C2, C3, C4, C5, C6, C7, C8) as GetFieldImpl<TStr<Str_4>>>::get_field_spec(&x) == Ok::<&C4, InfallibleAccess>(&x.4),
        <(C0, C1, C2, C3, C4, C5, C6, C7, C8) as GetFieldImpl<TStr<Str_5>>>::get_field_spec(&x) == Ok::<&C5, InfallibleAccess>(&x.5),
        <(C0, C1, C2, C3, C4, C5, C6, C7, C8) as GetFieldImpl<TStr<Str_6>>>::get_field_spec(&x) == Ok::<&C6, InfallibleAccess>(&x.6),
        <(C0, C1, C2, C3, C4, C5, C6, C7, C8) as GetFieldImpl<TStr<Str_7>>>::get_field_spec(&x) == Ok::<&C7, InfallibleAccess>(&x.7),
        <(C0, C1, C2, C3, C4, C5, C6, C7, C8) as GetFieldImpl<TStr<Str_8>>>::get_field_spec(&x) == Ok::<&C8, InfallibleAccess>(&x.8),
        <(C0, C1, C2, C3, C4, C5, C6, C7, C8) as GetFieldMutImpl<TStr<Str_0>>>::field_updated(&x, &new, v0) <==> (new == (v0, x.1, x.2, x.3, x.4, x.5, x.6, x.7, x.8)),
        <(C0, C1, C2, C3, C4, C5, C6, C7, C8) as GetFieldMutImpl<TStr<Str_1>>>::field_updated(&x, &new, v1) <==> (new == (x.0, v1, x.2, x.3, x.4, x.5, x.6, x.7, x.8)),
        <(C0, C1, C2, C3, C4, C5, C6, C7, C8) as GetFieldMutImpl<TStr<Str_2>>>::field_updated(&x, &new, v2) <==> (new == (x.0, x.1, v2, x.3, x.4, x.5, x.6, x.7, x.8)),
        <(C0, C1, C2, C3, C4, C5, C6, C7, C8) as GetFieldMutImpl<TStr<Str_3>>>::field_updated(&x, &new, v3) <==> (new == (x.0, x.1, x.2, v3, x.4, x.5, x.6, x.7, x.8)),
        <(C0, C1, C2, C3, C4, C5, C6, C7, C8) as GetFieldMutImpl<TStr<Str_4>>>::field_updated(&x, &new, v4) <==> (new == (x.0, x.1, x.2, x.3, v4, x.5, x.6, x.7, x.8)),
        <(C0, C1, C2, C3, C4, C5, C6, C7, C8) as GetFieldMutImpl<TStr<Str_5>>>::field_updated(&x, &new, v5) <==> (new == (x.0, x.1, x.2, x.3, x.4, v5, x.6, x.7, x.8)),
        <(C0, C1, C2, C3, C4, C5, C6, C7, C8) as GetFieldMutImpl<TStr<Str_6>>>::field_updated(&x, &new, v6) <==> (new == (x.0, x.1, x.2, x.3, x.4, x.5, v6, x.7, x.8)),
        <(C0, C1, C2, C3, C4, C5, C6, C7, C8) as GetFieldMutImpl<TStr<Str_7>>>::field_updated(&x, &new, v7) <==> (new == (x.0, x.1, x.2, x.3, x.4, x.5, x.6, v7, x.8)),
        <(C0, C1, C2, C3, C4, C5, C6, C7, C8) as GetFieldMutImpl<TStr<Str_8>>>::field_updated(&x, &new, v8) <==> (new == (x.0, x.1, x.2, x.3, x.4, x.5, x.6, x.7, v8)),
{
}

/// The field named `i` of a tuple of 10 elements is its element at index
/// `i`: shared access reads that element, and a write through it sets that
/// element and leaves the others as they were.
pub proof fn lemma_tuple10_accessors<C0, C1, C2, C3, C4, C5, C6, C7, C8, C9>(x: (C0, C1, C2, C3, C4, C5, C6, C7, C8, C9), new: (C0, C1, C2, C3, C4, C5, C6, C7, C8, C9), v0: C0, v1: C1, v2: C2, v3: C3, v4: C4, v5: C5, v6: C6, v7: C7, v8: C8, v9: C9)
    ensures
        <(C0, C1, C2, C3, C4, C5, C6, C7, C8, C9) as GetFieldImpl<TStr<Str_0>>>::get_field_spec(&x) == Ok::<&C0, InfallibleAccess>(&x.0),
        <(C0, C1, C2, C3, C4, C5, C6, C7, C8, C9) as GetFieldImpl<TStr<Str_1>>>::get_field_spec(&x) == Ok::<&C1, InfallibleAccess>(&x.1),
        <(C0, C1, C2, C3, C4, C5, C6, C7, C8, C9) as GetFieldImpl<TStr<Str_2>>>::get_field_spec(&x) == Ok::<&C2, InfallibleAccess>(&x.2),
        <(C0, C1, C2, C3, C4, C5, C6, C7, C8, C9) as GetFieldImpl<TStr<Str_3>>>::get_field_spec(&x) == Ok::<&C3, InfallibleAccess>(&x.3),
        <(C0, C1, C2, C3, C4, C5, C6, C7, C8, C9) as GetFieldImpl<TStr<Str_4>>>::get_field_spec(&x) == Ok::<&C4, InfallibleAccess>(&x.4),
        <(C0, C1, C2, C3, C4, C5, C6, C7, C8, C9) as GetFieldImpl<TStr<Str_5>>>::get_field_spec(&x) == Ok::<&C5, InfallibleAccess>(&x.5),
        <(C0, C1, C2, C3, C4, C5, C6, C7, C8, C9) as GetFieldImpl<TStr<Str_6>>>::get_field_spec(&x) == Ok::<&C6, InfallibleAccess>(&x.6),
        <(C0, C1, C2, C3, C4, C5, C6, C7, C8, C9) as GetFieldImpl<TStr<Str_7>>>::get_field_spec(&x) == Ok::<&C7, InfallibleAccess>(&x.7),
        <(C0, C1, C2, C3, C4, C5, C6, C7, C8, C9) as GetFieldImpl<TStr<Str_8>>>::get_field_spec(&x) == Ok::<&C8, InfallibleAccess>(&x.8),
        <(C0, C1, C2, C3, C4, C5, C6, C7, C8, C9) as GetFieldImpl<TStr<Str_9>>>::get_field_spec(&x) == Ok::<&C9, InfallibleAccess>(&x.9),
        <(C0, C1, C2, C3, C4, C5, C6, C7, C8, C9) as GetFieldMutImpl<TStr<Str_0>>>::field_updated(&x, &new, v0) <==> (new == (v0, x.1, x.2, x.3, x.4, x.5, x.6, x.7, x.8, x.9)),
        <(C0, C1, C2, C3, C4, C5, C6, C7, C8, C9) as GetFieldMutImpl<TStr<Str_1>>>::field_updated(&x, &new, v1) <==> (new == (x.0, v1, x.2, x.3, x.4, x.5, x.6, x.7, x.8, x.9)),
        <(C0, C1, C2, C3, C4, C5, C6, C7, C8, C9) as GetFieldMutImpl<TStr<Str_2>>>::field_updated(&x, &new, v2) <==> (new == (x.0, x.1, v2, x.3, x.4, x.5, x.6, x.7, x.8, x.9)),
        <(C0, C1, C2, C3, C4, C5, C6, C7, C8, C9) as GetFieldMutImpl<TStr<Str_3>>>::field_updated(&x, &new, v3) <==> (new == (x.0, x.1, x.2, v3, x.4, x.5, x.6, x.7, x.8, x.9)),
        <(C0, C1, C2, C3, C4, C5, C6, C7, C8, C9) as GetFieldMutImpl<TStr<Str_4>>>::field_updated(&x, &new, v4) <==> (new == (x.0, x.1, x.2, x.3, v4, x.5, x.6, x.7, x.8, x.9)),
        <(C0, C1, C2, C3, C4, C5, C6, C7, C8, C9) as GetFieldMutImpl<TStr<Str_5>>>::field_updated(&x, &new, v5) <==> (new == (x.0, x.1, x.2, x.3, x.4, v5, x.6, x.7, x.8, x.9)),
        <(C0, C1, C2, C3, C4, C5, C6, C7, C8, C9) as GetFieldMutImpl<TStr<Str_6>>>::field_updated(&x, &new, v6) <==> (new == (x.0, x.1, x.2, x.3, x.4, x.5, v6, x.7, x.8, x.9)),
        <(C0, C1, C2, C3, C4, C5, C6, C7, C8, C9) as GetFieldMutImpl<TStr<Str_7>>>::field_updated(&x, &new, v7) <==> (new == (x.0, x.1, x.2, x.3, x.4, x.5, x.6, v7, x.8, x.9)),
        <(C0, C1, C2, C3, C4, C5, C6, C7, C8, C9) as GetFieldMutImpl<TStr<Str_8>>>::field_updated(&x, &new, v8) <==> (new == (x.0, x.1, x.2, x.3, x.4, x.5, x.6, x.7, v8, x.9)),
        <(C0, C1, C2, C3, C4, C5, C6, C7, C8, C9) as GetFieldMutImpl<TStr<Str_9>>>::field_updated(&x, &new, v9) <==> (new == (x.0, x.1, x.2, x.3, x.4, x.5, x.6, x.7, x.8, v9)),
{
}

/// The field named `i` of a tuple of 11 elements is its element at index
/// `i`: shared access reads that element, and a write through it sets that
/// element and leaves the others as they were.
pub proof fn lemma_tuple11_accessors<C0, C1, C2, C3, C4, C5, C6, C7, C8, C9, C10>(x: (C0, C1, C2, C3, C4, C5, C6, C7, C8, C9, C10), new: (C0, C1, C2, C3, C4, C5, C6, C7, C8, C9, C10), v0: C0, v1: C1, v2: C2, v3: C3, v4: C4, v5: C5, v6: C6, v7: C7, v8: C8, v9: C9, v10: C10)
    ensures
        <(C0, C1, C2, C3, C4, C5, C6, C7, C8, C9, C10) as GetFieldImpl<TStr<Str_0>>>::get_field_spec(&x) == Ok::<&C0, InfallibleAccess>(&x.0),
        <(C0, C1, C2, C3, C4, C5, C6, C7, C8, C9, C10) as GetFieldImpl<TStr<Str_1>>>::get_field_spec(&x) == Ok::<&C1, InfallibleAccess>(&x.1),
        <(C0, C1, C2, C3, C4, C5, C6, C7, C8, C9, C10) as GetFieldImpl<TStr<Str_2>>>::get_field_spec(&x) == Ok::<&C2, InfallibleAccess>(&x.2),
        <(C0, C1, C2, C3, C4, C5, C6, C7, C8, C9, C10) as GetFieldImpl<TStr<Str_3>>>::get_field_spec(&x) == Ok::<&C3, InfallibleAccess>(&x.3),
        <(C0, C1, C2, C3, C4, C5, C6, C7, C8, C9, C10) as GetFieldImpl<TStr<Str_4>>>::get_field_spec(&x) == Ok::<&C4, InfallibleAccess>(&x.4),
        <(C0, C1, C2, C3, C4, C5, C6, C7, C8, C9, C10) as GetFieldImpl<TStr<Str_5>>>::get_field_spec(&x) == Ok::<&C5, InfallibleAccess>(&x.5),
        <(C0, C1, C2, C3, C4, C5, C6, C7, C8, C9, C10) as GetFieldImpl<TStr<Str_6>>>::get_field_spec(&x) == Ok::<&C6, InfallibleAccess>(&x.6),
        <(C0, C1, C2, C3, C4, C5, C6, C7, C8, C9, C10) as GetFieldImpl<TStr<Str_7>>>::get_field_spec(&x) == Ok::<&C7, InfallibleAccess>(&x.7),
        <(C0, C1, C2, C3, C4, C5, C6, C7, C8, C9, C10) as GetFieldImpl<TStr<Str_8>>>::get_field_spec(&x) == Ok::<&C8, InfallibleAccess>(&x.8),
        <(C0, C1, C2, C3, C4, C5, C6, C7, C8, C9, C10) as GetFieldImpl<TStr<Str_9>>>::get_field_spec(&x) == Ok::<&C9, InfallibleAccess>(&x.9),
        <(C0, C1, C2, C3, C4, C5, C6, C7, C8, C9, C10) as GetFieldImpl<TStr<Str_10>>>::get_field_spec(&x) == Ok::<&C10, InfallibleAccess>(&x.10),
        <(C0, C1, C2, C3, C4, C5, C6, C7, C8, C9, C10) as GetFieldMutImpl<TStr<Str_0>>>::field_updated(&x, &new, v0) <==> (new == (v0, x.1, x.2, x.3, x.4, x.5, x.6, x.7, x.8, x.9, x.10)),
        <(C0, C1, C2, C3, C4, C5, C6, C7, C8, C9, C10) as GetFieldMutImpl<TStr<Str_1>>>::field_updated(&x, &new, v1) <==> (new == (x.0, v1, x.2, x.3, x.4, x.5, x.6, x.7, x.8, x.9, x.10)),
        <(C0, C1, C2, C3, C4, C5, C6, C7, C8, C9, C10) as GetFieldMutImpl<TStr<Str_2>>>::field_updated(&x, &new, v2) <==> (new == (x.0, x.1, v2, x.3, x.4, x.5, x.6, x.7, x.8, x.9, x.10)),
        <(C0, C1, C2, C3, C4, C5, C6, C7, C8, C9, C10) as GetFieldMutImpl<TStr<Str_3>>>::field_updated(&x, &new, v3) <==> (new == (x.0, x.1, x.2, v3, x.4, x.5, x.6, x.7, x.8, x.9, x.10)),
        <(C0, C1, C2, C3, C4, C5, C6, C7, C8, C9, C10) as GetFieldMutImpl<TStr<Str_4>>>::field_updated(&x, &new, v4) <==> (new == (x.0, x.1, x.2, x.3, v4, x.5, x.6, x.7, x.8, x.9, x.10)),
        <(C0, C1, C2, C3, C4, C5, C6, C7, C8, C9, C10) as GetFieldMutImpl<TStr<Str_5>>>::field_updated(&x, &new, v5) <==> (new == (x.0, x.1, x.2, x.3, x.4, v5, x.6, x.7, x.8, x.9, x.10)),
        <(C0, C1, C2, C3, C4, C5, C6, C7, C8, C9, C10) as GetFieldMutImpl<TStr<Str_6>>>::field_updated(&x, &new, v6) <==> (new == (x.0, x.1, x.2, x.3, x.4, x.5, v6, x.7, x.8, x.9, x.10)),
        <(C0, C1, C2, C3, C4, C5, C6, C7, C8, C9, C10) as GetFieldMutImpl<TStr<Str_7>>>::field_updated(&x, &new, v7) <==> (new == (x.0, x.1, x.2, x.3, x.4, x.5, x.6, v7, x.8, x.9, x.10)),
        <(C0, C1, C2, C3, C4, C5, C6, C7, C8, C9, C10) as GetFieldMutImpl<TStr<Str_8>>>::field_updated(&x, &new, v8) <==> (new == (x.0, x.1, x.2, x.3, x.4, x.5, x.6, x.7, v8, x.9, x.10)),
        <(C0, C1, C2, C3, C4, C5, C6, C7, C8, C9, C10) as GetFieldMutImpl<TStr<Str_9>>>::field_updated(&x, &new, v9) <==> (new == (x.0, x.1, x.2, x.3, x.4, x.5, x.6, x.7, x.8, v9, x.10)),
        <(C0, C1, C2, C3, C4, C5, C6, C7, C8, C9, C10) as GetFieldMutImpl<TStr<Str_10>>>::field_updated(&x, &new, v10) <==> (new == (x.0, x.1, x.2, x.3, x.4, x.5, x.6, x.7, x.8, x.9, v10)),
{
}

/// The field named `i` of a tuple of 12 elements is its element at index
/// `i`: shared access reads that element, and a write through it sets that
/// element and leaves the others as they were.
pub proof fn lemma_tuple12_accessors<C0, C1, C2, C3, C4, C5, C6, C7, C8, C9, C10, C11>(x: (C0, C1, C2, C3, C4, C5, C6, C7, C8, C9, C10, C11), new: (C0, C1, C2, C3, C4, C5, C6, C7, C8, C9, C10, C11), v0: C0, v1: C1, v2: C2, v3: C3, v4: C4, v5: C5, v6: C6, v7: C7, v8: C8, v9: C9, v10: C10, v11: C11)
    ensures
        <(C0, C1, C2, C3, C4, C5, C6, C7, C8, C9, C10, C11) as GetFieldImpl<TStr<Str_0>>>::get_field_spec(&x) == Ok::<&C0, InfallibleAccess>(&x.0),
        <(C0, C1, C2, C3, C4, C5, C6, C7, C8, C9, C10, C11) as GetFieldImpl<TStr<Str_1>>>::get_field_spec(&x) == Ok::<&C1, InfallibleAccess>(&x.1),
        <(C0, C1, C2, C3, C4, C5, C6, C7, C8, C9, C10, C11) as GetFieldImpl<TStr<Str_2>>>::get_field_spec(&x) == Ok::<&C2, InfallibleAccess>(&x.2),
        <(C0, C1, C2, C3, C4, C5, C6, C7, C8, C9, C10, C11) as GetFieldImpl<TStr<Str_3>>>::get_field_spec(&x) == Ok::<&C3, InfallibleAccess>(&x.3),
        <(C0, C1, C2, C3, C4, C5, C6, C7, C8, C9, C10, C11) as GetFieldImpl<TStr<Str_4>>>::get_field_spec(&x) == Ok::<&C4, InfallibleAccess>(&x.4),
        <(C0, C1, C2, C3, C4, C5, C6, C7, C8, C9, C10, C11) as GetFieldImpl<TStr<Str_5>>>::get_field_spec(&x) == Ok::<&C5, InfallibleAccess>(&x.5),
        <(C0, C1, C2, C3, C4, C5, C6, C7, C8, C9, C10, C11) as GetFieldImpl<TStr<Str_6>>>::get_field_spec(&x) == Ok::<&C6, InfallibleAccess>(&x.6),
        <(C0, C1, C2, C3, C4, C5, C6, C7, C8, C9, C10, C11) as GetFieldImpl<TStr<Str_7>>>::get_field_spec(&x) == Ok::<&C7, InfallibleAccess>(&x.7),
        <(C0, C1, C2, C3, C4, C5, C6, C7, C8, C9, C10, C11) as GetFieldImpl<TStr<Str_8>>>::get_field_spec(&x) == Ok::<&C8, InfallibleAccess>(&x.8),
        <(C0, C1, C2, C3, C4, C5, C6, C7, C8, C9, C10, C11) as GetFieldImpl<TStr<Str_9>>>::get_field_spec(&x) == Ok::<&C9, InfallibleAccess>(&x.9),
        <(C0, C1, C2, C3, C4, C5, C6, C7, C8, C9, C10, C11) as GetFieldImpl<TStr<Str_10>>>::get_field_spec(&x) == Ok::<&C10, InfallibleAccess>(&x.10),
        <(C0, C1, C2, C3, C4, C5, C6, C7, C8, C9, C10, C11) as GetFieldImpl<TStr<Str_11>>>::get_field_spec(&x) == Ok::<&C11, InfallibleAccess>(&x.11),
        <(C0, C1, C2, C3, C4, C5, C6, C7, C8, C9, C10, C11) as GetFieldMutImpl<TStr<Str_0>>>::field_updated(&x, &new, v0) <==> (new == (v0, x.1, x.2, x.3, x.4, x.5, x.6, x.7, x.8, x.9, x.10, x.11)),
        <(C0, C1, C2, C3, C4, C5, C6, C7, C8, C9, C10, C11) as GetFieldMutImpl<TStr<Str_1>>>::field_updated(&x, &new, v1) <==> (new == (x.0, v1, x.2, x.3, x.4, x.5, x.6, x.7, x.8, x.9, x.10, x.11)),
        <(C0, C1, C2, C3, C4, C5, C6, C7, C8, C9, C10, C11) as GetFieldMutImpl<TStr<Str_2>>>::field_updated(&x, &new, v2) <==> (new == (x.0, x.1, v2, x.3, x.4, x.5, x.6, x.7, x.8, x.9, x.10, x.11)),
        <(C0, C1, C2, C3, C4, C5, C6, C7, C8, C9, C10, C11) as GetFieldMutImpl<TStr<Str_3>>>::field_updated(&x, &new, v3) <==> (new == (x.0, x.1, x.2, v3, x.4, x.5, x.6, x.7, x.8, x.9, x.10, x.11)),
        <(C0, C1, C2, C3, C4, C5, C6, C7, C8, C9, C10, C11) as GetFieldMutImpl<TStr<Str_4>>>::field_updated(&x, &new, v4) <==> (new == (x.0, x.1, x.2, x.3, v4, x.5, x.6, x.7, x.8, x.9, x.10, x.11)),
        <(C0, C1, C2, C3, C4, C5, C6, C7, C8, C9, C10, C11) as GetFieldMutImpl<TStr<Str_5>>>::field_updated(&x, &new, v5) <==> (new == (x.0, x.1, x.2, x.3, x.4, v5, x.6, x.7, x.8, x.9, x.10, x.11)),
        <(C0, C1, C2, C3, C4, C5, C6, C7, C8, C9, C10, C11) as GetFieldMutImpl<TStr<Str_6>>>::field_updated(&x, &new, v6) <==> (new == (x.0, x.1, x.2, x.3, x.4, x.5, v6, x.7, x.8, x.9, x.10, x.11)),
        <(C0, C1, C2, C3, C4, C5, C6, C7, C8, C9, C10, C11) as GetFieldMutImpl<TStr<Str_7>>>::field_updated(&x, &new, v7) <==> (new == (x.0, x.1, x.2, x.3, x.4, x.5, x.6, v7, x.8, x.9, x.10, x.11)),
        <(C0, C1, C2, C3, C4, C5, C6, C7, C8, C9, C10, C11) as GetFieldMutImpl<TStr<Str_8>>>::field_updated(&x, &new, v8) <==> (new == (x.0, x.1, x.2, x.3, x.4, x.5, x.6, x.7, v8, x.9, x.10, x.11)),
        <(C0, C1, C2, C3, C4, C5, C6, C7, C8, C9, C10, C11) as GetFieldMutImpl<TStr<Str_9>>>::field_updated(&x, &new, v9) <==> (new == (x.0, x.1, x.2, x.3, x.4, x.5, x.6, x.7, x.8, v9, x.10, x.11)),
        <(C0, C1, C2, C3, C4, C5, C6, C7, C8, C9, C10, C11) as GetFieldMutImpl<TStr<Str_10>>>::field_updated(&x, &new, v10) <==> (new == (x.0, x.1, x.2, x.3, x.4, x.5, x.6, x.7, x.8, x.9, v10, x.11)),
        <(C0, C1, C2, C3, C4, C5, C6, C7, C8, C9, C10, C11) as GetFieldMutImpl<TStr<Str_11>>>::field_updated(&x, &new, v11) <==> (new == (x.0, x.1, x.2, x.3, x.4, x.5, x.6, x.7, x.8, x.9, x.10, v11)),
{
}

/// The field of a slice named by the numeral `i` is its element at index `i`
/// when the slice is longer than `i`, and absent otherwise; a write through
/// it sets that element and leaves the others as they were.
pub proof fn lemma_slice_elements<T, P: ToUsize>(s: &[T], new: &[T], v: T)
    ensures
        P::usize_spec() < s@.len() ==> <[T] as GetFieldImpl<P>>::get_field_spec(s) == Ok::<&T, FailedAccess>(
            &s@[P::usize_spec() as int],
        ),
        P::usize_spec() >= s@.len() ==> <[T] as GetFieldImpl<P>>::get_field_spec(s) == Err::<&T, FailedAccess>(
            FailedAccess,
        ),
        <[T] as GetFieldMutImpl<P>>::field_updated(s, new, v) <==> (P::usize_spec() < s@.len() && new@
            == s@.update(P::usize_spec() as int, v)),
        <[T] as GetFieldMutImpl<P>>::unchanged(s, new) <==> new@ == s@,
{
}

/// The field of an array named by the numeral `i` is its element at index
/// `i`, which the array has; a write through it sets that element and leaves
/// the others as they were.
pub proof fn lemma_array_elements<T, P: IsPathForArray<N>, const N: usize>(a: [T; N], new: [T; N], v: T)
    ensures
        P::usize_spec() < N,
        <[T; N] as GetFieldImpl<P>>::get_field_spec(&a) == Ok::<&T, InfallibleAccess>(
            &a@[P::usize_spec() as int],
        ),
        <[T; N] as GetFieldMutImpl<P>>::field_updated(&a, &new, v) <==> new@ == a@.update(
            P::usize_spec() as int,
            v,
        ),
{
    P::lemma_in_bounds();
}

/// The fields `start` and `end` of a range are its bounds.
pub proof fn lemma_range_bounds<T>(r: Range<T>, new: Range<T>, v: T)
    ensures
        <Range<T> as GetFieldImpl<TStr<Str_start>>>::get_field_spec(&r) == Ok::<&T, InfallibleAccess>(&r.start),
        <Range<T> as GetFieldImpl<TStr<Str_end>>>::get_field_spec(&r) == Ok::<&T, InfallibleAccess>(&r.end),
        <Range<T> as GetFieldMutImpl<TStr<Str_start>>>::field_updated(&r, &new, v) <==> (new.start == v
            && new.end == r.end),
        <Range<T> as GetFieldMutImpl<TStr<Str_end>>>::field_updated(&r, &new, v) <==> (new.end == v
            && new.start == r.start),
{
}

/// An `Option` is `Some` or `None` exactly when it is that variant, and the
/// field `0` of `Some` is the value it holds.
pub proof fn lemma_option_variants<T>(x: Option<T>, new: Option<T>, v: T)
    ensures
        <Option<T> as IsVariant<TStr<Str_Some>>>::is_variant_spec(&x) == (x is Some),
        <Option<T> as IsVariant<TStr<Str_None>>>::is_variant_spec(&x) == (x is None),
        <Option<T> as GetVariantField<TStr<Str_Some>, TStr<Str_0>>>::get_vfield_spec(&x) == (match x {
            Some(y) => Some(&y),
            None => None,
        }),
        <Option<T> as GetVariantFieldMut<TStr<Str_Some>, TStr<Str_0>>>::vfield_updated(&x, &new, v) <==> (x is Some
            && new == Some(v)),
{
}

/// A `Result` is `Ok` or `Err` exactly when it is that variant, and the field
/// `0` of each variant is the value it holds.
pub proof fn lemma_result_variants<T, E>(x: Result<T, E>, new: Result<T, E>, v: T, e: E)
    ensures
        <Result<T, E> as IsVariant<TStr<Str_Ok>>>::is_variant_spec(&x) == (x is Ok),
        <Result<T, E> as IsVariant<TStr<Str_Err>>>::is_variant_spec(&x) == (x is Err),
        <Result<T, E> as GetVariantField<TStr<Str_Ok>, TStr<Str_0>>>::get_vfield_spec(&x) == (match x {
            Ok(y) => Some(&y),
            Err(_) => None,
        }),
        <Result<T, E> as GetVariantField<TStr<Str_Err>, TStr<Str_0>>>::get_vfield_spec(&x) == (match x {
            Ok(_) => None,
            Err(y) => Some(&y),
        }),
        <Result<T, E> as GetVariantFieldMut<TStr<Str_Ok>, TStr<Str_0>>>::vfield_updated(&x, &new, v) <==> (x is Ok
            && new == Ok::<T, E>(v)),
        <Result<T, E> as GetVariantFieldMut<TStr<Str_Err>, TStr<Str_0>>>::vfield_updated(&x, &new, e) <==> (x is Err
            && new == Err::<T, E>(e)),
{
}

/// References, boxes, `Rc`, `Arc` and `ManuallyDrop` give the fields of what
/// they hold: shared access reads the field of the pointee, and a write
/// through a `&mut`, a box or a `ManuallyDrop` writes the pointee's field.
pub proof fn lemma_wrappers_delegate<T: GetFieldMutImpl<P>, P>(
    x: T,
    new: T,
    v: T::Ty,
    b: Box<T>,
    nb: Box<T>,
    m: ManuallyDrop<T>,
    nm: ManuallyDrop<T>,
    rc: Rc<T>,
    arc: Arc<T>,
)
    ensures
        <&T as GetFieldImpl<P>>::get_field_spec(&&x) == x.get_field_spec(),
        <Box<T> as GetFieldImpl<P>>::get_field_spec(&b) == (*b).get_field_spec(),
        <Rc<T> as GetFieldImpl<P>>::get_field_spec(&rc) == (*rc).get_field_spec(),
        <Arc<T> as GetFieldImpl<P>>::get_field_spec(&arc) == (*arc).get_field_spec(),
        <ManuallyDrop<T> as GetFieldImpl<P>>::get_field_spec(&m) == m@.get_field_spec(),
        <Box<T> as GetFieldMutImpl<P>>::field_updated(&b, &nb, v) <==> T::field_updated(&*b, &*nb, v),
        <ManuallyDrop<T> as GetFieldMutImpl<P>>::field_updated(&m, &nm, v) <==> T::field_updated(
            &m@,
            &nm@,
            v,
        ),
{
}

} // verus!
