//! Field accessors for arrays: the field named `i` (a decimal numeral) of an
//! array is its element at index `i`, for the arrays of up to 32 elements
//! whose length is above `i`.
//!
//! [`ArrayPath`] marks the paths that name array elements, and
//! [`IsPathForArray<N>`](IsPathForArray) those whose index is below `N`, so
//! that only the elements an array has can be named.
use crate::field::errors::InfallibleAccess;
use crate::field::most_impls::slice_get_mut;
use crate::field::split_fields::{FieldSlots, SplitFieldsInto, SplitFieldsMut, TakeFieldInto, TakeFieldMut};
use crate::field::{FieldType, GetFieldImpl, GetFieldMutImpl, IntoFieldImpl};
use crate::field_path::names::{
    Str_0, Str_1, Str_2, Str_3, Str_4, Str_5, Str_6, Str_7, Str_8, Str_9, Str_10, Str_11, Str_12, Str_13, Str_14, Str_15, Str_16, Str_17, Str_18, Str_19, Str_20, Str_21, Str_22, Str_23, Str_24, Str_25, Str_26, Str_27, Str_28, Str_29, Str_30, Str_31,
};
use crate::field_path::{
    decimal_name, decimal_value, lemma_decimal_name_value, IsSingleFieldPath, PathComponent, TStr,
    TStrName, ToUsize,
};
use vstd::prelude::*;

verus! {

/// Marks the paths that can name array elements.
pub trait Sealed {}

/// A path that names an element of (some) arrays.
///
/// `index_value()` is the index of the element; the path names the field
/// whose name is the decimal numeral of that index.
pub trait ArrayPath: ToUsize + IsSingleFieldPath + Sealed {
    spec fn index_value() -> nat;

    /// The path's name denotes its index.
    proof fn lemma_index()
        ensures
            Self::usize_spec() == Self::index_value(),
    ;

    /// The path is the field named by the numeral of its index.
    proof fn lemma_path(path: Self)
        ensures
            path.path_view() == seq![PathComponent::Field(decimal_name(Self::index_value()))],
    ;
}

/// A path that names an element of the arrays of length `N`: its index is
/// below `N`.
pub trait IsPathForArray<const N: usize>: ArrayPath {
    proof fn lemma_in_bounds()
        ensures
            Self::usize_spec() < N,
    ;
}

/// `<Vec<T> as From<[T; N]>>::from`: a vector that holds the array's
/// elements, in order.
#[verifier::external_body]
fn array_into_vec<T, const N: usize>(array: [T; N]) -> (r: Vec<T>)
    ensures
        r@ == array@,
{
    Vec::from(array)
}

impl<T, P: IsPathForArray<N>, const N: usize> FieldType<P> for [T; N] {
    type Ty = T;
}

impl<T, P: IsPathForArray<N>, const N: usize> GetFieldImpl<P> for [T; N] {
    type Error = InfallibleAccess;

    open spec fn get_field_spec(&self) -> Result<&T, InfallibleAccess> {
        Ok(&self@[P::usize_spec() as int])
    }

    fn get_field_(&self, path: P) -> (r: Result<&T, InfallibleAccess>) {
        proof {
            P::lemma_in_bounds();
        }
        let index = P::to_usize();
        Ok(&self[index])
    }
}

impl<T, P: IsPathForArray<N>, const N: usize> GetFieldMutImpl<P> for [T; N] {
    open spec fn field_updated(old: &Self, new: &Self, v: T) -> bool {
        new@ == old@.update(P::usize_spec() as int, v)
    }

    open spec fn unchanged(old: &Self, new: &Self) -> bool {
        new@ == old@
    }

    proof fn lemma_read_after_write(old: &Self, new: &Self, v: T) {
        P::lemma_in_bounds();
    }

    proof fn lemma_unchanged_reads_same(old: &Self, new: &Self) {
    }

    fn get_field_mut_(&mut self, path: P) -> (r: Result<&mut T, InfallibleAccess>) {
        proof {
            P::lemma_in_bounds();
        }
        let index = P::to_usize();
        let slice: &mut [T] = self;
        match slice_get_mut(slice, index) {
            Some(x) => Ok(x),
            None => vstd::pervasive::unreached(),
        }
    }
}

impl<T, P: IsPathForArray<N>, const N: usize> IntoFieldImpl<P> for [T; N] {
    fn into_field_(self, path: P) -> (r: Result<T, InfallibleAccess>) {
        proof {
            P::lemma_in_bounds();
        }
        let index = P::to_usize();
        let mut elements = array_into_vec(self);
        Ok(elements.swap_remove(index))
    }
}

/// The slots of the elements of an array, one per element, in order: the
/// slot of the field named `name` is the one at the index that `name`
/// denotes, when `name` is the numeral of that index.
impl<'a, T, const N: usize> FieldSlots<[T; N]> for Vec<Option<&'a mut T>> {
    open spec fn present(&self, name: Seq<char>) -> bool {
        &&& name == decimal_name(decimal_value(name))
        &&& decimal_value(name) < self@.len()
        &&& self@[decimal_value(name) as int] is Some
    }

    open spec fn all_present(&self) -> bool {
        &&& self@.len() == N
        &&& forall|i: int| 0 <= i < N ==> (#[trigger] self@[i]) is Some
    }

    open spec fn reads(&self, w: &[T; N]) -> bool {
        &&& self@.len() == N
        &&& forall|i: int| 0 <= i < N && (#[trigger] self@[i]) is Some ==> *self@[i]->Some_0 == w@[i]
    }
}

impl<'a, T: 'a, const N: usize> SplitFieldsMut<'a> for [T; N] {
    type SlotsMut = Vec<Option<&'a mut T>>;

    /// Each slot lends its element: writing through the slots' references is
    /// what writing to the array's elements does.
    fn split_fields_mut(&'a mut self) -> (r: Self::SlotsMut)
        ensures
            forall|i: int| 0 <= i < N ==> final(self)@[i] == *final(#[trigger] r@[i]->Some_0),
    {
        let ghost whole = self@;
        let ghost fin = final(self)@;
        let mut rest: &'a mut [T] = self;
        let mut slots: Vec<Option<&'a mut T>> = Vec::new();
        while rest.len() > 0
            invariant
                whole.len() == N,
                fin.len() == N,
                slots@.len() + rest@.len() == N,
                rest@ == whole.subrange(slots@.len() as int, N as int),
                forall|i: int|
                    0 <= i < slots@.len() ==> (#[trigger] slots@[i]) is Some && *slots@[i]->Some_0
                        == whole[i],
                forall|i: int| 0 <= i < slots@.len() ==> fin[i] == *final(#[trigger] slots@[i]->Some_0),
                final(rest)@ == fin.subrange(slots@.len() as int, N as int),
            decreases rest@.len(),
        {
            let current = rest;
            let ghost fin_current = final(current)@;
            let (head, tail) = <[T]>::split_at_mut(current, 1);
            let ghost fin_head = final(head)@;
            let first = <[T]>::first_mut(head);
            proof {
                assert(fin_head.len() == 1);
                assert(final(tail)@ =~= fin_current.subrange(1, fin_current.len() as int));
                assert(fin_current[0] == fin_head[0]);
            }
            slots.push(first);
            rest = tail;
        }
        slots
    }
}

impl<'a, T: 'a, P: IsPathForArray<N>, const N: usize> TakeFieldMut<'a, [T; N], P> for Vec<Option<&'a mut T>> {
    open spec fn slot_name() -> Seq<char> {
        decimal_name(P::index_value())
    }

    proof fn lemma_slot_path(path: P) {
        P::lemma_path(path);
    }

    proof fn lemma_all_present(&self) {
        P::lemma_in_bounds();
        P::lemma_index();
        lemma_decimal_name_value(P::index_value());
    }

    fn take_field_mut(&mut self, path: P) -> (r: Option<&'a mut T>) {
        proof {
            P::lemma_in_bounds();
            P::lemma_index();
            lemma_decimal_name_value(P::index_value());
        }
        let index = P::to_usize();
        if index < self.len() {
            let slot = &mut self[index];
            slot.take()
        } else {
            None
        }
    }
}

/// The elements of an array, moved out one slot per element, in order.
impl<T, const N: usize> FieldSlots<[T; N]> for Vec<Option<T>> {
    open spec fn present(&self, name: Seq<char>) -> bool {
        &&& name == decimal_name(decimal_value(name))
        &&& decimal_value(name) < self@.len()
        &&& self@[decimal_value(name) as int] is Some
    }

    open spec fn all_present(&self) -> bool {
        &&& self@.len() == N
        &&& forall|i: int| 0 <= i < N ==> (#[trigger] self@[i]) is Some
    }

    open spec fn reads(&self, w: &[T; N]) -> bool {
        &&& self@.len() == N
        &&& forall|i: int| 0 <= i < N && (#[trigger] self@[i]) is Some ==> self@[i]->Some_0 == w@[i]
    }
}

impl<T, const N: usize> SplitFieldsInto for [T; N] {
    type SlotsInto = Vec<Option<T>>;

    fn split_fields_into(self) -> (r: Self::SlotsInto) {
        let ghost whole = self@;
        let mut rest = array_into_vec(self);
        let mut slots: Vec<Option<T>> = Vec::new();
        while rest.len() > 0
            invariant
                whole.len() == N,
                slots@.len() + rest@.len() == N,
                rest@ == whole.subrange(slots@.len() as int, N as int),
                forall|i: int|
                    0 <= i < slots@.len() ==> (#[trigger] slots@[i]) is Some && slots@[i]->Some_0
                        == whole[i],
            decreases rest@.len(),
        {
            let x = rest.remove(0);
            slots.push(Some(x));
        }
        slots
    }
}

impl<T, P: IsPathForArray<N>, const N: usize> TakeFieldInto<[T; N], P> for Vec<Option<T>> {
    open spec fn slot_name() -> Seq<char> {
        decimal_name(P::index_value())
    }

    proof fn lemma_slot_path(path: P) {
        P::lemma_path(path);
    }

    proof fn lemma_all_present(&self) {
        P::lemma_in_bounds();
        P::lemma_index();
        lemma_decimal_name_value(P::index_value());
    }

    fn take_field_into(&mut self, path: P) -> (r: Option<T>) {
        proof {
            P::lemma_in_bounds();
            P::lemma_index();
            lemma_decimal_name_value(P::index_value());
        }
        let index = P::to_usize();
        if index < self.len() {
            let slot = &mut self[index];
            slot.take()
        } else {
            None
        }
    }
}

impl Sealed for TStr<Str_0> {}

impl ArrayPath for TStr<Str_0> {
    open spec fn index_value() -> nat {
        0
    }

    proof fn lemma_index() {
        reveal_strlit("0");
        assert(Str_0::name_spec() =~= decimal_name(0));
        lemma_decimal_name_value(0);
    }

    proof fn lemma_path(path: Self) {
        reveal_strlit("0");
        assert(Str_0::name_spec() =~= decimal_name(0));
    }
}

impl Sealed for TStr<Str_1> {}

impl ArrayPath for TStr<Str_1> {
    open spec fn index_value() -> nat {
        1
    }

    proof fn lemma_index() {
        reveal_strlit("1");
        assert(Str_1::name_spec() =~= decimal_name(1));
        lemma_decimal_name_value(1);
    }

    proof fn lemma_path(path: Self) {
        reveal_strlit("1");
        assert(Str_1::name_spec() =~= decimal_name(1));
    }
}

impl Sealed for TStr<Str_2> {}

impl ArrayPath for TStr<Str_2> {
    open spec fn index_value() -> nat {
        2
    }

    proof fn lemma_index() {
        reveal_strlit("2");
        assert(Str_2::name_spec() =~= decimal_name(2));
        lemma_decimal_name_value(2);
    }

    proof fn lemma_path(path: Self) {
        reveal_strlit("2");
        assert(Str_2::name_spec() =~= decimal_name(2));
    }
}

impl Sealed for TStr<Str_3> {}

impl ArrayPath for TStr<Str_3> {
    open spec fn index_value() -> nat {
        3
    }

    proof fn lemma_index() {
        reveal_strlit("3");
        assert(Str_3::name_spec() =~= decimal_name(3));
        lemma_decimal_name_value(3);
    }

    proof fn lemma_path(path: Self) {
        reveal_strlit("3");
        assert(Str_3::name_spec() =~= decimal_name(3));
    }
}

impl Sealed for TStr<Str_4> {}

impl ArrayPath for TStr<Str_4> {
    open spec fn index_value() -> nat {
        4
    }

    proof fn lemma_index() {
        reveal_strlit("4");
        assert(Str_4::name_spec() =~= decimal_name(4));
        lemma_decimal_name_value(4);
    }

    proof fn lemma_path(path: Self) {
        reveal_strlit("4");
        assert(Str_4::name_spec() =~= decimal_name(4));
    }
}

impl Sealed for TStr<Str_5> {}

impl ArrayPath for TStr<Str_5> {
    open spec fn index_value() -> nat {
        5
    }

    proof fn lemma_index() {
        reveal_strlit("5");
        assert(Str_5::name_spec() =~= decimal_name(5));
        lemma_decimal_name_value(5);
    }

    proof fn lemma_path(path: Self) {
        reveal_strlit("5");
        assert(Str_5::name_spec() =~= decimal_name(5));
    }
}

impl Sealed for TStr<Str_6> {}

impl ArrayPath for TStr<Str_6> {
    open spec fn index_value() -> nat {
        6
    }

    proof fn lemma_index() {
        reveal_strlit("6");
        assert(Str_6::name_spec() =~= decimal_name(6));
        lemma_decimal_name_value(6);
    }

    proof fn lemma_path(path: Self) {
        reveal_strlit("6");
        assert(Str_6::name_spec() =~= decimal_name(6));
    }
}

impl Sealed for TStr<Str_7> {}

impl ArrayPath for TStr<Str_7> {
    open spec fn index_value() -> nat {
        7
    }

    proof fn lemma_index() {
        reveal_strlit("7");
        assert(Str_7::name_spec() =~= decimal_name(7));
        lemma_decimal_name_value(7);
    }

    proof fn lemma_path(path: Self) {
        reveal_strlit("7");
        assert(Str_7::name_spec() =~= decimal_name(7));
    }
}

impl Sealed for TStr<Str_8> {}

impl ArrayPath for TStr<Str_8> {
    open spec fn index_value() -> nat {
        8
    }

    proof fn lemma_index() {
        reveal_strlit("8");
        assert(Str_8::name_spec() =~= decimal_name(8));
        lemma_decimal_name_value(8);
    }

    proof fn lemma_path(path: Self) {
        reveal_strlit("8");
        assert(Str_8::name_spec() =~= decimal_name(8));
    }
}

impl Sealed for TStr<Str_9> {}

impl ArrayPath for TStr<Str_9> {
    open spec fn index_value() -> nat {
        9
    }

    proof fn lemma_index() {
        reveal_strlit("9");
        assert(Str_9::name_spec() =~= decimal_name(9));
        lemma_decimal_name_value(9);
    }

    proof fn lemma_path(path: Self) {
        reveal_strlit("9");
        assert(Str_9::name_spec() =~= decimal_name(9));
    }
}

impl Sealed for TStr<Str_10> {}

impl ArrayPath for TStr<Str_10> {
    open spec fn index_value() -> nat {
        10
    }

    proof fn lemma_index() {
        reveal_strlit("10");
        reveal_with_fuel(decimal_name, 2);
        assert(Str_10::name_spec() =~= decimal_name(10));
        lemma_decimal_name_value(10);
    }

    proof fn lemma_path(path: Self) {
        reveal_strlit("10");
        reveal_with_fuel(decimal_name, 2);
        assert(Str_10::name_spec() =~= decimal_name(10));
    }
}

impl Sealed for TStr<Str_11> {}

impl ArrayPath for TStr<Str_11> {
    open spec fn index_value() -> nat {
        11
    }

    proof fn lemma_index() {
        reveal_strlit("11");
        reveal_with_fuel(decimal_name, 2);
        assert(Str_11::name_spec() =~= decimal_name(11));
        lemma_decimal_name_value(11);
    }

    proof fn lemma_path(path: Self) {
        reveal_strlit("11");
        reveal_with_fuel(decimal_name, 2);
        assert(Str_11::name_spec() =~= decimal_name(11));
    }
}

impl Sealed for TStr<Str_12> {}

impl ArrayPath for TStr<Str_12> {
    open spec fn index_value() -> nat {
        12
    }

    proof fn lemma_index() {
        reveal_strlit("12");
        reveal_with_fuel(decimal_name, 2);
        assert(Str_12::name_spec() =~= decimal_name(12));
        lemma_decimal_name_value(12);
    }

    proof fn lemma_path(path: Self) {
        reveal_strlit("12");
        reveal_with_fuel(decimal_name, 2);
        assert(Str_12::name_spec() =~= decimal_name(12));
    }
}

impl Sealed for TStr<Str_13> {}

impl ArrayPath for TStr<Str_13> {
    open spec fn index_value() -> nat {
        13
    }

    proof fn lemma_index() {
        reveal_strlit("13");
        reveal_with_fuel(decimal_name, 2);
        assert(Str_13::name_spec() =~= decimal_name(13));
        lemma_decimal_name_value(13);
    }

    proof fn lemma_path(path: Self) {
        reveal_strlit("13");
        reveal_with_fuel(decimal_name, 2);
        assert(Str_13::name_spec() =~= decimal_name(13));
    }
}

impl Sealed for TStr<Str_14> {}

impl ArrayPath for TStr<Str_14> {
    open spec fn index_value() -> nat {
        14
    }

    proof fn lemma_index() {
        reveal_strlit("14");
        reveal_with_fuel(decimal_name, 2);
        assert(Str_14::name_spec() =~= decimal_name(14));
        lemma_decimal_name_value(14);
    }

    proof fn lemma_path(path: Self) {
        reveal_strlit("14");
        reveal_with_fuel(decimal_name, 2);
        assert(Str_14::name_spec() =~= decimal_name(14));
    }
}

impl Sealed for TStr<Str_15> {}

impl ArrayPath for TStr<Str_15> {
    open spec fn index_value() -> nat {
        15
    }

    proof fn lemma_index() {
        reveal_strlit("15");
        reveal_with_fuel(decimal_name, 2);
        assert(Str_15::name_spec() =~= decimal_name(15));
        lemma_decimal_name_value(15);
    }

    proof fn lemma_path(path: Self) {
        reveal_strlit("15");
        reveal_with_fuel(decimal_name, 2);
        assert(Str_15::name_spec() =~= decimal_name(15));
    }
}

impl Sealed for TStr<Str_16> {}

impl ArrayPath for TStr<Str_16> {
    open spec fn index_value() -> nat {
        16
    }

    proof fn lemma_index() {
        reveal_strlit("16");
        reveal_with_fuel(decimal_name, 2);
        assert(Str_16::name_spec() =~= decimal_name(16));
        lemma_decimal_name_value(16);
    }

    proof fn lemma_path(path: Self) {
        reveal_strlit("16");
        reveal_with_fuel(decimal_name, 2);
        assert(Str_16::name_spec() =~= decimal_name(16));
    }
}

impl Sealed for TStr<Str_17> {}

impl ArrayPath for TStr<Str_17> {
    open spec fn index_value() -> nat {
        17
    }

    proof fn lemma_index() {
        reveal_strlit("17");
        reveal_with_fuel(decimal_name, 2);
        assert(Str_17::name_spec() =~= decimal_name(17));
        lemma_decimal_name_value(17);
    }

    proof fn lemma_path(path: Self) {
        reveal_strlit("17");
        reveal_with_fuel(decimal_name, 2);
        assert(Str_17::name_spec() =~= decimal_name(17));
    }
}

impl Sealed for TStr<Str_18> {}

impl ArrayPath for TStr<Str_18> {
    open spec fn index_value() -> nat {
        18
    }

    proof fn lemma_index() {
        reveal_strlit("18");
        reveal_with_fuel(decimal_name, 2);
        assert(Str_18::name_spec() =~= decimal_name(18));
        lemma_decimal_name_value(18);
    }

    proof fn lemma_path(path: Self) {
        reveal_strlit("18");
        reveal_with_fuel(decimal_name, 2);
        assert(Str_18::name_spec() =~= decimal_name(18));
    }
}

impl Sealed for TStr<Str_19> {}

impl ArrayPath for TStr<Str_19> {
    open spec fn index_value() -> nat {
        19
    }

    proof fn lemma_index() {
        reveal_strlit("19");
        reveal_with_fuel(decimal_name, 2);
        assert(Str_19::name_spec() =~= decimal_name(19));
        lemma_decimal_name_value(19);
    }

    proof fn lemma_path(path: Self) {
        reveal_strlit("19");
        reveal_with_fuel(decimal_name, 2);
        assert(Str_19::name_spec() =~= decimal_name(19));
    }
}

impl Sealed for TStr<Str_20> {}

impl ArrayPath for TStr<Str_20> {
    open spec fn index_value() -> nat {
        20
    }

    proof fn lemma_index() {
        reveal_strlit("20");
        reveal_with_fuel(decimal_name, 2);
        assert(Str_20::name_spec() =~= decimal_name(20));
        lemma_decimal_name_value(20);
    }

    proof fn lemma_path(path: Self) {
        reveal_strlit("20");
        reveal_with_fuel(decimal_name, 2);
        assert(Str_20::name_spec() =~= decimal_name(20));
    }
}

impl Sealed for TStr<Str_21> {}

impl ArrayPath for TStr<Str_21> {
    open spec fn index_value() -> nat {
        21
    }

    proof fn lemma_index() {
        reveal_strlit("21");
        reveal_with_fuel(decimal_name, 2);
        assert(Str_21::name_spec() =~= decimal_name(21));
        lemma_decimal_name_value(21);
    }

    proof fn lemma_path(path: Self) {
        reveal_strlit("21");
        reveal_with_fuel(decimal_name, 2);
        assert(Str_21::name_spec() =~= decimal_name(21));
    }
}

impl Sealed for TStr<Str_22> {}

impl ArrayPath for TStr<Str_22> {
    open spec fn index_value() -> nat {
        22
    }

    proof fn lemma_index() {
        reveal_strlit("22");
        reveal_with_fuel(decimal_name, 2);
        assert(Str_22::name_spec() =~= decimal_name(22));
        lemma_decimal_name_value(22);
    }

    proof fn lemma_path(path: Self) {
        reveal_strlit("22");
        reveal_with_fuel(decimal_name, 2);
        assert(Str_22::name_spec() =~= decimal_name(22));
    }
}

impl Sealed for TStr<Str_23> {}

impl ArrayPath for TStr<Str_23> {
    open spec fn index_value() -> nat {
        23
    }

    proof fn lemma_index() {
        reveal_strlit("23");
        reveal_with_fuel(decimal_name, 2);
        assert(Str_23::name_spec() =~= decimal_name(23));
        lemma_decimal_name_value(23);
    }

    proof fn lemma_path(path: Self) {
        reveal_strlit("23");
        reveal_with_fuel(decimal_name, 2);
        assert(Str_23::name_spec() =~= decimal_name(23));
    }
}

impl Sealed for TStr<Str_24> {}

impl ArrayPath for TStr<Str_24> {
    open spec fn index_value() -> nat {
        24
    }

    proof fn lemma_index() {
        reveal_strlit("24");
        reveal_with_fuel(decimal_name, 2);
        assert(Str_24::name_spec() =~= decimal_name(24));
        lemma_decimal_name_value(24);
    }

    proof fn lemma_path(path: Self) {
        reveal_strlit("24");
        reveal_with_fuel(decimal_name, 2);
        assert(Str_24::name_spec() =~= decimal_name(24));
    }
}

impl Sealed for TStr<Str_25> {}

impl ArrayPath for TStr<Str_25> {
    open spec fn index_value() -> nat {
        25
    }

    proof fn lemma_index() {
        reveal_strlit("25");
        reveal_with_fuel(decimal_name, 2);
        assert(Str_25::name_spec() =~= decimal_name(25));
        lemma_decimal_name_value(25);
    }

    proof fn lemma_path(path: Self) {
        reveal_strlit("25");
        reveal_with_fuel(decimal_name, 2);
        assert(Str_25::name_spec() =~= decimal_name(25));
    }
}

impl Sealed for TStr<Str_26> {}

impl ArrayPath for TStr<Str_26> {
    open spec fn index_value() -> nat {
        26
    }

    proof fn lemma_index() {
        reveal_strlit("26");
        reveal_with_fuel(decimal_name, 2);
        assert(Str_26::name_spec() =~= decimal_name(26));
        lemma_decimal_name_value(26);
    }

    proof fn lemma_path(path: Self) {
        reveal_strlit("26");
        reveal_with_fuel(decimal_name, 2);
        assert(Str_26::name_spec() =~= decimal_name(26));
    }
}

impl Sealed for TStr<Str_27> {}

impl ArrayPath for TStr<Str_27> {
    open spec fn index_value() -> nat {
        27
    }

    proof fn lemma_index() {
        reveal_strlit("27");
        reveal_with_fuel(decimal_name, 2);
        assert(Str_27::name_spec() =~= decimal_name(27));
        lemma_decimal_name_value(27);
    }

    proof fn lemma_path(path: Self) {
        reveal_strlit("27");
        reveal_with_fuel(decimal_name, 2);
        assert(Str_27::name_spec() =~= decimal_name(27));
    }
}

impl Sealed for TStr<Str_28> {}

impl ArrayPath for TStr<Str_28> {
    open spec fn index_value() -> nat {
        28
    }

    proof fn lemma_index() {
        reveal_strlit("28");
        reveal_with_fuel(decimal_name, 2);
        assert(Str_28::name_spec() =~= decimal_name(28));
        lemma_decimal_name_value(28);
    }

    proof fn lemma_path(path: Self) {
        reveal_strlit("28");
        reveal_with_fuel(decimal_name, 2);
        assert(Str_28::name_spec() =~= decimal_name(28));
    }
}

impl Sealed for TStr<Str_29> {}

impl ArrayPath for TStr<Str_29> {
    open spec fn index_value() -> nat {
        29
    }

    proof fn lemma_index() {
        reveal_strlit("29");
        reveal_with_fuel(decimal_name, 2);
        assert(Str_29::name_spec() =~= decimal_name(29));
        lemma_decimal_name_value(29);
    }

    proof fn lemma_path(path: Self) {
        reveal_strlit("29");
        reveal_with_fuel(decimal_name, 2);
        assert(Str_29::name_spec() =~= decimal_name(29));
    }
}

impl Sealed for TStr<Str_30> {}

impl ArrayPath for TStr<Str_30> {
    open spec fn index_value() -> nat {
        30
    }

    proof fn lemma_index() {
        reveal_strlit("30");
        reveal_with_fuel(decimal_name, 2);
        assert(Str_30::name_spec() =~= decimal_name(30));
        lemma_decimal_name_value(30);
    }

    proof fn lemma_path(path: Self) {
        reveal_strlit("30");
        reveal_with_fuel(decimal_name, 2);
        assert(Str_30::name_spec() =~= decimal_name(30));
    }
}

impl Sealed for TStr<Str_31> {}

impl ArrayPath for TStr<Str_31> {
    open spec fn index_value() -> nat {
        31
    }

    proof fn lemma_index() {
        reveal_strlit("31");
        reveal_with_fuel(decimal_name, 2);
        assert(Str_31::name_spec() =~= decimal_name(31));
        lemma_decimal_name_value(31);
    }

    proof fn lemma_path(path: Self) {
        reveal_strlit("31");
        reveal_with_fuel(decimal_name, 2);
        assert(Str_31::name_spec() =~= decimal_name(31));
    }
}

impl IsPathForArray<1> for TStr<Str_0> {
    proof fn lemma_in_bounds() {
        Self::lemma_index();
    }
}

impl IsPathForArray<2> for TStr<Str_0> {
    proof fn lemma_in_bounds() {
        Self::lemma_index();
    }
}

impl IsPathForArray<3> for TStr<Str_0> {
    proof fn lemma_in_bounds() {
        Self::lemma_index();
    }
}

impl IsPathForArray<4> for TStr<Str_0> {
    proof fn lemma_in_bounds() {
        Self::lemma_index();
    }
}

impl IsPathForArray<5> for TStr<Str_0> {
    proof fn lemma_in_bounds() {
        Self::lemma_index();
    }
}

impl IsPathForArray<6> for TStr<Str_0> {
    proof fn lemma_in_bounds() {
        Self::lemma_index();
    }
}

impl IsPathForArray<7> for TStr<Str_0> {
    proof fn lemma_in_bounds() {
        Self::lemma_index();
    }
}

impl IsPathForArray<8> for TStr<Str_0> {
    proof fn lemma_in_bounds() {
        Self::lemma_index();
    }
}

impl IsPathForArray<9> for TStr<Str_0> {
    proof fn lemma_in_bounds() {
        Self::lemma_index();
    }
}

impl IsPathForArray<10> for TStr<Str_0> {
    proof fn lemma_in_bounds() {
        Self::lemma_index();
    }
}

impl IsPathForArray<11> for TStr<Str_0> {
    proof fn lemma_in_bounds() {
        Self::lemma_index();
    }
}

impl IsPathForArray<12> for TStr<Str_0> {
    proof fn lemma_in_bounds() {
        Self::lemma_index();
    }
}

impl IsPathForArray<13> for TStr<Str_0> {
    proof fn lemma_in_bounds() {
        Self::lemma_index();
    }
}

impl IsPathForArray<14> for TStr<Str_0> {
    proof fn lemma_in_bounds() {
        Self::lemma_index();
    }
}

impl IsPathForArray<15> for TStr<Str_0> {
    proof fn lemma_in_bounds() {
        Self::lemma_index();
    }
}

impl IsPathForArray<16> for TStr<Str_0> {
    proof fn lemma_in_bounds() {
        Self::lemma_index();
    }
}

impl IsPathForArray<17> for TStr<Str_0> {
    proof fn lemma_in_bounds() {
        Self::lemma_index();
    }
}

impl IsPathForArray<18> for TStr<Str_0> {
    proof fn lemma_in_bounds() {
        Self::lemma_index();
    }
}

impl IsPathForArray<19> for TStr<Str_0> {
    proof fn lemma_in_bounds() {
        Self::lemma_index();
    }
}

impl IsPathForArray<20> for TStr<Str_0> {
    proof fn lemma_in_bounds() {
        Self::lemma_index();
    }
}

impl IsPathForArray<21> for TStr<Str_0> {
    proof fn lemma_in_bounds() {
        Self::lemma_index();
    }
}

impl IsPathForArray<22> for TStr<Str_0> {
    proof fn lemma_in_bounds() {
        Self::lemma_index();
    }
}

impl IsPathForArray<23> for TStr<Str_0> {
    proof fn lemma_in_bounds() {
        Self::lemma_index();
    }
}

impl IsPathForArray<24> for TStr<Str_0> {
    proof fn lemma_in_bounds() {
        Self::lemma_index();
    }
}

impl IsPathForArray<25> for TStr<Str_0> {
    proof fn lemma_in_bounds() {
        Self::lemma_index();
    }
}

impl IsPathForArray<26> for TStr<Str_0> {
    proof fn lemma_in_bounds() {
        Self::lemma_index();
    }
}

impl IsPathForArray<27> for TStr<Str_0> {
    proof fn lemma_in_bounds() {
        Self::lemma_index();
    }
}

impl IsPathForArray<28> for TStr<Str_0> {
    proof fn lemma_in_bounds() {
        Self::lemma_index();
    }
}

impl IsPathForArray<29> for TStr<Str_0> {
    proof fn lemma_in_bounds() {
        Self::lemma_index();
    }
}

impl IsPathForArray<30> for TStr<Str_0> {
    proof fn lemma_in_bounds() {
        Self::lemma_index();
    }
}

impl IsPathForArray<31> for TStr<Str_0> {
    proof fn lemma_in_bounds() {
        Self::lemma_index();
    }
}

impl IsPathForArray<32> for TStr<Str_0> {
    proof fn lemma_in_bounds() {
        Self::lemma_index();
    }
}

impl IsPathForArray<2> for TStr<Str_1> {
    proof fn lemma_in_bounds() {
        Self::lemma_index();
    }
}

impl IsPathForArray<3> for TStr<Str_1> {
    proof fn lemma_in_bounds() {
        Self::lemma_index();
    }
}

impl IsPathForArray<4> for TStr<Str_1> {
    proof fn lemma_in_bounds() {
        Self::lemma_index();
    }
}

impl IsPathForArray<5> for TStr<Str_1> {
    proof fn lemma_in_bounds() {
        Self::lemma_index();
    }
}

impl IsPathForArray<6> for TStr<Str_1> {
    proof fn lemma_in_bounds() {
        Self::lemma_index();
    }
}

impl IsPathForArray<7> for TStr<Str_1> {
    proof fn lemma_in_bounds() {
        Self::lemma_index();
    }
}

impl IsPathForArray<8> for TStr<Str_1> {
    proof fn lemma_in_bounds() {
        Self::lemma_index();
    }
}

impl IsPathForArray<9> for TStr<Str_1> {
    proof fn lemma_in_bounds() {
        Self::lemma_index();
    }
}

impl IsPathForArray<10> for TStr<Str_1> {
    proof fn lemma_in_bounds() {
        Self::lemma_index();
    }
}

impl IsPathForArray<11> for TStr<Str_1> {
    proof fn lemma_in_bounds() {
        Self::lemma_index();
    }
}

impl IsPathForArray<12> for TStr<Str_1> {
    proof fn lemma_in_bounds() {
        Self::lemma_index();
    }
}

impl IsPathForArray<13> for TStr<Str_1> {
    proof fn lemma_in_bounds() {
        Self::lemma_index();
    }
}

impl IsPathForArray<14> for TStr<Str_1> {
    proof fn lemma_in_bounds() {
        Self::lemma_index();
    }
}

impl IsPathForArray<15> for TStr<Str_1> {
    proof fn lemma_in_bounds() {
        Self::lemma_index();
    }
}

impl IsPathForArray<16> for TStr<Str_1> {
    proof fn lemma_in_bounds() {
        Self::lemma_index();
    }
}

impl IsPathForArray<17> for TStr<Str_1> {
    proof fn lemma_in_bounds() {
        Self::lemma_index();
    }
}

impl IsPathForArray<18> for TStr<Str_1> {
    proof fn lemma_in_bounds() {
        Self::lemma_index();
    }
}

impl IsPathForArray<19> for TStr<Str_1> {
    proof fn lemma_in_bounds() {
        Self::lemma_index();
    }
}

impl IsPathForArray<20> for TStr<Str_1> {
    proof fn lemma_in_bounds() {
        Self::lemma_index();
    }
}

impl IsPathForArray<21> for TStr<Str_1> {
    proof fn lemma_in_bounds() {
        Self::lemma_index();
    }
}

impl IsPathForArray<22> for TStr<Str_1> {
    proof fn lemma_in_bounds() {
        Self::lemma_index();
    }
}

impl IsPathForArray<23> for TStr<Str_1> {
    proof fn lemma_in_bounds() {
        Self::lemma_index();
    }
}

impl IsPathForArray<24> for TStr<Str_1> {
    proof fn lemma_in_bounds() {
        Self::lemma_index();
    }
}

impl IsPathForArray<25> for TStr<Str_1> {
    proof fn lemma_in_bounds() {
        Self::lemma_index();
    }
}

impl IsPathForArray<26> for TStr<Str_1> {
    proof fn lemma_in_bounds() {
        Self::lemma_index();
    }
}

impl IsPathForArray<27> for TStr<Str_1> {
    proof fn lemma_in_bounds() {
        Self::lemma_index();
    }
}

impl IsPathForArray<28> for TStr<Str_1> {
    proof fn lemma_in_bounds() {
        Self::lemma_index();
    }
}

impl IsPathForArray<29> for TStr<Str_1> {
    proof fn lemma_in_bounds() {
        Self::lemma_index();
    }
}

impl IsPathForArray<30> for TStr<Str_1> {
    proof fn lemma_in_bounds() {
        Self::lemma_index();
    }
}

impl IsPathForArray<31> for TStr<Str_1> {
    proof fn lemma_in_bounds() {
        Self::lemma_index();
    }
}

impl IsPathForArray<32> for TStr<Str_1> {
    proof fn lemma_in_bounds() {
        Self::lemma_index();
    }
}

impl IsPathForArray<3> for TStr<Str_2> {
    proof fn lemma_in_bounds() {
        Self::lemma_index();
    }
}

impl IsPathForArray<4> for TStr<Str_2> {
    proof fn lemma_in_bounds() {
        Self::lemma_index();
    }
}

impl IsPathForArray<5> for TStr<Str_2> {
    proof fn lemma_in_bounds() {
        Self::lemma_index();
    }
}

impl IsPathForArray<6> for TStr<Str_2> {
    proof fn lemma_in_bounds() {
        Self::lemma_index();
    }
}

impl IsPathForArray<7> for TStr<Str_2> {
    proof fn lemma_in_bounds() {
        Self::lemma_index();
    }
}

impl IsPathForArray<8> for TStr<Str_2> {
    proof fn lemma_in_bounds() {
        Self::lemma_index();
    }
}

impl IsPathForArray<9> for TStr<Str_2> {
    proof fn lemma_in_bounds() {
        Self::lemma_index();
    }
}

impl IsPathForArray<10> for TStr<Str_2> {
    proof fn lemma_in_bounds() {
        Self::lemma_index();
    }
}

impl IsPathForArray<11> for TStr<Str_2> {
    proof fn lemma_in_bounds() {
        Self::lemma_index();
    }
}

impl IsPathForArray<12> for TStr<Str_2> {
    proof fn lemma_in_bounds() {
        Self::lemma_index();
    }
}

impl IsPathForArray<13> for TStr<Str_2> {
    proof fn lemma_in_bounds() {
        Self::lemma_index();
    }
}

impl IsPathForArray<14> for TStr<Str_2> {
    proof fn lemma_in_bounds() {
        Self::lemma_index();
    }
}

impl IsPathForArray<15> for TStr<Str_2> {
    proof fn lemma_in_bounds() {
        Self::lemma_index();
    }
}

impl IsPathForArray<16> for TStr<Str_2> {
    proof fn lemma_in_bounds() {
        Self::lemma_index();
    }
}

impl IsPathForArray<17> for TStr<Str_2> {
    proof fn lemma_in_bounds() {
        Self::lemma_index();
    }
}

impl IsPathForArray<18> for TStr<Str_2> {
    proof fn lemma_in_bounds() {
        Self::lemma_index();
    }
}

impl IsPathForArray<19> for TStr<Str_2> {
    proof fn lemma_in_bounds() {
        Self::lemma_index();
    }
}

impl IsPathForArray<20> for TStr<Str_2> {
    proof fn lemma_in_bounds() {
        Self::lemma_index();
    }
}

impl IsPathForArray<21> for TStr<Str_2> {
    proof fn lemma_in_bounds() {
        Self::lemma_index();
    }
}

impl IsPathForArray<22> for TStr<Str_2> {
    proof fn lemma_in_bounds() {
        Self::lemma_index();
    }
}

impl IsPathForArray<23> for TStr<Str_2> {
    proof fn lemma_in_bounds() {
        Self::lemma_index();
    }
}

impl IsPathForArray<24> for TStr<Str_2> {
    proof fn lemma_in_bounds() {
        Self::lemma_index();
    }
}

impl IsPathForArray<25> for TStr<Str_2> {
    proof fn lemma_in_bounds() {
        Self::lemma_index();
    }
}

impl IsPathForArray<26> for TStr<Str_2> {
    proof fn lemma_in_bounds() {
        Self::lemma_index();
    }
}

impl IsPathForArray<27> for TStr<Str_2> {
    proof fn lemma_in_bounds() {
        Self::lemma_index();
    }
}

impl IsPathForArray<28> for TStr<Str_2> {
    proof fn lemma_in_bounds() {
        Self::lemma_index();
    }
}

impl IsPathForArray<29> for TStr<Str_2> {
    proof fn lemma_in_bounds() {
        Self::lemma_index();
    }
}

impl IsPathForArray<30> for TStr<Str_2> {
    proof fn lemma_in_bounds() {
        Self::lemma_index();
    }
}

impl IsPathForArray<31> for TStr<Str_2> {
    proof fn lemma_in_bounds() {
        Self::lemma_index();
    }
}

impl IsPathForArray<32> for TStr<Str_2> {
    proof fn lemma_in_bounds() {
        Self::lemma_index();
    }
}

impl IsPathForArray<4> for TStr<Str_3> {
    proof fn lemma_in_bounds() {
        Self::lemma_index();
    }
}

impl IsPathForArray<5> for TStr<Str_3> {
    proof fn lemma_in_bounds() {
        Self::lemma_index();
    }
}

impl IsPathForArray<6> for TStr<Str_3> {
    proof fn lemma_in_bounds() {
        Self::lemma_index();
    }
}

impl IsPathForArray<7> for TStr<Str_3> {
    proof fn lemma_in_bounds() {
        Self::lemma_index();
    }
}

impl IsPathForArray<8> for TStr<Str_3> {
    proof fn lemma_in_bounds() {
        Self::lemma_index();
    }
}

impl IsPathForArray<9> for TStr<Str_3> {
    proof fn lemma_in_bounds() {
        Self::lemma_index();
    }
}

impl IsPathForArray<10> for TStr<Str_3> {
    proof fn lemma_in_bounds() {
        Self::lemma_index();
    }
}

impl IsPathForArray<11> for TStr<Str_3> {
    proof fn lemma_in_bounds() {
        Self::lemma_index();
    }
}

impl IsPathForArray<12> for TStr<Str_3> {
    proof fn lemma_in_bounds() {
        Self::lemma_index();
    }
}

impl IsPathForArray<13> for TStr<Str_3> {
    proof fn lemma_in_bounds() {
        Self::lemma_index();
    }
}

impl IsPathForArray<14> for TStr<Str_3> {
    proof fn lemma_in_bounds() {
        Self::lemma_index();
    }
}

impl IsPathForArray<15> for TStr<Str_3> {
    proof fn lemma_in_bounds() {
        Self::lemma_index();
    }
}

impl IsPathForArray<16> for TStr<Str_3> {
    proof fn lemma_in_bounds() {
        Self::lemma_index();
    }
}

impl IsPathForArray<17> for TStr<Str_3> {
    proof fn lemma_in_bounds() {
        Self::lemma_index();
    }
}

impl IsPathForArray<18> for TStr<Str_3> {
    proof fn lemma_in_bounds() {
        Self::lemma_index();
    }
}

impl IsPathForArray<19> for TStr<Str_3> {
    proof fn lemma_in_bounds() {
        Self::lemma_index();
    }
}

impl IsPathForArray<20> for TStr<Str_3> {
    proof fn lemma_in_bounds() {
        Self::lemma_index();
    }
}

impl IsPathForArray<21> for TStr<Str_3> {
    proof fn lemma_in_bounds() {
        Self::lemma_index();
    }
}

impl IsPathForArray<22> for TStr<Str_3> {
    proof fn lemma_in_bounds() {
        Self::lemma_index();
    }
}

impl IsPathForArray<23> for TStr<Str_3> {
    proof fn lemma_in_bounds() {
        Self::lemma_index();
    }
}

impl IsPathForArray<24> for TStr<Str_3> {
    proof fn lemma_in_bounds() {
        Self::lemma_index();
    }
}

impl IsPathForArray<25> for TStr<Str_3> {
    proof fn lemma_in_bounds() {
        Self::lemma_index();
    }
}

impl IsPathForArray<26> for TStr<Str_3> {
    proof fn lemma_in_bounds() {
        Self::lemma_index();
    }
}

impl IsPathForArray<27> for TStr<Str_3> {
    proof fn lemma_in_bounds() {
        Self::lemma_index();
    }
}

impl IsPathForArray<28> for TStr<Str_3> {
    proof fn lemma_in_bounds() {
        Self::lemma_index();
    }
}

impl IsPathForArray<29> for TStr<Str_3> {
    proof fn lemma_in_bounds() {
        Self::lemma_index();
    }
}

impl IsPathForArray<30> for TStr<Str_3> {
    proof fn lemma_in_bounds() {
        Self::lemma_index();
    }
}

impl IsPathForArray<31> for TStr<Str_3> {
    proof fn lemma_in_bounds() {
        Self::lemma_index();
    }
}

impl IsPathForArray<32> for TStr<Str_3> {
    proof fn lemma_in_bounds() {
        Self::lemma_index();
    }
}

impl IsPathForArray<5> for TStr<Str_4> {
    proof fn lemma_in_bounds() {
        Self::lemma_index();
    }
}

impl IsPathForArray<6> for TStr<Str_4> {
    proof fn lemma_in_bounds() {
        Self::lemma_index();
    }
}

impl IsPathForArray<7> for TStr<Str_4> {
    proof fn lemma_in_bounds() {
        Self::lemma_index();
    }
}

impl IsPathForArray<8> for TStr<Str_4> {
    proof fn lemma_in_bounds() {
        Self::lemma_index();
    }
}

impl IsPathForArray<9> for TStr<Str_4> {
    proof fn lemma_in_bounds() {
        Self::lemma_index();
    }
}

impl IsPathForArray<10> for TStr<Str_4> {
    proof fn lemma_in_bounds() {
        Self::lemma_index();
    }
}

impl IsPathForArray<11> for TStr<Str_4> {
    proof fn lemma_in_bounds() {
        Self::lemma_index();
    }
}

impl IsPathForArray<12> for TStr<Str_4> {
    proof fn lemma_in_bounds() {
        Self::lemma_index();
    }
}

impl IsPathForArray<13> for TStr<Str_4> {
    proof fn lemma_in_bounds() {
        Self::lemma_index();
    }
}

impl IsPathForArray<14> for TStr<Str_4> {
    proof fn lemma_in_bounds() {
        Self::lemma_index();
    }
}

impl IsPathForArray<15> for TStr<Str_4> {
    proof fn lemma_in_bounds() {
        Self::lemma_index();
    }
}

impl IsPathForArray<16> for TStr<Str_4> {
    proof fn lemma_in_bounds() {
        Self::lemma_index();
    }
}

impl IsPathForArray<17> for TStr<Str_4> {
    proof fn lemma_in_bounds() {
        Self::lemma_index();
    }
}

impl IsPathForArray<18> for TStr<Str_4> {
    proof fn lemma_in_bounds() {
        Self::lemma_index();
    }
}

impl IsPathForArray<19> for TStr<Str_4> {
    proof fn lemma_in_bounds() {
        Self::lemma_index();
    }
}

impl IsPathForArray<20> for TStr<Str_4> {
    proof fn lemma_in_bounds() {
        Self::lemma_index();
    }
}

impl IsPathForArray<21> for TStr<Str_4> {
    proof fn lemma_in_bounds() {
        Self::lemma_index();
    }
}

impl IsPathForArray<22> for TStr<Str_4> {
    proof fn lemma_in_bounds() {
        Self::lemma_index();
    }
}

impl IsPathForArray<23> for TStr<Str_4> {
    proof fn lemma_in_bounds() {
        Self::lemma_index();
    }
}

impl IsPathForArray<24> for TStr<Str_4> {
    proof fn lemma_in_bounds() {
        Self::lemma_index();
    }
}

impl IsPathForArray<25> for TStr<Str_4> {
    proof fn lemma_in_bounds() {
        Self::lemma_index();
    }
}

impl IsPathForArray<26> for TStr<Str_4> {
    proof fn lemma_in_bounds() {
        Self::lemma_index();
    }
}

impl IsPathForArray<27> for TStr<Str_4> {
    proof fn lemma_in_bounds() {
        Self::lemma_index();
    }
}

impl IsPathForArray<28> for TStr<Str_4> {
    proof fn lemma_in_bounds() {
        Self::lemma_index();
    }
}

impl IsPathForArray<29> for TStr<Str_4> {
    proof fn lemma_in_bounds() {
        Self::lemma_index();
    }
}

impl IsPathForArray<30> for TStr<Str_4> {
    proof fn lemma_in_bounds() {
        Self::lemma_index();
    }
}

impl IsPathForArray<31> for TStr<Str_4> {
    proof fn lemma_in_bounds() {
        Self::lemma_index();
    }
}

impl IsPathForArray<32> for TStr<Str_4> {
    proof fn lemma_in_bounds() {
        Self::lemma_index();
    }
}

impl IsPathForArray<6> for TStr<Str_5> {
    proof fn lemma_in_bounds() {
        Self::lemma_index();
    }
}

impl IsPathForArray<7> for TStr<Str_5> {
    proof fn lemma_in_bounds() {
        Self::lemma_index();
    }
}

impl IsPathForArray<8> for TStr<Str_5> {
    proof fn lemma_in_bounds() {
        Self::lemma_index();
    }
}

impl IsPathForArray<9> for TStr<Str_5> {
    proof fn lemma_in_bounds() {
        Self::lemma_index();
    }
}

impl IsPathForArray<10> for TStr<Str_5> {
    proof fn lemma_in_bounds() {
        Self::lemma_index();
    }
}

impl IsPathForArray<11> for TStr<Str_5> {
    proof fn lemma_in_bounds() {
        Self::lemma_index();
    }
}

impl IsPathForArray<12> for TStr<Str_5> {
    proof fn lemma_in_bounds() {
        Self::lemma_index();
    }
}

impl IsPathForArray<13> for TStr<Str_5> {
    proof fn lemma_in_bounds() {
        Self::lemma_index();
    }
}

impl IsPathForArray<14> for TStr<Str_5> {
    proof fn lemma_in_bounds() {
        Self::lemma_index();
    }
}

impl IsPathForArray<15> for TStr<Str_5> {
    proof fn lemma_in_bounds() {
        Self::lemma_index();
    }
}

impl IsPathForArray<16> for TStr<Str_5> {
    proof fn lemma_in_bounds() {
        Self::lemma_index();
    }
}

impl IsPathForArray<17> for TStr<Str_5> {
    proof fn lemma_in_bounds() {
        Self::lemma_index();
    }
}

impl IsPathForArray<18> for TStr<Str_5> {
    proof fn lemma_in_bounds() {
        Self::lemma_index();
    }
}

impl IsPathForArray<19> for TStr<Str_5> {
    proof fn lemma_in_bounds() {
        Self::lemma_index();
    }
}

impl IsPathForArray<20> for TStr<Str_5> {
    proof fn lemma_in_bounds() {
        Self::lemma_index();
    }
}

impl IsPathForArray<21> for TStr<Str_5> {
    proof fn lemma_in_bounds() {
        Self::lemma_index();
    }
}

impl IsPathForArray<22> for TStr<Str_5> {
    proof fn lemma_in_bounds() {
        Self::lemma_index();
    }
}

impl IsPathForArray<23> for TStr<Str_5> {
    proof fn lemma_in_bounds() {
        Self::lemma_index();
    }
}

impl IsPathForArray<24> for TStr<Str_5> {
    proof fn lemma_in_bounds() {
        Self::lemma_index();
    }
}

impl IsPathForArray<25> for TStr<Str_5> {
    proof fn lemma_in_bounds() {
        Self::lemma_index();
    }
}

impl IsPathForArray<26> for TStr<Str_5> {
    proof fn lemma_in_bounds() {
        Self::lemma_index();
    }
}

impl IsPathForArray<27> for TStr<Str_5> {
    proof fn lemma_in_bounds() {
        Self::lemma_index();
    }
}

impl IsPathForArray<28> for TStr<Str_5> {
    proof fn lemma_in_bounds() {
        Self::lemma_index();
    }
}

impl IsPathForArray<29> for TStr<Str_5> {
    proof fn lemma_in_bounds() {
        Self::lemma_index();
    }
}

impl IsPathForArray<30> for TStr<Str_5> {
    proof fn lemma_in_bounds() {
        Self::lemma_index();
    }
}

impl IsPathForArray<31> for TStr<Str_5> {
    proof fn lemma_in_bounds() {
        Self::lemma_index();
    }
}

impl IsPathForArray<32> for TStr<Str_5> {
    proof fn lemma_in_bounds() {
        Self::lemma_index();
    }
}

impl IsPathForArray<7> for TStr<Str_6> {
    proof fn lemma_in_bounds() {
        Self::lemma_index();
    }
}

impl IsPathForArray<8> for TStr<Str_6> {
    proof fn lemma_in_bounds() {
        Self::lemma_index();
    }
}

impl IsPathForArray<9> for TStr<Str_6> {
    proof fn lemma_in_bounds() {
        Self::lemma_index();
    }
}

impl IsPathForArray<10> for TStr<Str_6> {
    proof fn lemma_in_bounds() {
        Self::lemma_index();
    }
}

impl IsPathForArray<11> for TStr<Str_6> {
    proof fn lemma_in_bounds() {
        Self::lemma_index();
    }
}

impl IsPathForArray<12> for TStr<Str_6> {
    proof fn lemma_in_bounds() {
        Self::lemma_index();
    }
}

impl IsPathForArray<13> for TStr<Str_6> {
    proof fn lemma_in_bounds() {
        Self::lemma_index();
    }
}

impl IsPathForArray<14> for TStr<Str_6> {
    proof fn lemma_in_bounds() {
        Self::lemma_index();
    }
}

impl IsPathForArray<15> for TStr<Str_6> {
    proof fn lemma_in_bounds() {
        Self::lemma_index();
    }
}

impl IsPathForArray<16> for TStr<Str_6> {
    proof fn lemma_in_bounds() {
        Self::lemma_index();
    }
}

impl IsPathForArray<17> for TStr<Str_6> {
    proof fn lemma_in_bounds() {
        Self::lemma_index();
    }
}

impl IsPathForArray<18> for TStr<Str_6> {
    proof fn lemma_in_bounds() {
        Self::lemma_index();
    }
}

impl IsPathForArray<19> for TStr<Str_6> {
    proof fn lemma_in_bounds() {
        Self::lemma_index();
    }
}

impl IsPathForArray<20> for TStr<Str_6> {
    proof fn lemma_in_bounds() {
        Self::lemma_index();
    }
}

impl IsPathForArray<21> for TStr<Str_6> {
    proof fn lemma_in_bounds() {
        Self::lemma_index();
    }
}

impl IsPathForArray<22> for TStr<Str_6> {
    proof fn lemma_in_bounds() {
        Self::lemma_index();
    }
}

impl IsPathForArray<23> for TStr<Str_6> {
    proof fn lemma_in_bounds() {
        Self::lemma_index();
    }
}

impl IsPathForArray<24> for TStr<Str_6> {
    proof fn lemma_in_bounds() {
        Self::lemma_index();
    }
}

impl IsPathForArray<25> for TStr<Str_6> {
    proof fn lemma_in_bounds() {
        Self::lemma_index();
    }
}

impl IsPathForArray<26> for TStr<Str_6> {
    proof fn lemma_in_bounds() {
        Self::lemma_index();
    }
}

impl IsPathForArray<27> for TStr<Str_6> {
    proof fn lemma_in_bounds() {
        Self::lemma_index();
    }
}

impl IsPathForArray<28> for TStr<Str_6> {
    proof fn lemma_in_bounds() {
        Self::lemma_index();
    }
}

impl IsPathForArray<29> for TStr<Str_6> {
    proof fn lemma_in_bounds() {
        Self::lemma_index();
    }
}

impl IsPathForArray<30> for TStr<Str_6> {
    proof fn lemma_in_bounds() {
        Self::lemma_index();
    }
}

impl IsPathForArray<31> for TStr<Str_6> {
    proof fn lemma_in_bounds() {
        Self::lemma_index();
    }
}

impl IsPathForArray<32> for TStr<Str_6> {
    proof fn lemma_in_bounds() {
        Self::lemma_index();
    }
}

impl IsPathForArray<8> for TStr<Str_7> {
    proof fn lemma_in_bounds() {
        Self::lemma_index();
    }
}

impl IsPathForArray<9> for TStr<Str_7> {
    proof fn lemma_in_bounds() {
        Self::lemma_index();
    }
}

impl IsPathForArray<10> for TStr<Str_7> {
    proof fn lemma_in_bounds() {
        Self::lemma_index();
    }
}

impl IsPathForArray<11> for TStr<Str_7> {
    proof fn lemma_in_bounds() {
        Self::lemma_index();
    }
}

impl IsPathForArray<12> for TStr<Str_7> {
    proof fn lemma_in_bounds() {
        Self::lemma_index();
    }
}

impl IsPathForArray<13> for TStr<Str_7> {
    proof fn lemma_in_bounds() {
        Self::lemma_index();
    }
}

impl IsPathForArray<14> for TStr<Str_7> {
    proof fn lemma_in_bounds() {
        Self::lemma_index();
    }
}

impl IsPathForArray<15> for TStr<Str_7> {
    proof fn lemma_in_bounds() {
        Self::lemma_index();
    }
}

impl IsPathForArray<16> for TStr<Str_7> {
    proof fn lemma_in_bounds() {
        Self::lemma_index();
    }
}

impl IsPathForArray<17> for TStr<Str_7> {
    proof fn lemma_in_bounds() {
        Self::lemma_index();
    }
}

impl IsPathForArray<18> for TStr<Str_7> {
    proof fn lemma_in_bounds() {
        Self::lemma_index();
    }
}

impl IsPathForArray<19> for TStr<Str_7> {
    proof fn lemma_in_bounds() {
        Self::lemma_index();
    }
}

impl IsPathForArray<20> for TStr<Str_7> {
    proof fn lemma_in_bounds() {
        Self::lemma_index();
    }
}

impl IsPathForArray<21> for TStr<Str_7> {
    proof fn lemma_in_bounds() {
        Self::lemma_index();
    }
}

impl IsPathForArray<22> for TStr<Str_7> {
    proof fn lemma_in_bounds() {
        Self::lemma_index();
    }
}

impl IsPathForArray<23> for TStr<Str_7> {
    proof fn lemma_in_bounds() {
        Self::lemma_index();
    }
}

impl IsPathForArray<24> for TStr<Str_7> {
    proof fn lemma_in_bounds() {
        Self::lemma_index();
    }
}

impl IsPathForArray<25> for TStr<Str_7> {
    proof fn lemma_in_bounds() {
        Self::lemma_index();
    }
}

impl IsPathForArray<26> for TStr<Str_7> {
    proof fn lemma_in_bounds() {
        Self::lemma_index();
    }
}

impl IsPathForArray<27> for TStr<Str_7> {
    proof fn lemma_in_bounds() {
        Self::lemma_index();
    }
}

impl IsPathForArray<28> for TStr<Str_7> {
    proof fn lemma_in_bounds() {
        Self::lemma_index();
    }
}

impl IsPathForArray<29> for TStr<Str_7> {
    proof fn lemma_in_bounds() {
        Self::lemma_index();
    }
}

impl IsPathForArray<30> for TStr<Str_7> {
    proof fn lemma_in_bounds() {
        Self::lemma_index();
    }
}

impl IsPathForArray<31> for TStr<Str_7> {
    proof fn lemma_in_bounds() {
        Self::lemma_index();
    }
}

impl IsPathForArray<32> for TStr<Str_7> {
    proof fn lemma_in_bounds() {
        Self::lemma_index();
    }
}

impl IsPathForArray<9> for TStr<Str_8> {
    proof fn lemma_in_bounds() {
        Self::lemma_index();
    }
}

impl IsPathForArray<10> for TStr<Str_8> {
    proof fn lemma_in_bounds() {
        Self::lemma_index();
    }
}

impl IsPathForArray<11> for TStr<Str_8> {
    proof fn lemma_in_bounds() {
        Self::lemma_index();
    }
}

impl IsPathForArray<12> for TStr<Str_8> {
    proof fn lemma_in_bounds() {
        Self::lemma_index();
    }
}

impl IsPathForArray<13> for TStr<Str_8> {
    proof fn lemma_in_bounds() {
        Self::lemma_index();
    }
}

impl IsPathForArray<14> for TStr<Str_8> {
    proof fn lemma_in_bounds() {
        Self::lemma_index();
    }
}

impl IsPathForArray<15> for TStr<Str_8> {
    proof fn lemma_in_bounds() {
        Self::lemma_index();
    }
}

impl IsPathForArray<16> for TStr<Str_8> {
    proof fn lemma_in_bounds() {
        Self::lemma_index();
    }
}

impl IsPathForArray<17> for TStr<Str_8> {
    proof fn lemma_in_bounds() {
        Self::lemma_index();
    }
}

impl IsPathForArray<18> for TStr<Str_8> {
    proof fn lemma_in_bounds() {
        Self::lemma_index();
    }
}

impl IsPathForArray<19> for TStr<Str_8> {
    proof fn lemma_in_bounds() {
        Self::lemma_index();
    }
}

impl IsPathForArray<20> for TStr<Str_8> {
    proof fn lemma_in_bounds() {
        Self::lemma_index();
    }
}

impl IsPathForArray<21> for TStr<Str_8> {
    proof fn lemma_in_bounds() {
        Self::lemma_index();
    }
}

impl IsPathForArray<22> for TStr<Str_8> {
    proof fn lemma_in_bounds() {
        Self::lemma_index();
    }
}

impl IsPathForArray<23> for TStr<Str_8> {
    proof fn lemma_in_bounds() {
        Self::lemma_index();
    }
}

impl IsPathForArray<24> for TStr<Str_8> {
    proof fn lemma_in_bounds() {
        Self::lemma_index();
    }
}

impl IsPathForArray<25> for TStr<Str_8> {
    proof fn lemma_in_bounds() {
        Self::lemma_index();
    }
}

impl IsPathForArray<26> for TStr<Str_8> {
    proof fn lemma_in_bounds() {
        Self::lemma_index();
    }
}

impl IsPathForArray<27> for TStr<Str_8> {
    proof fn lemma_in_bounds() {
        Self::lemma_index();
    }
}

impl IsPathForArray<28> for TStr<Str_8> {
    proof fn lemma_in_bounds() {
        Self::lemma_index();
    }
}

impl IsPathForArray<29> for TStr<Str_8> {
    proof fn lemma_in_bounds() {
        Self::lemma_index();
    }
}

impl IsPathForArray<30> for TStr<Str_8> {
    proof fn lemma_in_bounds() {
        Self::lemma_index();
    }
}

impl IsPathForArray<31> for TStr<Str_8> {
    proof fn lemma_in_bounds() {
        Self::lemma_index();
    }
}

impl IsPathForArray<32> for TStr<Str_8> {
    proof fn lemma_in_bounds() {
        Self::lemma_index();
    }
}

impl IsPathForArray<10> for TStr<Str_9> {
    proof fn lemma_in_bounds() {
        Self::lemma_index();
    }
}

impl IsPathForArray<11> for TStr<Str_9> {
    proof fn lemma_in_bounds() {
        Self::lemma_index();
    }
}

impl IsPathForArray<12> for TStr<Str_9> {
    proof fn lemma_in_bounds() {
        Self::lemma_index();
    }
}

impl IsPathForArray<13> for TStr<Str_9> {
    proof fn lemma_in_bounds() {
        Self::lemma_index();
    }
}

impl IsPathForArray<14> for TStr<Str_9> {
    proof fn lemma_in_bounds() {
        Self::lemma_index();
    }
}

impl IsPathForArray<15> for TStr<Str_9> {
    proof fn lemma_in_bounds() {
        Self::lemma_index();
    }
}

impl IsPathForArray<16> for TStr<Str_9> {
    proof fn lemma_in_bounds() {
        Self::lemma_index();
    }
}

impl IsPathForArray<17> for TStr<Str_9> {
    proof fn lemma_in_bounds() {
        Self::lemma_index();
    }
}

impl IsPathForArray<18> for TStr<Str_9> {
    proof fn lemma_in_bounds() {
        Self::lemma_index();
    }
}

impl IsPathForArray<19> for TStr<Str_9> {
    proof fn lemma_in_bounds() {
        Self::lemma_index();
    }
}

impl IsPathForArray<20> for TStr<Str_9> {
    proof fn lemma_in_bounds() {
        Self::lemma_index();
    }
}

impl IsPathForArray<21> for TStr<Str_9> {
    proof fn lemma_in_bounds() {
        Self::lemma_index();
    }
}

impl IsPathForArray<22> for TStr<Str_9> {
    proof fn lemma_in_bounds() {
        Self::lemma_index();
    }
}

impl IsPathForArray<23> for TStr<Str_9> {
    proof fn lemma_in_bounds() {
        Self::lemma_index();
    }
}

impl IsPathForArray<24> for TStr<Str_9> {
    proof fn lemma_in_bounds() {
        Self::lemma_index();
    }
}

impl IsPathForArray<25> for TStr<Str_9> {
    proof fn lemma_in_bounds() {
        Self::lemma_index();
    }
}

impl IsPathForArray<26> for TStr<Str_9> {
    proof fn lemma_in_bounds() {
        Self::lemma_index();
    }
}

impl IsPathForArray<27> for TStr<Str_9> {
    proof fn lemma_in_bounds() {
        Self::lemma_index();
    }
}

impl IsPathForArray<28> for TStr<Str_9> {
    proof fn lemma_in_bounds() {
        Self::lemma_index();
    }
}

impl IsPathForArray<29> for TStr<Str_9> {
    proof fn lemma_in_bounds() {
        Self::lemma_index();
    }
}

impl IsPathForArray<30> for TStr<Str_9> {
    proof fn lemma_in_bounds() {
        Self::lemma_index();
    }
}

impl IsPathForArray<31> for TStr<Str_9> {
    proof fn lemma_in_bounds() {
        Self::lemma_index();
    }
}

impl IsPathForArray<32> for TStr<Str_9> {
    proof fn lemma_in_bounds() {
        Self::lemma_index();
    }
}

impl IsPathForArray<11> for TStr<Str_10> {
    proof fn lemma_in_bounds() {
        Self::lemma_index();
    }
}

impl IsPathForArray<12> for TStr<Str_10> {
    proof fn lemma_in_bounds() {
        Self::lemma_index();
    }
}

impl IsPathForArray<13> for TStr<Str_10> {
    proof fn lemma_in_bounds() {
        Self::lemma_index();
    }
}

impl IsPathForArray<14> for TStr<Str_10> {
    proof fn lemma_in_bounds() {
        Self::lemma_index();
    }
}

impl IsPathForArray<15> for TStr<Str_10> {
    proof fn lemma_in_bounds() {
        Self::lemma_index();
    }
}

impl IsPathForArray<16> for TStr<Str_10> {
    proof fn lemma_in_bounds() {
        Self::lemma_index();
    }
}

impl IsPathForArray<17> for TStr<Str_10> {
    proof fn lemma_in_bounds() {
        Self::lemma_index();
    }
}

impl IsPathForArray<18> for TStr<Str_10> {
    proof fn lemma_in_bounds() {
        Self::lemma_index();
    }
}

impl IsPathForArray<19> for TStr<Str_10> {
    proof fn lemma_in_bounds() {
        Self::lemma_index();
    }
}

impl IsPathForArray<20> for TStr<Str_10> {
    proof fn lemma_in_bounds() {
        Self::lemma_index();
    }
}

impl IsPathForArray<21> for TStr<Str_10> {
    proof fn lemma_in_bounds() {
        Self::lemma_index();
    }
}

impl IsPathForArray<22> for TStr<Str_10> {
    proof fn lemma_in_bounds() {
        Self::lemma_index();
    }
}

impl IsPathForArray<23> for TStr<Str_10> {
    proof fn lemma_in_bounds() {
        Self::lemma_index();
    }
}

impl IsPathForArray<24> for TStr<Str_10> {
    proof fn lemma_in_bounds() {
        Self::lemma_index();
    }
}

impl IsPathForArray<25> for TStr<Str_10> {
    proof fn lemma_in_bounds() {
        Self::lemma_index();
    }
}

impl IsPathForArray<26> for TStr<Str_10> {
    proof fn lemma_in_bounds() {
        Self::lemma_index();
    }
}

impl IsPathForArray<27> for TStr<Str_10> {
    proof fn lemma_in_bounds() {
        Self::lemma_index();
    }
}

impl IsPathForArray<28> for TStr<Str_10> {
    proof fn lemma_in_bounds() {
        Self::lemma_index();
    }
}

impl IsPathForArray<29> for TStr<Str_10> {
    proof fn lemma_in_bounds() {
        Self::lemma_index();
    }
}

impl IsPathForArray<30> for TStr<Str_10> {
    proof fn lemma_in_bounds() {
        Self::lemma_index();
    }
}

impl IsPathForArray<31> for TStr<Str_10> {
    proof fn lemma_in_bounds() {
        Self::lemma_index();
    }
}

impl IsPathForArray<32> for TStr<Str_10> {
    proof fn lemma_in_bounds() {
        Self::lemma_index();
    }
}

impl IsPathForArray<12> for TStr<Str_11> {
    proof fn lemma_in_bounds() {
        Self::lemma_index();
    }
}

impl IsPathForArray<13> for TStr<Str_11> {
    proof fn lemma_in_bounds() {
        Self::lemma_index();
    }
}

impl IsPathForArray<14> for TStr<Str_11> {
    proof fn lemma_in_bounds() {
        Self::lemma_index();
    }
}

impl IsPathForArray<15> for TStr<Str_11> {
    proof fn lemma_in_bounds() {
        Self::lemma_index();
    }
}

impl IsPathForArray<16> for TStr<Str_11> {
    proof fn lemma_in_bounds() {
        Self::lemma_index();
    }
}

impl IsPathForArray<17> for TStr<Str_11> {
    proof fn lemma_in_bounds() {
        Self::lemma_index();
    }
}

impl IsPathForArray<18> for TStr<Str_11> {
    proof fn lemma_in_bounds() {
        Self::lemma_index();
    }
}

impl IsPathForArray<19> for TStr<Str_11> {
    proof fn lemma_in_bounds() {
        Self::lemma_index();
    }
}

impl IsPathForArray<20> for TStr<Str_11> {
    proof fn lemma_in_bounds() {
        Self::lemma_index();
    }
}

impl IsPathForArray<21> for TStr<Str_11> {
    proof fn lemma_in_bounds() {
        Self::lemma_index();
    }
}

impl IsPathForArray<22> for TStr<Str_11> {
    proof fn lemma_in_bounds() {
        Self::lemma_index();
    }
}

impl IsPathForArray<23> for TStr<Str_11> {
    proof fn lemma_in_bounds() {
        Self::lemma_index();
    }
}

impl IsPathForArray<24> for TStr<Str_11> {
    proof fn lemma_in_bounds() {
        Self::lemma_index();
    }
}

impl IsPathForArray<25> for TStr<Str_11> {
    proof fn lemma_in_bounds() {
        Self::lemma_index();
    }
}

impl IsPathForArray<26> for TStr<Str_11> {
    proof fn lemma_in_bounds() {
        Self::lemma_index();
    }
}

impl IsPathForArray<27> for TStr<Str_11> {
    proof fn lemma_in_bounds() {
        Self::lemma_index();
    }
}

impl IsPathForArray<28> for TStr<Str_11> {
    proof fn lemma_in_bounds() {
        Self::lemma_index();
    }
}

impl IsPathForArray<29> for TStr<Str_11> {
    proof fn lemma_in_bounds() {
        Self::lemma_index();
    }
}

impl IsPathForArray<30> for TStr<Str_11> {
    proof fn lemma_in_bounds() {
        Self::lemma_index();
    }
}

impl IsPathForArray<31> for TStr<Str_11> {
    proof fn lemma_in_bounds() {
        Self::lemma_index();
    }
}

impl IsPathForArray<32> for TStr<Str_11> {
    proof fn lemma_in_bounds() {
        Self::lemma_index();
    }
}

impl IsPathForArray<13> for TStr<Str_12> {
    proof fn lemma_in_bounds() {
        Self::lemma_index();
    }
}

impl IsPathForArray<14> for TStr<Str_12> {
    proof fn lemma_in_bounds() {
        Self::lemma_index();
    }
}

impl IsPathForArray<15> for TStr<Str_12> {
    proof fn lemma_in_bounds() {
        Self::lemma_index();
    }
}

impl IsPathForArray<16> for TStr<Str_12> {
    proof fn lemma_in_bounds() {
        Self::lemma_index();
    }
}

impl IsPathForArray<17> for TStr<Str_12> {
    proof fn lemma_in_bounds() {
        Self::lemma_index();
    }
}

impl IsPathForArray<18> for TStr<Str_12> {
    proof fn lemma_in_bounds() {
        Self::lemma_index();
    }
}

impl IsPathForArray<19> for TStr<Str_12> {
    proof fn lemma_in_bounds() {
        Self::lemma_index();
    }
}

impl IsPathForArray<20> for TStr<Str_12> {
    proof fn lemma_in_bounds() {
        Self::lemma_index();
    }
}

impl IsPathForArray<21> for TStr<Str_12> {
    proof fn lemma_in_bounds() {
        Self::lemma_index();
    }
}

impl IsPathForArray<22> for TStr<Str_12> {
    proof fn lemma_in_bounds() {
        Self::lemma_index();
    }
}

impl IsPathForArray<23> for TStr<Str_12> {
    proof fn lemma_in_bounds() {
        Self::lemma_index();
    }
}

impl IsPathForArray<24> for TStr<Str_12> {
    proof fn lemma_in_bounds() {
        Self::lemma_index();
    }
}

impl IsPathForArray<25> for TStr<Str_12> {
    proof fn lemma_in_bounds() {
        Self::lemma_index();
    }
}

impl IsPathForArray<26> for TStr<Str_12> {
    proof fn lemma_in_bounds() {
        Self::lemma_index();
    }
}

impl IsPathForArray<27> for TStr<Str_12> {
    proof fn lemma_in_bounds() {
        Self::lemma_index();
    }
}

impl IsPathForArray<28> for TStr<Str_12> {
    proof fn lemma_in_bounds() {
        Self::lemma_index();
    }
}

impl IsPathForArray<29> for TStr<Str_12> {
    proof fn lemma_in_bounds() {
        Self::lemma_index();
    }
}

impl IsPathForArray<30> for TStr<Str_12> {
    proof fn lemma_in_bounds() {
        Self::lemma_index();
    }
}

impl IsPathForArray<31> for TStr<Str_12> {
    proof fn lemma_in_bounds() {
        Self::lemma_index();
    }
}

impl IsPathForArray<32> for TStr<Str_12> {
    proof fn lemma_in_bounds() {
        Self::lemma_index();
    }
}

impl IsPathForArray<14> for TStr<Str_13> {
    proof fn lemma_in_bounds() {
        Self::lemma_index();
    }
}

impl IsPathForArray<15> for TStr<Str_13> {
    proof fn lemma_in_bounds() {
        Self::lemma_index();
    }
}

impl IsPathForArray<16> for TStr<Str_13> {
    proof fn lemma_in_bounds() {
        Self::lemma_index();
    }
}

impl IsPathForArray<17> for TStr<Str_13> {
    proof fn lemma_in_bounds() {
        Self::lemma_index();
    }
}

impl IsPathForArray<18> for TStr<Str_13> {
    proof fn lemma_in_bounds() {
        Self::lemma_index();
    }
}

impl IsPathForArray<19> for TStr<Str_13> {
    proof fn lemma_in_bounds() {
        Self::lemma_index();
    }
}

impl IsPathForArray<20> for TStr<Str_13> {
    proof fn lemma_in_bounds() {
        Self::lemma_index();
    }
}

impl IsPathForArray<21> for TStr<Str_13> {
    proof fn lemma_in_bounds() {
        Self::lemma_index();
    }
}

impl IsPathForArray<22> for TStr<Str_13> {
    proof fn lemma_in_bounds() {
        Self::lemma_index();
    }
}

impl IsPathForArray<23> for TStr<Str_13> {
    proof fn lemma_in_bounds() {
        Self::lemma_index();
    }
}

impl IsPathForArray<24> for TStr<Str_13> {
    proof fn lemma_in_bounds() {
        Self::lemma_index();
    }
}

impl IsPathForArray<25> for TStr<Str_13> {
    proof fn lemma_in_bounds() {
        Self::lemma_index();
    }
}

impl IsPathForArray<26> for TStr<Str_13> {
    proof fn lemma_in_bounds() {
        Self::lemma_index();
    }
}

impl IsPathForArray<27> for TStr<Str_13> {
    proof fn lemma_in_bounds() {
        Self::lemma_index();
    }
}

impl IsPathForArray<28> for TStr<Str_13> {
    proof fn lemma_in_bounds() {
        Self::lemma_index();
    }
}

impl IsPathForArray<29> for TStr<Str_13> {
    proof fn lemma_in_bounds() {
        Self::lemma_index();
    }
}

impl IsPathForArray<30> for TStr<Str_13> {
    proof fn lemma_in_bounds() {
        Self::lemma_index();
    }
}

impl IsPathForArray<31> for TStr<Str_13> {
    proof fn lemma_in_bounds() {
        Self::lemma_index();
    }
}

impl IsPathForArray<32> for TStr<Str_13> {
    proof fn lemma_in_bounds() {
        Self::lemma_index();
    }
}

impl IsPathForArray<15> for TStr<Str_14> {
    proof fn lemma_in_bounds() {
        Self::lemma_index();
    }
}

impl IsPathForArray<16> for TStr<Str_14> {
    proof fn lemma_in_bounds() {
        Self::lemma_index();
    }
}

impl IsPathForArray<17> for TStr<Str_14> {
    proof fn lemma_in_bounds() {
        Self::lemma_index();
    }
}

impl IsPathForArray<18> for TStr<Str_14> {
    proof fn lemma_in_bounds() {
        Self::lemma_index();
    }
}

impl IsPathForArray<19> for TStr<Str_14> {
    proof fn lemma_in_bounds() {
        Self::lemma_index();
    }
}

impl IsPathForArray<20> for TStr<Str_14> {
    proof fn lemma_in_bounds() {
        Self::lemma_index();
    }
}

impl IsPathForArray<21> for TStr<Str_14> {
    proof fn lemma_in_bounds() {
        Self::lemma_index();
    }
}

impl IsPathForArray<22> for TStr<Str_14> {
    proof fn lemma_in_bounds() {
        Self::lemma_index();
    }
}

impl IsPathForArray<23> for TStr<Str_14> {
    proof fn lemma_in_bounds() {
        Self::lemma_index();
    }
}

impl IsPathForArray<24> for TStr<Str_14> {
    proof fn lemma_in_bounds() {
        Self::lemma_index();
    }
}

impl IsPathForArray<25> for TStr<Str_14> {
    proof fn lemma_in_bounds() {
        Self::lemma_index();
    }
}

impl IsPathForArray<26> for TStr<Str_14> {
    proof fn lemma_in_bounds() {
        Self::lemma_index();
    }
}

impl IsPathForArray<27> for TStr<Str_14> {
    proof fn lemma_in_bounds() {
        Self::lemma_index();
    }
}

impl IsPathForArray<28> for TStr<Str_14> {
    proof fn lemma_in_bounds() {
        Self::lemma_index();
    }
}

impl IsPathForArray<29> for TStr<Str_14> {
    proof fn lemma_in_bounds() {
        Self::lemma_index();
    }
}

impl IsPathForArray<30> for TStr<Str_14> {
    proof fn lemma_in_bounds() {
        Self::lemma_index();
    }
}

impl IsPathForArray<31> for TStr<Str_14> {
    proof fn lemma_in_bounds() {
        Self::lemma_index();
    }
}

impl IsPathForArray<32> for TStr<Str_14> {
    proof fn lemma_in_bounds() {
        Self::lemma_index();
    }
}

impl IsPathForArray<16> for TStr<Str_15> {
    proof fn lemma_in_bounds() {
        Self::lemma_index();
    }
}

impl IsPathForArray<17> for TStr<Str_15> {
    proof fn lemma_in_bounds() {
        Self::lemma_index();
    }
}

impl IsPathForArray<18> for TStr<Str_15> {
    proof fn lemma_in_bounds() {
        Self::lemma_index();
    }
}

impl IsPathForArray<19> for TStr<Str_15> {
    proof fn lemma_in_bounds() {
        Self::lemma_index();
    }
}

impl IsPathForArray<20> for TStr<Str_15> {
    proof fn lemma_in_bounds() {
        Self::lemma_index();
    }
}

impl IsPathForArray<21> for TStr<Str_15> {
    proof fn lemma_in_bounds() {
        Self::lemma_index();
    }
}

impl IsPathForArray<22> for TStr<Str_15> {
    proof fn lemma_in_bounds() {
        Self::lemma_index();
    }
}

impl IsPathForArray<23> for TStr<Str_15> {
    proof fn lemma_in_bounds() {
        Self::lemma_index();
    }
}

impl IsPathForArray<24> for TStr<Str_15> {
    proof fn lemma_in_bounds() {
        Self::lemma_index();
    }
}

impl IsPathForArray<25> for TStr<Str_15> {
    proof fn lemma_in_bounds() {
        Self::lemma_index();
    }
}

impl IsPathForArray<26> for TStr<Str_15> {
    proof fn lemma_in_bounds() {
        Self::lemma_index();
    }
}

impl IsPathForArray<27> for TStr<Str_15> {
    proof fn lemma_in_bounds() {
        Self::lemma_index();
    }
}

impl IsPathForArray<28> for TStr<Str_15> {
    proof fn lemma_in_bounds() {
        Self::lemma_index();
    }
}

impl IsPathForArray<29> for TStr<Str_15> {
    proof fn lemma_in_bounds() {
        Self::lemma_index();
    }
}

impl IsPathForArray<30> for TStr<Str_15> {
    proof fn lemma_in_bounds() {
        Self::lemma_index();
    }
}

impl IsPathForArray<31> for TStr<Str_15> {
    proof fn lemma_in_bounds() {
        Self::lemma_index();
    }
}

impl IsPathForArray<32> for TStr<Str_15> {
    proof fn lemma_in_bounds() {
        Self::lemma_index();
    }
}

impl IsPathForArray<17> for TStr<Str_16> {
    proof fn lemma_in_bounds() {
        Self::lemma_index();
    }
}

impl IsPathForArray<18> for TStr<Str_16> {
    proof fn lemma_in_bounds() {
        Self::lemma_index();
    }
}

impl IsPathForArray<19> for TStr<Str_16> {
    proof fn lemma_in_bounds() {
        Self::lemma_index();
    }
}

impl IsPathForArray<20> for TStr<Str_16> {
    proof fn lemma_in_bounds() {
        Self::lemma_index();
    }
}

impl IsPathForArray<21> for TStr<Str_16> {
    proof fn lemma_in_bounds() {
        Self::lemma_index();
    }
}

impl IsPathForArray<22> for TStr<Str_16> {
    proof fn lemma_in_bounds() {
        Self::lemma_index();
    }
}

impl IsPathForArray<23> for TStr<Str_16> {
    proof fn lemma_in_bounds() {
        Self::lemma_index();
    }
}

impl IsPathForArray<24> for TStr<Str_16> {
    proof fn lemma_in_bounds() {
        Self::lemma_index();
    }
}

impl IsPathForArray<25> for TStr<Str_16> {
    proof fn lemma_in_bounds() {
        Self::lemma_index();
    }
}

impl IsPathForArray<26> for TStr<Str_16> {
    proof fn lemma_in_bounds() {
        Self::lemma_index();
    }
}

impl IsPathForArray<27> for TStr<Str_16> {
    proof fn lemma_in_bounds() {
        Self::lemma_index();
    }
}

impl IsPathForArray<28> for TStr<Str_16> {
    proof fn lemma_in_bounds() {
        Self::lemma_index();
    }
}

impl IsPathForArray<29> for TStr<Str_16> {
    proof fn lemma_in_bounds() {
        Self::lemma_index();
    }
}

impl IsPathForArray<30> for TStr<Str_16> {
    proof fn lemma_in_bounds() {
        Self::lemma_index();
    }
}

impl IsPathForArray<31> for TStr<Str_16> {
    proof fn lemma_in_bounds() {
        Self::lemma_index();
    }
}

impl IsPathForArray<32> for TStr<Str_16> {
    proof fn lemma_in_bounds() {
        Self::lemma_index();
    }
}

impl IsPathForArray<18> for TStr<Str_17> {
    proof fn lemma_in_bounds() {
        Self::lemma_index();
    }
}

impl IsPathForArray<19> for TStr<Str_17> {
    proof fn lemma_in_bounds() {
        Self::lemma_index();
    }
}

impl IsPathForArray<20> for TStr<Str_17> {
    proof fn lemma_in_bounds() {
        Self::lemma_index();
    }
}

impl IsPathForArray<21> for TStr<Str_17> {
    proof fn lemma_in_bounds() {
        Self::lemma_index();
    }
}

impl IsPathForArray<22> for TStr<Str_17> {
    proof fn lemma_in_bounds() {
        Self::lemma_index();
    }
}

impl IsPathForArray<23> for TStr<Str_17> {
    proof fn lemma_in_bounds() {
        Self::lemma_index();
    }
}

impl IsPathForArray<24> for TStr<Str_17> {
    proof fn lemma_in_bounds() {
        Self::lemma_index();
    }
}

impl IsPathForArray<25> for TStr<Str_17> {
    proof fn lemma_in_bounds() {
        Self::lemma_index();
    }
}

impl IsPathForArray<26> for TStr<Str_17> {
    proof fn lemma_in_bounds() {
        Self::lemma_index();
    }
}

impl IsPathForArray<27> for TStr<Str_17> {
    proof fn lemma_in_bounds() {
        Self::lemma_index();
    }
}

impl IsPathForArray<28> for TStr<Str_17> {
    proof fn lemma_in_bounds() {
        Self::lemma_index();
    }
}

impl IsPathForArray<29> for TStr<Str_17> {
    proof fn lemma_in_bounds() {
        Self::lemma_index();
    }
}

impl IsPathForArray<30> for TStr<Str_17> {
    proof fn lemma_in_bounds() {
        Self::lemma_index();
    }
}

impl IsPathForArray<31> for TStr<Str_17> {
    proof fn lemma_in_bounds() {
        Self::lemma_index();
    }
}

impl IsPathForArray<32> for TStr<Str_17> {
    proof fn lemma_in_bounds() {
        Self::lemma_index();
    }
}

impl IsPathForArray<19> for TStr<Str_18> {
    proof fn lemma_in_bounds() {
        Self::lemma_index();
    }
}

impl IsPathForArray<20> for TStr<Str_18> {
    proof fn lemma_in_bounds() {
        Self::lemma_index();
    }
}

impl IsPathForArray<21> for TStr<Str_18> {
    proof fn lemma_in_bounds() {
        Self::lemma_index();
    }
}

impl IsPathForArray<22> for TStr<Str_18> {
    proof fn lemma_in_bounds() {
        Self::lemma_index();
    }
}

impl IsPathForArray<23> for TStr<Str_18> {
    proof fn lemma_in_bounds() {
        Self::lemma_index();
    }
}

impl IsPathForArray<24> for TStr<Str_18> {
    proof fn lemma_in_bounds() {
        Self::lemma_index();
    }
}

impl IsPathForArray<25> for TStr<Str_18> {
    proof fn lemma_in_bounds() {
        Self::lemma_index();
    }
}

impl IsPathForArray<26> for TStr<Str_18> {
    proof fn lemma_in_bounds() {
        Self::lemma_index();
    }
}

impl IsPathForArray<27> for TStr<Str_18> {
    proof fn lemma_in_bounds() {
        Self::lemma_index();
    }
}

impl IsPathForArray<28> for TStr<Str_18> {
    proof fn lemma_in_bounds() {
        Self::lemma_index();
    }
}

impl IsPathForArray<29> for TStr<Str_18> {
    proof fn lemma_in_bounds() {
        Self::lemma_index();
    }
}

impl IsPathForArray<30> for TStr<Str_18> {
    proof fn lemma_in_bounds() {
        Self::lemma_index();
    }
}

impl IsPathForArray<31> for TStr<Str_18> {
    proof fn lemma_in_bounds() {
        Self::lemma_index();
    }
}

impl IsPathForArray<32> for TStr<Str_18> {
    proof fn lemma_in_bounds() {
        Self::lemma_index();
    }
}

impl IsPathForArray<20> for TStr<Str_19> {
    proof fn lemma_in_bounds() {
        Self::lemma_index();
    }
}

impl IsPathForArray<21> for TStr<Str_19> {
    proof fn lemma_in_bounds() {
        Self::lemma_index();
    }
}

impl IsPathForArray<22> for TStr<Str_19> {
    proof fn lemma_in_bounds() {
        Self::lemma_index();
    }
}

impl IsPathForArray<23> for TStr<Str_19> {
    proof fn lemma_in_bounds() {
        Self::lemma_index();
    }
}

impl IsPathForArray<24> for TStr<Str_19> {
    proof fn lemma_in_bounds() {
        Self::lemma_index();
    }
}

impl IsPathForArray<25> for TStr<Str_19> {
    proof fn lemma_in_bounds() {
        Self::lemma_index();
    }
}

impl IsPathForArray<26> for TStr<Str_19> {
    proof fn lemma_in_bounds() {
        Self::lemma_index();
    }
}

impl IsPathForArray<27> for TStr<Str_19> {
    proof fn lemma_in_bounds() {
        Self::lemma_index();
    }
}

impl IsPathForArray<28> for TStr<Str_19> {
    proof fn lemma_in_bounds() {
        Self::lemma_index();
    }
}

impl IsPathForArray<29> for TStr<Str_19> {
    proof fn lemma_in_bounds() {
        Self::lemma_index();
    }
}

impl IsPathForArray<30> for TStr<Str_19> {
    proof fn lemma_in_bounds() {
        Self::lemma_index();
    }
}

impl IsPathForArray<31> for TStr<Str_19> {
    proof fn lemma_in_bounds() {
        Self::lemma_index();
    }
}

impl IsPathForArray<32> for TStr<Str_19> {
    proof fn lemma_in_bounds() {
        Self::lemma_index();
    }
}

impl IsPathForArray<21> for TStr<Str_20> {
    proof fn lemma_in_bounds() {
        Self::lemma_index();
    }
}

impl IsPathForArray<22> for TStr<Str_20> {
    proof fn lemma_in_bounds() {
        Self::lemma_index();
    }
}

impl IsPathForArray<23> for TStr<Str_20> {
    proof fn lemma_in_bounds() {
        Self::lemma_index();
    }
}

impl IsPathForArray<24> for TStr<Str_20> {
    proof fn lemma_in_bounds() {
        Self::lemma_index();
    }
}

impl IsPathForArray<25> for TStr<Str_20> {
    proof fn lemma_in_bounds() {
        Self::lemma_index();
    }
}

impl IsPathForArray<26> for TStr<Str_20> {
    proof fn lemma_in_bounds() {
        Self::lemma_index();
    }
}

impl IsPathForArray<27> for TStr<Str_20> {
    proof fn lemma_in_bounds() {
        Self::lemma_index();
    }
}

impl IsPathForArray<28> for TStr<Str_20> {
    proof fn lemma_in_bounds() {
        Self::lemma_index();
    }
}

impl IsPathForArray<29> for TStr<Str_20> {
    proof fn lemma_in_bounds() {
        Self::lemma_index();
    }
}

impl IsPathForArray<30> for TStr<Str_20> {
    proof fn lemma_in_bounds() {
        Self::lemma_index();
    }
}

impl IsPathForArray<31> for TStr<Str_20> {
    proof fn lemma_in_bounds() {
        Self::lemma_index();
    }
}

impl IsPathForArray<32> for TStr<Str_20> {
    proof fn lemma_in_bounds() {
        Self::lemma_index();
    }
}

impl IsPathForArray<22> for TStr<Str_21> {
    proof fn lemma_in_bounds() {
        Self::lemma_index();
    }
}

impl IsPathForArray<23> for TStr<Str_21> {
    proof fn lemma_in_bounds() {
        Self::lemma_index();
    }
}

impl IsPathForArray<24> for TStr<Str_21> {
    proof fn lemma_in_bounds() {
        Self::lemma_index();
    }
}

impl IsPathForArray<25> for TStr<Str_21> {
    proof fn lemma_in_bounds() {
        Self::lemma_index();
    }
}

impl IsPathForArray<26> for TStr<Str_21> {
    proof fn lemma_in_bounds() {
        Self::lemma_index();
    }
}

impl IsPathForArray<27> for TStr<Str_21> {
    proof fn lemma_in_bounds() {
        Self::lemma_index();
    }
}

impl IsPathForArray<28> for TStr<Str_21> {
    proof fn lemma_in_bounds() {
        Self::lemma_index();
    }
}

impl IsPathForArray<29> for TStr<Str_21> {
    proof fn lemma_in_bounds() {
        Self::lemma_index();
    }
}

impl IsPathForArray<30> for TStr<Str_21> {
    proof fn lemma_in_bounds() {
        Self::lemma_index();
    }
}

impl IsPathForArray<31> for TStr<Str_21> {
    proof fn lemma_in_bounds() {
        Self::lemma_index();
    }
}

impl IsPathForArray<32> for TStr<Str_21> {
    proof fn lemma_in_bounds() {
        Self::lemma_index();
    }
}

impl IsPathForArray<23> for TStr<Str_22> {
    proof fn lemma_in_bounds() {
        Self::lemma_index();
    }
}

impl IsPathForArray<24> for TStr<Str_22> {
    proof fn lemma_in_bounds() {
        Self::lemma_index();
    }
}

impl IsPathForArray<25> for TStr<Str_22> {
    proof fn lemma_in_bounds() {
        Self::lemma_index();
    }
}

impl IsPathForArray<26> for TStr<Str_22> {
    proof fn lemma_in_bounds() {
        Self::lemma_index();
    }
}

impl IsPathForArray<27> for TStr<Str_22> {
    proof fn lemma_in_bounds() {
        Self::lemma_index();
    }
}

impl IsPathForArray<28> for TStr<Str_22> {
    proof fn lemma_in_bounds() {
        Self::lemma_index();
    }
}

impl IsPathForArray<29> for TStr<Str_22> {
    proof fn lemma_in_bounds() {
        Self::lemma_index();
    }
}

impl IsPathForArray<30> for TStr<Str_22> {
    proof fn lemma_in_bounds() {
        Self::lemma_index();
    }
}

impl IsPathForArray<31> for TStr<Str_22> {
    proof fn lemma_in_bounds() {
        Self::lemma_index();
    }
}

impl IsPathForArray<32> for TStr<Str_22> {
    proof fn lemma_in_bounds() {
        Self::lemma_index();
    }
}

impl IsPathForArray<24> for TStr<Str_23> {
    proof fn lemma_in_bounds() {
        Self::lemma_index();
    }
}

impl IsPathForArray<25> for TStr<Str_23> {
    proof fn lemma_in_bounds() {
        Self::lemma_index();
    }
}

impl IsPathForArray<26> for TStr<Str_23> {
    proof fn lemma_in_bounds() {
        Self::lemma_index();
    }
}

impl IsPathForArray<27> for TStr<Str_23> {
    proof fn lemma_in_bounds() {
        Self::lemma_index();
    }
}

impl IsPathForArray<28> for TStr<Str_23> {
    proof fn lemma_in_bounds() {
        Self::lemma_index();
    }
}

impl IsPathForArray<29> for TStr<Str_23> {
    proof fn lemma_in_bounds() {
        Self::lemma_index();
    }
}

impl IsPathForArray<30> for TStr<Str_23> {
    proof fn lemma_in_bounds() {
        Self::lemma_index();
    }
}

impl IsPathForArray<31> for TStr<Str_23> {
    proof fn lemma_in_bounds() {
        Self::lemma_index();
    }
}

impl IsPathForArray<32> for TStr<Str_23> {
    proof fn lemma_in_bounds() {
        Self::lemma_index();
    }
}

impl IsPathForArray<25> for TStr<Str_24> {
    proof fn lemma_in_bounds() {
        Self::lemma_index();
    }
}

impl IsPathForArray<26> for TStr<Str_24> {
    proof fn lemma_in_bounds() {
        Self::lemma_index();
    }
}

impl IsPathForArray<27> for TStr<Str_24> {
    proof fn lemma_in_bounds() {
        Self::lemma_index();
    }
}

impl IsPathForArray<28> for TStr<Str_24> {
    proof fn lemma_in_bounds() {
        Self::lemma_index();
    }
}

impl IsPathForArray<29> for TStr<Str_24> {
    proof fn lemma_in_bounds() {
        Self::lemma_index();
    }
}

impl IsPathForArray<30> for TStr<Str_24> {
    proof fn lemma_in_bounds() {
        Self::lemma_index();
    }
}

impl IsPathForArray<31> for TStr<Str_24> {
    proof fn lemma_in_bounds() {
        Self::lemma_index();
    }
}

impl IsPathForArray<32> for TStr<Str_24> {
    proof fn lemma_in_bounds() {
        Self::lemma_index();
    }
}

impl IsPathForArray<26> for TStr<Str_25> {
    proof fn lemma_in_bounds() {
        Self::lemma_index();
    }
}

impl IsPathForArray<27> for TStr<Str_25> {
    proof fn lemma_in_bounds() {
        Self::lemma_index();
    }
}

impl IsPathForArray<28> for TStr<Str_25> {
    proof fn lemma_in_bounds() {
        Self::lemma_index();
    }
}

impl IsPathForArray<29> for TStr<Str_25> {
    proof fn lemma_in_bounds() {
        Self::lemma_index();
    }
}

impl IsPathForArray<30> for TStr<Str_25> {
    proof fn lemma_in_bounds() {
        Self::lemma_index();
    }
}

impl IsPathForArray<31> for TStr<Str_25> {
    proof fn lemma_in_bounds() {
        Self::lemma_index();
    }
}

impl IsPathForArray<32> for TStr<Str_25> {
    proof fn lemma_in_bounds() {
        Self::lemma_index();
    }
}

impl IsPathForArray<27> for TStr<Str_26> {
    proof fn lemma_in_bounds() {
        Self::lemma_index();
    }
}

impl IsPathForArray<28> for TStr<Str_26> {
    proof fn lemma_in_bounds() {
        Self::lemma_index();
    }
}

impl IsPathForArray<29> for TStr<Str_26> {
    proof fn lemma_in_bounds() {
        Self::lemma_index();
    }
}

impl IsPathForArray<30> for TStr<Str_26> {
    proof fn lemma_in_bounds() {
        Self::lemma_index();
    }
}

impl IsPathForArray<31> for TStr<Str_26> {
    proof fn lemma_in_bounds() {
        Self::lemma_index();
    }
}

impl IsPathForArray<32> for TStr<Str_26> {
    proof fn lemma_in_bounds() {
        Self::lemma_index();
    }
}

impl IsPathForArray<28> for TStr<Str_27> {
    proof fn lemma_in_bounds() {
        Self::lemma_index();
    }
}

impl IsPathForArray<29> for TStr<Str_27> {
    proof fn lemma_in_bounds() {
        Self::lemma_index();
    }
}

impl IsPathForArray<30> for TStr<Str_27> {
    proof fn lemma_in_bounds() {
        Self::lemma_index();
    }
}

impl IsPathForArray<31> for TStr<Str_27> {
    proof fn lemma_in_bounds() {
        Self::lemma_index();
    }
}

impl IsPathForArray<32> for TStr<Str_27> {
    proof fn lemma_in_bounds() {
        Self::lemma_index();
    }
}

impl IsPathForArray<29> for TStr<Str_28> {
    proof fn lemma_in_bounds() {
        Self::lemma_index();
    }
}

impl IsPathForArray<30> for TStr<Str_28> {
    proof fn lemma_in_bounds() {
        Self::lemma_index();
    }
}

impl IsPathForArray<31> for TStr<Str_28> {
    proof fn lemma_in_bounds() {
        Self::lemma_index();
    }
}

impl IsPathForArray<32> for TStr<Str_28> {
    proof fn lemma_in_bounds() {
        Self::lemma_index();
    }
}

impl IsPathForArray<30> for TStr<Str_29> {
    proof fn lemma_in_bounds() {
        Self::lemma_index();
    }
}

impl IsPathForArray<31> for TStr<Str_29> {
    proof fn lemma_in_bounds() {
        Self::lemma_index();
    }
}

impl IsPathForArray<32> for TStr<Str_29> {
    proof fn lemma_in_bounds() {
        Self::lemma_index();
    }
}

impl IsPathForArray<31> for TStr<Str_30> {
    proof fn lemma_in_bounds() {
        Self::lemma_index();
    }
}

impl IsPathForArray<32> for TStr<Str_30> {
    proof fn lemma_in_bounds() {
        Self::lemma_index();
    }
}

impl IsPathForArray<32> for TStr<Str_31> {
    proof fn lemma_in_bounds() {
        Self::lemma_index();
    }
}

} // verus!
