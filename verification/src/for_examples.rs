//! Example types with field accessors, used in documentation and tests.
#![allow(non_camel_case_types)]
use crate::enums::{IsVariant, VariantCount};
use crate::field::split_fields::{
    FieldSlots, SplitFieldsInto, SplitFieldsMut, TakeFieldInto, TakeFieldMut,
};
use crate::field::{
    FieldType, GetFieldImpl, GetFieldMutImpl, GetVariantField, GetVariantFieldMut,
    InfallibleAccess, IntoFieldImpl, IntoVariantField,
};
use crate::field_path::names::{
    Str_0, Str_1, Str_2, Str_3, Str_4, Str_5, Str_6, Str_7, Str_8, Str_9, Str_10, Str_11, Str_12,
    Str_13, Str_14, Str_15, Str_16, Str_17, Str_18, Str_19, Str_20, Str_21, Str_22, Str_23, Str_24,
    Str_25, Str_26, Str_27, Str_28, Str_29, Str_30, Str_31, Str_32, Str_33, Str_34, Str_35, Str_36,
    Str_37, Str_38, Str_39, Str_40, Str_41, Str_42, Str_43, Str_44, Str_45, Str_46, Str_47, Str_48,
    Str_49, Str_50, Str_51, Str_52, Str_53, Str_54, Str_55, Str_56, Str_57, Str_58, Str_59, Str_60,
    Str_61, Str_62, Str_63, Str_Bar, Str_Baz, Str_Boom, Str_Err, Str_Exploded, Str_FileNotFound,
    Str_Foo, Str_Limbs, Str_None, Str_Nope, Str_Ok, Str_Qux, Str_Shengcai, Str_Shuye, Str_Some,
    Str_U32, Str_U64, Str_Warn, Str_Ziemniak, Str_a, Str_b, Str_bar, Str_baz,
    Str_centymetry_objetosci, Str_foo, Str_foom, Str_hands, Str_legs, Str_noodles, Str_uh,
    Str_what,
};
use crate::field_path::{TStr, TStrName, VariantField};
use vstd::prelude::*;

pub mod accessor_laws;

verus! {

/// A tuple struct with one field.
#[derive(Debug, Copy, Clone, PartialEq)]
pub struct Tuple1<A>(
    pub Option<A>,
);

/// A tuple struct with two fields.
#[derive(Debug, Copy, Clone, PartialEq)]
pub struct Tuple2<A, B>(
    pub Option<A>,
    pub B,
);

/// A tuple struct with three fields.
#[derive(Debug, Copy, Clone, PartialEq)]
pub struct Tuple3<A, B, C>(
    pub Option<A>,
    pub B,
    pub C,
);

/// A tuple struct with four fields.
#[derive(Debug, Copy, Clone, PartialEq)]
pub struct Tuple4<A, B, C, D>(
    pub Option<A>,
    pub B,
    pub C,
    pub D,
);

/// A tuple struct with sixteen fields.
#[derive(Debug, Copy, Clone, PartialEq)]
pub struct Tuple16<P01, P02, P03, P04, P05, P06, P07, P08, P09, P10, P11, P12, P13, P14, P15, P16>(
    pub P01,
    pub P02,
    pub P03,
    pub P04,
    pub P05,
    pub P06,
    pub P07,
    pub P08,
    pub P09,
    pub P10,
    pub P11,
    pub P12,
    pub P13,
    pub P14,
    pub P15,
    pub P16,
);

/// A struct with the fields `foo` and `bar`.
#[derive(Debug, Copy, Clone, PartialEq)]
pub struct Struct2<A, B> {
    pub foo: Option<A>,
    pub bar: B,
}

/// A struct with the fields `foo`, `bar` and `baz`.
#[derive(Debug, Copy, Clone, PartialEq)]
pub struct Struct3<A, B, C> {
    pub foo: Option<A>,
    pub bar: B,
    pub baz: C,
}

/// A struct with the field `foo`.
#[derive(Debug, Copy, Clone, PartialEq)]
pub struct StructFoo<T> {
    pub foo: T,
}

/// A struct with the field `bar`.
#[derive(Debug, Copy, Clone, PartialEq)]
pub struct StructBar<T> {
    pub bar: T,
}

/// A struct that delegates its fields to its private field `bar`:
/// the fields of a `Delegating<T>` are those of the `T`.
#[derive(Debug, Copy, Clone, PartialEq)]
pub struct Delegating<T> {
    bar: T,
}

impl<T> Delegating<T> {
    /// Wraps `bar`.
    pub fn new(bar: T) -> (r: Self)
        ensures
            r.inner() == bar,
    {
        Delegating { bar }
    }

    /// The value that the fields are delegated to.
    pub closed spec fn inner(self) -> T {
        self.bar
    }
}

/// An enum with a `Bar` variant holding a string.
#[derive(Debug, Copy, Clone, PartialEq)]
pub enum WithBar {
    Nope,
    Bar(&'static str),
}

/// An enum with a `Boom` variant with the fields `a` and `b`.
#[derive(Debug, Copy, Clone, PartialEq)]
pub enum WithBoom {
    Nope,
    Boom { a: &'static str, b: &'static [u16] },
}

/// An enum with the variants `Nope`, `Boom` and `Exploded`.
#[derive(Debug, Copy, Clone, PartialEq)]
pub enum Bomb {
    Nope,
    Boom { a: &'static str, b: &'static [u16] },
    Exploded,
}

/// An enum of one variant, whose fields are optional.
#[derive(Debug, Copy, Clone, PartialEq)]
pub enum EnumOptA {
    Limbs { legs: Option<usize>, hands: Option<usize> },
}

/// An enum of one variant, with optional fields and a required one.
#[derive(Debug, Copy, Clone, PartialEq)]
pub enum EnumOptFlying {
    Limbs { legs: Option<usize>, hands: Option<usize>, noodles: usize },
}

/// An enum whose variants and fields are accessed by other names:
/// `Potato` as `Ziemniak` with `volume_cm` as `centymetry objętości`,
/// and `Letuce` as `生菜` with `leaves` as `树叶`.
#[derive(Debug, PartialEq)]
pub enum Vegetable {
    Potato { volume_cm: u32 },
    Letuce { leaves: u32 },
}

/// An enum of one variant with two fields.
#[derive(Debug, Copy, Clone, PartialEq)]
pub enum Enum1 {
    Foo(u8, u16),
}

/// The outcome of comparing two values, with the variants of
/// `std::cmp::Ordering`; the example enums below hold it in their fields.
#[derive(Debug, Copy, Clone, PartialEq, Eq)]
pub enum Comparison {
    Less,
    Equal,
    Greater,
}

/// An enum with the variants `Foo`, `Bar`, `Baz` and `Boom`.
#[derive(Debug, Copy, Clone, PartialEq)]
pub enum Variants {
    Foo(u32, u64),
    Bar(&'static str),
    Baz(Option<Comparison>),
    Boom { a: Option<&'static [u8]>, b: &'static [u16] },
}

/// An enum with the variants `Foo` and `Bar`.
#[derive(Debug, Copy, Clone, PartialEq)]
pub enum Enum2 {
    Foo(u8, u16),
    Bar(Comparison, Option<u64>),
}

/// An enum with the variants `Foo`, `Bar` and `Baz`.
#[derive(Debug, Copy, Clone, PartialEq)]
pub enum Enum3 {
    Foo(u8, u16),
    Bar(Comparison, Option<u64>),
    Baz { foom: &'static str },
}

/// An enum with the variants `Foo`, `Bar`, `Baz` and `Qux`.
#[derive(Debug, Copy, Clone, PartialEq)]
pub enum Enum4 {
    Foo(u8, u16),
    Bar(Comparison, Option<u64>),
    Baz { foom: &'static str },
    Qux { uh: [u8; 4], what: (bool, bool) },
}

/// A value and a reference.
#[derive(Debug, Copy, Clone)]
pub struct RefWrapper<'a, T>(
    pub T,
    pub &'a T,
);

/// An enum whose variants wrap a [`RefWrapper`], whose fields are the
/// variant's fields.
#[derive(Debug, Copy, Clone)]
pub enum EnumWithNewtype<'a> {
    U32(RefWrapper<'a, u32>),
    U64(RefWrapper<'a, u64>),
}

/// An enum with the same fields as [`EnumWithNewtype`], held directly.
#[derive(Debug, Copy, Clone)]
pub enum EnumWithoutNewtype<'a> {
    U32(u32, &'a u32),
    U64(u64, &'a u64),
}

/// A tuple struct with sixty-four fields.
#[derive(Debug, Copy, Clone, PartialEq)]
pub struct MaxFields<T>(
    pub T,
    pub T,
    pub T,
    pub T,
    pub T,
    pub T,
    pub T,
    pub T,
    pub T,
    pub T,
    pub T,
    pub T,
    pub T,
    pub T,
    pub T,
    pub T,
    pub T,
    pub T,
    pub T,
    pub T,
    pub T,
    pub T,
    pub T,
    pub T,
    pub T,
    pub T,
    pub T,
    pub T,
    pub T,
    pub T,
    pub T,
    pub T,
    pub T,
    pub T,
    pub T,
    pub T,
    pub T,
    pub T,
    pub T,
    pub T,
    pub T,
    pub T,
    pub T,
    pub T,
    pub T,
    pub T,
    pub T,
    pub T,
    pub T,
    pub T,
    pub T,
    pub T,
    pub T,
    pub T,
    pub T,
    pub T,
    pub T,
    pub T,
    pub T,
    pub T,
    pub T,
    pub T,
    pub T,
    pub T,
);

/// An enum with the variants of `Option`, accessed as `Some` and `None`.
#[derive(Debug, Copy, Clone, PartialEq)]
pub enum OptionLike<T> {
    Some_(T),
    None_,
}

/// An enum with the variants of `Option` (accessed as `Some` and `None`) and one more.
#[derive(Debug, Copy, Clone, PartialEq)]
pub enum ExtraOption<T> {
    Some_(T),
    None_,
    FileNotFound,
}

/// An enum with the variants of `Result`, accessed as `Ok` and `Err`.
#[derive(Debug, Copy, Clone, PartialEq)]
pub enum ResultLike<T, E> {
    Ok_(T),
    Err_(E),
}

/// An enum with the variants of `Result` (accessed as `Ok` and `Err`) and one more.
#[derive(Debug, Copy, Clone, PartialEq)]
pub enum ExtraResult<T, E> {
    Ok_(T),
    Err_(E),
    Warn,
}

impl<A> FieldType<TStr<Str_0>> for Tuple1<A> {
    type Ty = Option<A>;
}

impl<A> GetFieldImpl<TStr<Str_0>> for Tuple1<A> {
    type Error = InfallibleAccess;

    open spec fn get_field_spec(&self) -> Result<&Option<A>, InfallibleAccess> {
        Ok(&self.0)
    }

    fn get_field_(&self, path: TStr<Str_0>) -> (r: Result<&Option<A>, InfallibleAccess>) {
        Ok(&self.0)
    }
}

impl<A> GetFieldMutImpl<TStr<Str_0>> for Tuple1<A> {
    open spec fn field_updated(old: &Self, new: &Self, v: Option<A>) -> bool {
        new.0 == v
    }

    open spec fn unchanged(old: &Self, new: &Self) -> bool {
        *new == *old
    }

    proof fn lemma_read_after_write(old: &Self, new: &Self, v: Option<A>) {
    }

    proof fn lemma_unchanged_reads_same(old: &Self, new: &Self) {
    }

    fn get_field_mut_(&mut self, path: TStr<Str_0>) -> (r: Result<&mut Option<A>, InfallibleAccess>) {
        Ok(&mut self.0)
    }
}

impl<A> IntoFieldImpl<TStr<Str_0>> for Tuple1<A> {
    fn into_field_(self, path: TStr<Str_0>) -> (r: Result<Option<A>, InfallibleAccess>) {
        Ok(self.0)
    }
}

impl<A, B> FieldType<TStr<Str_0>> for Tuple2<A, B> {
    type Ty = Option<A>;
}

impl<A, B> GetFieldImpl<TStr<Str_0>> for Tuple2<A, B> {
    type Error = InfallibleAccess;

    open spec fn get_field_spec(&self) -> Result<&Option<A>, InfallibleAccess> {
        Ok(&self.0)
    }

    fn get_field_(&self, path: TStr<Str_0>) -> (r: Result<&Option<A>, InfallibleAccess>) {
        Ok(&self.0)
    }
}

impl<A, B> GetFieldMutImpl<TStr<Str_0>> for Tuple2<A, B> {
    open spec fn field_updated(old: &Self, new: &Self, v: Option<A>) -> bool {
        new.0 == v && new.1 == old.1
    }

    open spec fn unchanged(old: &Self, new: &Self) -> bool {
        *new == *old
    }

    proof fn lemma_read_after_write(old: &Self, new: &Self, v: Option<A>) {
    }

    proof fn lemma_unchanged_reads_same(old: &Self, new: &Self) {
    }

    fn get_field_mut_(&mut self, path: TStr<Str_0>) -> (r: Result<&mut Option<A>, InfallibleAccess>) {
        Ok(&mut self.0)
    }
}

impl<A, B> IntoFieldImpl<TStr<Str_0>> for Tuple2<A, B> {
    fn into_field_(self, path: TStr<Str_0>) -> (r: Result<Option<A>, InfallibleAccess>) {
        Ok(self.0)
    }
}

impl<A, B> FieldType<TStr<Str_1>> for Tuple2<A, B> {
    type Ty = B;
}

impl<A, B> GetFieldImpl<TStr<Str_1>> for Tuple2<A, B> {
    type Error = InfallibleAccess;

    open spec fn get_field_spec(&self) -> Result<&B, InfallibleAccess> {
        Ok(&self.1)
    }

    fn get_field_(&self, path: TStr<Str_1>) -> (r: Result<&B, InfallibleAccess>) {
        Ok(&self.1)
    }
}

impl<A, B> GetFieldMutImpl<TStr<Str_1>> for Tuple2<A, B> {
    open spec fn field_updated(old: &Self, new: &Self, v: B) -> bool {
        new.1 == v && new.0 == old.0
    }

    open spec fn unchanged(old: &Self, new: &Self) -> bool {
        *new == *old
    }

    proof fn lemma_read_after_write(old: &Self, new: &Self, v: B) {
    }

    proof fn lemma_unchanged_reads_same(old: &Self, new: &Self) {
    }

    fn get_field_mut_(&mut self, path: TStr<Str_1>) -> (r: Result<&mut B, InfallibleAccess>) {
        Ok(&mut self.1)
    }
}

impl<A, B> IntoFieldImpl<TStr<Str_1>> for Tuple2<A, B> {
    fn into_field_(self, path: TStr<Str_1>) -> (r: Result<B, InfallibleAccess>) {
        Ok(self.1)
    }
}

impl<A, B, C> FieldType<TStr<Str_0>> for Tuple3<A, B, C> {
    type Ty = Option<A>;
}

impl<A, B, C> GetFieldImpl<TStr<Str_0>> for Tuple3<A, B, C> {
    type Error = InfallibleAccess;

    open spec fn get_field_spec(&self) -> Result<&Option<A>, InfallibleAccess> {
        Ok(&self.0)
    }

    fn get_field_(&self, path: TStr<Str_0>) -> (r: Result<&Option<A>, InfallibleAccess>) {
        Ok(&self.0)
    }
}

impl<A, B, C> GetFieldMutImpl<TStr<Str_0>> for Tuple3<A, B, C> {
    open spec fn field_updated(old: &Self, new: &Self, v: Option<A>) -> bool {
        new.0 == v && new.1 == old.1 && new.2 == old.2
    }

    open spec fn unchanged(old: &Self, new: &Self) -> bool {
        *new == *old
    }

    proof fn lemma_read_after_write(old: &Self, new: &Self, v: Option<A>) {
    }

    proof fn lemma_unchanged_reads_same(old: &Self, new: &Self) {
    }

    fn get_field_mut_(&mut self, path: TStr<Str_0>) -> (r: Result<&mut Option<A>, InfallibleAccess>) {
        Ok(&mut self.0)
    }
}

impl<A, B, C> IntoFieldImpl<TStr<Str_0>> for Tuple3<A, B, C> {
    fn into_field_(self, path: TStr<Str_0>) -> (r: Result<Option<A>, InfallibleAccess>) {
        Ok(self.0)
    }
}

impl<A, B, C> FieldType<TStr<Str_1>> for Tuple3<A, B, C> {
    type Ty = B;
}

impl<A, B, C> GetFieldImpl<TStr<Str_1>> for Tuple3<A, B, C> {
    type Error = InfallibleAccess;

    open spec fn get_field_spec(&self) -> Result<&B, InfallibleAccess> {
        Ok(&self.1)
    }

    fn get_field_(&self, path: TStr<Str_1>) -> (r: Result<&B, InfallibleAccess>) {
        Ok(&self.1)
    }
}

impl<A, B, C> GetFieldMutImpl<TStr<Str_1>> for Tuple3<A, B, C> {
    open spec fn field_updated(old: &Self, new: &Self, v: B) -> bool {
        new.1 == v && new.0 == old.0 && new.2 == old.2
    }

    open spec fn unchanged(old: &Self, new: &Self) -> bool {
        *new == *old
    }

    proof fn lemma_read_after_write(old: &Self, new: &Self, v: B) {
    }

    proof fn lemma_unchanged_reads_same(old: &Self, new: &Self) {
    }

    fn get_field_mut_(&mut self, path: TStr<Str_1>) -> (r: Result<&mut B, InfallibleAccess>) {
        Ok(&mut self.1)
    }
}

impl<A, B, C> IntoFieldImpl<TStr<Str_1>> for Tuple3<A, B, C> {
    fn into_field_(self, path: TStr<Str_1>) -> (r: Result<B, InfallibleAccess>) {
        Ok(self.1)
    }
}

impl<A, B, C> FieldType<TStr<Str_2>> for Tuple3<A, B, C> {
    type Ty = C;
}

impl<A, B, C> GetFieldImpl<TStr<Str_2>> for Tuple3<A, B, C> {
    type Error = InfallibleAccess;

    open spec fn get_field_spec(&self) -> Result<&C, InfallibleAccess> {
        Ok(&self.2)
    }

    fn get_field_(&self, path: TStr<Str_2>) -> (r: Result<&C, InfallibleAccess>) {
        Ok(&self.2)
    }
}

impl<A, B, C> GetFieldMutImpl<TStr<Str_2>> for Tuple3<A, B, C> {
    open spec fn field_updated(old: &Self, new: &Self, v: C) -> bool {
        new.2 == v && new.0 == old.0 && new.1 == old.1
    }

    open spec fn unchanged(old: &Self, new: &Self) -> bool {
        *new == *old
    }

    proof fn lemma_read_after_write(old: &Self, new: &Self, v: C) {
    }

    proof fn lemma_unchanged_reads_same(old: &Self, new: &Self) {
    }

    fn get_field_mut_(&mut self, path: TStr<Str_2>) -> (r: Result<&mut C, InfallibleAccess>) {
        Ok(&mut self.2)
    }
}

impl<A, B, C> IntoFieldImpl<TStr<Str_2>> for Tuple3<A, B, C> {
    fn into_field_(self, path: TStr<Str_2>) -> (r: Result<C, InfallibleAccess>) {
        Ok(self.2)
    }
}

impl<A, B, C, D> FieldType<TStr<Str_0>> for Tuple4<A, B, C, D> {
    type Ty = Option<A>;
}

impl<A, B, C, D> GetFieldImpl<TStr<Str_0>> for Tuple4<A, B, C, D> {
    type Error = InfallibleAccess;

    open spec fn get_field_spec(&self) -> Result<&Option<A>, InfallibleAccess> {
        Ok(&self.0)
    }

    fn get_field_(&self, path: TStr<Str_0>) -> (r: Result<&Option<A>, InfallibleAccess>) {
        Ok(&self.0)
    }
}

impl<A, B, C, D> GetFieldMutImpl<TStr<Str_0>> for Tuple4<A, B, C, D> {
    open spec fn field_updated(old: &Self, new: &Self, v: Option<A>) -> bool {
        new.0 == v && new.1 == old.1 && new.2 == old.2 && new.3 == old.3
    }

    open spec fn unchanged(old: &Self, new: &Self) -> bool {
        *new == *old
    }

    proof fn lemma_read_after_write(old: &Self, new: &Self, v: Option<A>) {
    }

    proof fn lemma_unchanged_reads_same(old: &Self, new: &Self) {
    }

    fn get_field_mut_(&mut self, path: TStr<Str_0>) -> (r: Result<&mut Option<A>, InfallibleAccess>) {
        Ok(&mut self.0)
    }
}

impl<A, B, C, D> IntoFieldImpl<TStr<Str_0>> for Tuple4<A, B, C, D> {
    fn into_field_(self, path: TStr<Str_0>) -> (r: Result<Option<A>, InfallibleAccess>) {
        Ok(self.0)
    }
}

impl<A, B, C, D> FieldType<TStr<Str_1>> for Tuple4<A, B, C, D> {
    type Ty = B;
}

impl<A, B, C, D> GetFieldImpl<TStr<Str_1>> for Tuple4<A, B, C, D> {
    type Error = InfallibleAccess;

    open spec fn get_field_spec(&self) -> Result<&B, InfallibleAccess> {
        Ok(&self.1)
    }

    fn get_field_(&self, path: TStr<Str_1>) -> (r: Result<&B, InfallibleAccess>) {
        Ok(&self.1)
    }
}

impl<A, B, C, D> GetFieldMutImpl<TStr<Str_1>> for Tuple4<A, B, C, D> {
    open spec fn field_updated(old: &Self, new: &Self, v: B) -> bool {
        new.1 == v && new.0 == old.0 && new.2 == old.2 && new.3 == old.3
    }

    open spec fn unchanged(old: &Self, new: &Self) -> bool {
        *new == *old
    }

    proof fn lemma_read_after_write(old: &Self, new: &Self, v: B) {
    }

    proof fn lemma_unchanged_reads_same(old: &Self, new: &Self) {
    }

    fn get_field_mut_(&mut self, path: TStr<Str_1>) -> (r: Result<&mut B, InfallibleAccess>) {
        Ok(&mut self.1)
    }
}

impl<A, B, C, D> IntoFieldImpl<TStr<Str_1>> for Tuple4<A, B, C, D> {
    fn into_field_(self, path: TStr<Str_1>) -> (r: Result<B, InfallibleAccess>) {
        Ok(self.1)
    }
}

impl<A, B, C, D> FieldType<TStr<Str_2>> for Tuple4<A, B, C, D> {
    type Ty = C;
}

impl<A, B, C, D> GetFieldImpl<TStr<Str_2>> for Tuple4<A, B, C, D> {
    type Error = InfallibleAccess;

    open spec fn get_field_spec(&self) -> Result<&C, InfallibleAccess> {
        Ok(&self.2)
    }

    fn get_field_(&self, path: TStr<Str_2>) -> (r: Result<&C, InfallibleAccess>) {
        Ok(&self.2)
    }
}

impl<A, B, C, D> GetFieldMutImpl<TStr<Str_2>> for Tuple4<A, B, C, D> {
    open spec fn field_updated(old: &Self, new: &Self, v: C) -> bool {
        new.2 == v && new.0 == old.0 && new.1 == old.1 && new.3 == old.3
    }

    open spec fn unchanged(old: &Self, new: &Self) -> bool {
        *new == *old
    }

    proof fn lemma_read_after_write(old: &Self, new: &Self, v: C) {
    }

    proof fn lemma_unchanged_reads_same(old: &Self, new: &Self) {
    }

    fn get_field_mut_(&mut self, path: TStr<Str_2>) -> (r: Result<&mut C, InfallibleAccess>) {
        Ok(&mut self.2)
    }
}

impl<A, B, C, D> IntoFieldImpl<TStr<Str_2>> for Tuple4<A, B, C, D> {
    fn into_field_(self, path: TStr<Str_2>) -> (r: Result<C, InfallibleAccess>) {
        Ok(self.2)
    }
}

impl<A, B, C, D> FieldType<TStr<Str_3>> for Tuple4<A, B, C, D> {
    type Ty = D;
}

impl<A, B, C, D> GetFieldImpl<TStr<Str_3>> for Tuple4<A, B, C, D> {
    type Error = InfallibleAccess;

    open spec fn get_field_spec(&self) -> Result<&D, InfallibleAccess> {
        Ok(&self.3)
    }

    fn get_field_(&self, path: TStr<Str_3>) -> (r: Result<&D, InfallibleAccess>) {
        Ok(&self.3)
    }
}

impl<A, B, C, D> GetFieldMutImpl<TStr<Str_3>> for Tuple4<A, B, C, D> {
    open spec fn field_updated(old: &Self, new: &Self, v: D) -> bool {
        new.3 == v && new.0 == old.0 && new.1 == old.1 && new.2 == old.2
    }

    open spec fn unchanged(old: &Self, new: &Self) -> bool {
        *new == *old
    }

    proof fn lemma_read_after_write(old: &Self, new: &Self, v: D) {
    }

    proof fn lemma_unchanged_reads_same(old: &Self, new: &Self) {
    }

    fn get_field_mut_(&mut self, path: TStr<Str_3>) -> (r: Result<&mut D, InfallibleAccess>) {
        Ok(&mut self.3)
    }
}

impl<A, B, C, D> IntoFieldImpl<TStr<Str_3>> for Tuple4<A, B, C, D> {
    fn into_field_(self, path: TStr<Str_3>) -> (r: Result<D, InfallibleAccess>) {
        Ok(self.3)
    }
}

impl<P01, P02, P03, P04, P05, P06, P07, P08, P09, P10, P11, P12, P13, P14, P15, P16> FieldType<TStr<Str_0>> for Tuple16<P01, P02, P03, P04, P05, P06, P07, P08, P09, P10, P11, P12, P13, P14, P15, P16> {
    type Ty = P01;
}

impl<P01, P02, P03, P04, P05, P06, P07, P08, P09, P10, P11, P12, P13, P14, P15, P16> GetFieldImpl<TStr<Str_0>> for Tuple16<P01, P02, P03, P04, P05, P06, P07, P08, P09, P10, P11, P12, P13, P14, P15, P16> {
    type Error = InfallibleAccess;

    open spec fn get_field_spec(&self) -> Result<&P01, InfallibleAccess> {
        Ok(&self.0)
    }

    fn get_field_(&self, path: TStr<Str_0>) -> (r: Result<&P01, InfallibleAccess>) {
        Ok(&self.0)
    }
}

impl<P01, P02, P03, P04, P05, P06, P07, P08, P09, P10, P11, P12, P13, P14, P15, P16> GetFieldMutImpl<TStr<Str_0>> for Tuple16<P01, P02, P03, P04, P05, P06, P07, P08, P09, P10, P11, P12, P13, P14, P15, P16> {
    open spec fn field_updated(old: &Self, new: &Self, v: P01) -> bool {
        new.0 == v && new.1 == old.1 && new.2 == old.2 && new.3 == old.3 && new.4 == old.4 && new.5 == old.5 && new.6 == old.6 && new.7 == old.7 && new.8 == old.8 && new.9 == old.9 && new.10 == old.10 && new.11 == old.11 && new.12 == old.12 && new.13 == old.13 && new.14 == old.14 && new.15 == old.15
    }

    open spec fn unchanged(old: &Self, new: &Self) -> bool {
        *new == *old
    }

    proof fn lemma_read_after_write(old: &Self, new: &Self, v: P01) {
    }

    proof fn lemma_unchanged_reads_same(old: &Self, new: &Self) {
    }

    fn get_field_mut_(&mut self, path: TStr<Str_0>) -> (r: Result<&mut P01, InfallibleAccess>) {
        Ok(&mut self.0)
    }
}

impl<P01, P02, P03, P04, P05, P06, P07, P08, P09, P10, P11, P12, P13, P14, P15, P16> IntoFieldImpl<TStr<Str_0>> for Tuple16<P01, P02, P03, P04, P05, P06, P07, P08, P09, P10, P11, P12, P13, P14, P15, P16> {
    fn into_field_(self, path: TStr<Str_0>) -> (r: Result<P01, InfallibleAccess>) {
        Ok(self.0)
    }
}

impl<P01, P02, P03, P04, P05, P06, P07, P08, P09, P10, P11, P12, P13, P14, P15, P16> FieldType<TStr<Str_1>> for Tuple16<P01, P02, P03, P04, P05, P06, P07, P08, P09, P10, P11, P12, P13, P14, P15, P16> {
    type Ty = P02;
}

impl<P01, P02, P03, P04, P05, P06, P07, P08, P09, P10, P11, P12, P13, P14, P15, P16> GetFieldImpl<TStr<Str_1>> for Tuple16<P01, P02, P03, P04, P05, P06, P07, P08, P09, P10, P11, P12, P13, P14, P15, P16> {
    type Error = InfallibleAccess;

    open spec fn get_field_spec(&self) -> Result<&P02, InfallibleAccess> {
        Ok(&self.1)
    }

    fn get_field_(&self, path: TStr<Str_1>) -> (r: Result<&P02, InfallibleAccess>) {
        Ok(&self.1)
    }
}

impl<P01, P02, P03, P04, P05, P06, P07, P08, P09, P10, P11, P12, P13, P14, P15, P16> GetFieldMutImpl<TStr<Str_1>> for Tuple16<P01, P02, P03, P04, P05, P06, P07, P08, P09, P10, P11, P12, P13, P14, P15, P16> {
    open spec fn field_updated(old: &Self, new: &Self, v: P02) -> bool {
        new.1 == v && new.0 == old.0 && new.2 == old.2 && new.3 == old.3 && new.4 == old.4 && new.5 == old.5 && new.6 == old.6 && new.7 == old.7 && new.8 == old.8 && new.9 == old.9 && new.10 == old.10 && new.11 == old.11 && new.12 == old.12 && new.13 == old.13 && new.14 == old.14 && new.15 == old.15
    }

    open spec fn unchanged(old: &Self, new: &Self) -> bool {
        *new == *old
    }

    proof fn lemma_read_after_write(old: &Self, new: &Self, v: P02) {
    }

    proof fn lemma_unchanged_reads_same(old: &Self, new: &Self) {
    }

    fn get_field_mut_(&mut self, path: TStr<Str_1>) -> (r: Result<&mut P02, InfallibleAccess>) {
        Ok(&mut self.1)
    }
}

impl<P01, P02, P03, P04, P05, P06, P07, P08, P09, P10, P11, P12, P13, P14, P15, P16> IntoFieldImpl<TStr<Str_1>> for Tuple16<P01, P02, P03, P04, P05, P06, P07, P08, P09, P10, P11, P12, P13, P14, P15, P16> {
    fn into_field_(self, path: TStr<Str_1>) -> (r: Result<P02, InfallibleAccess>) {
        Ok(self.1)
    }
}

impl<P01, P02, P03, P04, P05, P06, P07, P08, P09, P10, P11, P12, P13, P14, P15, P16> FieldType<TStr<Str_2>> for Tuple16<P01, P02, P03, P04, P05, P06, P07, P08, P09, P10, P11, P12, P13, P14, P15, P16> {
    type Ty = P03;
}

impl<P01, P02, P03, P04, P05, P06, P07, P08, P09, P10, P11, P12, P13, P14, P15, P16> GetFieldImpl<TStr<Str_2>> for Tuple16<P01, P02, P03, P04, P05, P06, P07, P08, P09, P10, P11, P12, P13, P14, P15, P16> {
    type Error = InfallibleAccess;

    open spec fn get_field_spec(&self) -> Result<&P03, InfallibleAccess> {
        Ok(&self.2)
    }

    fn get_field_(&self, path: TStr<Str_2>) -> (r: Result<&P03, InfallibleAccess>) {
        Ok(&self.2)
    }
}

impl<P01, P02, P03, P04, P05, P06, P07, P08, P09, P10, P11, P12, P13, P14, P15, P16> GetFieldMutImpl<TStr<Str_2>> for Tuple16<P01, P02, P03, P04, P05, P06, P07, P08, P09, P10, P11, P12, P13, P14, P15, P16> {
    open spec fn field_updated(old: &Self, new: &Self, v: P03) -> bool {
        new.2 == v && new.0 == old.0 && new.1 == old.1 && new.3 == old.3 && new.4 == old.4 && new.5 == old.5 && new.6 == old.6 && new.7 == old.7 && new.8 == old.8 && new.9 == old.9 && new.10 == old.10 && new.11 == old.11 && new.12 == old.12 && new.13 == old.13 && new.14 == old.14 && new.15 == old.15
    }

    open spec fn unchanged(old: &Self, new: &Self) -> bool {
        *new == *old
    }

    proof fn lemma_read_after_write(old: &Self, new: &Self, v: P03) {
    }

    proof fn lemma_unchanged_reads_same(old: &Self, new: &Self) {
    }

    fn get_field_mut_(&mut self, path: TStr<Str_2>) -> (r: Result<&mut P03, InfallibleAccess>) {
        Ok(&mut self.2)
    }
}

impl<P01, P02, P03, P04, P05, P06, P07, P08, P09, P10, P11, P12, P13, P14, P15, P16> IntoFieldImpl<TStr<Str_2>> for Tuple16<P01, P02, P03, P04, P05, P06, P07, P08, P09, P10, P11, P12, P13, P14, P15, P16> {
    fn into_field_(self, path: TStr<Str_2>) -> (r: Result<P03, InfallibleAccess>) {
        Ok(self.2)
    }
}

impl<P01, P02, P03, P04, P05, P06, P07, P08, P09, P10, P11, P12, P13, P14, P15, P16> FieldType<TStr<Str_3>> for Tuple16<P01, P02, P03, P04, P05, P06, P07, P08, P09, P10, P11, P12, P13, P14, P15, P16> {
    type Ty = P04;
}

impl<P01, P02, P03, P04, P05, P06, P07, P08, P09, P10, P11, P12, P13, P14, P15, P16> GetFieldImpl<TStr<Str_3>> for Tuple16<P01, P02, P03, P04, P05, P06, P07, P08, P09, P10, P11, P12, P13, P14, P15, P16> {
    type Error = InfallibleAccess;

    open spec fn get_field_spec(&self) -> Result<&P04, InfallibleAccess> {
        Ok(&self.3)
    }

    fn get_field_(&self, path: TStr<Str_3>) -> (r: Result<&P04, InfallibleAccess>) {
        Ok(&self.3)
    }
}

impl<P01, P02, P03, P04, P05, P06, P07, P08, P09, P10, P11, P12, P13, P14, P15, P16> GetFieldMutImpl<TStr<Str_3>> for Tuple16<P01, P02, P03, P04, P05, P06, P07, P08, P09, P10, P11, P12, P13, P14, P15, P16> {
    open spec fn field_updated(old: &Self, new: &Self, v: P04) -> bool {
        new.3 == v && new.0 == old.0 && new.1 == old.1 && new.2 == old.2 && new.4 == old.4 && new.5 == old.5 && new.6 == old.6 && new.7 == old.7 && new.8 == old.8 && new.9 == old.9 && new.10 == old.10 && new.11 == old.11 && new.12 == old.12 && new.13 == old.13 && new.14 == old.14 && new.15 == old.15
    }

    open spec fn unchanged(old: &Self, new: &Self) -> bool {
        *new == *old
    }

    proof fn lemma_read_after_write(old: &Self, new: &Self, v: P04) {
    }

    proof fn lemma_unchanged_reads_same(old: &Self, new: &Self) {
    }

    fn get_field_mut_(&mut self, path: TStr<Str_3>) -> (r: Result<&mut P04, InfallibleAccess>) {
        Ok(&mut self.3)
    }
}

impl<P01, P02, P03, P04, P05, P06, P07, P08, P09, P10, P11, P12, P13, P14, P15, P16> IntoFieldImpl<TStr<Str_3>> for Tuple16<P01, P02, P03, P04, P05, P06, P07, P08, P09, P10, P11, P12, P13, P14, P15, P16> {
    fn into_field_(self, path: TStr<Str_3>) -> (r: Result<P04, InfallibleAccess>) {
        Ok(self.3)
    }
}

impl<P01, P02, P03, P04, P05, P06, P07, P08, P09, P10, P11, P12, P13, P14, P15, P16> FieldType<TStr<Str_4>> for Tuple16<P01, P02, P03, P04, P05, P06, P07, P08, P09, P10, P11, P12, P13, P14, P15, P16> {
    type Ty = P05;
}

impl<P01, P02, P03, P04, P05, P06, P07, P08, P09, P10, P11, P12, P13, P14, P15, P16> GetFieldImpl<TStr<Str_4>> for Tuple16<P01, P02, P03, P04, P05, P06, P07, P08, P09, P10, P11, P12, P13, P14, P15, P16> {
    type Error = InfallibleAccess;

    open spec fn get_field_spec(&self) -> Result<&P05, InfallibleAccess> {
        Ok(&self.4)
    }

    fn get_field_(&self, path: TStr<Str_4>) -> (r: Result<&P05, InfallibleAccess>) {
        Ok(&self.4)
    }
}

impl<P01, P02, P03, P04, P05, P06, P07, P08, P09, P10, P11, P12, P13, P14, P15, P16> GetFieldMutImpl<TStr<Str_4>> for Tuple16<P01, P02, P03, P04, P05, P06, P07, P08, P09, P10, P11, P12, P13, P14, P15, P16> {
    open spec fn field_updated(old: &Self, new: &Self, v: P05) -> bool {
        new.4 == v && new.0 == old.0 && new.1 == old.1 && new.2 == old.2 && new.3 == old.3 && new.5 == old.5 && new.6 == old.6 && new.7 == old.7 && new.8 == old.8 && new.9 == old.9 && new.10 == old.10 && new.11 == old.11 && new.12 == old.12 && new.13 == old.13 && new.14 == old.14 && new.15 == old.15
    }

    open spec fn unchanged(old: &Self, new: &Self) -> bool {
        *new == *old
    }

    proof fn lemma_read_after_write(old: &Self, new: &Self, v: P05) {
    }

    proof fn lemma_unchanged_reads_same(old: &Self, new: &Self) {
    }

    fn get_field_mut_(&mut self, path: TStr<Str_4>) -> (r: Result<&mut P05, InfallibleAccess>) {
        Ok(&mut self.4)
    }
}

impl<P01, P02, P03, P04, P05, P06, P07, P08, P09, P10, P11, P12, P13, P14, P15, P16> IntoFieldImpl<TStr<Str_4>> for Tuple16<P01, P02, P03, P04, P05, P06, P07, P08, P09, P10, P11, P12, P13, P14, P15, P16> {
    fn into_field_(self, path: TStr<Str_4>) -> (r: Result<P05, InfallibleAccess>) {
        Ok(self.4)
    }
}

impl<P01, P02, P03, P04, P05, P06, P07, P08, P09, P10, P11, P12, P13, P14, P15, P16> FieldType<TStr<Str_5>> for Tuple16<P01, P02, P03, P04, P05, P06, P07, P08, P09, P10, P11, P12, P13, P14, P15, P16> {
    type Ty = P06;
}

impl<P01, P02, P03, P04, P05, P06, P07, P08, P09, P10, P11, P12, P13, P14, P15, P16> GetFieldImpl<TStr<Str_5>> for Tuple16<P01, P02, P03, P04, P05, P06, P07, P08, P09, P10, P11, P12, P13, P14, P15, P16> {
    type Error = InfallibleAccess;

    open spec fn get_field_spec(&self) -> Result<&P06, InfallibleAccess> {
        Ok(&self.5)
    }

    fn get_field_(&self, path: TStr<Str_5>) -> (r: Result<&P06, InfallibleAccess>) {
        Ok(&self.5)
    }
}

impl<P01, P02, P03, P04, P05, P06, P07, P08, P09, P10, P11, P12, P13, P14, P15, P16> GetFieldMutImpl<TStr<Str_5>> for Tuple16<P01, P02, P03, P04, P05, P06, P07, P08, P09, P10, P11, P12, P13, P14, P15, P16> {
    open spec fn field_updated(old: &Self, new: &Self, v: P06) -> bool {
        new.5 == v && new.0 == old.0 && new.1 == old.1 && new.2 == old.2 && new.3 == old.3 && new.4 == old.4 && new.6 == old.6 && new.7 == old.7 && new.8 == old.8 && new.9 == old.9 && new.10 == old.10 && new.11 == old.11 && new.12 == old.12 && new.13 == old.13 && new.14 == old.14 && new.15 == old.15
    }

    open spec fn unchanged(old: &Self, new: &Self) -> bool {
        *new == *old
    }

    proof fn lemma_read_after_write(old: &Self, new: &Self, v: P06) {
    }

    proof fn lemma_unchanged_reads_same(old: &Self, new: &Self) {
    }

    fn get_field_mut_(&mut self, path: TStr<Str_5>) -> (r: Result<&mut P06, InfallibleAccess>) {
        Ok(&mut self.5)
    }
}

impl<P01, P02, P03, P04, P05, P06, P07, P08, P09, P10, P11, P12, P13, P14, P15, P16> IntoFieldImpl<TStr<Str_5>> for Tuple16<P01, P02, P03, P04, P05, P06, P07, P08, P09, P10, P11, P12, P13, P14, P15, P16> {
    fn into_field_(self, path: TStr<Str_5>) -> (r: Result<P06, InfallibleAccess>) {
        Ok(self.5)
    }
}

impl<P01, P02, P03, P04, P05, P06, P07, P08, P09, P10, P11, P12, P13, P14, P15, P16> FieldType<TStr<Str_6>> for Tuple16<P01, P02, P03, P04, P05, P06, P07, P08, P09, P10, P11, P12, P13, P14, P15, P16> {
    type Ty = P07;
}

impl<P01, P02, P03, P04, P05, P06, P07, P08, P09, P10, P11, P12, P13, P14, P15, P16> GetFieldImpl<TStr<Str_6>> for Tuple16<P01, P02, P03, P04, P05, P06, P07, P08, P09, P10, P11, P12, P13, P14, P15, P16> {
    type Error = InfallibleAccess;

    open spec fn get_field_spec(&self) -> Result<&P07, InfallibleAccess> {
        Ok(&self.6)
    }

    fn get_field_(&self, path: TStr<Str_6>) -> (r: Result<&P07, InfallibleAccess>) {
        Ok(&self.6)
    }
}

impl<P01, P02, P03, P04, P05, P06, P07, P08, P09, P10, P11, P12, P13, P14, P15, P16> GetFieldMutImpl<TStr<Str_6>> for Tuple16<P01, P02, P03, P04, P05, P06, P07, P08, P09, P10, P11, P12, P13, P14, P15, P16> {
    open spec fn field_updated(old: &Self, new: &Self, v: P07) -> bool {
        new.6 == v && new.0 == old.0 && new.1 == old.1 && new.2 == old.2 && new.3 == old.3 && new.4 == old.4 && new.5 == old.5 && new.7 == old.7 && new.8 == old.8 && new.9 == old.9 && new.10 == old.10 && new.11 == old.11 && new.12 == old.12 && new.13 == old.13 && new.14 == old.14 && new.15 == old.15
    }

    open spec fn unchanged(old: &Self, new: &Self) -> bool {
        *new == *old
    }

    proof fn lemma_read_after_write(old: &Self, new: &Self, v: P07) {
    }

    proof fn lemma_unchanged_reads_same(old: &Self, new: &Self) {
    }

    fn get_field_mut_(&mut self, path: TStr<Str_6>) -> (r: Result<&mut P07, InfallibleAccess>) {
        Ok(&mut self.6)
    }
}

impl<P01, P02, P03, P04, P05, P06, P07, P08, P09, P10, P11, P12, P13, P14, P15, P16> IntoFieldImpl<TStr<Str_6>> for Tuple16<P01, P02, P03, P04, P05, P06, P07, P08, P09, P10, P11, P12, P13, P14, P15, P16> {
    fn into_field_(self, path: TStr<Str_6>) -> (r: Result<P07, InfallibleAccess>) {
        Ok(self.6)
    }
}

impl<P01, P02, P03, P04, P05, P06, P07, P08, P09, P10, P11, P12, P13, P14, P15, P16> FieldType<TStr<Str_7>> for Tuple16<P01, P02, P03, P04, P05, P06, P07, P08, P09, P10, P11, P12, P13, P14, P15, P16> {
    type Ty = P08;
}

impl<P01, P02, P03, P04, P05, P06, P07, P08, P09, P10, P11, P12, P13, P14, P15, P16> GetFieldImpl<TStr<Str_7>> for Tuple16<P01, P02, P03, P04, P05, P06, P07, P08, P09, P10, P11, P12, P13, P14, P15, P16> {
    type Error = InfallibleAccess;

    open spec fn get_field_spec(&self) -> Result<&P08, InfallibleAccess> {
        Ok(&self.7)
    }

    fn get_field_(&self, path: TStr<Str_7>) -> (r: Result<&P08, InfallibleAccess>) {
        Ok(&self.7)
    }
}

impl<P01, P02, P03, P04, P05, P06, P07, P08, P09, P10, P11, P12, P13, P14, P15, P16> GetFieldMutImpl<TStr<Str_7>> for Tuple16<P01, P02, P03, P04, P05, P06, P07, P08, P09, P10, P11, P12, P13, P14, P15, P16> {
    open spec fn field_updated(old: &Self, new: &Self, v: P08) -> bool {
        new.7 == v && new.0 == old.0 && new.1 == old.1 && new.2 == old.2 && new.3 == old.3 && new.4 == old.4 && new.5 == old.5 && new.6 == old.6 && new.8 == old.8 && new.9 == old.9 && new.10 == old.10 && new.11 == old.11 && new.12 == old.12 && new.13 == old.13 && new.14 == old.14 && new.15 == old.15
    }

    open spec fn unchanged(old: &Self, new: &Self) -> bool {
        *new == *old
    }

    proof fn lemma_read_after_write(old: &Self, new: &Self, v: P08) {
    }

    proof fn lemma_unchanged_reads_same(old: &Self, new: &Self) {
    }

    fn get_field_mut_(&mut self, path: TStr<Str_7>) -> (r: Result<&mut P08, InfallibleAccess>) {
        Ok(&mut self.7)
    }
}

impl<P01, P02, P03, P04, P05, P06, P07, P08, P09, P10, P11, P12, P13, P14, P15, P16> IntoFieldImpl<TStr<Str_7>> for Tuple16<P01, P02, P03, P04, P05, P06, P07, P08, P09, P10, P11, P12, P13, P14, P15, P16> {
    fn into_field_(self, path: TStr<Str_7>) -> (r: Result<P08, InfallibleAccess>) {
        Ok(self.7)
    }
}

impl<P01, P02, P03, P04, P05, P06, P07, P08, P09, P10, P11, P12, P13, P14, P15, P16> FieldType<TStr<Str_8>> for Tuple16<P01, P02, P03, P04, P05, P06, P07, P08, P09, P10, P11, P12, P13, P14, P15, P16> {
    type Ty = P09;
}

impl<P01, P02, P03, P04, P05, P06, P07, P08, P09, P10, P11, P12, P13, P14, P15, P16> GetFieldImpl<TStr<Str_8>> for Tuple16<P01, P02, P03, P04, P05, P06, P07, P08, P09, P10, P11, P12, P13, P14, P15, P16> {
    type Error = InfallibleAccess;

    open spec fn get_field_spec(&self) -> Result<&P09, InfallibleAccess> {
        Ok(&self.8)
    }

    fn get_field_(&self, path: TStr<Str_8>) -> (r: Result<&P09, InfallibleAccess>) {
        Ok(&self.8)
    }
}

impl<P01, P02, P03, P04, P05, P06, P07, P08, P09, P10, P11, P12, P13, P14, P15, P16> GetFieldMutImpl<TStr<Str_8>> for Tuple16<P01, P02, P03, P04, P05, P06, P07, P08, P09, P10, P11, P12, P13, P14, P15, P16> {
    open spec fn field_updated(old: &Self, new: &Self, v: P09) -> bool {
        new.8 == v && new.0 == old.0 && new.1 == old.1 && new.2 == old.2 && new.3 == old.3 && new.4 == old.4 && new.5 == old.5 && new.6 == old.6 && new.7 == old.7 && new.9 == old.9 && new.10 == old.10 && new.11 == old.11 && new.12 == old.12 && new.13 == old.13 && new.14 == old.14 && new.15 == old.15
    }

    open spec fn unchanged(old: &Self, new: &Self) -> bool {
        *new == *old
    }

    proof fn lemma_read_after_write(old: &Self, new: &Self, v: P09) {
    }

    proof fn lemma_unchanged_reads_same(old: &Self, new: &Self) {
    }

    fn get_field_mut_(&mut self, path: TStr<Str_8>) -> (r: Result<&mut P09, InfallibleAccess>) {
        Ok(&mut self.8)
    }
}

impl<P01, P02, P03, P04, P05, P06, P07, P08, P09, P10, P11, P12, P13, P14, P15, P16> IntoFieldImpl<TStr<Str_8>> for Tuple16<P01, P02, P03, P04, P05, P06, P07, P08, P09, P10, P11, P12, P13, P14, P15, P16> {
    fn into_field_(self, path: TStr<Str_8>) -> (r: Result<P09, InfallibleAccess>) {
        Ok(self.8)
    }
}

impl<P01, P02, P03, P04, P05, P06, P07, P08, P09, P10, P11, P12, P13, P14, P15, P16> FieldType<TStr<Str_9>> for Tuple16<P01, P02, P03, P04, P05, P06, P07, P08, P09, P10, P11, P12, P13, P14, P15, P16> {
    type Ty = P10;
}

impl<P01, P02, P03, P04, P05, P06, P07, P08, P09, P10, P11, P12, P13, P14, P15, P16> GetFieldImpl<TStr<Str_9>> for Tuple16<P01, P02, P03, P04, P05, P06, P07, P08, P09, P10, P11, P12, P13, P14, P15, P16> {
    type Error = InfallibleAccess;

    open spec fn get_field_spec(&self) -> Result<&P10, InfallibleAccess> {
        Ok(&self.9)
    }

    fn get_field_(&self, path: TStr<Str_9>) -> (r: Result<&P10, InfallibleAccess>) {
        Ok(&self.9)
    }
}

impl<P01, P02, P03, P04, P05, P06, P07, P08, P09, P10, P11, P12, P13, P14, P15, P16> GetFieldMutImpl<TStr<Str_9>> for Tuple16<P01, P02, P03, P04, P05, P06, P07, P08, P09, P10, P11, P12, P13, P14, P15, P16> {
    open spec fn field_updated(old: &Self, new: &Self, v: P10) -> bool {
        new.9 == v && new.0 == old.0 && new.1 == old.1 && new.2 == old.2 && new.3 == old.3 && new.4 == old.4 && new.5 == old.5 && new.6 == old.6 && new.7 == old.7 && new.8 == old.8 && new.10 == old.10 && new.11 == old.11 && new.12 == old.12 && new.13 == old.13 && new.14 == old.14 && new.15 == old.15
    }

    open spec fn unchanged(old: &Self, new: &Self) -> bool {
        *new == *old
    }

    proof fn lemma_read_after_write(old: &Self, new: &Self, v: P10) {
    }

    proof fn lemma_unchanged_reads_same(old: &Self, new: &Self) {
    }

    fn get_field_mut_(&mut self, path: TStr<Str_9>) -> (r: Result<&mut P10, InfallibleAccess>) {
        Ok(&mut self.9)
    }
}

impl<P01, P02, P03, P04, P05, P06, P07, P08, P09, P10, P11, P12, P13, P14, P15, P16> IntoFieldImpl<TStr<Str_9>> for Tuple16<P01, P02, P03, P04, P05, P06, P07, P08, P09, P10, P11, P12, P13, P14, P15, P16> {
    fn into_field_(self, path: TStr<Str_9>) -> (r: Result<P10, InfallibleAccess>) {
        Ok(self.9)
    }
}

impl<P01, P02, P03, P04, P05, P06, P07, P08, P09, P10, P11, P12, P13, P14, P15, P16> FieldType<TStr<Str_10>> for Tuple16<P01, P02, P03, P04, P05, P06, P07, P08, P09, P10, P11, P12, P13, P14, P15, P16> {
    type Ty = P11;
}

impl<P01, P02, P03, P04, P05, P06, P07, P08, P09, P10, P11, P12, P13, P14, P15, P16> GetFieldImpl<TStr<Str_10>> for Tuple16<P01, P02, P03, P04, P05, P06, P07, P08, P09, P10, P11, P12, P13, P14, P15, P16> {
    type Error = InfallibleAccess;

    open spec fn get_field_spec(&self) -> Result<&P11, InfallibleAccess> {
        Ok(&self.10)
    }

    fn get_field_(&self, path: TStr<Str_10>) -> (r: Result<&P11, InfallibleAccess>) {
        Ok(&self.10)
    }
}

impl<P01, P02, P03, P04, P05, P06, P07, P08, P09, P10, P11, P12, P13, P14, P15, P16> GetFieldMutImpl<TStr<Str_10>> for Tuple16<P01, P02, P03, P04, P05, P06, P07, P08, P09, P10, P11, P12, P13, P14, P15, P16> {
    open spec fn field_updated(old: &Self, new: &Self, v: P11) -> bool {
        new.10 == v && new.0 == old.0 && new.1 == old.1 && new.2 == old.2 && new.3 == old.3 && new.4 == old.4 && new.5 == old.5 && new.6 == old.6 && new.7 == old.7 && new.8 == old.8 && new.9 == old.9 && new.11 == old.11 && new.12 == old.12 && new.13 == old.13 && new.14 == old.14 && new.15 == old.15
    }

    open spec fn unchanged(old: &Self, new: &Self) -> bool {
        *new == *old
    }

    proof fn lemma_read_after_write(old: &Self, new: &Self, v: P11) {
    }

    proof fn lemma_unchanged_reads_same(old: &Self, new: &Self) {
    }

    fn get_field_mut_(&mut self, path: TStr<Str_10>) -> (r: Result<&mut P11, InfallibleAccess>) {
        Ok(&mut self.10)
    }
}

impl<P01, P02, P03, P04, P05, P06, P07, P08, P09, P10, P11, P12, P13, P14, P15, P16> IntoFieldImpl<TStr<Str_10>> for Tuple16<P01, P02, P03, P04, P05, P06, P07, P08, P09, P10, P11, P12, P13, P14, P15, P16> {
    fn into_field_(self, path: TStr<Str_10>) -> (r: Result<P11, InfallibleAccess>) {
        Ok(self.10)
    }
}

impl<P01, P02, P03, P04, P05, P06, P07, P08, P09, P10, P11, P12, P13, P14, P15, P16> FieldType<TStr<Str_11>> for Tuple16<P01, P02, P03, P04, P05, P06, P07, P08, P09, P10, P11, P12, P13, P14, P15, P16> {
    type Ty = P12;
}

impl<P01, P02, P03, P04, P05, P06, P07, P08, P09, P10, P11, P12, P13, P14, P15, P16> GetFieldImpl<TStr<Str_11>> for Tuple16<P01, P02, P03, P04, P05, P06, P07, P08, P09, P10, P11, P12, P13, P14, P15, P16> {
    type Error = InfallibleAccess;

    open spec fn get_field_spec(&self) -> Result<&P12, InfallibleAccess> {
        Ok(&self.11)
    }

    fn get_field_(&self, path: TStr<Str_11>) -> (r: Result<&P12, InfallibleAccess>) {
        Ok(&self.11)
    }
}

impl<P01, P02, P03, P04, P05, P06, P07, P08, P09, P10, P11, P12, P13, P14, P15, P16> GetFieldMutImpl<TStr<Str_11>> for Tuple16<P01, P02, P03, P04, P05, P06, P07, P08, P09, P10, P11, P12, P13, P14, P15, P16> {
    open spec fn field_updated(old: &Self, new: &Self, v: P12) -> bool {
        new.11 == v && new.0 == old.0 && new.1 == old.1 && new.2 == old.2 && new.3 == old.3 && new.4 == old.4 && new.5 == old.5 && new.6 == old.6 && new.7 == old.7 && new.8 == old.8 && new.9 == old.9 && new.10 == old.10 && new.12 == old.12 && new.13 == old.13 && new.14 == old.14 && new.15 == old.15
    }

    open spec fn unchanged(old: &Self, new: &Self) -> bool {
        *new == *old
    }

    proof fn lemma_read_after_write(old: &Self, new: &Self, v: P12) {
    }

    proof fn lemma_unchanged_reads_same(old: &Self, new: &Self) {
    }

    fn get_field_mut_(&mut self, path: TStr<Str_11>) -> (r: Result<&mut P12, InfallibleAccess>) {
        Ok(&mut self.11)
    }
}

impl<P01, P02, P03, P04, P05, P06, P07, P08, P09, P10, P11, P12, P13, P14, P15, P16> IntoFieldImpl<TStr<Str_11>> for Tuple16<P01, P02, P03, P04, P05, P06, P07, P08, P09, P10, P11, P12, P13, P14, P15, P16> {
    fn into_field_(self, path: TStr<Str_11>) -> (r: Result<P12, InfallibleAccess>) {
        Ok(self.11)
    }
}

impl<P01, P02, P03, P04, P05, P06, P07, P08, P09, P10, P11, P12, P13, P14, P15, P16> FieldType<TStr<Str_12>> for Tuple16<P01, P02, P03, P04, P05, P06, P07, P08, P09, P10, P11, P12, P13, P14, P15, P16> {
    type Ty = P13;
}

impl<P01, P02, P03, P04, P05, P06, P07, P08, P09, P10, P11, P12, P13, P14, P15, P16> GetFieldImpl<TStr<Str_12>> for Tuple16<P01, P02, P03, P04, P05, P06, P07, P08, P09, P10, P11, P12, P13, P14, P15, P16> {
    type Error = InfallibleAccess;

    open spec fn get_field_spec(&self) -> Result<&P13, InfallibleAccess> {
        Ok(&self.12)
    }

    fn get_field_(&self, path: TStr<Str_12>) -> (r: Result<&P13, InfallibleAccess>) {
        Ok(&self.12)
    }
}

impl<P01, P02, P03, P04, P05, P06, P07, P08, P09, P10, P11, P12, P13, P14, P15, P16> GetFieldMutImpl<TStr<Str_12>> for Tuple16<P01, P02, P03, P04, P05, P06, P07, P08, P09, P10, P11, P12, P13, P14, P15, P16> {
    open spec fn field_updated(old: &Self, new: &Self, v: P13) -> bool {
        new.12 == v && new.0 == old.0 && new.1 == old.1 && new.2 == old.2 && new.3 == old.3 && new.4 == old.4 && new.5 == old.5 && new.6 == old.6 && new.7 == old.7 && new.8 == old.8 && new.9 == old.9 && new.10 == old.10 && new.11 == old.11 && new.13 == old.13 && new.14 == old.14 && new.15 == old.15
    }

    open spec fn unchanged(old: &Self, new: &Self) -> bool {
        *new == *old
    }

    proof fn lemma_read_after_write(old: &Self, new: &Self, v: P13) {
    }

    proof fn lemma_unchanged_reads_same(old: &Self, new: &Self) {
    }

    fn get_field_mut_(&mut self, path: TStr<Str_12>) -> (r: Result<&mut P13, InfallibleAccess>) {
        Ok(&mut self.12)
    }
}

impl<P01, P02, P03, P04, P05, P06, P07, P08, P09, P10, P11, P12, P13, P14, P15, P16> IntoFieldImpl<TStr<Str_12>> for Tuple16<P01, P02, P03, P04, P05, P06, P07, P08, P09, P10, P11, P12, P13, P14, P15, P16> {
    fn into_field_(self, path: TStr<Str_12>) -> (r: Result<P13, InfallibleAccess>) {
        Ok(self.12)
    }
}

impl<P01, P02, P03, P04, P05, P06, P07, P08, P09, P10, P11, P12, P13, P14, P15, P16> FieldType<TStr<Str_13>> for Tuple16<P01, P02, P03, P04, P05, P06, P07, P08, P09, P10, P11, P12, P13, P14, P15, P16> {
    type Ty = P14;
}

impl<P01, P02, P03, P04, P05, P06, P07, P08, P09, P10, P11, P12, P13, P14, P15, P16> GetFieldImpl<TStr<Str_13>> for Tuple16<P01, P02, P03, P04, P05, P06, P07, P08, P09, P10, P11, P12, P13, P14, P15, P16> {
    type Error = InfallibleAccess;

    open spec fn get_field_spec(&self) -> Result<&P14, InfallibleAccess> {
        Ok(&self.13)
    }

    fn get_field_(&self, path: TStr<Str_13>) -> (r: Result<&P14, InfallibleAccess>) {
        Ok(&self.13)
    }
}

impl<P01, P02, P03, P04, P05, P06, P07, P08, P09, P10, P11, P12, P13, P14, P15, P16> GetFieldMutImpl<TStr<Str_13>> for Tuple16<P01, P02, P03, P04, P05, P06, P07, P08, P09, P10, P11, P12, P13, P14, P15, P16> {
    open spec fn field_updated(old: &Self, new: &Self, v: P14) -> bool {
        new.13 == v && new.0 == old.0 && new.1 == old.1 && new.2 == old.2 && new.3 == old.3 && new.4 == old.4 && new.5 == old.5 && new.6 == old.6 && new.7 == old.7 && new.8 == old.8 && new.9 == old.9 && new.10 == old.10 && new.11 == old.11 && new.12 == old.12 && new.14 == old.14 && new.15 == old.15
    }

    open spec fn unchanged(old: &Self, new: &Self) -> bool {
        *new == *old
    }

    proof fn lemma_read_after_write(old: &Self, new: &Self, v: P14) {
    }

    proof fn lemma_unchanged_reads_same(old: &Self, new: &Self) {
    }

    fn get_field_mut_(&mut self, path: TStr<Str_13>) -> (r: Result<&mut P14, InfallibleAccess>) {
        Ok(&mut self.13)
    }
}

impl<P01, P02, P03, P04, P05, P06, P07, P08, P09, P10, P11, P12, P13, P14, P15, P16> IntoFieldImpl<TStr<Str_13>> for Tuple16<P01, P02, P03, P04, P05, P06, P07, P08, P09, P10, P11, P12, P13, P14, P15, P16> {
    fn into_field_(self, path: TStr<Str_13>) -> (r: Result<P14, InfallibleAccess>) {
        Ok(self.13)
    }
}

impl<P01, P02, P03, P04, P05, P06, P07, P08, P09, P10, P11, P12, P13, P14, P15, P16> FieldType<TStr<Str_14>> for Tuple16<P01, P02, P03, P04, P05, P06, P07, P08, P09, P10, P11, P12, P13, P14, P15, P16> {
    type Ty = P15;
}

impl<P01, P02, P03, P04, P05, P06, P07, P08, P09, P10, P11, P12, P13, P14, P15, P16> GetFieldImpl<TStr<Str_14>> for Tuple16<P01, P02, P03, P04, P05, P06, P07, P08, P09, P10, P11, P12, P13, P14, P15, P16> {
    type Error = InfallibleAccess;

    open spec fn get_field_spec(&self) -> Result<&P15, InfallibleAccess> {
        Ok(&self.14)
    }

    fn get_field_(&self, path: TStr<Str_14>) -> (r: Result<&P15, InfallibleAccess>) {
        Ok(&self.14)
    }
}

impl<P01, P02, P03, P04, P05, P06, P07, P08, P09, P10, P11, P12, P13, P14, P15, P16> GetFieldMutImpl<TStr<Str_14>> for Tuple16<P01, P02, P03, P04, P05, P06, P07, P08, P09, P10, P11, P12, P13, P14, P15, P16> {
    open spec fn field_updated(old: &Self, new: &Self, v: P15) -> bool {
        new.14 == v && new.0 == old.0 && new.1 == old.1 && new.2 == old.2 && new.3 == old.3 && new.4 == old.4 && new.5 == old.5 && new.6 == old.6 && new.7 == old.7 && new.8 == old.8 && new.9 == old.9 && new.10 == old.10 && new.11 == old.11 && new.12 == old.12 && new.13 == old.13 && new.15 == old.15
    }

    open spec fn unchanged(old: &Self, new: &Self) -> bool {
        *new == *old
    }

    proof fn lemma_read_after_write(old: &Self, new: &Self, v: P15) {
    }

    proof fn lemma_unchanged_reads_same(old: &Self, new: &Self) {
    }

    fn get_field_mut_(&mut self, path: TStr<Str_14>) -> (r: Result<&mut P15, InfallibleAccess>) {
        Ok(&mut self.14)
    }
}

impl<P01, P02, P03, P04, P05, P06, P07, P08, P09, P10, P11, P12, P13, P14, P15, P16> IntoFieldImpl<TStr<Str_14>> for Tuple16<P01, P02, P03, P04, P05, P06, P07, P08, P09, P10, P11, P12, P13, P14, P15, P16> {
    fn into_field_(self, path: TStr<Str_14>) -> (r: Result<P15, InfallibleAccess>) {
        Ok(self.14)
    }
}

impl<P01, P02, P03, P04, P05, P06, P07, P08, P09, P10, P11, P12, P13, P14, P15, P16> FieldType<TStr<Str_15>> for Tuple16<P01, P02, P03, P04, P05, P06, P07, P08, P09, P10, P11, P12, P13, P14, P15, P16> {
    type Ty = P16;
}

impl<P01, P02, P03, P04, P05, P06, P07, P08, P09, P10, P11, P12, P13, P14, P15, P16> GetFieldImpl<TStr<Str_15>> for Tuple16<P01, P02, P03, P04, P05, P06, P07, P08, P09, P10, P11, P12, P13, P14, P15, P16> {
    type Error = InfallibleAccess;

    open spec fn get_field_spec(&self) -> Result<&P16, InfallibleAccess> {
        Ok(&self.15)
    }

    fn get_field_(&self, path: TStr<Str_15>) -> (r: Result<&P16, InfallibleAccess>) {
        Ok(&self.15)
    }
}

impl<P01, P02, P03, P04, P05, P06, P07, P08, P09, P10, P11, P12, P13, P14, P15, P16> GetFieldMutImpl<TStr<Str_15>> for Tuple16<P01, P02, P03, P04, P05, P06, P07, P08, P09, P10, P11, P12, P13, P14, P15, P16> {
    open spec fn field_updated(old: &Self, new: &Self, v: P16) -> bool {
        new.15 == v && new.0 == old.0 && new.1 == old.1 && new.2 == old.2 && new.3 == old.3 && new.4 == old.4 && new.5 == old.5 && new.6 == old.6 && new.7 == old.7 && new.8 == old.8 && new.9 == old.9 && new.10 == old.10 && new.11 == old.11 && new.12 == old.12 && new.13 == old.13 && new.14 == old.14
    }

    open spec fn unchanged(old: &Self, new: &Self) -> bool {
        *new == *old
    }

    proof fn lemma_read_after_write(old: &Self, new: &Self, v: P16) {
    }

    proof fn lemma_unchanged_reads_same(old: &Self, new: &Self) {
    }

    fn get_field_mut_(&mut self, path: TStr<Str_15>) -> (r: Result<&mut P16, InfallibleAccess>) {
        Ok(&mut self.15)
    }
}

impl<P01, P02, P03, P04, P05, P06, P07, P08, P09, P10, P11, P12, P13, P14, P15, P16> IntoFieldImpl<TStr<Str_15>> for Tuple16<P01, P02, P03, P04, P05, P06, P07, P08, P09, P10, P11, P12, P13, P14, P15, P16> {
    fn into_field_(self, path: TStr<Str_15>) -> (r: Result<P16, InfallibleAccess>) {
        Ok(self.15)
    }
}

impl<A, B> FieldType<TStr<Str_foo>> for Struct2<A, B> {
    type Ty = Option<A>;
}

impl<A, B> GetFieldImpl<TStr<Str_foo>> for Struct2<A, B> {
    type Error = InfallibleAccess;

    open spec fn get_field_spec(&self) -> Result<&Option<A>, InfallibleAccess> {
        Ok(&self.foo)
    }

    fn get_field_(&self, path: TStr<Str_foo>) -> (r: Result<&Option<A>, InfallibleAccess>) {
        Ok(&self.foo)
    }
}

impl<A, B> GetFieldMutImpl<TStr<Str_foo>> for Struct2<A, B> {
    open spec fn field_updated(old: &Self, new: &Self, v: Option<A>) -> bool {
        new.foo == v && new.bar == old.bar
    }

    open spec fn unchanged(old: &Self, new: &Self) -> bool {
        *new == *old
    }

    proof fn lemma_read_after_write(old: &Self, new: &Self, v: Option<A>) {
    }

    proof fn lemma_unchanged_reads_same(old: &Self, new: &Self) {
    }

    fn get_field_mut_(&mut self, path: TStr<Str_foo>) -> (r: Result<&mut Option<A>, InfallibleAccess>) {
        Ok(&mut self.foo)
    }
}

impl<A, B> IntoFieldImpl<TStr<Str_foo>> for Struct2<A, B> {
    fn into_field_(self, path: TStr<Str_foo>) -> (r: Result<Option<A>, InfallibleAccess>) {
        Ok(self.foo)
    }
}

impl<A, B> FieldType<TStr<Str_bar>> for Struct2<A, B> {
    type Ty = B;
}

impl<A, B> GetFieldImpl<TStr<Str_bar>> for Struct2<A, B> {
    type Error = InfallibleAccess;

    open spec fn get_field_spec(&self) -> Result<&B, InfallibleAccess> {
        Ok(&self.bar)
    }

    fn get_field_(&self, path: TStr<Str_bar>) -> (r: Result<&B, InfallibleAccess>) {
        Ok(&self.bar)
    }
}

impl<A, B> GetFieldMutImpl<TStr<Str_bar>> for Struct2<A, B> {
    open spec fn field_updated(old: &Self, new: &Self, v: B) -> bool {
        new.bar == v && new.foo == old.foo
    }

    open spec fn unchanged(old: &Self, new: &Self) -> bool {
        *new == *old
    }

    proof fn lemma_read_after_write(old: &Self, new: &Self, v: B) {
    }

    proof fn lemma_unchanged_reads_same(old: &Self, new: &Self) {
    }

    fn get_field_mut_(&mut self, path: TStr<Str_bar>) -> (r: Result<&mut B, InfallibleAccess>) {
        Ok(&mut self.bar)
    }
}

impl<A, B> IntoFieldImpl<TStr<Str_bar>> for Struct2<A, B> {
    fn into_field_(self, path: TStr<Str_bar>) -> (r: Result<B, InfallibleAccess>) {
        Ok(self.bar)
    }
}

impl<A, B, C> FieldType<TStr<Str_foo>> for Struct3<A, B, C> {
    type Ty = Option<A>;
}

impl<A, B, C> GetFieldImpl<TStr<Str_foo>> for Struct3<A, B, C> {
    type Error = InfallibleAccess;

    open spec fn get_field_spec(&self) -> Result<&Option<A>, InfallibleAccess> {
        Ok(&self.foo)
    }

    fn get_field_(&self, path: TStr<Str_foo>) -> (r: Result<&Option<A>, InfallibleAccess>) {
        Ok(&self.foo)
    }
}

impl<A, B, C> GetFieldMutImpl<TStr<Str_foo>> for Struct3<A, B, C> {
    open spec fn field_updated(old: &Self, new: &Self, v: Option<A>) -> bool {
        new.foo == v && new.bar == old.bar && new.baz == old.baz
    }

    open spec fn unchanged(old: &Self, new: &Self) -> bool {
        *new == *old
    }

    proof fn lemma_read_after_write(old: &Self, new: &Self, v: Option<A>) {
    }

    proof fn lemma_unchanged_reads_same(old: &Self, new: &Self) {
    }

    fn get_field_mut_(&mut self, path: TStr<Str_foo>) -> (r: Result<&mut Option<A>, InfallibleAccess>) {
        Ok(&mut self.foo)
    }
}

impl<A, B, C> IntoFieldImpl<TStr<Str_foo>> for Struct3<A, B, C> {
    fn into_field_(self, path: TStr<Str_foo>) -> (r: Result<Option<A>, InfallibleAccess>) {
        Ok(self.foo)
    }
}

impl<A, B, C> FieldType<TStr<Str_bar>> for Struct3<A, B, C> {
    type Ty = B;
}

impl<A, B, C> GetFieldImpl<TStr<Str_bar>> for Struct3<A, B, C> {
    type Error = InfallibleAccess;

    open spec fn get_field_spec(&self) -> Result<&B, InfallibleAccess> {
        Ok(&self.bar)
    }

    fn get_field_(&self, path: TStr<Str_bar>) -> (r: Result<&B, InfallibleAccess>) {
        Ok(&self.bar)
    }
}

impl<A, B, C> GetFieldMutImpl<TStr<Str_bar>> for Struct3<A, B, C> {
    open spec fn field_updated(old: &Self, new: &Self, v: B) -> bool {
        new.bar == v && new.foo == old.foo && new.baz == old.baz
    }

    open spec fn unchanged(old: &Self, new: &Self) -> bool {
        *new == *old
    }

    proof fn lemma_read_after_write(old: &Self, new: &Self, v: B) {
    }

    proof fn lemma_unchanged_reads_same(old: &Self, new: &Self) {
    }

    fn get_field_mut_(&mut self, path: TStr<Str_bar>) -> (r: Result<&mut B, InfallibleAccess>) {
        Ok(&mut self.bar)
    }
}

impl<A, B, C> IntoFieldImpl<TStr<Str_bar>> for Struct3<A, B, C> {
    fn into_field_(self, path: TStr<Str_bar>) -> (r: Result<B, InfallibleAccess>) {
        Ok(self.bar)
    }
}

impl<A, B, C> FieldType<TStr<Str_baz>> for Struct3<A, B, C> {
    type Ty = C;
}

impl<A, B, C> GetFieldImpl<TStr<Str_baz>> for Struct3<A, B, C> {
    type Error = InfallibleAccess;

    open spec fn get_field_spec(&self) -> Result<&C, InfallibleAccess> {
        Ok(&self.baz)
    }

    fn get_field_(&self, path: TStr<Str_baz>) -> (r: Result<&C, InfallibleAccess>) {
        Ok(&self.baz)
    }
}

impl<A, B, C> GetFieldMutImpl<TStr<Str_baz>> for Struct3<A, B, C> {
    open spec fn field_updated(old: &Self, new: &Self, v: C) -> bool {
        new.baz == v && new.foo == old.foo && new.bar == old.bar
    }

    open spec fn unchanged(old: &Self, new: &Self) -> bool {
        *new == *old
    }

    proof fn lemma_read_after_write(old: &Self, new: &Self, v: C) {
    }

    proof fn lemma_unchanged_reads_same(old: &Self, new: &Self) {
    }

    fn get_field_mut_(&mut self, path: TStr<Str_baz>) -> (r: Result<&mut C, InfallibleAccess>) {
        Ok(&mut self.baz)
    }
}

impl<A, B, C> IntoFieldImpl<TStr<Str_baz>> for Struct3<A, B, C> {
    fn into_field_(self, path: TStr<Str_baz>) -> (r: Result<C, InfallibleAccess>) {
        Ok(self.baz)
    }
}

impl<T> FieldType<TStr<Str_foo>> for StructFoo<T> {
    type Ty = T;
}

impl<T> GetFieldImpl<TStr<Str_foo>> for StructFoo<T> {
    type Error = InfallibleAccess;

    open spec fn get_field_spec(&self) -> Result<&T, InfallibleAccess> {
        Ok(&self.foo)
    }

    fn get_field_(&self, path: TStr<Str_foo>) -> (r: Result<&T, InfallibleAccess>) {
        Ok(&self.foo)
    }
}

impl<T> GetFieldMutImpl<TStr<Str_foo>> for StructFoo<T> {
    open spec fn field_updated(old: &Self, new: &Self, v: T) -> bool {
        new.foo == v
    }

    open spec fn unchanged(old: &Self, new: &Self) -> bool {
        *new == *old
    }

    proof fn lemma_read_after_write(old: &Self, new: &Self, v: T) {
    }

    proof fn lemma_unchanged_reads_same(old: &Self, new: &Self) {
    }

    fn get_field_mut_(&mut self, path: TStr<Str_foo>) -> (r: Result<&mut T, InfallibleAccess>) {
        Ok(&mut self.foo)
    }
}

impl<T> IntoFieldImpl<TStr<Str_foo>> for StructFoo<T> {
    fn into_field_(self, path: TStr<Str_foo>) -> (r: Result<T, InfallibleAccess>) {
        Ok(self.foo)
    }
}

impl<T> FieldType<TStr<Str_bar>> for StructBar<T> {
    type Ty = T;
}

impl<T> GetFieldImpl<TStr<Str_bar>> for StructBar<T> {
    type Error = InfallibleAccess;

    open spec fn get_field_spec(&self) -> Result<&T, InfallibleAccess> {
        Ok(&self.bar)
    }

    fn get_field_(&self, path: TStr<Str_bar>) -> (r: Result<&T, InfallibleAccess>) {
        Ok(&self.bar)
    }
}

impl<T> GetFieldMutImpl<TStr<Str_bar>> for StructBar<T> {
    open spec fn field_updated(old: &Self, new: &Self, v: T) -> bool {
        new.bar == v
    }

    open spec fn unchanged(old: &Self, new: &Self) -> bool {
        *new == *old
    }

    proof fn lemma_read_after_write(old: &Self, new: &Self, v: T) {
    }

    proof fn lemma_unchanged_reads_same(old: &Self, new: &Self) {
    }

    fn get_field_mut_(&mut self, path: TStr<Str_bar>) -> (r: Result<&mut T, InfallibleAccess>) {
        Ok(&mut self.bar)
    }
}

impl<T> IntoFieldImpl<TStr<Str_bar>> for StructBar<T> {
    fn into_field_(self, path: TStr<Str_bar>) -> (r: Result<T, InfallibleAccess>) {
        Ok(self.bar)
    }
}

impl VariantCount for WithBar {
    type Count = TStr<Str_2>;
}

impl IsVariant<TStr<Str_Nope>> for WithBar {
    open spec fn is_variant_spec(&self) -> bool {
        *self is Nope
    }

    fn is_variant_(&self, variant: TStr<Str_Nope>) -> (r: bool) {
        match self {
            WithBar::Nope => true,
            _ => false,
        }
    }
}

impl IsVariant<TStr<Str_Bar>> for WithBar {
    open spec fn is_variant_spec(&self) -> bool {
        *self is Bar
    }

    fn is_variant_(&self, variant: TStr<Str_Bar>) -> (r: bool) {
        match self {
            WithBar::Bar(..) => true,
            _ => false,
        }
    }
}

impl FieldType<VariantField<TStr<Str_Bar>, TStr<Str_0>>> for WithBar {
    type Ty = &'static str;
}

impl GetVariantField<TStr<Str_Bar>, TStr<Str_0>> for WithBar {
    open spec fn get_vfield_spec(&self) -> Option<&&'static str> {
        match self {
            WithBar::Bar(x) => Some(x),
            _ => None,
        }
    }

    proof fn lemma_vfield_iff_variant(&self) {
    }

    fn get_vfield_(&self, variant: TStr<Str_Bar>, field: TStr<Str_0>) -> (r: Option<&&'static str>) {
        match self {
            WithBar::Bar(x) => Some(x),
            _ => None,
        }
    }
}

impl GetVariantFieldMut<TStr<Str_Bar>, TStr<Str_0>> for WithBar {
    open spec fn vfield_updated(old: &Self, new: &Self, v: &'static str) -> bool {
        match *old {
            WithBar::Bar(f0) => *new == Self::Bar(v),
            _ => false,
        }
    }

    open spec fn vfield_unchanged(old: &Self, new: &Self) -> bool {
        *new == *old
    }

    proof fn lemma_read_after_write(old: &Self, new: &Self, v: &'static str) {
    }

    proof fn lemma_vfield_unchanged_reads_same(old: &Self, new: &Self) {
    }

    fn get_vfield_mut_(&mut self, variant: TStr<Str_Bar>, field: TStr<Str_0>) -> (r: Option<&mut &'static str>) {
        match self {
            WithBar::Bar(x) => Some(x),
            _ => {
                assert(<Self as GetVariantFieldMut<TStr<Str_Bar>, TStr<Str_0>>>::vfield_unchanged(&*old(self), &*final(self)));
                None
            },
        }
    }
}

impl IntoVariantField<TStr<Str_Bar>, TStr<Str_0>> for WithBar {
    fn into_vfield_(self, variant: TStr<Str_Bar>, field: TStr<Str_0>) -> (r: Option<&'static str>) {
        match self {
            WithBar::Bar(x) => Some(x),
            _ => None,
        }
    }
}

impl VariantCount for WithBoom {
    type Count = TStr<Str_2>;
}

impl IsVariant<TStr<Str_Nope>> for WithBoom {
    open spec fn is_variant_spec(&self) -> bool {
        *self is Nope
    }

    fn is_variant_(&self, variant: TStr<Str_Nope>) -> (r: bool) {
        match self {
            WithBoom::Nope => true,
            _ => false,
        }
    }
}

impl IsVariant<TStr<Str_Boom>> for WithBoom {
    open spec fn is_variant_spec(&self) -> bool {
        *self is Boom
    }

    fn is_variant_(&self, variant: TStr<Str_Boom>) -> (r: bool) {
        match self {
            WithBoom::Boom { .. } => true,
            _ => false,
        }
    }
}

impl FieldType<VariantField<TStr<Str_Boom>, TStr<Str_a>>> for WithBoom {
    type Ty = &'static str;
}

impl GetVariantField<TStr<Str_Boom>, TStr<Str_a>> for WithBoom {
    open spec fn get_vfield_spec(&self) -> Option<&&'static str> {
        match self {
            WithBoom::Boom { a: x, .. } => Some(x),
            _ => None,
        }
    }

    proof fn lemma_vfield_iff_variant(&self) {
    }

    fn get_vfield_(&self, variant: TStr<Str_Boom>, field: TStr<Str_a>) -> (r: Option<&&'static str>) {
        match self {
            WithBoom::Boom { a: x, .. } => Some(x),
            _ => None,
        }
    }
}

impl GetVariantFieldMut<TStr<Str_Boom>, TStr<Str_a>> for WithBoom {
    open spec fn vfield_updated(old: &Self, new: &Self, v: &'static str) -> bool {
        match *old {
            WithBoom::Boom { a: f0, b: f1 } => *new == Self::Boom { a: v, b: f1 },
            _ => false,
        }
    }

    open spec fn vfield_unchanged(old: &Self, new: &Self) -> bool {
        *new == *old
    }

    proof fn lemma_read_after_write(old: &Self, new: &Self, v: &'static str) {
    }

    proof fn lemma_vfield_unchanged_reads_same(old: &Self, new: &Self) {
    }

    fn get_vfield_mut_(&mut self, variant: TStr<Str_Boom>, field: TStr<Str_a>) -> (r: Option<&mut &'static str>) {
        match self {
            WithBoom::Boom { a: x, .. } => Some(x),
            _ => {
                assert(<Self as GetVariantFieldMut<TStr<Str_Boom>, TStr<Str_a>>>::vfield_unchanged(&*old(self), &*final(self)));
                None
            },
        }
    }
}

impl IntoVariantField<TStr<Str_Boom>, TStr<Str_a>> for WithBoom {
    fn into_vfield_(self, variant: TStr<Str_Boom>, field: TStr<Str_a>) -> (r: Option<&'static str>) {
        match self {
            WithBoom::Boom { a: x, .. } => Some(x),
            _ => None,
        }
    }
}

impl FieldType<VariantField<TStr<Str_Boom>, TStr<Str_b>>> for WithBoom {
    type Ty = &'static [u16];
}

impl GetVariantField<TStr<Str_Boom>, TStr<Str_b>> for WithBoom {
    open spec fn get_vfield_spec(&self) -> Option<&&'static [u16]> {
        match self {
            WithBoom::Boom { b: x, .. } => Some(x),
            _ => None,
        }
    }

    proof fn lemma_vfield_iff_variant(&self) {
    }

    fn get_vfield_(&self, variant: TStr<Str_Boom>, field: TStr<Str_b>) -> (r: Option<&&'static [u16]>) {
        match self {
            WithBoom::Boom { b: x, .. } => Some(x),
            _ => None,
        }
    }
}

impl GetVariantFieldMut<TStr<Str_Boom>, TStr<Str_b>> for WithBoom {
    open spec fn vfield_updated(old: &Self, new: &Self, v: &'static [u16]) -> bool {
        match *old {
            WithBoom::Boom { a: f0, b: f1 } => *new == Self::Boom { a: f0, b: v },
            _ => false,
        }
    }

    open spec fn vfield_unchanged(old: &Self, new: &Self) -> bool {
        *new == *old
    }

    proof fn lemma_read_after_write(old: &Self, new: &Self, v: &'static [u16]) {
    }

    proof fn lemma_vfield_unchanged_reads_same(old: &Self, new: &Self) {
    }

    fn get_vfield_mut_(&mut self, variant: TStr<Str_Boom>, field: TStr<Str_b>) -> (r: Option<&mut &'static [u16]>) {
        match self {
            WithBoom::Boom { b: x, .. } => Some(x),
            _ => {
                assert(<Self as GetVariantFieldMut<TStr<Str_Boom>, TStr<Str_b>>>::vfield_unchanged(&*old(self), &*final(self)));
                None
            },
        }
    }
}

impl IntoVariantField<TStr<Str_Boom>, TStr<Str_b>> for WithBoom {
    fn into_vfield_(self, variant: TStr<Str_Boom>, field: TStr<Str_b>) -> (r: Option<&'static [u16]>) {
        match self {
            WithBoom::Boom { b: x, .. } => Some(x),
            _ => None,
        }
    }
}

impl VariantCount for Bomb {
    type Count = TStr<Str_3>;
}

impl IsVariant<TStr<Str_Nope>> for Bomb {
    open spec fn is_variant_spec(&self) -> bool {
        *self is Nope
    }

    fn is_variant_(&self, variant: TStr<Str_Nope>) -> (r: bool) {
        match self {
            Bomb::Nope => true,
            _ => false,
        }
    }
}

impl IsVariant<TStr<Str_Boom>> for Bomb {
    open spec fn is_variant_spec(&self) -> bool {
        *self is Boom
    }

    fn is_variant_(&self, variant: TStr<Str_Boom>) -> (r: bool) {
        match self {
            Bomb::Boom { .. } => true,
            _ => false,
        }
    }
}

impl FieldType<VariantField<TStr<Str_Boom>, TStr<Str_a>>> for Bomb {
    type Ty = &'static str;
}

impl GetVariantField<TStr<Str_Boom>, TStr<Str_a>> for Bomb {
    open spec fn get_vfield_spec(&self) -> Option<&&'static str> {
        match self {
            Bomb::Boom { a: x, .. } => Some(x),
            _ => None,
        }
    }

    proof fn lemma_vfield_iff_variant(&self) {
    }

    fn get_vfield_(&self, variant: TStr<Str_Boom>, field: TStr<Str_a>) -> (r: Option<&&'static str>) {
        match self {
            Bomb::Boom { a: x, .. } => Some(x),
            _ => None,
        }
    }
}

impl GetVariantFieldMut<TStr<Str_Boom>, TStr<Str_a>> for Bomb {
    open spec fn vfield_updated(old: &Self, new: &Self, v: &'static str) -> bool {
        match *old {
            Bomb::Boom { a: f0, b: f1 } => *new == Self::Boom { a: v, b: f1 },
            _ => false,
        }
    }

    open spec fn vfield_unchanged(old: &Self, new: &Self) -> bool {
        *new == *old
    }

    proof fn lemma_read_after_write(old: &Self, new: &Self, v: &'static str) {
    }

    proof fn lemma_vfield_unchanged_reads_same(old: &Self, new: &Self) {
    }

    fn get_vfield_mut_(&mut self, variant: TStr<Str_Boom>, field: TStr<Str_a>) -> (r: Option<&mut &'static str>) {
        match self {
            Bomb::Boom { a: x, .. } => Some(x),
            _ => {
                assert(<Self as GetVariantFieldMut<TStr<Str_Boom>, TStr<Str_a>>>::vfield_unchanged(&*old(self), &*final(self)));
                None
            },
        }
    }
}

impl IntoVariantField<TStr<Str_Boom>, TStr<Str_a>> for Bomb {
    fn into_vfield_(self, variant: TStr<Str_Boom>, field: TStr<Str_a>) -> (r: Option<&'static str>) {
        match self {
            Bomb::Boom { a: x, .. } => Some(x),
            _ => None,
        }
    }
}

impl FieldType<VariantField<TStr<Str_Boom>, TStr<Str_b>>> for Bomb {
    type Ty = &'static [u16];
}

impl GetVariantField<TStr<Str_Boom>, TStr<Str_b>> for Bomb {
    open spec fn get_vfield_spec(&self) -> Option<&&'static [u16]> {
        match self {
            Bomb::Boom { b: x, .. } => Some(x),
            _ => None,
        }
    }

    proof fn lemma_vfield_iff_variant(&self) {
    }

    fn get_vfield_(&self, variant: TStr<Str_Boom>, field: TStr<Str_b>) -> (r: Option<&&'static [u16]>) {
        match self {
            Bomb::Boom { b: x, .. } => Some(x),
            _ => None,
        }
    }
}

impl GetVariantFieldMut<TStr<Str_Boom>, TStr<Str_b>> for Bomb {
    open spec fn vfield_updated(old: &Self, new: &Self, v: &'static [u16]) -> bool {
        match *old {
            Bomb::Boom { a: f0, b: f1 } => *new == Self::Boom { a: f0, b: v },
            _ => false,
        }
    }

    open spec fn vfield_unchanged(old: &Self, new: &Self) -> bool {
        *new == *old
    }

    proof fn lemma_read_after_write(old: &Self, new: &Self, v: &'static [u16]) {
    }

    proof fn lemma_vfield_unchanged_reads_same(old: &Self, new: &Self) {
    }

    fn get_vfield_mut_(&mut self, variant: TStr<Str_Boom>, field: TStr<Str_b>) -> (r: Option<&mut &'static [u16]>) {
        match self {
            Bomb::Boom { b: x, .. } => Some(x),
            _ => {
                assert(<Self as GetVariantFieldMut<TStr<Str_Boom>, TStr<Str_b>>>::vfield_unchanged(&*old(self), &*final(self)));
                None
            },
        }
    }
}

impl IntoVariantField<TStr<Str_Boom>, TStr<Str_b>> for Bomb {
    fn into_vfield_(self, variant: TStr<Str_Boom>, field: TStr<Str_b>) -> (r: Option<&'static [u16]>) {
        match self {
            Bomb::Boom { b: x, .. } => Some(x),
            _ => None,
        }
    }
}

impl IsVariant<TStr<Str_Exploded>> for Bomb {
    open spec fn is_variant_spec(&self) -> bool {
        *self is Exploded
    }

    fn is_variant_(&self, variant: TStr<Str_Exploded>) -> (r: bool) {
        match self {
            Bomb::Exploded => true,
            _ => false,
        }
    }
}

impl VariantCount for EnumOptA {
    type Count = TStr<Str_1>;
}

impl IsVariant<TStr<Str_Limbs>> for EnumOptA {
    open spec fn is_variant_spec(&self) -> bool {
        *self is Limbs
    }

    fn is_variant_(&self, variant: TStr<Str_Limbs>) -> (r: bool) {
        match self {
            EnumOptA::Limbs { .. } => true,
        }
    }
}

impl FieldType<VariantField<TStr<Str_Limbs>, TStr<Str_legs>>> for EnumOptA {
    type Ty = Option<usize>;
}

impl GetVariantField<TStr<Str_Limbs>, TStr<Str_legs>> for EnumOptA {
    open spec fn get_vfield_spec(&self) -> Option<&Option<usize>> {
        match self {
            EnumOptA::Limbs { legs: x, .. } => Some(x),
        }
    }

    proof fn lemma_vfield_iff_variant(&self) {
    }

    fn get_vfield_(&self, variant: TStr<Str_Limbs>, field: TStr<Str_legs>) -> (r: Option<&Option<usize>>) {
        match self {
            EnumOptA::Limbs { legs: x, .. } => Some(x),
        }
    }
}

impl GetVariantFieldMut<TStr<Str_Limbs>, TStr<Str_legs>> for EnumOptA {
    open spec fn vfield_updated(old: &Self, new: &Self, v: Option<usize>) -> bool {
        match *old {
            EnumOptA::Limbs { legs: f0, hands: f1 } => *new == Self::Limbs { legs: v, hands: f1 },
        }
    }

    open spec fn vfield_unchanged(old: &Self, new: &Self) -> bool {
        *new == *old
    }

    proof fn lemma_read_after_write(old: &Self, new: &Self, v: Option<usize>) {
    }

    proof fn lemma_vfield_unchanged_reads_same(old: &Self, new: &Self) {
    }

    fn get_vfield_mut_(&mut self, variant: TStr<Str_Limbs>, field: TStr<Str_legs>) -> (r: Option<&mut Option<usize>>) {
        match self {
            EnumOptA::Limbs { legs: x, .. } => Some(x),
        }
    }
}

impl IntoVariantField<TStr<Str_Limbs>, TStr<Str_legs>> for EnumOptA {
    fn into_vfield_(self, variant: TStr<Str_Limbs>, field: TStr<Str_legs>) -> (r: Option<Option<usize>>) {
        match self {
            EnumOptA::Limbs { legs: x, .. } => Some(x),
        }
    }
}

impl FieldType<VariantField<TStr<Str_Limbs>, TStr<Str_hands>>> for EnumOptA {
    type Ty = Option<usize>;
}

impl GetVariantField<TStr<Str_Limbs>, TStr<Str_hands>> for EnumOptA {
    open spec fn get_vfield_spec(&self) -> Option<&Option<usize>> {
        match self {
            EnumOptA::Limbs { hands: x, .. } => Some(x),
        }
    }

    proof fn lemma_vfield_iff_variant(&self) {
    }

    fn get_vfield_(&self, variant: TStr<Str_Limbs>, field: TStr<Str_hands>) -> (r: Option<&Option<usize>>) {
        match self {
            EnumOptA::Limbs { hands: x, .. } => Some(x),
        }
    }
}

impl GetVariantFieldMut<TStr<Str_Limbs>, TStr<Str_hands>> for EnumOptA {
    open spec fn vfield_updated(old: &Self, new: &Self, v: Option<usize>) -> bool {
        match *old {
            EnumOptA::Limbs { legs: f0, hands: f1 } => *new == Self::Limbs { legs: f0, hands: v },
        }
    }

    open spec fn vfield_unchanged(old: &Self, new: &Self) -> bool {
        *new == *old
    }

    proof fn lemma_read_after_write(old: &Self, new: &Self, v: Option<usize>) {
    }

    proof fn lemma_vfield_unchanged_reads_same(old: &Self, new: &Self) {
    }

    fn get_vfield_mut_(&mut self, variant: TStr<Str_Limbs>, field: TStr<Str_hands>) -> (r: Option<&mut Option<usize>>) {
        match self {
            EnumOptA::Limbs { hands: x, .. } => Some(x),
        }
    }
}

impl IntoVariantField<TStr<Str_Limbs>, TStr<Str_hands>> for EnumOptA {
    fn into_vfield_(self, variant: TStr<Str_Limbs>, field: TStr<Str_hands>) -> (r: Option<Option<usize>>) {
        match self {
            EnumOptA::Limbs { hands: x, .. } => Some(x),
        }
    }
}

impl VariantCount for EnumOptFlying {
    type Count = TStr<Str_1>;
}

impl IsVariant<TStr<Str_Limbs>> for EnumOptFlying {
    open spec fn is_variant_spec(&self) -> bool {
        *self is Limbs
    }

    fn is_variant_(&self, variant: TStr<Str_Limbs>) -> (r: bool) {
        match self {
            EnumOptFlying::Limbs { .. } => true,
        }
    }
}

impl FieldType<VariantField<TStr<Str_Limbs>, TStr<Str_legs>>> for EnumOptFlying {
    type Ty = Option<usize>;
}

impl GetVariantField<TStr<Str_Limbs>, TStr<Str_legs>> for EnumOptFlying {
    open spec fn get_vfield_spec(&self) -> Option<&Option<usize>> {
        match self {
            EnumOptFlying::Limbs { legs: x, .. } => Some(x),
        }
    }

    proof fn lemma_vfield_iff_variant(&self) {
    }

    fn get_vfield_(&self, variant: TStr<Str_Limbs>, field: TStr<Str_legs>) -> (r: Option<&Option<usize>>) {
        match self {
            EnumOptFlying::Limbs { legs: x, .. } => Some(x),
        }
    }
}

impl GetVariantFieldMut<TStr<Str_Limbs>, TStr<Str_legs>> for EnumOptFlying {
    open spec fn vfield_updated(old: &Self, new: &Self, v: Option<usize>) -> bool {
        match *old {
            EnumOptFlying::Limbs { legs: f0, hands: f1, noodles: f2 } => *new == Self::Limbs { legs: v, hands: f1, noodles: f2 },
        }
    }

    open spec fn vfield_unchanged(old: &Self, new: &Self) -> bool {
        *new == *old
    }

    proof fn lemma_read_after_write(old: &Self, new: &Self, v: Option<usize>) {
    }

    proof fn lemma_vfield_unchanged_reads_same(old: &Self, new: &Self) {
    }

    fn get_vfield_mut_(&mut self, variant: TStr<Str_Limbs>, field: TStr<Str_legs>) -> (r: Option<&mut Option<usize>>) {
        match self {
            EnumOptFlying::Limbs { legs: x, .. } => Some(x),
        }
    }
}

impl IntoVariantField<TStr<Str_Limbs>, TStr<Str_legs>> for EnumOptFlying {
    fn into_vfield_(self, variant: TStr<Str_Limbs>, field: TStr<Str_legs>) -> (r: Option<Option<usize>>) {
        match self {
            EnumOptFlying::Limbs { legs: x, .. } => Some(x),
        }
    }
}

impl FieldType<VariantField<TStr<Str_Limbs>, TStr<Str_hands>>> for EnumOptFlying {
    type Ty = Option<usize>;
}

impl GetVariantField<TStr<Str_Limbs>, TStr<Str_hands>> for EnumOptFlying {
    open spec fn get_vfield_spec(&self) -> Option<&Option<usize>> {
        match self {
            EnumOptFlying::Limbs { hands: x, .. } => Some(x),
        }
    }

    proof fn lemma_vfield_iff_variant(&self) {
    }

    fn get_vfield_(&self, variant: TStr<Str_Limbs>, field: TStr<Str_hands>) -> (r: Option<&Option<usize>>) {
        match self {
            EnumOptFlying::Limbs { hands: x, .. } => Some(x),
        }
    }
}

impl GetVariantFieldMut<TStr<Str_Limbs>, TStr<Str_hands>> for EnumOptFlying {
    open spec fn vfield_updated(old: &Self, new: &Self, v: Option<usize>) -> bool {
        match *old {
            EnumOptFlying::Limbs { legs: f0, hands: f1, noodles: f2 } => *new == Self::Limbs { legs: f0, hands: v, noodles: f2 },
        }
    }

    open spec fn vfield_unchanged(old: &Self, new: &Self) -> bool {
        *new == *old
    }

    proof fn lemma_read_after_write(old: &Self, new: &Self, v: Option<usize>) {
    }

    proof fn lemma_vfield_unchanged_reads_same(old: &Self, new: &Self) {
    }

    fn get_vfield_mut_(&mut self, variant: TStr<Str_Limbs>, field: TStr<Str_hands>) -> (r: Option<&mut Option<usize>>) {
        match self {
            EnumOptFlying::Limbs { hands: x, .. } => Some(x),
        }
    }
}

impl IntoVariantField<TStr<Str_Limbs>, TStr<Str_hands>> for EnumOptFlying {
    fn into_vfield_(self, variant: TStr<Str_Limbs>, field: TStr<Str_hands>) -> (r: Option<Option<usize>>) {
        match self {
            EnumOptFlying::Limbs { hands: x, .. } => Some(x),
        }
    }
}

impl FieldType<VariantField<TStr<Str_Limbs>, TStr<Str_noodles>>> for EnumOptFlying {
    type Ty = usize;
}

impl GetVariantField<TStr<Str_Limbs>, TStr<Str_noodles>> for EnumOptFlying {
    open spec fn get_vfield_spec(&self) -> Option<&usize> {
        match self {
            EnumOptFlying::Limbs { noodles: x, .. } => Some(x),
        }
    }

    proof fn lemma_vfield_iff_variant(&self) {
    }

    fn get_vfield_(&self, variant: TStr<Str_Limbs>, field: TStr<Str_noodles>) -> (r: Option<&usize>) {
        match self {
            EnumOptFlying::Limbs { noodles: x, .. } => Some(x),
        }
    }
}

impl GetVariantFieldMut<TStr<Str_Limbs>, TStr<Str_noodles>> for EnumOptFlying {
    open spec fn vfield_updated(old: &Self, new: &Self, v: usize) -> bool {
        match *old {
            EnumOptFlying::Limbs { legs: f0, hands: f1, noodles: f2 } => *new == Self::Limbs { legs: f0, hands: f1, noodles: v },
        }
    }

    open spec fn vfield_unchanged(old: &Self, new: &Self) -> bool {
        *new == *old
    }

    proof fn lemma_read_after_write(old: &Self, new: &Self, v: usize) {
    }

    proof fn lemma_vfield_unchanged_reads_same(old: &Self, new: &Self) {
    }

    fn get_vfield_mut_(&mut self, variant: TStr<Str_Limbs>, field: TStr<Str_noodles>) -> (r: Option<&mut usize>) {
        match self {
            EnumOptFlying::Limbs { noodles: x, .. } => Some(x),
        }
    }
}

impl IntoVariantField<TStr<Str_Limbs>, TStr<Str_noodles>> for EnumOptFlying {
    fn into_vfield_(self, variant: TStr<Str_Limbs>, field: TStr<Str_noodles>) -> (r: Option<usize>) {
        match self {
            EnumOptFlying::Limbs { noodles: x, .. } => Some(x),
        }
    }
}

impl VariantCount for Vegetable {
    type Count = TStr<Str_2>;
}

impl IsVariant<TStr<Str_Ziemniak>> for Vegetable {
    open spec fn is_variant_spec(&self) -> bool {
        *self is Potato
    }

    fn is_variant_(&self, variant: TStr<Str_Ziemniak>) -> (r: bool) {
        match self {
            Vegetable::Potato { .. } => true,
            _ => false,
        }
    }
}

impl FieldType<VariantField<TStr<Str_Ziemniak>, TStr<Str_centymetry_objetosci>>> for Vegetable {
    type Ty = u32;
}

impl GetVariantField<TStr<Str_Ziemniak>, TStr<Str_centymetry_objetosci>> for Vegetable {
    open spec fn get_vfield_spec(&self) -> Option<&u32> {
        match self {
            Vegetable::Potato { volume_cm: x } => Some(x),
            _ => None,
        }
    }

    proof fn lemma_vfield_iff_variant(&self) {
    }

    fn get_vfield_(&self, variant: TStr<Str_Ziemniak>, field: TStr<Str_centymetry_objetosci>) -> (r: Option<&u32>) {
        match self {
            Vegetable::Potato { volume_cm: x } => Some(x),
            _ => None,
        }
    }
}

impl GetVariantFieldMut<TStr<Str_Ziemniak>, TStr<Str_centymetry_objetosci>> for Vegetable {
    open spec fn vfield_updated(old: &Self, new: &Self, v: u32) -> bool {
        match *old {
            Vegetable::Potato { volume_cm: f0 } => *new == Self::Potato { volume_cm: v },
            _ => false,
        }
    }

    open spec fn vfield_unchanged(old: &Self, new: &Self) -> bool {
        *new == *old
    }

    proof fn lemma_read_after_write(old: &Self, new: &Self, v: u32) {
    }

    proof fn lemma_vfield_unchanged_reads_same(old: &Self, new: &Self) {
    }

    fn get_vfield_mut_(&mut self, variant: TStr<Str_Ziemniak>, field: TStr<Str_centymetry_objetosci>) -> (r: Option<&mut u32>) {
        match self {
            Vegetable::Potato { volume_cm: x } => Some(x),
            _ => {
                assert(<Self as GetVariantFieldMut<TStr<Str_Ziemniak>, TStr<Str_centymetry_objetosci>>>::vfield_unchanged(&*old(self), &*final(self)));
                None
            },
        }
    }
}

impl IntoVariantField<TStr<Str_Ziemniak>, TStr<Str_centymetry_objetosci>> for Vegetable {
    fn into_vfield_(self, variant: TStr<Str_Ziemniak>, field: TStr<Str_centymetry_objetosci>) -> (r: Option<u32>) {
        match self {
            Vegetable::Potato { volume_cm: x } => Some(x),
            _ => None,
        }
    }
}

impl IsVariant<TStr<Str_Shengcai>> for Vegetable {
    open spec fn is_variant_spec(&self) -> bool {
        *self is Letuce
    }

    fn is_variant_(&self, variant: TStr<Str_Shengcai>) -> (r: bool) {
        match self {
            Vegetable::Letuce { .. } => true,
            _ => false,
        }
    }
}

impl FieldType<VariantField<TStr<Str_Shengcai>, TStr<Str_Shuye>>> for Vegetable {
    type Ty = u32;
}

impl GetVariantField<TStr<Str_Shengcai>, TStr<Str_Shuye>> for Vegetable {
    open spec fn get_vfield_spec(&self) -> Option<&u32> {
        match self {
            Vegetable::Letuce { leaves: x } => Some(x),
            _ => None,
        }
    }

    proof fn lemma_vfield_iff_variant(&self) {
    }

    fn get_vfield_(&self, variant: TStr<Str_Shengcai>, field: TStr<Str_Shuye>) -> (r: Option<&u32>) {
        match self {
            Vegetable::Letuce { leaves: x } => Some(x),
            _ => None,
        }
    }
}

impl GetVariantFieldMut<TStr<Str_Shengcai>, TStr<Str_Shuye>> for Vegetable {
    open spec fn vfield_updated(old: &Self, new: &Self, v: u32) -> bool {
        match *old {
            Vegetable::Letuce { leaves: f0 } => *new == Self::Letuce { leaves: v },
            _ => false,
        }
    }

    open spec fn vfield_unchanged(old: &Self, new: &Self) -> bool {
        *new == *old
    }

    proof fn lemma_read_after_write(old: &Self, new: &Self, v: u32) {
    }

    proof fn lemma_vfield_unchanged_reads_same(old: &Self, new: &Self) {
    }

    fn get_vfield_mut_(&mut self, variant: TStr<Str_Shengcai>, field: TStr<Str_Shuye>) -> (r: Option<&mut u32>) {
        match self {
            Vegetable::Letuce { leaves: x } => Some(x),
            _ => {
                assert(<Self as GetVariantFieldMut<TStr<Str_Shengcai>, TStr<Str_Shuye>>>::vfield_unchanged(&*old(self), &*final(self)));
                None
            },
        }
    }
}

impl IntoVariantField<TStr<Str_Shengcai>, TStr<Str_Shuye>> for Vegetable {
    fn into_vfield_(self, variant: TStr<Str_Shengcai>, field: TStr<Str_Shuye>) -> (r: Option<u32>) {
        match self {
            Vegetable::Letuce { leaves: x } => Some(x),
            _ => None,
        }
    }
}

impl VariantCount for Enum1 {
    type Count = TStr<Str_1>;
}

impl IsVariant<TStr<Str_Foo>> for Enum1 {
    open spec fn is_variant_spec(&self) -> bool {
        *self is Foo
    }

    fn is_variant_(&self, variant: TStr<Str_Foo>) -> (r: bool) {
        match self {
            Enum1::Foo(..) => true,
        }
    }
}

impl FieldType<VariantField<TStr<Str_Foo>, TStr<Str_0>>> for Enum1 {
    type Ty = u8;
}

impl GetVariantField<TStr<Str_Foo>, TStr<Str_0>> for Enum1 {
    open spec fn get_vfield_spec(&self) -> Option<&u8> {
        match self {
            Enum1::Foo(x, _) => Some(x),
        }
    }

    proof fn lemma_vfield_iff_variant(&self) {
    }

    fn get_vfield_(&self, variant: TStr<Str_Foo>, field: TStr<Str_0>) -> (r: Option<&u8>) {
        match self {
            Enum1::Foo(x, _) => Some(x),
        }
    }
}

impl GetVariantFieldMut<TStr<Str_Foo>, TStr<Str_0>> for Enum1 {
    open spec fn vfield_updated(old: &Self, new: &Self, v: u8) -> bool {
        match *old {
            Enum1::Foo(f0, f1) => *new == Self::Foo(v, f1),
        }
    }

    open spec fn vfield_unchanged(old: &Self, new: &Self) -> bool {
        *new == *old
    }

    proof fn lemma_read_after_write(old: &Self, new: &Self, v: u8) {
    }

    proof fn lemma_vfield_unchanged_reads_same(old: &Self, new: &Self) {
    }

    fn get_vfield_mut_(&mut self, variant: TStr<Str_Foo>, field: TStr<Str_0>) -> (r: Option<&mut u8>) {
        match self {
            Enum1::Foo(x, _) => Some(x),
        }
    }
}

impl IntoVariantField<TStr<Str_Foo>, TStr<Str_0>> for Enum1 {
    fn into_vfield_(self, variant: TStr<Str_Foo>, field: TStr<Str_0>) -> (r: Option<u8>) {
        match self {
            Enum1::Foo(x, _) => Some(x),
        }
    }
}

impl FieldType<VariantField<TStr<Str_Foo>, TStr<Str_1>>> for Enum1 {
    type Ty = u16;
}

impl GetVariantField<TStr<Str_Foo>, TStr<Str_1>> for Enum1 {
    open spec fn get_vfield_spec(&self) -> Option<&u16> {
        match self {
            Enum1::Foo(_, x) => Some(x),
        }
    }

    proof fn lemma_vfield_iff_variant(&self) {
    }

    fn get_vfield_(&self, variant: TStr<Str_Foo>, field: TStr<Str_1>) -> (r: Option<&u16>) {
        match self {
            Enum1::Foo(_, x) => Some(x),
        }
    }
}

impl GetVariantFieldMut<TStr<Str_Foo>, TStr<Str_1>> for Enum1 {
    open spec fn vfield_updated(old: &Self, new: &Self, v: u16) -> bool {
        match *old {
            Enum1::Foo(f0, f1) => *new == Self::Foo(f0, v),
        }
    }

    open spec fn vfield_unchanged(old: &Self, new: &Self) -> bool {
        *new == *old
    }

    proof fn lemma_read_after_write(old: &Self, new: &Self, v: u16) {
    }

    proof fn lemma_vfield_unchanged_reads_same(old: &Self, new: &Self) {
    }

    fn get_vfield_mut_(&mut self, variant: TStr<Str_Foo>, field: TStr<Str_1>) -> (r: Option<&mut u16>) {
        match self {
            Enum1::Foo(_, x) => Some(x),
        }
    }
}

impl IntoVariantField<TStr<Str_Foo>, TStr<Str_1>> for Enum1 {
    fn into_vfield_(self, variant: TStr<Str_Foo>, field: TStr<Str_1>) -> (r: Option<u16>) {
        match self {
            Enum1::Foo(_, x) => Some(x),
        }
    }
}

impl VariantCount for Variants {
    type Count = TStr<Str_4>;
}

impl IsVariant<TStr<Str_Foo>> for Variants {
    open spec fn is_variant_spec(&self) -> bool {
        *self is Foo
    }

    fn is_variant_(&self, variant: TStr<Str_Foo>) -> (r: bool) {
        match self {
            Variants::Foo(..) => true,
            _ => false,
        }
    }
}

impl FieldType<VariantField<TStr<Str_Foo>, TStr<Str_0>>> for Variants {
    type Ty = u32;
}

impl GetVariantField<TStr<Str_Foo>, TStr<Str_0>> for Variants {
    open spec fn get_vfield_spec(&self) -> Option<&u32> {
        match self {
            Variants::Foo(x, _) => Some(x),
            _ => None,
        }
    }

    proof fn lemma_vfield_iff_variant(&self) {
    }

    fn get_vfield_(&self, variant: TStr<Str_Foo>, field: TStr<Str_0>) -> (r: Option<&u32>) {
        match self {
            Variants::Foo(x, _) => Some(x),
            _ => None,
        }
    }
}

impl GetVariantFieldMut<TStr<Str_Foo>, TStr<Str_0>> for Variants {
    open spec fn vfield_updated(old: &Self, new: &Self, v: u32) -> bool {
        match *old {
            Variants::Foo(f0, f1) => *new == Self::Foo(v, f1),
            _ => false,
        }
    }

    open spec fn vfield_unchanged(old: &Self, new: &Self) -> bool {
        *new == *old
    }

    proof fn lemma_read_after_write(old: &Self, new: &Self, v: u32) {
    }

    proof fn lemma_vfield_unchanged_reads_same(old: &Self, new: &Self) {
    }

    fn get_vfield_mut_(&mut self, variant: TStr<Str_Foo>, field: TStr<Str_0>) -> (r: Option<&mut u32>) {
        match self {
            Variants::Foo(x, _) => Some(x),
            _ => {
                assert(<Self as GetVariantFieldMut<TStr<Str_Foo>, TStr<Str_0>>>::vfield_unchanged(&*old(self), &*final(self)));
                None
            },
        }
    }
}

impl IntoVariantField<TStr<Str_Foo>, TStr<Str_0>> for Variants {
    fn into_vfield_(self, variant: TStr<Str_Foo>, field: TStr<Str_0>) -> (r: Option<u32>) {
        match self {
            Variants::Foo(x, _) => Some(x),
            _ => None,
        }
    }
}

impl FieldType<VariantField<TStr<Str_Foo>, TStr<Str_1>>> for Variants {
    type Ty = u64;
}

impl GetVariantField<TStr<Str_Foo>, TStr<Str_1>> for Variants {
    open spec fn get_vfield_spec(&self) -> Option<&u64> {
        match self {
            Variants::Foo(_, x) => Some(x),
            _ => None,
        }
    }

    proof fn lemma_vfield_iff_variant(&self) {
    }

    fn get_vfield_(&self, variant: TStr<Str_Foo>, field: TStr<Str_1>) -> (r: Option<&u64>) {
        match self {
            Variants::Foo(_, x) => Some(x),
            _ => None,
        }
    }
}

impl GetVariantFieldMut<TStr<Str_Foo>, TStr<Str_1>> for Variants {
    open spec fn vfield_updated(old: &Self, new: &Self, v: u64) -> bool {
        match *old {
            Variants::Foo(f0, f1) => *new == Self::Foo(f0, v),
            _ => false,
        }
    }

    open spec fn vfield_unchanged(old: &Self, new: &Self) -> bool {
        *new == *old
    }

    proof fn lemma_read_after_write(old: &Self, new: &Self, v: u64) {
    }

    proof fn lemma_vfield_unchanged_reads_same(old: &Self, new: &Self) {
    }

    fn get_vfield_mut_(&mut self, variant: TStr<Str_Foo>, field: TStr<Str_1>) -> (r: Option<&mut u64>) {
        match self {
            Variants::Foo(_, x) => Some(x),
            _ => {
                assert(<Self as GetVariantFieldMut<TStr<Str_Foo>, TStr<Str_1>>>::vfield_unchanged(&*old(self), &*final(self)));
                None
            },
        }
    }
}

impl IntoVariantField<TStr<Str_Foo>, TStr<Str_1>> for Variants {
    fn into_vfield_(self, variant: TStr<Str_Foo>, field: TStr<Str_1>) -> (r: Option<u64>) {
        match self {
            Variants::Foo(_, x) => Some(x),
            _ => None,
        }
    }
}

impl IsVariant<TStr<Str_Bar>> for Variants {
    open spec fn is_variant_spec(&self) -> bool {
        *self is Bar
    }

    fn is_variant_(&self, variant: TStr<Str_Bar>) -> (r: bool) {
        match self {
            Variants::Bar(..) => true,
            _ => false,
        }
    }
}

impl FieldType<VariantField<TStr<Str_Bar>, TStr<Str_0>>> for Variants {
    type Ty = &'static str;
}

impl GetVariantField<TStr<Str_Bar>, TStr<Str_0>> for Variants {
    open spec fn get_vfield_spec(&self) -> Option<&&'static str> {
        match self {
            Variants::Bar(x) => Some(x),
            _ => None,
        }
    }

    proof fn lemma_vfield_iff_variant(&self) {
    }

    fn get_vfield_(&self, variant: TStr<Str_Bar>, field: TStr<Str_0>) -> (r: Option<&&'static str>) {
        match self {
            Variants::Bar(x) => Some(x),
            _ => None,
        }
    }
}

impl GetVariantFieldMut<TStr<Str_Bar>, TStr<Str_0>> for Variants {
    open spec fn vfield_updated(old: &Self, new: &Self, v: &'static str) -> bool {
        match *old {
            Variants::Bar(f0) => *new == Self::Bar(v),
            _ => false,
        }
    }

    open spec fn vfield_unchanged(old: &Self, new: &Self) -> bool {
        *new == *old
    }

    proof fn lemma_read_after_write(old: &Self, new: &Self, v: &'static str) {
    }

    proof fn lemma_vfield_unchanged_reads_same(old: &Self, new: &Self) {
    }

    fn get_vfield_mut_(&mut self, variant: TStr<Str_Bar>, field: TStr<Str_0>) -> (r: Option<&mut &'static str>) {
        match self {
            Variants::Bar(x) => Some(x),
            _ => {
                assert(<Self as GetVariantFieldMut<TStr<Str_Bar>, TStr<Str_0>>>::vfield_unchanged(&*old(self), &*final(self)));
                None
            },
        }
    }
}

impl IntoVariantField<TStr<Str_Bar>, TStr<Str_0>> for Variants {
    fn into_vfield_(self, variant: TStr<Str_Bar>, field: TStr<Str_0>) -> (r: Option<&'static str>) {
        match self {
            Variants::Bar(x) => Some(x),
            _ => None,
        }
    }
}

impl IsVariant<TStr<Str_Baz>> for Variants {
    open spec fn is_variant_spec(&self) -> bool {
        *self is Baz
    }

    fn is_variant_(&self, variant: TStr<Str_Baz>) -> (r: bool) {
        match self {
            Variants::Baz(..) => true,
            _ => false,
        }
    }
}

impl FieldType<VariantField<TStr<Str_Baz>, TStr<Str_0>>> for Variants {
    type Ty = Option<Comparison>;
}

impl GetVariantField<TStr<Str_Baz>, TStr<Str_0>> for Variants {
    open spec fn get_vfield_spec(&self) -> Option<&Option<Comparison>> {
        match self {
            Variants::Baz(x) => Some(x),
            _ => None,
        }
    }

    proof fn lemma_vfield_iff_variant(&self) {
    }

    fn get_vfield_(&self, variant: TStr<Str_Baz>, field: TStr<Str_0>) -> (r: Option<&Option<Comparison>>) {
        match self {
            Variants::Baz(x) => Some(x),
            _ => None,
        }
    }
}

impl GetVariantFieldMut<TStr<Str_Baz>, TStr<Str_0>> for Variants {
    open spec fn vfield_updated(old: &Self, new: &Self, v: Option<Comparison>) -> bool {
        match *old {
            Variants::Baz(f0) => *new == Self::Baz(v),
            _ => false,
        }
    }

    open spec fn vfield_unchanged(old: &Self, new: &Self) -> bool {
        *new == *old
    }

    proof fn lemma_read_after_write(old: &Self, new: &Self, v: Option<Comparison>) {
    }

    proof fn lemma_vfield_unchanged_reads_same(old: &Self, new: &Self) {
    }

    fn get_vfield_mut_(&mut self, variant: TStr<Str_Baz>, field: TStr<Str_0>) -> (r: Option<&mut Option<Comparison>>) {
        match self {
            Variants::Baz(x) => Some(x),
            _ => {
                assert(<Self as GetVariantFieldMut<TStr<Str_Baz>, TStr<Str_0>>>::vfield_unchanged(&*old(self), &*final(self)));
                None
            },
        }
    }
}

impl IntoVariantField<TStr<Str_Baz>, TStr<Str_0>> for Variants {
    fn into_vfield_(self, variant: TStr<Str_Baz>, field: TStr<Str_0>) -> (r: Option<Option<Comparison>>) {
        match self {
            Variants::Baz(x) => Some(x),
            _ => None,
        }
    }
}

impl IsVariant<TStr<Str_Boom>> for Variants {
    open spec fn is_variant_spec(&self) -> bool {
        *self is Boom
    }

    fn is_variant_(&self, variant: TStr<Str_Boom>) -> (r: bool) {
        match self {
            Variants::Boom { .. } => true,
            _ => false,
        }
    }
}

impl FieldType<VariantField<TStr<Str_Boom>, TStr<Str_a>>> for Variants {
    type Ty = Option<&'static [u8]>;
}

impl GetVariantField<TStr<Str_Boom>, TStr<Str_a>> for Variants {
    open spec fn get_vfield_spec(&self) -> Option<&Option<&'static [u8]>> {
        match self {
            Variants::Boom { a: x, .. } => Some(x),
            _ => None,
        }
    }

    proof fn lemma_vfield_iff_variant(&self) {
    }

    fn get_vfield_(&self, variant: TStr<Str_Boom>, field: TStr<Str_a>) -> (r: Option<&Option<&'static [u8]>>) {
        match self {
            Variants::Boom { a: x, .. } => Some(x),
            _ => None,
        }
    }
}

impl GetVariantFieldMut<TStr<Str_Boom>, TStr<Str_a>> for Variants {
    open spec fn vfield_updated(old: &Self, new: &Self, v: Option<&'static [u8]>) -> bool {
        match *old {
            Variants::Boom { a: f0, b: f1 } => *new == Self::Boom { a: v, b: f1 },
            _ => false,
        }
    }

    open spec fn vfield_unchanged(old: &Self, new: &Self) -> bool {
        *new == *old
    }

    proof fn lemma_read_after_write(old: &Self, new: &Self, v: Option<&'static [u8]>) {
    }

    proof fn lemma_vfield_unchanged_reads_same(old: &Self, new: &Self) {
    }

    fn get_vfield_mut_(&mut self, variant: TStr<Str_Boom>, field: TStr<Str_a>) -> (r: Option<&mut Option<&'static [u8]>>) {
        match self {
            Variants::Boom { a: x, .. } => Some(x),
            _ => {
                assert(<Self as GetVariantFieldMut<TStr<Str_Boom>, TStr<Str_a>>>::vfield_unchanged(&*old(self), &*final(self)));
                None
            },
        }
    }
}

impl IntoVariantField<TStr<Str_Boom>, TStr<Str_a>> for Variants {
    fn into_vfield_(self, variant: TStr<Str_Boom>, field: TStr<Str_a>) -> (r: Option<Option<&'static [u8]>>) {
        match self {
            Variants::Boom { a: x, .. } => Some(x),
            _ => None,
        }
    }
}

impl FieldType<VariantField<TStr<Str_Boom>, TStr<Str_b>>> for Variants {
    type Ty = &'static [u16];
}

impl GetVariantField<TStr<Str_Boom>, TStr<Str_b>> for Variants {
    open spec fn get_vfield_spec(&self) -> Option<&&'static [u16]> {
        match self {
            Variants::Boom { b: x, .. } => Some(x),
            _ => None,
        }
    }

    proof fn lemma_vfield_iff_variant(&self) {
    }

    fn get_vfield_(&self, variant: TStr<Str_Boom>, field: TStr<Str_b>) -> (r: Option<&&'static [u16]>) {
        match self {
            Variants::Boom { b: x, .. } => Some(x),
            _ => None,
        }
    }
}

impl GetVariantFieldMut<TStr<Str_Boom>, TStr<Str_b>> for Variants {
    open spec fn vfield_updated(old: &Self, new: &Self, v: &'static [u16]) -> bool {
        match *old {
            Variants::Boom { a: f0, b: f1 } => *new == Self::Boom { a: f0, b: v },
            _ => false,
        }
    }

    open spec fn vfield_unchanged(old: &Self, new: &Self) -> bool {
        *new == *old
    }

    proof fn lemma_read_after_write(old: &Self, new: &Self, v: &'static [u16]) {
    }

    proof fn lemma_vfield_unchanged_reads_same(old: &Self, new: &Self) {
    }

    fn get_vfield_mut_(&mut self, variant: TStr<Str_Boom>, field: TStr<Str_b>) -> (r: Option<&mut &'static [u16]>) {
        match self {
            Variants::Boom { b: x, .. } => Some(x),
            _ => {
                assert(<Self as GetVariantFieldMut<TStr<Str_Boom>, TStr<Str_b>>>::vfield_unchanged(&*old(self), &*final(self)));
                None
            },
        }
    }
}

impl IntoVariantField<TStr<Str_Boom>, TStr<Str_b>> for Variants {
    fn into_vfield_(self, variant: TStr<Str_Boom>, field: TStr<Str_b>) -> (r: Option<&'static [u16]>) {
        match self {
            Variants::Boom { b: x, .. } => Some(x),
            _ => None,
        }
    }
}

impl VariantCount for Enum2 {
    type Count = TStr<Str_2>;
}

impl IsVariant<TStr<Str_Foo>> for Enum2 {
    open spec fn is_variant_spec(&self) -> bool {
        *self is Foo
    }

    fn is_variant_(&self, variant: TStr<Str_Foo>) -> (r: bool) {
        match self {
            Enum2::Foo(..) => true,
            _ => false,
        }
    }
}

impl FieldType<VariantField<TStr<Str_Foo>, TStr<Str_0>>> for Enum2 {
    type Ty = u8;
}

impl GetVariantField<TStr<Str_Foo>, TStr<Str_0>> for Enum2 {
    open spec fn get_vfield_spec(&self) -> Option<&u8> {
        match self {
            Enum2::Foo(x, _) => Some(x),
            _ => None,
        }
    }

    proof fn lemma_vfield_iff_variant(&self) {
    }

    fn get_vfield_(&self, variant: TStr<Str_Foo>, field: TStr<Str_0>) -> (r: Option<&u8>) {
        match self {
            Enum2::Foo(x, _) => Some(x),
            _ => None,
        }
    }
}

impl GetVariantFieldMut<TStr<Str_Foo>, TStr<Str_0>> for Enum2 {
    open spec fn vfield_updated(old: &Self, new: &Self, v: u8) -> bool {
        match *old {
            Enum2::Foo(f0, f1) => *new == Self::Foo(v, f1),
            _ => false,
        }
    }

    open spec fn vfield_unchanged(old: &Self, new: &Self) -> bool {
        *new == *old
    }

    proof fn lemma_read_after_write(old: &Self, new: &Self, v: u8) {
    }

    proof fn lemma_vfield_unchanged_reads_same(old: &Self, new: &Self) {
    }

    fn get_vfield_mut_(&mut self, variant: TStr<Str_Foo>, field: TStr<Str_0>) -> (r: Option<&mut u8>) {
        match self {
            Enum2::Foo(x, _) => Some(x),
            _ => {
                assert(<Self as GetVariantFieldMut<TStr<Str_Foo>, TStr<Str_0>>>::vfield_unchanged(&*old(self), &*final(self)));
                None
            },
        }
    }
}

impl IntoVariantField<TStr<Str_Foo>, TStr<Str_0>> for Enum2 {
    fn into_vfield_(self, variant: TStr<Str_Foo>, field: TStr<Str_0>) -> (r: Option<u8>) {
        match self {
            Enum2::Foo(x, _) => Some(x),
            _ => None,
        }
    }
}

impl FieldType<VariantField<TStr<Str_Foo>, TStr<Str_1>>> for Enum2 {
    type Ty = u16;
}

impl GetVariantField<TStr<Str_Foo>, TStr<Str_1>> for Enum2 {
    open spec fn get_vfield_spec(&self) -> Option<&u16> {
        match self {
            Enum2::Foo(_, x) => Some(x),
            _ => None,
        }
    }

    proof fn lemma_vfield_iff_variant(&self) {
    }

    fn get_vfield_(&self, variant: TStr<Str_Foo>, field: TStr<Str_1>) -> (r: Option<&u16>) {
        match self {
            Enum2::Foo(_, x) => Some(x),
            _ => None,
        }
    }
}

impl GetVariantFieldMut<TStr<Str_Foo>, TStr<Str_1>> for Enum2 {
    open spec fn vfield_updated(old: &Self, new: &Self, v: u16) -> bool {
        match *old {
            Enum2::Foo(f0, f1) => *new == Self::Foo(f0, v),
            _ => false,
        }
    }

    open spec fn vfield_unchanged(old: &Self, new: &Self) -> bool {
        *new == *old
    }

    proof fn lemma_read_after_write(old: &Self, new: &Self, v: u16) {
    }

    proof fn lemma_vfield_unchanged_reads_same(old: &Self, new: &Self) {
    }

    fn get_vfield_mut_(&mut self, variant: TStr<Str_Foo>, field: TStr<Str_1>) -> (r: Option<&mut u16>) {
        match self {
            Enum2::Foo(_, x) => Some(x),
            _ => {
                assert(<Self as GetVariantFieldMut<TStr<Str_Foo>, TStr<Str_1>>>::vfield_unchanged(&*old(self), &*final(self)));
                None
            },
        }
    }
}

impl IntoVariantField<TStr<Str_Foo>, TStr<Str_1>> for Enum2 {
    fn into_vfield_(self, variant: TStr<Str_Foo>, field: TStr<Str_1>) -> (r: Option<u16>) {
        match self {
            Enum2::Foo(_, x) => Some(x),
            _ => None,
        }
    }
}

impl IsVariant<TStr<Str_Bar>> for Enum2 {
    open spec fn is_variant_spec(&self) -> bool {
        *self is Bar
    }

    fn is_variant_(&self, variant: TStr<Str_Bar>) -> (r: bool) {
        match self {
            Enum2::Bar(..) => true,
            _ => false,
        }
    }
}

impl FieldType<VariantField<TStr<Str_Bar>, TStr<Str_0>>> for Enum2 {
    type Ty = Comparison;
}

impl GetVariantField<TStr<Str_Bar>, TStr<Str_0>> for Enum2 {
    open spec fn get_vfield_spec(&self) -> Option<&Comparison> {
        match self {
            Enum2::Bar(x, _) => Some(x),
            _ => None,
        }
    }

    proof fn lemma_vfield_iff_variant(&self) {
    }

    fn get_vfield_(&self, variant: TStr<Str_Bar>, field: TStr<Str_0>) -> (r: Option<&Comparison>) {
        match self {
            Enum2::Bar(x, _) => Some(x),
            _ => None,
        }
    }
}

impl GetVariantFieldMut<TStr<Str_Bar>, TStr<Str_0>> for Enum2 {
    open spec fn vfield_updated(old: &Self, new: &Self, v: Comparison) -> bool {
        match *old {
            Enum2::Bar(f0, f1) => *new == Self::Bar(v, f1),
            _ => false,
        }
    }

    open spec fn vfield_unchanged(old: &Self, new: &Self) -> bool {
        *new == *old
    }

    proof fn lemma_read_after_write(old: &Self, new: &Self, v: Comparison) {
    }

    proof fn lemma_vfield_unchanged_reads_same(old: &Self, new: &Self) {
    }

    fn get_vfield_mut_(&mut self, variant: TStr<Str_Bar>, field: TStr<Str_0>) -> (r: Option<&mut Comparison>) {
        match self {
            Enum2::Bar(x, _) => Some(x),
            _ => {
                assert(<Self as GetVariantFieldMut<TStr<Str_Bar>, TStr<Str_0>>>::vfield_unchanged(&*old(self), &*final(self)));
                None
            },
        }
    }
}

impl IntoVariantField<TStr<Str_Bar>, TStr<Str_0>> for Enum2 {
    fn into_vfield_(self, variant: TStr<Str_Bar>, field: TStr<Str_0>) -> (r: Option<Comparison>) {
        match self {
            Enum2::Bar(x, _) => Some(x),
            _ => None,
        }
    }
}

impl FieldType<VariantField<TStr<Str_Bar>, TStr<Str_1>>> for Enum2 {
    type Ty = Option<u64>;
}

impl GetVariantField<TStr<Str_Bar>, TStr<Str_1>> for Enum2 {
    open spec fn get_vfield_spec(&self) -> Option<&Option<u64>> {
        match self {
            Enum2::Bar(_, x) => Some(x),
            _ => None,
        }
    }

    proof fn lemma_vfield_iff_variant(&self) {
    }

    fn get_vfield_(&self, variant: TStr<Str_Bar>, field: TStr<Str_1>) -> (r: Option<&Option<u64>>) {
        match self {
            Enum2::Bar(_, x) => Some(x),
            _ => None,
        }
    }
}

impl GetVariantFieldMut<TStr<Str_Bar>, TStr<Str_1>> for Enum2 {
    open spec fn vfield_updated(old: &Self, new: &Self, v: Option<u64>) -> bool {
        match *old {
            Enum2::Bar(f0, f1) => *new == Self::Bar(f0, v),
            _ => false,
        }
    }

    open spec fn vfield_unchanged(old: &Self, new: &Self) -> bool {
        *new == *old
    }

    proof fn lemma_read_after_write(old: &Self, new: &Self, v: Option<u64>) {
    }

    proof fn lemma_vfield_unchanged_reads_same(old: &Self, new: &Self) {
    }

    fn get_vfield_mut_(&mut self, variant: TStr<Str_Bar>, field: TStr<Str_1>) -> (r: Option<&mut Option<u64>>) {
        match self {
            Enum2::Bar(_, x) => Some(x),
            _ => {
                assert(<Self as GetVariantFieldMut<TStr<Str_Bar>, TStr<Str_1>>>::vfield_unchanged(&*old(self), &*final(self)));
                None
            },
        }
    }
}

impl IntoVariantField<TStr<Str_Bar>, TStr<Str_1>> for Enum2 {
    fn into_vfield_(self, variant: TStr<Str_Bar>, field: TStr<Str_1>) -> (r: Option<Option<u64>>) {
        match self {
            Enum2::Bar(_, x) => Some(x),
            _ => None,
        }
    }
}

impl VariantCount for Enum3 {
    type Count = TStr<Str_3>;
}

impl IsVariant<TStr<Str_Foo>> for Enum3 {
    open spec fn is_variant_spec(&self) -> bool {
        *self is Foo
    }

    fn is_variant_(&self, variant: TStr<Str_Foo>) -> (r: bool) {
        match self {
            Enum3::Foo(..) => true,
            _ => false,
        }
    }
}

impl FieldType<VariantField<TStr<Str_Foo>, TStr<Str_0>>> for Enum3 {
    type Ty = u8;
}

impl GetVariantField<TStr<Str_Foo>, TStr<Str_0>> for Enum3 {
    open spec fn get_vfield_spec(&self) -> Option<&u8> {
        match self {
            Enum3::Foo(x, _) => Some(x),
            _ => None,
        }
    }

    proof fn lemma_vfield_iff_variant(&self) {
    }

    fn get_vfield_(&self, variant: TStr<Str_Foo>, field: TStr<Str_0>) -> (r: Option<&u8>) {
        match self {
            Enum3::Foo(x, _) => Some(x),
            _ => None,
        }
    }
}

impl GetVariantFieldMut<TStr<Str_Foo>, TStr<Str_0>> for Enum3 {
    open spec fn vfield_updated(old: &Self, new: &Self, v: u8) -> bool {
        match *old {
            Enum3::Foo(f0, f1) => *new == Self::Foo(v, f1),
            _ => false,
        }
    }

    open spec fn vfield_unchanged(old: &Self, new: &Self) -> bool {
        *new == *old
    }

    proof fn lemma_read_after_write(old: &Self, new: &Self, v: u8) {
    }

    proof fn lemma_vfield_unchanged_reads_same(old: &Self, new: &Self) {
    }

    fn get_vfield_mut_(&mut self, variant: TStr<Str_Foo>, field: TStr<Str_0>) -> (r: Option<&mut u8>) {
        match self {
            Enum3::Foo(x, _) => Some(x),
            _ => {
                assert(<Self as GetVariantFieldMut<TStr<Str_Foo>, TStr<Str_0>>>::vfield_unchanged(&*old(self), &*final(self)));
                None
            },
        }
    }
}

impl IntoVariantField<TStr<Str_Foo>, TStr<Str_0>> for Enum3 {
    fn into_vfield_(self, variant: TStr<Str_Foo>, field: TStr<Str_0>) -> (r: Option<u8>) {
        match self {
            Enum3::Foo(x, _) => Some(x),
            _ => None,
        }
    }
}

impl FieldType<VariantField<TStr<Str_Foo>, TStr<Str_1>>> for Enum3 {
    type Ty = u16;
}

impl GetVariantField<TStr<Str_Foo>, TStr<Str_1>> for Enum3 {
    open spec fn get_vfield_spec(&self) -> Option<&u16> {
        match self {
            Enum3::Foo(_, x) => Some(x),
            _ => None,
        }
    }

    proof fn lemma_vfield_iff_variant(&self) {
    }

    fn get_vfield_(&self, variant: TStr<Str_Foo>, field: TStr<Str_1>) -> (r: Option<&u16>) {
        match self {
            Enum3::Foo(_, x) => Some(x),
            _ => None,
        }
    }
}

impl GetVariantFieldMut<TStr<Str_Foo>, TStr<Str_1>> for Enum3 {
    open spec fn vfield_updated(old: &Self, new: &Self, v: u16) -> bool {
        match *old {
            Enum3::Foo(f0, f1) => *new == Self::Foo(f0, v),
            _ => false,
        }
    }

    open spec fn vfield_unchanged(old: &Self, new: &Self) -> bool {
        *new == *old
    }

    proof fn lemma_read_after_write(old: &Self, new: &Self, v: u16) {
    }

    proof fn lemma_vfield_unchanged_reads_same(old: &Self, new: &Self) {
    }

    fn get_vfield_mut_(&mut self, variant: TStr<Str_Foo>, field: TStr<Str_1>) -> (r: Option<&mut u16>) {
        match self {
            Enum3::Foo(_, x) => Some(x),
            _ => {
                assert(<Self as GetVariantFieldMut<TStr<Str_Foo>, TStr<Str_1>>>::vfield_unchanged(&*old(self), &*final(self)));
                None
            },
        }
    }
}

impl IntoVariantField<TStr<Str_Foo>, TStr<Str_1>> for Enum3 {
    fn into_vfield_(self, variant: TStr<Str_Foo>, field: TStr<Str_1>) -> (r: Option<u16>) {
        match self {
            Enum3::Foo(_, x) => Some(x),
            _ => None,
        }
    }
}

impl IsVariant<TStr<Str_Bar>> for Enum3 {
    open spec fn is_variant_spec(&self) -> bool {
        *self is Bar
    }

    fn is_variant_(&self, variant: TStr<Str_Bar>) -> (r: bool) {
        match self {
            Enum3::Bar(..) => true,
            _ => false,
        }
    }
}

impl FieldType<VariantField<TStr<Str_Bar>, TStr<Str_0>>> for Enum3 {
    type Ty = Comparison;
}

impl GetVariantField<TStr<Str_Bar>, TStr<Str_0>> for Enum3 {
    open spec fn get_vfield_spec(&self) -> Option<&Comparison> {
        match self {
            Enum3::Bar(x, _) => Some(x),
            _ => None,
        }
    }

    proof fn lemma_vfield_iff_variant(&self) {
    }

    fn get_vfield_(&self, variant: TStr<Str_Bar>, field: TStr<Str_0>) -> (r: Option<&Comparison>) {
        match self {
            Enum3::Bar(x, _) => Some(x),
            _ => None,
        }
    }
}

impl GetVariantFieldMut<TStr<Str_Bar>, TStr<Str_0>> for Enum3 {
    open spec fn vfield_updated(old: &Self, new: &Self, v: Comparison) -> bool {
        match *old {
            Enum3::Bar(f0, f1) => *new == Self::Bar(v, f1),
            _ => false,
        }
    }

    open spec fn vfield_unchanged(old: &Self, new: &Self) -> bool {
        *new == *old
    }

    proof fn lemma_read_after_write(old: &Self, new: &Self, v: Comparison) {
    }

    proof fn lemma_vfield_unchanged_reads_same(old: &Self, new: &Self) {
    }

    fn get_vfield_mut_(&mut self, variant: TStr<Str_Bar>, field: TStr<Str_0>) -> (r: Option<&mut Comparison>) {
        match self {
            Enum3::Bar(x, _) => Some(x),
            _ => {
                assert(<Self as GetVariantFieldMut<TStr<Str_Bar>, TStr<Str_0>>>::vfield_unchanged(&*old(self), &*final(self)));
                None
            },
        }
    }
}

impl IntoVariantField<TStr<Str_Bar>, TStr<Str_0>> for Enum3 {
    fn into_vfield_(self, variant: TStr<Str_Bar>, field: TStr<Str_0>) -> (r: Option<Comparison>) {
        match self {
            Enum3::Bar(x, _) => Some(x),
            _ => None,
        }
    }
}

impl FieldType<VariantField<TStr<Str_Bar>, TStr<Str_1>>> for Enum3 {
    type Ty = Option<u64>;
}

impl GetVariantField<TStr<Str_Bar>, TStr<Str_1>> for Enum3 {
    open spec fn get_vfield_spec(&self) -> Option<&Option<u64>> {
        match self {
            Enum3::Bar(_, x) => Some(x),
            _ => None,
        }
    }

    proof fn lemma_vfield_iff_variant(&self) {
    }

    fn get_vfield_(&self, variant: TStr<Str_Bar>, field: TStr<Str_1>) -> (r: Option<&Option<u64>>) {
        match self {
            Enum3::Bar(_, x) => Some(x),
            _ => None,
        }
    }
}

impl GetVariantFieldMut<TStr<Str_Bar>, TStr<Str_1>> for Enum3 {
    open spec fn vfield_updated(old: &Self, new: &Self, v: Option<u64>) -> bool {
        match *old {
            Enum3::Bar(f0, f1) => *new == Self::Bar(f0, v),
            _ => false,
        }
    }

    open spec fn vfield_unchanged(old: &Self, new: &Self) -> bool {
        *new == *old
    }

    proof fn lemma_read_after_write(old: &Self, new: &Self, v: Option<u64>) {
    }

    proof fn lemma_vfield_unchanged_reads_same(old: &Self, new: &Self) {
    }

    fn get_vfield_mut_(&mut self, variant: TStr<Str_Bar>, field: TStr<Str_1>) -> (r: Option<&mut Option<u64>>) {
        match self {
            Enum3::Bar(_, x) => Some(x),
            _ => {
                assert(<Self as GetVariantFieldMut<TStr<Str_Bar>, TStr<Str_1>>>::vfield_unchanged(&*old(self), &*final(self)));
                None
            },
        }
    }
}

impl IntoVariantField<TStr<Str_Bar>, TStr<Str_1>> for Enum3 {
    fn into_vfield_(self, variant: TStr<Str_Bar>, field: TStr<Str_1>) -> (r: Option<Option<u64>>) {
        match self {
            Enum3::Bar(_, x) => Some(x),
            _ => None,
        }
    }
}

impl IsVariant<TStr<Str_Baz>> for Enum3 {
    open spec fn is_variant_spec(&self) -> bool {
        *self is Baz
    }

    fn is_variant_(&self, variant: TStr<Str_Baz>) -> (r: bool) {
        match self {
            Enum3::Baz { .. } => true,
            _ => false,
        }
    }
}

impl FieldType<VariantField<TStr<Str_Baz>, TStr<Str_foom>>> for Enum3 {
    type Ty = &'static str;
}

impl GetVariantField<TStr<Str_Baz>, TStr<Str_foom>> for Enum3 {
    open spec fn get_vfield_spec(&self) -> Option<&&'static str> {
        match self {
            Enum3::Baz { foom: x } => Some(x),
            _ => None,
        }
    }

    proof fn lemma_vfield_iff_variant(&self) {
    }

    fn get_vfield_(&self, variant: TStr<Str_Baz>, field: TStr<Str_foom>) -> (r: Option<&&'static str>) {
        match self {
            Enum3::Baz { foom: x } => Some(x),
            _ => None,
        }
    }
}

impl GetVariantFieldMut<TStr<Str_Baz>, TStr<Str_foom>> for Enum3 {
    open spec fn vfield_updated(old: &Self, new: &Self, v: &'static str) -> bool {
        match *old {
            Enum3::Baz { foom: f0 } => *new == Self::Baz { foom: v },
            _ => false,
        }
    }

    open spec fn vfield_unchanged(old: &Self, new: &Self) -> bool {
        *new == *old
    }

    proof fn lemma_read_after_write(old: &Self, new: &Self, v: &'static str) {
    }

    proof fn lemma_vfield_unchanged_reads_same(old: &Self, new: &Self) {
    }

    fn get_vfield_mut_(&mut self, variant: TStr<Str_Baz>, field: TStr<Str_foom>) -> (r: Option<&mut &'static str>) {
        match self {
            Enum3::Baz { foom: x } => Some(x),
            _ => {
                assert(<Self as GetVariantFieldMut<TStr<Str_Baz>, TStr<Str_foom>>>::vfield_unchanged(&*old(self), &*final(self)));
                None
            },
        }
    }
}

impl IntoVariantField<TStr<Str_Baz>, TStr<Str_foom>> for Enum3 {
    fn into_vfield_(self, variant: TStr<Str_Baz>, field: TStr<Str_foom>) -> (r: Option<&'static str>) {
        match self {
            Enum3::Baz { foom: x } => Some(x),
            _ => None,
        }
    }
}

impl VariantCount for Enum4 {
    type Count = TStr<Str_4>;
}

impl IsVariant<TStr<Str_Foo>> for Enum4 {
    open spec fn is_variant_spec(&self) -> bool {
        *self is Foo
    }

    fn is_variant_(&self, variant: TStr<Str_Foo>) -> (r: bool) {
        match self {
            Enum4::Foo(..) => true,
            _ => false,
        }
    }
}

impl FieldType<VariantField<TStr<Str_Foo>, TStr<Str_0>>> for Enum4 {
    type Ty = u8;
}

impl GetVariantField<TStr<Str_Foo>, TStr<Str_0>> for Enum4 {
    open spec fn get_vfield_spec(&self) -> Option<&u8> {
        match self {
            Enum4::Foo(x, _) => Some(x),
            _ => None,
        }
    }

    proof fn lemma_vfield_iff_variant(&self) {
    }

    fn get_vfield_(&self, variant: TStr<Str_Foo>, field: TStr<Str_0>) -> (r: Option<&u8>) {
        match self {
            Enum4::Foo(x, _) => Some(x),
            _ => None,
        }
    }
}

impl GetVariantFieldMut<TStr<Str_Foo>, TStr<Str_0>> for Enum4 {
    open spec fn vfield_updated(old: &Self, new: &Self, v: u8) -> bool {
        match *old {
            Enum4::Foo(f0, f1) => *new == Self::Foo(v, f1),
            _ => false,
        }
    }

    open spec fn vfield_unchanged(old: &Self, new: &Self) -> bool {
        *new == *old
    }

    proof fn lemma_read_after_write(old: &Self, new: &Self, v: u8) {
    }

    proof fn lemma_vfield_unchanged_reads_same(old: &Self, new: &Self) {
    }

    fn get_vfield_mut_(&mut self, variant: TStr<Str_Foo>, field: TStr<Str_0>) -> (r: Option<&mut u8>) {
        match self {
            Enum4::Foo(x, _) => Some(x),
            _ => {
                assert(<Self as GetVariantFieldMut<TStr<Str_Foo>, TStr<Str_0>>>::vfield_unchanged(&*old(self), &*final(self)));
                None
            },
        }
    }
}

impl IntoVariantField<TStr<Str_Foo>, TStr<Str_0>> for Enum4 {
    fn into_vfield_(self, variant: TStr<Str_Foo>, field: TStr<Str_0>) -> (r: Option<u8>) {
        match self {
            Enum4::Foo(x, _) => Some(x),
            _ => None,
        }
    }
}

impl FieldType<VariantField<TStr<Str_Foo>, TStr<Str_1>>> for Enum4 {
    type Ty = u16;
}

impl GetVariantField<TStr<Str_Foo>, TStr<Str_1>> for Enum4 {
    open spec fn get_vfield_spec(&self) -> Option<&u16> {
        match self {
            Enum4::Foo(_, x) => Some(x),
            _ => None,
        }
    }

    proof fn lemma_vfield_iff_variant(&self) {
    }

    fn get_vfield_(&self, variant: TStr<Str_Foo>, field: TStr<Str_1>) -> (r: Option<&u16>) {
        match self {
            Enum4::Foo(_, x) => Some(x),
            _ => None,
        }
    }
}

impl GetVariantFieldMut<TStr<Str_Foo>, TStr<Str_1>> for Enum4 {
    open spec fn vfield_updated(old: &Self, new: &Self, v: u16) -> bool {
        match *old {
            Enum4::Foo(f0, f1) => *new == Self::Foo(f0, v),
            _ => false,
        }
    }

    open spec fn vfield_unchanged(old: &Self, new: &Self) -> bool {
        *new == *old
    }

    proof fn lemma_read_after_write(old: &Self, new: &Self, v: u16) {
    }

    proof fn lemma_vfield_unchanged_reads_same(old: &Self, new: &Self) {
    }

    fn get_vfield_mut_(&mut self, variant: TStr<Str_Foo>, field: TStr<Str_1>) -> (r: Option<&mut u16>) {
        match self {
            Enum4::Foo(_, x) => Some(x),
            _ => {
                assert(<Self as GetVariantFieldMut<TStr<Str_Foo>, TStr<Str_1>>>::vfield_unchanged(&*old(self), &*final(self)));
                None
            },
        }
    }
}

impl IntoVariantField<TStr<Str_Foo>, TStr<Str_1>> for Enum4 {
    fn into_vfield_(self, variant: TStr<Str_Foo>, field: TStr<Str_1>) -> (r: Option<u16>) {
        match self {
            Enum4::Foo(_, x) => Some(x),
            _ => None,
        }
    }
}

impl IsVariant<TStr<Str_Bar>> for Enum4 {
    open spec fn is_variant_spec(&self) -> bool {
        *self is Bar
    }

    fn is_variant_(&self, variant: TStr<Str_Bar>) -> (r: bool) {
        match self {
            Enum4::Bar(..) => true,
            _ => false,
        }
    }
}

impl FieldType<VariantField<TStr<Str_Bar>, TStr<Str_0>>> for Enum4 {
    type Ty = Comparison;
}

impl GetVariantField<TStr<Str_Bar>, TStr<Str_0>> for Enum4 {
    open spec fn get_vfield_spec(&self) -> Option<&Comparison> {
        match self {
            Enum4::Bar(x, _) => Some(x),
            _ => None,
        }
    }

    proof fn lemma_vfield_iff_variant(&self) {
    }

    fn get_vfield_(&self, variant: TStr<Str_Bar>, field: TStr<Str_0>) -> (r: Option<&Comparison>) {
        match self {
            Enum4::Bar(x, _) => Some(x),
            _ => None,
        }
    }
}

impl GetVariantFieldMut<TStr<Str_Bar>, TStr<Str_0>> for Enum4 {
    open spec fn vfield_updated(old: &Self, new: &Self, v: Comparison) -> bool {
        match *old {
            Enum4::Bar(f0, f1) => *new == Self::Bar(v, f1),
            _ => false,
        }
    }

    open spec fn vfield_unchanged(old: &Self, new: &Self) -> bool {
        *new == *old
    }

    proof fn lemma_read_after_write(old: &Self, new: &Self, v: Comparison) {
    }

    proof fn lemma_vfield_unchanged_reads_same(old: &Self, new: &Self) {
    }

    fn get_vfield_mut_(&mut self, variant: TStr<Str_Bar>, field: TStr<Str_0>) -> (r: Option<&mut Comparison>) {
        match self {
            Enum4::Bar(x, _) => Some(x),
            _ => {
                assert(<Self as GetVariantFieldMut<TStr<Str_Bar>, TStr<Str_0>>>::vfield_unchanged(&*old(self), &*final(self)));
                None
            },
        }
    }
}

impl IntoVariantField<TStr<Str_Bar>, TStr<Str_0>> for Enum4 {
    fn into_vfield_(self, variant: TStr<Str_Bar>, field: TStr<Str_0>) -> (r: Option<Comparison>) {
        match self {
            Enum4::Bar(x, _) => Some(x),
            _ => None,
        }
    }
}

impl FieldType<VariantField<TStr<Str_Bar>, TStr<Str_1>>> for Enum4 {
    type Ty = Option<u64>;
}

impl GetVariantField<TStr<Str_Bar>, TStr<Str_1>> for Enum4 {
    open spec fn get_vfield_spec(&self) -> Option<&Option<u64>> {
        match self {
            Enum4::Bar(_, x) => Some(x),
            _ => None,
        }
    }

    proof fn lemma_vfield_iff_variant(&self) {
    }

    fn get_vfield_(&self, variant: TStr<Str_Bar>, field: TStr<Str_1>) -> (r: Option<&Option<u64>>) {
        match self {
            Enum4::Bar(_, x) => Some(x),
            _ => None,
        }
    }
}

impl GetVariantFieldMut<TStr<Str_Bar>, TStr<Str_1>> for Enum4 {
    open spec fn vfield_updated(old: &Self, new: &Self, v: Option<u64>) -> bool {
        match *old {
            Enum4::Bar(f0, f1) => *new == Self::Bar(f0, v),
            _ => false,
        }
    }

    open spec fn vfield_unchanged(old: &Self, new: &Self) -> bool {
        *new == *old
    }

    proof fn lemma_read_after_write(old: &Self, new: &Self, v: Option<u64>) {
    }

    proof fn lemma_vfield_unchanged_reads_same(old: &Self, new: &Self) {
    }

    fn get_vfield_mut_(&mut self, variant: TStr<Str_Bar>, field: TStr<Str_1>) -> (r: Option<&mut Option<u64>>) {
        match self {
            Enum4::Bar(_, x) => Some(x),
            _ => {
                assert(<Self as GetVariantFieldMut<TStr<Str_Bar>, TStr<Str_1>>>::vfield_unchanged(&*old(self), &*final(self)));
                None
            },
        }
    }
}

impl IntoVariantField<TStr<Str_Bar>, TStr<Str_1>> for Enum4 {
    fn into_vfield_(self, variant: TStr<Str_Bar>, field: TStr<Str_1>) -> (r: Option<Option<u64>>) {
        match self {
            Enum4::Bar(_, x) => Some(x),
            _ => None,
        }
    }
}

impl IsVariant<TStr<Str_Baz>> for Enum4 {
    open spec fn is_variant_spec(&self) -> bool {
        *self is Baz
    }

    fn is_variant_(&self, variant: TStr<Str_Baz>) -> (r: bool) {
        match self {
            Enum4::Baz { .. } => true,
            _ => false,
        }
    }
}

impl FieldType<VariantField<TStr<Str_Baz>, TStr<Str_foom>>> for Enum4 {
    type Ty = &'static str;
}

impl GetVariantField<TStr<Str_Baz>, TStr<Str_foom>> for Enum4 {
    open spec fn get_vfield_spec(&self) -> Option<&&'static str> {
        match self {
            Enum4::Baz { foom: x } => Some(x),
            _ => None,
        }
    }

    proof fn lemma_vfield_iff_variant(&self) {
    }

    fn get_vfield_(&self, variant: TStr<Str_Baz>, field: TStr<Str_foom>) -> (r: Option<&&'static str>) {
        match self {
            Enum4::Baz { foom: x } => Some(x),
            _ => None,
        }
    }
}

impl GetVariantFieldMut<TStr<Str_Baz>, TStr<Str_foom>> for Enum4 {
    open spec fn vfield_updated(old: &Self, new: &Self, v: &'static str) -> bool {
        match *old {
            Enum4::Baz { foom: f0 } => *new == Self::Baz { foom: v },
            _ => false,
        }
    }

    open spec fn vfield_unchanged(old: &Self, new: &Self) -> bool {
        *new == *old
    }

    proof fn lemma_read_after_write(old: &Self, new: &Self, v: &'static str) {
    }

    proof fn lemma_vfield_unchanged_reads_same(old: &Self, new: &Self) {
    }

    fn get_vfield_mut_(&mut self, variant: TStr<Str_Baz>, field: TStr<Str_foom>) -> (r: Option<&mut &'static str>) {
        match self {
            Enum4::Baz { foom: x } => Some(x),
            _ => {
                assert(<Self as GetVariantFieldMut<TStr<Str_Baz>, TStr<Str_foom>>>::vfield_unchanged(&*old(self), &*final(self)));
                None
            },
        }
    }
}

impl IntoVariantField<TStr<Str_Baz>, TStr<Str_foom>> for Enum4 {
    fn into_vfield_(self, variant: TStr<Str_Baz>, field: TStr<Str_foom>) -> (r: Option<&'static str>) {
        match self {
            Enum4::Baz { foom: x } => Some(x),
            _ => None,
        }
    }
}

impl IsVariant<TStr<Str_Qux>> for Enum4 {
    open spec fn is_variant_spec(&self) -> bool {
        *self is Qux
    }

    fn is_variant_(&self, variant: TStr<Str_Qux>) -> (r: bool) {
        match self {
            Enum4::Qux { .. } => true,
            _ => false,
        }
    }
}

impl FieldType<VariantField<TStr<Str_Qux>, TStr<Str_uh>>> for Enum4 {
    type Ty = [u8; 4];
}

impl GetVariantField<TStr<Str_Qux>, TStr<Str_uh>> for Enum4 {
    open spec fn get_vfield_spec(&self) -> Option<&[u8; 4]> {
        match self {
            Enum4::Qux { uh: x, .. } => Some(x),
            _ => None,
        }
    }

    proof fn lemma_vfield_iff_variant(&self) {
    }

    fn get_vfield_(&self, variant: TStr<Str_Qux>, field: TStr<Str_uh>) -> (r: Option<&[u8; 4]>) {
        match self {
            Enum4::Qux { uh: x, .. } => Some(x),
            _ => None,
        }
    }
}

impl GetVariantFieldMut<TStr<Str_Qux>, TStr<Str_uh>> for Enum4 {
    open spec fn vfield_updated(old: &Self, new: &Self, v: [u8; 4]) -> bool {
        match *old {
            Enum4::Qux { uh: f0, what: f1 } => *new == Self::Qux { uh: v, what: f1 },
            _ => false,
        }
    }

    open spec fn vfield_unchanged(old: &Self, new: &Self) -> bool {
        *new == *old
    }

    proof fn lemma_read_after_write(old: &Self, new: &Self, v: [u8; 4]) {
    }

    proof fn lemma_vfield_unchanged_reads_same(old: &Self, new: &Self) {
    }

    fn get_vfield_mut_(&mut self, variant: TStr<Str_Qux>, field: TStr<Str_uh>) -> (r: Option<&mut [u8; 4]>) {
        match self {
            Enum4::Qux { uh: x, .. } => Some(x),
            _ => {
                assert(<Self as GetVariantFieldMut<TStr<Str_Qux>, TStr<Str_uh>>>::vfield_unchanged(&*old(self), &*final(self)));
                None
            },
        }
    }
}

impl IntoVariantField<TStr<Str_Qux>, TStr<Str_uh>> for Enum4 {
    fn into_vfield_(self, variant: TStr<Str_Qux>, field: TStr<Str_uh>) -> (r: Option<[u8; 4]>) {
        match self {
            Enum4::Qux { uh: x, .. } => Some(x),
            _ => None,
        }
    }
}

impl FieldType<VariantField<TStr<Str_Qux>, TStr<Str_what>>> for Enum4 {
    type Ty = (bool, bool);
}

impl GetVariantField<TStr<Str_Qux>, TStr<Str_what>> for Enum4 {
    open spec fn get_vfield_spec(&self) -> Option<&(bool, bool)> {
        match self {
            Enum4::Qux { what: x, .. } => Some(x),
            _ => None,
        }
    }

    proof fn lemma_vfield_iff_variant(&self) {
    }

    fn get_vfield_(&self, variant: TStr<Str_Qux>, field: TStr<Str_what>) -> (r: Option<&(bool, bool)>) {
        match self {
            Enum4::Qux { what: x, .. } => Some(x),
            _ => None,
        }
    }
}

impl GetVariantFieldMut<TStr<Str_Qux>, TStr<Str_what>> for Enum4 {
    open spec fn vfield_updated(old: &Self, new: &Self, v: (bool, bool)) -> bool {
        match *old {
            Enum4::Qux { uh: f0, what: f1 } => *new == Self::Qux { uh: f0, what: v },
            _ => false,
        }
    }

    open spec fn vfield_unchanged(old: &Self, new: &Self) -> bool {
        *new == *old
    }

    proof fn lemma_read_after_write(old: &Self, new: &Self, v: (bool, bool)) {
    }

    proof fn lemma_vfield_unchanged_reads_same(old: &Self, new: &Self) {
    }

    fn get_vfield_mut_(&mut self, variant: TStr<Str_Qux>, field: TStr<Str_what>) -> (r: Option<&mut (bool, bool)>) {
        match self {
            Enum4::Qux { what: x, .. } => Some(x),
            _ => {
                assert(<Self as GetVariantFieldMut<TStr<Str_Qux>, TStr<Str_what>>>::vfield_unchanged(&*old(self), &*final(self)));
                None
            },
        }
    }
}

impl IntoVariantField<TStr<Str_Qux>, TStr<Str_what>> for Enum4 {
    fn into_vfield_(self, variant: TStr<Str_Qux>, field: TStr<Str_what>) -> (r: Option<(bool, bool)>) {
        match self {
            Enum4::Qux { what: x, .. } => Some(x),
            _ => None,
        }
    }
}

impl<'a, T> FieldType<TStr<Str_0>> for RefWrapper<'a, T> {
    type Ty = T;
}

impl<'a, T> GetFieldImpl<TStr<Str_0>> for RefWrapper<'a, T> {
    type Error = InfallibleAccess;

    open spec fn get_field_spec(&self) -> Result<&T, InfallibleAccess> {
        Ok(&self.0)
    }

    fn get_field_(&self, path: TStr<Str_0>) -> (r: Result<&T, InfallibleAccess>) {
        Ok(&self.0)
    }
}

impl<'a, T> GetFieldMutImpl<TStr<Str_0>> for RefWrapper<'a, T> {
    open spec fn field_updated(old: &Self, new: &Self, v: T) -> bool {
        new.0 == v && new.1 == old.1
    }

    open spec fn unchanged(old: &Self, new: &Self) -> bool {
        *new == *old
    }

    proof fn lemma_read_after_write(old: &Self, new: &Self, v: T) {
    }

    proof fn lemma_unchanged_reads_same(old: &Self, new: &Self) {
    }

    fn get_field_mut_(&mut self, path: TStr<Str_0>) -> (r: Result<&mut T, InfallibleAccess>) {
        Ok(&mut self.0)
    }
}

impl<'a, T> IntoFieldImpl<TStr<Str_0>> for RefWrapper<'a, T> {
    fn into_field_(self, path: TStr<Str_0>) -> (r: Result<T, InfallibleAccess>) {
        Ok(self.0)
    }
}

impl<'a, T> FieldType<TStr<Str_1>> for RefWrapper<'a, T> {
    type Ty = &'a T;
}

impl<'a, T> GetFieldImpl<TStr<Str_1>> for RefWrapper<'a, T> {
    type Error = InfallibleAccess;

    open spec fn get_field_spec(&self) -> Result<&&'a T, InfallibleAccess> {
        Ok(&self.1)
    }

    fn get_field_(&self, path: TStr<Str_1>) -> (r: Result<&&'a T, InfallibleAccess>) {
        Ok(&self.1)
    }
}

impl<'a, T> GetFieldMutImpl<TStr<Str_1>> for RefWrapper<'a, T> {
    open spec fn field_updated(old: &Self, new: &Self, v: &'a T) -> bool {
        new.1 == v && new.0 == old.0
    }

    open spec fn unchanged(old: &Self, new: &Self) -> bool {
        *new == *old
    }

    proof fn lemma_read_after_write(old: &Self, new: &Self, v: &'a T) {
    }

    proof fn lemma_unchanged_reads_same(old: &Self, new: &Self) {
    }

    fn get_field_mut_(&mut self, path: TStr<Str_1>) -> (r: Result<&mut &'a T, InfallibleAccess>) {
        Ok(&mut self.1)
    }
}

impl<'a, T> IntoFieldImpl<TStr<Str_1>> for RefWrapper<'a, T> {
    fn into_field_(self, path: TStr<Str_1>) -> (r: Result<&'a T, InfallibleAccess>) {
        Ok(self.1)
    }
}

impl<'a> VariantCount for EnumWithNewtype<'a> {
    type Count = TStr<Str_2>;
}

impl<'a> IsVariant<TStr<Str_U32>> for EnumWithNewtype<'a> {
    open spec fn is_variant_spec(&self) -> bool {
        *self is U32
    }

    fn is_variant_(&self, variant: TStr<Str_U32>) -> (r: bool) {
        match self {
            EnumWithNewtype::U32(..) => true,
            _ => false,
        }
    }
}

impl<'a> FieldType<VariantField<TStr<Str_U32>, TStr<Str_0>>> for EnumWithNewtype<'a> {
    type Ty = u32;
}

impl<'a> GetVariantField<TStr<Str_U32>, TStr<Str_0>> for EnumWithNewtype<'a> {
    open spec fn get_vfield_spec(&self) -> Option<&u32> {
        match self {
            EnumWithNewtype::U32(w) => Some(&w.0),
            _ => None,
        }
    }

    proof fn lemma_vfield_iff_variant(&self) {
    }

    fn get_vfield_(&self, variant: TStr<Str_U32>, field: TStr<Str_0>) -> (r: Option<&u32>) {
        match self {
            EnumWithNewtype::U32(w) => Some(&w.0),
            _ => None,
        }
    }
}

impl<'a> GetVariantFieldMut<TStr<Str_U32>, TStr<Str_0>> for EnumWithNewtype<'a> {
    open spec fn vfield_updated(old: &Self, new: &Self, v: u32) -> bool {
        match (*old, *new) {
            (EnumWithNewtype::U32(w), EnumWithNewtype::U32(nw)) => nw.0 == v && nw.1 == w.1,
            _ => false,
        }
    }

    open spec fn vfield_unchanged(old: &Self, new: &Self) -> bool {
        *new == *old
    }

    proof fn lemma_read_after_write(old: &Self, new: &Self, v: u32) {
    }

    proof fn lemma_vfield_unchanged_reads_same(old: &Self, new: &Self) {
    }

    fn get_vfield_mut_(&mut self, variant: TStr<Str_U32>, field: TStr<Str_0>) -> (r: Option<&mut u32>) {
        match self {
            EnumWithNewtype::U32(w) => Some(&mut w.0),
            _ => {
                assert(<Self as GetVariantFieldMut<TStr<Str_U32>, TStr<Str_0>>>::vfield_unchanged(&*old(self), &*final(self)));
                None
            },
        }
    }
}

impl<'a> IntoVariantField<TStr<Str_U32>, TStr<Str_0>> for EnumWithNewtype<'a> {
    fn into_vfield_(self, variant: TStr<Str_U32>, field: TStr<Str_0>) -> (r: Option<u32>) {
        match self {
            EnumWithNewtype::U32(w) => Some(w.0),
            _ => None,
        }
    }
}

impl<'a> FieldType<VariantField<TStr<Str_U32>, TStr<Str_1>>> for EnumWithNewtype<'a> {
    type Ty = &'a u32;
}

impl<'a> GetVariantField<TStr<Str_U32>, TStr<Str_1>> for EnumWithNewtype<'a> {
    open spec fn get_vfield_spec(&self) -> Option<&&'a u32> {
        match self {
            EnumWithNewtype::U32(w) => Some(&w.1),
            _ => None,
        }
    }

    proof fn lemma_vfield_iff_variant(&self) {
    }

    fn get_vfield_(&self, variant: TStr<Str_U32>, field: TStr<Str_1>) -> (r: Option<&&'a u32>) {
        match self {
            EnumWithNewtype::U32(w) => Some(&w.1),
            _ => None,
        }
    }
}

impl<'a> GetVariantFieldMut<TStr<Str_U32>, TStr<Str_1>> for EnumWithNewtype<'a> {
    open spec fn vfield_updated(old: &Self, new: &Self, v: &'a u32) -> bool {
        match (*old, *new) {
            (EnumWithNewtype::U32(w), EnumWithNewtype::U32(nw)) => nw.1 == v && nw.0 == w.0,
            _ => false,
        }
    }

    open spec fn vfield_unchanged(old: &Self, new: &Self) -> bool {
        *new == *old
    }

    proof fn lemma_read_after_write(old: &Self, new: &Self, v: &'a u32) {
    }

    proof fn lemma_vfield_unchanged_reads_same(old: &Self, new: &Self) {
    }

    fn get_vfield_mut_(&mut self, variant: TStr<Str_U32>, field: TStr<Str_1>) -> (r: Option<&mut &'a u32>) {
        match self {
            EnumWithNewtype::U32(w) => Some(&mut w.1),
            _ => {
                assert(<Self as GetVariantFieldMut<TStr<Str_U32>, TStr<Str_1>>>::vfield_unchanged(&*old(self), &*final(self)));
                None
            },
        }
    }
}

impl<'a> IntoVariantField<TStr<Str_U32>, TStr<Str_1>> for EnumWithNewtype<'a> {
    fn into_vfield_(self, variant: TStr<Str_U32>, field: TStr<Str_1>) -> (r: Option<&'a u32>) {
        match self {
            EnumWithNewtype::U32(w) => Some(w.1),
            _ => None,
        }
    }
}

impl<'a> IsVariant<TStr<Str_U64>> for EnumWithNewtype<'a> {
    open spec fn is_variant_spec(&self) -> bool {
        *self is U64
    }

    fn is_variant_(&self, variant: TStr<Str_U64>) -> (r: bool) {
        match self {
            EnumWithNewtype::U64(..) => true,
            _ => false,
        }
    }
}

impl<'a> FieldType<VariantField<TStr<Str_U64>, TStr<Str_0>>> for EnumWithNewtype<'a> {
    type Ty = u64;
}

impl<'a> GetVariantField<TStr<Str_U64>, TStr<Str_0>> for EnumWithNewtype<'a> {
    open spec fn get_vfield_spec(&self) -> Option<&u64> {
        match self {
            EnumWithNewtype::U64(w) => Some(&w.0),
            _ => None,
        }
    }

    proof fn lemma_vfield_iff_variant(&self) {
    }

    fn get_vfield_(&self, variant: TStr<Str_U64>, field: TStr<Str_0>) -> (r: Option<&u64>) {
        match self {
            EnumWithNewtype::U64(w) => Some(&w.0),
            _ => None,
        }
    }
}

impl<'a> GetVariantFieldMut<TStr<Str_U64>, TStr<Str_0>> for EnumWithNewtype<'a> {
    open spec fn vfield_updated(old: &Self, new: &Self, v: u64) -> bool {
        match (*old, *new) {
            (EnumWithNewtype::U64(w), EnumWithNewtype::U64(nw)) => nw.0 == v && nw.1 == w.1,
            _ => false,
        }
    }

    open spec fn vfield_unchanged(old: &Self, new: &Self) -> bool {
        *new == *old
    }

    proof fn lemma_read_after_write(old: &Self, new: &Self, v: u64) {
    }

    proof fn lemma_vfield_unchanged_reads_same(old: &Self, new: &Self) {
    }

    fn get_vfield_mut_(&mut self, variant: TStr<Str_U64>, field: TStr<Str_0>) -> (r: Option<&mut u64>) {
        match self {
            EnumWithNewtype::U64(w) => Some(&mut w.0),
            _ => {
                assert(<Self as GetVariantFieldMut<TStr<Str_U64>, TStr<Str_0>>>::vfield_unchanged(&*old(self), &*final(self)));
                None
            },
        }
    }
}

impl<'a> IntoVariantField<TStr<Str_U64>, TStr<Str_0>> for EnumWithNewtype<'a> {
    fn into_vfield_(self, variant: TStr<Str_U64>, field: TStr<Str_0>) -> (r: Option<u64>) {
        match self {
            EnumWithNewtype::U64(w) => Some(w.0),
            _ => None,
        }
    }
}

impl<'a> FieldType<VariantField<TStr<Str_U64>, TStr<Str_1>>> for EnumWithNewtype<'a> {
    type Ty = &'a u64;
}

impl<'a> GetVariantField<TStr<Str_U64>, TStr<Str_1>> for EnumWithNewtype<'a> {
    open spec fn get_vfield_spec(&self) -> Option<&&'a u64> {
        match self {
            EnumWithNewtype::U64(w) => Some(&w.1),
            _ => None,
        }
    }

    proof fn lemma_vfield_iff_variant(&self) {
    }

    fn get_vfield_(&self, variant: TStr<Str_U64>, field: TStr<Str_1>) -> (r: Option<&&'a u64>) {
        match self {
            EnumWithNewtype::U64(w) => Some(&w.1),
            _ => None,
        }
    }
}

impl<'a> GetVariantFieldMut<TStr<Str_U64>, TStr<Str_1>> for EnumWithNewtype<'a> {
    open spec fn vfield_updated(old: &Self, new: &Self, v: &'a u64) -> bool {
        match (*old, *new) {
            (EnumWithNewtype::U64(w), EnumWithNewtype::U64(nw)) => nw.1 == v && nw.0 == w.0,
            _ => false,
        }
    }

    open spec fn vfield_unchanged(old: &Self, new: &Self) -> bool {
        *new == *old
    }

    proof fn lemma_read_after_write(old: &Self, new: &Self, v: &'a u64) {
    }

    proof fn lemma_vfield_unchanged_reads_same(old: &Self, new: &Self) {
    }

    fn get_vfield_mut_(&mut self, variant: TStr<Str_U64>, field: TStr<Str_1>) -> (r: Option<&mut &'a u64>) {
        match self {
            EnumWithNewtype::U64(w) => Some(&mut w.1),
            _ => {
                assert(<Self as GetVariantFieldMut<TStr<Str_U64>, TStr<Str_1>>>::vfield_unchanged(&*old(self), &*final(self)));
                None
            },
        }
    }
}

impl<'a> IntoVariantField<TStr<Str_U64>, TStr<Str_1>> for EnumWithNewtype<'a> {
    fn into_vfield_(self, variant: TStr<Str_U64>, field: TStr<Str_1>) -> (r: Option<&'a u64>) {
        match self {
            EnumWithNewtype::U64(w) => Some(w.1),
            _ => None,
        }
    }
}

impl<'a> VariantCount for EnumWithoutNewtype<'a> {
    type Count = TStr<Str_2>;
}

impl<'a> IsVariant<TStr<Str_U32>> for EnumWithoutNewtype<'a> {
    open spec fn is_variant_spec(&self) -> bool {
        *self is U32
    }

    fn is_variant_(&self, variant: TStr<Str_U32>) -> (r: bool) {
        match self {
            EnumWithoutNewtype::U32(..) => true,
            _ => false,
        }
    }
}

impl<'a> FieldType<VariantField<TStr<Str_U32>, TStr<Str_0>>> for EnumWithoutNewtype<'a> {
    type Ty = u32;
}

impl<'a> GetVariantField<TStr<Str_U32>, TStr<Str_0>> for EnumWithoutNewtype<'a> {
    open spec fn get_vfield_spec(&self) -> Option<&u32> {
        match self {
            EnumWithoutNewtype::U32(x, _) => Some(x),
            _ => None,
        }
    }

    proof fn lemma_vfield_iff_variant(&self) {
    }

    fn get_vfield_(&self, variant: TStr<Str_U32>, field: TStr<Str_0>) -> (r: Option<&u32>) {
        match self {
            EnumWithoutNewtype::U32(x, _) => Some(x),
            _ => None,
        }
    }
}

impl<'a> GetVariantFieldMut<TStr<Str_U32>, TStr<Str_0>> for EnumWithoutNewtype<'a> {
    open spec fn vfield_updated(old: &Self, new: &Self, v: u32) -> bool {
        match *old {
            EnumWithoutNewtype::U32(f0, f1) => *new == Self::U32(v, f1),
            _ => false,
        }
    }

    open spec fn vfield_unchanged(old: &Self, new: &Self) -> bool {
        *new == *old
    }

    proof fn lemma_read_after_write(old: &Self, new: &Self, v: u32) {
    }

    proof fn lemma_vfield_unchanged_reads_same(old: &Self, new: &Self) {
    }

    fn get_vfield_mut_(&mut self, variant: TStr<Str_U32>, field: TStr<Str_0>) -> (r: Option<&mut u32>) {
        match self {
            EnumWithoutNewtype::U32(x, _) => Some(x),
            _ => {
                assert(<Self as GetVariantFieldMut<TStr<Str_U32>, TStr<Str_0>>>::vfield_unchanged(&*old(self), &*final(self)));
                None
            },
        }
    }
}

impl<'a> IntoVariantField<TStr<Str_U32>, TStr<Str_0>> for EnumWithoutNewtype<'a> {
    fn into_vfield_(self, variant: TStr<Str_U32>, field: TStr<Str_0>) -> (r: Option<u32>) {
        match self {
            EnumWithoutNewtype::U32(x, _) => Some(x),
            _ => None,
        }
    }
}

impl<'a> FieldType<VariantField<TStr<Str_U32>, TStr<Str_1>>> for EnumWithoutNewtype<'a> {
    type Ty = &'a u32;
}

impl<'a> GetVariantField<TStr<Str_U32>, TStr<Str_1>> for EnumWithoutNewtype<'a> {
    open spec fn get_vfield_spec(&self) -> Option<&&'a u32> {
        match self {
            EnumWithoutNewtype::U32(_, x) => Some(x),
            _ => None,
        }
    }

    proof fn lemma_vfield_iff_variant(&self) {
    }

    fn get_vfield_(&self, variant: TStr<Str_U32>, field: TStr<Str_1>) -> (r: Option<&&'a u32>) {
        match self {
            EnumWithoutNewtype::U32(_, x) => Some(x),
            _ => None,
        }
    }
}

impl<'a> GetVariantFieldMut<TStr<Str_U32>, TStr<Str_1>> for EnumWithoutNewtype<'a> {
    open spec fn vfield_updated(old: &Self, new: &Self, v: &'a u32) -> bool {
        match *old {
            EnumWithoutNewtype::U32(f0, f1) => *new == Self::U32(f0, v),
            _ => false,
        }
    }

    open spec fn vfield_unchanged(old: &Self, new: &Self) -> bool {
        *new == *old
    }

    proof fn lemma_read_after_write(old: &Self, new: &Self, v: &'a u32) {
    }

    proof fn lemma_vfield_unchanged_reads_same(old: &Self, new: &Self) {
    }

    fn get_vfield_mut_(&mut self, variant: TStr<Str_U32>, field: TStr<Str_1>) -> (r: Option<&mut &'a u32>) {
        match self {
            EnumWithoutNewtype::U32(_, x) => Some(x),
            _ => {
                assert(<Self as GetVariantFieldMut<TStr<Str_U32>, TStr<Str_1>>>::vfield_unchanged(&*old(self), &*final(self)));
                None
            },
        }
    }
}

impl<'a> IntoVariantField<TStr<Str_U32>, TStr<Str_1>> for EnumWithoutNewtype<'a> {
    fn into_vfield_(self, variant: TStr<Str_U32>, field: TStr<Str_1>) -> (r: Option<&'a u32>) {
        match self {
            EnumWithoutNewtype::U32(_, x) => Some(x),
            _ => None,
        }
    }
}

impl<'a> IsVariant<TStr<Str_U64>> for EnumWithoutNewtype<'a> {
    open spec fn is_variant_spec(&self) -> bool {
        *self is U64
    }

    fn is_variant_(&self, variant: TStr<Str_U64>) -> (r: bool) {
        match self {
            EnumWithoutNewtype::U64(..) => true,
            _ => false,
        }
    }
}

impl<'a> FieldType<VariantField<TStr<Str_U64>, TStr<Str_0>>> for EnumWithoutNewtype<'a> {
    type Ty = u64;
}

impl<'a> GetVariantField<TStr<Str_U64>, TStr<Str_0>> for EnumWithoutNewtype<'a> {
    open spec fn get_vfield_spec(&self) -> Option<&u64> {
        match self {
            EnumWithoutNewtype::U64(x, _) => Some(x),
            _ => None,
        }
    }

    proof fn lemma_vfield_iff_variant(&self) {
    }

    fn get_vfield_(&self, variant: TStr<Str_U64>, field: TStr<Str_0>) -> (r: Option<&u64>) {
        match self {
            EnumWithoutNewtype::U64(x, _) => Some(x),
            _ => None,
        }
    }
}

impl<'a> GetVariantFieldMut<TStr<Str_U64>, TStr<Str_0>> for EnumWithoutNewtype<'a> {
    open spec fn vfield_updated(old: &Self, new: &Self, v: u64) -> bool {
        match *old {
            EnumWithoutNewtype::U64(f0, f1) => *new == Self::U64(v, f1),
            _ => false,
        }
    }

    open spec fn vfield_unchanged(old: &Self, new: &Self) -> bool {
        *new == *old
    }

    proof fn lemma_read_after_write(old: &Self, new: &Self, v: u64) {
    }

    proof fn lemma_vfield_unchanged_reads_same(old: &Self, new: &Self) {
    }

    fn get_vfield_mut_(&mut self, variant: TStr<Str_U64>, field: TStr<Str_0>) -> (r: Option<&mut u64>) {
        match self {
            EnumWithoutNewtype::U64(x, _) => Some(x),
            _ => {
                assert(<Self as GetVariantFieldMut<TStr<Str_U64>, TStr<Str_0>>>::vfield_unchanged(&*old(self), &*final(self)));
                None
            },
        }
    }
}

impl<'a> IntoVariantField<TStr<Str_U64>, TStr<Str_0>> for EnumWithoutNewtype<'a> {
    fn into_vfield_(self, variant: TStr<Str_U64>, field: TStr<Str_0>) -> (r: Option<u64>) {
        match self {
            EnumWithoutNewtype::U64(x, _) => Some(x),
            _ => None,
        }
    }
}

impl<'a> FieldType<VariantField<TStr<Str_U64>, TStr<Str_1>>> for EnumWithoutNewtype<'a> {
    type Ty = &'a u64;
}

impl<'a> GetVariantField<TStr<Str_U64>, TStr<Str_1>> for EnumWithoutNewtype<'a> {
    open spec fn get_vfield_spec(&self) -> Option<&&'a u64> {
        match self {
            EnumWithoutNewtype::U64(_, x) => Some(x),
            _ => None,
        }
    }

    proof fn lemma_vfield_iff_variant(&self) {
    }

    fn get_vfield_(&self, variant: TStr<Str_U64>, field: TStr<Str_1>) -> (r: Option<&&'a u64>) {
        match self {
            EnumWithoutNewtype::U64(_, x) => Some(x),
            _ => None,
        }
    }
}

impl<'a> GetVariantFieldMut<TStr<Str_U64>, TStr<Str_1>> for EnumWithoutNewtype<'a> {
    open spec fn vfield_updated(old: &Self, new: &Self, v: &'a u64) -> bool {
        match *old {
            EnumWithoutNewtype::U64(f0, f1) => *new == Self::U64(f0, v),
            _ => false,
        }
    }

    open spec fn vfield_unchanged(old: &Self, new: &Self) -> bool {
        *new == *old
    }

    proof fn lemma_read_after_write(old: &Self, new: &Self, v: &'a u64) {
    }

    proof fn lemma_vfield_unchanged_reads_same(old: &Self, new: &Self) {
    }

    fn get_vfield_mut_(&mut self, variant: TStr<Str_U64>, field: TStr<Str_1>) -> (r: Option<&mut &'a u64>) {
        match self {
            EnumWithoutNewtype::U64(_, x) => Some(x),
            _ => {
                assert(<Self as GetVariantFieldMut<TStr<Str_U64>, TStr<Str_1>>>::vfield_unchanged(&*old(self), &*final(self)));
                None
            },
        }
    }
}

impl<'a> IntoVariantField<TStr<Str_U64>, TStr<Str_1>> for EnumWithoutNewtype<'a> {
    fn into_vfield_(self, variant: TStr<Str_U64>, field: TStr<Str_1>) -> (r: Option<&'a u64>) {
        match self {
            EnumWithoutNewtype::U64(_, x) => Some(x),
            _ => None,
        }
    }
}

impl<T> FieldType<TStr<Str_0>> for MaxFields<T> {
    type Ty = T;
}

impl<T> GetFieldImpl<TStr<Str_0>> for MaxFields<T> {
    type Error = InfallibleAccess;

    open spec fn get_field_spec(&self) -> Result<&T, InfallibleAccess> {
        Ok(&self.0)
    }

    fn get_field_(&self, path: TStr<Str_0>) -> (r: Result<&T, InfallibleAccess>) {
        Ok(&self.0)
    }
}

impl<T> GetFieldMutImpl<TStr<Str_0>> for MaxFields<T> {
    open spec fn field_updated(old: &Self, new: &Self, v: T) -> bool {
        new.0 == v && new.1 == old.1 && new.2 == old.2 && new.3 == old.3 && new.4 == old.4 && new.5 == old.5 && new.6 == old.6 && new.7 == old.7 && new.8 == old.8 && new.9 == old.9 && new.10 == old.10 && new.11 == old.11 && new.12 == old.12 && new.13 == old.13 && new.14 == old.14 && new.15 == old.15 && new.16 == old.16 && new.17 == old.17 && new.18 == old.18 && new.19 == old.19 && new.20 == old.20 && new.21 == old.21 && new.22 == old.22 && new.23 == old.23 && new.24 == old.24 && new.25 == old.25 && new.26 == old.26 && new.27 == old.27 && new.28 == old.28 && new.29 == old.29 && new.30 == old.30 && new.31 == old.31 && new.32 == old.32 && new.33 == old.33 && new.34 == old.34 && new.35 == old.35 && new.36 == old.36 && new.37 == old.37 && new.38 == old.38 && new.39 == old.39 && new.40 == old.40 && new.41 == old.41 && new.42 == old.42 && new.43 == old.43 && new.44 == old.44 && new.45 == old.45 && new.46 == old.46 && new.47 == old.47 && new.48 == old.48 && new.49 == old.49 && new.50 == old.50 && new.51 == old.51 && new.52 == old.52 && new.53 == old.53 && new.54 == old.54 && new.55 == old.55 && new.56 == old.56 && new.57 == old.57 && new.58 == old.58 && new.59 == old.59 && new.60 == old.60 && new.61 == old.61 && new.62 == old.62 && new.63 == old.63
    }

    open spec fn unchanged(old: &Self, new: &Self) -> bool {
        *new == *old
    }

    proof fn lemma_read_after_write(old: &Self, new: &Self, v: T) {
    }

    proof fn lemma_unchanged_reads_same(old: &Self, new: &Self) {
    }

    fn get_field_mut_(&mut self, path: TStr<Str_0>) -> (r: Result<&mut T, InfallibleAccess>) {
        Ok(&mut self.0)
    }
}

impl<T> IntoFieldImpl<TStr<Str_0>> for MaxFields<T> {
    fn into_field_(self, path: TStr<Str_0>) -> (r: Result<T, InfallibleAccess>) {
        Ok(self.0)
    }
}

impl<T> FieldType<TStr<Str_1>> for MaxFields<T> {
    type Ty = T;
}

impl<T> GetFieldImpl<TStr<Str_1>> for MaxFields<T> {
    type Error = InfallibleAccess;

    open spec fn get_field_spec(&self) -> Result<&T, InfallibleAccess> {
        Ok(&self.1)
    }

    fn get_field_(&self, path: TStr<Str_1>) -> (r: Result<&T, InfallibleAccess>) {
        Ok(&self.1)
    }
}

impl<T> GetFieldMutImpl<TStr<Str_1>> for MaxFields<T> {
    open spec fn field_updated(old: &Self, new: &Self, v: T) -> bool {
        new.1 == v && new.0 == old.0 && new.2 == old.2 && new.3 == old.3 && new.4 == old.4 && new.5 == old.5 && new.6 == old.6 && new.7 == old.7 && new.8 == old.8 && new.9 == old.9 && new.10 == old.10 && new.11 == old.11 && new.12 == old.12 && new.13 == old.13 && new.14 == old.14 && new.15 == old.15 && new.16 == old.16 && new.17 == old.17 && new.18 == old.18 && new.19 == old.19 && new.20 == old.20 && new.21 == old.21 && new.22 == old.22 && new.23 == old.23 && new.24 == old.24 && new.25 == old.25 && new.26 == old.26 && new.27 == old.27 && new.28 == old.28 && new.29 == old.29 && new.30 == old.30 && new.31 == old.31 && new.32 == old.32 && new.33 == old.33 && new.34 == old.34 && new.35 == old.35 && new.36 == old.36 && new.37 == old.37 && new.38 == old.38 && new.39 == old.39 && new.40 == old.40 && new.41 == old.41 && new.42 == old.42 && new.43 == old.43 && new.44 == old.44 && new.45 == old.45 && new.46 == old.46 && new.47 == old.47 && new.48 == old.48 && new.49 == old.49 && new.50 == old.50 && new.51 == old.51 && new.52 == old.52 && new.53 == old.53 && new.54 == old.54 && new.55 == old.55 && new.56 == old.56 && new.57 == old.57 && new.58 == old.58 && new.59 == old.59 && new.60 == old.60 && new.61 == old.61 && new.62 == old.62 && new.63 == old.63
    }

    open spec fn unchanged(old: &Self, new: &Self) -> bool {
        *new == *old
    }

    proof fn lemma_read_after_write(old: &Self, new: &Self, v: T) {
    }

    proof fn lemma_unchanged_reads_same(old: &Self, new: &Self) {
    }

    fn get_field_mut_(&mut self, path: TStr<Str_1>) -> (r: Result<&mut T, InfallibleAccess>) {
        Ok(&mut self.1)
    }
}

impl<T> IntoFieldImpl<TStr<Str_1>> for MaxFields<T> {
    fn into_field_(self, path: TStr<Str_1>) -> (r: Result<T, InfallibleAccess>) {
        Ok(self.1)
    }
}

impl<T> FieldType<TStr<Str_2>> for MaxFields<T> {
    type Ty = T;
}

impl<T> GetFieldImpl<TStr<Str_2>> for MaxFields<T> {
    type Error = InfallibleAccess;

    open spec fn get_field_spec(&self) -> Result<&T, InfallibleAccess> {
        Ok(&self.2)
    }

    fn get_field_(&self, path: TStr<Str_2>) -> (r: Result<&T, InfallibleAccess>) {
        Ok(&self.2)
    }
}

impl<T> GetFieldMutImpl<TStr<Str_2>> for MaxFields<T> {
    open spec fn field_updated(old: &Self, new: &Self, v: T) -> bool {
        new.2 == v && new.0 == old.0 && new.1 == old.1 && new.3 == old.3 && new.4 == old.4 && new.5 == old.5 && new.6 == old.6 && new.7 == old.7 && new.8 == old.8 && new.9 == old.9 && new.10 == old.10 && new.11 == old.11 && new.12 == old.12 && new.13 == old.13 && new.14 == old.14 && new.15 == old.15 && new.16 == old.16 && new.17 == old.17 && new.18 == old.18 && new.19 == old.19 && new.20 == old.20 && new.21 == old.21 && new.22 == old.22 && new.23 == old.23 && new.24 == old.24 && new.25 == old.25 && new.26 == old.26 && new.27 == old.27 && new.28 == old.28 && new.29 == old.29 && new.30 == old.30 && new.31 == old.31 && new.32 == old.32 && new.33 == old.33 && new.34 == old.34 && new.35 == old.35 && new.36 == old.36 && new.37 == old.37 && new.38 == old.38 && new.39 == old.39 && new.40 == old.40 && new.41 == old.41 && new.42 == old.42 && new.43 == old.43 && new.44 == old.44 && new.45 == old.45 && new.46 == old.46 && new.47 == old.47 && new.48 == old.48 && new.49 == old.49 && new.50 == old.50 && new.51 == old.51 && new.52 == old.52 && new.53 == old.53 && new.54 == old.54 && new.55 == old.55 && new.56 == old.56 && new.57 == old.57 && new.58 == old.58 && new.59 == old.59 && new.60 == old.60 && new.61 == old.61 && new.62 == old.62 && new.63 == old.63
    }

    open spec fn unchanged(old: &Self, new: &Self) -> bool {
        *new == *old
    }

    proof fn lemma_read_after_write(old: &Self, new: &Self, v: T) {
    }

    proof fn lemma_unchanged_reads_same(old: &Self, new: &Self) {
    }

    fn get_field_mut_(&mut self, path: TStr<Str_2>) -> (r: Result<&mut T, InfallibleAccess>) {
        Ok(&mut self.2)
    }
}

impl<T> IntoFieldImpl<TStr<Str_2>> for MaxFields<T> {
    fn into_field_(self, path: TStr<Str_2>) -> (r: Result<T, InfallibleAccess>) {
        Ok(self.2)
    }
}

impl<T> FieldType<TStr<Str_3>> for MaxFields<T> {
    type Ty = T;
}

impl<T> GetFieldImpl<TStr<Str_3>> for MaxFields<T> {
    type Error = InfallibleAccess;

    open spec fn get_field_spec(&self) -> Result<&T, InfallibleAccess> {
        Ok(&self.3)
    }

    fn get_field_(&self, path: TStr<Str_3>) -> (r: Result<&T, InfallibleAccess>) {
        Ok(&self.3)
    }
}

impl<T> GetFieldMutImpl<TStr<Str_3>> for MaxFields<T> {
    open spec fn field_updated(old: &Self, new: &Self, v: T) -> bool {
        new.3 == v && new.0 == old.0 && new.1 == old.1 && new.2 == old.2 && new.4 == old.4 && new.5 == old.5 && new.6 == old.6 && new.7 == old.7 && new.8 == old.8 && new.9 == old.9 && new.10 == old.10 && new.11 == old.11 && new.12 == old.12 && new.13 == old.13 && new.14 == old.14 && new.15 == old.15 && new.16 == old.16 && new.17 == old.17 && new.18 == old.18 && new.19 == old.19 && new.20 == old.20 && new.21 == old.21 && new.22 == old.22 && new.23 == old.23 && new.24 == old.24 && new.25 == old.25 && new.26 == old.26 && new.27 == old.27 && new.28 == old.28 && new.29 == old.29 && new.30 == old.30 && new.31 == old.31 && new.32 == old.32 && new.33 == old.33 && new.34 == old.34 && new.35 == old.35 && new.36 == old.36 && new.37 == old.37 && new.38 == old.38 && new.39 == old.39 && new.40 == old.40 && new.41 == old.41 && new.42 == old.42 && new.43 == old.43 && new.44 == old.44 && new.45 == old.45 && new.46 == old.46 && new.47 == old.47 && new.48 == old.48 && new.49 == old.49 && new.50 == old.50 && new.51 == old.51 && new.52 == old.52 && new.53 == old.53 && new.54 == old.54 && new.55 == old.55 && new.56 == old.56 && new.57 == old.57 && new.58 == old.58 && new.59 == old.59 && new.60 == old.60 && new.61 == old.61 && new.62 == old.62 && new.63 == old.63
    }

    open spec fn unchanged(old: &Self, new: &Self) -> bool {
        *new == *old
    }

    proof fn lemma_read_after_write(old: &Self, new: &Self, v: T) {
    }

    proof fn lemma_unchanged_reads_same(old: &Self, new: &Self) {
    }

    fn get_field_mut_(&mut self, path: TStr<Str_3>) -> (r: Result<&mut T, InfallibleAccess>) {
        Ok(&mut self.3)
    }
}

impl<T> IntoFieldImpl<TStr<Str_3>> for MaxFields<T> {
    fn into_field_(self, path: TStr<Str_3>) -> (r: Result<T, InfallibleAccess>) {
        Ok(self.3)
    }
}

impl<T> FieldType<TStr<Str_4>> for MaxFields<T> {
    type Ty = T;
}

impl<T> GetFieldImpl<TStr<Str_4>> for MaxFields<T> {
    type Error = InfallibleAccess;

    open spec fn get_field_spec(&self) -> Result<&T, InfallibleAccess> {
        Ok(&self.4)
    }

    fn get_field_(&self, path: TStr<Str_4>) -> (r: Result<&T, InfallibleAccess>) {
        Ok(&self.4)
    }
}

impl<T> GetFieldMutImpl<TStr<Str_4>> for MaxFields<T> {
    open spec fn field_updated(old: &Self, new: &Self, v: T) -> bool {
        new.4 == v && new.0 == old.0 && new.1 == old.1 && new.2 == old.2 && new.3 == old.3 && new.5 == old.5 && new.6 == old.6 && new.7 == old.7 && new.8 == old.8 && new.9 == old.9 && new.10 == old.10 && new.11 == old.11 && new.12 == old.12 && new.13 == old.13 && new.14 == old.14 && new.15 == old.15 && new.16 == old.16 && new.17 == old.17 && new.18 == old.18 && new.19 == old.19 && new.20 == old.20 && new.21 == old.21 && new.22 == old.22 && new.23 == old.23 && new.24 == old.24 && new.25 == old.25 && new.26 == old.26 && new.27 == old.27 && new.28 == old.28 && new.29 == old.29 && new.30 == old.30 && new.31 == old.31 && new.32 == old.32 && new.33 == old.33 && new.34 == old.34 && new.35 == old.35 && new.36 == old.36 && new.37 == old.37 && new.38 == old.38 && new.39 == old.39 && new.40 == old.40 && new.41 == old.41 && new.42 == old.42 && new.43 == old.43 && new.44 == old.44 && new.45 == old.45 && new.46 == old.46 && new.47 == old.47 && new.48 == old.48 && new.49 == old.49 && new.50 == old.50 && new.51 == old.51 && new.52 == old.52 && new.53 == old.53 && new.54 == old.54 && new.55 == old.55 && new.56 == old.56 && new.57 == old.57 && new.58 == old.58 && new.59 == old.59 && new.60 == old.60 && new.61 == old.61 && new.62 == old.62 && new.63 == old.63
    }

    open spec fn unchanged(old: &Self, new: &Self) -> bool {
        *new == *old
    }

    proof fn lemma_read_after_write(old: &Self, new: &Self, v: T) {
    }

    proof fn lemma_unchanged_reads_same(old: &Self, new: &Self) {
    }

    fn get_field_mut_(&mut self, path: TStr<Str_4>) -> (r: Result<&mut T, InfallibleAccess>) {
        Ok(&mut self.4)
    }
}

impl<T> IntoFieldImpl<TStr<Str_4>> for MaxFields<T> {
    fn into_field_(self, path: TStr<Str_4>) -> (r: Result<T, InfallibleAccess>) {
        Ok(self.4)
    }
}

impl<T> FieldType<TStr<Str_5>> for MaxFields<T> {
    type Ty = T;
}

impl<T> GetFieldImpl<TStr<Str_5>> for MaxFields<T> {
    type Error = InfallibleAccess;

    open spec fn get_field_spec(&self) -> Result<&T, InfallibleAccess> {
        Ok(&self.5)
    }

    fn get_field_(&self, path: TStr<Str_5>) -> (r: Result<&T, InfallibleAccess>) {
        Ok(&self.5)
    }
}

impl<T> GetFieldMutImpl<TStr<Str_5>> for MaxFields<T> {
    open spec fn field_updated(old: &Self, new: &Self, v: T) -> bool {
        new.5 == v && new.0 == old.0 && new.1 == old.1 && new.2 == old.2 && new.3 == old.3 && new.4 == old.4 && new.6 == old.6 && new.7 == old.7 && new.8 == old.8 && new.9 == old.9 && new.10 == old.10 && new.11 == old.11 && new.12 == old.12 && new.13 == old.13 && new.14 == old.14 && new.15 == old.15 && new.16 == old.16 && new.17 == old.17 && new.18 == old.18 && new.19 == old.19 && new.20 == old.20 && new.21 == old.21 && new.22 == old.22 && new.23 == old.23 && new.24 == old.24 && new.25 == old.25 && new.26 == old.26 && new.27 == old.27 && new.28 == old.28 && new.29 == old.29 && new.30 == old.30 && new.31 == old.31 && new.32 == old.32 && new.33 == old.33 && new.34 == old.34 && new.35 == old.35 && new.36 == old.36 && new.37 == old.37 && new.38 == old.38 && new.39 == old.39 && new.40 == old.40 && new.41 == old.41 && new.42 == old.42 && new.43 == old.43 && new.44 == old.44 && new.45 == old.45 && new.46 == old.46 && new.47 == old.47 && new.48 == old.48 && new.49 == old.49 && new.50 == old.50 && new.51 == old.51 && new.52 == old.52 && new.53 == old.53 && new.54 == old.54 && new.55 == old.55 && new.56 == old.56 && new.57 == old.57 && new.58 == old.58 && new.59 == old.59 && new.60 == old.60 && new.61 == old.61 && new.62 == old.62 && new.63 == old.63
    }

    open spec fn unchanged(old: &Self, new: &Self) -> bool {
        *new == *old
    }

    proof fn lemma_read_after_write(old: &Self, new: &Self, v: T) {
    }

    proof fn lemma_unchanged_reads_same(old: &Self, new: &Self) {
    }

    fn get_field_mut_(&mut self, path: TStr<Str_5>) -> (r: Result<&mut T, InfallibleAccess>) {
        Ok(&mut self.5)
    }
}

impl<T> IntoFieldImpl<TStr<Str_5>> for MaxFields<T> {
    fn into_field_(self, path: TStr<Str_5>) -> (r: Result<T, InfallibleAccess>) {
        Ok(self.5)
    }
}

impl<T> FieldType<TStr<Str_6>> for MaxFields<T> {
    type Ty = T;
}

impl<T> GetFieldImpl<TStr<Str_6>> for MaxFields<T> {
    type Error = InfallibleAccess;

    open spec fn get_field_spec(&self) -> Result<&T, InfallibleAccess> {
        Ok(&self.6)
    }

    fn get_field_(&self, path: TStr<Str_6>) -> (r: Result<&T, InfallibleAccess>) {
        Ok(&self.6)
    }
}

impl<T> GetFieldMutImpl<TStr<Str_6>> for MaxFields<T> {
    open spec fn field_updated(old: &Self, new: &Self, v: T) -> bool {
        new.6 == v && new.0 == old.0 && new.1 == old.1 && new.2 == old.2 && new.3 == old.3 && new.4 == old.4 && new.5 == old.5 && new.7 == old.7 && new.8 == old.8 && new.9 == old.9 && new.10 == old.10 && new.11 == old.11 && new.12 == old.12 && new.13 == old.13 && new.14 == old.14 && new.15 == old.15 && new.16 == old.16 && new.17 == old.17 && new.18 == old.18 && new.19 == old.19 && new.20 == old.20 && new.21 == old.21 && new.22 == old.22 && new.23 == old.23 && new.24 == old.24 && new.25 == old.25 && new.26 == old.26 && new.27 == old.27 && new.28 == old.28 && new.29 == old.29 && new.30 == old.30 && new.31 == old.31 && new.32 == old.32 && new.33 == old.33 && new.34 == old.34 && new.35 == old.35 && new.36 == old.36 && new.37 == old.37 && new.38 == old.38 && new.39 == old.39 && new.40 == old.40 && new.41 == old.41 && new.42 == old.42 && new.43 == old.43 && new.44 == old.44 && new.45 == old.45 && new.46 == old.46 && new.47 == old.47 && new.48 == old.48 && new.49 == old.49 && new.50 == old.50 && new.51 == old.51 && new.52 == old.52 && new.53 == old.53 && new.54 == old.54 && new.55 == old.55 && new.56 == old.56 && new.57 == old.57 && new.58 == old.58 && new.59 == old.59 && new.60 == old.60 && new.61 == old.61 && new.62 == old.62 && new.63 == old.63
    }

    open spec fn unchanged(old: &Self, new: &Self) -> bool {
        *new == *old
    }

    proof fn lemma_read_after_write(old: &Self, new: &Self, v: T) {
    }

    proof fn lemma_unchanged_reads_same(old: &Self, new: &Self) {
    }

    fn get_field_mut_(&mut self, path: TStr<Str_6>) -> (r: Result<&mut T, InfallibleAccess>) {
        Ok(&mut self.6)
    }
}

impl<T> IntoFieldImpl<TStr<Str_6>> for MaxFields<T> {
    fn into_field_(self, path: TStr<Str_6>) -> (r: Result<T, InfallibleAccess>) {
        Ok(self.6)
    }
}

impl<T> FieldType<TStr<Str_7>> for MaxFields<T> {
    type Ty = T;
}

impl<T> GetFieldImpl<TStr<Str_7>> for MaxFields<T> {
    type Error = InfallibleAccess;

    open spec fn get_field_spec(&self) -> Result<&T, InfallibleAccess> {
        Ok(&self.7)
    }

    fn get_field_(&self, path: TStr<Str_7>) -> (r: Result<&T, InfallibleAccess>) {
        Ok(&self.7)
    }
}

impl<T> GetFieldMutImpl<TStr<Str_7>> for MaxFields<T> {
    open spec fn field_updated(old: &Self, new: &Self, v: T) -> bool {
        new.7 == v && new.0 == old.0 && new.1 == old.1 && new.2 == old.2 && new.3 == old.3 && new.4 == old.4 && new.5 == old.5 && new.6 == old.6 && new.8 == old.8 && new.9 == old.9 && new.10 == old.10 && new.11 == old.11 && new.12 == old.12 && new.13 == old.13 && new.14 == old.14 && new.15 == old.15 && new.16 == old.16 && new.17 == old.17 && new.18 == old.18 && new.19 == old.19 && new.20 == old.20 && new.21 == old.21 && new.22 == old.22 && new.23 == old.23 && new.24 == old.24 && new.25 == old.25 && new.26 == old.26 && new.27 == old.27 && new.28 == old.28 && new.29 == old.29 && new.30 == old.30 && new.31 == old.31 && new.32 == old.32 && new.33 == old.33 && new.34 == old.34 && new.35 == old.35 && new.36 == old.36 && new.37 == old.37 && new.38 == old.38 && new.39 == old.39 && new.40 == old.40 && new.41 == old.41 && new.42 == old.42 && new.43 == old.43 && new.44 == old.44 && new.45 == old.45 && new.46 == old.46 && new.47 == old.47 && new.48 == old.48 && new.49 == old.49 && new.50 == old.50 && new.51 == old.51 && new.52 == old.52 && new.53 == old.53 && new.54 == old.54 && new.55 == old.55 && new.56 == old.56 && new.57 == old.57 && new.58 == old.58 && new.59 == old.59 && new.60 == old.60 && new.61 == old.61 && new.62 == old.62 && new.63 == old.63
    }

    open spec fn unchanged(old: &Self, new: &Self) -> bool {
        *new == *old
    }

    proof fn lemma_read_after_write(old: &Self, new: &Self, v: T) {
    }

    proof fn lemma_unchanged_reads_same(old: &Self, new: &Self) {
    }

    fn get_field_mut_(&mut self, path: TStr<Str_7>) -> (r: Result<&mut T, InfallibleAccess>) {
        Ok(&mut self.7)
    }
}

impl<T> IntoFieldImpl<TStr<Str_7>> for MaxFields<T> {
    fn into_field_(self, path: TStr<Str_7>) -> (r: Result<T, InfallibleAccess>) {
        Ok(self.7)
    }
}

impl<T> FieldType<TStr<Str_8>> for MaxFields<T> {
    type Ty = T;
}

impl<T> GetFieldImpl<TStr<Str_8>> for MaxFields<T> {
    type Error = InfallibleAccess;

    open spec fn get_field_spec(&self) -> Result<&T, InfallibleAccess> {
        Ok(&self.8)
    }

    fn get_field_(&self, path: TStr<Str_8>) -> (r: Result<&T, InfallibleAccess>) {
        Ok(&self.8)
    }
}

impl<T> GetFieldMutImpl<TStr<Str_8>> for MaxFields<T> {
    open spec fn field_updated(old: &Self, new: &Self, v: T) -> bool {
        new.8 == v && new.0 == old.0 && new.1 == old.1 && new.2 == old.2 && new.3 == old.3 && new.4 == old.4 && new.5 == old.5 && new.6 == old.6 && new.7 == old.7 && new.9 == old.9 && new.10 == old.10 && new.11 == old.11 && new.12 == old.12 && new.13 == old.13 && new.14 == old.14 && new.15 == old.15 && new.16 == old.16 && new.17 == old.17 && new.18 == old.18 && new.19 == old.19 && new.20 == old.20 && new.21 == old.21 && new.22 == old.22 && new.23 == old.23 && new.24 == old.24 && new.25 == old.25 && new.26 == old.26 && new.27 == old.27 && new.28 == old.28 && new.29 == old.29 && new.30 == old.30 && new.31 == old.31 && new.32 == old.32 && new.33 == old.33 && new.34 == old.34 && new.35 == old.35 && new.36 == old.36 && new.37 == old.37 && new.38 == old.38 && new.39 == old.39 && new.40 == old.40 && new.41 == old.41 && new.42 == old.42 && new.43 == old.43 && new.44 == old.44 && new.45 == old.45 && new.46 == old.46 && new.47 == old.47 && new.48 == old.48 && new.49 == old.49 && new.50 == old.50 && new.51 == old.51 && new.52 == old.52 && new.53 == old.53 && new.54 == old.54 && new.55 == old.55 && new.56 == old.56 && new.57 == old.57 && new.58 == old.58 && new.59 == old.59 && new.60 == old.60 && new.61 == old.61 && new.62 == old.62 && new.63 == old.63
    }

    open spec fn unchanged(old: &Self, new: &Self) -> bool {
        *new == *old
    }

    proof fn lemma_read_after_write(old: &Self, new: &Self, v: T) {
    }

    proof fn lemma_unchanged_reads_same(old: &Self, new: &Self) {
    }

    fn get_field_mut_(&mut self, path: TStr<Str_8>) -> (r: Result<&mut T, InfallibleAccess>) {
        Ok(&mut self.8)
    }
}

impl<T> IntoFieldImpl<TStr<Str_8>> for MaxFields<T> {
    fn into_field_(self, path: TStr<Str_8>) -> (r: Result<T, InfallibleAccess>) {
        Ok(self.8)
    }
}

impl<T> FieldType<TStr<Str_9>> for MaxFields<T> {
    type Ty = T;
}

impl<T> GetFieldImpl<TStr<Str_9>> for MaxFields<T> {
    type Error = InfallibleAccess;

    open spec fn get_field_spec(&self) -> Result<&T, InfallibleAccess> {
        Ok(&self.9)
    }

    fn get_field_(&self, path: TStr<Str_9>) -> (r: Result<&T, InfallibleAccess>) {
        Ok(&self.9)
    }
}

impl<T> GetFieldMutImpl<TStr<Str_9>> for MaxFields<T> {
    open spec fn field_updated(old: &Self, new: &Self, v: T) -> bool {
        new.9 == v && new.0 == old.0 && new.1 == old.1 && new.2 == old.2 && new.3 == old.3 && new.4 == old.4 && new.5 == old.5 && new.6 == old.6 && new.7 == old.7 && new.8 == old.8 && new.10 == old.10 && new.11 == old.11 && new.12 == old.12 && new.13 == old.13 && new.14 == old.14 && new.15 == old.15 && new.16 == old.16 && new.17 == old.17 && new.18 == old.18 && new.19 == old.19 && new.20 == old.20 && new.21 == old.21 && new.22 == old.22 && new.23 == old.23 && new.24 == old.24 && new.25 == old.25 && new.26 == old.26 && new.27 == old.27 && new.28 == old.28 && new.29 == old.29 && new.30 == old.30 && new.31 == old.31 && new.32 == old.32 && new.33 == old.33 && new.34 == old.34 && new.35 == old.35 && new.36 == old.36 && new.37 == old.37 && new.38 == old.38 && new.39 == old.39 && new.40 == old.40 && new.41 == old.41 && new.42 == old.42 && new.43 == old.43 && new.44 == old.44 && new.45 == old.45 && new.46 == old.46 && new.47 == old.47 && new.48 == old.48 && new.49 == old.49 && new.50 == old.50 && new.51 == old.51 && new.52 == old.52 && new.53 == old.53 && new.54 == old.54 && new.55 == old.55 && new.56 == old.56 && new.57 == old.57 && new.58 == old.58 && new.59 == old.59 && new.60 == old.60 && new.61 == old.61 && new.62 == old.62 && new.63 == old.63
    }

    open spec fn unchanged(old: &Self, new: &Self) -> bool {
        *new == *old
    }

    proof fn lemma_read_after_write(old: &Self, new: &Self, v: T) {
    }

    proof fn lemma_unchanged_reads_same(old: &Self, new: &Self) {
    }

    fn get_field_mut_(&mut self, path: TStr<Str_9>) -> (r: Result<&mut T, InfallibleAccess>) {
        Ok(&mut self.9)
    }
}

impl<T> IntoFieldImpl<TStr<Str_9>> for MaxFields<T> {
    fn into_field_(self, path: TStr<Str_9>) -> (r: Result<T, InfallibleAccess>) {
        Ok(self.9)
    }
}

impl<T> FieldType<TStr<Str_10>> for MaxFields<T> {
    type Ty = T;
}

impl<T> GetFieldImpl<TStr<Str_10>> for MaxFields<T> {
    type Error = InfallibleAccess;

    open spec fn get_field_spec(&self) -> Result<&T, InfallibleAccess> {
        Ok(&self.10)
    }

    fn get_field_(&self, path: TStr<Str_10>) -> (r: Result<&T, InfallibleAccess>) {
        Ok(&self.10)
    }
}

impl<T> GetFieldMutImpl<TStr<Str_10>> for MaxFields<T> {
    open spec fn field_updated(old: &Self, new: &Self, v: T) -> bool {
        new.10 == v && new.0 == old.0 && new.1 == old.1 && new.2 == old.2 && new.3 == old.3 && new.4 == old.4 && new.5 == old.5 && new.6 == old.6 && new.7 == old.7 && new.8 == old.8 && new.9 == old.9 && new.11 == old.11 && new.12 == old.12 && new.13 == old.13 && new.14 == old.14 && new.15 == old.15 && new.16 == old.16 && new.17 == old.17 && new.18 == old.18 && new.19 == old.19 && new.20 == old.20 && new.21 == old.21 && new.22 == old.22 && new.23 == old.23 && new.24 == old.24 && new.25 == old.25 && new.26 == old.26 && new.27 == old.27 && new.28 == old.28 && new.29 == old.29 && new.30 == old.30 && new.31 == old.31 && new.32 == old.32 && new.33 == old.33 && new.34 == old.34 && new.35 == old.35 && new.36 == old.36 && new.37 == old.37 && new.38 == old.38 && new.39 == old.39 && new.40 == old.40 && new.41 == old.41 && new.42 == old.42 && new.43 == old.43 && new.44 == old.44 && new.45 == old.45 && new.46 == old.46 && new.47 == old.47 && new.48 == old.48 && new.49 == old.49 && new.50 == old.50 && new.51 == old.51 && new.52 == old.52 && new.53 == old.53 && new.54 == old.54 && new.55 == old.55 && new.56 == old.56 && new.57 == old.57 && new.58 == old.58 && new.59 == old.59 && new.60 == old.60 && new.61 == old.61 && new.62 == old.62 && new.63 == old.63
    }

    open spec fn unchanged(old: &Self, new: &Self) -> bool {
        *new == *old
    }

    proof fn lemma_read_after_write(old: &Self, new: &Self, v: T) {
    }

    proof fn lemma_unchanged_reads_same(old: &Self, new: &Self) {
    }

    fn get_field_mut_(&mut self, path: TStr<Str_10>) -> (r: Result<&mut T, InfallibleAccess>) {
        Ok(&mut self.10)
    }
}

impl<T> IntoFieldImpl<TStr<Str_10>> for MaxFields<T> {
    fn into_field_(self, path: TStr<Str_10>) -> (r: Result<T, InfallibleAccess>) {
        Ok(self.10)
    }
}

impl<T> FieldType<TStr<Str_11>> for MaxFields<T> {
    type Ty = T;
}

impl<T> GetFieldImpl<TStr<Str_11>> for MaxFields<T> {
    type Error = InfallibleAccess;

    open spec fn get_field_spec(&self) -> Result<&T, InfallibleAccess> {
        Ok(&self.11)
    }

    fn get_field_(&self, path: TStr<Str_11>) -> (r: Result<&T, InfallibleAccess>) {
        Ok(&self.11)
    }
}

impl<T> GetFieldMutImpl<TStr<Str_11>> for MaxFields<T> {
    open spec fn field_updated(old: &Self, new: &Self, v: T) -> bool {
        new.11 == v && new.0 == old.0 && new.1 == old.1 && new.2 == old.2 && new.3 == old.3 && new.4 == old.4 && new.5 == old.5 && new.6 == old.6 && new.7 == old.7 && new.8 == old.8 && new.9 == old.9 && new.10 == old.10 && new.12 == old.12 && new.13 == old.13 && new.14 == old.14 && new.15 == old.15 && new.16 == old.16 && new.17 == old.17 && new.18 == old.18 && new.19 == old.19 && new.20 == old.20 && new.21 == old.21 && new.22 == old.22 && new.23 == old.23 && new.24 == old.24 && new.25 == old.25 && new.26 == old.26 && new.27 == old.27 && new.28 == old.28 && new.29 == old.29 && new.30 == old.30 && new.31 == old.31 && new.32 == old.32 && new.33 == old.33 && new.34 == old.34 && new.35 == old.35 && new.36 == old.36 && new.37 == old.37 && new.38 == old.38 && new.39 == old.39 && new.40 == old.40 && new.41 == old.41 && new.42 == old.42 && new.43 == old.43 && new.44 == old.44 && new.45 == old.45 && new.46 == old.46 && new.47 == old.47 && new.48 == old.48 && new.49 == old.49 && new.50 == old.50 && new.51 == old.51 && new.52 == old.52 && new.53 == old.53 && new.54 == old.54 && new.55 == old.55 && new.56 == old.56 && new.57 == old.57 && new.58 == old.58 && new.59 == old.59 && new.60 == old.60 && new.61 == old.61 && new.62 == old.62 && new.63 == old.63
    }

    open spec fn unchanged(old: &Self, new: &Self) -> bool {
        *new == *old
    }

    proof fn lemma_read_after_write(old: &Self, new: &Self, v: T) {
    }

    proof fn lemma_unchanged_reads_same(old: &Self, new: &Self) {
    }

    fn get_field_mut_(&mut self, path: TStr<Str_11>) -> (r: Result<&mut T, InfallibleAccess>) {
        Ok(&mut self.11)
    }
}

impl<T> IntoFieldImpl<TStr<Str_11>> for MaxFields<T> {
    fn into_field_(self, path: TStr<Str_11>) -> (r: Result<T, InfallibleAccess>) {
        Ok(self.11)
    }
}

impl<T> FieldType<TStr<Str_12>> for MaxFields<T> {
    type Ty = T;
}

impl<T> GetFieldImpl<TStr<Str_12>> for MaxFields<T> {
    type Error = InfallibleAccess;

    open spec fn get_field_spec(&self) -> Result<&T, InfallibleAccess> {
        Ok(&self.12)
    }

    fn get_field_(&self, path: TStr<Str_12>) -> (r: Result<&T, InfallibleAccess>) {
        Ok(&self.12)
    }
}

impl<T> GetFieldMutImpl<TStr<Str_12>> for MaxFields<T> {
    open spec fn field_updated(old: &Self, new: &Self, v: T) -> bool {
        new.12 == v && new.0 == old.0 && new.1 == old.1 && new.2 == old.2 && new.3 == old.3 && new.4 == old.4 && new.5 == old.5 && new.6 == old.6 && new.7 == old.7 && new.8 == old.8 && new.9 == old.9 && new.10 == old.10 && new.11 == old.11 && new.13 == old.13 && new.14 == old.14 && new.15 == old.15 && new.16 == old.16 && new.17 == old.17 && new.18 == old.18 && new.19 == old.19 && new.20 == old.20 && new.21 == old.21 && new.22 == old.22 && new.23 == old.23 && new.24 == old.24 && new.25 == old.25 && new.26 == old.26 && new.27 == old.27 && new.28 == old.28 && new.29 == old.29 && new.30 == old.30 && new.31 == old.31 && new.32 == old.32 && new.33 == old.33 && new.34 == old.34 && new.35 == old.35 && new.36 == old.36 && new.37 == old.37 && new.38 == old.38 && new.39 == old.39 && new.40 == old.40 && new.41 == old.41 && new.42 == old.42 && new.43 == old.43 && new.44 == old.44 && new.45 == old.45 && new.46 == old.46 && new.47 == old.47 && new.48 == old.48 && new.49 == old.49 && new.50 == old.50 && new.51 == old.51 && new.52 == old.52 && new.53 == old.53 && new.54 == old.54 && new.55 == old.55 && new.56 == old.56 && new.57 == old.57 && new.58 == old.58 && new.59 == old.59 && new.60 == old.60 && new.61 == old.61 && new.62 == old.62 && new.63 == old.63
    }

    open spec fn unchanged(old: &Self, new: &Self) -> bool {
        *new == *old
    }

    proof fn lemma_read_after_write(old: &Self, new: &Self, v: T) {
    }

    proof fn lemma_unchanged_reads_same(old: &Self, new: &Self) {
    }

    fn get_field_mut_(&mut self, path: TStr<Str_12>) -> (r: Result<&mut T, InfallibleAccess>) {
        Ok(&mut self.12)
    }
}

impl<T> IntoFieldImpl<TStr<Str_12>> for MaxFields<T> {
    fn into_field_(self, path: TStr<Str_12>) -> (r: Result<T, InfallibleAccess>) {
        Ok(self.12)
    }
}

impl<T> FieldType<TStr<Str_13>> for MaxFields<T> {
    type Ty = T;
}

impl<T> GetFieldImpl<TStr<Str_13>> for MaxFields<T> {
    type Error = InfallibleAccess;

    open spec fn get_field_spec(&self) -> Result<&T, InfallibleAccess> {
        Ok(&self.13)
    }

    fn get_field_(&self, path: TStr<Str_13>) -> (r: Result<&T, InfallibleAccess>) {
        Ok(&self.13)
    }
}

impl<T> GetFieldMutImpl<TStr<Str_13>> for MaxFields<T> {
    open spec fn field_updated(old: &Self, new: &Self, v: T) -> bool {
        new.13 == v && new.0 == old.0 && new.1 == old.1 && new.2 == old.2 && new.3 == old.3 && new.4 == old.4 && new.5 == old.5 && new.6 == old.6 && new.7 == old.7 && new.8 == old.8 && new.9 == old.9 && new.10 == old.10 && new.11 == old.11 && new.12 == old.12 && new.14 == old.14 && new.15 == old.15 && new.16 == old.16 && new.17 == old.17 && new.18 == old.18 && new.19 == old.19 && new.20 == old.20 && new.21 == old.21 && new.22 == old.22 && new.23 == old.23 && new.24 == old.24 && new.25 == old.25 && new.26 == old.26 && new.27 == old.27 && new.28 == old.28 && new.29 == old.29 && new.30 == old.30 && new.31 == old.31 && new.32 == old.32 && new.33 == old.33 && new.34 == old.34 && new.35 == old.35 && new.36 == old.36 && new.37 == old.37 && new.38 == old.38 && new.39 == old.39 && new.40 == old.40 && new.41 == old.41 && new.42 == old.42 && new.43 == old.43 && new.44 == old.44 && new.45 == old.45 && new.46 == old.46 && new.47 == old.47 && new.48 == old.48 && new.49 == old.49 && new.50 == old.50 && new.51 == old.51 && new.52 == old.52 && new.53 == old.53 && new.54 == old.54 && new.55 == old.55 && new.56 == old.56 && new.57 == old.57 && new.58 == old.58 && new.59 == old.59 && new.60 == old.60 && new.61 == old.61 && new.62 == old.62 && new.63 == old.63
    }

    open spec fn unchanged(old: &Self, new: &Self) -> bool {
        *new == *old
    }

    proof fn lemma_read_after_write(old: &Self, new: &Self, v: T) {
    }

    proof fn lemma_unchanged_reads_same(old: &Self, new: &Self) {
    }

    fn get_field_mut_(&mut self, path: TStr<Str_13>) -> (r: Result<&mut T, InfallibleAccess>) {
        Ok(&mut self.13)
    }
}

impl<T> IntoFieldImpl<TStr<Str_13>> for MaxFields<T> {
    fn into_field_(self, path: TStr<Str_13>) -> (r: Result<T, InfallibleAccess>) {
        Ok(self.13)
    }
}

impl<T> FieldType<TStr<Str_14>> for MaxFields<T> {
    type Ty = T;
}

impl<T> GetFieldImpl<TStr<Str_14>> for MaxFields<T> {
    type Error = InfallibleAccess;

    open spec fn get_field_spec(&self) -> Result<&T, InfallibleAccess> {
        Ok(&self.14)
    }

    fn get_field_(&self, path: TStr<Str_14>) -> (r: Result<&T, InfallibleAccess>) {
        Ok(&self.14)
    }
}

impl<T> GetFieldMutImpl<TStr<Str_14>> for MaxFields<T> {
    open spec fn field_updated(old: &Self, new: &Self, v: T) -> bool {
        new.14 == v && new.0 == old.0 && new.1 == old.1 && new.2 == old.2 && new.3 == old.3 && new.4 == old.4 && new.5 == old.5 && new.6 == old.6 && new.7 == old.7 && new.8 == old.8 && new.9 == old.9 && new.10 == old.10 && new.11 == old.11 && new.12 == old.12 && new.13 == old.13 && new.15 == old.15 && new.16 == old.16 && new.17 == old.17 && new.18 == old.18 && new.19 == old.19 && new.20 == old.20 && new.21 == old.21 && new.22 == old.22 && new.23 == old.23 && new.24 == old.24 && new.25 == old.25 && new.26 == old.26 && new.27 == old.27 && new.28 == old.28 && new.29 == old.29 && new.30 == old.30 && new.31 == old.31 && new.32 == old.32 && new.33 == old.33 && new.34 == old.34 && new.35 == old.35 && new.36 == old.36 && new.37 == old.37 && new.38 == old.38 && new.39 == old.39 && new.40 == old.40 && new.41 == old.41 && new.42 == old.42 && new.43 == old.43 && new.44 == old.44 && new.45 == old.45 && new.46 == old.46 && new.47 == old.47 && new.48 == old.48 && new.49 == old.49 && new.50 == old.50 && new.51 == old.51 && new.52 == old.52 && new.53 == old.53 && new.54 == old.54 && new.55 == old.55 && new.56 == old.56 && new.57 == old.57 && new.58 == old.58 && new.59 == old.59 && new.60 == old.60 && new.61 == old.61 && new.62 == old.62 && new.63 == old.63
    }

    open spec fn unchanged(old: &Self, new: &Self) -> bool {
        *new == *old
    }

    proof fn lemma_read_after_write(old: &Self, new: &Self, v: T) {
    }

    proof fn lemma_unchanged_reads_same(old: &Self, new: &Self) {
    }

    fn get_field_mut_(&mut self, path: TStr<Str_14>) -> (r: Result<&mut T, InfallibleAccess>) {
        Ok(&mut self.14)
    }
}

impl<T> IntoFieldImpl<TStr<Str_14>> for MaxFields<T> {
    fn into_field_(self, path: TStr<Str_14>) -> (r: Result<T, InfallibleAccess>) {
        Ok(self.14)
    }
}

impl<T> FieldType<TStr<Str_15>> for MaxFields<T> {
    type Ty = T;
}

impl<T> GetFieldImpl<TStr<Str_15>> for MaxFields<T> {
    type Error = InfallibleAccess;

    open spec fn get_field_spec(&self) -> Result<&T, InfallibleAccess> {
        Ok(&self.15)
    }

    fn get_field_(&self, path: TStr<Str_15>) -> (r: Result<&T, InfallibleAccess>) {
        Ok(&self.15)
    }
}

impl<T> GetFieldMutImpl<TStr<Str_15>> for MaxFields<T> {
    open spec fn field_updated(old: &Self, new: &Self, v: T) -> bool {
        new.15 == v && new.0 == old.0 && new.1 == old.1 && new.2 == old.2 && new.3 == old.3 && new.4 == old.4 && new.5 == old.5 && new.6 == old.6 && new.7 == old.7 && new.8 == old.8 && new.9 == old.9 && new.10 == old.10 && new.11 == old.11 && new.12 == old.12 && new.13 == old.13 && new.14 == old.14 && new.16 == old.16 && new.17 == old.17 && new.18 == old.18 && new.19 == old.19 && new.20 == old.20 && new.21 == old.21 && new.22 == old.22 && new.23 == old.23 && new.24 == old.24 && new.25 == old.25 && new.26 == old.26 && new.27 == old.27 && new.28 == old.28 && new.29 == old.29 && new.30 == old.30 && new.31 == old.31 && new.32 == old.32 && new.33 == old.33 && new.34 == old.34 && new.35 == old.35 && new.36 == old.36 && new.37 == old.37 && new.38 == old.38 && new.39 == old.39 && new.40 == old.40 && new.41 == old.41 && new.42 == old.42 && new.43 == old.43 && new.44 == old.44 && new.45 == old.45 && new.46 == old.46 && new.47 == old.47 && new.48 == old.48 && new.49 == old.49 && new.50 == old.50 && new.51 == old.51 && new.52 == old.52 && new.53 == old.53 && new.54 == old.54 && new.55 == old.55 && new.56 == old.56 && new.57 == old.57 && new.58 == old.58 && new.59 == old.59 && new.60 == old.60 && new.61 == old.61 && new.62 == old.62 && new.63 == old.63
    }

    open spec fn unchanged(old: &Self, new: &Self) -> bool {
        *new == *old
    }

    proof fn lemma_read_after_write(old: &Self, new: &Self, v: T) {
    }

    proof fn lemma_unchanged_reads_same(old: &Self, new: &Self) {
    }

    fn get_field_mut_(&mut self, path: TStr<Str_15>) -> (r: Result<&mut T, InfallibleAccess>) {
        Ok(&mut self.15)
    }
}

impl<T> IntoFieldImpl<TStr<Str_15>> for MaxFields<T> {
    fn into_field_(self, path: TStr<Str_15>) -> (r: Result<T, InfallibleAccess>) {
        Ok(self.15)
    }
}

impl<T> FieldType<TStr<Str_16>> for MaxFields<T> {
    type Ty = T;
}

impl<T> GetFieldImpl<TStr<Str_16>> for MaxFields<T> {
    type Error = InfallibleAccess;

    open spec fn get_field_spec(&self) -> Result<&T, InfallibleAccess> {
        Ok(&self.16)
    }

    fn get_field_(&self, path: TStr<Str_16>) -> (r: Result<&T, InfallibleAccess>) {
        Ok(&self.16)
    }
}

impl<T> GetFieldMutImpl<TStr<Str_16>> for MaxFields<T> {
    open spec fn field_updated(old: &Self, new: &Self, v: T) -> bool {
        new.16 == v && new.0 == old.0 && new.1 == old.1 && new.2 == old.2 && new.3 == old.3 && new.4 == old.4 && new.5 == old.5 && new.6 == old.6 && new.7 == old.7 && new.8 == old.8 && new.9 == old.9 && new.10 == old.10 && new.11 == old.11 && new.12 == old.12 && new.13 == old.13 && new.14 == old.14 && new.15 == old.15 && new.17 == old.17 && new.18 == old.18 && new.19 == old.19 && new.20 == old.20 && new.21 == old.21 && new.22 == old.22 && new.23 == old.23 && new.24 == old.24 && new.25 == old.25 && new.26 == old.26 && new.27 == old.27 && new.28 == old.28 && new.29 == old.29 && new.30 == old.30 && new.31 == old.31 && new.32 == old.32 && new.33 == old.33 && new.34 == old.34 && new.35 == old.35 && new.36 == old.36 && new.37 == old.37 && new.38 == old.38 && new.39 == old.39 && new.40 == old.40 && new.41 == old.41 && new.42 == old.42 && new.43 == old.43 && new.44 == old.44 && new.45 == old.45 && new.46 == old.46 && new.47 == old.47 && new.48 == old.48 && new.49 == old.49 && new.50 == old.50 && new.51 == old.51 && new.52 == old.52 && new.53 == old.53 && new.54 == old.54 && new.55 == old.55 && new.56 == old.56 && new.57 == old.57 && new.58 == old.58 && new.59 == old.59 && new.60 == old.60 && new.61 == old.61 && new.62 == old.62 && new.63 == old.63
    }

    open spec fn unchanged(old: &Self, new: &Self) -> bool {
        *new == *old
    }

    proof fn lemma_read_after_write(old: &Self, new: &Self, v: T) {
    }

    proof fn lemma_unchanged_reads_same(old: &Self, new: &Self) {
    }

    fn get_field_mut_(&mut self, path: TStr<Str_16>) -> (r: Result<&mut T, InfallibleAccess>) {
        Ok(&mut self.16)
    }
}

impl<T> IntoFieldImpl<TStr<Str_16>> for MaxFields<T> {
    fn into_field_(self, path: TStr<Str_16>) -> (r: Result<T, InfallibleAccess>) {
        Ok(self.16)
    }
}

impl<T> FieldType<TStr<Str_17>> for MaxFields<T> {
    type Ty = T;
}

impl<T> GetFieldImpl<TStr<Str_17>> for MaxFields<T> {
    type Error = InfallibleAccess;

    open spec fn get_field_spec(&self) -> Result<&T, InfallibleAccess> {
        Ok(&self.17)
    }

    fn get_field_(&self, path: TStr<Str_17>) -> (r: Result<&T, InfallibleAccess>) {
        Ok(&self.17)
    }
}

impl<T> GetFieldMutImpl<TStr<Str_17>> for MaxFields<T> {
    open spec fn field_updated(old: &Self, new: &Self, v: T) -> bool {
        new.17 == v && new.0 == old.0 && new.1 == old.1 && new.2 == old.2 && new.3 == old.3 && new.4 == old.4 && new.5 == old.5 && new.6 == old.6 && new.7 == old.7 && new.8 == old.8 && new.9 == old.9 && new.10 == old.10 && new.11 == old.11 && new.12 == old.12 && new.13 == old.13 && new.14 == old.14 && new.15 == old.15 && new.16 == old.16 && new.18 == old.18 && new.19 == old.19 && new.20 == old.20 && new.21 == old.21 && new.22 == old.22 && new.23 == old.23 && new.24 == old.24 && new.25 == old.25 && new.26 == old.26 && new.27 == old.27 && new.28 == old.28 && new.29 == old.29 && new.30 == old.30 && new.31 == old.31 && new.32 == old.32 && new.33 == old.33 && new.34 == old.34 && new.35 == old.35 && new.36 == old.36 && new.37 == old.37 && new.38 == old.38 && new.39 == old.39 && new.40 == old.40 && new.41 == old.41 && new.42 == old.42 && new.43 == old.43 && new.44 == old.44 && new.45 == old.45 && new.46 == old.46 && new.47 == old.47 && new.48 == old.48 && new.49 == old.49 && new.50 == old.50 && new.51 == old.51 && new.52 == old.52 && new.53 == old.53 && new.54 == old.54 && new.55 == old.55 && new.56 == old.56 && new.57 == old.57 && new.58 == old.58 && new.59 == old.59 && new.60 == old.60 && new.61 == old.61 && new.62 == old.62 && new.63 == old.63
    }

    open spec fn unchanged(old: &Self, new: &Self) -> bool {
        *new == *old
    }

    proof fn lemma_read_after_write(old: &Self, new: &Self, v: T) {
    }

    proof fn lemma_unchanged_reads_same(old: &Self, new: &Self) {
    }

    fn get_field_mut_(&mut self, path: TStr<Str_17>) -> (r: Result<&mut T, InfallibleAccess>) {
        Ok(&mut self.17)
    }
}

impl<T> IntoFieldImpl<TStr<Str_17>> for MaxFields<T> {
    fn into_field_(self, path: TStr<Str_17>) -> (r: Result<T, InfallibleAccess>) {
        Ok(self.17)
    }
}

impl<T> FieldType<TStr<Str_18>> for MaxFields<T> {
    type Ty = T;
}

impl<T> GetFieldImpl<TStr<Str_18>> for MaxFields<T> {
    type Error = InfallibleAccess;

    open spec fn get_field_spec(&self) -> Result<&T, InfallibleAccess> {
        Ok(&self.18)
    }

    fn get_field_(&self, path: TStr<Str_18>) -> (r: Result<&T, InfallibleAccess>) {
        Ok(&self.18)
    }
}

impl<T> GetFieldMutImpl<TStr<Str_18>> for MaxFields<T> {
    open spec fn field_updated(old: &Self, new: &Self, v: T) -> bool {
        new.18 == v && new.0 == old.0 && new.1 == old.1 && new.2 == old.2 && new.3 == old.3 && new.4 == old.4 && new.5 == old.5 && new.6 == old.6 && new.7 == old.7 && new.8 == old.8 && new.9 == old.9 && new.10 == old.10 && new.11 == old.11 && new.12 == old.12 && new.13 == old.13 && new.14 == old.14 && new.15 == old.15 && new.16 == old.16 && new.17 == old.17 && new.19 == old.19 && new.20 == old.20 && new.21 == old.21 && new.22 == old.22 && new.23 == old.23 && new.24 == old.24 && new.25 == old.25 && new.26 == old.26 && new.27 == old.27 && new.28 == old.28 && new.29 == old.29 && new.30 == old.30 && new.31 == old.31 && new.32 == old.32 && new.33 == old.33 && new.34 == old.34 && new.35 == old.35 && new.36 == old.36 && new.37 == old.37 && new.38 == old.38 && new.39 == old.39 && new.40 == old.40 && new.41 == old.41 && new.42 == old.42 && new.43 == old.43 && new.44 == old.44 && new.45 == old.45 && new.46 == old.46 && new.47 == old.47 && new.48 == old.48 && new.49 == old.49 && new.50 == old.50 && new.51 == old.51 && new.52 == old.52 && new.53 == old.53 && new.54 == old.54 && new.55 == old.55 && new.56 == old.56 && new.57 == old.57 && new.58 == old.58 && new.59 == old.59 && new.60 == old.60 && new.61 == old.61 && new.62 == old.62 && new.63 == old.63
    }

    open spec fn unchanged(old: &Self, new: &Self) -> bool {
        *new == *old
    }

    proof fn lemma_read_after_write(old: &Self, new: &Self, v: T) {
    }

    proof fn lemma_unchanged_reads_same(old: &Self, new: &Self) {
    }

    fn get_field_mut_(&mut self, path: TStr<Str_18>) -> (r: Result<&mut T, InfallibleAccess>) {
        Ok(&mut self.18)
    }
}

impl<T> IntoFieldImpl<TStr<Str_18>> for MaxFields<T> {
    fn into_field_(self, path: TStr<Str_18>) -> (r: Result<T, InfallibleAccess>) {
        Ok(self.18)
    }
}

impl<T> FieldType<TStr<Str_19>> for MaxFields<T> {
    type Ty = T;
}

impl<T> GetFieldImpl<TStr<Str_19>> for MaxFields<T> {
    type Error = InfallibleAccess;

    open spec fn get_field_spec(&self) -> Result<&T, InfallibleAccess> {
        Ok(&self.19)
    }

    fn get_field_(&self, path: TStr<Str_19>) -> (r: Result<&T, InfallibleAccess>) {
        Ok(&self.19)
    }
}

impl<T> GetFieldMutImpl<TStr<Str_19>> for MaxFields<T> {
    open spec fn field_updated(old: &Self, new: &Self, v: T) -> bool {
        new.19 == v && new.0 == old.0 && new.1 == old.1 && new.2 == old.2 && new.3 == old.3 && new.4 == old.4 && new.5 == old.5 && new.6 == old.6 && new.7 == old.7 && new.8 == old.8 && new.9 == old.9 && new.10 == old.10 && new.11 == old.11 && new.12 == old.12 && new.13 == old.13 && new.14 == old.14 && new.15 == old.15 && new.16 == old.16 && new.17 == old.17 && new.18 == old.18 && new.20 == old.20 && new.21 == old.21 && new.22 == old.22 && new.23 == old.23 && new.24 == old.24 && new.25 == old.25 && new.26 == old.26 && new.27 == old.27 && new.28 == old.28 && new.29 == old.29 && new.30 == old.30 && new.31 == old.31 && new.32 == old.32 && new.33 == old.33 && new.34 == old.34 && new.35 == old.35 && new.36 == old.36 && new.37 == old.37 && new.38 == old.38 && new.39 == old.39 && new.40 == old.40 && new.41 == old.41 && new.42 == old.42 && new.43 == old.43 && new.44 == old.44 && new.45 == old.45 && new.46 == old.46 && new.47 == old.47 && new.48 == old.48 && new.49 == old.49 && new.50 == old.50 && new.51 == old.51 && new.52 == old.52 && new.53 == old.53 && new.54 == old.54 && new.55 == old.55 && new.56 == old.56 && new.57 == old.57 && new.58 == old.58 && new.59 == old.59 && new.60 == old.60 && new.61 == old.61 && new.62 == old.62 && new.63 == old.63
    }

    open spec fn unchanged(old: &Self, new: &Self) -> bool {
        *new == *old
    }

    proof fn lemma_read_after_write(old: &Self, new: &Self, v: T) {
    }

    proof fn lemma_unchanged_reads_same(old: &Self, new: &Self) {
    }

    fn get_field_mut_(&mut self, path: TStr<Str_19>) -> (r: Result<&mut T, InfallibleAccess>) {
        Ok(&mut self.19)
    }
}

impl<T> IntoFieldImpl<TStr<Str_19>> for MaxFields<T> {
    fn into_field_(self, path: TStr<Str_19>) -> (r: Result<T, InfallibleAccess>) {
        Ok(self.19)
    }
}

impl<T> FieldType<TStr<Str_20>> for MaxFields<T> {
    type Ty = T;
}

impl<T> GetFieldImpl<TStr<Str_20>> for MaxFields<T> {
    type Error = InfallibleAccess;

    open spec fn get_field_spec(&self) -> Result<&T, InfallibleAccess> {
        Ok(&self.20)
    }

    fn get_field_(&self, path: TStr<Str_20>) -> (r: Result<&T, InfallibleAccess>) {
        Ok(&self.20)
    }
}

impl<T> GetFieldMutImpl<TStr<Str_20>> for MaxFields<T> {
    open spec fn field_updated(old: &Self, new: &Self, v: T) -> bool {
        new.20 == v && new.0 == old.0 && new.1 == old.1 && new.2 == old.2 && new.3 == old.3 && new.4 == old.4 && new.5 == old.5 && new.6 == old.6 && new.7 == old.7 && new.8 == old.8 && new.9 == old.9 && new.10 == old.10 && new.11 == old.11 && new.12 == old.12 && new.13 == old.13 && new.14 == old.14 && new.15 == old.15 && new.16 == old.16 && new.17 == old.17 && new.18 == old.18 && new.19 == old.19 && new.21 == old.21 && new.22 == old.22 && new.23 == old.23 && new.24 == old.24 && new.25 == old.25 && new.26 == old.26 && new.27 == old.27 && new.28 == old.28 && new.29 == old.29 && new.30 == old.30 && new.31 == old.31 && new.32 == old.32 && new.33 == old.33 && new.34 == old.34 && new.35 == old.35 && new.36 == old.36 && new.37 == old.37 && new.38 == old.38 && new.39 == old.39 && new.40 == old.40 && new.41 == old.41 && new.42 == old.42 && new.43 == old.43 && new.44 == old.44 && new.45 == old.45 && new.46 == old.46 && new.47 == old.47 && new.48 == old.48 && new.49 == old.49 && new.50 == old.50 && new.51 == old.51 && new.52 == old.52 && new.53 == old.53 && new.54 == old.54 && new.55 == old.55 && new.56 == old.56 && new.57 == old.57 && new.58 == old.58 && new.59 == old.59 && new.60 == old.60 && new.61 == old.61 && new.62 == old.62 && new.63 == old.63
    }

    open spec fn unchanged(old: &Self, new: &Self) -> bool {
        *new == *old
    }

    proof fn lemma_read_after_write(old: &Self, new: &Self, v: T) {
    }

    proof fn lemma_unchanged_reads_same(old: &Self, new: &Self) {
    }

    fn get_field_mut_(&mut self, path: TStr<Str_20>) -> (r: Result<&mut T, InfallibleAccess>) {
        Ok(&mut self.20)
    }
}

impl<T> IntoFieldImpl<TStr<Str_20>> for MaxFields<T> {
    fn into_field_(self, path: TStr<Str_20>) -> (r: Result<T, InfallibleAccess>) {
        Ok(self.20)
    }
}

impl<T> FieldType<TStr<Str_21>> for MaxFields<T> {
    type Ty = T;
}

impl<T> GetFieldImpl<TStr<Str_21>> for MaxFields<T> {
    type Error = InfallibleAccess;

    open spec fn get_field_spec(&self) -> Result<&T, InfallibleAccess> {
        Ok(&self.21)
    }

    fn get_field_(&self, path: TStr<Str_21>) -> (r: Result<&T, InfallibleAccess>) {
        Ok(&self.21)
    }
}

impl<T> GetFieldMutImpl<TStr<Str_21>> for MaxFields<T> {
    open spec fn field_updated(old: &Self, new: &Self, v: T) -> bool {
        new.21 == v && new.0 == old.0 && new.1 == old.1 && new.2 == old.2 && new.3 == old.3 && new.4 == old.4 && new.5 == old.5 && new.6 == old.6 && new.7 == old.7 && new.8 == old.8 && new.9 == old.9 && new.10 == old.10 && new.11 == old.11 && new.12 == old.12 && new.13 == old.13 && new.14 == old.14 && new.15 == old.15 && new.16 == old.16 && new.17 == old.17 && new.18 == old.18 && new.19 == old.19 && new.20 == old.20 && new.22 == old.22 && new.23 == old.23 && new.24 == old.24 && new.25 == old.25 && new.26 == old.26 && new.27 == old.27 && new.28 == old.28 && new.29 == old.29 && new.30 == old.30 && new.31 == old.31 && new.32 == old.32 && new.33 == old.33 && new.34 == old.34 && new.35 == old.35 && new.36 == old.36 && new.37 == old.37 && new.38 == old.38 && new.39 == old.39 && new.40 == old.40 && new.41 == old.41 && new.42 == old.42 && new.43 == old.43 && new.44 == old.44 && new.45 == old.45 && new.46 == old.46 && new.47 == old.47 && new.48 == old.48 && new.49 == old.49 && new.50 == old.50 && new.51 == old.51 && new.52 == old.52 && new.53 == old.53 && new.54 == old.54 && new.55 == old.55 && new.56 == old.56 && new.57 == old.57 && new.58 == old.58 && new.59 == old.59 && new.60 == old.60 && new.61 == old.61 && new.62 == old.62 && new.63 == old.63
    }

    open spec fn unchanged(old: &Self, new: &Self) -> bool {
        *new == *old
    }

    proof fn lemma_read_after_write(old: &Self, new: &Self, v: T) {
    }

    proof fn lemma_unchanged_reads_same(old: &Self, new: &Self) {
    }

    fn get_field_mut_(&mut self, path: TStr<Str_21>) -> (r: Result<&mut T, InfallibleAccess>) {
        Ok(&mut self.21)
    }
}

impl<T> IntoFieldImpl<TStr<Str_21>> for MaxFields<T> {
    fn into_field_(self, path: TStr<Str_21>) -> (r: Result<T, InfallibleAccess>) {
        Ok(self.21)
    }
}

impl<T> FieldType<TStr<Str_22>> for MaxFields<T> {
    type Ty = T;
}

impl<T> GetFieldImpl<TStr<Str_22>> for MaxFields<T> {
    type Error = InfallibleAccess;

    open spec fn get_field_spec(&self) -> Result<&T, InfallibleAccess> {
        Ok(&self.22)
    }

    fn get_field_(&self, path: TStr<Str_22>) -> (r: Result<&T, InfallibleAccess>) {
        Ok(&self.22)
    }
}

impl<T> GetFieldMutImpl<TStr<Str_22>> for MaxFields<T> {
    open spec fn field_updated(old: &Self, new: &Self, v: T) -> bool {
        new.22 == v && new.0 == old.0 && new.1 == old.1 && new.2 == old.2 && new.3 == old.3 && new.4 == old.4 && new.5 == old.5 && new.6 == old.6 && new.7 == old.7 && new.8 == old.8 && new.9 == old.9 && new.10 == old.10 && new.11 == old.11 && new.12 == old.12 && new.13 == old.13 && new.14 == old.14 && new.15 == old.15 && new.16 == old.16 && new.17 == old.17 && new.18 == old.18 && new.19 == old.19 && new.20 == old.20 && new.21 == old.21 && new.23 == old.23 && new.24 == old.24 && new.25 == old.25 && new.26 == old.26 && new.27 == old.27 && new.28 == old.28 && new.29 == old.29 && new.30 == old.30 && new.31 == old.31 && new.32 == old.32 && new.33 == old.33 && new.34 == old.34 && new.35 == old.35 && new.36 == old.36 && new.37 == old.37 && new.38 == old.38 && new.39 == old.39 && new.40 == old.40 && new.41 == old.41 && new.42 == old.42 && new.43 == old.43 && new.44 == old.44 && new.45 == old.45 && new.46 == old.46 && new.47 == old.47 && new.48 == old.48 && new.49 == old.49 && new.50 == old.50 && new.51 == old.51 && new.52 == old.52 && new.53 == old.53 && new.54 == old.54 && new.55 == old.55 && new.56 == old.56 && new.57 == old.57 && new.58 == old.58 && new.59 == old.59 && new.60 == old.60 && new.61 == old.61 && new.62 == old.62 && new.63 == old.63
    }

    open spec fn unchanged(old: &Self, new: &Self) -> bool {
        *new == *old
    }

    proof fn lemma_read_after_write(old: &Self, new: &Self, v: T) {
    }

    proof fn lemma_unchanged_reads_same(old: &Self, new: &Self) {
    }

    fn get_field_mut_(&mut self, path: TStr<Str_22>) -> (r: Result<&mut T, InfallibleAccess>) {
        Ok(&mut self.22)
    }
}

impl<T> IntoFieldImpl<TStr<Str_22>> for MaxFields<T> {
    fn into_field_(self, path: TStr<Str_22>) -> (r: Result<T, InfallibleAccess>) {
        Ok(self.22)
    }
}

impl<T> FieldType<TStr<Str_23>> for MaxFields<T> {
    type Ty = T;
}

impl<T> GetFieldImpl<TStr<Str_23>> for MaxFields<T> {
    type Error = InfallibleAccess;

    open spec fn get_field_spec(&self) -> Result<&T, InfallibleAccess> {
        Ok(&self.23)
    }

    fn get_field_(&self, path: TStr<Str_23>) -> (r: Result<&T, InfallibleAccess>) {
        Ok(&self.23)
    }
}

impl<T> GetFieldMutImpl<TStr<Str_23>> for MaxFields<T> {
    open spec fn field_updated(old: &Self, new: &Self, v: T) -> bool {
        new.23 == v && new.0 == old.0 && new.1 == old.1 && new.2 == old.2 && new.3 == old.3 && new.4 == old.4 && new.5 == old.5 && new.6 == old.6 && new.7 == old.7 && new.8 == old.8 && new.9 == old.9 && new.10 == old.10 && new.11 == old.11 && new.12 == old.12 && new.13 == old.13 && new.14 == old.14 && new.15 == old.15 && new.16 == old.16 && new.17 == old.17 && new.18 == old.18 && new.19 == old.19 && new.20 == old.20 && new.21 == old.21 && new.22 == old.22 && new.24 == old.24 && new.25 == old.25 && new.26 == old.26 && new.27 == old.27 && new.28 == old.28 && new.29 == old.29 && new.30 == old.30 && new.31 == old.31 && new.32 == old.32 && new.33 == old.33 && new.34 == old.34 && new.35 == old.35 && new.36 == old.36 && new.37 == old.37 && new.38 == old.38 && new.39 == old.39 && new.40 == old.40 && new.41 == old.41 && new.42 == old.42 && new.43 == old.43 && new.44 == old.44 && new.45 == old.45 && new.46 == old.46 && new.47 == old.47 && new.48 == old.48 && new.49 == old.49 && new.50 == old.50 && new.51 == old.51 && new.52 == old.52 && new.53 == old.53 && new.54 == old.54 && new.55 == old.55 && new.56 == old.56 && new.57 == old.57 && new.58 == old.58 && new.59 == old.59 && new.60 == old.60 && new.61 == old.61 && new.62 == old.62 && new.63 == old.63
    }

    open spec fn unchanged(old: &Self, new: &Self) -> bool {
        *new == *old
    }

    proof fn lemma_read_after_write(old: &Self, new: &Self, v: T) {
    }

    proof fn lemma_unchanged_reads_same(old: &Self, new: &Self) {
    }

    fn get_field_mut_(&mut self, path: TStr<Str_23>) -> (r: Result<&mut T, InfallibleAccess>) {
        Ok(&mut self.23)
    }
}

impl<T> IntoFieldImpl<TStr<Str_23>> for MaxFields<T> {
    fn into_field_(self, path: TStr<Str_23>) -> (r: Result<T, InfallibleAccess>) {
        Ok(self.23)
    }
}

impl<T> FieldType<TStr<Str_24>> for MaxFields<T> {
    type Ty = T;
}

impl<T> GetFieldImpl<TStr<Str_24>> for MaxFields<T> {
    type Error = InfallibleAccess;

    open spec fn get_field_spec(&self) -> Result<&T, InfallibleAccess> {
        Ok(&self.24)
    }

    fn get_field_(&self, path: TStr<Str_24>) -> (r: Result<&T, InfallibleAccess>) {
        Ok(&self.24)
    }
}

impl<T> GetFieldMutImpl<TStr<Str_24>> for MaxFields<T> {
    open spec fn field_updated(old: &Self, new: &Self, v: T) -> bool {
        new.24 == v && new.0 == old.0 && new.1 == old.1 && new.2 == old.2 && new.3 == old.3 && new.4 == old.4 && new.5 == old.5 && new.6 == old.6 && new.7 == old.7 && new.8 == old.8 && new.9 == old.9 && new.10 == old.10 && new.11 == old.11 && new.12 == old.12 && new.13 == old.13 && new.14 == old.14 && new.15 == old.15 && new.16 == old.16 && new.17 == old.17 && new.18 == old.18 && new.19 == old.19 && new.20 == old.20 && new.21 == old.21 && new.22 == old.22 && new.23 == old.23 && new.25 == old.25 && new.26 == old.26 && new.27 == old.27 && new.28 == old.28 && new.29 == old.29 && new.30 == old.30 && new.31 == old.31 && new.32 == old.32 && new.33 == old.33 && new.34 == old.34 && new.35 == old.35 && new.36 == old.36 && new.37 == old.37 && new.38 == old.38 && new.39 == old.39 && new.40 == old.40 && new.41 == old.41 && new.42 == old.42 && new.43 == old.43 && new.44 == old.44 && new.45 == old.45 && new.46 == old.46 && new.47 == old.47 && new.48 == old.48 && new.49 == old.49 && new.50 == old.50 && new.51 == old.51 && new.52 == old.52 && new.53 == old.53 && new.54 == old.54 && new.55 == old.55 && new.56 == old.56 && new.57 == old.57 && new.58 == old.58 && new.59 == old.59 && new.60 == old.60 && new.61 == old.61 && new.62 == old.62 && new.63 == old.63
    }

    open spec fn unchanged(old: &Self, new: &Self) -> bool {
        *new == *old
    }

    proof fn lemma_read_after_write(old: &Self, new: &Self, v: T) {
    }

    proof fn lemma_unchanged_reads_same(old: &Self, new: &Self) {
    }

    fn get_field_mut_(&mut self, path: TStr<Str_24>) -> (r: Result<&mut T, InfallibleAccess>) {
        Ok(&mut self.24)
    }
}

impl<T> IntoFieldImpl<TStr<Str_24>> for MaxFields<T> {
    fn into_field_(self, path: TStr<Str_24>) -> (r: Result<T, InfallibleAccess>) {
        Ok(self.24)
    }
}

impl<T> FieldType<TStr<Str_25>> for MaxFields<T> {
    type Ty = T;
}

impl<T> GetFieldImpl<TStr<Str_25>> for MaxFields<T> {
    type Error = InfallibleAccess;

    open spec fn get_field_spec(&self) -> Result<&T, InfallibleAccess> {
        Ok(&self.25)
    }

    fn get_field_(&self, path: TStr<Str_25>) -> (r: Result<&T, InfallibleAccess>) {
        Ok(&self.25)
    }
}

impl<T> GetFieldMutImpl<TStr<Str_25>> for MaxFields<T> {
    open spec fn field_updated(old: &Self, new: &Self, v: T) -> bool {
        new.25 == v && new.0 == old.0 && new.1 == old.1 && new.2 == old.2 && new.3 == old.3 && new.4 == old.4 && new.5 == old.5 && new.6 == old.6 && new.7 == old.7 && new.8 == old.8 && new.9 == old.9 && new.10 == old.10 && new.11 == old.11 && new.12 == old.12 && new.13 == old.13 && new.14 == old.14 && new.15 == old.15 && new.16 == old.16 && new.17 == old.17 && new.18 == old.18 && new.19 == old.19 && new.20 == old.20 && new.21 == old.21 && new.22 == old.22 && new.23 == old.23 && new.24 == old.24 && new.26 == old.26 && new.27 == old.27 && new.28 == old.28 && new.29 == old.29 && new.30 == old.30 && new.31 == old.31 && new.32 == old.32 && new.33 == old.33 && new.34 == old.34 && new.35 == old.35 && new.36 == old.36 && new.37 == old.37 && new.38 == old.38 && new.39 == old.39 && new.40 == old.40 && new.41 == old.41 && new.42 == old.42 && new.43 == old.43 && new.44 == old.44 && new.45 == old.45 && new.46 == old.46 && new.47 == old.47 && new.48 == old.48 && new.49 == old.49 && new.50 == old.50 && new.51 == old.51 && new.52 == old.52 && new.53 == old.53 && new.54 == old.54 && new.55 == old.55 && new.56 == old.56 && new.57 == old.57 && new.58 == old.58 && new.59 == old.59 && new.60 == old.60 && new.61 == old.61 && new.62 == old.62 && new.63 == old.63
    }

    open spec fn unchanged(old: &Self, new: &Self) -> bool {
        *new == *old
    }

    proof fn lemma_read_after_write(old: &Self, new: &Self, v: T) {
    }

    proof fn lemma_unchanged_reads_same(old: &Self, new: &Self) {
    }

    fn get_field_mut_(&mut self, path: TStr<Str_25>) -> (r: Result<&mut T, InfallibleAccess>) {
        Ok(&mut self.25)
    }
}

impl<T> IntoFieldImpl<TStr<Str_25>> for MaxFields<T> {
    fn into_field_(self, path: TStr<Str_25>) -> (r: Result<T, InfallibleAccess>) {
        Ok(self.25)
    }
}

impl<T> FieldType<TStr<Str_26>> for MaxFields<T> {
    type Ty = T;
}

impl<T> GetFieldImpl<TStr<Str_26>> for MaxFields<T> {
    type Error = InfallibleAccess;

    open spec fn get_field_spec(&self) -> Result<&T, InfallibleAccess> {
        Ok(&self.26)
    }

    fn get_field_(&self, path: TStr<Str_26>) -> (r: Result<&T, InfallibleAccess>) {
        Ok(&self.26)
    }
}

impl<T> GetFieldMutImpl<TStr<Str_26>> for MaxFields<T> {
    open spec fn field_updated(old: &Self, new: &Self, v: T) -> bool {
        new.26 == v && new.0 == old.0 && new.1 == old.1 && new.2 == old.2 && new.3 == old.3 && new.4 == old.4 && new.5 == old.5 && new.6 == old.6 && new.7 == old.7 && new.8 == old.8 && new.9 == old.9 && new.10 == old.10 && new.11 == old.11 && new.12 == old.12 && new.13 == old.13 && new.14 == old.14 && new.15 == old.15 && new.16 == old.16 && new.17 == old.17 && new.18 == old.18 && new.19 == old.19 && new.20 == old.20 && new.21 == old.21 && new.22 == old.22 && new.23 == old.23 && new.24 == old.24 && new.25 == old.25 && new.27 == old.27 && new.28 == old.28 && new.29 == old.29 && new.30 == old.30 && new.31 == old.31 && new.32 == old.32 && new.33 == old.33 && new.34 == old.34 && new.35 == old.35 && new.36 == old.36 && new.37 == old.37 && new.38 == old.38 && new.39 == old.39 && new.40 == old.40 && new.41 == old.41 && new.42 == old.42 && new.43 == old.43 && new.44 == old.44 && new.45 == old.45 && new.46 == old.46 && new.47 == old.47 && new.48 == old.48 && new.49 == old.49 && new.50 == old.50 && new.51 == old.51 && new.52 == old.52 && new.53 == old.53 && new.54 == old.54 && new.55 == old.55 && new.56 == old.56 && new.57 == old.57 && new.58 == old.58 && new.59 == old.59 && new.60 == old.60 && new.61 == old.61 && new.62 == old.62 && new.63 == old.63
    }

    open spec fn unchanged(old: &Self, new: &Self) -> bool {
        *new == *old
    }

    proof fn lemma_read_after_write(old: &Self, new: &Self, v: T) {
    }

    proof fn lemma_unchanged_reads_same(old: &Self, new: &Self) {
    }

    fn get_field_mut_(&mut self, path: TStr<Str_26>) -> (r: Result<&mut T, InfallibleAccess>) {
        Ok(&mut self.26)
    }
}

impl<T> IntoFieldImpl<TStr<Str_26>> for MaxFields<T> {
    fn into_field_(self, path: TStr<Str_26>) -> (r: Result<T, InfallibleAccess>) {
        Ok(self.26)
    }
}

impl<T> FieldType<TStr<Str_27>> for MaxFields<T> {
    type Ty = T;
}

impl<T> GetFieldImpl<TStr<Str_27>> for MaxFields<T> {
    type Error = InfallibleAccess;

    open spec fn get_field_spec(&self) -> Result<&T, InfallibleAccess> {
        Ok(&self.27)
    }

    fn get_field_(&self, path: TStr<Str_27>) -> (r: Result<&T, InfallibleAccess>) {
        Ok(&self.27)
    }
}

impl<T> GetFieldMutImpl<TStr<Str_27>> for MaxFields<T> {
    open spec fn field_updated(old: &Self, new: &Self, v: T) -> bool {
        new.27 == v && new.0 == old.0 && new.1 == old.1 && new.2 == old.2 && new.3 == old.3 && new.4 == old.4 && new.5 == old.5 && new.6 == old.6 && new.7 == old.7 && new.8 == old.8 && new.9 == old.9 && new.10 == old.10 && new.11 == old.11 && new.12 == old.12 && new.13 == old.13 && new.14 == old.14 && new.15 == old.15 && new.16 == old.16 && new.17 == old.17 && new.18 == old.18 && new.19 == old.19 && new.20 == old.20 && new.21 == old.21 && new.22 == old.22 && new.23 == old.23 && new.24 == old.24 && new.25 == old.25 && new.26 == old.26 && new.28 == old.28 && new.29 == old.29 && new.30 == old.30 && new.31 == old.31 && new.32 == old.32 && new.33 == old.33 && new.34 == old.34 && new.35 == old.35 && new.36 == old.36 && new.37 == old.37 && new.38 == old.38 && new.39 == old.39 && new.40 == old.40 && new.41 == old.41 && new.42 == old.42 && new.43 == old.43 && new.44 == old.44 && new.45 == old.45 && new.46 == old.46 && new.47 == old.47 && new.48 == old.48 && new.49 == old.49 && new.50 == old.50 && new.51 == old.51 && new.52 == old.52 && new.53 == old.53 && new.54 == old.54 && new.55 == old.55 && new.56 == old.56 && new.57 == old.57 && new.58 == old.58 && new.59 == old.59 && new.60 == old.60 && new.61 == old.61 && new.62 == old.62 && new.63 == old.63
    }

    open spec fn unchanged(old: &Self, new: &Self) -> bool {
        *new == *old
    }

    proof fn lemma_read_after_write(old: &Self, new: &Self, v: T) {
    }

    proof fn lemma_unchanged_reads_same(old: &Self, new: &Self) {
    }

    fn get_field_mut_(&mut self, path: TStr<Str_27>) -> (r: Result<&mut T, InfallibleAccess>) {
        Ok(&mut self.27)
    }
}

impl<T> IntoFieldImpl<TStr<Str_27>> for MaxFields<T> {
    fn into_field_(self, path: TStr<Str_27>) -> (r: Result<T, InfallibleAccess>) {
        Ok(self.27)
    }
}

impl<T> FieldType<TStr<Str_28>> for MaxFields<T> {
    type Ty = T;
}

impl<T> GetFieldImpl<TStr<Str_28>> for MaxFields<T> {
    type Error = InfallibleAccess;

    open spec fn get_field_spec(&self) -> Result<&T, InfallibleAccess> {
        Ok(&self.28)
    }

    fn get_field_(&self, path: TStr<Str_28>) -> (r: Result<&T, InfallibleAccess>) {
        Ok(&self.28)
    }
}

impl<T> GetFieldMutImpl<TStr<Str_28>> for MaxFields<T> {
    open spec fn field_updated(old: &Self, new: &Self, v: T) -> bool {
        new.28 == v && new.0 == old.0 && new.1 == old.1 && new.2 == old.2 && new.3 == old.3 && new.4 == old.4 && new.5 == old.5 && new.6 == old.6 && new.7 == old.7 && new.8 == old.8 && new.9 == old.9 && new.10 == old.10 && new.11 == old.11 && new.12 == old.12 && new.13 == old.13 && new.14 == old.14 && new.15 == old.15 && new.16 == old.16 && new.17 == old.17 && new.18 == old.18 && new.19 == old.19 && new.20 == old.20 && new.21 == old.21 && new.22 == old.22 && new.23 == old.23 && new.24 == old.24 && new.25 == old.25 && new.26 == old.26 && new.27 == old.27 && new.29 == old.29 && new.30 == old.30 && new.31 == old.31 && new.32 == old.32 && new.33 == old.33 && new.34 == old.34 && new.35 == old.35 && new.36 == old.36 && new.37 == old.37 && new.38 == old.38 && new.39 == old.39 && new.40 == old.40 && new.41 == old.41 && new.42 == old.42 && new.43 == old.43 && new.44 == old.44 && new.45 == old.45 && new.46 == old.46 && new.47 == old.47 && new.48 == old.48 && new.49 == old.49 && new.50 == old.50 && new.51 == old.51 && new.52 == old.52 && new.53 == old.53 && new.54 == old.54 && new.55 == old.55 && new.56 == old.56 && new.57 == old.57 && new.58 == old.58 && new.59 == old.59 && new.60 == old.60 && new.61 == old.61 && new.62 == old.62 && new.63 == old.63
    }

    open spec fn unchanged(old: &Self, new: &Self) -> bool {
        *new == *old
    }

    proof fn lemma_read_after_write(old: &Self, new: &Self, v: T) {
    }

    proof fn lemma_unchanged_reads_same(old: &Self, new: &Self) {
    }

    fn get_field_mut_(&mut self, path: TStr<Str_28>) -> (r: Result<&mut T, InfallibleAccess>) {
        Ok(&mut self.28)
    }
}

impl<T> IntoFieldImpl<TStr<Str_28>> for MaxFields<T> {
    fn into_field_(self, path: TStr<Str_28>) -> (r: Result<T, InfallibleAccess>) {
        Ok(self.28)
    }
}

impl<T> FieldType<TStr<Str_29>> for MaxFields<T> {
    type Ty = T;
}

impl<T> GetFieldImpl<TStr<Str_29>> for MaxFields<T> {
    type Error = InfallibleAccess;

    open spec fn get_field_spec(&self) -> Result<&T, InfallibleAccess> {
        Ok(&self.29)
    }

    fn get_field_(&self, path: TStr<Str_29>) -> (r: Result<&T, InfallibleAccess>) {
        Ok(&self.29)
    }
}

impl<T> GetFieldMutImpl<TStr<Str_29>> for MaxFields<T> {
    open spec fn field_updated(old: &Self, new: &Self, v: T) -> bool {
        new.29 == v && new.0 == old.0 && new.1 == old.1 && new.2 == old.2 && new.3 == old.3 && new.4 == old.4 && new.5 == old.5 && new.6 == old.6 && new.7 == old.7 && new.8 == old.8 && new.9 == old.9 && new.10 == old.10 && new.11 == old.11 && new.12 == old.12 && new.13 == old.13 && new.14 == old.14 && new.15 == old.15 && new.16 == old.16 && new.17 == old.17 && new.18 == old.18 && new.19 == old.19 && new.20 == old.20 && new.21 == old.21 && new.22 == old.22 && new.23 == old.23 && new.24 == old.24 && new.25 == old.25 && new.26 == old.26 && new.27 == old.27 && new.28 == old.28 && new.30 == old.30 && new.31 == old.31 && new.32 == old.32 && new.33 == old.33 && new.34 == old.34 && new.35 == old.35 && new.36 == old.36 && new.37 == old.37 && new.38 == old.38 && new.39 == old.39 && new.40 == old.40 && new.41 == old.41 && new.42 == old.42 && new.43 == old.43 && new.44 == old.44 && new.45 == old.45 && new.46 == old.46 && new.47 == old.47 && new.48 == old.48 && new.49 == old.49 && new.50 == old.50 && new.51 == old.51 && new.52 == old.52 && new.53 == old.53 && new.54 == old.54 && new.55 == old.55 && new.56 == old.56 && new.57 == old.57 && new.58 == old.58 && new.59 == old.59 && new.60 == old.60 && new.61 == old.61 && new.62 == old.62 && new.63 == old.63
    }

    open spec fn unchanged(old: &Self, new: &Self) -> bool {
        *new == *old
    }

    proof fn lemma_read_after_write(old: &Self, new: &Self, v: T) {
    }

    proof fn lemma_unchanged_reads_same(old: &Self, new: &Self) {
    }

    fn get_field_mut_(&mut self, path: TStr<Str_29>) -> (r: Result<&mut T, InfallibleAccess>) {
        Ok(&mut self.29)
    }
}

impl<T> IntoFieldImpl<TStr<Str_29>> for MaxFields<T> {
    fn into_field_(self, path: TStr<Str_29>) -> (r: Result<T, InfallibleAccess>) {
        Ok(self.29)
    }
}

impl<T> FieldType<TStr<Str_30>> for MaxFields<T> {
    type Ty = T;
}

impl<T> GetFieldImpl<TStr<Str_30>> for MaxFields<T> {
    type Error = InfallibleAccess;

    open spec fn get_field_spec(&self) -> Result<&T, InfallibleAccess> {
        Ok(&self.30)
    }

    fn get_field_(&self, path: TStr<Str_30>) -> (r: Result<&T, InfallibleAccess>) {
        Ok(&self.30)
    }
}

impl<T> GetFieldMutImpl<TStr<Str_30>> for MaxFields<T> {
    open spec fn field_updated(old: &Self, new: &Self, v: T) -> bool {
        new.30 == v && new.0 == old.0 && new.1 == old.1 && new.2 == old.2 && new.3 == old.3 && new.4 == old.4 && new.5 == old.5 && new.6 == old.6 && new.7 == old.7 && new.8 == old.8 && new.9 == old.9 && new.10 == old.10 && new.11 == old.11 && new.12 == old.12 && new.13 == old.13 && new.14 == old.14 && new.15 == old.15 && new.16 == old.16 && new.17 == old.17 && new.18 == old.18 && new.19 == old.19 && new.20 == old.20 && new.21 == old.21 && new.22 == old.22 && new.23 == old.23 && new.24 == old.24 && new.25 == old.25 && new.26 == old.26 && new.27 == old.27 && new.28 == old.28 && new.29 == old.29 && new.31 == old.31 && new.32 == old.32 && new.33 == old.33 && new.34 == old.34 && new.35 == old.35 && new.36 == old.36 && new.37 == old.37 && new.38 == old.38 && new.39 == old.39 && new.40 == old.40 && new.41 == old.41 && new.42 == old.42 && new.43 == old.43 && new.44 == old.44 && new.45 == old.45 && new.46 == old.46 && new.47 == old.47 && new.48 == old.48 && new.49 == old.49 && new.50 == old.50 && new.51 == old.51 && new.52 == old.52 && new.53 == old.53 && new.54 == old.54 && new.55 == old.55 && new.56 == old.56 && new.57 == old.57 && new.58 == old.58 && new.59 == old.59 && new.60 == old.60 && new.61 == old.61 && new.62 == old.62 && new.63 == old.63
    }

    open spec fn unchanged(old: &Self, new: &Self) -> bool {
        *new == *old
    }

    proof fn lemma_read_after_write(old: &Self, new: &Self, v: T) {
    }

    proof fn lemma_unchanged_reads_same(old: &Self, new: &Self) {
    }

    fn get_field_mut_(&mut self, path: TStr<Str_30>) -> (r: Result<&mut T, InfallibleAccess>) {
        Ok(&mut self.30)
    }
}

impl<T> IntoFieldImpl<TStr<Str_30>> for MaxFields<T> {
    fn into_field_(self, path: TStr<Str_30>) -> (r: Result<T, InfallibleAccess>) {
        Ok(self.30)
    }
}

impl<T> FieldType<TStr<Str_31>> for MaxFields<T> {
    type Ty = T;
}

impl<T> GetFieldImpl<TStr<Str_31>> for MaxFields<T> {
    type Error = InfallibleAccess;

    open spec fn get_field_spec(&self) -> Result<&T, InfallibleAccess> {
        Ok(&self.31)
    }

    fn get_field_(&self, path: TStr<Str_31>) -> (r: Result<&T, InfallibleAccess>) {
        Ok(&self.31)
    }
}

impl<T> GetFieldMutImpl<TStr<Str_31>> for MaxFields<T> {
    open spec fn field_updated(old: &Self, new: &Self, v: T) -> bool {
        new.31 == v && new.0 == old.0 && new.1 == old.1 && new.2 == old.2 && new.3 == old.3 && new.4 == old.4 && new.5 == old.5 && new.6 == old.6 && new.7 == old.7 && new.8 == old.8 && new.9 == old.9 && new.10 == old.10 && new.11 == old.11 && new.12 == old.12 && new.13 == old.13 && new.14 == old.14 && new.15 == old.15 && new.16 == old.16 && new.17 == old.17 && new.18 == old.18 && new.19 == old.19 && new.20 == old.20 && new.21 == old.21 && new.22 == old.22 && new.23 == old.23 && new.24 == old.24 && new.25 == old.25 && new.26 == old.26 && new.27 == old.27 && new.28 == old.28 && new.29 == old.29 && new.30 == old.30 && new.32 == old.32 && new.33 == old.33 && new.34 == old.34 && new.35 == old.35 && new.36 == old.36 && new.37 == old.37 && new.38 == old.38 && new.39 == old.39 && new.40 == old.40 && new.41 == old.41 && new.42 == old.42 && new.43 == old.43 && new.44 == old.44 && new.45 == old.45 && new.46 == old.46 && new.47 == old.47 && new.48 == old.48 && new.49 == old.49 && new.50 == old.50 && new.51 == old.51 && new.52 == old.52 && new.53 == old.53 && new.54 == old.54 && new.55 == old.55 && new.56 == old.56 && new.57 == old.57 && new.58 == old.58 && new.59 == old.59 && new.60 == old.60 && new.61 == old.61 && new.62 == old.62 && new.63 == old.63
    }

    open spec fn unchanged(old: &Self, new: &Self) -> bool {
        *new == *old
    }

    proof fn lemma_read_after_write(old: &Self, new: &Self, v: T) {
    }

    proof fn lemma_unchanged_reads_same(old: &Self, new: &Self) {
    }

    fn get_field_mut_(&mut self, path: TStr<Str_31>) -> (r: Result<&mut T, InfallibleAccess>) {
        Ok(&mut self.31)
    }
}

impl<T> IntoFieldImpl<TStr<Str_31>> for MaxFields<T> {
    fn into_field_(self, path: TStr<Str_31>) -> (r: Result<T, InfallibleAccess>) {
        Ok(self.31)
    }
}

impl<T> FieldType<TStr<Str_32>> for MaxFields<T> {
    type Ty = T;
}

impl<T> GetFieldImpl<TStr<Str_32>> for MaxFields<T> {
    type Error = InfallibleAccess;

    open spec fn get_field_spec(&self) -> Result<&T, InfallibleAccess> {
        Ok(&self.32)
    }

    fn get_field_(&self, path: TStr<Str_32>) -> (r: Result<&T, InfallibleAccess>) {
        Ok(&self.32)
    }
}

impl<T> GetFieldMutImpl<TStr<Str_32>> for MaxFields<T> {
    open spec fn field_updated(old: &Self, new: &Self, v: T) -> bool {
        new.32 == v && new.0 == old.0 && new.1 == old.1 && new.2 == old.2 && new.3 == old.3 && new.4 == old.4 && new.5 == old.5 && new.6 == old.6 && new.7 == old.7 && new.8 == old.8 && new.9 == old.9 && new.10 == old.10 && new.11 == old.11 && new.12 == old.12 && new.13 == old.13 && new.14 == old.14 && new.15 == old.15 && new.16 == old.16 && new.17 == old.17 && new.18 == old.18 && new.19 == old.19 && new.20 == old.20 && new.21 == old.21 && new.22 == old.22 && new.23 == old.23 && new.24 == old.24 && new.25 == old.25 && new.26 == old.26 && new.27 == old.27 && new.28 == old.28 && new.29 == old.29 && new.30 == old.30 && new.31 == old.31 && new.33 == old.33 && new.34 == old.34 && new.35 == old.35 && new.36 == old.36 && new.37 == old.37 && new.38 == old.38 && new.39 == old.39 && new.40 == old.40 && new.41 == old.41 && new.42 == old.42 && new.43 == old.43 && new.44 == old.44 && new.45 == old.45 && new.46 == old.46 && new.47 == old.47 && new.48 == old.48 && new.49 == old.49 && new.50 == old.50 && new.51 == old.51 && new.52 == old.52 && new.53 == old.53 && new.54 == old.54 && new.55 == old.55 && new.56 == old.56 && new.57 == old.57 && new.58 == old.58 && new.59 == old.59 && new.60 == old.60 && new.61 == old.61 && new.62 == old.62 && new.63 == old.63
    }

    open spec fn unchanged(old: &Self, new: &Self) -> bool {
        *new == *old
    }

    proof fn lemma_read_after_write(old: &Self, new: &Self, v: T) {
    }

    proof fn lemma_unchanged_reads_same(old: &Self, new: &Self) {
    }

    fn get_field_mut_(&mut self, path: TStr<Str_32>) -> (r: Result<&mut T, InfallibleAccess>) {
        Ok(&mut self.32)
    }
}

impl<T> IntoFieldImpl<TStr<Str_32>> for MaxFields<T> {
    fn into_field_(self, path: TStr<Str_32>) -> (r: Result<T, InfallibleAccess>) {
        Ok(self.32)
    }
}

impl<T> FieldType<TStr<Str_33>> for MaxFields<T> {
    type Ty = T;
}

impl<T> GetFieldImpl<TStr<Str_33>> for MaxFields<T> {
    type Error = InfallibleAccess;

    open spec fn get_field_spec(&self) -> Result<&T, InfallibleAccess> {
        Ok(&self.33)
    }

    fn get_field_(&self, path: TStr<Str_33>) -> (r: Result<&T, InfallibleAccess>) {
        Ok(&self.33)
    }
}

impl<T> GetFieldMutImpl<TStr<Str_33>> for MaxFields<T> {
    open spec fn field_updated(old: &Self, new: &Self, v: T) -> bool {
        new.33 == v && new.0 == old.0 && new.1 == old.1 && new.2 == old.2 && new.3 == old.3 && new.4 == old.4 && new.5 == old.5 && new.6 == old.6 && new.7 == old.7 && new.8 == old.8 && new.9 == old.9 && new.10 == old.10 && new.11 == old.11 && new.12 == old.12 && new.13 == old.13 && new.14 == old.14 && new.15 == old.15 && new.16 == old.16 && new.17 == old.17 && new.18 == old.18 && new.19 == old.19 && new.20 == old.20 && new.21 == old.21 && new.22 == old.22 && new.23 == old.23 && new.24 == old.24 && new.25 == old.25 && new.26 == old.26 && new.27 == old.27 && new.28 == old.28 && new.29 == old.29 && new.30 == old.30 && new.31 == old.31 && new.32 == old.32 && new.34 == old.34 && new.35 == old.35 && new.36 == old.36 && new.37 == old.37 && new.38 == old.38 && new.39 == old.39 && new.40 == old.40 && new.41 == old.41 && new.42 == old.42 && new.43 == old.43 && new.44 == old.44 && new.45 == old.45 && new.46 == old.46 && new.47 == old.47 && new.48 == old.48 && new.49 == old.49 && new.50 == old.50 && new.51 == old.51 && new.52 == old.52 && new.53 == old.53 && new.54 == old.54 && new.55 == old.55 && new.56 == old.56 && new.57 == old.57 && new.58 == old.58 && new.59 == old.59 && new.60 == old.60 && new.61 == old.61 && new.62 == old.62 && new.63 == old.63
    }

    open spec fn unchanged(old: &Self, new: &Self) -> bool {
        *new == *old
    }

    proof fn lemma_read_after_write(old: &Self, new: &Self, v: T) {
    }

    proof fn lemma_unchanged_reads_same(old: &Self, new: &Self) {
    }

    fn get_field_mut_(&mut self, path: TStr<Str_33>) -> (r: Result<&mut T, InfallibleAccess>) {
        Ok(&mut self.33)
    }
}

impl<T> IntoFieldImpl<TStr<Str_33>> for MaxFields<T> {
    fn into_field_(self, path: TStr<Str_33>) -> (r: Result<T, InfallibleAccess>) {
        Ok(self.33)
    }
}

impl<T> FieldType<TStr<Str_34>> for MaxFields<T> {
    type Ty = T;
}

impl<T> GetFieldImpl<TStr<Str_34>> for MaxFields<T> {
    type Error = InfallibleAccess;

    open spec fn get_field_spec(&self) -> Result<&T, InfallibleAccess> {
        Ok(&self.34)
    }

    fn get_field_(&self, path: TStr<Str_34>) -> (r: Result<&T, InfallibleAccess>) {
        Ok(&self.34)
    }
}

impl<T> GetFieldMutImpl<TStr<Str_34>> for MaxFields<T> {
    open spec fn field_updated(old: &Self, new: &Self, v: T) -> bool {
        new.34 == v && new.0 == old.0 && new.1 == old.1 && new.2 == old.2 && new.3 == old.3 && new.4 == old.4 && new.5 == old.5 && new.6 == old.6 && new.7 == old.7 && new.8 == old.8 && new.9 == old.9 && new.10 == old.10 && new.11 == old.11 && new.12 == old.12 && new.13 == old.13 && new.14 == old.14 && new.15 == old.15 && new.16 == old.16 && new.17 == old.17 && new.18 == old.18 && new.19 == old.19 && new.20 == old.20 && new.21 == old.21 && new.22 == old.22 && new.23 == old.23 && new.24 == old.24 && new.25 == old.25 && new.26 == old.26 && new.27 == old.27 && new.28 == old.28 && new.29 == old.29 && new.30 == old.30 && new.31 == old.31 && new.32 == old.32 && new.33 == old.33 && new.35 == old.35 && new.36 == old.36 && new.37 == old.37 && new.38 == old.38 && new.39 == old.39 && new.40 == old.40 && new.41 == old.41 && new.42 == old.42 && new.43 == old.43 && new.44 == old.44 && new.45 == old.45 && new.46 == old.46 && new.47 == old.47 && new.48 == old.48 && new.49 == old.49 && new.50 == old.50 && new.51 == old.51 && new.52 == old.52 && new.53 == old.53 && new.54 == old.54 && new.55 == old.55 && new.56 == old.56 && new.57 == old.57 && new.58 == old.58 && new.59 == old.59 && new.60 == old.60 && new.61 == old.61 && new.62 == old.62 && new.63 == old.63
    }

    open spec fn unchanged(old: &Self, new: &Self) -> bool {
        *new == *old
    }

    proof fn lemma_read_after_write(old: &Self, new: &Self, v: T) {
    }

    proof fn lemma_unchanged_reads_same(old: &Self, new: &Self) {
    }

    fn get_field_mut_(&mut self, path: TStr<Str_34>) -> (r: Result<&mut T, InfallibleAccess>) {
        Ok(&mut self.34)
    }
}

impl<T> IntoFieldImpl<TStr<Str_34>> for MaxFields<T> {
    fn into_field_(self, path: TStr<Str_34>) -> (r: Result<T, InfallibleAccess>) {
        Ok(self.34)
    }
}

impl<T> FieldType<TStr<Str_35>> for MaxFields<T> {
    type Ty = T;
}

impl<T> GetFieldImpl<TStr<Str_35>> for MaxFields<T> {
    type Error = InfallibleAccess;

    open spec fn get_field_spec(&self) -> Result<&T, InfallibleAccess> {
        Ok(&self.35)
    }

    fn get_field_(&self, path: TStr<Str_35>) -> (r: Result<&T, InfallibleAccess>) {
        Ok(&self.35)
    }
}

impl<T> GetFieldMutImpl<TStr<Str_35>> for MaxFields<T> {
    open spec fn field_updated(old: &Self, new: &Self, v: T) -> bool {
        new.35 == v && new.0 == old.0 && new.1 == old.1 && new.2 == old.2 && new.3 == old.3 && new.4 == old.4 && new.5 == old.5 && new.6 == old.6 && new.7 == old.7 && new.8 == old.8 && new.9 == old.9 && new.10 == old.10 && new.11 == old.11 && new.12 == old.12 && new.13 == old.13 && new.14 == old.14 && new.15 == old.15 && new.16 == old.16 && new.17 == old.17 && new.18 == old.18 && new.19 == old.19 && new.20 == old.20 && new.21 == old.21 && new.22 == old.22 && new.23 == old.23 && new.24 == old.24 && new.25 == old.25 && new.26 == old.26 && new.27 == old.27 && new.28 == old.28 && new.29 == old.29 && new.30 == old.30 && new.31 == old.31 && new.32 == old.32 && new.33 == old.33 && new.34 == old.34 && new.36 == old.36 && new.37 == old.37 && new.38 == old.38 && new.39 == old.39 && new.40 == old.40 && new.41 == old.41 && new.42 == old.42 && new.43 == old.43 && new.44 == old.44 && new.45 == old.45 && new.46 == old.46 && new.47 == old.47 && new.48 == old.48 && new.49 == old.49 && new.50 == old.50 && new.51 == old.51 && new.52 == old.52 && new.53 == old.53 && new.54 == old.54 && new.55 == old.55 && new.56 == old.56 && new.57 == old.57 && new.58 == old.58 && new.59 == old.59 && new.60 == old.60 && new.61 == old.61 && new.62 == old.62 && new.63 == old.63
    }

    open spec fn unchanged(old: &Self, new: &Self) -> bool {
        *new == *old
    }

    proof fn lemma_read_after_write(old: &Self, new: &Self, v: T) {
    }

    proof fn lemma_unchanged_reads_same(old: &Self, new: &Self) {
    }

    fn get_field_mut_(&mut self, path: TStr<Str_35>) -> (r: Result<&mut T, InfallibleAccess>) {
        Ok(&mut self.35)
    }
}

impl<T> IntoFieldImpl<TStr<Str_35>> for MaxFields<T> {
    fn into_field_(self, path: TStr<Str_35>) -> (r: Result<T, InfallibleAccess>) {
        Ok(self.35)
    }
}

impl<T> FieldType<TStr<Str_36>> for MaxFields<T> {
    type Ty = T;
}

impl<T> GetFieldImpl<TStr<Str_36>> for MaxFields<T> {
    type Error = InfallibleAccess;

    open spec fn get_field_spec(&self) -> Result<&T, InfallibleAccess> {
        Ok(&self.36)
    }

    fn get_field_(&self, path: TStr<Str_36>) -> (r: Result<&T, InfallibleAccess>) {
        Ok(&self.36)
    }
}

impl<T> GetFieldMutImpl<TStr<Str_36>> for MaxFields<T> {
    open spec fn field_updated(old: &Self, new: &Self, v: T) -> bool {
        new.36 == v && new.0 == old.0 && new.1 == old.1 && new.2 == old.2 && new.3 == old.3 && new.4 == old.4 && new.5 == old.5 && new.6 == old.6 && new.7 == old.7 && new.8 == old.8 && new.9 == old.9 && new.10 == old.10 && new.11 == old.11 && new.12 == old.12 && new.13 == old.13 && new.14 == old.14 && new.15 == old.15 && new.16 == old.16 && new.17 == old.17 && new.18 == old.18 && new.19 == old.19 && new.20 == old.20 && new.21 == old.21 && new.22 == old.22 && new.23 == old.23 && new.24 == old.24 && new.25 == old.25 && new.26 == old.26 && new.27 == old.27 && new.28 == old.28 && new.29 == old.29 && new.30 == old.30 && new.31 == old.31 && new.32 == old.32 && new.33 == old.33 && new.34 == old.34 && new.35 == old.35 && new.37 == old.37 && new.38 == old.38 && new.39 == old.39 && new.40 == old.40 && new.41 == old.41 && new.42 == old.42 && new.43 == old.43 && new.44 == old.44 && new.45 == old.45 && new.46 == old.46 && new.47 == old.47 && new.48 == old.48 && new.49 == old.49 && new.50 == old.50 && new.51 == old.51 && new.52 == old.52 && new.53 == old.53 && new.54 == old.54 && new.55 == old.55 && new.56 == old.56 && new.57 == old.57 && new.58 == old.58 && new.59 == old.59 && new.60 == old.60 && new.61 == old.61 && new.62 == old.62 && new.63 == old.63
    }

    open spec fn unchanged(old: &Self, new: &Self) -> bool {
        *new == *old
    }

    proof fn lemma_read_after_write(old: &Self, new: &Self, v: T) {
    }

    proof fn lemma_unchanged_reads_same(old: &Self, new: &Self) {
    }

    fn get_field_mut_(&mut self, path: TStr<Str_36>) -> (r: Result<&mut T, InfallibleAccess>) {
        Ok(&mut self.36)
    }
}

impl<T> IntoFieldImpl<TStr<Str_36>> for MaxFields<T> {
    fn into_field_(self, path: TStr<Str_36>) -> (r: Result<T, InfallibleAccess>) {
        Ok(self.36)
    }
}

impl<T> FieldType<TStr<Str_37>> for MaxFields<T> {
    type Ty = T;
}

impl<T> GetFieldImpl<TStr<Str_37>> for MaxFields<T> {
    type Error = InfallibleAccess;

    open spec fn get_field_spec(&self) -> Result<&T, InfallibleAccess> {
        Ok(&self.37)
    }

    fn get_field_(&self, path: TStr<Str_37>) -> (r: Result<&T, InfallibleAccess>) {
        Ok(&self.37)
    }
}

impl<T> GetFieldMutImpl<TStr<Str_37>> for MaxFields<T> {
    open spec fn field_updated(old: &Self, new: &Self, v: T) -> bool {
        new.37 == v && new.0 == old.0 && new.1 == old.1 && new.2 == old.2 && new.3 == old.3 && new.4 == old.4 && new.5 == old.5 && new.6 == old.6 && new.7 == old.7 && new.8 == old.8 && new.9 == old.9 && new.10 == old.10 && new.11 == old.11 && new.12 == old.12 && new.13 == old.13 && new.14 == old.14 && new.15 == old.15 && new.16 == old.16 && new.17 == old.17 && new.18 == old.18 && new.19 == old.19 && new.20 == old.20 && new.21 == old.21 && new.22 == old.22 && new.23 == old.23 && new.24 == old.24 && new.25 == old.25 && new.26 == old.26 && new.27 == old.27 && new.28 == old.28 && new.29 == old.29 && new.30 == old.30 && new.31 == old.31 && new.32 == old.32 && new.33 == old.33 && new.34 == old.34 && new.35 == old.35 && new.36 == old.36 && new.38 == old.38 && new.39 == old.39 && new.40 == old.40 && new.41 == old.41 && new.42 == old.42 && new.43 == old.43 && new.44 == old.44 && new.45 == old.45 && new.46 == old.46 && new.47 == old.47 && new.48 == old.48 && new.49 == old.49 && new.50 == old.50 && new.51 == old.51 && new.52 == old.52 && new.53 == old.53 && new.54 == old.54 && new.55 == old.55 && new.56 == old.56 && new.57 == old.57 && new.58 == old.58 && new.59 == old.59 && new.60 == old.60 && new.61 == old.61 && new.62 == old.62 && new.63 == old.63
    }

    open spec fn unchanged(old: &Self, new: &Self) -> bool {
        *new == *old
    }

    proof fn lemma_read_after_write(old: &Self, new: &Self, v: T) {
    }

    proof fn lemma_unchanged_reads_same(old: &Self, new: &Self) {
    }

    fn get_field_mut_(&mut self, path: TStr<Str_37>) -> (r: Result<&mut T, InfallibleAccess>) {
        Ok(&mut self.37)
    }
}

impl<T> IntoFieldImpl<TStr<Str_37>> for MaxFields<T> {
    fn into_field_(self, path: TStr<Str_37>) -> (r: Result<T, InfallibleAccess>) {
        Ok(self.37)
    }
}

impl<T> FieldType<TStr<Str_38>> for MaxFields<T> {
    type Ty = T;
}

impl<T> GetFieldImpl<TStr<Str_38>> for MaxFields<T> {
    type Error = InfallibleAccess;

    open spec fn get_field_spec(&self) -> Result<&T, InfallibleAccess> {
        Ok(&self.38)
    }

    fn get_field_(&self, path: TStr<Str_38>) -> (r: Result<&T, InfallibleAccess>) {
        Ok(&self.38)
    }
}

impl<T> GetFieldMutImpl<TStr<Str_38>> for MaxFields<T> {
    open spec fn field_updated(old: &Self, new: &Self, v: T) -> bool {
        new.38 == v && new.0 == old.0 && new.1 == old.1 && new.2 == old.2 && new.3 == old.3 && new.4 == old.4 && new.5 == old.5 && new.6 == old.6 && new.7 == old.7 && new.8 == old.8 && new.9 == old.9 && new.10 == old.10 && new.11 == old.11 && new.12 == old.12 && new.13 == old.13 && new.14 == old.14 && new.15 == old.15 && new.16 == old.16 && new.17 == old.17 && new.18 == old.18 && new.19 == old.19 && new.20 == old.20 && new.21 == old.21 && new.22 == old.22 && new.23 == old.23 && new.24 == old.24 && new.25 == old.25 && new.26 == old.26 && new.27 == old.27 && new.28 == old.28 && new.29 == old.29 && new.30 == old.30 && new.31 == old.31 && new.32 == old.32 && new.33 == old.33 && new.34 == old.34 && new.35 == old.35 && new.36 == old.36 && new.37 == old.37 && new.39 == old.39 && new.40 == old.40 && new.41 == old.41 && new.42 == old.42 && new.43 == old.43 && new.44 == old.44 && new.45 == old.45 && new.46 == old.46 && new.47 == old.47 && new.48 == old.48 && new.49 == old.49 && new.50 == old.50 && new.51 == old.51 && new.52 == old.52 && new.53 == old.53 && new.54 == old.54 && new.55 == old.55 && new.56 == old.56 && new.57 == old.57 && new.58 == old.58 && new.59 == old.59 && new.60 == old.60 && new.61 == old.61 && new.62 == old.62 && new.63 == old.63
    }

    open spec fn unchanged(old: &Self, new: &Self) -> bool {
        *new == *old
    }

    proof fn lemma_read_after_write(old: &Self, new: &Self, v: T) {
    }

    proof fn lemma_unchanged_reads_same(old: &Self, new: &Self) {
    }

    fn get_field_mut_(&mut self, path: TStr<Str_38>) -> (r: Result<&mut T, InfallibleAccess>) {
        Ok(&mut self.38)
    }
}

impl<T> IntoFieldImpl<TStr<Str_38>> for MaxFields<T> {
    fn into_field_(self, path: TStr<Str_38>) -> (r: Result<T, InfallibleAccess>) {
        Ok(self.38)
    }
}

impl<T> FieldType<TStr<Str_39>> for MaxFields<T> {
    type Ty = T;
}

impl<T> GetFieldImpl<TStr<Str_39>> for MaxFields<T> {
    type Error = InfallibleAccess;

    open spec fn get_field_spec(&self) -> Result<&T, InfallibleAccess> {
        Ok(&self.39)
    }

    fn get_field_(&self, path: TStr<Str_39>) -> (r: Result<&T, InfallibleAccess>) {
        Ok(&self.39)
    }
}

impl<T> GetFieldMutImpl<TStr<Str_39>> for MaxFields<T> {
    open spec fn field_updated(old: &Self, new: &Self, v: T) -> bool {
        new.39 == v && new.0 == old.0 && new.1 == old.1 && new.2 == old.2 && new.3 == old.3 && new.4 == old.4 && new.5 == old.5 && new.6 == old.6 && new.7 == old.7 && new.8 == old.8 && new.9 == old.9 && new.10 == old.10 && new.11 == old.11 && new.12 == old.12 && new.13 == old.13 && new.14 == old.14 && new.15 == old.15 && new.16 == old.16 && new.17 == old.17 && new.18 == old.18 && new.19 == old.19 && new.20 == old.20 && new.21 == old.21 && new.22 == old.22 && new.23 == old.23 && new.24 == old.24 && new.25 == old.25 && new.26 == old.26 && new.27 == old.27 && new.28 == old.28 && new.29 == old.29 && new.30 == old.30 && new.31 == old.31 && new.32 == old.32 && new.33 == old.33 && new.34 == old.34 && new.35 == old.35 && new.36 == old.36 && new.37 == old.37 && new.38 == old.38 && new.40 == old.40 && new.41 == old.41 && new.42 == old.42 && new.43 == old.43 && new.44 == old.44 && new.45 == old.45 && new.46 == old.46 && new.47 == old.47 && new.48 == old.48 && new.49 == old.49 && new.50 == old.50 && new.51 == old.51 && new.52 == old.52 && new.53 == old.53 && new.54 == old.54 && new.55 == old.55 && new.56 == old.56 && new.57 == old.57 && new.58 == old.58 && new.59 == old.59 && new.60 == old.60 && new.61 == old.61 && new.62 == old.62 && new.63 == old.63
    }

    open spec fn unchanged(old: &Self, new: &Self) -> bool {
        *new == *old
    }

    proof fn lemma_read_after_write(old: &Self, new: &Self, v: T) {
    }

    proof fn lemma_unchanged_reads_same(old: &Self, new: &Self) {
    }

    fn get_field_mut_(&mut self, path: TStr<Str_39>) -> (r: Result<&mut T, InfallibleAccess>) {
        Ok(&mut self.39)
    }
}

impl<T> IntoFieldImpl<TStr<Str_39>> for MaxFields<T> {
    fn into_field_(self, path: TStr<Str_39>) -> (r: Result<T, InfallibleAccess>) {
        Ok(self.39)
    }
}

impl<T> FieldType<TStr<Str_40>> for MaxFields<T> {
    type Ty = T;
}

impl<T> GetFieldImpl<TStr<Str_40>> for MaxFields<T> {
    type Error = InfallibleAccess;

    open spec fn get_field_spec(&self) -> Result<&T, InfallibleAccess> {
        Ok(&self.40)
    }

    fn get_field_(&self, path: TStr<Str_40>) -> (r: Result<&T, InfallibleAccess>) {
        Ok(&self.40)
    }
}

impl<T> GetFieldMutImpl<TStr<Str_40>> for MaxFields<T> {
    open spec fn field_updated(old: &Self, new: &Self, v: T) -> bool {
        new.40 == v && new.0 == old.0 && new.1 == old.1 && new.2 == old.2 && new.3 == old.3 && new.4 == old.4 && new.5 == old.5 && new.6 == old.6 && new.7 == old.7 && new.8 == old.8 && new.9 == old.9 && new.10 == old.10 && new.11 == old.11 && new.12 == old.12 && new.13 == old.13 && new.14 == old.14 && new.15 == old.15 && new.16 == old.16 && new.17 == old.17 && new.18 == old.18 && new.19 == old.19 && new.20 == old.20 && new.21 == old.21 && new.22 == old.22 && new.23 == old.23 && new.24 == old.24 && new.25 == old.25 && new.26 == old.26 && new.27 == old.27 && new.28 == old.28 && new.29 == old.29 && new.30 == old.30 && new.31 == old.31 && new.32 == old.32 && new.33 == old.33 && new.34 == old.34 && new.35 == old.35 && new.36 == old.36 && new.37 == old.37 && new.38 == old.38 && new.39 == old.39 && new.41 == old.41 && new.42 == old.42 && new.43 == old.43 && new.44 == old.44 && new.45 == old.45 && new.46 == old.46 && new.47 == old.47 && new.48 == old.48 && new.49 == old.49 && new.50 == old.50 && new.51 == old.51 && new.52 == old.52 && new.53 == old.53 && new.54 == old.54 && new.55 == old.55 && new.56 == old.56 && new.57 == old.57 && new.58 == old.58 && new.59 == old.59 && new.60 == old.60 && new.61 == old.61 && new.62 == old.62 && new.63 == old.63
    }

    open spec fn unchanged(old: &Self, new: &Self) -> bool {
        *new == *old
    }

    proof fn lemma_read_after_write(old: &Self, new: &Self, v: T) {
    }

    proof fn lemma_unchanged_reads_same(old: &Self, new: &Self) {
    }

    fn get_field_mut_(&mut self, path: TStr<Str_40>) -> (r: Result<&mut T, InfallibleAccess>) {
        Ok(&mut self.40)
    }
}

impl<T> IntoFieldImpl<TStr<Str_40>> for MaxFields<T> {
    fn into_field_(self, path: TStr<Str_40>) -> (r: Result<T, InfallibleAccess>) {
        Ok(self.40)
    }
}

impl<T> FieldType<TStr<Str_41>> for MaxFields<T> {
    type Ty = T;
}

impl<T> GetFieldImpl<TStr<Str_41>> for MaxFields<T> {
    type Error = InfallibleAccess;

    open spec fn get_field_spec(&self) -> Result<&T, InfallibleAccess> {
        Ok(&self.41)
    }

    fn get_field_(&self, path: TStr<Str_41>) -> (r: Result<&T, InfallibleAccess>) {
        Ok(&self.41)
    }
}

impl<T> GetFieldMutImpl<TStr<Str_41>> for MaxFields<T> {
    open spec fn field_updated(old: &Self, new: &Self, v: T) -> bool {
        new.41 == v && new.0 == old.0 && new.1 == old.1 && new.2 == old.2 && new.3 == old.3 && new.4 == old.4 && new.5 == old.5 && new.6 == old.6 && new.7 == old.7 && new.8 == old.8 && new.9 == old.9 && new.10 == old.10 && new.11 == old.11 && new.12 == old.12 && new.13 == old.13 && new.14 == old.14 && new.15 == old.15 && new.16 == old.16 && new.17 == old.17 && new.18 == old.18 && new.19 == old.19 && new.20 == old.20 && new.21 == old.21 && new.22 == old.22 && new.23 == old.23 && new.24 == old.24 && new.25 == old.25 && new.26 == old.26 && new.27 == old.27 && new.28 == old.28 && new.29 == old.29 && new.30 == old.30 && new.31 == old.31 && new.32 == old.32 && new.33 == old.33 && new.34 == old.34 && new.35 == old.35 && new.36 == old.36 && new.37 == old.37 && new.38 == old.38 && new.39 == old.39 && new.40 == old.40 && new.42 == old.42 && new.43 == old.43 && new.44 == old.44 && new.45 == old.45 && new.46 == old.46 && new.47 == old.47 && new.48 == old.48 && new.49 == old.49 && new.50 == old.50 && new.51 == old.51 && new.52 == old.52 && new.53 == old.53 && new.54 == old.54 && new.55 == old.55 && new.56 == old.56 && new.57 == old.57 && new.58 == old.58 && new.59 == old.59 && new.60 == old.60 && new.61 == old.61 && new.62 == old.62 && new.63 == old.63
    }

    open spec fn unchanged(old: &Self, new: &Self) -> bool {
        *new == *old
    }

    proof fn lemma_read_after_write(old: &Self, new: &Self, v: T) {
    }

    proof fn lemma_unchanged_reads_same(old: &Self, new: &Self) {
    }

    fn get_field_mut_(&mut self, path: TStr<Str_41>) -> (r: Result<&mut T, InfallibleAccess>) {
        Ok(&mut self.41)
    }
}

impl<T> IntoFieldImpl<TStr<Str_41>> for MaxFields<T> {
    fn into_field_(self, path: TStr<Str_41>) -> (r: Result<T, InfallibleAccess>) {
        Ok(self.41)
    }
}

impl<T> FieldType<TStr<Str_42>> for MaxFields<T> {
    type Ty = T;
}

impl<T> GetFieldImpl<TStr<Str_42>> for MaxFields<T> {
    type Error = InfallibleAccess;

    open spec fn get_field_spec(&self) -> Result<&T, InfallibleAccess> {
        Ok(&self.42)
    }

    fn get_field_(&self, path: TStr<Str_42>) -> (r: Result<&T, InfallibleAccess>) {
        Ok(&self.42)
    }
}

impl<T> GetFieldMutImpl<TStr<Str_42>> for MaxFields<T> {
    open spec fn field_updated(old: &Self, new: &Self, v: T) -> bool {
        new.42 == v && new.0 == old.0 && new.1 == old.1 && new.2 == old.2 && new.3 == old.3 && new.4 == old.4 && new.5 == old.5 && new.6 == old.6 && new.7 == old.7 && new.8 == old.8 && new.9 == old.9 && new.10 == old.10 && new.11 == old.11 && new.12 == old.12 && new.13 == old.13 && new.14 == old.14 && new.15 == old.15 && new.16 == old.16 && new.17 == old.17 && new.18 == old.18 && new.19 == old.19 && new.20 == old.20 && new.21 == old.21 && new.22 == old.22 && new.23 == old.23 && new.24 == old.24 && new.25 == old.25 && new.26 == old.26 && new.27 == old.27 && new.28 == old.28 && new.29 == old.29 && new.30 == old.30 && new.31 == old.31 && new.32 == old.32 && new.33 == old.33 && new.34 == old.34 && new.35 == old.35 && new.36 == old.36 && new.37 == old.37 && new.38 == old.38 && new.39 == old.39 && new.40 == old.40 && new.41 == old.41 && new.43 == old.43 && new.44 == old.44 && new.45 == old.45 && new.46 == old.46 && new.47 == old.47 && new.48 == old.48 && new.49 == old.49 && new.50 == old.50 && new.51 == old.51 && new.52 == old.52 && new.53 == old.53 && new.54 == old.54 && new.55 == old.55 && new.56 == old.56 && new.57 == old.57 && new.58 == old.58 && new.59 == old.59 && new.60 == old.60 && new.61 == old.61 && new.62 == old.62 && new.63 == old.63
    }

    open spec fn unchanged(old: &Self, new: &Self) -> bool {
        *new == *old
    }

    proof fn lemma_read_after_write(old: &Self, new: &Self, v: T) {
    }

    proof fn lemma_unchanged_reads_same(old: &Self, new: &Self) {
    }

    fn get_field_mut_(&mut self, path: TStr<Str_42>) -> (r: Result<&mut T, InfallibleAccess>) {
        Ok(&mut self.42)
    }
}

impl<T> IntoFieldImpl<TStr<Str_42>> for MaxFields<T> {
    fn into_field_(self, path: TStr<Str_42>) -> (r: Result<T, InfallibleAccess>) {
        Ok(self.42)
    }
}

impl<T> FieldType<TStr<Str_43>> for MaxFields<T> {
    type Ty = T;
}

impl<T> GetFieldImpl<TStr<Str_43>> for MaxFields<T> {
    type Error = InfallibleAccess;

    open spec fn get_field_spec(&self) -> Result<&T, InfallibleAccess> {
        Ok(&self.43)
    }

    fn get_field_(&self, path: TStr<Str_43>) -> (r: Result<&T, InfallibleAccess>) {
        Ok(&self.43)
    }
}

impl<T> GetFieldMutImpl<TStr<Str_43>> for MaxFields<T> {
    open spec fn field_updated(old: &Self, new: &Self, v: T) -> bool {
        new.43 == v && new.0 == old.0 && new.1 == old.1 && new.2 == old.2 && new.3 == old.3 && new.4 == old.4 && new.5 == old.5 && new.6 == old.6 && new.7 == old.7 && new.8 == old.8 && new.9 == old.9 && new.10 == old.10 && new.11 == old.11 && new.12 == old.12 && new.13 == old.13 && new.14 == old.14 && new.15 == old.15 && new.16 == old.16 && new.17 == old.17 && new.18 == old.18 && new.19 == old.19 && new.20 == old.20 && new.21 == old.21 && new.22 == old.22 && new.23 == old.23 && new.24 == old.24 && new.25 == old.25 && new.26 == old.26 && new.27 == old.27 && new.28 == old.28 && new.29 == old.29 && new.30 == old.30 && new.31 == old.31 && new.32 == old.32 && new.33 == old.33 && new.34 == old.34 && new.35 == old.35 && new.36 == old.36 && new.37 == old.37 && new.38 == old.38 && new.39 == old.39 && new.40 == old.40 && new.41 == old.41 && new.42 == old.42 && new.44 == old.44 && new.45 == old.45 && new.46 == old.46 && new.47 == old.47 && new.48 == old.48 && new.49 == old.49 && new.50 == old.50 && new.51 == old.51 && new.52 == old.52 && new.53 == old.53 && new.54 == old.54 && new.55 == old.55 && new.56 == old.56 && new.57 == old.57 && new.58 == old.58 && new.59 == old.59 && new.60 == old.60 && new.61 == old.61 && new.62 == old.62 && new.63 == old.63
    }

    open spec fn unchanged(old: &Self, new: &Self) -> bool {
        *new == *old
    }

    proof fn lemma_read_after_write(old: &Self, new: &Self, v: T) {
    }

    proof fn lemma_unchanged_reads_same(old: &Self, new: &Self) {
    }

    fn get_field_mut_(&mut self, path: TStr<Str_43>) -> (r: Result<&mut T, InfallibleAccess>) {
        Ok(&mut self.43)
    }
}

impl<T> IntoFieldImpl<TStr<Str_43>> for MaxFields<T> {
    fn into_field_(self, path: TStr<Str_43>) -> (r: Result<T, InfallibleAccess>) {
        Ok(self.43)
    }
}

impl<T> FieldType<TStr<Str_44>> for MaxFields<T> {
    type Ty = T;
}

impl<T> GetFieldImpl<TStr<Str_44>> for MaxFields<T> {
    type Error = InfallibleAccess;

    open spec fn get_field_spec(&self) -> Result<&T, InfallibleAccess> {
        Ok(&self.44)
    }

    fn get_field_(&self, path: TStr<Str_44>) -> (r: Result<&T, InfallibleAccess>) {
        Ok(&self.44)
    }
}

impl<T> GetFieldMutImpl<TStr<Str_44>> for MaxFields<T> {
    open spec fn field_updated(old: &Self, new: &Self, v: T) -> bool {
        new.44 == v && new.0 == old.0 && new.1 == old.1 && new.2 == old.2 && new.3 == old.3 && new.4 == old.4 && new.5 == old.5 && new.6 == old.6 && new.7 == old.7 && new.8 == old.8 && new.9 == old.9 && new.10 == old.10 && new.11 == old.11 && new.12 == old.12 && new.13 == old.13 && new.14 == old.14 && new.15 == old.15 && new.16 == old.16 && new.17 == old.17 && new.18 == old.18 && new.19 == old.19 && new.20 == old.20 && new.21 == old.21 && new.22 == old.22 && new.23 == old.23 && new.24 == old.24 && new.25 == old.25 && new.26 == old.26 && new.27 == old.27 && new.28 == old.28 && new.29 == old.29 && new.30 == old.30 && new.31 == old.31 && new.32 == old.32 && new.33 == old.33 && new.34 == old.34 && new.35 == old.35 && new.36 == old.36 && new.37 == old.37 && new.38 == old.38 && new.39 == old.39 && new.40 == old.40 && new.41 == old.41 && new.42 == old.42 && new.43 == old.43 && new.45 == old.45 && new.46 == old.46 && new.47 == old.47 && new.48 == old.48 && new.49 == old.49 && new.50 == old.50 && new.51 == old.51 && new.52 == old.52 && new.53 == old.53 && new.54 == old.54 && new.55 == old.55 && new.56 == old.56 && new.57 == old.57 && new.58 == old.58 && new.59 == old.59 && new.60 == old.60 && new.61 == old.61 && new.62 == old.62 && new.63 == old.63
    }

    open spec fn unchanged(old: &Self, new: &Self) -> bool {
        *new == *old
    }

    proof fn lemma_read_after_write(old: &Self, new: &Self, v: T) {
    }

    proof fn lemma_unchanged_reads_same(old: &Self, new: &Self) {
    }

    fn get_field_mut_(&mut self, path: TStr<Str_44>) -> (r: Result<&mut T, InfallibleAccess>) {
        Ok(&mut self.44)
    }
}

impl<T> IntoFieldImpl<TStr<Str_44>> for MaxFields<T> {
    fn into_field_(self, path: TStr<Str_44>) -> (r: Result<T, InfallibleAccess>) {
        Ok(self.44)
    }
}

impl<T> FieldType<TStr<Str_45>> for MaxFields<T> {
    type Ty = T;
}

impl<T> GetFieldImpl<TStr<Str_45>> for MaxFields<T> {
    type Error = InfallibleAccess;

    open spec fn get_field_spec(&self) -> Result<&T, InfallibleAccess> {
        Ok(&self.45)
    }

    fn get_field_(&self, path: TStr<Str_45>) -> (r: Result<&T, InfallibleAccess>) {
        Ok(&self.45)
    }
}

impl<T> GetFieldMutImpl<TStr<Str_45>> for MaxFields<T> {
    open spec fn field_updated(old: &Self, new: &Self, v: T) -> bool {
        new.45 == v && new.0 == old.0 && new.1 == old.1 && new.2 == old.2 && new.3 == old.3 && new.4 == old.4 && new.5 == old.5 && new.6 == old.6 && new.7 == old.7 && new.8 == old.8 && new.9 == old.9 && new.10 == old.10 && new.11 == old.11 && new.12 == old.12 && new.13 == old.13 && new.14 == old.14 && new.15 == old.15 && new.16 == old.16 && new.17 == old.17 && new.18 == old.18 && new.19 == old.19 && new.20 == old.20 && new.21 == old.21 && new.22 == old.22 && new.23 == old.23 && new.24 == old.24 && new.25 == old.25 && new.26 == old.26 && new.27 == old.27 && new.28 == old.28 && new.29 == old.29 && new.30 == old.30 && new.31 == old.31 && new.32 == old.32 && new.33 == old.33 && new.34 == old.34 && new.35 == old.35 && new.36 == old.36 && new.37 == old.37 && new.38 == old.38 && new.39 == old.39 && new.40 == old.40 && new.41 == old.41 && new.42 == old.42 && new.43 == old.43 && new.44 == old.44 && new.46 == old.46 && new.47 == old.47 && new.48 == old.48 && new.49 == old.49 && new.50 == old.50 && new.51 == old.51 && new.52 == old.52 && new.53 == old.53 && new.54 == old.54 && new.55 == old.55 && new.56 == old.56 && new.57 == old.57 && new.58 == old.58 && new.59 == old.59 && new.60 == old.60 && new.61 == old.61 && new.62 == old.62 && new.63 == old.63
    }

    open spec fn unchanged(old: &Self, new: &Self) -> bool {
        *new == *old
    }

    proof fn lemma_read_after_write(old: &Self, new: &Self, v: T) {
    }

    proof fn lemma_unchanged_reads_same(old: &Self, new: &Self) {
    }

    fn get_field_mut_(&mut self, path: TStr<Str_45>) -> (r: Result<&mut T, InfallibleAccess>) {
        Ok(&mut self.45)
    }
}

impl<T> IntoFieldImpl<TStr<Str_45>> for MaxFields<T> {
    fn into_field_(self, path: TStr<Str_45>) -> (r: Result<T, InfallibleAccess>) {
        Ok(self.45)
    }
}

impl<T> FieldType<TStr<Str_46>> for MaxFields<T> {
    type Ty = T;
}

impl<T> GetFieldImpl<TStr<Str_46>> for MaxFields<T> {
    type Error = InfallibleAccess;

    open spec fn get_field_spec(&self) -> Result<&T, InfallibleAccess> {
        Ok(&self.46)
    }

    fn get_field_(&self, path: TStr<Str_46>) -> (r: Result<&T, InfallibleAccess>) {
        Ok(&self.46)
    }
}

impl<T> GetFieldMutImpl<TStr<Str_46>> for MaxFields<T> {
    open spec fn field_updated(old: &Self, new: &Self, v: T) -> bool {
        new.46 == v && new.0 == old.0 && new.1 == old.1 && new.2 == old.2 && new.3 == old.3 && new.4 == old.4 && new.5 == old.5 && new.6 == old.6 && new.7 == old.7 && new.8 == old.8 && new.9 == old.9 && new.10 == old.10 && new.11 == old.11 && new.12 == old.12 && new.13 == old.13 && new.14 == old.14 && new.15 == old.15 && new.16 == old.16 && new.17 == old.17 && new.18 == old.18 && new.19 == old.19 && new.20 == old.20 && new.21 == old.21 && new.22 == old.22 && new.23 == old.23 && new.24 == old.24 && new.25 == old.25 && new.26 == old.26 && new.27 == old.27 && new.28 == old.28 && new.29 == old.29 && new.30 == old.30 && new.31 == old.31 && new.32 == old.32 && new.33 == old.33 && new.34 == old.34 && new.35 == old.35 && new.36 == old.36 && new.37 == old.37 && new.38 == old.38 && new.39 == old.39 && new.40 == old.40 && new.41 == old.41 && new.42 == old.42 && new.43 == old.43 && new.44 == old.44 && new.45 == old.45 && new.47 == old.47 && new.48 == old.48 && new.49 == old.49 && new.50 == old.50 && new.51 == old.51 && new.52 == old.52 && new.53 == old.53 && new.54 == old.54 && new.55 == old.55 && new.56 == old.56 && new.57 == old.57 && new.58 == old.58 && new.59 == old.59 && new.60 == old.60 && new.61 == old.61 && new.62 == old.62 && new.63 == old.63
    }

    open spec fn unchanged(old: &Self, new: &Self) -> bool {
        *new == *old
    }

    proof fn lemma_read_after_write(old: &Self, new: &Self, v: T) {
    }

    proof fn lemma_unchanged_reads_same(old: &Self, new: &Self) {
    }

    fn get_field_mut_(&mut self, path: TStr<Str_46>) -> (r: Result<&mut T, InfallibleAccess>) {
        Ok(&mut self.46)
    }
}

impl<T> IntoFieldImpl<TStr<Str_46>> for MaxFields<T> {
    fn into_field_(self, path: TStr<Str_46>) -> (r: Result<T, InfallibleAccess>) {
        Ok(self.46)
    }
}

impl<T> FieldType<TStr<Str_47>> for MaxFields<T> {
    type Ty = T;
}

impl<T> GetFieldImpl<TStr<Str_47>> for MaxFields<T> {
    type Error = InfallibleAccess;

    open spec fn get_field_spec(&self) -> Result<&T, InfallibleAccess> {
        Ok(&self.47)
    }

    fn get_field_(&self, path: TStr<Str_47>) -> (r: Result<&T, InfallibleAccess>) {
        Ok(&self.47)
    }
}

impl<T> GetFieldMutImpl<TStr<Str_47>> for MaxFields<T> {
    open spec fn field_updated(old: &Self, new: &Self, v: T) -> bool {
        new.47 == v && new.0 == old.0 && new.1 == old.1 && new.2 == old.2 && new.3 == old.3 && new.4 == old.4 && new.5 == old.5 && new.6 == old.6 && new.7 == old.7 && new.8 == old.8 && new.9 == old.9 && new.10 == old.10 && new.11 == old.11 && new.12 == old.12 && new.13 == old.13 && new.14 == old.14 && new.15 == old.15 && new.16 == old.16 && new.17 == old.17 && new.18 == old.18 && new.19 == old.19 && new.20 == old.20 && new.21 == old.21 && new.22 == old.22 && new.23 == old.23 && new.24 == old.24 && new.25 == old.25 && new.26 == old.26 && new.27 == old.27 && new.28 == old.28 && new.29 == old.29 && new.30 == old.30 && new.31 == old.31 && new.32 == old.32 && new.33 == old.33 && new.34 == old.34 && new.35 == old.35 && new.36 == old.36 && new.37 == old.37 && new.38 == old.38 && new.39 == old.39 && new.40 == old.40 && new.41 == old.41 && new.42 == old.42 && new.43 == old.43 && new.44 == old.44 && new.45 == old.45 && new.46 == old.46 && new.48 == old.48 && new.49 == old.49 && new.50 == old.50 && new.51 == old.51 && new.52 == old.52 && new.53 == old.53 && new.54 == old.54 && new.55 == old.55 && new.56 == old.56 && new.57 == old.57 && new.58 == old.58 && new.59 == old.59 && new.60 == old.60 && new.61 == old.61 && new.62 == old.62 && new.63 == old.63
    }

    open spec fn unchanged(old: &Self, new: &Self) -> bool {
        *new == *old
    }

    proof fn lemma_read_after_write(old: &Self, new: &Self, v: T) {
    }

    proof fn lemma_unchanged_reads_same(old: &Self, new: &Self) {
    }

    fn get_field_mut_(&mut self, path: TStr<Str_47>) -> (r: Result<&mut T, InfallibleAccess>) {
        Ok(&mut self.47)
    }
}

impl<T> IntoFieldImpl<TStr<Str_47>> for MaxFields<T> {
    fn into_field_(self, path: TStr<Str_47>) -> (r: Result<T, InfallibleAccess>) {
        Ok(self.47)
    }
}

impl<T> FieldType<TStr<Str_48>> for MaxFields<T> {
    type Ty = T;
}

impl<T> GetFieldImpl<TStr<Str_48>> for MaxFields<T> {
    type Error = InfallibleAccess;

    open spec fn get_field_spec(&self) -> Result<&T, InfallibleAccess> {
        Ok(&self.48)
    }

    fn get_field_(&self, path: TStr<Str_48>) -> (r: Result<&T, InfallibleAccess>) {
        Ok(&self.48)
    }
}

impl<T> GetFieldMutImpl<TStr<Str_48>> for MaxFields<T> {
    open spec fn field_updated(old: &Self, new: &Self, v: T) -> bool {
        new.48 == v && new.0 == old.0 && new.1 == old.1 && new.2 == old.2 && new.3 == old.3 && new.4 == old.4 && new.5 == old.5 && new.6 == old.6 && new.7 == old.7 && new.8 == old.8 && new.9 == old.9 && new.10 == old.10 && new.11 == old.11 && new.12 == old.12 && new.13 == old.13 && new.14 == old.14 && new.15 == old.15 && new.16 == old.16 && new.17 == old.17 && new.18 == old.18 && new.19 == old.19 && new.20 == old.20 && new.21 == old.21 && new.22 == old.22 && new.23 == old.23 && new.24 == old.24 && new.25 == old.25 && new.26 == old.26 && new.27 == old.27 && new.28 == old.28 && new.29 == old.29 && new.30 == old.30 && new.31 == old.31 && new.32 == old.32 && new.33 == old.33 && new.34 == old.34 && new.35 == old.35 && new.36 == old.36 && new.37 == old.37 && new.38 == old.38 && new.39 == old.39 && new.40 == old.40 && new.41 == old.41 && new.42 == old.42 && new.43 == old.43 && new.44 == old.44 && new.45 == old.45 && new.46 == old.46 && new.47 == old.47 && new.49 == old.49 && new.50 == old.50 && new.51 == old.51 && new.52 == old.52 && new.53 == old.53 && new.54 == old.54 && new.55 == old.55 && new.56 == old.56 && new.57 == old.57 && new.58 == old.58 && new.59 == old.59 && new.60 == old.60 && new.61 == old.61 && new.62 == old.62 && new.63 == old.63
    }

    open spec fn unchanged(old: &Self, new: &Self) -> bool {
        *new == *old
    }

    proof fn lemma_read_after_write(old: &Self, new: &Self, v: T) {
    }

    proof fn lemma_unchanged_reads_same(old: &Self, new: &Self) {
    }

    fn get_field_mut_(&mut self, path: TStr<Str_48>) -> (r: Result<&mut T, InfallibleAccess>) {
        Ok(&mut self.48)
    }
}

impl<T> IntoFieldImpl<TStr<Str_48>> for MaxFields<T> {
    fn into_field_(self, path: TStr<Str_48>) -> (r: Result<T, InfallibleAccess>) {
        Ok(self.48)
    }
}

impl<T> FieldType<TStr<Str_49>> for MaxFields<T> {
    type Ty = T;
}

impl<T> GetFieldImpl<TStr<Str_49>> for MaxFields<T> {
    type Error = InfallibleAccess;

    open spec fn get_field_spec(&self) -> Result<&T, InfallibleAccess> {
        Ok(&self.49)
    }

    fn get_field_(&self, path: TStr<Str_49>) -> (r: Result<&T, InfallibleAccess>) {
        Ok(&self.49)
    }
}

impl<T> GetFieldMutImpl<TStr<Str_49>> for MaxFields<T> {
    open spec fn field_updated(old: &Self, new: &Self, v: T) -> bool {
        new.49 == v && new.0 == old.0 && new.1 == old.1 && new.2 == old.2 && new.3 == old.3 && new.4 == old.4 && new.5 == old.5 && new.6 == old.6 && new.7 == old.7 && new.8 == old.8 && new.9 == old.9 && new.10 == old.10 && new.11 == old.11 && new.12 == old.12 && new.13 == old.13 && new.14 == old.14 && new.15 == old.15 && new.16 == old.16 && new.17 == old.17 && new.18 == old.18 && new.19 == old.19 && new.20 == old.20 && new.21 == old.21 && new.22 == old.22 && new.23 == old.23 && new.24 == old.24 && new.25 == old.25 && new.26 == old.26 && new.27 == old.27 && new.28 == old.28 && new.29 == old.29 && new.30 == old.30 && new.31 == old.31 && new.32 == old.32 && new.33 == old.33 && new.34 == old.34 && new.35 == old.35 && new.36 == old.36 && new.37 == old.37 && new.38 == old.38 && new.39 == old.39 && new.40 == old.40 && new.41 == old.41 && new.42 == old.42 && new.43 == old.43 && new.44 == old.44 && new.45 == old.45 && new.46 == old.46 && new.47 == old.47 && new.48 == old.48 && new.50 == old.50 && new.51 == old.51 && new.52 == old.52 && new.53 == old.53 && new.54 == old.54 && new.55 == old.55 && new.56 == old.56 && new.57 == old.57 && new.58 == old.58 && new.59 == old.59 && new.60 == old.60 && new.61 == old.61 && new.62 == old.62 && new.63 == old.63
    }

    open spec fn unchanged(old: &Self, new: &Self) -> bool {
        *new == *old
    }

    proof fn lemma_read_after_write(old: &Self, new: &Self, v: T) {
    }

    proof fn lemma_unchanged_reads_same(old: &Self, new: &Self) {
    }

    fn get_field_mut_(&mut self, path: TStr<Str_49>) -> (r: Result<&mut T, InfallibleAccess>) {
        Ok(&mut self.49)
    }
}

impl<T> IntoFieldImpl<TStr<Str_49>> for MaxFields<T> {
    fn into_field_(self, path: TStr<Str_49>) -> (r: Result<T, InfallibleAccess>) {
        Ok(self.49)
    }
}

impl<T> FieldType<TStr<Str_50>> for MaxFields<T> {
    type Ty = T;
}

impl<T> GetFieldImpl<TStr<Str_50>> for MaxFields<T> {
    type Error = InfallibleAccess;

    open spec fn get_field_spec(&self) -> Result<&T, InfallibleAccess> {
        Ok(&self.50)
    }

    fn get_field_(&self, path: TStr<Str_50>) -> (r: Result<&T, InfallibleAccess>) {
        Ok(&self.50)
    }
}

impl<T> GetFieldMutImpl<TStr<Str_50>> for MaxFields<T> {
    open spec fn field_updated(old: &Self, new: &Self, v: T) -> bool {
        new.50 == v && new.0 == old.0 && new.1 == old.1 && new.2 == old.2 && new.3 == old.3 && new.4 == old.4 && new.5 == old.5 && new.6 == old.6 && new.7 == old.7 && new.8 == old.8 && new.9 == old.9 && new.10 == old.10 && new.11 == old.11 && new.12 == old.12 && new.13 == old.13 && new.14 == old.14 && new.15 == old.15 && new.16 == old.16 && new.17 == old.17 && new.18 == old.18 && new.19 == old.19 && new.20 == old.20 && new.21 == old.21 && new.22 == old.22 && new.23 == old.23 && new.24 == old.24 && new.25 == old.25 && new.26 == old.26 && new.27 == old.27 && new.28 == old.28 && new.29 == old.29 && new.30 == old.30 && new.31 == old.31 && new.32 == old.32 && new.33 == old.33 && new.34 == old.34 && new.35 == old.35 && new.36 == old.36 && new.37 == old.37 && new.38 == old.38 && new.39 == old.39 && new.40 == old.40 && new.41 == old.41 && new.42 == old.42 && new.43 == old.43 && new.44 == old.44 && new.45 == old.45 && new.46 == old.46 && new.47 == old.47 && new.48 == old.48 && new.49 == old.49 && new.51 == old.51 && new.52 == old.52 && new.53 == old.53 && new.54 == old.54 && new.55 == old.55 && new.56 == old.56 && new.57 == old.57 && new.58 == old.58 && new.59 == old.59 && new.60 == old.60 && new.61 == old.61 && new.62 == old.62 && new.63 == old.63
    }

    open spec fn unchanged(old: &Self, new: &Self) -> bool {
        *new == *old
    }

    proof fn lemma_read_after_write(old: &Self, new: &Self, v: T) {
    }

    proof fn lemma_unchanged_reads_same(old: &Self, new: &Self) {
    }

    fn get_field_mut_(&mut self, path: TStr<Str_50>) -> (r: Result<&mut T, InfallibleAccess>) {
        Ok(&mut self.50)
    }
}

impl<T> IntoFieldImpl<TStr<Str_50>> for MaxFields<T> {
    fn into_field_(self, path: TStr<Str_50>) -> (r: Result<T, InfallibleAccess>) {
        Ok(self.50)
    }
}

impl<T> FieldType<TStr<Str_51>> for MaxFields<T> {
    type Ty = T;
}

impl<T> GetFieldImpl<TStr<Str_51>> for MaxFields<T> {
    type Error = InfallibleAccess;

    open spec fn get_field_spec(&self) -> Result<&T, InfallibleAccess> {
        Ok(&self.51)
    }

    fn get_field_(&self, path: TStr<Str_51>) -> (r: Result<&T, InfallibleAccess>) {
        Ok(&self.51)
    }
}

impl<T> GetFieldMutImpl<TStr<Str_51>> for MaxFields<T> {
    open spec fn field_updated(old: &Self, new: &Self, v: T) -> bool {
        new.51 == v && new.0 == old.0 && new.1 == old.1 && new.2 == old.2 && new.3 == old.3 && new.4 == old.4 && new.5 == old.5 && new.6 == old.6 && new.7 == old.7 && new.8 == old.8 && new.9 == old.9 && new.10 == old.10 && new.11 == old.11 && new.12 == old.12 && new.13 == old.13 && new.14 == old.14 && new.15 == old.15 && new.16 == old.16 && new.17 == old.17 && new.18 == old.18 && new.19 == old.19 && new.20 == old.20 && new.21 == old.21 && new.22 == old.22 && new.23 == old.23 && new.24 == old.24 && new.25 == old.25 && new.26 == old.26 && new.27 == old.27 && new.28 == old.28 && new.29 == old.29 && new.30 == old.30 && new.31 == old.31 && new.32 == old.32 && new.33 == old.33 && new.34 == old.34 && new.35 == old.35 && new.36 == old.36 && new.37 == old.37 && new.38 == old.38 && new.39 == old.39 && new.40 == old.40 && new.41 == old.41 && new.42 == old.42 && new.43 == old.43 && new.44 == old.44 && new.45 == old.45 && new.46 == old.46 && new.47 == old.47 && new.48 == old.48 && new.49 == old.49 && new.50 == old.50 && new.52 == old.52 && new.53 == old.53 && new.54 == old.54 && new.55 == old.55 && new.56 == old.56 && new.57 == old.57 && new.58 == old.58 && new.59 == old.59 && new.60 == old.60 && new.61 == old.61 && new.62 == old.62 && new.63 == old.63
    }

    open spec fn unchanged(old: &Self, new: &Self) -> bool {
        *new == *old
    }

    proof fn lemma_read_after_write(old: &Self, new: &Self, v: T) {
    }

    proof fn lemma_unchanged_reads_same(old: &Self, new: &Self) {
    }

    fn get_field_mut_(&mut self, path: TStr<Str_51>) -> (r: Result<&mut T, InfallibleAccess>) {
        Ok(&mut self.51)
    }
}

impl<T> IntoFieldImpl<TStr<Str_51>> for MaxFields<T> {
    fn into_field_(self, path: TStr<Str_51>) -> (r: Result<T, InfallibleAccess>) {
        Ok(self.51)
    }
}

impl<T> FieldType<TStr<Str_52>> for MaxFields<T> {
    type Ty = T;
}

impl<T> GetFieldImpl<TStr<Str_52>> for MaxFields<T> {
    type Error = InfallibleAccess;

    open spec fn get_field_spec(&self) -> Result<&T, InfallibleAccess> {
        Ok(&self.52)
    }

    fn get_field_(&self, path: TStr<Str_52>) -> (r: Result<&T, InfallibleAccess>) {
        Ok(&self.52)
    }
}

impl<T> GetFieldMutImpl<TStr<Str_52>> for MaxFields<T> {
    open spec fn field_updated(old: &Self, new: &Self, v: T) -> bool {
        new.52 == v && new.0 == old.0 && new.1 == old.1 && new.2 == old.2 && new.3 == old.3 && new.4 == old.4 && new.5 == old.5 && new.6 == old.6 && new.7 == old.7 && new.8 == old.8 && new.9 == old.9 && new.10 == old.10 && new.11 == old.11 && new.12 == old.12 && new.13 == old.13 && new.14 == old.14 && new.15 == old.15 && new.16 == old.16 && new.17 == old.17 && new.18 == old.18 && new.19 == old.19 && new.20 == old.20 && new.21 == old.21 && new.22 == old.22 && new.23 == old.23 && new.24 == old.24 && new.25 == old.25 && new.26 == old.26 && new.27 == old.27 && new.28 == old.28 && new.29 == old.29 && new.30 == old.30 && new.31 == old.31 && new.32 == old.32 && new.33 == old.33 && new.34 == old.34 && new.35 == old.35 && new.36 == old.36 && new.37 == old.37 && new.38 == old.38 && new.39 == old.39 && new.40 == old.40 && new.41 == old.41 && new.42 == old.42 && new.43 == old.43 && new.44 == old.44 && new.45 == old.45 && new.46 == old.46 && new.47 == old.47 && new.48 == old.48 && new.49 == old.49 && new.50 == old.50 && new.51 == old.51 && new.53 == old.53 && new.54 == old.54 && new.55 == old.55 && new.56 == old.56 && new.57 == old.57 && new.58 == old.58 && new.59 == old.59 && new.60 == old.60 && new.61 == old.61 && new.62 == old.62 && new.63 == old.63
    }

    open spec fn unchanged(old: &Self, new: &Self) -> bool {
        *new == *old
    }

    proof fn lemma_read_after_write(old: &Self, new: &Self, v: T) {
    }

    proof fn lemma_unchanged_reads_same(old: &Self, new: &Self) {
    }

    fn get_field_mut_(&mut self, path: TStr<Str_52>) -> (r: Result<&mut T, InfallibleAccess>) {
        Ok(&mut self.52)
    }
}

impl<T> IntoFieldImpl<TStr<Str_52>> for MaxFields<T> {
    fn into_field_(self, path: TStr<Str_52>) -> (r: Result<T, InfallibleAccess>) {
        Ok(self.52)
    }
}

impl<T> FieldType<TStr<Str_53>> for MaxFields<T> {
    type Ty = T;
}

impl<T> GetFieldImpl<TStr<Str_53>> for MaxFields<T> {
    type Error = InfallibleAccess;

    open spec fn get_field_spec(&self) -> Result<&T, InfallibleAccess> {
        Ok(&self.53)
    }

    fn get_field_(&self, path: TStr<Str_53>) -> (r: Result<&T, InfallibleAccess>) {
        Ok(&self.53)
    }
}

impl<T> GetFieldMutImpl<TStr<Str_53>> for MaxFields<T> {
    open spec fn field_updated(old: &Self, new: &Self, v: T) -> bool {
        new.53 == v && new.0 == old.0 && new.1 == old.1 && new.2 == old.2 && new.3 == old.3 && new.4 == old.4 && new.5 == old.5 && new.6 == old.6 && new.7 == old.7 && new.8 == old.8 && new.9 == old.9 && new.10 == old.10 && new.11 == old.11 && new.12 == old.12 && new.13 == old.13 && new.14 == old.14 && new.15 == old.15 && new.16 == old.16 && new.17 == old.17 && new.18 == old.18 && new.19 == old.19 && new.20 == old.20 && new.21 == old.21 && new.22 == old.22 && new.23 == old.23 && new.24 == old.24 && new.25 == old.25 && new.26 == old.26 && new.27 == old.27 && new.28 == old.28 && new.29 == old.29 && new.30 == old.30 && new.31 == old.31 && new.32 == old.32 && new.33 == old.33 && new.34 == old.34 && new.35 == old.35 && new.36 == old.36 && new.37 == old.37 && new.38 == old.38 && new.39 == old.39 && new.40 == old.40 && new.41 == old.41 && new.42 == old.42 && new.43 == old.43 && new.44 == old.44 && new.45 == old.45 && new.46 == old.46 && new.47 == old.47 && new.48 == old.48 && new.49 == old.49 && new.50 == old.50 && new.51 == old.51 && new.52 == old.52 && new.54 == old.54 && new.55 == old.55 && new.56 == old.56 && new.57 == old.57 && new.58 == old.58 && new.59 == old.59 && new.60 == old.60 && new.61 == old.61 && new.62 == old.62 && new.63 == old.63
    }

    open spec fn unchanged(old: &Self, new: &Self) -> bool {
        *new == *old
    }

    proof fn lemma_read_after_write(old: &Self, new: &Self, v: T) {
    }

    proof fn lemma_unchanged_reads_same(old: &Self, new: &Self) {
    }

    fn get_field_mut_(&mut self, path: TStr<Str_53>) -> (r: Result<&mut T, InfallibleAccess>) {
        Ok(&mut self.53)
    }
}

impl<T> IntoFieldImpl<TStr<Str_53>> for MaxFields<T> {
    fn into_field_(self, path: TStr<Str_53>) -> (r: Result<T, InfallibleAccess>) {
        Ok(self.53)
    }
}

impl<T> FieldType<TStr<Str_54>> for MaxFields<T> {
    type Ty = T;
}

impl<T> GetFieldImpl<TStr<Str_54>> for MaxFields<T> {
    type Error = InfallibleAccess;

    open spec fn get_field_spec(&self) -> Result<&T, InfallibleAccess> {
        Ok(&self.54)
    }

    fn get_field_(&self, path: TStr<Str_54>) -> (r: Result<&T, InfallibleAccess>) {
        Ok(&self.54)
    }
}

impl<T> GetFieldMutImpl<TStr<Str_54>> for MaxFields<T> {
    open spec fn field_updated(old: &Self, new: &Self, v: T) -> bool {
        new.54 == v && new.0 == old.0 && new.1 == old.1 && new.2 == old.2 && new.3 == old.3 && new.4 == old.4 && new.5 == old.5 && new.6 == old.6 && new.7 == old.7 && new.8 == old.8 && new.9 == old.9 && new.10 == old.10 && new.11 == old.11 && new.12 == old.12 && new.13 == old.13 && new.14 == old.14 && new.15 == old.15 && new.16 == old.16 && new.17 == old.17 && new.18 == old.18 && new.19 == old.19 && new.20 == old.20 && new.21 == old.21 && new.22 == old.22 && new.23 == old.23 && new.24 == old.24 && new.25 == old.25 && new.26 == old.26 && new.27 == old.27 && new.28 == old.28 && new.29 == old.29 && new.30 == old.30 && new.31 == old.31 && new.32 == old.32 && new.33 == old.33 && new.34 == old.34 && new.35 == old.35 && new.36 == old.36 && new.37 == old.37 && new.38 == old.38 && new.39 == old.39 && new.40 == old.40 && new.41 == old.41 && new.42 == old.42 && new.43 == old.43 && new.44 == old.44 && new.45 == old.45 && new.46 == old.46 && new.47 == old.47 && new.48 == old.48 && new.49 == old.49 && new.50 == old.50 && new.51 == old.51 && new.52 == old.52 && new.53 == old.53 && new.55 == old.55 && new.56 == old.56 && new.57 == old.57 && new.58 == old.58 && new.59 == old.59 && new.60 == old.60 && new.61 == old.61 && new.62 == old.62 && new.63 == old.63
    }

    open spec fn unchanged(old: &Self, new: &Self) -> bool {
        *new == *old
    }

    proof fn lemma_read_after_write(old: &Self, new: &Self, v: T) {
    }

    proof fn lemma_unchanged_reads_same(old: &Self, new: &Self) {
    }

    fn get_field_mut_(&mut self, path: TStr<Str_54>) -> (r: Result<&mut T, InfallibleAccess>) {
        Ok(&mut self.54)
    }
}

impl<T> IntoFieldImpl<TStr<Str_54>> for MaxFields<T> {
    fn into_field_(self, path: TStr<Str_54>) -> (r: Result<T, InfallibleAccess>) {
        Ok(self.54)
    }
}

impl<T> FieldType<TStr<Str_55>> for MaxFields<T> {
    type Ty = T;
}

impl<T> GetFieldImpl<TStr<Str_55>> for MaxFields<T> {
    type Error = InfallibleAccess;

    open spec fn get_field_spec(&self) -> Result<&T, InfallibleAccess> {
        Ok(&self.55)
    }

    fn get_field_(&self, path: TStr<Str_55>) -> (r: Result<&T, InfallibleAccess>) {
        Ok(&self.55)
    }
}

impl<T> GetFieldMutImpl<TStr<Str_55>> for MaxFields<T> {
    open spec fn field_updated(old: &Self, new: &Self, v: T) -> bool {
        new.55 == v && new.0 == old.0 && new.1 == old.1 && new.2 == old.2 && new.3 == old.3 && new.4 == old.4 && new.5 == old.5 && new.6 == old.6 && new.7 == old.7 && new.8 == old.8 && new.9 == old.9 && new.10 == old.10 && new.11 == old.11 && new.12 == old.12 && new.13 == old.13 && new.14 == old.14 && new.15 == old.15 && new.16 == old.16 && new.17 == old.17 && new.18 == old.18 && new.19 == old.19 && new.20 == old.20 && new.21 == old.21 && new.22 == old.22 && new.23 == old.23 && new.24 == old.24 && new.25 == old.25 && new.26 == old.26 && new.27 == old.27 && new.28 == old.28 && new.29 == old.29 && new.30 == old.30 && new.31 == old.31 && new.32 == old.32 && new.33 == old.33 && new.34 == old.34 && new.35 == old.35 && new.36 == old.36 && new.37 == old.37 && new.38 == old.38 && new.39 == old.39 && new.40 == old.40 && new.41 == old.41 && new.42 == old.42 && new.43 == old.43 && new.44 == old.44 && new.45 == old.45 && new.46 == old.46 && new.47 == old.47 && new.48 == old.48 && new.49 == old.49 && new.50 == old.50 && new.51 == old.51 && new.52 == old.52 && new.53 == old.53 && new.54 == old.54 && new.56 == old.56 && new.57 == old.57 && new.58 == old.58 && new.59 == old.59 && new.60 == old.60 && new.61 == old.61 && new.62 == old.62 && new.63 == old.63
    }

    open spec fn unchanged(old: &Self, new: &Self) -> bool {
        *new == *old
    }

    proof fn lemma_read_after_write(old: &Self, new: &Self, v: T) {
    }

    proof fn lemma_unchanged_reads_same(old: &Self, new: &Self) {
    }

    fn get_field_mut_(&mut self, path: TStr<Str_55>) -> (r: Result<&mut T, InfallibleAccess>) {
        Ok(&mut self.55)
    }
}

impl<T> IntoFieldImpl<TStr<Str_55>> for MaxFields<T> {
    fn into_field_(self, path: TStr<Str_55>) -> (r: Result<T, InfallibleAccess>) {
        Ok(self.55)
    }
}

impl<T> FieldType<TStr<Str_56>> for MaxFields<T> {
    type Ty = T;
}

impl<T> GetFieldImpl<TStr<Str_56>> for MaxFields<T> {
    type Error = InfallibleAccess;

    open spec fn get_field_spec(&self) -> Result<&T, InfallibleAccess> {
        Ok(&self.56)
    }

    fn get_field_(&self, path: TStr<Str_56>) -> (r: Result<&T, InfallibleAccess>) {
        Ok(&self.56)
    }
}

impl<T> GetFieldMutImpl<TStr<Str_56>> for MaxFields<T> {
    open spec fn field_updated(old: &Self, new: &Self, v: T) -> bool {
        new.56 == v && new.0 == old.0 && new.1 == old.1 && new.2 == old.2 && new.3 == old.3 && new.4 == old.4 && new.5 == old.5 && new.6 == old.6 && new.7 == old.7 && new.8 == old.8 && new.9 == old.9 && new.10 == old.10 && new.11 == old.11 && new.12 == old.12 && new.13 == old.13 && new.14 == old.14 && new.15 == old.15 && new.16 == old.16 && new.17 == old.17 && new.18 == old.18 && new.19 == old.19 && new.20 == old.20 && new.21 == old.21 && new.22 == old.22 && new.23 == old.23 && new.24 == old.24 && new.25 == old.25 && new.26 == old.26 && new.27 == old.27 && new.28 == old.28 && new.29 == old.29 && new.30 == old.30 && new.31 == old.31 && new.32 == old.32 && new.33 == old.33 && new.34 == old.34 && new.35 == old.35 && new.36 == old.36 && new.37 == old.37 && new.38 == old.38 && new.39 == old.39 && new.40 == old.40 && new.41 == old.41 && new.42 == old.42 && new.43 == old.43 && new.44 == old.44 && new.45 == old.45 && new.46 == old.46 && new.47 == old.47 && new.48 == old.48 && new.49 == old.49 && new.50 == old.50 && new.51 == old.51 && new.52 == old.52 && new.53 == old.53 && new.54 == old.54 && new.55 == old.55 && new.57 == old.57 && new.58 == old.58 && new.59 == old.59 && new.60 == old.60 && new.61 == old.61 && new.62 == old.62 && new.63 == old.63
    }

    open spec fn unchanged(old: &Self, new: &Self) -> bool {
        *new == *old
    }

    proof fn lemma_read_after_write(old: &Self, new: &Self, v: T) {
    }

    proof fn lemma_unchanged_reads_same(old: &Self, new: &Self) {
    }

    fn get_field_mut_(&mut self, path: TStr<Str_56>) -> (r: Result<&mut T, InfallibleAccess>) {
        Ok(&mut self.56)
    }
}

impl<T> IntoFieldImpl<TStr<Str_56>> for MaxFields<T> {
    fn into_field_(self, path: TStr<Str_56>) -> (r: Result<T, InfallibleAccess>) {
        Ok(self.56)
    }
}

impl<T> FieldType<TStr<Str_57>> for MaxFields<T> {
    type Ty = T;
}

impl<T> GetFieldImpl<TStr<Str_57>> for MaxFields<T> {
    type Error = InfallibleAccess;

    open spec fn get_field_spec(&self) -> Result<&T, InfallibleAccess> {
        Ok(&self.57)
    }

    fn get_field_(&self, path: TStr<Str_57>) -> (r: Result<&T, InfallibleAccess>) {
        Ok(&self.57)
    }
}

impl<T> GetFieldMutImpl<TStr<Str_57>> for MaxFields<T> {
    open spec fn field_updated(old: &Self, new: &Self, v: T) -> bool {
        new.57 == v && new.0 == old.0 && new.1 == old.1 && new.2 == old.2 && new.3 == old.3 && new.4 == old.4 && new.5 == old.5 && new.6 == old.6 && new.7 == old.7 && new.8 == old.8 && new.9 == old.9 && new.10 == old.10 && new.11 == old.11 && new.12 == old.12 && new.13 == old.13 && new.14 == old.14 && new.15 == old.15 && new.16 == old.16 && new.17 == old.17 && new.18 == old.18 && new.19 == old.19 && new.20 == old.20 && new.21 == old.21 && new.22 == old.22 && new.23 == old.23 && new.24 == old.24 && new.25 == old.25 && new.26 == old.26 && new.27 == old.27 && new.28 == old.28 && new.29 == old.29 && new.30 == old.30 && new.31 == old.31 && new.32 == old.32 && new.33 == old.33 && new.34 == old.34 && new.35 == old.35 && new.36 == old.36 && new.37 == old.37 && new.38 == old.38 && new.39 == old.39 && new.40 == old.40 && new.41 == old.41 && new.42 == old.42 && new.43 == old.43 && new.44 == old.44 && new.45 == old.45 && new.46 == old.46 && new.47 == old.47 && new.48 == old.48 && new.49 == old.49 && new.50 == old.50 && new.51 == old.51 && new.52 == old.52 && new.53 == old.53 && new.54 == old.54 && new.55 == old.55 && new.56 == old.56 && new.58 == old.58 && new.59 == old.59 && new.60 == old.60 && new.61 == old.61 && new.62 == old.62 && new.63 == old.63
    }

    open spec fn unchanged(old: &Self, new: &Self) -> bool {
        *new == *old
    }

    proof fn lemma_read_after_write(old: &Self, new: &Self, v: T) {
    }

    proof fn lemma_unchanged_reads_same(old: &Self, new: &Self) {
    }

    fn get_field_mut_(&mut self, path: TStr<Str_57>) -> (r: Result<&mut T, InfallibleAccess>) {
        Ok(&mut self.57)
    }
}

impl<T> IntoFieldImpl<TStr<Str_57>> for MaxFields<T> {
    fn into_field_(self, path: TStr<Str_57>) -> (r: Result<T, InfallibleAccess>) {
        Ok(self.57)
    }
}

impl<T> FieldType<TStr<Str_58>> for MaxFields<T> {
    type Ty = T;
}

impl<T> GetFieldImpl<TStr<Str_58>> for MaxFields<T> {
    type Error = InfallibleAccess;

    open spec fn get_field_spec(&self) -> Result<&T, InfallibleAccess> {
        Ok(&self.58)
    }

    fn get_field_(&self, path: TStr<Str_58>) -> (r: Result<&T, InfallibleAccess>) {
        Ok(&self.58)
    }
}

impl<T> GetFieldMutImpl<TStr<Str_58>> for MaxFields<T> {
    open spec fn field_updated(old: &Self, new: &Self, v: T) -> bool {
        new.58 == v && new.0 == old.0 && new.1 == old.1 && new.2 == old.2 && new.3 == old.3 && new.4 == old.4 && new.5 == old.5 && new.6 == old.6 && new.7 == old.7 && new.8 == old.8 && new.9 == old.9 && new.10 == old.10 && new.11 == old.11 && new.12 == old.12 && new.13 == old.13 && new.14 == old.14 && new.15 == old.15 && new.16 == old.16 && new.17 == old.17 && new.18 == old.18 && new.19 == old.19 && new.20 == old.20 && new.21 == old.21 && new.22 == old.22 && new.23 == old.23 && new.24 == old.24 && new.25 == old.25 && new.26 == old.26 && new.27 == old.27 && new.28 == old.28 && new.29 == old.29 && new.30 == old.30 && new.31 == old.31 && new.32 == old.32 && new.33 == old.33 && new.34 == old.34 && new.35 == old.35 && new.36 == old.36 && new.37 == old.37 && new.38 == old.38 && new.39 == old.39 && new.40 == old.40 && new.41 == old.41 && new.42 == old.42 && new.43 == old.43 && new.44 == old.44 && new.45 == old.45 && new.46 == old.46 && new.47 == old.47 && new.48 == old.48 && new.49 == old.49 && new.50 == old.50 && new.51 == old.51 && new.52 == old.52 && new.53 == old.53 && new.54 == old.54 && new.55 == old.55 && new.56 == old.56 && new.57 == old.57 && new.59 == old.59 && new.60 == old.60 && new.61 == old.61 && new.62 == old.62 && new.63 == old.63
    }

    open spec fn unchanged(old: &Self, new: &Self) -> bool {
        *new == *old
    }

    proof fn lemma_read_after_write(old: &Self, new: &Self, v: T) {
    }

    proof fn lemma_unchanged_reads_same(old: &Self, new: &Self) {
    }

    fn get_field_mut_(&mut self, path: TStr<Str_58>) -> (r: Result<&mut T, InfallibleAccess>) {
        Ok(&mut self.58)
    }
}

impl<T> IntoFieldImpl<TStr<Str_58>> for MaxFields<T> {
    fn into_field_(self, path: TStr<Str_58>) -> (r: Result<T, InfallibleAccess>) {
        Ok(self.58)
    }
}

impl<T> FieldType<TStr<Str_59>> for MaxFields<T> {
    type Ty = T;
}

impl<T> GetFieldImpl<TStr<Str_59>> for MaxFields<T> {
    type Error = InfallibleAccess;

    open spec fn get_field_spec(&self) -> Result<&T, InfallibleAccess> {
        Ok(&self.59)
    }

    fn get_field_(&self, path: TStr<Str_59>) -> (r: Result<&T, InfallibleAccess>) {
        Ok(&self.59)
    }
}

impl<T> GetFieldMutImpl<TStr<Str_59>> for MaxFields<T> {
    open spec fn field_updated(old: &Self, new: &Self, v: T) -> bool {
        new.59 == v && new.0 == old.0 && new.1 == old.1 && new.2 == old.2 && new.3 == old.3 && new.4 == old.4 && new.5 == old.5 && new.6 == old.6 && new.7 == old.7 && new.8 == old.8 && new.9 == old.9 && new.10 == old.10 && new.11 == old.11 && new.12 == old.12 && new.13 == old.13 && new.14 == old.14 && new.15 == old.15 && new.16 == old.16 && new.17 == old.17 && new.18 == old.18 && new.19 == old.19 && new.20 == old.20 && new.21 == old.21 && new.22 == old.22 && new.23 == old.23 && new.24 == old.24 && new.25 == old.25 && new.26 == old.26 && new.27 == old.27 && new.28 == old.28 && new.29 == old.29 && new.30 == old.30 && new.31 == old.31 && new.32 == old.32 && new.33 == old.33 && new.34 == old.34 && new.35 == old.35 && new.36 == old.36 && new.37 == old.37 && new.38 == old.38 && new.39 == old.39 && new.40 == old.40 && new.41 == old.41 && new.42 == old.42 && new.43 == old.43 && new.44 == old.44 && new.45 == old.45 && new.46 == old.46 && new.47 == old.47 && new.48 == old.48 && new.49 == old.49 && new.50 == old.50 && new.51 == old.51 && new.52 == old.52 && new.53 == old.53 && new.54 == old.54 && new.55 == old.55 && new.56 == old.56 && new.57 == old.57 && new.58 == old.58 && new.60 == old.60 && new.61 == old.61 && new.62 == old.62 && new.63 == old.63
    }

    open spec fn unchanged(old: &Self, new: &Self) -> bool {
        *new == *old
    }

    proof fn lemma_read_after_write(old: &Self, new: &Self, v: T) {
    }

    proof fn lemma_unchanged_reads_same(old: &Self, new: &Self) {
    }

    fn get_field_mut_(&mut self, path: TStr<Str_59>) -> (r: Result<&mut T, InfallibleAccess>) {
        Ok(&mut self.59)
    }
}

impl<T> IntoFieldImpl<TStr<Str_59>> for MaxFields<T> {
    fn into_field_(self, path: TStr<Str_59>) -> (r: Result<T, InfallibleAccess>) {
        Ok(self.59)
    }
}

impl<T> FieldType<TStr<Str_60>> for MaxFields<T> {
    type Ty = T;
}

impl<T> GetFieldImpl<TStr<Str_60>> for MaxFields<T> {
    type Error = InfallibleAccess;

    open spec fn get_field_spec(&self) -> Result<&T, InfallibleAccess> {
        Ok(&self.60)
    }

    fn get_field_(&self, path: TStr<Str_60>) -> (r: Result<&T, InfallibleAccess>) {
        Ok(&self.60)
    }
}

impl<T> GetFieldMutImpl<TStr<Str_60>> for MaxFields<T> {
    open spec fn field_updated(old: &Self, new: &Self, v: T) -> bool {
        new.60 == v && new.0 == old.0 && new.1 == old.1 && new.2 == old.2 && new.3 == old.3 && new.4 == old.4 && new.5 == old.5 && new.6 == old.6 && new.7 == old.7 && new.8 == old.8 && new.9 == old.9 && new.10 == old.10 && new.11 == old.11 && new.12 == old.12 && new.13 == old.13 && new.14 == old.14 && new.15 == old.15 && new.16 == old.16 && new.17 == old.17 && new.18 == old.18 && new.19 == old.19 && new.20 == old.20 && new.21 == old.21 && new.22 == old.22 && new.23 == old.23 && new.24 == old.24 && new.25 == old.25 && new.26 == old.26 && new.27 == old.27 && new.28 == old.28 && new.29 == old.29 && new.30 == old.30 && new.31 == old.31 && new.32 == old.32 && new.33 == old.33 && new.34 == old.34 && new.35 == old.35 && new.36 == old.36 && new.37 == old.37 && new.38 == old.38 && new.39 == old.39 && new.40 == old.40 && new.41 == old.41 && new.42 == old.42 && new.43 == old.43 && new.44 == old.44 && new.45 == old.45 && new.46 == old.46 && new.47 == old.47 && new.48 == old.48 && new.49 == old.49 && new.50 == old.50 && new.51 == old.51 && new.52 == old.52 && new.53 == old.53 && new.54 == old.54 && new.55 == old.55 && new.56 == old.56 && new.57 == old.57 && new.58 == old.58 && new.59 == old.59 && new.61 == old.61 && new.62 == old.62 && new.63 == old.63
    }

    open spec fn unchanged(old: &Self, new: &Self) -> bool {
        *new == *old
    }

    proof fn lemma_read_after_write(old: &Self, new: &Self, v: T) {
    }

    proof fn lemma_unchanged_reads_same(old: &Self, new: &Self) {
    }

    fn get_field_mut_(&mut self, path: TStr<Str_60>) -> (r: Result<&mut T, InfallibleAccess>) {
        Ok(&mut self.60)
    }
}

impl<T> IntoFieldImpl<TStr<Str_60>> for MaxFields<T> {
    fn into_field_(self, path: TStr<Str_60>) -> (r: Result<T, InfallibleAccess>) {
        Ok(self.60)
    }
}

impl<T> FieldType<TStr<Str_61>> for MaxFields<T> {
    type Ty = T;
}

impl<T> GetFieldImpl<TStr<Str_61>> for MaxFields<T> {
    type Error = InfallibleAccess;

    open spec fn get_field_spec(&self) -> Result<&T, InfallibleAccess> {
        Ok(&self.61)
    }

    fn get_field_(&self, path: TStr<Str_61>) -> (r: Result<&T, InfallibleAccess>) {
        Ok(&self.61)
    }
}

impl<T> GetFieldMutImpl<TStr<Str_61>> for MaxFields<T> {
    open spec fn field_updated(old: &Self, new: &Self, v: T) -> bool {
        new.61 == v && new.0 == old.0 && new.1 == old.1 && new.2 == old.2 && new.3 == old.3 && new.4 == old.4 && new.5 == old.5 && new.6 == old.6 && new.7 == old.7 && new.8 == old.8 && new.9 == old.9 && new.10 == old.10 && new.11 == old.11 && new.12 == old.12 && new.13 == old.13 && new.14 == old.14 && new.15 == old.15 && new.16 == old.16 && new.17 == old.17 && new.18 == old.18 && new.19 == old.19 && new.20 == old.20 && new.21 == old.21 && new.22 == old.22 && new.23 == old.23 && new.24 == old.24 && new.25 == old.25 && new.26 == old.26 && new.27 == old.27 && new.28 == old.28 && new.29 == old.29 && new.30 == old.30 && new.31 == old.31 && new.32 == old.32 && new.33 == old.33 && new.34 == old.34 && new.35 == old.35 && new.36 == old.36 && new.37 == old.37 && new.38 == old.38 && new.39 == old.39 && new.40 == old.40 && new.41 == old.41 && new.42 == old.42 && new.43 == old.43 && new.44 == old.44 && new.45 == old.45 && new.46 == old.46 && new.47 == old.47 && new.48 == old.48 && new.49 == old.49 && new.50 == old.50 && new.51 == old.51 && new.52 == old.52 && new.53 == old.53 && new.54 == old.54 && new.55 == old.55 && new.56 == old.56 && new.57 == old.57 && new.58 == old.58 && new.59 == old.59 && new.60 == old.60 && new.62 == old.62 && new.63 == old.63
    }

    open spec fn unchanged(old: &Self, new: &Self) -> bool {
        *new == *old
    }

    proof fn lemma_read_after_write(old: &Self, new: &Self, v: T) {
    }

    proof fn lemma_unchanged_reads_same(old: &Self, new: &Self) {
    }

    fn get_field_mut_(&mut self, path: TStr<Str_61>) -> (r: Result<&mut T, InfallibleAccess>) {
        Ok(&mut self.61)
    }
}

impl<T> IntoFieldImpl<TStr<Str_61>> for MaxFields<T> {
    fn into_field_(self, path: TStr<Str_61>) -> (r: Result<T, InfallibleAccess>) {
        Ok(self.61)
    }
}

impl<T> FieldType<TStr<Str_62>> for MaxFields<T> {
    type Ty = T;
}

impl<T> GetFieldImpl<TStr<Str_62>> for MaxFields<T> {
    type Error = InfallibleAccess;

    open spec fn get_field_spec(&self) -> Result<&T, InfallibleAccess> {
        Ok(&self.62)
    }

    fn get_field_(&self, path: TStr<Str_62>) -> (r: Result<&T, InfallibleAccess>) {
        Ok(&self.62)
    }
}

impl<T> GetFieldMutImpl<TStr<Str_62>> for MaxFields<T> {
    open spec fn field_updated(old: &Self, new: &Self, v: T) -> bool {
        new.62 == v && new.0 == old.0 && new.1 == old.1 && new.2 == old.2 && new.3 == old.3 && new.4 == old.4 && new.5 == old.5 && new.6 == old.6 && new.7 == old.7 && new.8 == old.8 && new.9 == old.9 && new.10 == old.10 && new.11 == old.11 && new.12 == old.12 && new.13 == old.13 && new.14 == old.14 && new.15 == old.15 && new.16 == old.16 && new.17 == old.17 && new.18 == old.18 && new.19 == old.19 && new.20 == old.20 && new.21 == old.21 && new.22 == old.22 && new.23 == old.23 && new.24 == old.24 && new.25 == old.25 && new.26 == old.26 && new.27 == old.27 && new.28 == old.28 && new.29 == old.29 && new.30 == old.30 && new.31 == old.31 && new.32 == old.32 && new.33 == old.33 && new.34 == old.34 && new.35 == old.35 && new.36 == old.36 && new.37 == old.37 && new.38 == old.38 && new.39 == old.39 && new.40 == old.40 && new.41 == old.41 && new.42 == old.42 && new.43 == old.43 && new.44 == old.44 && new.45 == old.45 && new.46 == old.46 && new.47 == old.47 && new.48 == old.48 && new.49 == old.49 && new.50 == old.50 && new.51 == old.51 && new.52 == old.52 && new.53 == old.53 && new.54 == old.54 && new.55 == old.55 && new.56 == old.56 && new.57 == old.57 && new.58 == old.58 && new.59 == old.59 && new.60 == old.60 && new.61 == old.61 && new.63 == old.63
    }

    open spec fn unchanged(old: &Self, new: &Self) -> bool {
        *new == *old
    }

    proof fn lemma_read_after_write(old: &Self, new: &Self, v: T) {
    }

    proof fn lemma_unchanged_reads_same(old: &Self, new: &Self) {
    }

    fn get_field_mut_(&mut self, path: TStr<Str_62>) -> (r: Result<&mut T, InfallibleAccess>) {
        Ok(&mut self.62)
    }
}

impl<T> IntoFieldImpl<TStr<Str_62>> for MaxFields<T> {
    fn into_field_(self, path: TStr<Str_62>) -> (r: Result<T, InfallibleAccess>) {
        Ok(self.62)
    }
}

impl<T> FieldType<TStr<Str_63>> for MaxFields<T> {
    type Ty = T;
}

impl<T> GetFieldImpl<TStr<Str_63>> for MaxFields<T> {
    type Error = InfallibleAccess;

    open spec fn get_field_spec(&self) -> Result<&T, InfallibleAccess> {
        Ok(&self.63)
    }

    fn get_field_(&self, path: TStr<Str_63>) -> (r: Result<&T, InfallibleAccess>) {
        Ok(&self.63)
    }
}

impl<T> GetFieldMutImpl<TStr<Str_63>> for MaxFields<T> {
    open spec fn field_updated(old: &Self, new: &Self, v: T) -> bool {
        new.63 == v && new.0 == old.0 && new.1 == old.1 && new.2 == old.2 && new.3 == old.3 && new.4 == old.4 && new.5 == old.5 && new.6 == old.6 && new.7 == old.7 && new.8 == old.8 && new.9 == old.9 && new.10 == old.10 && new.11 == old.11 && new.12 == old.12 && new.13 == old.13 && new.14 == old.14 && new.15 == old.15 && new.16 == old.16 && new.17 == old.17 && new.18 == old.18 && new.19 == old.19 && new.20 == old.20 && new.21 == old.21 && new.22 == old.22 && new.23 == old.23 && new.24 == old.24 && new.25 == old.25 && new.26 == old.26 && new.27 == old.27 && new.28 == old.28 && new.29 == old.29 && new.30 == old.30 && new.31 == old.31 && new.32 == old.32 && new.33 == old.33 && new.34 == old.34 && new.35 == old.35 && new.36 == old.36 && new.37 == old.37 && new.38 == old.38 && new.39 == old.39 && new.40 == old.40 && new.41 == old.41 && new.42 == old.42 && new.43 == old.43 && new.44 == old.44 && new.45 == old.45 && new.46 == old.46 && new.47 == old.47 && new.48 == old.48 && new.49 == old.49 && new.50 == old.50 && new.51 == old.51 && new.52 == old.52 && new.53 == old.53 && new.54 == old.54 && new.55 == old.55 && new.56 == old.56 && new.57 == old.57 && new.58 == old.58 && new.59 == old.59 && new.60 == old.60 && new.61 == old.61 && new.62 == old.62
    }

    open spec fn unchanged(old: &Self, new: &Self) -> bool {
        *new == *old
    }

    proof fn lemma_read_after_write(old: &Self, new: &Self, v: T) {
    }

    proof fn lemma_unchanged_reads_same(old: &Self, new: &Self) {
    }

    fn get_field_mut_(&mut self, path: TStr<Str_63>) -> (r: Result<&mut T, InfallibleAccess>) {
        Ok(&mut self.63)
    }
}

impl<T> IntoFieldImpl<TStr<Str_63>> for MaxFields<T> {
    fn into_field_(self, path: TStr<Str_63>) -> (r: Result<T, InfallibleAccess>) {
        Ok(self.63)
    }
}

impl<T> VariantCount for OptionLike<T> {
    type Count = TStr<Str_2>;
}

impl<T> IsVariant<TStr<Str_Some>> for OptionLike<T> {
    open spec fn is_variant_spec(&self) -> bool {
        *self is Some_
    }

    fn is_variant_(&self, variant: TStr<Str_Some>) -> (r: bool) {
        match self {
            OptionLike::Some_(..) => true,
            _ => false,
        }
    }
}

impl<T> FieldType<VariantField<TStr<Str_Some>, TStr<Str_0>>> for OptionLike<T> {
    type Ty = T;
}

impl<T> GetVariantField<TStr<Str_Some>, TStr<Str_0>> for OptionLike<T> {
    open spec fn get_vfield_spec(&self) -> Option<&T> {
        match self {
            OptionLike::Some_(x) => Some(x),
            _ => None,
        }
    }

    proof fn lemma_vfield_iff_variant(&self) {
    }

    fn get_vfield_(&self, variant: TStr<Str_Some>, field: TStr<Str_0>) -> (r: Option<&T>) {
        match self {
            OptionLike::Some_(x) => Some(x),
            _ => None,
        }
    }
}

impl<T> GetVariantFieldMut<TStr<Str_Some>, TStr<Str_0>> for OptionLike<T> {
    open spec fn vfield_updated(old: &Self, new: &Self, v: T) -> bool {
        match *old {
            OptionLike::Some_(f0) => *new == Self::Some_(v),
            _ => false,
        }
    }

    open spec fn vfield_unchanged(old: &Self, new: &Self) -> bool {
        *new == *old
    }

    proof fn lemma_read_after_write(old: &Self, new: &Self, v: T) {
    }

    proof fn lemma_vfield_unchanged_reads_same(old: &Self, new: &Self) {
    }

    fn get_vfield_mut_(&mut self, variant: TStr<Str_Some>, field: TStr<Str_0>) -> (r: Option<&mut T>) {
        match self {
            OptionLike::Some_(x) => Some(x),
            _ => {
                assert(<Self as GetVariantFieldMut<TStr<Str_Some>, TStr<Str_0>>>::vfield_unchanged(&*old(self), &*final(self)));
                None
            },
        }
    }
}

impl<T> IntoVariantField<TStr<Str_Some>, TStr<Str_0>> for OptionLike<T> {
    fn into_vfield_(self, variant: TStr<Str_Some>, field: TStr<Str_0>) -> (r: Option<T>) {
        match self {
            OptionLike::Some_(x) => Some(x),
            _ => None,
        }
    }
}

impl<T> IsVariant<TStr<Str_None>> for OptionLike<T> {
    open spec fn is_variant_spec(&self) -> bool {
        *self is None_
    }

    fn is_variant_(&self, variant: TStr<Str_None>) -> (r: bool) {
        match self {
            OptionLike::None_ => true,
            _ => false,
        }
    }
}

impl<T> VariantCount for ExtraOption<T> {
    type Count = TStr<Str_3>;
}

impl<T> IsVariant<TStr<Str_Some>> for ExtraOption<T> {
    open spec fn is_variant_spec(&self) -> bool {
        *self is Some_
    }

    fn is_variant_(&self, variant: TStr<Str_Some>) -> (r: bool) {
        match self {
            ExtraOption::Some_(..) => true,
            _ => false,
        }
    }
}

impl<T> FieldType<VariantField<TStr<Str_Some>, TStr<Str_0>>> for ExtraOption<T> {
    type Ty = T;
}

impl<T> GetVariantField<TStr<Str_Some>, TStr<Str_0>> for ExtraOption<T> {
    open spec fn get_vfield_spec(&self) -> Option<&T> {
        match self {
            ExtraOption::Some_(x) => Some(x),
            _ => None,
        }
    }

    proof fn lemma_vfield_iff_variant(&self) {
    }

    fn get_vfield_(&self, variant: TStr<Str_Some>, field: TStr<Str_0>) -> (r: Option<&T>) {
        match self {
            ExtraOption::Some_(x) => Some(x),
            _ => None,
        }
    }
}

impl<T> GetVariantFieldMut<TStr<Str_Some>, TStr<Str_0>> for ExtraOption<T> {
    open spec fn vfield_updated(old: &Self, new: &Self, v: T) -> bool {
        match *old {
            ExtraOption::Some_(f0) => *new == Self::Some_(v),
            _ => false,
        }
    }

    open spec fn vfield_unchanged(old: &Self, new: &Self) -> bool {
        *new == *old
    }

    proof fn lemma_read_after_write(old: &Self, new: &Self, v: T) {
    }

    proof fn lemma_vfield_unchanged_reads_same(old: &Self, new: &Self) {
    }

    fn get_vfield_mut_(&mut self, variant: TStr<Str_Some>, field: TStr<Str_0>) -> (r: Option<&mut T>) {
        match self {
            ExtraOption::Some_(x) => Some(x),
            _ => {
                assert(<Self as GetVariantFieldMut<TStr<Str_Some>, TStr<Str_0>>>::vfield_unchanged(&*old(self), &*final(self)));
                None
            },
        }
    }
}

impl<T> IntoVariantField<TStr<Str_Some>, TStr<Str_0>> for ExtraOption<T> {
    fn into_vfield_(self, variant: TStr<Str_Some>, field: TStr<Str_0>) -> (r: Option<T>) {
        match self {
            ExtraOption::Some_(x) => Some(x),
            _ => None,
        }
    }
}

impl<T> IsVariant<TStr<Str_None>> for ExtraOption<T> {
    open spec fn is_variant_spec(&self) -> bool {
        *self is None_
    }

    fn is_variant_(&self, variant: TStr<Str_None>) -> (r: bool) {
        match self {
            ExtraOption::None_ => true,
            _ => false,
        }
    }
}

impl<T> IsVariant<TStr<Str_FileNotFound>> for ExtraOption<T> {
    open spec fn is_variant_spec(&self) -> bool {
        *self is FileNotFound
    }

    fn is_variant_(&self, variant: TStr<Str_FileNotFound>) -> (r: bool) {
        match self {
            ExtraOption::FileNotFound => true,
            _ => false,
        }
    }
}

impl<T, E> VariantCount for ResultLike<T, E> {
    type Count = TStr<Str_2>;
}

impl<T, E> IsVariant<TStr<Str_Ok>> for ResultLike<T, E> {
    open spec fn is_variant_spec(&self) -> bool {
        *self is Ok_
    }

    fn is_variant_(&self, variant: TStr<Str_Ok>) -> (r: bool) {
        match self {
            ResultLike::Ok_(..) => true,
            _ => false,
        }
    }
}

impl<T, E> FieldType<VariantField<TStr<Str_Ok>, TStr<Str_0>>> for ResultLike<T, E> {
    type Ty = T;
}

impl<T, E> GetVariantField<TStr<Str_Ok>, TStr<Str_0>> for ResultLike<T, E> {
    open spec fn get_vfield_spec(&self) -> Option<&T> {
        match self {
            ResultLike::Ok_(x) => Some(x),
            _ => None,
        }
    }

    proof fn lemma_vfield_iff_variant(&self) {
    }

    fn get_vfield_(&self, variant: TStr<Str_Ok>, field: TStr<Str_0>) -> (r: Option<&T>) {
        match self {
            ResultLike::Ok_(x) => Some(x),
            _ => None,
        }
    }
}

impl<T, E> GetVariantFieldMut<TStr<Str_Ok>, TStr<Str_0>> for ResultLike<T, E> {
    open spec fn vfield_updated(old: &Self, new: &Self, v: T) -> bool {
        match *old {
            ResultLike::Ok_(f0) => *new == Self::Ok_(v),
            _ => false,
        }
    }

    open spec fn vfield_unchanged(old: &Self, new: &Self) -> bool {
        *new == *old
    }

    proof fn lemma_read_after_write(old: &Self, new: &Self, v: T) {
    }

    proof fn lemma_vfield_unchanged_reads_same(old: &Self, new: &Self) {
    }

    fn get_vfield_mut_(&mut self, variant: TStr<Str_Ok>, field: TStr<Str_0>) -> (r: Option<&mut T>) {
        match self {
            ResultLike::Ok_(x) => Some(x),
            _ => {
                assert(<Self as GetVariantFieldMut<TStr<Str_Ok>, TStr<Str_0>>>::vfield_unchanged(&*old(self), &*final(self)));
                None
            },
        }
    }
}

impl<T, E> IntoVariantField<TStr<Str_Ok>, TStr<Str_0>> for ResultLike<T, E> {
    fn into_vfield_(self, variant: TStr<Str_Ok>, field: TStr<Str_0>) -> (r: Option<T>) {
        match self {
            ResultLike::Ok_(x) => Some(x),
            _ => None,
        }
    }
}

impl<T, E> IsVariant<TStr<Str_Err>> for ResultLike<T, E> {
    open spec fn is_variant_spec(&self) -> bool {
        *self is Err_
    }

    fn is_variant_(&self, variant: TStr<Str_Err>) -> (r: bool) {
        match self {
            ResultLike::Err_(..) => true,
            _ => false,
        }
    }
}

impl<T, E> FieldType<VariantField<TStr<Str_Err>, TStr<Str_0>>> for ResultLike<T, E> {
    type Ty = E;
}

impl<T, E> GetVariantField<TStr<Str_Err>, TStr<Str_0>> for ResultLike<T, E> {
    open spec fn get_vfield_spec(&self) -> Option<&E> {
        match self {
            ResultLike::Err_(x) => Some(x),
            _ => None,
        }
    }

    proof fn lemma_vfield_iff_variant(&self) {
    }

    fn get_vfield_(&self, variant: TStr<Str_Err>, field: TStr<Str_0>) -> (r: Option<&E>) {
        match self {
            ResultLike::Err_(x) => Some(x),
            _ => None,
        }
    }
}

impl<T, E> GetVariantFieldMut<TStr<Str_Err>, TStr<Str_0>> for ResultLike<T, E> {
    open spec fn vfield_updated(old: &Self, new: &Self, v: E) -> bool {
        match *old {
            ResultLike::Err_(f0) => *new == Self::Err_(v),
            _ => false,
        }
    }

    open spec fn vfield_unchanged(old: &Self, new: &Self) -> bool {
        *new == *old
    }

    proof fn lemma_read_after_write(old: &Self, new: &Self, v: E) {
    }

    proof fn lemma_vfield_unchanged_reads_same(old: &Self, new: &Self) {
    }

    fn get_vfield_mut_(&mut self, variant: TStr<Str_Err>, field: TStr<Str_0>) -> (r: Option<&mut E>) {
        match self {
            ResultLike::Err_(x) => Some(x),
            _ => {
                assert(<Self as GetVariantFieldMut<TStr<Str_Err>, TStr<Str_0>>>::vfield_unchanged(&*old(self), &*final(self)));
                None
            },
        }
    }
}

impl<T, E> IntoVariantField<TStr<Str_Err>, TStr<Str_0>> for ResultLike<T, E> {
    fn into_vfield_(self, variant: TStr<Str_Err>, field: TStr<Str_0>) -> (r: Option<E>) {
        match self {
            ResultLike::Err_(x) => Some(x),
            _ => None,
        }
    }
}

impl<T, E> VariantCount for ExtraResult<T, E> {
    type Count = TStr<Str_3>;
}

impl<T, E> IsVariant<TStr<Str_Ok>> for ExtraResult<T, E> {
    open spec fn is_variant_spec(&self) -> bool {
        *self is Ok_
    }

    fn is_variant_(&self, variant: TStr<Str_Ok>) -> (r: bool) {
        match self {
            ExtraResult::Ok_(..) => true,
            _ => false,
        }
    }
}

impl<T, E> FieldType<VariantField<TStr<Str_Ok>, TStr<Str_0>>> for ExtraResult<T, E> {
    type Ty = T;
}

impl<T, E> GetVariantField<TStr<Str_Ok>, TStr<Str_0>> for ExtraResult<T, E> {
    open spec fn get_vfield_spec(&self) -> Option<&T> {
        match self {
            ExtraResult::Ok_(x) => Some(x),
            _ => None,
        }
    }

    proof fn lemma_vfield_iff_variant(&self) {
    }

    fn get_vfield_(&self, variant: TStr<Str_Ok>, field: TStr<Str_0>) -> (r: Option<&T>) {
        match self {
            ExtraResult::Ok_(x) => Some(x),
            _ => None,
        }
    }
}

impl<T, E> GetVariantFieldMut<TStr<Str_Ok>, TStr<Str_0>> for ExtraResult<T, E> {
    open spec fn vfield_updated(old: &Self, new: &Self, v: T) -> bool {
        match *old {
            ExtraResult::Ok_(f0) => *new == Self::Ok_(v),
            _ => false,
        }
    }

    open spec fn vfield_unchanged(old: &Self, new: &Self) -> bool {
        *new == *old
    }

    proof fn lemma_read_after_write(old: &Self, new: &Self, v: T) {
    }

    proof fn lemma_vfield_unchanged_reads_same(old: &Self, new: &Self) {
    }

    fn get_vfield_mut_(&mut self, variant: TStr<Str_Ok>, field: TStr<Str_0>) -> (r: Option<&mut T>) {
        match self {
            ExtraResult::Ok_(x) => Some(x),
            _ => {
                assert(<Self as GetVariantFieldMut<TStr<Str_Ok>, TStr<Str_0>>>::vfield_unchanged(&*old(self), &*final(self)));
                None
            },
        }
    }
}

impl<T, E> IntoVariantField<TStr<Str_Ok>, TStr<Str_0>> for ExtraResult<T, E> {
    fn into_vfield_(self, variant: TStr<Str_Ok>, field: TStr<Str_0>) -> (r: Option<T>) {
        match self {
            ExtraResult::Ok_(x) => Some(x),
            _ => None,
        }
    }
}

impl<T, E> IsVariant<TStr<Str_Err>> for ExtraResult<T, E> {
    open spec fn is_variant_spec(&self) -> bool {
        *self is Err_
    }

    fn is_variant_(&self, variant: TStr<Str_Err>) -> (r: bool) {
        match self {
            ExtraResult::Err_(..) => true,
            _ => false,
        }
    }
}

impl<T, E> FieldType<VariantField<TStr<Str_Err>, TStr<Str_0>>> for ExtraResult<T, E> {
    type Ty = E;
}

impl<T, E> GetVariantField<TStr<Str_Err>, TStr<Str_0>> for ExtraResult<T, E> {
    open spec fn get_vfield_spec(&self) -> Option<&E> {
        match self {
            ExtraResult::Err_(x) => Some(x),
            _ => None,
        }
    }

    proof fn lemma_vfield_iff_variant(&self) {
    }

    fn get_vfield_(&self, variant: TStr<Str_Err>, field: TStr<Str_0>) -> (r: Option<&E>) {
        match self {
            ExtraResult::Err_(x) => Some(x),
            _ => None,
        }
    }
}

impl<T, E> GetVariantFieldMut<TStr<Str_Err>, TStr<Str_0>> for ExtraResult<T, E> {
    open spec fn vfield_updated(old: &Self, new: &Self, v: E) -> bool {
        match *old {
            ExtraResult::Err_(f0) => *new == Self::Err_(v),
            _ => false,
        }
    }

    open spec fn vfield_unchanged(old: &Self, new: &Self) -> bool {
        *new == *old
    }

    proof fn lemma_read_after_write(old: &Self, new: &Self, v: E) {
    }

    proof fn lemma_vfield_unchanged_reads_same(old: &Self, new: &Self) {
    }

    fn get_vfield_mut_(&mut self, variant: TStr<Str_Err>, field: TStr<Str_0>) -> (r: Option<&mut E>) {
        match self {
            ExtraResult::Err_(x) => Some(x),
            _ => {
                assert(<Self as GetVariantFieldMut<TStr<Str_Err>, TStr<Str_0>>>::vfield_unchanged(&*old(self), &*final(self)));
                None
            },
        }
    }
}

impl<T, E> IntoVariantField<TStr<Str_Err>, TStr<Str_0>> for ExtraResult<T, E> {
    fn into_vfield_(self, variant: TStr<Str_Err>, field: TStr<Str_0>) -> (r: Option<E>) {
        match self {
            ExtraResult::Err_(x) => Some(x),
            _ => None,
        }
    }
}

impl<T, E> IsVariant<TStr<Str_Warn>> for ExtraResult<T, E> {
    open spec fn is_variant_spec(&self) -> bool {
        *self is Warn
    }

    fn is_variant_(&self, variant: TStr<Str_Warn>) -> (r: bool) {
        match self {
            ExtraResult::Warn => true,
            _ => false,
        }
    }
}

/// The names `foo`, `bar` and `baz` are distinct.
proof fn lemma_struct_field_names_distinct()
    ensures
        Str_foo::name_spec() != Str_bar::name_spec(),
        Str_foo::name_spec() != Str_baz::name_spec(),
        Str_bar::name_spec() != Str_baz::name_spec(),
{
    reveal_strlit("foo");
    reveal_strlit("bar");
    reveal_strlit("baz");
    assert("foo"@ =~= seq!['f', 'o', 'o']);
    assert("bar"@ =~= seq!['b', 'a', 'r']);
    assert("baz"@ =~= seq!['b', 'a', 'z']);
    assert("foo"@[0] != "bar"@[0]);
    assert("foo"@[0] != "baz"@[0]);
    assert("bar"@[2] != "baz"@[2]);
}

/// The names `0` to `3` are distinct.
proof fn lemma_tuple_field_names_distinct()
    ensures
        Str_0::name_spec() != Str_1::name_spec(),
        Str_0::name_spec() != Str_2::name_spec(),
        Str_0::name_spec() != Str_3::name_spec(),
        Str_1::name_spec() != Str_2::name_spec(),
        Str_1::name_spec() != Str_3::name_spec(),
        Str_2::name_spec() != Str_3::name_spec(),
{
    reveal_strlit("0");
    reveal_strlit("1");
    reveal_strlit("2");
    reveal_strlit("3");
    assert("0"@ =~= seq!['0']);
    assert("1"@ =~= seq!['1']);
    assert("2"@ =~= seq!['2']);
    assert("3"@ =~= seq!['3']);
    assert("0"@[0] != "1"@[0]);
    assert("0"@[0] != "2"@[0]);
    assert("0"@[0] != "3"@[0]);
    assert("1"@[0] != "2"@[0]);
    assert("1"@[0] != "3"@[0]);
    assert("2"@[0] != "3"@[0]);
}

impl<'a, A, B> FieldSlots<Struct2<A, B>> for (Option<&'a mut Option<A>>, Option<&'a mut B>) {
    open spec fn present(&self, name: Seq<char>) -> bool {
        (name == Str_foo::name_spec() && self.0 is Some) || (name == Str_bar::name_spec() && self.1 is Some)
    }

    open spec fn all_present(&self) -> bool {
        self.0 is Some && self.1 is Some
    }

    open spec fn reads(&self, w: &Struct2<A, B>) -> bool {
        (self.0 is Some ==> *self.0->Some_0 == w.foo) && (self.1 is Some ==> *self.1->Some_0 == w.bar)
    }
}

impl<A, B> FieldSlots<Struct2<A, B>> for (Option<Option<A>>, Option<B>) {
    open spec fn present(&self, name: Seq<char>) -> bool {
        (name == Str_foo::name_spec() && self.0 is Some) || (name == Str_bar::name_spec() && self.1 is Some)
    }

    open spec fn all_present(&self) -> bool {
        self.0 is Some && self.1 is Some
    }

    open spec fn reads(&self, w: &Struct2<A, B>) -> bool {
        (self.0 is Some ==> self.0->Some_0 == w.foo) && (self.1 is Some ==> self.1->Some_0 == w.bar)
    }
}

impl<'a, A: 'a, B: 'a> SplitFieldsMut<'a> for Struct2<A, B> {
    type SlotsMut = (Option<&'a mut Option<A>>, Option<&'a mut B>);

    /// Each slot lends its field: writing through the slots' references is
    /// what writing to the fields does.
    fn split_fields_mut(&'a mut self) -> (r: Self::SlotsMut)
        ensures
            final(self).foo == *final(r.0->Some_0) && final(self).bar == *final(r.1->Some_0),
    {
        (Some(&mut self.foo), Some(&mut self.bar))
    }
}

impl<A, B> SplitFieldsInto for Struct2<A, B> {
    type SlotsInto = (Option<Option<A>>, Option<B>);

    fn split_fields_into(self) -> (r: Self::SlotsInto) {
        (Some(self.foo), Some(self.bar))
    }
}

impl<'a, A, B> TakeFieldMut<'a, Struct2<A, B>, TStr<Str_foo>> for (Option<&'a mut Option<A>>, Option<&'a mut B>) where Option<A>: 'a {
    open spec fn slot_name() -> Seq<char> {
        Str_foo::name_spec()
    }

    proof fn lemma_slot_path(path: TStr<Str_foo>) {
    }

    proof fn lemma_all_present(&self) {
    }

    fn take_field_mut(&mut self, path: TStr<Str_foo>) -> (r: Option<&'a mut Option<A>>) {
        proof {
            lemma_struct_field_names_distinct();
        }
        assert(<Self as TakeFieldMut<'a, Struct2<A, B>, TStr<Str_foo>>>::slot_name() == Str_foo::name_spec());
        self.0.take()
    }
}

impl<A, B> TakeFieldInto<Struct2<A, B>, TStr<Str_foo>> for (Option<Option<A>>, Option<B>) {
    open spec fn slot_name() -> Seq<char> {
        Str_foo::name_spec()
    }

    proof fn lemma_slot_path(path: TStr<Str_foo>) {
    }

    proof fn lemma_all_present(&self) {
    }

    fn take_field_into(&mut self, path: TStr<Str_foo>) -> (r: Option<Option<A>>) {
        proof {
            lemma_struct_field_names_distinct();
        }
        assert(<Self as TakeFieldInto<Struct2<A, B>, TStr<Str_foo>>>::slot_name() == Str_foo::name_spec());
        self.0.take()
    }
}

impl<'a, A, B> TakeFieldMut<'a, Struct2<A, B>, TStr<Str_bar>> for (Option<&'a mut Option<A>>, Option<&'a mut B>) where B: 'a {
    open spec fn slot_name() -> Seq<char> {
        Str_bar::name_spec()
    }

    proof fn lemma_slot_path(path: TStr<Str_bar>) {
    }

    proof fn lemma_all_present(&self) {
    }

    fn take_field_mut(&mut self, path: TStr<Str_bar>) -> (r: Option<&'a mut B>) {
        proof {
            lemma_struct_field_names_distinct();
        }
        assert(<Self as TakeFieldMut<'a, Struct2<A, B>, TStr<Str_bar>>>::slot_name() == Str_bar::name_spec());
        self.1.take()
    }
}

impl<A, B> TakeFieldInto<Struct2<A, B>, TStr<Str_bar>> for (Option<Option<A>>, Option<B>) {
    open spec fn slot_name() -> Seq<char> {
        Str_bar::name_spec()
    }

    proof fn lemma_slot_path(path: TStr<Str_bar>) {
    }

    proof fn lemma_all_present(&self) {
    }

    fn take_field_into(&mut self, path: TStr<Str_bar>) -> (r: Option<B>) {
        proof {
            lemma_struct_field_names_distinct();
        }
        assert(<Self as TakeFieldInto<Struct2<A, B>, TStr<Str_bar>>>::slot_name() == Str_bar::name_spec());
        self.1.take()
    }
}

impl<'a, A, B, C> FieldSlots<Struct3<A, B, C>> for (Option<&'a mut Option<A>>, Option<&'a mut B>, Option<&'a mut C>) {
    open spec fn present(&self, name: Seq<char>) -> bool {
        (name == Str_foo::name_spec() && self.0 is Some) || (name == Str_bar::name_spec() && self.1 is Some) || (name == Str_baz::name_spec() && self.2 is Some)
    }

    open spec fn all_present(&self) -> bool {
        self.0 is Some && self.1 is Some && self.2 is Some
    }

    open spec fn reads(&self, w: &Struct3<A, B, C>) -> bool {
        (self.0 is Some ==> *self.0->Some_0 == w.foo) && (self.1 is Some ==> *self.1->Some_0 == w.bar) && (self.2 is Some ==> *self.2->Some_0 == w.baz)
    }
}

impl<A, B, C> FieldSlots<Struct3<A, B, C>> for (Option<Option<A>>, Option<B>, Option<C>) {
    open spec fn present(&self, name: Seq<char>) -> bool {
        (name == Str_foo::name_spec() && self.0 is Some) || (name == Str_bar::name_spec() && self.1 is Some) || (name == Str_baz::name_spec() && self.2 is Some)
    }

    open spec fn all_present(&self) -> bool {
        self.0 is Some && self.1 is Some && self.2 is Some
    }

    open spec fn reads(&self, w: &Struct3<A, B, C>) -> bool {
        (self.0 is Some ==> self.0->Some_0 == w.foo) && (self.1 is Some ==> self.1->Some_0 == w.bar) && (self.2 is Some ==> self.2->Some_0 == w.baz)
    }
}

impl<'a, A: 'a, B: 'a, C: 'a> SplitFieldsMut<'a> for Struct3<A, B, C> {
    type SlotsMut = (Option<&'a mut Option<A>>, Option<&'a mut B>, Option<&'a mut C>);

    /// Each slot lends its field: writing through the slots' references is
    /// what writing to the fields does.
    fn split_fields_mut(&'a mut self) -> (r: Self::SlotsMut)
        ensures
            final(self).foo == *final(r.0->Some_0) && final(self).bar == *final(r.1->Some_0) && final(self).baz == *final(r.2->Some_0),
    {
        (Some(&mut self.foo), Some(&mut self.bar), Some(&mut self.baz))
    }
}

impl<A, B, C> SplitFieldsInto for Struct3<A, B, C> {
    type SlotsInto = (Option<Option<A>>, Option<B>, Option<C>);

    fn split_fields_into(self) -> (r: Self::SlotsInto) {
        (Some(self.foo), Some(self.bar), Some(self.baz))
    }
}

impl<'a, A, B, C> TakeFieldMut<'a, Struct3<A, B, C>, TStr<Str_foo>> for (Option<&'a mut Option<A>>, Option<&'a mut B>, Option<&'a mut C>) where Option<A>: 'a {
    open spec fn slot_name() -> Seq<char> {
        Str_foo::name_spec()
    }

    proof fn lemma_slot_path(path: TStr<Str_foo>) {
    }

    proof fn lemma_all_present(&self) {
    }

    fn take_field_mut(&mut self, path: TStr<Str_foo>) -> (r: Option<&'a mut Option<A>>) {
        proof {
            lemma_struct_field_names_distinct();
        }
        assert(<Self as TakeFieldMut<'a, Struct3<A, B, C>, TStr<Str_foo>>>::slot_name() == Str_foo::name_spec());
        self.0.take()
    }
}

impl<A, B, C> TakeFieldInto<Struct3<A, B, C>, TStr<Str_foo>> for (Option<Option<A>>, Option<B>, Option<C>) {
    open spec fn slot_name() -> Seq<char> {
        Str_foo::name_spec()
    }

    proof fn lemma_slot_path(path: TStr<Str_foo>) {
    }

    proof fn lemma_all_present(&self) {
    }

    fn take_field_into(&mut self, path: TStr<Str_foo>) -> (r: Option<Option<A>>) {
        proof {
            lemma_struct_field_names_distinct();
        }
        assert(<Self as TakeFieldInto<Struct3<A, B, C>, TStr<Str_foo>>>::slot_name() == Str_foo::name_spec());
        self.0.take()
    }
}

impl<'a, A, B, C> TakeFieldMut<'a, Struct3<A, B, C>, TStr<Str_bar>> for (Option<&'a mut Option<A>>, Option<&'a mut B>, Option<&'a mut C>) where B: 'a {
    open spec fn slot_name() -> Seq<char> {
        Str_bar::name_spec()
    }

    proof fn lemma_slot_path(path: TStr<Str_bar>) {
    }

    proof fn lemma_all_present(&self) {
    }

    fn take_field_mut(&mut self, path: TStr<Str_bar>) -> (r: Option<&'a mut B>) {
        proof {
            lemma_struct_field_names_distinct();
        }
        assert(<Self as TakeFieldMut<'a, Struct3<A, B, C>, TStr<Str_bar>>>::slot_name() == Str_bar::name_spec());
        self.1.take()
    }
}

impl<A, B, C> TakeFieldInto<Struct3<A, B, C>, TStr<Str_bar>> for (Option<Option<A>>, Option<B>, Option<C>) {
    open spec fn slot_name() -> Seq<char> {
        Str_bar::name_spec()
    }

    proof fn lemma_slot_path(path: TStr<Str_bar>) {
    }

    proof fn lemma_all_present(&self) {
    }

    fn take_field_into(&mut self, path: TStr<Str_bar>) -> (r: Option<B>) {
        proof {
            lemma_struct_field_names_distinct();
        }
        assert(<Self as TakeFieldInto<Struct3<A, B, C>, TStr<Str_bar>>>::slot_name() == Str_bar::name_spec());
        self.1.take()
    }
}

impl<'a, A, B, C> TakeFieldMut<'a, Struct3<A, B, C>, TStr<Str_baz>> for (Option<&'a mut Option<A>>, Option<&'a mut B>, Option<&'a mut C>) where C: 'a {
    open spec fn slot_name() -> Seq<char> {
        Str_baz::name_spec()
    }

    proof fn lemma_slot_path(path: TStr<Str_baz>) {
    }

    proof fn lemma_all_present(&self) {
    }

    fn take_field_mut(&mut self, path: TStr<Str_baz>) -> (r: Option<&'a mut C>) {
        proof {
            lemma_struct_field_names_distinct();
        }
        assert(<Self as TakeFieldMut<'a, Struct3<A, B, C>, TStr<Str_baz>>>::slot_name() == Str_baz::name_spec());
        self.2.take()
    }
}

impl<A, B, C> TakeFieldInto<Struct3<A, B, C>, TStr<Str_baz>> for (Option<Option<A>>, Option<B>, Option<C>) {
    open spec fn slot_name() -> Seq<char> {
        Str_baz::name_spec()
    }

    proof fn lemma_slot_path(path: TStr<Str_baz>) {
    }

    proof fn lemma_all_present(&self) {
    }

    fn take_field_into(&mut self, path: TStr<Str_baz>) -> (r: Option<C>) {
        proof {
            lemma_struct_field_names_distinct();
        }
        assert(<Self as TakeFieldInto<Struct3<A, B, C>, TStr<Str_baz>>>::slot_name() == Str_baz::name_spec());
        self.2.take()
    }
}

impl<'a, A, B> FieldSlots<Tuple2<A, B>> for (Option<&'a mut Option<A>>, Option<&'a mut B>) {
    open spec fn present(&self, name: Seq<char>) -> bool {
        (name == Str_0::name_spec() && self.0 is Some) || (name == Str_1::name_spec() && self.1 is Some)
    }

    open spec fn all_present(&self) -> bool {
        self.0 is Some && self.1 is Some
    }

    open spec fn reads(&self, w: &Tuple2<A, B>) -> bool {
        (self.0 is Some ==> *self.0->Some_0 == w.0) && (self.1 is Some ==> *self.1->Some_0 == w.1)
    }
}

impl<A, B> FieldSlots<Tuple2<A, B>> for (Option<Option<A>>, Option<B>) {
    open spec fn present(&self, name: Seq<char>) -> bool {
        (name == Str_0::name_spec() && self.0 is Some) || (name == Str_1::name_spec() && self.1 is Some)
    }

    open spec fn all_present(&self) -> bool {
        self.0 is Some && self.1 is Some
    }

    open spec fn reads(&self, w: &Tuple2<A, B>) -> bool {
        (self.0 is Some ==> self.0->Some_0 == w.0) && (self.1 is Some ==> self.1->Some_0 == w.1)
    }
}

impl<'a, A: 'a, B: 'a> SplitFieldsMut<'a> for Tuple2<A, B> {
    type SlotsMut = (Option<&'a mut Option<A>>, Option<&'a mut B>);

    /// Each slot lends its field: writing through the slots' references is
    /// what writing to the fields does.
    fn split_fields_mut(&'a mut self) -> (r: Self::SlotsMut)
        ensures
            final(self).0 == *final(r.0->Some_0) && final(self).1 == *final(r.1->Some_0),
    {
        (Some(&mut self.0), Some(&mut self.1))
    }
}

impl<A, B> SplitFieldsInto for Tuple2<A, B> {
    type SlotsInto = (Option<Option<A>>, Option<B>);

    fn split_fields_into(self) -> (r: Self::SlotsInto) {
        (Some(self.0), Some(self.1))
    }
}

impl<'a, A, B> TakeFieldMut<'a, Tuple2<A, B>, TStr<Str_0>> for (Option<&'a mut Option<A>>, Option<&'a mut B>) where Option<A>: 'a {
    open spec fn slot_name() -> Seq<char> {
        Str_0::name_spec()
    }

    proof fn lemma_slot_path(path: TStr<Str_0>) {
    }

    proof fn lemma_all_present(&self) {
    }

    fn take_field_mut(&mut self, path: TStr<Str_0>) -> (r: Option<&'a mut Option<A>>) {
        proof {
            lemma_tuple_field_names_distinct();
        }
        assert(<Self as TakeFieldMut<'a, Tuple2<A, B>, TStr<Str_0>>>::slot_name() == Str_0::name_spec());
        self.0.take()
    }
}

impl<A, B> TakeFieldInto<Tuple2<A, B>, TStr<Str_0>> for (Option<Option<A>>, Option<B>) {
    open spec fn slot_name() -> Seq<char> {
        Str_0::name_spec()
    }

    proof fn lemma_slot_path(path: TStr<Str_0>) {
    }

    proof fn lemma_all_present(&self) {
    }

    fn take_field_into(&mut self, path: TStr<Str_0>) -> (r: Option<Option<A>>) {
        proof {
            lemma_tuple_field_names_distinct();
        }
        assert(<Self as TakeFieldInto<Tuple2<A, B>, TStr<Str_0>>>::slot_name() == Str_0::name_spec());
        self.0.take()
    }
}

impl<'a, A, B> TakeFieldMut<'a, Tuple2<A, B>, TStr<Str_1>> for (Option<&'a mut Option<A>>, Option<&'a mut B>) where B: 'a {
    open spec fn slot_name() -> Seq<char> {
        Str_1::name_spec()
    }

    proof fn lemma_slot_path(path: TStr<Str_1>) {
    }

    proof fn lemma_all_present(&self) {
    }

    fn take_field_mut(&mut self, path: TStr<Str_1>) -> (r: Option<&'a mut B>) {
        proof {
            lemma_tuple_field_names_distinct();
        }
        assert(<Self as TakeFieldMut<'a, Tuple2<A, B>, TStr<Str_1>>>::slot_name() == Str_1::name_spec());
        self.1.take()
    }
}

impl<A, B> TakeFieldInto<Tuple2<A, B>, TStr<Str_1>> for (Option<Option<A>>, Option<B>) {
    open spec fn slot_name() -> Seq<char> {
        Str_1::name_spec()
    }

    proof fn lemma_slot_path(path: TStr<Str_1>) {
    }

    proof fn lemma_all_present(&self) {
    }

    fn take_field_into(&mut self, path: TStr<Str_1>) -> (r: Option<B>) {
        proof {
            lemma_tuple_field_names_distinct();
        }
        assert(<Self as TakeFieldInto<Tuple2<A, B>, TStr<Str_1>>>::slot_name() == Str_1::name_spec());
        self.1.take()
    }
}

impl<'a, A, B, C> FieldSlots<Tuple3<A, B, C>> for (Option<&'a mut Option<A>>, Option<&'a mut B>, Option<&'a mut C>) {
    open spec fn present(&self, name: Seq<char>) -> bool {
        (name == Str_0::name_spec() && self.0 is Some) || (name == Str_1::name_spec() && self.1 is Some) || (name == Str_2::name_spec() && self.2 is Some)
    }

    open spec fn all_present(&self) -> bool {
        self.0 is Some && self.1 is Some && self.2 is Some
    }

    open spec fn reads(&self, w: &Tuple3<A, B, C>) -> bool {
        (self.0 is Some ==> *self.0->Some_0 == w.0) && (self.1 is Some ==> *self.1->Some_0 == w.1) && (self.2 is Some ==> *self.2->Some_0 == w.2)
    }
}

impl<A, B, C> FieldSlots<Tuple3<A, B, C>> for (Option<Option<A>>, Option<B>, Option<C>) {
    open spec fn present(&self, name: Seq<char>) -> bool {
        (name == Str_0::name_spec() && self.0 is Some) || (name == Str_1::name_spec() && self.1 is Some) || (name == Str_2::name_spec() && self.2 is Some)
    }

    open spec fn all_present(&self) -> bool {
        self.0 is Some && self.1 is Some && self.2 is Some
    }

    open spec fn reads(&self, w: &Tuple3<A, B, C>) -> bool {
        (self.0 is Some ==> self.0->Some_0 == w.0) && (self.1 is Some ==> self.1->Some_0 == w.1) && (self.2 is Some ==> self.2->Some_0 == w.2)
    }
}

impl<'a, A: 'a, B: 'a, C: 'a> SplitFieldsMut<'a> for Tuple3<A, B, C> {
    type SlotsMut = (Option<&'a mut Option<A>>, Option<&'a mut B>, Option<&'a mut C>);

    /// Each slot lends its field: writing through the slots' references is
    /// what writing to the fields does.
    fn split_fields_mut(&'a mut self) -> (r: Self::SlotsMut)
        ensures
            final(self).0 == *final(r.0->Some_0) && final(self).1 == *final(r.1->Some_0) && final(self).2 == *final(r.2->Some_0),
    {
        (Some(&mut self.0), Some(&mut self.1), Some(&mut self.2))
    }
}

impl<A, B, C> SplitFieldsInto for Tuple3<A, B, C> {
    type SlotsInto = (Option<Option<A>>, Option<B>, Option<C>);

    fn split_fields_into(self) -> (r: Self::SlotsInto) {
        (Some(self.0), Some(self.1), Some(self.2))
    }
}

impl<'a, A, B, C> TakeFieldMut<'a, Tuple3<A, B, C>, TStr<Str_0>> for (Option<&'a mut Option<A>>, Option<&'a mut B>, Option<&'a mut C>) where Option<A>: 'a {
    open spec fn slot_name() -> Seq<char> {
        Str_0::name_spec()
    }

    proof fn lemma_slot_path(path: TStr<Str_0>) {
    }

    proof fn lemma_all_present(&self) {
    }

    fn take_field_mut(&mut self, path: TStr<Str_0>) -> (r: Option<&'a mut Option<A>>) {
        proof {
            lemma_tuple_field_names_distinct();
        }
        assert(<Self as TakeFieldMut<'a, Tuple3<A, B, C>, TStr<Str_0>>>::slot_name() == Str_0::name_spec());
        self.0.take()
    }
}

impl<A, B, C> TakeFieldInto<Tuple3<A, B, C>, TStr<Str_0>> for (Option<Option<A>>, Option<B>, Option<C>) {
    open spec fn slot_name() -> Seq<char> {
        Str_0::name_spec()
    }

    proof fn lemma_slot_path(path: TStr<Str_0>) {
    }

    proof fn lemma_all_present(&self) {
    }

    fn take_field_into(&mut self, path: TStr<Str_0>) -> (r: Option<Option<A>>) {
        proof {
            lemma_tuple_field_names_distinct();
        }
        assert(<Self as TakeFieldInto<Tuple3<A, B, C>, TStr<Str_0>>>::slot_name() == Str_0::name_spec());
        self.0.take()
    }
}

impl<'a, A, B, C> TakeFieldMut<'a, Tuple3<A, B, C>, TStr<Str_1>> for (Option<&'a mut Option<A>>, Option<&'a mut B>, Option<&'a mut C>) where B: 'a {
    open spec fn slot_name() -> Seq<char> {
        Str_1::name_spec()
    }

    proof fn lemma_slot_path(path: TStr<Str_1>) {
    }

    proof fn lemma_all_present(&self) {
    }

    fn take_field_mut(&mut self, path: TStr<Str_1>) -> (r: Option<&'a mut B>) {
        proof {
            lemma_tuple_field_names_distinct();
        }
        assert(<Self as TakeFieldMut<'a, Tuple3<A, B, C>, TStr<Str_1>>>::slot_name() == Str_1::name_spec());
        self.1.take()
    }
}

impl<A, B, C> TakeFieldInto<Tuple3<A, B, C>, TStr<Str_1>> for (Option<Option<A>>, Option<B>, Option<C>) {
    open spec fn slot_name() -> Seq<char> {
        Str_1::name_spec()
    }

    proof fn lemma_slot_path(path: TStr<Str_1>) {
    }

    proof fn lemma_all_present(&self) {
    }

    fn take_field_into(&mut self, path: TStr<Str_1>) -> (r: Option<B>) {
        proof {
            lemma_tuple_field_names_distinct();
        }
        assert(<Self as TakeFieldInto<Tuple3<A, B, C>, TStr<Str_1>>>::slot_name() == Str_1::name_spec());
        self.1.take()
    }
}

impl<'a, A, B, C> TakeFieldMut<'a, Tuple3<A, B, C>, TStr<Str_2>> for (Option<&'a mut Option<A>>, Option<&'a mut B>, Option<&'a mut C>) where C: 'a {
    open spec fn slot_name() -> Seq<char> {
        Str_2::name_spec()
    }

    proof fn lemma_slot_path(path: TStr<Str_2>) {
    }

    proof fn lemma_all_present(&self) {
    }

    fn take_field_mut(&mut self, path: TStr<Str_2>) -> (r: Option<&'a mut C>) {
        proof {
            lemma_tuple_field_names_distinct();
        }
        assert(<Self as TakeFieldMut<'a, Tuple3<A, B, C>, TStr<Str_2>>>::slot_name() == Str_2::name_spec());
        self.2.take()
    }
}

impl<A, B, C> TakeFieldInto<Tuple3<A, B, C>, TStr<Str_2>> for (Option<Option<A>>, Option<B>, Option<C>) {
    open spec fn slot_name() -> Seq<char> {
        Str_2::name_spec()
    }

    proof fn lemma_slot_path(path: TStr<Str_2>) {
    }

    proof fn lemma_all_present(&self) {
    }

    fn take_field_into(&mut self, path: TStr<Str_2>) -> (r: Option<C>) {
        proof {
            lemma_tuple_field_names_distinct();
        }
        assert(<Self as TakeFieldInto<Tuple3<A, B, C>, TStr<Str_2>>>::slot_name() == Str_2::name_spec());
        self.2.take()
    }
}

impl<'a, A, B, C, D> FieldSlots<Tuple4<A, B, C, D>> for (Option<&'a mut Option<A>>, Option<&'a mut B>, Option<&'a mut C>, Option<&'a mut D>) {
    open spec fn present(&self, name: Seq<char>) -> bool {
        (name == Str_0::name_spec() && self.0 is Some) || (name == Str_1::name_spec() && self.1 is Some) || (name == Str_2::name_spec() && self.2 is Some) || (name == Str_3::name_spec() && self.3 is Some)
    }

    open spec fn all_present(&self) -> bool {
        self.0 is Some && self.1 is Some && self.2 is Some && self.3 is Some
    }

    open spec fn reads(&self, w: &Tuple4<A, B, C, D>) -> bool {
        (self.0 is Some ==> *self.0->Some_0 == w.0) && (self.1 is Some ==> *self.1->Some_0 == w.1) && (self.2 is Some ==> *self.2->Some_0 == w.2) && (self.3 is Some ==> *self.3->Some_0 == w.3)
    }
}

impl<A, B, C, D> FieldSlots<Tuple4<A, B, C, D>> for (Option<Option<A>>, Option<B>, Option<C>, Option<D>) {
    open spec fn present(&self, name: Seq<char>) -> bool {
        (name == Str_0::name_spec() && self.0 is Some) || (name == Str_1::name_spec() && self.1 is Some) || (name == Str_2::name_spec() && self.2 is Some) || (name == Str_3::name_spec() && self.3 is Some)
    }

    open spec fn all_present(&self) -> bool {
        self.0 is Some && self.1 is Some && self.2 is Some && self.3 is Some
    }

    open spec fn reads(&self, w: &Tuple4<A, B, C, D>) -> bool {
        (self.0 is Some ==> self.0->Some_0 == w.0) && (self.1 is Some ==> self.1->Some_0 == w.1) && (self.2 is Some ==> self.2->Some_0 == w.2) && (self.3 is Some ==> self.3->Some_0 == w.3)
    }
}

impl<'a, A: 'a, B: 'a, C: 'a, D: 'a> SplitFieldsMut<'a> for Tuple4<A, B, C, D> {
    type SlotsMut = (Option<&'a mut Option<A>>, Option<&'a mut B>, Option<&'a mut C>, Option<&'a mut D>);

    /// Each slot lends its field: writing through the slots' references is
    /// what writing to the fields does.
    fn split_fields_mut(&'a mut self) -> (r: Self::SlotsMut)
        ensures
            final(self).0 == *final(r.0->Some_0) && final(self).1 == *final(r.1->Some_0) && final(self).2 == *final(r.2->Some_0) && final(self).3 == *final(r.3->Some_0),
    {
        (Some(&mut self.0), Some(&mut self.1), Some(&mut self.2), Some(&mut self.3))
    }
}

impl<A, B, C, D> SplitFieldsInto for Tuple4<A, B, C, D> {
    type SlotsInto = (Option<Option<A>>, Option<B>, Option<C>, Option<D>);

    fn split_fields_into(self) -> (r: Self::SlotsInto) {
        (Some(self.0), Some(self.1), Some(self.2), Some(self.3))
    }
}

impl<'a, A, B, C, D> TakeFieldMut<'a, Tuple4<A, B, C, D>, TStr<Str_0>> for (Option<&'a mut Option<A>>, Option<&'a mut B>, Option<&'a mut C>, Option<&'a mut D>) where Option<A>: 'a {
    open spec fn slot_name() -> Seq<char> {
        Str_0::name_spec()
    }

    proof fn lemma_slot_path(path: TStr<Str_0>) {
    }

    proof fn lemma_all_present(&self) {
    }

    fn take_field_mut(&mut self, path: TStr<Str_0>) -> (r: Option<&'a mut Option<A>>) {
        proof {
            lemma_tuple_field_names_distinct();
        }
        assert(<Self as TakeFieldMut<'a, Tuple4<A, B, C, D>, TStr<Str_0>>>::slot_name() == Str_0::name_spec());
        self.0.take()
    }
}

impl<A, B, C, D> TakeFieldInto<Tuple4<A, B, C, D>, TStr<Str_0>> for (Option<Option<A>>, Option<B>, Option<C>, Option<D>) {
    open spec fn slot_name() -> Seq<char> {
        Str_0::name_spec()
    }

    proof fn lemma_slot_path(path: TStr<Str_0>) {
    }

    proof fn lemma_all_present(&self) {
    }

    fn take_field_into(&mut self, path: TStr<Str_0>) -> (r: Option<Option<A>>) {
        proof {
            lemma_tuple_field_names_distinct();
        }
        assert(<Self as TakeFieldInto<Tuple4<A, B, C, D>, TStr<Str_0>>>::slot_name() == Str_0::name_spec());
        self.0.take()
    }
}

impl<'a, A, B, C, D> TakeFieldMut<'a, Tuple4<A, B, C, D>, TStr<Str_1>> for (Option<&'a mut Option<A>>, Option<&'a mut B>, Option<&'a mut C>, Option<&'a mut D>) where B: 'a {
    open spec fn slot_name() -> Seq<char> {
        Str_1::name_spec()
    }

    proof fn lemma_slot_path(path: TStr<Str_1>) {
    }

    proof fn lemma_all_present(&self) {
    }

    fn take_field_mut(&mut self, path: TStr<Str_1>) -> (r: Option<&'a mut B>) {
        proof {
            lemma_tuple_field_names_distinct();
        }
        assert(<Self as TakeFieldMut<'a, Tuple4<A, B, C, D>, TStr<Str_1>>>::slot_name() == Str_1::name_spec());
        self.1.take()
    }
}

impl<A, B, C, D> TakeFieldInto<Tuple4<A, B, C, D>, TStr<Str_1>> for (Option<Option<A>>, Option<B>, Option<C>, Option<D>) {
    open spec fn slot_name() -> Seq<char> {
        Str_1::name_spec()
    }

    proof fn lemma_slot_path(path: TStr<Str_1>) {
    }

    proof fn lemma_all_present(&self) {
    }

    fn take_field_into(&mut self, path: TStr<Str_1>) -> (r: Option<B>) {
        proof {
            lemma_tuple_field_names_distinct();
        }
        assert(<Self as TakeFieldInto<Tuple4<A, B, C, D>, TStr<Str_1>>>::slot_name() == Str_1::name_spec());
        self.1.take()
    }
}

impl<'a, A, B, C, D> TakeFieldMut<'a, Tuple4<A, B, C, D>, TStr<Str_2>> for (Option<&'a mut Option<A>>, Option<&'a mut B>, Option<&'a mut C>, Option<&'a mut D>) where C: 'a {
    open spec fn slot_name() -> Seq<char> {
        Str_2::name_spec()
    }

    proof fn lemma_slot_path(path: TStr<Str_2>) {
    }

    proof fn lemma_all_present(&self) {
    }

    fn take_field_mut(&mut self, path: TStr<Str_2>) -> (r: Option<&'a mut C>) {
        proof {
            lemma_tuple_field_names_distinct();
        }
        assert(<Self as TakeFieldMut<'a, Tuple4<A, B, C, D>, TStr<Str_2>>>::slot_name() == Str_2::name_spec());
        self.2.take()
    }
}

impl<A, B, C, D> TakeFieldInto<Tuple4<A, B, C, D>, TStr<Str_2>> for (Option<Option<A>>, Option<B>, Option<C>, Option<D>) {
    open spec fn slot_name() -> Seq<char> {
        Str_2::name_spec()
    }

    proof fn lemma_slot_path(path: TStr<Str_2>) {
    }

    proof fn lemma_all_present(&self) {
    }

    fn take_field_into(&mut self, path: TStr<Str_2>) -> (r: Option<C>) {
        proof {
            lemma_tuple_field_names_distinct();
        }
        assert(<Self as TakeFieldInto<Tuple4<A, B, C, D>, TStr<Str_2>>>::slot_name() == Str_2::name_spec());
        self.2.take()
    }
}

impl<'a, A, B, C, D> TakeFieldMut<'a, Tuple4<A, B, C, D>, TStr<Str_3>> for (Option<&'a mut Option<A>>, Option<&'a mut B>, Option<&'a mut C>, Option<&'a mut D>) where D: 'a {
    open spec fn slot_name() -> Seq<char> {
        Str_3::name_spec()
    }

    proof fn lemma_slot_path(path: TStr<Str_3>) {
    }

    proof fn lemma_all_present(&self) {
    }

    fn take_field_mut(&mut self, path: TStr<Str_3>) -> (r: Option<&'a mut D>) {
        proof {
            lemma_tuple_field_names_distinct();
        }
        assert(<Self as TakeFieldMut<'a, Tuple4<A, B, C, D>, TStr<Str_3>>>::slot_name() == Str_3::name_spec());
        self.3.take()
    }
}

impl<A, B, C, D> TakeFieldInto<Tuple4<A, B, C, D>, TStr<Str_3>> for (Option<Option<A>>, Option<B>, Option<C>, Option<D>) {
    open spec fn slot_name() -> Seq<char> {
        Str_3::name_spec()
    }

    proof fn lemma_slot_path(path: TStr<Str_3>) {
    }

    proof fn lemma_all_present(&self) {
    }

    fn take_field_into(&mut self, path: TStr<Str_3>) -> (r: Option<D>) {
        proof {
            lemma_tuple_field_names_distinct();
        }
        assert(<Self as TakeFieldInto<Tuple4<A, B, C, D>, TStr<Str_3>>>::slot_name() == Str_3::name_spec());
        self.3.take()
    }
}

impl<T: FieldType<P>, P> FieldType<P> for Delegating<T> {
    type Ty = T::Ty;
}

impl<T: GetFieldImpl<P>, P> GetFieldImpl<P> for Delegating<T> {
    type Error = T::Error;

    open spec fn get_field_spec(&self) -> Result<&T::Ty, T::Error> {
        self.inner().get_field_spec()
    }

    fn get_field_(&self, path: P) -> (r: Result<&T::Ty, T::Error>) {
        self.bar.get_field_(path)
    }
}

impl<T: GetFieldMutImpl<P>, P> GetFieldMutImpl<P> for Delegating<T> {
    open spec fn field_updated(old: &Self, new: &Self, v: T::Ty) -> bool {
        T::field_updated(&old.inner(), &new.inner(), v)
    }

    open spec fn unchanged(old: &Self, new: &Self) -> bool {
        T::unchanged(&old.inner(), &new.inner())
    }

    proof fn lemma_read_after_write(old: &Self, new: &Self, v: T::Ty) {
        T::lemma_read_after_write(&old.inner(), &new.inner(), v);
    }

    proof fn lemma_unchanged_reads_same(old: &Self, new: &Self) {
        T::lemma_unchanged_reads_same(&old.inner(), &new.inner());
    }

    fn get_field_mut_(&mut self, path: P) -> (r: Result<&mut T::Ty, T::Error>) {
        self.bar.get_field_mut_(path)
    }
}

impl<T: IntoFieldImpl<P>, P> IntoFieldImpl<P> for Delegating<T> {
    fn into_field_(self, path: P) -> (r: Result<T::Ty, T::Error>) {
        self.bar.into_field_(path)
    }
}

} // verus!
