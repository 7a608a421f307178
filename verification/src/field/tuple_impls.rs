//! Field accessors for tuples: the field `N` of a tuple is its element at
//! index `N`, and always exists.
use crate::field::errors::InfallibleAccess;
use crate::field::{FieldType, GetFieldImpl, GetFieldMutImpl, IntoFieldImpl};
use crate::field_path::names::{
    Str_0, Str_1, Str_10, Str_11, Str_2, Str_3, Str_4, Str_5, Str_6, Str_7, Str_8, Str_9,
};
use crate::field_path::TStr;
use vstd::prelude::*;

verus! {

// Tuples of 1 element.

impl<C0> FieldType<TStr<Str_0>> for (C0,) {
    type Ty = C0;
}

impl<C0> GetFieldImpl<TStr<Str_0>> for (C0,) {
    type Error = InfallibleAccess;

    open spec fn get_field_spec(&self) -> Result<&C0, InfallibleAccess> {
        Ok(&self.0)
    }

    fn get_field_(&self, path: TStr<Str_0>) -> (r: Result<&C0, InfallibleAccess>) {
        Ok(&self.0)
    }
}

impl<C0> GetFieldMutImpl<TStr<Str_0>> for (C0,) {
    open spec fn field_updated(old: &Self, new: &Self, v: C0) -> bool {
        *new == (v,)
    }

    open spec fn unchanged(old: &Self, new: &Self) -> bool {
        *new == *old
    }

    proof fn lemma_read_after_write(old: &Self, new: &Self, v: C0) {
    }

    proof fn lemma_unchanged_reads_same(old: &Self, new: &Self) {
    }

    fn get_field_mut_(&mut self, path: TStr<Str_0>) -> (r: Result<&mut C0, InfallibleAccess>) {
        Ok(&mut self.0)
    }
}

impl<C0> IntoFieldImpl<TStr<Str_0>> for (C0,) {
    fn into_field_(self, path: TStr<Str_0>) -> (r: Result<C0, InfallibleAccess>) {
        Ok(self.0)
    }
}

// Tuples of 2 elements.

impl<C0, C1> FieldType<TStr<Str_0>> for (C0, C1) {
    type Ty = C0;
}

impl<C0, C1> GetFieldImpl<TStr<Str_0>> for (C0, C1) {
    type Error = InfallibleAccess;

    open spec fn get_field_spec(&self) -> Result<&C0, InfallibleAccess> {
        Ok(&self.0)
    }

    fn get_field_(&self, path: TStr<Str_0>) -> (r: Result<&C0, InfallibleAccess>) {
        Ok(&self.0)
    }
}

impl<C0, C1> GetFieldMutImpl<TStr<Str_0>> for (C0, C1) {
    open spec fn field_updated(old: &Self, new: &Self, v: C0) -> bool {
        *new == (v, old.1)
    }

    open spec fn unchanged(old: &Self, new: &Self) -> bool {
        *new == *old
    }

    proof fn lemma_read_after_write(old: &Self, new: &Self, v: C0) {
    }

    proof fn lemma_unchanged_reads_same(old: &Self, new: &Self) {
    }

    fn get_field_mut_(&mut self, path: TStr<Str_0>) -> (r: Result<&mut C0, InfallibleAccess>) {
        Ok(&mut self.0)
    }
}

impl<C0, C1> IntoFieldImpl<TStr<Str_0>> for (C0, C1) {
    fn into_field_(self, path: TStr<Str_0>) -> (r: Result<C0, InfallibleAccess>) {
        Ok(self.0)
    }
}

impl<C0, C1> FieldType<TStr<Str_1>> for (C0, C1) {
    type Ty = C1;
}

impl<C0, C1> GetFieldImpl<TStr<Str_1>> for (C0, C1) {
    type Error = InfallibleAccess;

    open spec fn get_field_spec(&self) -> Result<&C1, InfallibleAccess> {
        Ok(&self.1)
    }

    fn get_field_(&self, path: TStr<Str_1>) -> (r: Result<&C1, InfallibleAccess>) {
        Ok(&self.1)
    }
}

impl<C0, C1> GetFieldMutImpl<TStr<Str_1>> for (C0, C1) {
    open spec fn field_updated(old: &Self, new: &Self, v: C1) -> bool {
        *new == (old.0, v)
    }

    open spec fn unchanged(old: &Self, new: &Self) -> bool {
        *new == *old
    }

    proof fn lemma_read_after_write(old: &Self, new: &Self, v: C1) {
    }

    proof fn lemma_unchanged_reads_same(old: &Self, new: &Self) {
    }

    fn get_field_mut_(&mut self, path: TStr<Str_1>) -> (r: Result<&mut C1, InfallibleAccess>) {
        Ok(&mut self.1)
    }
}

impl<C0, C1> IntoFieldImpl<TStr<Str_1>> for (C0, C1) {
    fn into_field_(self, path: TStr<Str_1>) -> (r: Result<C1, InfallibleAccess>) {
        Ok(self.1)
    }
}

// Tuples of 3 elements.

impl<C0, C1, C2> FieldType<TStr<Str_0>> for (C0, C1, C2) {
    type Ty = C0;
}

impl<C0, C1, C2> GetFieldImpl<TStr<Str_0>> for (C0, C1, C2) {
    type Error = InfallibleAccess;

    open spec fn get_field_spec(&self) -> Result<&C0, InfallibleAccess> {
        Ok(&self.0)
    }

    fn get_field_(&self, path: TStr<Str_0>) -> (r: Result<&C0, InfallibleAccess>) {
        Ok(&self.0)
    }
}

impl<C0, C1, C2> GetFieldMutImpl<TStr<Str_0>> for (C0, C1, C2) {
    open spec fn field_updated(old: &Self, new: &Self, v: C0) -> bool {
        *new == (v, old.1, old.2)
    }

    open spec fn unchanged(old: &Self, new: &Self) -> bool {
        *new == *old
    }

    proof fn lemma_read_after_write(old: &Self, new: &Self, v: C0) {
    }

    proof fn lemma_unchanged_reads_same(old: &Self, new: &Self) {
    }

    fn get_field_mut_(&mut self, path: TStr<Str_0>) -> (r: Result<&mut C0, InfallibleAccess>) {
        Ok(&mut self.0)
    }
}

impl<C0, C1, C2> IntoFieldImpl<TStr<Str_0>> for (C0, C1, C2) {
    fn into_field_(self, path: TStr<Str_0>) -> (r: Result<C0, InfallibleAccess>) {
        Ok(self.0)
    }
}

impl<C0, C1, C2> FieldType<TStr<Str_1>> for (C0, C1, C2) {
    type Ty = C1;
}

impl<C0, C1, C2> GetFieldImpl<TStr<Str_1>> for (C0, C1, C2) {
    type Error = InfallibleAccess;

    open spec fn get_field_spec(&self) -> Result<&C1, InfallibleAccess> {
        Ok(&self.1)
    }

    fn get_field_(&self, path: TStr<Str_1>) -> (r: Result<&C1, InfallibleAccess>) {
        Ok(&self.1)
    }
}

impl<C0, C1, C2> GetFieldMutImpl<TStr<Str_1>> for (C0, C1, C2) {
    open spec fn field_updated(old: &Self, new: &Self, v: C1) -> bool {
        *new == (old.0, v, old.2)
    }

    open spec fn unchanged(old: &Self, new: &Self) -> bool {
        *new == *old
    }

    proof fn lemma_read_after_write(old: &Self, new: &Self, v: C1) {
    }

    proof fn lemma_unchanged_reads_same(old: &Self, new: &Self) {
    }

    fn get_field_mut_(&mut self, path: TStr<Str_1>) -> (r: Result<&mut C1, InfallibleAccess>) {
        Ok(&mut self.1)
    }
}

impl<C0, C1, C2> IntoFieldImpl<TStr<Str_1>> for (C0, C1, C2) {
    fn into_field_(self, path: TStr<Str_1>) -> (r: Result<C1, InfallibleAccess>) {
        Ok(self.1)
    }
}

impl<C0, C1, C2> FieldType<TStr<Str_2>> for (C0, C1, C2) {
    type Ty = C2;
}

impl<C0, C1, C2> GetFieldImpl<TStr<Str_2>> for (C0, C1, C2) {
    type Error = InfallibleAccess;

    open spec fn get_field_spec(&self) -> Result<&C2, InfallibleAccess> {
        Ok(&self.2)
    }

    fn get_field_(&self, path: TStr<Str_2>) -> (r: Result<&C2, InfallibleAccess>) {
        Ok(&self.2)
    }
}

impl<C0, C1, C2> GetFieldMutImpl<TStr<Str_2>> for (C0, C1, C2) {
    open spec fn field_updated(old: &Self, new: &Self, v: C2) -> bool {
        *new == (old.0, old.1, v)
    }

    open spec fn unchanged(old: &Self, new: &Self) -> bool {
        *new == *old
    }

    proof fn lemma_read_after_write(old: &Self, new: &Self, v: C2) {
    }

    proof fn lemma_unchanged_reads_same(old: &Self, new: &Self) {
    }

    fn get_field_mut_(&mut self, path: TStr<Str_2>) -> (r: Result<&mut C2, InfallibleAccess>) {
        Ok(&mut self.2)
    }
}

impl<C0, C1, C2> IntoFieldImpl<TStr<Str_2>> for (C0, C1, C2) {
    fn into_field_(self, path: TStr<Str_2>) -> (r: Result<C2, InfallibleAccess>) {
        Ok(self.2)
    }
}

// Tuples of 4 elements.

impl<C0, C1, C2, C3> FieldType<TStr<Str_0>> for (C0, C1, C2, C3) {
    type Ty = C0;
}

impl<C0, C1, C2, C3> GetFieldImpl<TStr<Str_0>> for (C0, C1, C2, C3) {
    type Error = InfallibleAccess;

    open spec fn get_field_spec(&self) -> Result<&C0, InfallibleAccess> {
        Ok(&self.0)
    }

    fn get_field_(&self, path: TStr<Str_0>) -> (r: Result<&C0, InfallibleAccess>) {
        Ok(&self.0)
    }
}

impl<C0, C1, C2, C3> GetFieldMutImpl<TStr<Str_0>> for (C0, C1, C2, C3) {
    open spec fn field_updated(old: &Self, new: &Self, v: C0) -> bool {
        *new == (v, old.1, old.2, old.3)
    }

    open spec fn unchanged(old: &Self, new: &Self) -> bool {
        *new == *old
    }

    proof fn lemma_read_after_write(old: &Self, new: &Self, v: C0) {
    }

    proof fn lemma_unchanged_reads_same(old: &Self, new: &Self) {
    }

    fn get_field_mut_(&mut self, path: TStr<Str_0>) -> (r: Result<&mut C0, InfallibleAccess>) {
        Ok(&mut self.0)
    }
}

impl<C0, C1, C2, C3> IntoFieldImpl<TStr<Str_0>> for (C0, C1, C2, C3) {
    fn into_field_(self, path: TStr<Str_0>) -> (r: Result<C0, InfallibleAccess>) {
        Ok(self.0)
    }
}

impl<C0, C1, C2, C3> FieldType<TStr<Str_1>> for (C0, C1, C2, C3) {
    type Ty = C1;
}

impl<C0, C1, C2, C3> GetFieldImpl<TStr<Str_1>> for (C0, C1, C2, C3) {
    type Error = InfallibleAccess;

    open spec fn get_field_spec(&self) -> Result<&C1, InfallibleAccess> {
        Ok(&self.1)
    }

    fn get_field_(&self, path: TStr<Str_1>) -> (r: Result<&C1, InfallibleAccess>) {
        Ok(&self.1)
    }
}

impl<C0, C1, C2, C3> GetFieldMutImpl<TStr<Str_1>> for (C0, C1, C2, C3) {
    open spec fn field_updated(old: &Self, new: &Self, v: C1) -> bool {
        *new == (old.0, v, old.2, old.3)
    }

    open spec fn unchanged(old: &Self, new: &Self) -> bool {
        *new == *old
    }

    proof fn lemma_read_after_write(old: &Self, new: &Self, v: C1) {
    }

    proof fn lemma_unchanged_reads_same(old: &Self, new: &Self) {
    }

    fn get_field_mut_(&mut self, path: TStr<Str_1>) -> (r: Result<&mut C1, InfallibleAccess>) {
        Ok(&mut self.1)
    }
}

impl<C0, C1, C2, C3> IntoFieldImpl<TStr<Str_1>> for (C0, C1, C2, C3) {
    fn into_field_(self, path: TStr<Str_1>) -> (r: Result<C1, InfallibleAccess>) {
        Ok(self.1)
    }
}

impl<C0, C1, C2, C3> FieldType<TStr<Str_2>> for (C0, C1, C2, C3) {
    type Ty = C2;
}

impl<C0, C1, C2, C3> GetFieldImpl<TStr<Str_2>> for (C0, C1, C2, C3) {
    type Error = InfallibleAccess;

    open spec fn get_field_spec(&self) -> Result<&C2, InfallibleAccess> {
        Ok(&self.2)
    }

    fn get_field_(&self, path: TStr<Str_2>) -> (r: Result<&C2, InfallibleAccess>) {
        Ok(&self.2)
    }
}

impl<C0, C1, C2, C3> GetFieldMutImpl<TStr<Str_2>> for (C0, C1, C2, C3) {
    open spec fn field_updated(old: &Self, new: &Self, v: C2) -> bool {
        *new == (old.0, old.1, v, old.3)
    }

    open spec fn unchanged(old: &Self, new: &Self) -> bool {
        *new == *old
    }

    proof fn lemma_read_after_write(old: &Self, new: &Self, v: C2) {
    }

    proof fn lemma_unchanged_reads_same(old: &Self, new: &Self) {
    }

    fn get_field_mut_(&mut self, path: TStr<Str_2>) -> (r: Result<&mut C2, InfallibleAccess>) {
        Ok(&mut self.2)
    }
}

impl<C0, C1, C2, C3> IntoFieldImpl<TStr<Str_2>> for (C0, C1, C2, C3) {
    fn into_field_(self, path: TStr<Str_2>) -> (r: Result<C2, InfallibleAccess>) {
        Ok(self.2)
    }
}

impl<C0, C1, C2, C3> FieldType<TStr<Str_3>> for (C0, C1, C2, C3) {
    type Ty = C3;
}

impl<C0, C1, C2, C3> GetFieldImpl<TStr<Str_3>> for (C0, C1, C2, C3) {
    type Error = InfallibleAccess;

    open spec fn get_field_spec(&self) -> Result<&C3, InfallibleAccess> {
        Ok(&self.3)
    }

    fn get_field_(&self, path: TStr<Str_3>) -> (r: Result<&C3, InfallibleAccess>) {
        Ok(&self.3)
    }
}

impl<C0, C1, C2, C3> GetFieldMutImpl<TStr<Str_3>> for (C0, C1, C2, C3) {
    open spec fn field_updated(old: &Self, new: &Self, v: C3) -> bool {
        *new == (old.0, old.1, old.2, v)
    }

    open spec fn unchanged(old: &Self, new: &Self) -> bool {
        *new == *old
    }

    proof fn lemma_read_after_write(old: &Self, new: &Self, v: C3) {
    }

    proof fn lemma_unchanged_reads_same(old: &Self, new: &Self) {
    }

    fn get_field_mut_(&mut self, path: TStr<Str_3>) -> (r: Result<&mut C3, InfallibleAccess>) {
        Ok(&mut self.3)
    }
}

impl<C0, C1, C2, C3> IntoFieldImpl<TStr<Str_3>> for (C0, C1, C2, C3) {
    fn into_field_(self, path: TStr<Str_3>) -> (r: Result<C3, InfallibleAccess>) {
        Ok(self.3)
    }
}

// Tuples of 5 elements.

impl<C0, C1, C2, C3, C4> FieldType<TStr<Str_0>> for (C0, C1, C2, C3, C4) {
    type Ty = C0;
}

impl<C0, C1, C2, C3, C4> GetFieldImpl<TStr<Str_0>> for (C0, C1, C2, C3, C4) {
    type Error = InfallibleAccess;

    open spec fn get_field_spec(&self) -> Result<&C0, InfallibleAccess> {
        Ok(&self.0)
    }

    fn get_field_(&self, path: TStr<Str_0>) -> (r: Result<&C0, InfallibleAccess>) {
        Ok(&self.0)
    }
}

impl<C0, C1, C2, C3, C4> GetFieldMutImpl<TStr<Str_0>> for (C0, C1, C2, C3, C4) {
    open spec fn field_updated(old: &Self, new: &Self, v: C0) -> bool {
        *new == (v, old.1, old.2, old.3, old.4)
    }

    open spec fn unchanged(old: &Self, new: &Self) -> bool {
        *new == *old
    }

    proof fn lemma_read_after_write(old: &Self, new: &Self, v: C0) {
    }

    proof fn lemma_unchanged_reads_same(old: &Self, new: &Self) {
    }

    fn get_field_mut_(&mut self, path: TStr<Str_0>) -> (r: Result<&mut C0, InfallibleAccess>) {
        Ok(&mut self.0)
    }
}

impl<C0, C1, C2, C3, C4> IntoFieldImpl<TStr<Str_0>> for (C0, C1, C2, C3, C4) {
    fn into_field_(self, path: TStr<Str_0>) -> (r: Result<C0, InfallibleAccess>) {
        Ok(self.0)
    }
}

impl<C0, C1, C2, C3, C4> FieldType<TStr<Str_1>> for (C0, C1, C2, C3, C4) {
    type Ty = C1;
}

impl<C0, C1, C2, C3, C4> GetFieldImpl<TStr<Str_1>> for (C0, C1, C2, C3, C4) {
    type Error = InfallibleAccess;

    open spec fn get_field_spec(&self) -> Result<&C1, InfallibleAccess> {
        Ok(&self.1)
    }

    fn get_field_(&self, path: TStr<Str_1>) -> (r: Result<&C1, InfallibleAccess>) {
        Ok(&self.1)
    }
}

impl<C0, C1, C2, C3, C4> GetFieldMutImpl<TStr<Str_1>> for (C0, C1, C2, C3, C4) {
    open spec fn field_updated(old: &Self, new: &Self, v: C1) -> bool {
        *new == (old.0, v, old.2, old.3, old.4)
    }

    open spec fn unchanged(old: &Self, new: &Self) -> bool {
        *new == *old
    }

    proof fn lemma_read_after_write(old: &Self, new: &Self, v: C1) {
    }

    proof fn lemma_unchanged_reads_same(old: &Self, new: &Self) {
    }

    fn get_field_mut_(&mut self, path: TStr<Str_1>) -> (r: Result<&mut C1, InfallibleAccess>) {
        Ok(&mut self.1)
    }
}

impl<C0, C1, C2, C3, C4> IntoFieldImpl<TStr<Str_1>> for (C0, C1, C2, C3, C4) {
    fn into_field_(self, path: TStr<Str_1>) -> (r: Result<C1, InfallibleAccess>) {
        Ok(self.1)
    }
}

impl<C0, C1, C2, C3, C4> FieldType<TStr<Str_2>> for (C0, C1, C2, C3, C4) {
    type Ty = C2;
}

impl<C0, C1, C2, C3, C4> GetFieldImpl<TStr<Str_2>> for (C0, C1, C2, C3, C4) {
    type Error = InfallibleAccess;

    open spec fn get_field_spec(&self) -> Result<&C2, InfallibleAccess> {
        Ok(&self.2)
    }

    fn get_field_(&self, path: TStr<Str_2>) -> (r: Result<&C2, InfallibleAccess>) {
        Ok(&self.2)
    }
}

impl<C0, C1, C2, C3, C4> GetFieldMutImpl<TStr<Str_2>> for (C0, C1, C2, C3, C4) {
    open spec fn field_updated(old: &Self, new: &Self, v: C2) -> bool {
        *new == (old.0, old.1, v, old.3, old.4)
    }

    open spec fn unchanged(old: &Self, new: &Self) -> bool {
        *new == *old
    }

    proof fn lemma_read_after_write(old: &Self, new: &Self, v: C2) {
    }

    proof fn lemma_unchanged_reads_same(old: &Self, new: &Self) {
    }

    fn get_field_mut_(&mut self, path: TStr<Str_2>) -> (r: Result<&mut C2, InfallibleAccess>) {
        Ok(&mut self.2)
    }
}

impl<C0, C1, C2, C3, C4> IntoFieldImpl<TStr<Str_2>> for (C0, C1, C2, C3, C4) {
    fn into_field_(self, path: TStr<Str_2>) -> (r: Result<C2, InfallibleAccess>) {
        Ok(self.2)
    }
}

impl<C0, C1, C2, C3, C4> FieldType<TStr<Str_3>> for (C0, C1, C2, C3, C4) {
    type Ty = C3;
}

impl<C0, C1, C2, C3, C4> GetFieldImpl<TStr<Str_3>> for (C0, C1, C2, C3, C4) {
    type Error = InfallibleAccess;

    open spec fn get_field_spec(&self) -> Result<&C3, InfallibleAccess> {
        Ok(&self.3)
    }

    fn get_field_(&self, path: TStr<Str_3>) -> (r: Result<&C3, InfallibleAccess>) {
        Ok(&self.3)
    }
}

impl<C0, C1, C2, C3, C4> GetFieldMutImpl<TStr<Str_3>> for (C0, C1, C2, C3, C4) {
    open spec fn field_updated(old: &Self, new: &Self, v: C3) -> bool {
        *new == (old.0, old.1, old.2, v, old.4)
    }

    open spec fn unchanged(old: &Self, new: &Self) -> bool {
        *new == *old
    }

    proof fn lemma_read_after_write(old: &Self, new: &Self, v: C3) {
    }

    proof fn lemma_unchanged_reads_same(old: &Self, new: &Self) {
    }

    fn get_field_mut_(&mut self, path: TStr<Str_3>) -> (r: Result<&mut C3, InfallibleAccess>) {
        Ok(&mut self.3)
    }
}

impl<C0, C1, C2, C3, C4> IntoFieldImpl<TStr<Str_3>> for (C0, C1, C2, C3, C4) {
    fn into_field_(self, path: TStr<Str_3>) -> (r: Result<C3, InfallibleAccess>) {
        Ok(self.3)
    }
}

impl<C0, C1, C2, C3, C4> FieldType<TStr<Str_4>> for (C0, C1, C2, C3, C4) {
    type Ty = C4;
}

impl<C0, C1, C2, C3, C4> GetFieldImpl<TStr<Str_4>> for (C0, C1, C2, C3, C4) {
    type Error = InfallibleAccess;

    open spec fn get_field_spec(&self) -> Result<&C4, InfallibleAccess> {
        Ok(&self.4)
    }

    fn get_field_(&self, path: TStr<Str_4>) -> (r: Result<&C4, InfallibleAccess>) {
        Ok(&self.4)
    }
}

impl<C0, C1, C2, C3, C4> GetFieldMutImpl<TStr<Str_4>> for (C0, C1, C2, C3, C4) {
    open spec fn field_updated(old: &Self, new: &Self, v: C4) -> bool {
        *new == (old.0, old.1, old.2, old.3, v)
    }

    open spec fn unchanged(old: &Self, new: &Self) -> bool {
        *new == *old
    }

    proof fn lemma_read_after_write(old: &Self, new: &Self, v: C4) {
    }

    proof fn lemma_unchanged_reads_same(old: &Self, new: &Self) {
    }

    fn get_field_mut_(&mut self, path: TStr<Str_4>) -> (r: Result<&mut C4, InfallibleAccess>) {
        Ok(&mut self.4)
    }
}

impl<C0, C1, C2, C3, C4> IntoFieldImpl<TStr<Str_4>> for (C0, C1, C2, C3, C4) {
    fn into_field_(self, path: TStr<Str_4>) -> (r: Result<C4, InfallibleAccess>) {
        Ok(self.4)
    }
}

// Tuples of 6 elements.

impl<C0, C1, C2, C3, C4, C5> FieldType<TStr<Str_0>> for (C0, C1, C2, C3, C4, C5) {
    type Ty = C0;
}

impl<C0, C1, C2, C3, C4, C5> GetFieldImpl<TStr<Str_0>> for (C0, C1, C2, C3, C4, C5) {
    type Error = InfallibleAccess;

    open spec fn get_field_spec(&self) -> Result<&C0, InfallibleAccess> {
        Ok(&self.0)
    }

    fn get_field_(&self, path: TStr<Str_0>) -> (r: Result<&C0, InfallibleAccess>) {
        Ok(&self.0)
    }
}

impl<C0, C1, C2, C3, C4, C5> GetFieldMutImpl<TStr<Str_0>> for (C0, C1, C2, C3, C4, C5) {
    open spec fn field_updated(old: &Self, new: &Self, v: C0) -> bool {
        *new == (v, old.1, old.2, old.3, old.4, old.5)
    }

    open spec fn unchanged(old: &Self, new: &Self) -> bool {
        *new == *old
    }

    proof fn lemma_read_after_write(old: &Self, new: &Self, v: C0) {
    }

    proof fn lemma_unchanged_reads_same(old: &Self, new: &Self) {
    }

    fn get_field_mut_(&mut self, path: TStr<Str_0>) -> (r: Result<&mut C0, InfallibleAccess>) {
        Ok(&mut self.0)
    }
}

impl<C0, C1, C2, C3, C4, C5> IntoFieldImpl<TStr<Str_0>> for (C0, C1, C2, C3, C4, C5) {
    fn into_field_(self, path: TStr<Str_0>) -> (r: Result<C0, InfallibleAccess>) {
        Ok(self.0)
    }
}

impl<C0, C1, C2, C3, C4, C5> FieldType<TStr<Str_1>> for (C0, C1, C2, C3, C4, C5) {
    type Ty = C1;
}

impl<C0, C1, C2, C3, C4, C5> GetFieldImpl<TStr<Str_1>> for (C0, C1, C2, C3, C4, C5) {
    type Error = InfallibleAccess;

    open spec fn get_field_spec(&self) -> Result<&C1, InfallibleAccess> {
        Ok(&self.1)
    }

    fn get_field_(&self, path: TStr<Str_1>) -> (r: Result<&C1, InfallibleAccess>) {
        Ok(&self.1)
    }
}

impl<C0, C1, C2, C3, C4, C5> GetFieldMutImpl<TStr<Str_1>> for (C0, C1, C2, C3, C4, C5) {
    open spec fn field_updated(old: &Self, new: &Self, v: C1) -> bool {
        *new == (old.0, v, old.2, old.3, old.4, old.5)
    }

    open spec fn unchanged(old: &Self, new: &Self) -> bool {
        *new == *old
    }

    proof fn lemma_read_after_write(old: &Self, new: &Self, v: C1) {
    }

    proof fn lemma_unchanged_reads_same(old: &Self, new: &Self) {
    }

    fn get_field_mut_(&mut self, path: TStr<Str_1>) -> (r: Result<&mut C1, InfallibleAccess>) {
        Ok(&mut self.1)
    }
}

impl<C0, C1, C2, C3, C4, C5> IntoFieldImpl<TStr<Str_1>> for (C0, C1, C2, C3, C4, C5) {
    fn into_field_(self, path: TStr<Str_1>) -> (r: Result<C1, InfallibleAccess>) {
        Ok(self.1)
    }
}

impl<C0, C1, C2, C3, C4, C5> FieldType<TStr<Str_2>> for (C0, C1, C2, C3, C4, C5) {
    type Ty = C2;
}

impl<C0, C1, C2, C3, C4, C5> GetFieldImpl<TStr<Str_2>> for (C0, C1, C2, C3, C4, C5) {
    type Error = InfallibleAccess;

    open spec fn get_field_spec(&self) -> Result<&C2, InfallibleAccess> {
        Ok(&self.2)
    }

    fn get_field_(&self, path: TStr<Str_2>) -> (r: Result<&C2, InfallibleAccess>) {
        Ok(&self.2)
    }
}

impl<C0, C1, C2, C3, C4, C5> GetFieldMutImpl<TStr<Str_2>> for (C0, C1, C2, C3, C4, C5) {
    open spec fn field_updated(old: &Self, new: &Self, v: C2) -> bool {
        *new == (old.0, old.1, v, old.3, old.4, old.5)
    }

    open spec fn unchanged(old: &Self, new: &Self) -> bool {
        *new == *old
    }

    proof fn lemma_read_after_write(old: &Self, new: &Self, v: C2) {
    }

    proof fn lemma_unchanged_reads_same(old: &Self, new: &Self) {
    }

    fn get_field_mut_(&mut self, path: TStr<Str_2>) -> (r: Result<&mut C2, InfallibleAccess>) {
        Ok(&mut self.2)
    }
}

impl<C0, C1, C2, C3, C4, C5> IntoFieldImpl<TStr<Str_2>> for (C0, C1, C2, C3, C4, C5) {
    fn into_field_(self, path: TStr<Str_2>) -> (r: Result<C2, InfallibleAccess>) {
        Ok(self.2)
    }
}

impl<C0, C1, C2, C3, C4, C5> FieldType<TStr<Str_3>> for (C0, C1, C2, C3, C4, C5) {
    type Ty = C3;
}

impl<C0, C1, C2, C3, C4, C5> GetFieldImpl<TStr<Str_3>> for (C0, C1, C2, C3, C4, C5) {
    type Error = InfallibleAccess;

    open spec fn get_field_spec(&self) -> Result<&C3, InfallibleAccess> {
        Ok(&self.3)
    }

    fn get_field_(&self, path: TStr<Str_3>) -> (r: Result<&C3, InfallibleAccess>) {
        Ok(&self.3)
    }
}

impl<C0, C1, C2, C3, C4, C5> GetFieldMutImpl<TStr<Str_3>> for (C0, C1, C2, C3, C4, C5) {
    open spec fn field_updated(old: &Self, new: &Self, v: C3) -> bool {
        *new == (old.0, old.1, old.2, v, old.4, old.5)
    }

    open spec fn unchanged(old: &Self, new: &Self) -> bool {
        *new == *old
    }

    proof fn lemma_read_after_write(old: &Self, new: &Self, v: C3) {
    }

    proof fn lemma_unchanged_reads_same(old: &Self, new: &Self) {
    }

    fn get_field_mut_(&mut self, path: TStr<Str_3>) -> (r: Result<&mut C3, InfallibleAccess>) {
        Ok(&mut self.3)
    }
}

impl<C0, C1, C2, C3, C4, C5> IntoFieldImpl<TStr<Str_3>> for (C0, C1, C2, C3, C4, C5) {
    fn into_field_(self, path: TStr<Str_3>) -> (r: Result<C3, InfallibleAccess>) {
        Ok(self.3)
    }
}

impl<C0, C1, C2, C3, C4, C5> FieldType<TStr<Str_4>> for (C0, C1, C2, C3, C4, C5) {
    type Ty = C4;
}

impl<C0, C1, C2, C3, C4, C5> GetFieldImpl<TStr<Str_4>> for (C0, C1, C2, C3, C4, C5) {
    type Error = InfallibleAccess;

    open spec fn get_field_spec(&self) -> Result<&C4, InfallibleAccess> {
        Ok(&self.4)
    }

    fn get_field_(&self, path: TStr<Str_4>) -> (r: Result<&C4, InfallibleAccess>) {
        Ok(&self.4)
    }
}

impl<C0, C1, C2, C3, C4, C5> GetFieldMutImpl<TStr<Str_4>> for (C0, C1, C2, C3, C4, C5) {
    open spec fn field_updated(old: &Self, new: &Self, v: C4) -> bool {
        *new == (old.0, old.1, old.2, old.3, v, old.5)
    }

    open spec fn unchanged(old: &Self, new: &Self) -> bool {
        *new == *old
    }

    proof fn lemma_read_after_write(old: &Self, new: &Self, v: C4) {
    }

    proof fn lemma_unchanged_reads_same(old: &Self, new: &Self) {
    }

    fn get_field_mut_(&mut self, path: TStr<Str_4>) -> (r: Result<&mut C4, InfallibleAccess>) {
        Ok(&mut self.4)
    }
}

impl<C0, C1, C2, C3, C4, C5> IntoFieldImpl<TStr<Str_4>> for (C0, C1, C2, C3, C4, C5) {
    fn into_field_(self, path: TStr<Str_4>) -> (r: Result<C4, InfallibleAccess>) {
        Ok(self.4)
    }
}

impl<C0, C1, C2, C3, C4, C5> FieldType<TStr<Str_5>> for (C0, C1, C2, C3, C4, C5) {
    type Ty = C5;
}

impl<C0, C1, C2, C3, C4, C5> GetFieldImpl<TStr<Str_5>> for (C0, C1, C2, C3, C4, C5) {
    type Error = InfallibleAccess;

    open spec fn get_field_spec(&self) -> Result<&C5, InfallibleAccess> {
        Ok(&self.5)
    }

    fn get_field_(&self, path: TStr<Str_5>) -> (r: Result<&C5, InfallibleAccess>) {
        Ok(&self.5)
    }
}

impl<C0, C1, C2, C3, C4, C5> GetFieldMutImpl<TStr<Str_5>> for (C0, C1, C2, C3, C4, C5) {
    open spec fn field_updated(old: &Self, new: &Self, v: C5) -> bool {
        *new == (old.0, old.1, old.2, old.3, old.4, v)
    }

    open spec fn unchanged(old: &Self, new: &Self) -> bool {
        *new == *old
    }

    proof fn lemma_read_after_write(old: &Self, new: &Self, v: C5) {
    }

    proof fn lemma_unchanged_reads_same(old: &Self, new: &Self) {
    }

    fn get_field_mut_(&mut self, path: TStr<Str_5>) -> (r: Result<&mut C5, InfallibleAccess>) {
        Ok(&mut self.5)
    }
}

impl<C0, C1, C2, C3, C4, C5> IntoFieldImpl<TStr<Str_5>> for (C0, C1, C2, C3, C4, C5) {
    fn into_field_(self, path: TStr<Str_5>) -> (r: Result<C5, InfallibleAccess>) {
        Ok(self.5)
    }
}

// Tuples of 7 elements.

impl<C0, C1, C2, C3, C4, C5, C6> FieldType<TStr<Str_0>> for (C0, C1, C2, C3, C4, C5, C6) {
    type Ty = C0;
}

impl<C0, C1, C2, C3, C4, C5, C6> GetFieldImpl<TStr<Str_0>> for (C0, C1, C2, C3, C4, C5, C6) {
    type Error = InfallibleAccess;

    open spec fn get_field_spec(&self) -> Result<&C0, InfallibleAccess> {
        Ok(&self.0)
    }

    fn get_field_(&self, path: TStr<Str_0>) -> (r: Result<&C0, InfallibleAccess>) {
        Ok(&self.0)
    }
}

impl<C0, C1, C2, C3, C4, C5, C6> GetFieldMutImpl<TStr<Str_0>> for (C0, C1, C2, C3, C4, C5, C6) {
    open spec fn field_updated(old: &Self, new: &Self, v: C0) -> bool {
        *new == (v, old.1, old.2, old.3, old.4, old.5, old.6)
    }

    open spec fn unchanged(old: &Self, new: &Self) -> bool {
        *new == *old
    }

    proof fn lemma_read_after_write(old: &Self, new: &Self, v: C0) {
    }

    proof fn lemma_unchanged_reads_same(old: &Self, new: &Self) {
    }

    fn get_field_mut_(&mut self, path: TStr<Str_0>) -> (r: Result<&mut C0, InfallibleAccess>) {
        Ok(&mut self.0)
    }
}

impl<C0, C1, C2, C3, C4, C5, C6> IntoFieldImpl<TStr<Str_0>> for (C0, C1, C2, C3, C4, C5, C6) {
    fn into_field_(self, path: TStr<Str_0>) -> (r: Result<C0, InfallibleAccess>) {
        Ok(self.0)
    }
}

impl<C0, C1, C2, C3, C4, C5, C6> FieldType<TStr<Str_1>> for (C0, C1, C2, C3, C4, C5, C6) {
    type Ty = C1;
}

impl<C0, C1, C2, C3, C4, C5, C6> GetFieldImpl<TStr<Str_1>> for (C0, C1, C2, C3, C4, C5, C6) {
    type Error = InfallibleAccess;

    open spec fn get_field_spec(&self) -> Result<&C1, InfallibleAccess> {
        Ok(&self.1)
    }

    fn get_field_(&self, path: TStr<Str_1>) -> (r: Result<&C1, InfallibleAccess>) {
        Ok(&self.1)
    }
}

impl<C0, C1, C2, C3, C4, C5, C6> GetFieldMutImpl<TStr<Str_1>> for (C0, C1, C2, C3, C4, C5, C6) {
    open spec fn field_updated(old: &Self, new: &Self, v: C1) -> bool {
        *new == (old.0, v, old.2, old.3, old.4, old.5, old.6)
    }

    open spec fn unchanged(old: &Self, new: &Self) -> bool {
        *new == *old
    }

    proof fn lemma_read_after_write(old: &Self, new: &Self, v: C1) {
    }

    proof fn lemma_unchanged_reads_same(old: &Self, new: &Self) {
    }

    fn get_field_mut_(&mut self, path: TStr<Str_1>) -> (r: Result<&mut C1, InfallibleAccess>) {
        Ok(&mut self.1)
    }
}

impl<C0, C1, C2, C3, C4, C5, C6> IntoFieldImpl<TStr<Str_1>> for (C0, C1, C2, C3, C4, C5, C6) {
    fn into_field_(self, path: TStr<Str_1>) -> (r: Result<C1, InfallibleAccess>) {
        Ok(self.1)
    }
}

impl<C0, C1, C2, C3, C4, C5, C6> FieldType<TStr<Str_2>> for (C0, C1, C2, C3, C4, C5, C6) {
    type Ty = C2;
}

impl<C0, C1, C2, C3, C4, C5, C6> GetFieldImpl<TStr<Str_2>> for (C0, C1, C2, C3, C4, C5, C6) {
    type Error = InfallibleAccess;

    open spec fn get_field_spec(&self) -> Result<&C2, InfallibleAccess> {
        Ok(&self.2)
    }

    fn get_field_(&self, path: TStr<Str_2>) -> (r: Result<&C2, InfallibleAccess>) {
        Ok(&self.2)
    }
}

impl<C0, C1, C2, C3, C4, C5, C6> GetFieldMutImpl<TStr<Str_2>> for (C0, C1, C2, C3, C4, C5, C6) {
    open spec fn field_updated(old: &Self, new: &Self, v: C2) -> bool {
        *new == (old.0, old.1, v, old.3, old.4, old.5, old.6)
    }

    open spec fn unchanged(old: &Self, new: &Self) -> bool {
        *new == *old
    }

    proof fn lemma_read_after_write(old: &Self, new: &Self, v: C2) {
    }

    proof fn lemma_unchanged_reads_same(old: &Self, new: &Self) {
    }

    fn get_field_mut_(&mut self, path: TStr<Str_2>) -> (r: Result<&mut C2, InfallibleAccess>) {
        Ok(&mut self.2)
    }
}

impl<C0, C1, C2, C3, C4, C5, C6> IntoFieldImpl<TStr<Str_2>> for (C0, C1, C2, C3, C4, C5, C6) {
    fn into_field_(self, path: TStr<Str_2>) -> (r: Result<C2, InfallibleAccess>) {
        Ok(self.2)
    }
}

impl<C0, C1, C2, C3, C4, C5, C6> FieldType<TStr<Str_3>> for (C0, C1, C2, C3, C4, C5, C6) {
    type Ty = C3;
}

impl<C0, C1, C2, C3, C4, C5, C6> GetFieldImpl<TStr<Str_3>> for (C0, C1, C2, C3, C4, C5, C6) {
    type Error = InfallibleAccess;

    open spec fn get_field_spec(&self) -> Result<&C3, InfallibleAccess> {
        Ok(&self.3)
    }

    fn get_field_(&self, path: TStr<Str_3>) -> (r: Result<&C3, InfallibleAccess>) {
        Ok(&self.3)
    }
}

impl<C0, C1, C2, C3, C4, C5, C6> GetFieldMutImpl<TStr<Str_3>> for (C0, C1, C2, C3, C4, C5, C6) {
    open spec fn field_updated(old: &Self, new: &Self, v: C3) -> bool {
        *new == (old.0, old.1, old.2, v, old.4, old.5, old.6)
    }

    open spec fn unchanged(old: &Self, new: &Self) -> bool {
        *new == *old
    }

    proof fn lemma_read_after_write(old: &Self, new: &Self, v: C3) {
    }

    proof fn lemma_unchanged_reads_same(old: &Self, new: &Self) {
    }

    fn get_field_mut_(&mut self, path: TStr<Str_3>) -> (r: Result<&mut C3, InfallibleAccess>) {
        Ok(&mut self.3)
    }
}

impl<C0, C1, C2, C3, C4, C5, C6> IntoFieldImpl<TStr<Str_3>> for (C0, C1, C2, C3, C4, C5, C6) {
    fn into_field_(self, path: TStr<Str_3>) -> (r: Result<C3, InfallibleAccess>) {
        Ok(self.3)
    }
}

impl<C0, C1, C2, C3, C4, C5, C6> FieldType<TStr<Str_4>> for (C0, C1, C2, C3, C4, C5, C6) {
    type Ty = C4;
}

impl<C0, C1, C2, C3, C4, C5, C6> GetFieldImpl<TStr<Str_4>> for (C0, C1, C2, C3, C4, C5, C6) {
    type Error = InfallibleAccess;

    open spec fn get_field_spec(&self) -> Result<&C4, InfallibleAccess> {
        Ok(&self.4)
    }

    fn get_field_(&self, path: TStr<Str_4>) -> (r: Result<&C4, InfallibleAccess>) {
        Ok(&self.4)
    }
}

impl<C0, C1, C2, C3, C4, C5, C6> GetFieldMutImpl<TStr<Str_4>> for (C0, C1, C2, C3, C4, C5, C6) {
    open spec fn field_updated(old: &Self, new: &Self, v: C4) -> bool {
        *new == (old.0, old.1, old.2, old.3, v, old.5, old.6)
    }

    open spec fn unchanged(old: &Self, new: &Self) -> bool {
        *new == *old
    }

    proof fn lemma_read_after_write(old: &Self, new: &Self, v: C4) {
    }

    proof fn lemma_unchanged_reads_same(old: &Self, new: &Self) {
    }

    fn get_field_mut_(&mut self, path: TStr<Str_4>) -> (r: Result<&mut C4, InfallibleAccess>) {
        Ok(&mut self.4)
    }
}

impl<C0, C1, C2, C3, C4, C5, C6> IntoFieldImpl<TStr<Str_4>> for (C0, C1, C2, C3, C4, C5, C6) {
    fn into_field_(self, path: TStr<Str_4>) -> (r: Result<C4, InfallibleAccess>) {
        Ok(self.4)
    }
}

impl<C0, C1, C2, C3, C4, C5, C6> FieldType<TStr<Str_5>> for (C0, C1, C2, C3, C4, C5, C6) {
    type Ty = C5;
}

impl<C0, C1, C2, C3, C4, C5, C6> GetFieldImpl<TStr<Str_5>> for (C0, C1, C2, C3, C4, C5, C6) {
    type Error = InfallibleAccess;

    open spec fn get_field_spec(&self) -> Result<&C5, InfallibleAccess> {
        Ok(&self.5)
    }

    fn get_field_(&self, path: TStr<Str_5>) -> (r: Result<&C5, InfallibleAccess>) {
        Ok(&self.5)
    }
}

impl<C0, C1, C2, C3, C4, C5, C6> GetFieldMutImpl<TStr<Str_5>> for (C0, C1, C2, C3, C4, C5, C6) {
    open spec fn field_updated(old: &Self, new: &Self, v: C5) -> bool {
        *new == (old.0, old.1, old.2, old.3, old.4, v, old.6)
    }

    open spec fn unchanged(old: &Self, new: &Self) -> bool {
        *new == *old
    }

    proof fn lemma_read_after_write(old: &Self, new: &Self, v: C5) {
    }

    proof fn lemma_unchanged_reads_same(old: &Self, new: &Self) {
    }

    fn get_field_mut_(&mut self, path: TStr<Str_5>) -> (r: Result<&mut C5, InfallibleAccess>) {
        Ok(&mut self.5)
    }
}

impl<C0, C1, C2, C3, C4, C5, C6> IntoFieldImpl<TStr<Str_5>> for (C0, C1, C2, C3, C4, C5, C6) {
    fn into_field_(self, path: TStr<Str_5>) -> (r: Result<C5, InfallibleAccess>) {
        Ok(self.5)
    }
}

impl<C0, C1, C2, C3, C4, C5, C6> FieldType<TStr<Str_6>> for (C0, C1, C2, C3, C4, C5, C6) {
    type Ty = C6;
}

impl<C0, C1, C2, C3, C4, C5, C6> GetFieldImpl<TStr<Str_6>> for (C0, C1, C2, C3, C4, C5, C6) {
    type Error = InfallibleAccess;

    open spec fn get_field_spec(&self) -> Result<&C6, InfallibleAccess> {
        Ok(&self.6)
    }

    fn get_field_(&self, path: TStr<Str_6>) -> (r: Result<&C6, InfallibleAccess>) {
        Ok(&self.6)
    }
}

impl<C0, C1, C2, C3, C4, C5, C6> GetFieldMutImpl<TStr<Str_6>> for (C0, C1, C2, C3, C4, C5, C6) {
    open spec fn field_updated(old: &Self, new: &Self, v: C6) -> bool {
        *new == (old.0, old.1, old.2, old.3, old.4, old.5, v)
    }

    open spec fn unchanged(old: &Self, new: &Self) -> bool {
        *new == *old
    }

    proof fn lemma_read_after_write(old: &Self, new: &Self, v: C6) {
    }

    proof fn lemma_unchanged_reads_same(old: &Self, new: &Self) {
    }

    fn get_field_mut_(&mut self, path: TStr<Str_6>) -> (r: Result<&mut C6, InfallibleAccess>) {
        Ok(&mut self.6)
    }
}

impl<C0, C1, C2, C3, C4, C5, C6> IntoFieldImpl<TStr<Str_6>> for (C0, C1, C2, C3, C4, C5, C6) {
    fn into_field_(self, path: TStr<Str_6>) -> (r: Result<C6, InfallibleAccess>) {
        Ok(self.6)
    }
}

// Tuples of 8 elements.

impl<C0, C1, C2, C3, C4, C5, C6, C7> FieldType<TStr<Str_0>> for (C0, C1, C2, C3, C4, C5, C6, C7) {
    type Ty = C0;
}

impl<C0, C1, C2, C3, C4, C5, C6, C7> GetFieldImpl<TStr<Str_0>> for (C0, C1, C2, C3, C4, C5, C6, C7) {
    type Error = InfallibleAccess;

    open spec fn get_field_spec(&self) -> Result<&C0, InfallibleAccess> {
        Ok(&self.0)
    }

    fn get_field_(&self, path: TStr<Str_0>) -> (r: Result<&C0, InfallibleAccess>) {
        Ok(&self.0)
    }
}

impl<C0, C1, C2, C3, C4, C5, C6, C7> GetFieldMutImpl<TStr<Str_0>> for (C0, C1, C2, C3, C4, C5, C6, C7) {
    open spec fn field_updated(old: &Self, new: &Self, v: C0) -> bool {
        *new == (v, old.1, old.2, old.3, old.4, old.5, old.6, old.7)
    }

    open spec fn unchanged(old: &Self, new: &Self) -> bool {
        *new == *old
    }

    proof fn lemma_read_after_write(old: &Self, new: &Self, v: C0) {
    }

    proof fn lemma_unchanged_reads_same(old: &Self, new: &Self) {
    }

    fn get_field_mut_(&mut self, path: TStr<Str_0>) -> (r: Result<&mut C0, InfallibleAccess>) {
        Ok(&mut self.0)
    }
}

impl<C0, C1, C2, C3, C4, C5, C6, C7> IntoFieldImpl<TStr<Str_0>> for (C0, C1, C2, C3, C4, C5, C6, C7) {
    fn into_field_(self, path: TStr<Str_0>) -> (r: Result<C0, InfallibleAccess>) {
        Ok(self.0)
    }
}

impl<C0, C1, C2, C3, C4, C5, C6, C7> FieldType<TStr<Str_1>> for (C0, C1, C2, C3, C4, C5, C6, C7) {
    type Ty = C1;
}

impl<C0, C1, C2, C3, C4, C5, C6, C7> GetFieldImpl<TStr<Str_1>> for (C0, C1, C2, C3, C4, C5, C6, C7) {
    type Error = InfallibleAccess;

    open spec fn get_field_spec(&self) -> Result<&C1, InfallibleAccess> {
        Ok(&self.1)
    }

    fn get_field_(&self, path: TStr<Str_1>) -> (r: Result<&C1, InfallibleAccess>) {
        Ok(&self.1)
    }
}

impl<C0, C1, C2, C3, C4, C5, C6, C7> GetFieldMutImpl<TStr<Str_1>> for (C0, C1, C2, C3, C4, C5, C6, C7) {
    open spec fn field_updated(old: &Self, new: &Self, v: C1) -> bool {
        *new == (old.0, v, old.2, old.3, old.4, old.5, old.6, old.7)
    }

    open spec fn unchanged(old: &Self, new: &Self) -> bool {
        *new == *old
    }

    proof fn lemma_read_after_write(old: &Self, new: &Self, v: C1) {
    }

    proof fn lemma_unchanged_reads_same(old: &Self, new: &Self) {
    }

    fn get_field_mut_(&mut self, path: TStr<Str_1>) -> (r: Result<&mut C1, InfallibleAccess>) {
        Ok(&mut self.1)
    }
}

impl<C0, C1, C2, C3, C4, C5, C6, C7> IntoFieldImpl<TStr<Str_1>> for (C0, C1, C2, C3, C4, C5, C6, C7) {
    fn into_field_(self, path: TStr<Str_1>) -> (r: Result<C1, InfallibleAccess>) {
        Ok(self.1)
    }
}

impl<C0, C1, C2, C3, C4, C5, C6, C7> FieldType<TStr<Str_2>> for (C0, C1, C2, C3, C4, C5, C6, C7) {
    type Ty = C2;
}

impl<C0, C1, C2, C3, C4, C5, C6, C7> GetFieldImpl<TStr<Str_2>> for (C0, C1, C2, C3, C4, C5, C6, C7) {
    type Error = InfallibleAccess;

    open spec fn get_field_spec(&self) -> Result<&C2, InfallibleAccess> {
        Ok(&self.2)
    }

    fn get_field_(&self, path: TStr<Str_2>) -> (r: Result<&C2, InfallibleAccess>) {
        Ok(&self.2)
    }
}

impl<C0, C1, C2, C3, C4, C5, C6, C7> GetFieldMutImpl<TStr<Str_2>> for (C0, C1, C2, C3, C4, C5, C6, C7) {
    open spec fn field_updated(old: &Self, new: &Self, v: C2) -> bool {
        *new == (old.0, old.1, v, old.3, old.4, old.5, old.6, old.7)
    }

    open spec fn unchanged(old: &Self, new: &Self) -> bool {
        *new == *old
    }

    proof fn lemma_read_after_write(old: &Self, new: &Self, v: C2) {
    }

    proof fn lemma_unchanged_reads_same(old: &Self, new: &Self) {
    }

    fn get_field_mut_(&mut self, path: TStr<Str_2>) -> (r: Result<&mut C2, InfallibleAccess>) {
        Ok(&mut self.2)
    }
}

impl<C0, C1, C2, C3, C4, C5, C6, C7> IntoFieldImpl<TStr<Str_2>> for (C0, C1, C2, C3, C4, C5, C6, C7) {
    fn into_field_(self, path: TStr<Str_2>) -> (r: Result<C2, InfallibleAccess>) {
        Ok(self.2)
    }
}

impl<C0, C1, C2, C3, C4, C5, C6, C7> FieldType<TStr<Str_3>> for (C0, C1, C2, C3, C4, C5, C6, C7) {
    type Ty = C3;
}

impl<C0, C1, C2, C3, C4, C5, C6, C7> GetFieldImpl<TStr<Str_3>> for (C0, C1, C2, C3, C4, C5, C6, C7) {
    type Error = InfallibleAccess;

    open spec fn get_field_spec(&self) -> Result<&C3, InfallibleAccess> {
        Ok(&self.3)
    }

    fn get_field_(&self, path: TStr<Str_3>) -> (r: Result<&C3, InfallibleAccess>) {
        Ok(&self.3)
    }
}

impl<C0, C1, C2, C3, C4, C5, C6, C7> GetFieldMutImpl<TStr<Str_3>> for (C0, C1, C2, C3, C4, C5, C6, C7) {
    open spec fn field_updated(old: &Self, new: &Self, v: C3) -> bool {
        *new == (old.0, old.1, old.2, v, old.4, old.5, old.6, old.7)
    }

    open spec fn unchanged(old: &Self, new: &Self) -> bool {
        *new == *old
    }

    proof fn lemma_read_after_write(old: &Self, new: &Self, v: C3) {
    }

    proof fn lemma_unchanged_reads_same(old: &Self, new: &Self) {
    }

    fn get_field_mut_(&mut self, path: TStr<Str_3>) -> (r: Result<&mut C3, InfallibleAccess>) {
        Ok(&mut self.3)
    }
}

impl<C0, C1, C2, C3, C4, C5, C6, C7> IntoFieldImpl<TStr<Str_3>> for (C0, C1, C2, C3, C4, C5, C6, C7) {
    fn into_field_(self, path: TStr<Str_3>) -> (r: Result<C3, InfallibleAccess>) {
        Ok(self.3)
    }
}

impl<C0, C1, C2, C3, C4, C5, C6, C7> FieldType<TStr<Str_4>> for (C0, C1, C2, C3, C4, C5, C6, C7) {
    type Ty = C4;
}

impl<C0, C1, C2, C3, C4, C5, C6, C7> GetFieldImpl<TStr<Str_4>> for (C0, C1, C2, C3, C4, C5, C6, C7) {
    type Error = InfallibleAccess;

    open spec fn get_field_spec(&self) -> Result<&C4, InfallibleAccess> {
        Ok(&self.4)
    }

    fn get_field_(&self, path: TStr<Str_4>) -> (r: Result<&C4, InfallibleAccess>) {
        Ok(&self.4)
    }
}

impl<C0, C1, C2, C3, C4, C5, C6, C7> GetFieldMutImpl<TStr<Str_4>> for (C0, C1, C2, C3, C4, C5, C6, C7) {
    open spec fn field_updated(old: &Self, new: &Self, v: C4) -> bool {
        *new == (old.0, old.1, old.2, old.3, v, old.5, old.6, old.7)
    }

    open spec fn unchanged(old: &Self, new: &Self) -> bool {
        *new == *old
    }

    proof fn lemma_read_after_write(old: &Self, new: &Self, v: C4) {
    }

    proof fn lemma_unchanged_reads_same(old: &Self, new: &Self) {
    }

    fn get_field_mut_(&mut self, path: TStr<Str_4>) -> (r: Result<&mut C4, InfallibleAccess>) {
        Ok(&mut self.4)
    }
}

impl<C0, C1, C2, C3, C4, C5, C6, C7> IntoFieldImpl<TStr<Str_4>> for (C0, C1, C2, C3, C4, C5, C6, C7) {
    fn into_field_(self, path: TStr<Str_4>) -> (r: Result<C4, InfallibleAccess>) {
        Ok(self.4)
    }
}

impl<C0, C1, C2, C3, C4, C5, C6, C7> FieldType<TStr<Str_5>> for (C0, C1, C2, C3, C4, C5, C6, C7) {
    type Ty = C5;
}

impl<C0, C1, C2, C3, C4, C5, C6, C7> GetFieldImpl<TStr<Str_5>> for (C0, C1, C2, C3, C4, C5, C6, C7) {
    type Error = InfallibleAccess;

    open spec fn get_field_spec(&self) -> Result<&C5, InfallibleAccess> {
        Ok(&self.5)
    }

    fn get_field_(&self, path: TStr<Str_5>) -> (r: Result<&C5, InfallibleAccess>) {
        Ok(&self.5)
    }
}

impl<C0, C1, C2, C3, C4, C5, C6, C7> GetFieldMutImpl<TStr<Str_5>> for (C0, C1, C2, C3, C4, C5, C6, C7) {
    open spec fn field_updated(old: &Self, new: &Self, v: C5) -> bool {
        *new == (old.0, old.1, old.2, old.3, old.4, v, old.6, old.7)
    }

    open spec fn unchanged(old: &Self, new: &Self) -> bool {
        *new == *old
    }

    proof fn lemma_read_after_write(old: &Self, new: &Self, v: C5) {
    }

    proof fn lemma_unchanged_reads_same(old: &Self, new: &Self) {
    }

    fn get_field_mut_(&mut self, path: TStr<Str_5>) -> (r: Result<&mut C5, InfallibleAccess>) {
        Ok(&mut self.5)
    }
}

impl<C0, C1, C2, C3, C4, C5, C6, C7> IntoFieldImpl<TStr<Str_5>> for (C0, C1, C2, C3, C4, C5, C6, C7) {
    fn into_field_(self, path: TStr<Str_5>) -> (r: Result<C5, InfallibleAccess>) {
        Ok(self.5)
    }
}

impl<C0, C1, C2, C3, C4, C5, C6, C7> FieldType<TStr<Str_6>> for (C0, C1, C2, C3, C4, C5, C6, C7) {
    type Ty = C6;
}

impl<C0, C1, C2, C3, C4, C5, C6, C7> GetFieldImpl<TStr<Str_6>> for (C0, C1, C2, C3, C4, C5, C6, C7) {
    type Error = InfallibleAccess;

    open spec fn get_field_spec(&self) -> Result<&C6, InfallibleAccess> {
        Ok(&self.6)
    }

    fn get_field_(&self, path: TStr<Str_6>) -> (r: Result<&C6, InfallibleAccess>) {
        Ok(&self.6)
    }
}

impl<C0, C1, C2, C3, C4, C5, C6, C7> GetFieldMutImpl<TStr<Str_6>> for (C0, C1, C2, C3, C4, C5, C6, C7) {
    open spec fn field_updated(old: &Self, new: &Self, v: C6) -> bool {
        *new == (old.0, old.1, old.2, old.3, old.4, old.5, v, old.7)
    }

    open spec fn unchanged(old: &Self, new: &Self) -> bool {
        *new == *old
    }

    proof fn lemma_read_after_write(old: &Self, new: &Self, v: C6) {
    }

    proof fn lemma_unchanged_reads_same(old: &Self, new: &Self) {
    }

    fn get_field_mut_(&mut self, path: TStr<Str_6>) -> (r: Result<&mut C6, InfallibleAccess>) {
        Ok(&mut self.6)
    }
}

impl<C0, C1, C2, C3, C4, C5, C6, C7> IntoFieldImpl<TStr<Str_6>> for (C0, C1, C2, C3, C4, C5, C6, C7) {
    fn into_field_(self, path: TStr<Str_6>) -> (r: Result<C6, InfallibleAccess>) {
        Ok(self.6)
    }
}

impl<C0, C1, C2, C3, C4, C5, C6, C7> FieldType<TStr<Str_7>> for (C0, C1, C2, C3, C4, C5, C6, C7) {
    type Ty = C7;
}

impl<C0, C1, C2, C3, C4, C5, C6, C7> GetFieldImpl<TStr<Str_7>> for (C0, C1, C2, C3, C4, C5, C6, C7) {
    type Error = InfallibleAccess;

    open spec fn get_field_spec(&self) -> Result<&C7, InfallibleAccess> {
        Ok(&self.7)
    }

    fn get_field_(&self, path: TStr<Str_7>) -> (r: Result<&C7, InfallibleAccess>) {
        Ok(&self.7)
    }
}

impl<C0, C1, C2, C3, C4, C5, C6, C7> GetFieldMutImpl<TStr<Str_7>> for (C0, C1, C2, C3, C4, C5, C6, C7) {
    open spec fn field_updated(old: &Self, new: &Self, v: C7) -> bool {
        *new == (old.0, old.1, old.2, old.3, old.4, old.5, old.6, v)
    }

    open spec fn unchanged(old: &Self, new: &Self) -> bool {
        *new == *old
    }

    proof fn lemma_read_after_write(old: &Self, new: &Self, v: C7) {
    }

    proof fn lemma_unchanged_reads_same(old: &Self, new: &Self) {
    }

    fn get_field_mut_(&mut self, path: TStr<Str_7>) -> (r: Result<&mut C7, InfallibleAccess>) {
        Ok(&mut self.7)
    }
}

impl<C0, C1, C2, C3, C4, C5, C6, C7> IntoFieldImpl<TStr<Str_7>> for (C0, C1, C2, C3, C4, C5, C6, C7) {
    fn into_field_(self, path: TStr<Str_7>) -> (r: Result<C7, InfallibleAccess>) {
        Ok(self.7)
    }
}

// Tuples of 9 elements.

impl<C0, C1, C2, C3, C4, C5, C6, C7, C8> FieldType<TStr<Str_0>> for (C0, C1, C2, C3, C4, C5, C6, C7, C8) {
    type Ty = C0;
}

impl<C0, C1, C2, C3, C4, C5, C6, C7, C8> GetFieldImpl<TStr<Str_0>> for (C0, C1, C2, C3, C4, C5, C6, C7, C8) {
    type Error = InfallibleAccess;

    open spec fn get_field_spec(&self) -> Result<&C0, InfallibleAccess> {
        Ok(&self.0)
    }

    fn get_field_(&self, path: TStr<Str_0>) -> (r: Result<&C0, InfallibleAccess>) {
        Ok(&self.0)
    }
}

impl<C0, C1, C2, C3, C4, C5, C6, C7, C8> GetFieldMutImpl<TStr<Str_0>> for (C0, C1, C2, C3, C4, C5, C6, C7, C8) {
    open spec fn field_updated(old: &Self, new: &Self, v: C0) -> bool {
        *new == (v, old.1, old.2, old.3, old.4, old.5, old.6, old.7, old.8)
    }

    open spec fn unchanged(old: &Self, new: &Self) -> bool {
        *new == *old
    }

    proof fn lemma_read_after_write(old: &Self, new: &Self, v: C0) {
    }

    proof fn lemma_unchanged_reads_same(old: &Self, new: &Self) {
    }

    fn get_field_mut_(&mut self, path: TStr<Str_0>) -> (r: Result<&mut C0, InfallibleAccess>) {
        Ok(&mut self.0)
    }
}

impl<C0, C1, C2, C3, C4, C5, C6, C7, C8> IntoFieldImpl<TStr<Str_0>> for (C0, C1, C2, C3, C4, C5, C6, C7, C8) {
    fn into_field_(self, path: TStr<Str_0>) -> (r: Result<C0, InfallibleAccess>) {
        Ok(self.0)
    }
}

impl<C0, C1, C2, C3, C4, C5, C6, C7, C8> FieldType<TStr<Str_1>> for (C0, C1, C2, C3, C4, C5, C6, C7, C8) {
    type Ty = C1;
}

impl<C0, C1, C2, C3, C4, C5, C6, C7, C8> GetFieldImpl<TStr<Str_1>> for (C0, C1, C2, C3, C4, C5, C6, C7, C8) {
    type Error = InfallibleAccess;

    open spec fn get_field_spec(&self) -> Result<&C1, InfallibleAccess> {
        Ok(&self.1)
    }

    fn get_field_(&self, path: TStr<Str_1>) -> (r: Result<&C1, InfallibleAccess>) {
        Ok(&self.1)
    }
}

impl<C0, C1, C2, C3, C4, C5, C6, C7, C8> GetFieldMutImpl<TStr<Str_1>> for (C0, C1, C2, C3, C4, C5, C6, C7, C8) {
    open spec fn field_updated(old: &Self, new: &Self, v: C1) -> bool {
        *new == (old.0, v, old.2, old.3, old.4, old.5, old.6, old.7, old.8)
    }

    open spec fn unchanged(old: &Self, new: &Self) -> bool {
        *new == *old
    }

    proof fn lemma_read_after_write(old: &Self, new: &Self, v: C1) {
    }

    proof fn lemma_unchanged_reads_same(old: &Self, new: &Self) {
    }

    fn get_field_mut_(&mut self, path: TStr<Str_1>) -> (r: Result<&mut C1, InfallibleAccess>) {
        Ok(&mut self.1)
    }
}

impl<C0, C1, C2, C3, C4, C5, C6, C7, C8> IntoFieldImpl<TStr<Str_1>> for (C0, C1, C2, C3, C4, C5, C6, C7, C8) {
    fn into_field_(self, path: TStr<Str_1>) -> (r: Result<C1, InfallibleAccess>) {
        Ok(self.1)
    }
}

impl<C0, C1, C2, C3, C4, C5, C6, C7, C8> FieldType<TStr<Str_2>> for (C0, C1, C2, C3, C4, C5, C6, C7, C8) {
    type Ty = C2;
}

impl<C0, C1, C2, C3, C4, C5, C6, C7, C8> GetFieldImpl<TStr<Str_2>> for (C0, C1, C2, C3, C4, C5, C6, C7, C8) {
    type Error = InfallibleAccess;

    open spec fn get_field_spec(&self) -> Result<&C2, InfallibleAccess> {
        Ok(&self.2)
    }

    fn get_field_(&self, path: TStr<Str_2>) -> (r: Result<&C2, InfallibleAccess>) {
        Ok(&self.2)
    }
}

impl<C0, C1, C2, C3, C4, C5, C6, C7, C8> GetFieldMutImpl<TStr<Str_2>> for (C0, C1, C2, C3, C4, C5, C6, C7, C8) {
    open spec fn field_updated(old: &Self, new: &Self, v: C2) -> bool {
        *new == (old.0, old.1, v, old.3, old.4, old.5, old.6, old.7, old.8)
    }

    open spec fn unchanged(old: &Self, new: &Self) -> bool {
        *new == *old
    }

    proof fn lemma_read_after_write(old: &Self, new: &Self, v: C2) {
    }

    proof fn lemma_unchanged_reads_same(old: &Self, new: &Self) {
    }

    fn get_field_mut_(&mut self, path: TStr<Str_2>) -> (r: Result<&mut C2, InfallibleAccess>) {
        Ok(&mut self.2)
    }
}

impl<C0, C1, C2, C3, C4, C5, C6, C7, C8> IntoFieldImpl<TStr<Str_2>> for (C0, C1, C2, C3, C4, C5, C6, C7, C8) {
    fn into_field_(self, path: TStr<Str_2>) -> (r: Result<C2, InfallibleAccess>) {
        Ok(self.2)
    }
}

impl<C0, C1, C2, C3, C4, C5, C6, C7, C8> FieldType<TStr<Str_3>> for (C0, C1, C2, C3, C4, C5, C6, C7, C8) {
    type Ty = C3;
}

impl<C0, C1, C2, C3, C4, C5, C6, C7, C8> GetFieldImpl<TStr<Str_3>> for (C0, C1, C2, C3, C4, C5, C6, C7, C8) {
    type Error = InfallibleAccess;

    open spec fn get_field_spec(&self) -> Result<&C3, InfallibleAccess> {
        Ok(&self.3)
    }

    fn get_field_(&self, path: TStr<Str_3>) -> (r: Result<&C3, InfallibleAccess>) {
        Ok(&self.3)
    }
}

impl<C0, C1, C2, C3, C4, C5, C6, C7, C8> GetFieldMutImpl<TStr<Str_3>> for (C0, C1, C2, C3, C4, C5, C6, C7, C8) {
    open spec fn field_updated(old: &Self, new: &Self, v: C3) -> bool {
        *new == (old.0, old.1, old.2, v, old.4, old.5, old.6, old.7, old.8)
    }

    open spec fn unchanged(old: &Self, new: &Self) -> bool {
        *new == *old
    }

    proof fn lemma_read_after_write(old: &Self, new: &Self, v: C3) {
    }

    proof fn lemma_unchanged_reads_same(old: &Self, new: &Self) {
    }

    fn get_field_mut_(&mut self, path: TStr<Str_3>) -> (r: Result<&mut C3, InfallibleAccess>) {
        Ok(&mut self.3)
    }
}

impl<C0, C1, C2, C3, C4, C5, C6, C7, C8> IntoFieldImpl<TStr<Str_3>> for (C0, C1, C2, C3, C4, C5, C6, C7, C8) {
    fn into_field_(self, path: TStr<Str_3>) -> (r: Result<C3, InfallibleAccess>) {
        Ok(self.3)
    }
}

impl<C0, C1, C2, C3, C4, C5, C6, C7, C8> FieldType<TStr<Str_4>> for (C0, C1, C2, C3, C4, C5, C6, C7, C8) {
    type Ty = C4;
}

impl<C0, C1, C2, C3, C4, C5, C6, C7, C8> GetFieldImpl<TStr<Str_4>> for (C0, C1, C2, C3, C4, C5, C6, C7, C8) {
    type Error = InfallibleAccess;

    open spec fn get_field_spec(&self) -> Result<&C4, InfallibleAccess> {
        Ok(&self.4)
    }

    fn get_field_(&self, path: TStr<Str_4>) -> (r: Result<&C4, InfallibleAccess>) {
        Ok(&self.4)
    }
}

impl<C0, C1, C2, C3, C4, C5, C6, C7, C8> GetFieldMutImpl<TStr<Str_4>> for (C0, C1, C2, C3, C4, C5, C6, C7, C8) {
    open spec fn field_updated(old: &Self, new: &Self, v: C4) -> bool {
        *new == (old.0, old.1, old.2, old.3, v, old.5, old.6, old.7, old.8)
    }

    open spec fn unchanged(old: &Self, new: &Self) -> bool {
        *new == *old
    }

    proof fn lemma_read_after_write(old: &Self, new: &Self, v: C4) {
    }

    proof fn lemma_unchanged_reads_same(old: &Self, new: &Self) {
    }

    fn get_field_mut_(&mut self, path: TStr<Str_4>) -> (r: Result<&mut C4, InfallibleAccess>) {
        Ok(&mut self.4)
    }
}

impl<C0, C1, C2, C3, C4, C5, C6, C7, C8> IntoFieldImpl<TStr<Str_4>> for (C0, C1, C2, C3, C4, C5, C6, C7, C8) {
    fn into_field_(self, path: TStr<Str_4>) -> (r: Result<C4, InfallibleAccess>) {
        Ok(self.4)
    }
}

impl<C0, C1, C2, C3, C4, C5, C6, C7, C8> FieldType<TStr<Str_5>> for (C0, C1, C2, C3, C4, C5, C6, C7, C8) {
    type Ty = C5;
}

impl<C0, C1, C2, C3, C4, C5, C6, C7, C8> GetFieldImpl<TStr<Str_5>> for (C0, C1, C2, C3, C4, C5, C6, C7, C8) {
    type Error = InfallibleAccess;

    open spec fn get_field_spec(&self) -> Result<&C5, InfallibleAccess> {
        Ok(&self.5)
    }

    fn get_field_(&self, path: TStr<Str_5>) -> (r: Result<&C5, InfallibleAccess>) {
        Ok(&self.5)
    }
}

impl<C0, C1, C2, C3, C4, C5, C6, C7, C8> GetFieldMutImpl<TStr<Str_5>> for (C0, C1, C2, C3, C4, C5, C6, C7, C8) {
    open spec fn field_updated(old: &Self, new: &Self, v: C5) -> bool {
        *new == (old.0, old.1, old.2, old.3, old.4, v, old.6, old.7, old.8)
    }

    open spec fn unchanged(old: &Self, new: &Self) -> bool {
        *new == *old
    }

    proof fn lemma_read_after_write(old: &Self, new: &Self, v: C5) {
    }

    proof fn lemma_unchanged_reads_same(old: &Self, new: &Self) {
    }

    fn get_field_mut_(&mut self, path: TStr<Str_5>) -> (r: Result<&mut C5, InfallibleAccess>) {
        Ok(&mut self.5)
    }
}

impl<C0, C1, C2, C3, C4, C5, C6, C7, C8> IntoFieldImpl<TStr<Str_5>> for (C0, C1, C2, C3, C4, C5, C6, C7, C8) {
    fn into_field_(self, path: TStr<Str_5>) -> (r: Result<C5, InfallibleAccess>) {
        Ok(self.5)
    }
}

impl<C0, C1, C2, C3, C4, C5, C6, C7, C8> FieldType<TStr<Str_6>> for (C0, C1, C2, C3, C4, C5, C6, C7, C8) {
    type Ty = C6;
}

impl<C0, C1, C2, C3, C4, C5, C6, C7, C8> GetFieldImpl<TStr<Str_6>> for (C0, C1, C2, C3, C4, C5, C6, C7, C8) {
    type Error = InfallibleAccess;

    open spec fn get_field_spec(&self) -> Result<&C6, InfallibleAccess> {
        Ok(&self.6)
    }

    fn get_field_(&self, path: TStr<Str_6>) -> (r: Result<&C6, InfallibleAccess>) {
        Ok(&self.6)
    }
}

impl<C0, C1, C2, C3, C4, C5, C6, C7, C8> GetFieldMutImpl<TStr<Str_6>> for (C0, C1, C2, C3, C4, C5, C6, C7, C8) {
    open spec fn field_updated(old: &Self, new: &Self, v: C6) -> bool {
        *new == (old.0, old.1, old.2, old.3, old.4, old.5, v, old.7, old.8)
    }

    open spec fn unchanged(old: &Self, new: &Self) -> bool {
        *new == *old
    }

    proof fn lemma_read_after_write(old: &Self, new: &Self, v: C6) {
    }

    proof fn lemma_unchanged_reads_same(old: &Self, new: &Self) {
    }

    fn get_field_mut_(&mut self, path: TStr<Str_6>) -> (r: Result<&mut C6, InfallibleAccess>) {
        Ok(&mut self.6)
    }
}

impl<C0, C1, C2, C3, C4, C5, C6, C7, C8> IntoFieldImpl<TStr<Str_6>> for (C0, C1, C2, C3, C4, C5, C6, C7, C8) {
    fn into_field_(self, path: TStr<Str_6>) -> (r: Result<C6, InfallibleAccess>) {
        Ok(self.6)
    }
}

impl<C0, C1, C2, C3, C4, C5, C6, C7, C8> FieldType<TStr<Str_7>> for (C0, C1, C2, C3, C4, C5, C6, C7, C8) {
    type Ty = C7;
}

impl<C0, C1, C2, C3, C4, C5, C6, C7, C8> GetFieldImpl<TStr<Str_7>> for (C0, C1, C2, C3, C4, C5, C6, C7, C8) {
    type Error = InfallibleAccess;

    open spec fn get_field_spec(&self) -> Result<&C7, InfallibleAccess> {
        Ok(&self.7)
    }

    fn get_field_(&self, path: TStr<Str_7>) -> (r: Result<&C7, InfallibleAccess>) {
        Ok(&self.7)
    }
}

impl<C0, C1, C2, C3, C4, C5, C6, C7, C8> GetFieldMutImpl<TStr<Str_7>> for (C0, C1, C2, C3, C4, C5, C6, C7, C8) {
    open spec fn field_updated(old: &Self, new: &Self, v: C7) -> bool {
        *new == (old.0, old.1, old.2, old.3, old.4, old.5, old.6, v, old.8)
    }

    open spec fn unchanged(old: &Self, new: &Self) -> bool {
        *new == *old
    }

    proof fn lemma_read_after_write(old: &Self, new: &Self, v: C7) {
    }

    proof fn lemma_unchanged_reads_same(old: &Self, new: &Self) {
    }

    fn get_field_mut_(&mut self, path: TStr<Str_7>) -> (r: Result<&mut C7, InfallibleAccess>) {
        Ok(&mut self.7)
    }
}

impl<C0, C1, C2, C3, C4, C5, C6, C7, C8> IntoFieldImpl<TStr<Str_7>> for (C0, C1, C2, C3, C4, C5, C6, C7, C8) {
    fn into_field_(self, path: TStr<Str_7>) -> (r: Result<C7, InfallibleAccess>) {
        Ok(self.7)
    }
}

impl<C0, C1, C2, C3, C4, C5, C6, C7, C8> FieldType<TStr<Str_8>> for (C0, C1, C2, C3, C4, C5, C6, C7, C8) {
    type Ty = C8;
}

impl<C0, C1, C2, C3, C4, C5, C6, C7, C8> GetFieldImpl<TStr<Str_8>> for (C0, C1, C2, C3, C4, C5, C6, C7, C8) {
    type Error = InfallibleAccess;

    open spec fn get_field_spec(&self) -> Result<&C8, InfallibleAccess> {
        Ok(&self.8)
    }

    fn get_field_(&self, path: TStr<Str_8>) -> (r: Result<&C8, InfallibleAccess>) {
        Ok(&self.8)
    }
}

impl<C0, C1, C2, C3, C4, C5, C6, C7, C8> GetFieldMutImpl<TStr<Str_8>> for (C0, C1, C2, C3, C4, C5, C6, C7, C8) {
    open spec fn field_updated(old: &Self, new: &Self, v: C8) -> bool {
        *new == (old.0, old.1, old.2, old.3, old.4, old.5, old.6, old.7, v)
    }

    open spec fn unchanged(old: &Self, new: &Self) -> bool {
        *new == *old
    }

    proof fn lemma_read_after_write(old: &Self, new: &Self, v: C8) {
    }

    proof fn lemma_unchanged_reads_same(old: &Self, new: &Self) {
    }

    fn get_field_mut_(&mut self, path: TStr<Str_8>) -> (r: Result<&mut C8, InfallibleAccess>) {
        Ok(&mut self.8)
    }
}

impl<C0, C1, C2, C3, C4, C5, C6, C7, C8> IntoFieldImpl<TStr<Str_8>> for (C0, C1, C2, C3, C4, C5, C6, C7, C8) {
    fn into_field_(self, path: TStr<Str_8>) -> (r: Result<C8, InfallibleAccess>) {
        Ok(self.8)
    }
}

// Tuples of 10 elements.

impl<C0, C1, C2, C3, C4, C5, C6, C7, C8, C9> FieldType<TStr<Str_0>> for (C0, C1, C2, C3, C4, C5, C6, C7, C8, C9) {
    type Ty = C0;
}

impl<C0, C1, C2, C3, C4, C5, C6, C7, C8, C9> GetFieldImpl<TStr<Str_0>> for (C0, C1, C2, C3, C4, C5, C6, C7, C8, C9) {
    type Error = InfallibleAccess;

    open spec fn get_field_spec(&self) -> Result<&C0, InfallibleAccess> {
        Ok(&self.0)
    }

    fn get_field_(&self, path: TStr<Str_0>) -> (r: Result<&C0, InfallibleAccess>) {
        Ok(&self.0)
    }
}

impl<C0, C1, C2, C3, C4, C5, C6, C7, C8, C9> GetFieldMutImpl<TStr<Str_0>> for (C0, C1, C2, C3, C4, C5, C6, C7, C8, C9) {
    open spec fn field_updated(old: &Self, new: &Self, v: C0) -> bool {
        *new == (v, old.1, old.2, old.3, old.4, old.5, old.6, old.7, old.8, old.9)
    }

    open spec fn unchanged(old: &Self, new: &Self) -> bool {
        *new == *old
    }

    proof fn lemma_read_after_write(old: &Self, new: &Self, v: C0) {
    }

    proof fn lemma_unchanged_reads_same(old: &Self, new: &Self) {
    }

    fn get_field_mut_(&mut self, path: TStr<Str_0>) -> (r: Result<&mut C0, InfallibleAccess>) {
        Ok(&mut self.0)
    }
}

impl<C0, C1, C2, C3, C4, C5, C6, C7, C8, C9> IntoFieldImpl<TStr<Str_0>> for (C0, C1, C2, C3, C4, C5, C6, C7, C8, C9) {
    fn into_field_(self, path: TStr<Str_0>) -> (r: Result<C0, InfallibleAccess>) {
        Ok(self.0)
    }
}

impl<C0, C1, C2, C3, C4, C5, C6, C7, C8, C9> FieldType<TStr<Str_1>> for (C0, C1, C2, C3, C4, C5, C6, C7, C8, C9) {
    type Ty = C1;
}

impl<C0, C1, C2, C3, C4, C5, C6, C7, C8, C9> GetFieldImpl<TStr<Str_1>> for (C0, C1, C2, C3, C4, C5, C6, C7, C8, C9) {
    type Error = InfallibleAccess;

    open spec fn get_field_spec(&self) -> Result<&C1, InfallibleAccess> {
        Ok(&self.1)
    }

    fn get_field_(&self, path: TStr<Str_1>) -> (r: Result<&C1, InfallibleAccess>) {
        Ok(&self.1)
    }
}

impl<C0, C1, C2, C3, C4, C5, C6, C7, C8, C9> GetFieldMutImpl<TStr<Str_1>> for (C0, C1, C2, C3, C4, C5, C6, C7, C8, C9) {
    open spec fn field_updated(old: &Self, new: &Self, v: C1) -> bool {
        *new == (old.0, v, old.2, old.3, old.4, old.5, old.6, old.7, old.8, old.9)
    }

    open spec fn unchanged(old: &Self, new: &Self) -> bool {
        *new == *old
    }

    proof fn lemma_read_after_write(old: &Self, new: &Self, v: C1) {
    }

    proof fn lemma_unchanged_reads_same(old: &Self, new: &Self) {
    }

    fn get_field_mut_(&mut self, path: TStr<Str_1>) -> (r: Result<&mut C1, InfallibleAccess>) {
        Ok(&mut self.1)
    }
}

impl<C0, C1, C2, C3, C4, C5, C6, C7, C8, C9> IntoFieldImpl<TStr<Str_1>> for (C0, C1, C2, C3, C4, C5, C6, C7, C8, C9) {
    fn into_field_(self, path: TStr<Str_1>) -> (r: Result<C1, InfallibleAccess>) {
        Ok(self.1)
    }
}

impl<C0, C1, C2, C3, C4, C5, C6, C7, C8, C9> FieldType<TStr<Str_2>> for (C0, C1, C2, C3, C4, C5, C6, C7, C8, C9) {
    type Ty = C2;
}

impl<C0, C1, C2, C3, C4, C5, C6, C7, C8, C9> GetFieldImpl<TStr<Str_2>> for (C0, C1, C2, C3, C4, C5, C6, C7, C8, C9) {
    type Error = InfallibleAccess;

    open spec fn get_field_spec(&self) -> Result<&C2, InfallibleAccess> {
        Ok(&self.2)
    }

    fn get_field_(&self, path: TStr<Str_2>) -> (r: Result<&C2, InfallibleAccess>) {
        Ok(&self.2)
    }
}

impl<C0, C1, C2, C3, C4, C5, C6, C7, C8, C9> GetFieldMutImpl<TStr<Str_2>> for (C0, C1, C2, C3, C4, C5, C6, C7, C8, C9) {
    open spec fn field_updated(old: &Self, new: &Self, v: C2) -> bool {
        *new == (old.0, old.1, v, old.3, old.4, old.5, old.6, old.7, old.8, old.9)
    }

    open spec fn unchanged(old: &Self, new: &Self) -> bool {
        *new == *old
    }

    proof fn lemma_read_after_write(old: &Self, new: &Self, v: C2) {
    }

    proof fn lemma_unchanged_reads_same(old: &Self, new: &Self) {
    }

    fn get_field_mut_(&mut self, path: TStr<Str_2>) -> (r: Result<&mut C2, InfallibleAccess>) {
        Ok(&mut self.2)
    }
}

impl<C0, C1, C2, C3, C4, C5, C6, C7, C8, C9> IntoFieldImpl<TStr<Str_2>> for (C0, C1, C2, C3, C4, C5, C6, C7, C8, C9) {
    fn into_field_(self, path: TStr<Str_2>) -> (r: Result<C2, InfallibleAccess>) {
        Ok(self.2)
    }
}

impl<C0, C1, C2, C3, C4, C5, C6, C7, C8, C9> FieldType<TStr<Str_3>> for (C0, C1, C2, C3, C4, C5, C6, C7, C8, C9) {
    type Ty = C3;
}

impl<C0, C1, C2, C3, C4, C5, C6, C7, C8, C9> GetFieldImpl<TStr<Str_3>> for (C0, C1, C2, C3, C4, C5, C6, C7, C8, C9) {
    type Error = InfallibleAccess;

    open spec fn get_field_spec(&self) -> Result<&C3, InfallibleAccess> {
        Ok(&self.3)
    }

    fn get_field_(&self, path: TStr<Str_3>) -> (r: Result<&C3, InfallibleAccess>) {
        Ok(&self.3)
    }
}

impl<C0, C1, C2, C3, C4, C5, C6, C7, C8, C9> GetFieldMutImpl<TStr<Str_3>> for (C0, C1, C2, C3, C4, C5, C6, C7, C8, C9) {
    open spec fn field_updated(old: &Self, new: &Self, v: C3) -> bool {
        *new == (old.0, old.1, old.2, v, old.4, old.5, old.6, old.7, old.8, old.9)
    }

    open spec fn unchanged(old: &Self, new: &Self) -> bool {
        *new == *old
    }

    proof fn lemma_read_after_write(old: &Self, new: &Self, v: C3) {
    }

    proof fn lemma_unchanged_reads_same(old: &Self, new: &Self) {
    }

    fn get_field_mut_(&mut self, path: TStr<Str_3>) -> (r: Result<&mut C3, InfallibleAccess>) {
        Ok(&mut self.3)
    }
}

impl<C0, C1, C2, C3, C4, C5, C6, C7, C8, C9> IntoFieldImpl<TStr<Str_3>> for (C0, C1, C2, C3, C4, C5, C6, C7, C8, C9) {
    fn into_field_(self, path: TStr<Str_3>) -> (r: Result<C3, InfallibleAccess>) {
        Ok(self.3)
    }
}

impl<C0, C1, C2, C3, C4, C5, C6, C7, C8, C9> FieldType<TStr<Str_4>> for (C0, C1, C2, C3, C4, C5, C6, C7, C8, C9) {
    type Ty = C4;
}

impl<C0, C1, C2, C3, C4, C5, C6, C7, C8, C9> GetFieldImpl<TStr<Str_4>> for (C0, C1, C2, C3, C4, C5, C6, C7, C8, C9) {
    type Error = InfallibleAccess;

    open spec fn get_field_spec(&self) -> Result<&C4, InfallibleAccess> {
        Ok(&self.4)
    }

    fn get_field_(&self, path: TStr<Str_4>) -> (r: Result<&C4, InfallibleAccess>) {
        Ok(&self.4)
    }
}

impl<C0, C1, C2, C3, C4, C5, C6, C7, C8, C9> GetFieldMutImpl<TStr<Str_4>> for (C0, C1, C2, C3, C4, C5, C6, C7, C8, C9) {
    open spec fn field_updated(old: &Self, new: &Self, v: C4) -> bool {
        *new == (old.0, old.1, old.2, old.3, v, old.5, old.6, old.7, old.8, old.9)
    }

    open spec fn unchanged(old: &Self, new: &Self) -> bool {
        *new == *old
    }

    proof fn lemma_read_after_write(old: &Self, new: &Self, v: C4) {
    }

    proof fn lemma_unchanged_reads_same(old: &Self, new: &Self) {
    }

    fn get_field_mut_(&mut self, path: TStr<Str_4>) -> (r: Result<&mut C4, InfallibleAccess>) {
        Ok(&mut self.4)
    }
}

impl<C0, C1, C2, C3, C4, C5, C6, C7, C8, C9> IntoFieldImpl<TStr<Str_4>> for (C0, C1, C2, C3, C4, C5, C6, C7, C8, C9) {
    fn into_field_(self, path: TStr<Str_4>) -> (r: Result<C4, InfallibleAccess>) {
        Ok(self.4)
    }
}

impl<C0, C1, C2, C3, C4, C5, C6, C7, C8, C9> FieldType<TStr<Str_5>> for (C0, C1, C2, C3, C4, C5, C6, C7, C8, C9) {
    type Ty = C5;
}

impl<C0, C1, C2, C3, C4, C5, C6, C7, C8, C9> GetFieldImpl<TStr<Str_5>> for (C0, C1, C2, C3, C4, C5, C6, C7, C8, C9) {
    type Error = InfallibleAccess;

    open spec fn get_field_spec(&self) -> Result<&C5, InfallibleAccess> {
        Ok(&self.5)
    }

    fn get_field_(&self, path: TStr<Str_5>) -> (r: Result<&C5, InfallibleAccess>) {
        Ok(&self.5)
    }
}

impl<C0, C1, C2, C3, C4, C5, C6, C7, C8, C9> GetFieldMutImpl<TStr<Str_5>> for (C0, C1, C2, C3, C4, C5, C6, C7, C8, C9) {
    open spec fn field_updated(old: &Self, new: &Self, v: C5) -> bool {
        *new == (old.0, old.1, old.2, old.3, old.4, v, old.6, old.7, old.8, old.9)
    }

    open spec fn unchanged(old: &Self, new: &Self) -> bool {
        *new == *old
    }

    proof fn lemma_read_after_write(old: &Self, new: &Self, v: C5) {
    }

    proof fn lemma_unchanged_reads_same(old: &Self, new: &Self) {
    }

    fn get_field_mut_(&mut self, path: TStr<Str_5>) -> (r: Result<&mut C5, InfallibleAccess>) {
        Ok(&mut self.5)
    }
}

impl<C0, C1, C2, C3, C4, C5, C6, C7, C8, C9> IntoFieldImpl<TStr<Str_5>> for (C0, C1, C2, C3, C4, C5, C6, C7, C8, C9) {
    fn into_field_(self, path: TStr<Str_5>) -> (r: Result<C5, InfallibleAccess>) {
        Ok(self.5)
    }
}

impl<C0, C1, C2, C3, C4, C5, C6, C7, C8, C9> FieldType<TStr<Str_6>> for (C0, C1, C2, C3, C4, C5, C6, C7, C8, C9) {
    type Ty = C6;
}

impl<C0, C1, C2, C3, C4, C5, C6, C7, C8, C9> GetFieldImpl<TStr<Str_6>> for (C0, C1, C2, C3, C4, C5, C6, C7, C8, C9) {
    type Error = InfallibleAccess;

    open spec fn get_field_spec(&self) -> Result<&C6, InfallibleAccess> {
        Ok(&self.6)
    }

    fn get_field_(&self, path: TStr<Str_6>) -> (r: Result<&C6, InfallibleAccess>) {
        Ok(&self.6)
    }
}

impl<C0, C1, C2, C3, C4, C5, C6, C7, C8, C9> GetFieldMutImpl<TStr<Str_6>> for (C0, C1, C2, C3, C4, C5, C6, C7, C8, C9) {
    open spec fn field_updated(old: &Self, new: &Self, v: C6) -> bool {
        *new == (old.0, old.1, old.2, old.3, old.4, old.5, v, old.7, old.8, old.9)
    }

    open spec fn unchanged(old: &Self, new: &Self) -> bool {
        *new == *old
    }

    proof fn lemma_read_after_write(old: &Self, new: &Self, v: C6) {
    }

    proof fn lemma_unchanged_reads_same(old: &Self, new: &Self) {
    }

    fn get_field_mut_(&mut self, path: TStr<Str_6>) -> (r: Result<&mut C6, InfallibleAccess>) {
        Ok(&mut self.6)
    }
}

impl<C0, C1, C2, C3, C4, C5, C6, C7, C8, C9> IntoFieldImpl<TStr<Str_6>> for (C0, C1, C2, C3, C4, C5, C6, C7, C8, C9) {
    fn into_field_(self, path: TStr<Str_6>) -> (r: Result<C6, InfallibleAccess>) {
        Ok(self.6)
    }
}

impl<C0, C1, C2, C3, C4, C5, C6, C7, C8, C9> FieldType<TStr<Str_7>> for (C0, C1, C2, C3, C4, C5, C6, C7, C8, C9) {
    type Ty = C7;
}

impl<C0, C1, C2, C3, C4, C5, C6, C7, C8, C9> GetFieldImpl<TStr<Str_7>> for (C0, C1, C2, C3, C4, C5, C6, C7, C8, C9) {
    type Error = InfallibleAccess;

    open spec fn get_field_spec(&self) -> Result<&C7, InfallibleAccess> {
        Ok(&self.7)
    }

    fn get_field_(&self, path: TStr<Str_7>) -> (r: Result<&C7, InfallibleAccess>) {
        Ok(&self.7)
    }
}

impl<C0, C1, C2, C3, C4, C5, C6, C7, C8, C9> GetFieldMutImpl<TStr<Str_7>> for (C0, C1, C2, C3, C4, C5, C6, C7, C8, C9) {
    open spec fn field_updated(old: &Self, new: &Self, v: C7) -> bool {
        *new == (old.0, old.1, old.2, old.3, old.4, old.5, old.6, v, old.8, old.9)
    }

    open spec fn unchanged(old: &Self, new: &Self) -> bool {
        *new == *old
    }

    proof fn lemma_read_after_write(old: &Self, new: &Self, v: C7) {
    }

    proof fn lemma_unchanged_reads_same(old: &Self, new: &Self) {
    }

    fn get_field_mut_(&mut self, path: TStr<Str_7>) -> (r: Result<&mut C7, InfallibleAccess>) {
        Ok(&mut self.7)
    }
}

impl<C0, C1, C2, C3, C4, C5, C6, C7, C8, C9> IntoFieldImpl<TStr<Str_7>> for (C0, C1, C2, C3, C4, C5, C6, C7, C8, C9) {
    fn into_field_(self, path: TStr<Str_7>) -> (r: Result<C7, InfallibleAccess>) {
        Ok(self.7)
    }
}

impl<C0, C1, C2, C3, C4, C5, C6, C7, C8, C9> FieldType<TStr<Str_8>> for (C0, C1, C2, C3, C4, C5, C6, C7, C8, C9) {
    type Ty = C8;
}

impl<C0, C1, C2, C3, C4, C5, C6, C7, C8, C9> GetFieldImpl<TStr<Str_8>> for (C0, C1, C2, C3, C4, C5, C6, C7, C8, C9) {
    type Error = InfallibleAccess;

    open spec fn get_field_spec(&self) -> Result<&C8, InfallibleAccess> {
        Ok(&self.8)
    }

    fn get_field_(&self, path: TStr<Str_8>) -> (r: Result<&C8, InfallibleAccess>) {
        Ok(&self.8)
    }
}

impl<C0, C1, C2, C3, C4, C5, C6, C7, C8, C9> GetFieldMutImpl<TStr<Str_8>> for (C0, C1, C2, C3, C4, C5, C6, C7, C8, C9) {
    open spec fn field_updated(old: &Self, new: &Self, v: C8) -> bool {
        *new == (old.0, old.1, old.2, old.3, old.4, old.5, old.6, old.7, v, old.9)
    }

    open spec fn unchanged(old: &Self, new: &Self) -> bool {
        *new == *old
    }

    proof fn lemma_read_after_write(old: &Self, new: &Self, v: C8) {
    }

    proof fn lemma_unchanged_reads_same(old: &Self, new: &Self) {
    }

    fn get_field_mut_(&mut self, path: TStr<Str_8>) -> (r: Result<&mut C8, InfallibleAccess>) {
        Ok(&mut self.8)
    }
}

impl<C0, C1, C2, C3, C4, C5, C6, C7, C8, C9> IntoFieldImpl<TStr<Str_8>> for (C0, C1, C2, C3, C4, C5, C6, C7, C8, C9) {
    fn into_field_(self, path: TStr<Str_8>) -> (r: Result<C8, InfallibleAccess>) {
        Ok(self.8)
    }
}

impl<C0, C1, C2, C3, C4, C5, C6, C7, C8, C9> FieldType<TStr<Str_9>> for (C0, C1, C2, C3, C4, C5, C6, C7, C8, C9) {
    type Ty = C9;
}

impl<C0, C1, C2, C3, C4, C5, C6, C7, C8, C9> GetFieldImpl<TStr<Str_9>> for (C0, C1, C2, C3, C4, C5, C6, C7, C8, C9) {
    type Error = InfallibleAccess;

    open spec fn get_field_spec(&self) -> Result<&C9, InfallibleAccess> {
        Ok(&self.9)
    }

    fn get_field_(&self, path: TStr<Str_9>) -> (r: Result<&C9, InfallibleAccess>) {
        Ok(&self.9)
    }
}

impl<C0, C1, C2, C3, C4, C5, C6, C7, C8, C9> GetFieldMutImpl<TStr<Str_9>> for (C0, C1, C2, C3, C4, C5, C6, C7, C8, C9) {
    open spec fn field_updated(old: &Self, new: &Self, v: C9) -> bool {
        *new == (old.0, old.1, old.2, old.3, old.4, old.5, old.6, old.7, old.8, v)
    }

    open spec fn unchanged(old: &Self, new: &Self) -> bool {
        *new == *old
    }

    proof fn lemma_read_after_write(old: &Self, new: &Self, v: C9) {
    }

    proof fn lemma_unchanged_reads_same(old: &Self, new: &Self) {
    }

    fn get_field_mut_(&mut self, path: TStr<Str_9>) -> (r: Result<&mut C9, InfallibleAccess>) {
        Ok(&mut self.9)
    }
}

impl<C0, C1, C2, C3, C4, C5, C6, C7, C8, C9> IntoFieldImpl<TStr<Str_9>> for (C0, C1, C2, C3, C4, C5, C6, C7, C8, C9) {
    fn into_field_(self, path: TStr<Str_9>) -> (r: Result<C9, InfallibleAccess>) {
        Ok(self.9)
    }
}

// Tuples of 11 elements.

impl<C0, C1, C2, C3, C4, C5, C6, C7, C8, C9, C10> FieldType<TStr<Str_0>> for (C0, C1, C2, C3, C4, C5, C6, C7, C8, C9, C10) {
    type Ty = C0;
}

impl<C0, C1, C2, C3, C4, C5, C6, C7, C8, C9, C10> GetFieldImpl<TStr<Str_0>> for (C0, C1, C2, C3, C4, C5, C6, C7, C8, C9, C10) {
    type Error = InfallibleAccess;

    open spec fn get_field_spec(&self) -> Result<&C0, InfallibleAccess> {
        Ok(&self.0)
    }

    fn get_field_(&self, path: TStr<Str_0>) -> (r: Result<&C0, InfallibleAccess>) {
        Ok(&self.0)
    }
}

impl<C0, C1, C2, C3, C4, C5, C6, C7, C8, C9, C10> GetFieldMutImpl<TStr<Str_0>> for (C0, C1, C2, C3, C4, C5, C6, C7, C8, C9, C10) {
    open spec fn field_updated(old: &Self, new: &Self, v: C0) -> bool {
        *new == (v, old.1, old.2, old.3, old.4, old.5, old.6, old.7, old.8, old.9, old.10)
    }

    open spec fn unchanged(old: &Self, new: &Self) -> bool {
        *new == *old
    }

    proof fn lemma_read_after_write(old: &Self, new: &Self, v: C0) {
    }

    proof fn lemma_unchanged_reads_same(old: &Self, new: &Self) {
    }

    fn get_field_mut_(&mut self, path: TStr<Str_0>) -> (r: Result<&mut C0, InfallibleAccess>) {
        Ok(&mut self.0)
    }
}

impl<C0, C1, C2, C3, C4, C5, C6, C7, C8, C9, C10> IntoFieldImpl<TStr<Str_0>> for (C0, C1, C2, C3, C4, C5, C6, C7, C8, C9, C10) {
    fn into_field_(self, path: TStr<Str_0>) -> (r: Result<C0, InfallibleAccess>) {
        Ok(self.0)
    }
}

impl<C0, C1, C2, C3, C4, C5, C6, C7, C8, C9, C10> FieldType<TStr<Str_1>> for (C0, C1, C2, C3, C4, C5, C6, C7, C8, C9, C10) {
    type Ty = C1;
}

impl<C0, C1, C2, C3, C4, C5, C6, C7, C8, C9, C10> GetFieldImpl<TStr<Str_1>> for (C0, C1, C2, C3, C4, C5, C6, C7, C8, C9, C10) {
    type Error = InfallibleAccess;

    open spec fn get_field_spec(&self) -> Result<&C1, InfallibleAccess> {
        Ok(&self.1)
    }

    fn get_field_(&self, path: TStr<Str_1>) -> (r: Result<&C1, InfallibleAccess>) {
        Ok(&self.1)
    }
}

impl<C0, C1, C2, C3, C4, C5, C6, C7, C8, C9, C10> GetFieldMutImpl<TStr<Str_1>> for (C0, C1, C2, C3, C4, C5, C6, C7, C8, C9, C10) {
    open spec fn field_updated(old: &Self, new: &Self, v: C1) -> bool {
        *new == (old.0, v, old.2, old.3, old.4, old.5, old.6, old.7, old.8, old.9, old.10)
    }

    open spec fn unchanged(old: &Self, new: &Self) -> bool {
        *new == *old
    }

    proof fn lemma_read_after_write(old: &Self, new: &Self, v: C1) {
    }

    proof fn lemma_unchanged_reads_same(old: &Self, new: &Self) {
    }

    fn get_field_mut_(&mut self, path: TStr<Str_1>) -> (r: Result<&mut C1, InfallibleAccess>) {
        Ok(&mut self.1)
    }
}

impl<C0, C1, C2, C3, C4, C5, C6, C7, C8, C9, C10> IntoFieldImpl<TStr<Str_1>> for (C0, C1, C2, C3, C4, C5, C6, C7, C8, C9, C10) {
    fn into_field_(self, path: TStr<Str_1>) -> (r: Result<C1, InfallibleAccess>) {
        Ok(self.1)
    }
}

impl<C0, C1, C2, C3, C4, C5, C6, C7, C8, C9, C10> FieldType<TStr<Str_2>> for (C0, C1, C2, C3, C4, C5, C6, C7, C8, C9, C10) {
    type Ty = C2;
}

impl<C0, C1, C2, C3, C4, C5, C6, C7, C8, C9, C10> GetFieldImpl<TStr<Str_2>> for (C0, C1, C2, C3, C4, C5, C6, C7, C8, C9, C10) {
    type Error = InfallibleAccess;

    open spec fn get_field_spec(&self) -> Result<&C2, InfallibleAccess> {
        Ok(&self.2)
    }

    fn get_field_(&self, path: TStr<Str_2>) -> (r: Result<&C2, InfallibleAccess>) {
        Ok(&self.2)
    }
}

impl<C0, C1, C2, C3, C4, C5, C6, C7, C8, C9, C10> GetFieldMutImpl<TStr<Str_2>> for (C0, C1, C2, C3, C4, C5, C6, C7, C8, C9, C10) {
    open spec fn field_updated(old: &Self, new: &Self, v: C2) -> bool {
        *new == (old.0, old.1, v, old.3, old.4, old.5, old.6, old.7, old.8, old.9, old.10)
    }

    open spec fn unchanged(old: &Self, new: &Self) -> bool {
        *new == *old
    }

    proof fn lemma_read_after_write(old: &Self, new: &Self, v: C2) {
    }

    proof fn lemma_unchanged_reads_same(old: &Self, new: &Self) {
    }

    fn get_field_mut_(&mut self, path: TStr<Str_2>) -> (r: Result<&mut C2, InfallibleAccess>) {
        Ok(&mut self.2)
    }
}

impl<C0, C1, C2, C3, C4, C5, C6, C7, C8, C9, C10> IntoFieldImpl<TStr<Str_2>> for (C0, C1, C2, C3, C4, C5, C6, C7, C8, C9, C10) {
    fn into_field_(self, path: TStr<Str_2>) -> (r: Result<C2, InfallibleAccess>) {
        Ok(self.2)
    }
}

impl<C0, C1, C2, C3, C4, C5, C6, C7, C8, C9, C10> FieldType<TStr<Str_3>> for (C0, C1, C2, C3, C4, C5, C6, C7, C8, C9, C10) {
    type Ty = C3;
}

impl<C0, C1, C2, C3, C4, C5, C6, C7, C8, C9, C10> GetFieldImpl<TStr<Str_3>> for (C0, C1, C2, C3, C4, C5, C6, C7, C8, C9, C10) {
    type Error = InfallibleAccess;

    open spec fn get_field_spec(&self) -> Result<&C3, InfallibleAccess> {
        Ok(&self.3)
    }

    fn get_field_(&self, path: TStr<Str_3>) -> (r: Result<&C3, InfallibleAccess>) {
        Ok(&self.3)
    }
}

impl<C0, C1, C2, C3, C4, C5, C6, C7, C8, C9, C10> GetFieldMutImpl<TStr<Str_3>> for (C0, C1, C2, C3, C4, C5, C6, C7, C8, C9, C10) {
    open spec fn field_updated(old: &Self, new: &Self, v: C3) -> bool {
        *new == (old.0, old.1, old.2, v, old.4, old.5, old.6, old.7, old.8, old.9, old.10)
    }

    open spec fn unchanged(old: &Self, new: &Self) -> bool {
        *new == *old
    }

    proof fn lemma_read_after_write(old: &Self, new: &Self, v: C3) {
    }

    proof fn lemma_unchanged_reads_same(old: &Self, new: &Self) {
    }

    fn get_field_mut_(&mut self, path: TStr<Str_3>) -> (r: Result<&mut C3, InfallibleAccess>) {
        Ok(&mut self.3)
    }
}

impl<C0, C1, C2, C3, C4, C5, C6, C7, C8, C9, C10> IntoFieldImpl<TStr<Str_3>> for (C0, C1, C2, C3, C4, C5, C6, C7, C8, C9, C10) {
    fn into_field_(self, path: TStr<Str_3>) -> (r: Result<C3, InfallibleAccess>) {
        Ok(self.3)
    }
}

impl<C0, C1, C2, C3, C4, C5, C6, C7, C8, C9, C10> FieldType<TStr<Str_4>> for (C0, C1, C2, C3, C4, C5, C6, C7, C8, C9, C10) {
    type Ty = C4;
}

impl<C0, C1, C2, C3, C4, C5, C6, C7, C8, C9, C10> GetFieldImpl<TStr<Str_4>> for (C0, C1, C2, C3, C4, C5, C6, C7, C8, C9, C10) {
    type Error = InfallibleAccess;

    open spec fn get_field_spec(&self) -> Result<&C4, InfallibleAccess> {
        Ok(&self.4)
    }

    fn get_field_(&self, path: TStr<Str_4>) -> (r: Result<&C4, InfallibleAccess>) {
        Ok(&self.4)
    }
}

impl<C0, C1, C2, C3, C4, C5, C6, C7, C8, C9, C10> GetFieldMutImpl<TStr<Str_4>> for (C0, C1, C2, C3, C4, C5, C6, C7, C8, C9, C10) {
    open spec fn field_updated(old: &Self, new: &Self, v: C4) -> bool {
        *new == (old.0, old.1, old.2, old.3, v, old.5, old.6, old.7, old.8, old.9, old.10)
    }

    open spec fn unchanged(old: &Self, new: &Self) -> bool {
        *new == *old
    }

    proof fn lemma_read_after_write(old: &Self, new: &Self, v: C4) {
    }

    proof fn lemma_unchanged_reads_same(old: &Self, new: &Self) {
    }

    fn get_field_mut_(&mut self, path: TStr<Str_4>) -> (r: Result<&mut C4, InfallibleAccess>) {
        Ok(&mut self.4)
    }
}

impl<C0, C1, C2, C3, C4, C5, C6, C7, C8, C9, C10> IntoFieldImpl<TStr<Str_4>> for (C0, C1, C2, C3, C4, C5, C6, C7, C8, C9, C10) {
    fn into_field_(self, path: TStr<Str_4>) -> (r: Result<C4, InfallibleAccess>) {
        Ok(self.4)
    }
}

impl<C0, C1, C2, C3, C4, C5, C6, C7, C8, C9, C10> FieldType<TStr<Str_5>> for (C0, C1, C2, C3, C4, C5, C6, C7, C8, C9, C10) {
    type Ty = C5;
}

impl<C0, C1, C2, C3, C4, C5, C6, C7, C8, C9, C10> GetFieldImpl<TStr<Str_5>> for (C0, C1, C2, C3, C4, C5, C6, C7, C8, C9, C10) {
    type Error = InfallibleAccess;

    open spec fn get_field_spec(&self) -> Result<&C5, InfallibleAccess> {
        Ok(&self.5)
    }

    fn get_field_(&self, path: TStr<Str_5>) -> (r: Result<&C5, InfallibleAccess>) {
        Ok(&self.5)
    }
}

impl<C0, C1, C2, C3, C4, C5, C6, C7, C8, C9, C10> GetFieldMutImpl<TStr<Str_5>> for (C0, C1, C2, C3, C4, C5, C6, C7, C8, C9, C10) {
    open spec fn field_updated(old: &Self, new: &Self, v: C5) -> bool {
        *new == (old.0, old.1, old.2, old.3, old.4, v, old.6, old.7, old.8, old.9, old.10)
    }

    open spec fn unchanged(old: &Self, new: &Self) -> bool {
        *new == *old
    }

    proof fn lemma_read_after_write(old: &Self, new: &Self, v: C5) {
    }

    proof fn lemma_unchanged_reads_same(old: &Self, new: &Self) {
    }

    fn get_field_mut_(&mut self, path: TStr<Str_5>) -> (r: Result<&mut C5, InfallibleAccess>) {
        Ok(&mut self.5)
    }
}

impl<C0, C1, C2, C3, C4, C5, C6, C7, C8, C9, C10> IntoFieldImpl<TStr<Str_5>> for (C0, C1, C2, C3, C4, C5, C6, C7, C8, C9, C10) {
    fn into_field_(self, path: TStr<Str_5>) -> (r: Result<C5, InfallibleAccess>) {
        Ok(self.5)
    }
}

impl<C0, C1, C2, C3, C4, C5, C6, C7, C8, C9, C10> FieldType<TStr<Str_6>> for (C0, C1, C2, C3, C4, C5, C6, C7, C8, C9, C10) {
    type Ty = C6;
}

impl<C0, C1, C2, C3, C4, C5, C6, C7, C8, C9, C10> GetFieldImpl<TStr<Str_6>> for (C0, C1, C2, C3, C4, C5, C6, C7, C8, C9, C10) {
    type Error = InfallibleAccess;

    open spec fn get_field_spec(&self) -> Result<&C6, InfallibleAccess> {
        Ok(&self.6)
    }

    fn get_field_(&self, path: TStr<Str_6>) -> (r: Result<&C6, InfallibleAccess>) {
        Ok(&self.6)
    }
}

impl<C0, C1, C2, C3, C4, C5, C6, C7, C8, C9, C10> GetFieldMutImpl<TStr<Str_6>> for (C0, C1, C2, C3, C4, C5, C6, C7, C8, C9, C10) {
    open spec fn field_updated(old: &Self, new: &Self, v: C6) -> bool {
        *new == (old.0, old.1, old.2, old.3, old.4, old.5, v, old.7, old.8, old.9, old.10)
    }

    open spec fn unchanged(old: &Self, new: &Self) -> bool {
        *new == *old
    }

    proof fn lemma_read_after_write(old: &Self, new: &Self, v: C6) {
    }

    proof fn lemma_unchanged_reads_same(old: &Self, new: &Self) {
    }

    fn get_field_mut_(&mut self, path: TStr<Str_6>) -> (r: Result<&mut C6, InfallibleAccess>) {
        Ok(&mut self.6)
    }
}

impl<C0, C1, C2, C3, C4, C5, C6, C7, C8, C9, C10> IntoFieldImpl<TStr<Str_6>> for (C0, C1, C2, C3, C4, C5, C6, C7, C8, C9, C10) {
    fn into_field_(self, path: TStr<Str_6>) -> (r: Result<C6, InfallibleAccess>) {
        Ok(self.6)
    }
}

impl<C0, C1, C2, C3, C4, C5, C6, C7, C8, C9, C10> FieldType<TStr<Str_7>> for (C0, C1, C2, C3, C4, C5, C6, C7, C8, C9, C10) {
    type Ty = C7;
}

impl<C0, C1, C2, C3, C4, C5, C6, C7, C8, C9, C10> GetFieldImpl<TStr<Str_7>> for (C0, C1, C2, C3, C4, C5, C6, C7, C8, C9, C10) {
    type Error = InfallibleAccess;

    open spec fn get_field_spec(&self) -> Result<&C7, InfallibleAccess> {
        Ok(&self.7)
    }

    fn get_field_(&self, path: TStr<Str_7>) -> (r: Result<&C7, InfallibleAccess>) {
        Ok(&self.7)
    }
}

impl<C0, C1, C2, C3, C4, C5, C6, C7, C8, C9, C10> GetFieldMutImpl<TStr<Str_7>> for (C0, C1, C2, C3, C4, C5, C6, C7, C8, C9, C10) {
    open spec fn field_updated(old: &Self, new: &Self, v: C7) -> bool {
        *new == (old.0, old.1, old.2, old.3, old.4, old.5, old.6, v, old.8, old.9, old.10)
    }

    open spec fn unchanged(old: &Self, new: &Self) -> bool {
        *new == *old
    }

    proof fn lemma_read_after_write(old: &Self, new: &Self, v: C7) {
    }

    proof fn lemma_unchanged_reads_same(old: &Self, new: &Self) {
    }

    fn get_field_mut_(&mut self, path: TStr<Str_7>) -> (r: Result<&mut C7, InfallibleAccess>) {
        Ok(&mut self.7)
    }
}

impl<C0, C1, C2, C3, C4, C5, C6, C7, C8, C9, C10> IntoFieldImpl<TStr<Str_7>> for (C0, C1, C2, C3, C4, C5, C6, C7, C8, C9, C10) {
    fn into_field_(self, path: TStr<Str_7>) -> (r: Result<C7, InfallibleAccess>) {
        Ok(self.7)
    }
}

impl<C0, C1, C2, C3, C4, C5, C6, C7, C8, C9, C10> FieldType<TStr<Str_8>> for (C0, C1, C2, C3, C4, C5, C6, C7, C8, C9, C10) {
    type Ty = C8;
}

impl<C0, C1, C2, C3, C4, C5, C6, C7, C8, C9, C10> GetFieldImpl<TStr<Str_8>> for (C0, C1, C2, C3, C4, C5, C6, C7, C8, C9, C10) {
    type Error = InfallibleAccess;

    open spec fn get_field_spec(&self) -> Result<&C8, InfallibleAccess> {
        Ok(&self.8)
    }

    fn get_field_(&self, path: TStr<Str_8>) -> (r: Result<&C8, InfallibleAccess>) {
        Ok(&self.8)
    }
}

impl<C0, C1, C2, C3, C4, C5, C6, C7, C8, C9, C10> GetFieldMutImpl<TStr<Str_8>> for (C0, C1, C2, C3, C4, C5, C6, C7, C8, C9, C10) {
    open spec fn field_updated(old: &Self, new: &Self, v: C8) -> bool {
        *new == (old.0, old.1, old.2, old.3, old.4, old.5, old.6, old.7, v, old.9, old.10)
    }

    open spec fn unchanged(old: &Self, new: &Self) -> bool {
        *new == *old
    }

    proof fn lemma_read_after_write(old: &Self, new: &Self, v: C8) {
    }

    proof fn lemma_unchanged_reads_same(old: &Self, new: &Self) {
    }

    fn get_field_mut_(&mut self, path: TStr<Str_8>) -> (r: Result<&mut C8, InfallibleAccess>) {
        Ok(&mut self.8)
    }
}

impl<C0, C1, C2, C3, C4, C5, C6, C7, C8, C9, C10> IntoFieldImpl<TStr<Str_8>> for (C0, C1, C2, C3, C4, C5, C6, C7, C8, C9, C10) {
    fn into_field_(self, path: TStr<Str_8>) -> (r: Result<C8, InfallibleAccess>) {
        Ok(self.8)
    }
}

impl<C0, C1, C2, C3, C4, C5, C6, C7, C8, C9, C10> FieldType<TStr<Str_9>> for (C0, C1, C2, C3, C4, C5, C6, C7, C8, C9, C10) {
    type Ty = C9;
}

impl<C0, C1, C2, C3, C4, C5, C6, C7, C8, C9, C10> GetFieldImpl<TStr<Str_9>> for (C0, C1, C2, C3, C4, C5, C6, C7, C8, C9, C10) {
    type Error = InfallibleAccess;

    open spec fn get_field_spec(&self) -> Result<&C9, InfallibleAccess> {
        Ok(&self.9)
    }

    fn get_field_(&self, path: TStr<Str_9>) -> (r: Result<&C9, InfallibleAccess>) {
        Ok(&self.9)
    }
}

impl<C0, C1, C2, C3, C4, C5, C6, C7, C8, C9, C10> GetFieldMutImpl<TStr<Str_9>> for (C0, C1, C2, C3, C4, C5, C6, C7, C8, C9, C10) {
    open spec fn field_updated(old: &Self, new: &Self, v: C9) -> bool {
        *new == (old.0, old.1, old.2, old.3, old.4, old.5, old.6, old.7, old.8, v, old.10)
    }

    open spec fn unchanged(old: &Self, new: &Self) -> bool {
        *new == *old
    }

    proof fn lemma_read_after_write(old: &Self, new: &Self, v: C9) {
    }

    proof fn lemma_unchanged_reads_same(old: &Self, new: &Self) {
    }

    fn get_field_mut_(&mut self, path: TStr<Str_9>) -> (r: Result<&mut C9, InfallibleAccess>) {
        Ok(&mut self.9)
    }
}

impl<C0, C1, C2, C3, C4, C5, C6, C7, C8, C9, C10> IntoFieldImpl<TStr<Str_9>> for (C0, C1, C2, C3, C4, C5, C6, C7, C8, C9, C10) {
    fn into_field_(self, path: TStr<Str_9>) -> (r: Result<C9, InfallibleAccess>) {
        Ok(self.9)
    }
}

impl<C0, C1, C2, C3, C4, C5, C6, C7, C8, C9, C10> FieldType<TStr<Str_10>> for (C0, C1, C2, C3, C4, C5, C6, C7, C8, C9, C10) {
    type Ty = C10;
}

impl<C0, C1, C2, C3, C4, C5, C6, C7, C8, C9, C10> GetFieldImpl<TStr<Str_10>> for (C0, C1, C2, C3, C4, C5, C6, C7, C8, C9, C10) {
    type Error = InfallibleAccess;

    open spec fn get_field_spec(&self) -> Result<&C10, InfallibleAccess> {
        Ok(&self.10)
    }

    fn get_field_(&self, path: TStr<Str_10>) -> (r: Result<&C10, InfallibleAccess>) {
        Ok(&self.10)
    }
}

impl<C0, C1, C2, C3, C4, C5, C6, C7, C8, C9, C10> GetFieldMutImpl<TStr<Str_10>> for (C0, C1, C2, C3, C4, C5, C6, C7, C8, C9, C10) {
    open spec fn field_updated(old: &Self, new: &Self, v: C10) -> bool {
        *new == (old.0, old.1, old.2, old.3, old.4, old.5, old.6, old.7, old.8, old.9, v)
    }

    open spec fn unchanged(old: &Self, new: &Self) -> bool {
        *new == *old
    }

    proof fn lemma_read_after_write(old: &Self, new: &Self, v: C10) {
    }

    proof fn lemma_unchanged_reads_same(old: &Self, new: &Self) {
    }

    fn get_field_mut_(&mut self, path: TStr<Str_10>) -> (r: Result<&mut C10, InfallibleAccess>) {
        Ok(&mut self.10)
    }
}

impl<C0, C1, C2, C3, C4, C5, C6, C7, C8, C9, C10> IntoFieldImpl<TStr<Str_10>> for (C0, C1, C2, C3, C4, C5, C6, C7, C8, C9, C10) {
    fn into_field_(self, path: TStr<Str_10>) -> (r: Result<C10, InfallibleAccess>) {
        Ok(self.10)
    }
}

// Tuples of 12 elements.

impl<C0, C1, C2, C3, C4, C5, C6, C7, C8, C9, C10, C11> FieldType<TStr<Str_0>> for (C0, C1, C2, C3, C4, C5, C6, C7, C8, C9, C10, C11) {
    type Ty = C0;
}

impl<C0, C1, C2, C3, C4, C5, C6, C7, C8, C9, C10, C11> GetFieldImpl<TStr<Str_0>> for (C0, C1, C2, C3, C4, C5, C6, C7, C8, C9, C10, C11) {
    type Error = InfallibleAccess;

    open spec fn get_field_spec(&self) -> Result<&C0, InfallibleAccess> {
        Ok(&self.0)
    }

    fn get_field_(&self, path: TStr<Str_0>) -> (r: Result<&C0, InfallibleAccess>) {
        Ok(&self.0)
    }
}

impl<C0, C1, C2, C3, C4, C5, C6, C7, C8, C9, C10, C11> GetFieldMutImpl<TStr<Str_0>> for (C0, C1, C2, C3, C4, C5, C6, C7, C8, C9, C10, C11) {
    open spec fn field_updated(old: &Self, new: &Self, v: C0) -> bool {
        *new == (v, old.1, old.2, old.3, old.4, old.5, old.6, old.7, old.8, old.9, old.10, old.11)
    }

    open spec fn unchanged(old: &Self, new: &Self) -> bool {
        *new == *old
    }

    proof fn lemma_read_after_write(old: &Self, new: &Self, v: C0) {
    }

    proof fn lemma_unchanged_reads_same(old: &Self, new: &Self) {
    }

    fn get_field_mut_(&mut self, path: TStr<Str_0>) -> (r: Result<&mut C0, InfallibleAccess>) {
        Ok(&mut self.0)
    }
}

impl<C0, C1, C2, C3, C4, C5, C6, C7, C8, C9, C10, C11> IntoFieldImpl<TStr<Str_0>> for (C0, C1, C2, C3, C4, C5, C6, C7, C8, C9, C10, C11) {
    fn into_field_(self, path: TStr<Str_0>) -> (r: Result<C0, InfallibleAccess>) {
        Ok(self.0)
    }
}

impl<C0, C1, C2, C3, C4, C5, C6, C7, C8, C9, C10, C11> FieldType<TStr<Str_1>> for (C0, C1, C2, C3, C4, C5, C6, C7, C8, C9, C10, C11) {
    type Ty = C1;
}

impl<C0, C1, C2, C3, C4, C5, C6, C7, C8, C9, C10, C11> GetFieldImpl<TStr<Str_1>> for (C0, C1, C2, C3, C4, C5, C6, C7, C8, C9, C10, C11) {
    type Error = InfallibleAccess;

    open spec fn get_field_spec(&self) -> Result<&C1, InfallibleAccess> {
        Ok(&self.1)
    }

    fn get_field_(&self, path: TStr<Str_1>) -> (r: Result<&C1, InfallibleAccess>) {
        Ok(&self.1)
    }
}

impl<C0, C1, C2, C3, C4, C5, C6, C7, C8, C9, C10, C11> GetFieldMutImpl<TStr<Str_1>> for (C0, C1, C2, C3, C4, C5, C6, C7, C8, C9, C10, C11) {
    open spec fn field_updated(old: &Self, new: &Self, v: C1) -> bool {
        *new == (old.0, v, old.2, old.3, old.4, old.5, old.6, old.7, old.8, old.9, old.10, old.11)
    }

    open spec fn unchanged(old: &Self, new: &Self) -> bool {
        *new == *old
    }

    proof fn lemma_read_after_write(old: &Self, new: &Self, v: C1) {
    }

    proof fn lemma_unchanged_reads_same(old: &Self, new: &Self) {
    }

    fn get_field_mut_(&mut self, path: TStr<Str_1>) -> (r: Result<&mut C1, InfallibleAccess>) {
        Ok(&mut self.1)
    }
}

impl<C0, C1, C2, C3, C4, C5, C6, C7, C8, C9, C10, C11> IntoFieldImpl<TStr<Str_1>> for (C0, C1, C2, C3, C4, C5, C6, C7, C8, C9, C10, C11) {
    fn into_field_(self, path: TStr<Str_1>) -> (r: Result<C1, InfallibleAccess>) {
        Ok(self.1)
    }
}

impl<C0, C1, C2, C3, C4, C5, C6, C7, C8, C9, C10, C11> FieldType<TStr<Str_2>> for (C0, C1, C2, C3, C4, C5, C6, C7, C8, C9, C10, C11) {
    type Ty = C2;
}

impl<C0, C1, C2, C3, C4, C5, C6, C7, C8, C9, C10, C11> GetFieldImpl<TStr<Str_2>> for (C0, C1, C2, C3, C4, C5, C6, C7, C8, C9, C10, C11) {
    type Error = InfallibleAccess;

    open spec fn get_field_spec(&self) -> Result<&C2, InfallibleAccess> {
        Ok(&self.2)
    }

    fn get_field_(&self, path: TStr<Str_2>) -> (r: Result<&C2, InfallibleAccess>) {
        Ok(&self.2)
    }
}

impl<C0, C1, C2, C3, C4, C5, C6, C7, C8, C9, C10, C11> GetFieldMutImpl<TStr<Str_2>> for (C0, C1, C2, C3, C4, C5, C6, C7, C8, C9, C10, C11) {
    open spec fn field_updated(old: &Self, new: &Self, v: C2) -> bool {
        *new == (old.0, old.1, v, old.3, old.4, old.5, old.6, old.7, old.8, old.9, old.10, old.11)
    }

    open spec fn unchanged(old: &Self, new: &Self) -> bool {
        *new == *old
    }

    proof fn lemma_read_after_write(old: &Self, new: &Self, v: C2) {
    }

    proof fn lemma_unchanged_reads_same(old: &Self, new: &Self) {
    }

    fn get_field_mut_(&mut self, path: TStr<Str_2>) -> (r: Result<&mut C2, InfallibleAccess>) {
        Ok(&mut self.2)
    }
}

impl<C0, C1, C2, C3, C4, C5, C6, C7, C8, C9, C10, C11> IntoFieldImpl<TStr<Str_2>> for (C0, C1, C2, C3, C4, C5, C6, C7, C8, C9, C10, C11) {
    fn into_field_(self, path: TStr<Str_2>) -> (r: Result<C2, InfallibleAccess>) {
        Ok(self.2)
    }
}

impl<C0, C1, C2, C3, C4, C5, C6, C7, C8, C9, C10, C11> FieldType<TStr<Str_3>> for (C0, C1, C2, C3, C4, C5, C6, C7, C8, C9, C10, C11) {
    type Ty = C3;
}

impl<C0, C1, C2, C3, C4, C5, C6, C7, C8, C9, C10, C11> GetFieldImpl<TStr<Str_3>> for (C0, C1, C2, C3, C4, C5, C6, C7, C8, C9, C10, C11) {
    type Error = InfallibleAccess;

    open spec fn get_field_spec(&self) -> Result<&C3, InfallibleAccess> {
        Ok(&self.3)
    }

    fn get_field_(&self, path: TStr<Str_3>) -> (r: Result<&C3, InfallibleAccess>) {
        Ok(&self.3)
    }
}

impl<C0, C1, C2, C3, C4, C5, C6, C7, C8, C9, C10, C11> GetFieldMutImpl<TStr<Str_3>> for (C0, C1, C2, C3, C4, C5, C6, C7, C8, C9, C10, C11) {
    open spec fn field_updated(old: &Self, new: &Self, v: C3) -> bool {
        *new == (old.0, old.1, old.2, v, old.4, old.5, old.6, old.7, old.8, old.9, old.10, old.11)
    }

    open spec fn unchanged(old: &Self, new: &Self) -> bool {
        *new == *old
    }

    proof fn lemma_read_after_write(old: &Self, new: &Self, v: C3) {
    }

    proof fn lemma_unchanged_reads_same(old: &Self, new: &Self) {
    }

    fn get_field_mut_(&mut self, path: TStr<Str_3>) -> (r: Result<&mut C3, InfallibleAccess>) {
        Ok(&mut self.3)
    }
}

impl<C0, C1, C2, C3, C4, C5, C6, C7, C8, C9, C10, C11> IntoFieldImpl<TStr<Str_3>> for (C0, C1, C2, C3, C4, C5, C6, C7, C8, C9, C10, C11) {
    fn into_field_(self, path: TStr<Str_3>) -> (r: Result<C3, InfallibleAccess>) {
        Ok(self.3)
    }
}

impl<C0, C1, C2, C3, C4, C5, C6, C7, C8, C9, C10, C11> FieldType<TStr<Str_4>> for (C0, C1, C2, C3, C4, C5, C6, C7, C8, C9, C10, C11) {
    type Ty = C4;
}

impl<C0, C1, C2, C3, C4, C5, C6, C7, C8, C9, C10, C11> GetFieldImpl<TStr<Str_4>> for (C0, C1, C2, C3, C4, C5, C6, C7, C8, C9, C10, C11) {
    type Error = InfallibleAccess;

    open spec fn get_field_spec(&self) -> Result<&C4, InfallibleAccess> {
        Ok(&self.4)
    }

    fn get_field_(&self, path: TStr<Str_4>) -> (r: Result<&C4, InfallibleAccess>) {
        Ok(&self.4)
    }
}

impl<C0, C1, C2, C3, C4, C5, C6, C7, C8, C9, C10, C11> GetFieldMutImpl<TStr<Str_4>> for (C0, C1, C2, C3, C4, C5, C6, C7, C8, C9, C10, C11) {
    open spec fn field_updated(old: &Self, new: &Self, v: C4) -> bool {
        *new == (old.0, old.1, old.2, old.3, v, old.5, old.6, old.7, old.8, old.9, old.10, old.11)
    }

    open spec fn unchanged(old: &Self, new: &Self) -> bool {
        *new == *old
    }

    proof fn lemma_read_after_write(old: &Self, new: &Self, v: C4) {
    }

    proof fn lemma_unchanged_reads_same(old: &Self, new: &Self) {
    }

    fn get_field_mut_(&mut self, path: TStr<Str_4>) -> (r: Result<&mut C4, InfallibleAccess>) {
        Ok(&mut self.4)
    }
}

impl<C0, C1, C2, C3, C4, C5, C6, C7, C8, C9, C10, C11> IntoFieldImpl<TStr<Str_4>> for (C0, C1, C2, C3, C4, C5, C6, C7, C8, C9, C10, C11) {
    fn into_field_(self, path: TStr<Str_4>) -> (r: Result<C4, InfallibleAccess>) {
        Ok(self.4)
    }
}

impl<C0, C1, C2, C3, C4, C5, C6, C7, C8, C9, C10, C11> FieldType<TStr<Str_5>> for (C0, C1, C2, C3, C4, C5, C6, C7, C8, C9, C10, C11) {
    type Ty = C5;
}

impl<C0, C1, C2, C3, C4, C5, C6, C7, C8, C9, C10, C11> GetFieldImpl<TStr<Str_5>> for (C0, C1, C2, C3, C4, C5, C6, C7, C8, C9, C10, C11) {
    type Error = InfallibleAccess;

    open spec fn get_field_spec(&self) -> Result<&C5, InfallibleAccess> {
        Ok(&self.5)
    }

    fn get_field_(&self, path: TStr<Str_5>) -> (r: Result<&C5, InfallibleAccess>) {
        Ok(&self.5)
    }
}

impl<C0, C1, C2, C3, C4, C5, C6, C7, C8, C9, C10, C11> GetFieldMutImpl<TStr<Str_5>> for (C0, C1, C2, C3, C4, C5, C6, C7, C8, C9, C10, C11) {
    open spec fn field_updated(old: &Self, new: &Self, v: C5) -> bool {
        *new == (old.0, old.1, old.2, old.3, old.4, v, old.6, old.7, old.8, old.9, old.10, old.11)
    }

    open spec fn unchanged(old: &Self, new: &Self) -> bool {
        *new == *old
    }

    proof fn lemma_read_after_write(old: &Self, new: &Self, v: C5) {
    }

    proof fn lemma_unchanged_reads_same(old: &Self, new: &Self) {
    }

    fn get_field_mut_(&mut self, path: TStr<Str_5>) -> (r: Result<&mut C5, InfallibleAccess>) {
        Ok(&mut self.5)
    }
}

impl<C0, C1, C2, C3, C4, C5, C6, C7, C8, C9, C10, C11> IntoFieldImpl<TStr<Str_5>> for (C0, C1, C2, C3, C4, C5, C6, C7, C8, C9, C10, C11) {
    fn into_field_(self, path: TStr<Str_5>) -> (r: Result<C5, InfallibleAccess>) {
        Ok(self.5)
    }
}

impl<C0, C1, C2, C3, C4, C5, C6, C7, C8, C9, C10, C11> FieldType<TStr<Str_6>> for (C0, C1, C2, C3, C4, C5, C6, C7, C8, C9, C10, C11) {
    type Ty = C6;
}

impl<C0, C1, C2, C3, C4, C5, C6, C7, C8, C9, C10, C11> GetFieldImpl<TStr<Str_6>> for (C0, C1, C2, C3, C4, C5, C6, C7, C8, C9, C10, C11) {
    type Error = InfallibleAccess;

    open spec fn get_field_spec(&self) -> Result<&C6, InfallibleAccess> {
        Ok(&self.6)
    }

    fn get_field_(&self, path: TStr<Str_6>) -> (r: Result<&C6, InfallibleAccess>) {
        Ok(&self.6)
    }
}

impl<C0, C1, C2, C3, C4, C5, C6, C7, C8, C9, C10, C11> GetFieldMutImpl<TStr<Str_6>> for (C0, C1, C2, C3, C4, C5, C6, C7, C8, C9, C10, C11) {
    open spec fn field_updated(old: &Self, new: &Self, v: C6) -> bool {
        *new == (old.0, old.1, old.2, old.3, old.4, old.5, v, old.7, old.8, old.9, old.10, old.11)
    }

    open spec fn unchanged(old: &Self, new: &Self) -> bool {
        *new == *old
    }

    proof fn lemma_read_after_write(old: &Self, new: &Self, v: C6) {
    }

    proof fn lemma_unchanged_reads_same(old: &Self, new: &Self) {
    }

    fn get_field_mut_(&mut self, path: TStr<Str_6>) -> (r: Result<&mut C6, InfallibleAccess>) {
        Ok(&mut self.6)
    }
}

impl<C0, C1, C2, C3, C4, C5, C6, C7, C8, C9, C10, C11> IntoFieldImpl<TStr<Str_6>> for (C0, C1, C2, C3, C4, C5, C6, C7, C8, C9, C10, C11) {
    fn into_field_(self, path: TStr<Str_6>) -> (r: Result<C6, InfallibleAccess>) {
        Ok(self.6)
    }
}

impl<C0, C1, C2, C3, C4, C5, C6, C7, C8, C9, C10, C11> FieldType<TStr<Str_7>> for (C0, C1, C2, C3, C4, C5, C6, C7, C8, C9, C10, C11) {
    type Ty = C7;
}

impl<C0, C1, C2, C3, C4, C5, C6, C7, C8, C9, C10, C11> GetFieldImpl<TStr<Str_7>> for (C0, C1, C2, C3, C4, C5, C6, C7, C8, C9, C10, C11) {
    type Error = InfallibleAccess;

    open spec fn get_field_spec(&self) -> Result<&C7, InfallibleAccess> {
        Ok(&self.7)
    }

    fn get_field_(&self, path: TStr<Str_7>) -> (r: Result<&C7, InfallibleAccess>) {
        Ok(&self.7)
    }
}

impl<C0, C1, C2, C3, C4, C5, C6, C7, C8, C9, C10, C11> GetFieldMutImpl<TStr<Str_7>> for (C0, C1, C2, C3, C4, C5, C6, C7, C8, C9, C10, C11) {
    open spec fn field_updated(old: &Self, new: &Self, v: C7) -> bool {
        *new == (old.0, old.1, old.2, old.3, old.4, old.5, old.6, v, old.8, old.9, old.10, old.11)
    }

    open spec fn unchanged(old: &Self, new: &Self) -> bool {
        *new == *old
    }

    proof fn lemma_read_after_write(old: &Self, new: &Self, v: C7) {
    }

    proof fn lemma_unchanged_reads_same(old: &Self, new: &Self) {
    }

    fn get_field_mut_(&mut self, path: TStr<Str_7>) -> (r: Result<&mut C7, InfallibleAccess>) {
        Ok(&mut self.7)
    }
}

impl<C0, C1, C2, C3, C4, C5, C6, C7, C8, C9, C10, C11> IntoFieldImpl<TStr<Str_7>> for (C0, C1, C2, C3, C4, C5, C6, C7, C8, C9, C10, C11) {
    fn into_field_(self, path: TStr<Str_7>) -> (r: Result<C7, InfallibleAccess>) {
        Ok(self.7)
    }
}

impl<C0, C1, C2, C3, C4, C5, C6, C7, C8, C9, C10, C11> FieldType<TStr<Str_8>> for (C0, C1, C2, C3, C4, C5, C6, C7, C8, C9, C10, C11) {
    type Ty = C8;
}

impl<C0, C1, C2, C3, C4, C5, C6, C7, C8, C9, C10, C11> GetFieldImpl<TStr<Str_8>> for (C0, C1, C2, C3, C4, C5, C6, C7, C8, C9, C10, C11) {
    type Error = InfallibleAccess;

    open spec fn get_field_spec(&self) -> Result<&C8, InfallibleAccess> {
        Ok(&self.8)
    }

    fn get_field_(&self, path: TStr<Str_8>) -> (r: Result<&C8, InfallibleAccess>) {
        Ok(&self.8)
    }
}

impl<C0, C1, C2, C3, C4, C5, C6, C7, C8, C9, C10, C11> GetFieldMutImpl<TStr<Str_8>> for (C0, C1, C2, C3, C4, C5, C6, C7, C8, C9, C10, C11) {
    open spec fn field_updated(old: &Self, new: &Self, v: C8) -> bool {
        *new == (old.0, old.1, old.2, old.3, old.4, old.5, old.6, old.7, v, old.9, old.10, old.11)
    }

    open spec fn unchanged(old: &Self, new: &Self) -> bool {
        *new == *old
    }

    proof fn lemma_read_after_write(old: &Self, new: &Self, v: C8) {
    }

    proof fn lemma_unchanged_reads_same(old: &Self, new: &Self) {
    }

    fn get_field_mut_(&mut self, path: TStr<Str_8>) -> (r: Result<&mut C8, InfallibleAccess>) {
        Ok(&mut self.8)
    }
}

impl<C0, C1, C2, C3, C4, C5, C6, C7, C8, C9, C10, C11> IntoFieldImpl<TStr<Str_8>> for (C0, C1, C2, C3, C4, C5, C6, C7, C8, C9, C10, C11) {
    fn into_field_(self, path: TStr<Str_8>) -> (r: Result<C8, InfallibleAccess>) {
        Ok(self.8)
    }
}

impl<C0, C1, C2, C3, C4, C5, C6, C7, C8, C9, C10, C11> FieldType<TStr<Str_9>> for (C0, C1, C2, C3, C4, C5, C6, C7, C8, C9, C10, C11) {
    type Ty = C9;
}

impl<C0, C1, C2, C3, C4, C5, C6, C7, C8, C9, C10, C11> GetFieldImpl<TStr<Str_9>> for (C0, C1, C2, C3, C4, C5, C6, C7, C8, C9, C10, C11) {
    type Error = InfallibleAccess;

    open spec fn get_field_spec(&self) -> Result<&C9, InfallibleAccess> {
        Ok(&self.9)
    }

    fn get_field_(&self, path: TStr<Str_9>) -> (r: Result<&C9, InfallibleAccess>) {
        Ok(&self.9)
    }
}

impl<C0, C1, C2, C3, C4, C5, C6, C7, C8, C9, C10, C11> GetFieldMutImpl<TStr<Str_9>> for (C0, C1, C2, C3, C4, C5, C6, C7, C8, C9, C10, C11) {
    open spec fn field_updated(old: &Self, new: &Self, v: C9) -> bool {
        *new == (old.0, old.1, old.2, old.3, old.4, old.5, old.6, old.7, old.8, v, old.10, old.11)
    }

    open spec fn unchanged(old: &Self, new: &Self) -> bool {
        *new == *old
    }

    proof fn lemma_read_after_write(old: &Self, new: &Self, v: C9) {
    }

    proof fn lemma_unchanged_reads_same(old: &Self, new: &Self) {
    }

    fn get_field_mut_(&mut self, path: TStr<Str_9>) -> (r: Result<&mut C9, InfallibleAccess>) {
        Ok(&mut self.9)
    }
}

impl<C0, C1, C2, C3, C4, C5, C6, C7, C8, C9, C10, C11> IntoFieldImpl<TStr<Str_9>> for (C0, C1, C2, C3, C4, C5, C6, C7, C8, C9, C10, C11) {
    fn into_field_(self, path: TStr<Str_9>) -> (r: Result<C9, InfallibleAccess>) {
        Ok(self.9)
    }
}

impl<C0, C1, C2, C3, C4, C5, C6, C7, C8, C9, C10, C11> FieldType<TStr<Str_10>> for (C0, C1, C2, C3, C4, C5, C6, C7, C8, C9, C10, C11) {
    type Ty = C10;
}

impl<C0, C1, C2, C3, C4, C5, C6, C7, C8, C9, C10, C11> GetFieldImpl<TStr<Str_10>> for (C0, C1, C2, C3, C4, C5, C6, C7, C8, C9, C10, C11) {
    type Error = InfallibleAccess;

    open spec fn get_field_spec(&self) -> Result<&C10, InfallibleAccess> {
        Ok(&self.10)
    }

    fn get_field_(&self, path: TStr<Str_10>) -> (r: Result<&C10, InfallibleAccess>) {
        Ok(&self.10)
    }
}

impl<C0, C1, C2, C3, C4, C5, C6, C7, C8, C9, C10, C11> GetFieldMutImpl<TStr<Str_10>> for (C0, C1, C2, C3, C4, C5, C6, C7, C8, C9, C10, C11) {
    open spec fn field_updated(old: &Self, new: &Self, v: C10) -> bool {
        *new == (old.0, old.1, old.2, old.3, old.4, old.5, old.6, old.7, old.8, old.9, v, old.11)
    }

    open spec fn unchanged(old: &Self, new: &Self) -> bool {
        *new == *old
    }

    proof fn lemma_read_after_write(old: &Self, new: &Self, v: C10) {
    }

    proof fn lemma_unchanged_reads_same(old: &Self, new: &Self) {
    }

    fn get_field_mut_(&mut self, path: TStr<Str_10>) -> (r: Result<&mut C10, InfallibleAccess>) {
        Ok(&mut self.10)
    }
}

impl<C0, C1, C2, C3, C4, C5, C6, C7, C8, C9, C10, C11> IntoFieldImpl<TStr<Str_10>> for (C0, C1, C2, C3, C4, C5, C6, C7, C8, C9, C10, C11) {
    fn into_field_(self, path: TStr<Str_10>) -> (r: Result<C10, InfallibleAccess>) {
        Ok(self.10)
    }
}

impl<C0, C1, C2, C3, C4, C5, C6, C7, C8, C9, C10, C11> FieldType<TStr<Str_11>> for (C0, C1, C2, C3, C4, C5, C6, C7, C8, C9, C10, C11) {
    type Ty = C11;
}

impl<C0, C1, C2, C3, C4, C5, C6, C7, C8, C9, C10, C11> GetFieldImpl<TStr<Str_11>> for (C0, C1, C2, C3, C4, C5, C6, C7, C8, C9, C10, C11) {
    type Error = InfallibleAccess;

    open spec fn get_field_spec(&self) -> Result<&C11, InfallibleAccess> {
        Ok(&self.11)
    }

    fn get_field_(&self, path: TStr<Str_11>) -> (r: Result<&C11, InfallibleAccess>) {
        Ok(&self.11)
    }
}

impl<C0, C1, C2, C3, C4, C5, C6, C7, C8, C9, C10, C11> GetFieldMutImpl<TStr<Str_11>> for (C0, C1, C2, C3, C4, C5, C6, C7, C8, C9, C10, C11) {
    open spec fn field_updated(old: &Self, new: &Self, v: C11) -> bool {
        *new == (old.0, old.1, old.2, old.3, old.4, old.5, old.6, old.7, old.8, old.9, old.10, v)
    }

    open spec fn unchanged(old: &Self, new: &Self) -> bool {
        *new == *old
    }

    proof fn lemma_read_after_write(old: &Self, new: &Self, v: C11) {
    }

    proof fn lemma_unchanged_reads_same(old: &Self, new: &Self) {
    }

    fn get_field_mut_(&mut self, path: TStr<Str_11>) -> (r: Result<&mut C11, InfallibleAccess>) {
        Ok(&mut self.11)
    }
}

impl<C0, C1, C2, C3, C4, C5, C6, C7, C8, C9, C10, C11> IntoFieldImpl<TStr<Str_11>> for (C0, C1, C2, C3, C4, C5, C6, C7, C8, C9, C10, C11) {
    fn into_field_(self, path: TStr<Str_11>) -> (r: Result<C11, InfallibleAccess>) {
        Ok(self.11)
    }
}

} // verus!