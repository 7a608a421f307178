//! Field accessors for std types: slices (whose fields are their elements),
//! ranges (`start` and `end`), and the references, smart pointers and
//! wrappers that give the fields of what they hold.
use crate::field::errors::{FailedAccess, InfallibleAccess};
use crate::enums::IsVariant;
use crate::field::{
    FieldType, GetFieldImpl, GetFieldMutImpl, GetVariantField, GetVariantFieldMut, IntoFieldImpl,
    IntoVariantField,
};
use crate::field_path::names::{Str_end, Str_start};
use crate::field::split_fields::{
    FieldSlots, SplitFieldsInto, SplitFieldsMut, TakeFieldInto, TakeFieldMut,
};
use crate::field_path::{IsSingleFieldPath, TStr, ToUsize};
use std::mem::ManuallyDrop;
use std::ops::Range;
use std::rc::Rc;
use std::sync::Arc;
use vstd::prelude::*;
use vstd::std_specs::manually_drop::ManuallyDropAdditionalFns;

verus! {

/// A mutable reference to the element at `index`, or `None` when `index` is
/// out of bounds.
pub(crate) fn slice_get_mut<T>(slice: &mut [T], index: usize) -> (r: Option<&mut T>)
    ensures
        match r {
            Some(x) => {
                &&& index < old(slice)@.len()
                &&& *x == old(slice)@[index as int]
                &&& final(slice)@ == old(slice)@.update(index as int, *final(x))
            },
            None => {
                &&& index >= old(slice)@.len()
                &&& final(slice)@ == old(slice)@
            },
        },
{
    if index < slice.len() {
        let (_front, back) = slice.split_at_mut(index);
        back.first_mut()
    } else {
        None
    }
}

////////////////////////////////////////////////////////////////////////////////
// Slices: the field named `N` (a decimal numeral) is the element at index `N`,
// absent when the slice is shorter.

impl<T, P> FieldType<P> for [T] {
    type Ty = T;
}

impl<T, P: ToUsize> GetFieldImpl<P> for [T] {
    type Error = FailedAccess;

    open spec fn get_field_spec(&self) -> Result<&T, FailedAccess> {
        if P::usize_spec() < self@.len() {
            Ok(&self@[P::usize_spec() as int])
        } else {
            Err(FailedAccess)
        }
    }

    fn get_field_(&self, path: P) -> (r: Result<&T, FailedAccess>) {
        let index = P::to_usize();
        if index < self.len() {
            Ok(&self[index])
        } else {
            Err(FailedAccess)
        }
    }
}

impl<T, P: ToUsize> GetFieldMutImpl<P> for [T] {
    open spec fn field_updated(old: &Self, new: &Self, v: T) -> bool {
        &&& P::usize_spec() < old@.len()
        &&& new@ == old@.update(P::usize_spec() as int, v)
    }

    open spec fn unchanged(old: &Self, new: &Self) -> bool {
        new@ == old@
    }

    proof fn lemma_read_after_write(old: &Self, new: &Self, v: T) {
    }

    proof fn lemma_unchanged_reads_same(old: &Self, new: &Self) {
    }

    fn get_field_mut_(&mut self, path: P) -> (r: Result<&mut T, FailedAccess>) {
        let index = P::to_usize();
        match slice_get_mut(self, index) {
            Some(x) => Ok(x),
            None => Err(FailedAccess),
        }
    }
}

////////////////////////////////////////////////////////////////////////////////
// Ranges: the fields `start` and `end`.

impl<T> FieldType<TStr<Str_start>> for Range<T> {
    type Ty = T;
}

impl<T> GetFieldImpl<TStr<Str_start>> for Range<T> {
    type Error = InfallibleAccess;

    open spec fn get_field_spec(&self) -> Result<&T, InfallibleAccess> {
        Ok(&self.start)
    }

    fn get_field_(&self, path: TStr<Str_start>) -> (r: Result<&T, InfallibleAccess>) {
        Ok(&self.start)
    }
}

impl<T> GetFieldMutImpl<TStr<Str_start>> for Range<T> {
    open spec fn field_updated(old: &Self, new: &Self, v: T) -> bool {
        new.start == v && new.end == old.end
    }

    open spec fn unchanged(old: &Self, new: &Self) -> bool {
        *new == *old
    }

    proof fn lemma_read_after_write(old: &Self, new: &Self, v: T) {
    }

    proof fn lemma_unchanged_reads_same(old: &Self, new: &Self) {
    }

    fn get_field_mut_(&mut self, path: TStr<Str_start>) -> (r: Result<&mut T, InfallibleAccess>) {
        Ok(&mut self.start)
    }
}

impl<T> IntoFieldImpl<TStr<Str_start>> for Range<T> {
    fn into_field_(self, path: TStr<Str_start>) -> (r: Result<T, InfallibleAccess>) {
        Ok(self.start)
    }
}

impl<T> FieldType<TStr<Str_end>> for Range<T> {
    type Ty = T;
}

impl<T> GetFieldImpl<TStr<Str_end>> for Range<T> {
    type Error = InfallibleAccess;

    open spec fn get_field_spec(&self) -> Result<&T, InfallibleAccess> {
        Ok(&self.end)
    }

    fn get_field_(&self, path: TStr<Str_end>) -> (r: Result<&T, InfallibleAccess>) {
        Ok(&self.end)
    }
}

impl<T> GetFieldMutImpl<TStr<Str_end>> for Range<T> {
    open spec fn field_updated(old: &Self, new: &Self, v: T) -> bool {
        new.end == v && new.start == old.start
    }

    open spec fn unchanged(old: &Self, new: &Self) -> bool {
        *new == *old
    }

    proof fn lemma_read_after_write(old: &Self, new: &Self, v: T) {
    }

    proof fn lemma_unchanged_reads_same(old: &Self, new: &Self) {
    }

    fn get_field_mut_(&mut self, path: TStr<Str_end>) -> (r: Result<&mut T, InfallibleAccess>) {
        Ok(&mut self.end)
    }
}

impl<T> IntoFieldImpl<TStr<Str_end>> for Range<T> {
    fn into_field_(self, path: TStr<Str_end>) -> (r: Result<T, InfallibleAccess>) {
        Ok(self.end)
    }
}

////////////////////////////////////////////////////////////////////////////////
// References and smart pointers: the fields of what they point to.

impl<'a, T: ?Sized + FieldType<P>, P> FieldType<P> for &'a T {
    type Ty = T::Ty;
}

impl<'a, T: ?Sized + GetFieldImpl<P>, P> GetFieldImpl<P> for &'a T {
    type Error = T::Error;

    open spec fn get_field_spec(&self) -> Result<&T::Ty, T::Error> {
        (**self).get_field_spec()
    }

    fn get_field_(&self, path: P) -> (r: Result<&T::Ty, T::Error>) {
        (**self).get_field_(path)
    }
}

impl<'a, T: ?Sized + FieldType<P>, P> FieldType<P> for &'a mut T {
    type Ty = T::Ty;
}

impl<'a, T: ?Sized + GetFieldImpl<P>, P> GetFieldImpl<P> for &'a mut T {
    type Error = T::Error;

    open spec fn get_field_spec(&self) -> Result<&T::Ty, T::Error> {
        (**self).get_field_spec()
    }

    fn get_field_(&self, path: P) -> (r: Result<&T::Ty, T::Error>) {
        (**self).get_field_(path)
    }
}

impl<'a, T: ?Sized + GetFieldMutImpl<P>, P> GetFieldMutImpl<P> for &'a mut T {
    open spec fn field_updated(old: &Self, new: &Self, v: T::Ty) -> bool {
        T::field_updated(&**old, &**new, v)
    }

    open spec fn unchanged(old: &Self, new: &Self) -> bool {
        T::unchanged(&**old, &**new)
    }

    proof fn lemma_read_after_write(old: &Self, new: &Self, v: T::Ty) {
        T::lemma_read_after_write(&**old, &**new, v);
    }

    proof fn lemma_unchanged_reads_same(old: &Self, new: &Self) {
        T::lemma_unchanged_reads_same(&**old, &**new);
    }

    fn get_field_mut_(&mut self, path: P) -> (r: Result<&mut T::Ty, T::Error>) {
        (**self).get_field_mut_(path)
    }
}

impl<T: ?Sized + FieldType<P>, P> FieldType<P> for Box<T> {
    type Ty = T::Ty;
}

impl<T: ?Sized + GetFieldImpl<P>, P> GetFieldImpl<P> for Box<T> {
    type Error = T::Error;

    open spec fn get_field_spec(&self) -> Result<&T::Ty, T::Error> {
        (**self).get_field_spec()
    }

    fn get_field_(&self, path: P) -> (r: Result<&T::Ty, T::Error>) {
        (**self).get_field_(path)
    }
}

impl<T: ?Sized + GetFieldMutImpl<P>, P> GetFieldMutImpl<P> for Box<T> {
    open spec fn field_updated(old: &Self, new: &Self, v: T::Ty) -> bool {
        T::field_updated(&**old, &**new, v)
    }

    open spec fn unchanged(old: &Self, new: &Self) -> bool {
        T::unchanged(&**old, &**new)
    }

    proof fn lemma_read_after_write(old: &Self, new: &Self, v: T::Ty) {
        T::lemma_read_after_write(&**old, &**new, v);
    }

    proof fn lemma_unchanged_reads_same(old: &Self, new: &Self) {
        T::lemma_unchanged_reads_same(&**old, &**new);
    }

    fn get_field_mut_(&mut self, path: P) -> (r: Result<&mut T::Ty, T::Error>) {
        (**self).get_field_mut_(path)
    }
}

impl<T: IntoFieldImpl<P>, P> IntoFieldImpl<P> for Box<T> {
    fn into_field_(self, path: P) -> (r: Result<T::Ty, T::Error>) {
        (*self).into_field_(path)
    }
}

impl<T: ?Sized + FieldType<P>, P> FieldType<P> for Rc<T> {
    type Ty = T::Ty;
}

impl<T: ?Sized + GetFieldImpl<P>, P> GetFieldImpl<P> for Rc<T> {
    type Error = T::Error;

    open spec fn get_field_spec(&self) -> Result<&T::Ty, T::Error> {
        (**self).get_field_spec()
    }

    fn get_field_(&self, path: P) -> (r: Result<&T::Ty, T::Error>) {
        (**self).get_field_(path)
    }
}

impl<T: ?Sized + FieldType<P>, P> FieldType<P> for Arc<T> {
    type Ty = T::Ty;
}

impl<T: ?Sized + GetFieldImpl<P>, P> GetFieldImpl<P> for Arc<T> {
    type Error = T::Error;

    open spec fn get_field_spec(&self) -> Result<&T::Ty, T::Error> {
        (**self).get_field_spec()
    }

    fn get_field_(&self, path: P) -> (r: Result<&T::Ty, T::Error>) {
        (**self).get_field_(path)
    }
}

impl<T: ?Sized + FieldType<P>, P> FieldType<P> for ManuallyDrop<T> {
    type Ty = T::Ty;
}

impl<T: ?Sized + GetFieldImpl<P>, P> GetFieldImpl<P> for ManuallyDrop<T> {
    type Error = T::Error;

    open spec fn get_field_spec(&self) -> Result<&T::Ty, T::Error> {
        self.view_ref().get_field_spec()
    }

    fn get_field_(&self, path: P) -> (r: Result<&T::Ty, T::Error>) {
        (**self).get_field_(path)
    }
}

impl<T: IntoFieldImpl<P>, P> IntoFieldImpl<P> for ManuallyDrop<T> {
    fn into_field_(self, path: P) -> (r: Result<T::Ty, T::Error>) {
        ManuallyDrop::into_inner(self).into_field_(path)
    }
}

/// `<ManuallyDrop<T> as DerefMut>::deref_mut`: the mutable reference to the
/// wrapped value that it hands out starts at that value, and what is written
/// through it is what the wrapper holds afterwards.
#[verifier::external_body]
fn manually_drop_deref_mut<'a, T>(m: &'a mut ManuallyDrop<T>) -> (r: &'a mut T)
    ensures
        *r == old(m)@,
        final(m)@ == *final(r),
{
    core::ops::DerefMut::deref_mut(m)
}

impl<T: GetFieldMutImpl<P>, P> GetFieldMutImpl<P> for ManuallyDrop<T> {
    open spec fn field_updated(old: &Self, new: &Self, v: T::Ty) -> bool {
        T::field_updated(&old@, &new@, v)
    }

    open spec fn unchanged(old: &Self, new: &Self) -> bool {
        T::unchanged(&old@, &new@)
    }

    proof fn lemma_read_after_write(old: &Self, new: &Self, v: T::Ty) {
        T::lemma_read_after_write(&old@, &new@, v);
    }

    proof fn lemma_unchanged_reads_same(old: &Self, new: &Self) {
        T::lemma_unchanged_reads_same(&old@, &new@);
    }

    fn get_field_mut_(&mut self, path: P) -> (r: Result<&mut T::Ty, T::Error>) {
        let inner = manually_drop_deref_mut(self);
        inner.get_field_mut_(path)
    }
}

/// The slots of the fields of the value inside a `ManuallyDrop`.
pub struct ManuallyDropSlots<S>(pub S);

impl<T, S: FieldSlots<T>> FieldSlots<ManuallyDrop<T>> for ManuallyDropSlots<S> {
    open spec fn present(&self, name: Seq<char>) -> bool {
        self.0.present(name)
    }

    open spec fn all_present(&self) -> bool {
        self.0.all_present()
    }

    open spec fn reads(&self, w: &ManuallyDrop<T>) -> bool {
        self.0.reads(&w@)
    }
}

impl<'a, T: SplitFieldsMut<'a>> SplitFieldsMut<'a> for ManuallyDrop<T> {
    type SlotsMut = ManuallyDropSlots<T::SlotsMut>;

    fn split_fields_mut(&'a mut self) -> (r: Self::SlotsMut) {
        let inner = manually_drop_deref_mut(self);
        ManuallyDropSlots(inner.split_fields_mut())
    }
}

impl<T: SplitFieldsInto> SplitFieldsInto for ManuallyDrop<T> {
    type SlotsInto = ManuallyDropSlots<T::SlotsInto>;

    fn split_fields_into(self) -> (r: Self::SlotsInto) {
        ManuallyDropSlots(ManuallyDrop::into_inner(self).split_fields_into())
    }
}

impl<T, P, S> TakeFieldInto<ManuallyDrop<T>, P> for ManuallyDropSlots<S> where
    T: GetFieldImpl<P>,
    P: IsSingleFieldPath,
    S: TakeFieldInto<T, P>,
 {
    open spec fn slot_name() -> Seq<char> {
        S::slot_name()
    }

    proof fn lemma_slot_path(path: P) {
        S::lemma_slot_path(path);
    }

    proof fn lemma_all_present(&self) {
        self.0.lemma_all_present();
    }

    fn take_field_into(&mut self, path: P) -> (r: Option<T::Ty>) {
        let r = self.0.take_field_into(path);
        assert forall|w: ManuallyDrop<T>| #[trigger] old(self).reads(&w) implies final(self).reads(&w) && match r {
            Some(x) => w.get_field_spec() == Ok::<&T::Ty, T::Error>(&x),
            None => true,
        } by {
            assert(old(self).0.reads(&w@));
        }
        r
    }
}

impl<'a, T, P, S> TakeFieldMut<'a, ManuallyDrop<T>, P> for ManuallyDropSlots<S> where
    T: GetFieldImpl<P>,
    P: IsSingleFieldPath,
    S: TakeFieldMut<'a, T, P>,
    T::Ty: 'a,
 {
    open spec fn slot_name() -> Seq<char> {
        S::slot_name()
    }

    proof fn lemma_slot_path(path: P) {
        S::lemma_slot_path(path);
    }

    proof fn lemma_all_present(&self) {
        self.0.lemma_all_present();
    }

    fn take_field_mut(&mut self, path: P) -> (r: Option<&'a mut T::Ty>) {
        let r = self.0.take_field_mut(path);
        assert forall|w: ManuallyDrop<T>| #[trigger] old(self).reads(&w) implies final(self).reads(&w) && match r {
            Some(x) => w.get_field_spec() == Ok::<&T::Ty, T::Error>(&*x),
            None => true,
        } by {
            assert(old(self).0.reads(&w@));
        }
        r
    }
}

////////////////////////////////////////////////////////////////////////////////
// The variants of what references and boxes point to.

impl<'a, T: ?Sized + IsVariant<TStr<V>>, V> IsVariant<TStr<V>> for &'a T {
    open spec fn is_variant_spec(&self) -> bool {
        (**self).is_variant_spec()
    }

    fn is_variant_(&self, variant: TStr<V>) -> (r: bool) {
        (**self).is_variant_(variant)
    }
}

impl<'a, T: ?Sized + GetVariantField<TStr<V>, F>, V, F> GetVariantField<TStr<V>, F> for &'a T {
    open spec fn get_vfield_spec(&self) -> Option<&T::Ty> {
        (**self).get_vfield_spec()
    }

    proof fn lemma_vfield_iff_variant(&self) {
        (**self).lemma_vfield_iff_variant();
    }

    fn get_vfield_(&self, variant: TStr<V>, field: F) -> (r: Option<&T::Ty>) {
        (**self).get_vfield_(variant, field)
    }
}

impl<'a, T: ?Sized + IsVariant<TStr<V>>, V> IsVariant<TStr<V>> for &'a mut T {
    open spec fn is_variant_spec(&self) -> bool {
        (**self).is_variant_spec()
    }

    fn is_variant_(&self, variant: TStr<V>) -> (r: bool) {
        (**self).is_variant_(variant)
    }
}

impl<'a, T: ?Sized + GetVariantField<TStr<V>, F>, V, F> GetVariantField<TStr<V>, F> for &'a mut T {
    open spec fn get_vfield_spec(&self) -> Option<&T::Ty> {
        (**self).get_vfield_spec()
    }

    proof fn lemma_vfield_iff_variant(&self) {
        (**self).lemma_vfield_iff_variant();
    }

    fn get_vfield_(&self, variant: TStr<V>, field: F) -> (r: Option<&T::Ty>) {
        (**self).get_vfield_(variant, field)
    }
}

impl<'a, T: GetVariantFieldMut<TStr<V>, F>, V, F> GetVariantFieldMut<TStr<V>, F> for &'a mut T {
    open spec fn vfield_updated(old: &Self, new: &Self, v: T::Ty) -> bool {
        T::vfield_updated(&**old, &**new, v)
    }

    open spec fn vfield_unchanged(old: &Self, new: &Self) -> bool {
        T::vfield_unchanged(&**old, &**new)
    }

    proof fn lemma_read_after_write(old: &Self, new: &Self, v: T::Ty) {
        T::lemma_read_after_write(&**old, &**new, v);
    }

    proof fn lemma_vfield_unchanged_reads_same(old: &Self, new: &Self) {
        T::lemma_vfield_unchanged_reads_same(&**old, &**new);
    }

    fn get_vfield_mut_(&mut self, variant: TStr<V>, field: F) -> (r: Option<&mut T::Ty>) {
        let ghost before = *old(self);
        let ghost after = *final(self);
        let r = (**self).get_vfield_mut_(variant, field);
        proof {
            if r is None {
                assert(<Self as GetVariantFieldMut<TStr<V>, F>>::vfield_unchanged(&before, &after));
            }
        }
        r
    }
}

impl<T: ?Sized + IsVariant<TStr<V>>, V> IsVariant<TStr<V>> for Box<T> {
    open spec fn is_variant_spec(&self) -> bool {
        (**self).is_variant_spec()
    }

    fn is_variant_(&self, variant: TStr<V>) -> (r: bool) {
        (**self).is_variant_(variant)
    }
}

impl<T: ?Sized + GetVariantField<TStr<V>, F>, V, F> GetVariantField<TStr<V>, F> for Box<T> {
    open spec fn get_vfield_spec(&self) -> Option<&T::Ty> {
        (**self).get_vfield_spec()
    }

    proof fn lemma_vfield_iff_variant(&self) {
        (**self).lemma_vfield_iff_variant();
    }

    fn get_vfield_(&self, variant: TStr<V>, field: F) -> (r: Option<&T::Ty>) {
        (**self).get_vfield_(variant, field)
    }
}

impl<T: GetVariantFieldMut<TStr<V>, F>, V, F> GetVariantFieldMut<TStr<V>, F> for Box<T> {
    open spec fn vfield_updated(old: &Self, new: &Self, v: T::Ty) -> bool {
        T::vfield_updated(&**old, &**new, v)
    }

    open spec fn vfield_unchanged(old: &Self, new: &Self) -> bool {
        T::vfield_unchanged(&**old, &**new)
    }

    proof fn lemma_read_after_write(old: &Self, new: &Self, v: T::Ty) {
        T::lemma_read_after_write(&**old, &**new, v);
    }

    proof fn lemma_vfield_unchanged_reads_same(old: &Self, new: &Self) {
        T::lemma_vfield_unchanged_reads_same(&**old, &**new);
    }

    fn get_vfield_mut_(&mut self, variant: TStr<V>, field: F) -> (r: Option<&mut T::Ty>) {
        let ghost before = *old(self);
        let ghost after = *final(self);
        let r = (**self).get_vfield_mut_(variant, field);
        proof {
            if r is None {
                assert(<Self as GetVariantFieldMut<TStr<V>, F>>::vfield_unchanged(&before, &after));
            }
        }
        r
    }
}

impl<T: IntoVariantField<TStr<V>, F>, V, F> IntoVariantField<TStr<V>, F> for Box<T> {
    fn into_vfield_(self, variant: TStr<V>, field: F) -> (r: Option<T::Ty>) {
        (*self).into_vfield_(variant, field)
    }
}

} // verus!
