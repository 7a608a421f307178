//! Splitting a value into its fields, to access several of them at once.
//!
//! A tuple can lend all its fields mutably at once, or give all of them up by
//! value: [`SplitFieldsMut`] and [`SplitFieldsInto`] turn it into a tuple of
//! slots, one `Option` per field. [`TakeFieldMut`] and [`TakeFieldInto`] then
//! take the slot of one field, named by its path. Taking the slots of distinct
//! fields one after the other gives each field once, which is how the fields
//! that a [`FieldPathSet`](crate::FieldPathSet) names are accessed together.
use crate::field::{FieldType, GetFieldImpl};
use crate::field_path::names::{
    Str_0, Str_1, Str_10, Str_11, Str_2, Str_3, Str_4, Str_5, Str_6, Str_7, Str_8, Str_9,
};
use crate::field_path::{IsSingleFieldPath, PathComponent, TStr, TStrName};
use vstd::prelude::*;

verus! {

/// The slots of the fields of a `W`: one per field, each still holding what it
/// gives for its field, or already taken.
///
/// `present(name)` tells whether the slot of the field named `name` still holds
/// it; `reads(w)` whether every slot still held gives the field of `w`.
pub trait FieldSlots<W> {
    spec fn present(&self, name: Seq<char>) -> bool;

    spec fn all_present(&self) -> bool;

    spec fn reads(&self, w: &W) -> bool;
}

/// Types that lend mutable references to all their fields at once.
pub trait SplitFieldsMut<'a>: Sized + 'a {
    type SlotsMut: FieldSlots<Self>;

    fn split_fields_mut(&'a mut self) -> (r: Self::SlotsMut)
        ensures
            r.all_present(),
            r.reads(&*old(self)),
    ;
}

/// Types that give up all their fields by value at once.
pub trait SplitFieldsInto: Sized {
    type SlotsInto: FieldSlots<Self>;

    fn split_fields_into(self) -> (r: Self::SlotsInto)
        ensures
            r.all_present(),
            r.reads(&self),
    ;
}

/// Takes the mutable reference to the field that `P` names out of the slots of a `W`.
pub trait TakeFieldMut<'a, W: GetFieldImpl<P>, P: IsSingleFieldPath>: FieldSlots<W> where W::Ty: 'a {
    /// The name of the field's slot.
    spec fn slot_name() -> Seq<char>;

    /// The path is the field named by the slot's name.
    proof fn lemma_slot_path(path: P)
        ensures
            path.path_view() == seq![PathComponent::Field(Self::slot_name())],
    ;

    /// Slots that all hold their field hold this one.
    proof fn lemma_all_present(&self)
        requires
            self.all_present(),
        ensures
            self.present(Self::slot_name()),
    ;

    fn take_field_mut(&mut self, path: P) -> (r: Option<&'a mut W::Ty>)
        ensures
            r is Some <==> old(self).present(Self::slot_name()),
            !final(self).present(Self::slot_name()),
            forall|name: Seq<char>|
                name != Self::slot_name() ==> #[trigger] final(self).present(name) == old(self).present(name),
            forall|w: W|
                #[trigger] old(self).reads(&w) ==> final(self).reads(&w) && match r {
                    Some(x) => w.get_field_spec() == Ok::<&W::Ty, W::Error>(&*x),
                    None => true,
                },
    ;
}

/// Takes the field that `P` names out of the slots of a `W`, by value.
pub trait TakeFieldInto<W: GetFieldImpl<P>, P: IsSingleFieldPath>: FieldSlots<W> {
    /// The name of the field's slot.
    spec fn slot_name() -> Seq<char>;

    /// The path is the field named by the slot's name.
    proof fn lemma_slot_path(path: P)
        ensures
            path.path_view() == seq![PathComponent::Field(Self::slot_name())],
    ;

    /// Slots that all hold their field hold this one.
    proof fn lemma_all_present(&self)
        requires
            self.all_present(),
        ensures
            self.present(Self::slot_name()),
    ;

    fn take_field_into(&mut self, path: P) -> (r: Option<W::Ty>)
        ensures
            r is Some <==> old(self).present(Self::slot_name()),
            !final(self).present(Self::slot_name()),
            forall|name: Seq<char>|
                name != Self::slot_name() ==> #[trigger] final(self).present(name) == old(self).present(name),
            forall|w: W|
                #[trigger] old(self).reads(&w) ==> final(self).reads(&w) && match r {
                    Some(x) => w.get_field_spec() == Ok::<&W::Ty, W::Error>(&x),
                    None => true,
                },
    ;
}

/// The names of the fields of tuples (`0` to `11`) are distinct.
proof fn lemma_index_names_distinct()
    ensures
        Str_0::name_spec() != Str_1::name_spec(),
        Str_0::name_spec() != Str_2::name_spec(),
        Str_0::name_spec() != Str_3::name_spec(),
        Str_0::name_spec() != Str_4::name_spec(),
        Str_0::name_spec() != Str_5::name_spec(),
        Str_0::name_spec() != Str_6::name_spec(),
        Str_0::name_spec() != Str_7::name_spec(),
        Str_0::name_spec() != Str_8::name_spec(),
        Str_0::name_spec() != Str_9::name_spec(),
        Str_0::name_spec() != Str_10::name_spec(),
        Str_0::name_spec() != Str_11::name_spec(),
        Str_1::name_spec() != Str_2::name_spec(),
        Str_1::name_spec() != Str_3::name_spec(),
        Str_1::name_spec() != Str_4::name_spec(),
        Str_1::name_spec() != Str_5::name_spec(),
        Str_1::name_spec() != Str_6::name_spec(),
        Str_1::name_spec() != Str_7::name_spec(),
        Str_1::name_spec() != Str_8::name_spec(),
        Str_1::name_spec() != Str_9::name_spec(),
        Str_1::name_spec() != Str_10::name_spec(),
        Str_1::name_spec() != Str_11::name_spec(),
        Str_2::name_spec() != Str_3::name_spec(),
        Str_2::name_spec() != Str_4::name_spec(),
        Str_2::name_spec() != Str_5::name_spec(),
        Str_2::name_spec() != Str_6::name_spec(),
        Str_2::name_spec() != Str_7::name_spec(),
        Str_2::name_spec() != Str_8::name_spec(),
        Str_2::name_spec() != Str_9::name_spec(),
        Str_2::name_spec() != Str_10::name_spec(),
        Str_2::name_spec() != Str_11::name_spec(),
        Str_3::name_spec() != Str_4::name_spec(),
        Str_3::name_spec() != Str_5::name_spec(),
        Str_3::name_spec() != Str_6::name_spec(),
        Str_3::name_spec() != Str_7::name_spec(),
        Str_3::name_spec() != Str_8::name_spec(),
        Str_3::name_spec() != Str_9::name_spec(),
        Str_3::name_spec() != Str_10::name_spec(),
        Str_3::name_spec() != Str_11::name_spec(),
        Str_4::name_spec() != Str_5::name_spec(),
        Str_4::name_spec() != Str_6::name_spec(),
        Str_4::name_spec() != Str_7::name_spec(),
        Str_4::name_spec() != Str_8::name_spec(),
        Str_4::name_spec() != Str_9::name_spec(),
        Str_4::name_spec() != Str_10::name_spec(),
        Str_4::name_spec() != Str_11::name_spec(),
        Str_5::name_spec() != Str_6::name_spec(),
        Str_5::name_spec() != Str_7::name_spec(),
        Str_5::name_spec() != Str_8::name_spec(),
        Str_5::name_spec() != Str_9::name_spec(),
        Str_5::name_spec() != Str_10::name_spec(),
        Str_5::name_spec() != Str_11::name_spec(),
        Str_6::name_spec() != Str_7::name_spec(),
        Str_6::name_spec() != Str_8::name_spec(),
        Str_6::name_spec() != Str_9::name_spec(),
        Str_6::name_spec() != Str_10::name_spec(),
        Str_6::name_spec() != Str_11::name_spec(),
        Str_7::name_spec() != Str_8::name_spec(),
        Str_7::name_spec() != Str_9::name_spec(),
        Str_7::name_spec() != Str_10::name_spec(),
        Str_7::name_spec() != Str_11::name_spec(),
        Str_8::name_spec() != Str_9::name_spec(),
        Str_8::name_spec() != Str_10::name_spec(),
        Str_8::name_spec() != Str_11::name_spec(),
        Str_9::name_spec() != Str_10::name_spec(),
        Str_9::name_spec() != Str_11::name_spec(),
        Str_10::name_spec() != Str_11::name_spec(),
{
    reveal_strlit("0");
    reveal_strlit("1");
    reveal_strlit("2");
    reveal_strlit("3");
    reveal_strlit("4");
    reveal_strlit("5");
    reveal_strlit("6");
    reveal_strlit("7");
    reveal_strlit("8");
    reveal_strlit("9");
    reveal_strlit("10");
    reveal_strlit("11");
    assert("0"@.len() == 1 && "0"@[0] == '0');
    assert("1"@.len() == 1 && "1"@[0] == '1');
    assert("2"@.len() == 1 && "2"@[0] == '2');
    assert("3"@.len() == 1 && "3"@[0] == '3');
    assert("4"@.len() == 1 && "4"@[0] == '4');
    assert("5"@.len() == 1 && "5"@[0] == '5');
    assert("6"@.len() == 1 && "6"@[0] == '6');
    assert("7"@.len() == 1 && "7"@[0] == '7');
    assert("8"@.len() == 1 && "8"@[0] == '8');
    assert("9"@.len() == 1 && "9"@[0] == '9');
    assert("10"@.len() == 2 && "10"@[0] == '1');
    assert("11"@.len() == 2 && "11"@[0] == '1');
    assert("10"@[1] == '0');
    assert("11"@[1] == '1');
}

// Tuples of 1 element.

impl<'a, C0> FieldSlots<(C0,)> for (Option<&'a mut C0>,) {
    open spec fn present(&self, name: Seq<char>) -> bool {
        (name == Str_0::name_spec() && self.0 is Some)
    }

    open spec fn all_present(&self) -> bool {
        self.0 is Some
    }

    open spec fn reads(&self, w: &(C0,)) -> bool {
        (self.0 is Some ==> *self.0->Some_0 == w.0)
    }
}

impl<C0> FieldSlots<(C0,)> for (Option<C0>,) {
    open spec fn present(&self, name: Seq<char>) -> bool {
        (name == Str_0::name_spec() && self.0 is Some)
    }

    open spec fn all_present(&self) -> bool {
        self.0 is Some
    }

    open spec fn reads(&self, w: &(C0,)) -> bool {
        (self.0 is Some ==> self.0->Some_0 == w.0)
    }
}

impl<'a, C0: 'a> SplitFieldsMut<'a> for (C0,) {
    type SlotsMut = (Option<&'a mut C0>,);

    /// Each slot lends its field: writing through the slots' references is
    /// what writing to the tuple's fields does.
    fn split_fields_mut(&'a mut self) -> (r: Self::SlotsMut)
        ensures
            *final(self) == (*final(r.0->Some_0),),
    {
        (Some(&mut self.0),)
    }
}

impl<C0> SplitFieldsInto for (C0,) {
    type SlotsInto = (Option<C0>,);

    fn split_fields_into(self) -> (r: Self::SlotsInto) {
        (Some(self.0),)
    }
}

impl<'a, C0> TakeFieldMut<'a, (C0,), TStr<Str_0>> for (Option<&'a mut C0>,) where C0: 'a {
    open spec fn slot_name() -> Seq<char> {
        Str_0::name_spec()
    }

    proof fn lemma_slot_path(path: TStr<Str_0>) {
    }

    proof fn lemma_all_present(&self) {
    }

    fn take_field_mut(&mut self, path: TStr<Str_0>) -> (r: Option<&'a mut C0>) {
        proof {
            lemma_index_names_distinct();
        }
        assert(<Self as TakeFieldMut<'a, (C0,), TStr<Str_0>>>::slot_name() == Str_0::name_spec());
        self.0.take()
    }
}

impl<C0> TakeFieldInto<(C0,), TStr<Str_0>> for (Option<C0>,) {
    open spec fn slot_name() -> Seq<char> {
        Str_0::name_spec()
    }

    proof fn lemma_slot_path(path: TStr<Str_0>) {
    }

    proof fn lemma_all_present(&self) {
    }

    fn take_field_into(&mut self, path: TStr<Str_0>) -> (r: Option<C0>) {
        proof {
            lemma_index_names_distinct();
        }
        assert(<Self as TakeFieldInto<(C0,), TStr<Str_0>>>::slot_name() == Str_0::name_spec());
        self.0.take()
    }
}

// Tuples of 2 elements.

impl<'a, C0, C1> FieldSlots<(C0, C1)> for (Option<&'a mut C0>, Option<&'a mut C1>) {
    open spec fn present(&self, name: Seq<char>) -> bool {
        (name == Str_0::name_spec() && self.0 is Some) || (name == Str_1::name_spec() && self.1 is Some)
    }

    open spec fn all_present(&self) -> bool {
        self.0 is Some && self.1 is Some
    }

    open spec fn reads(&self, w: &(C0, C1)) -> bool {
        (self.0 is Some ==> *self.0->Some_0 == w.0) && (self.1 is Some ==> *self.1->Some_0 == w.1)
    }
}

impl<C0, C1> FieldSlots<(C0, C1)> for (Option<C0>, Option<C1>) {
    open spec fn present(&self, name: Seq<char>) -> bool {
        (name == Str_0::name_spec() && self.0 is Some) || (name == Str_1::name_spec() && self.1 is Some)
    }

    open spec fn all_present(&self) -> bool {
        self.0 is Some && self.1 is Some
    }

    open spec fn reads(&self, w: &(C0, C1)) -> bool {
        (self.0 is Some ==> self.0->Some_0 == w.0) && (self.1 is Some ==> self.1->Some_0 == w.1)
    }
}

impl<'a, C0: 'a, C1: 'a> SplitFieldsMut<'a> for (C0, C1) {
    type SlotsMut = (Option<&'a mut C0>, Option<&'a mut C1>);

    /// Each slot lends its field: writing through the slots' references is
    /// what writing to the tuple's fields does.
    fn split_fields_mut(&'a mut self) -> (r: Self::SlotsMut)
        ensures
            *final(self) == (*final(r.0->Some_0), *final(r.1->Some_0)),
    {
        (Some(&mut self.0), Some(&mut self.1))
    }
}

impl<C0, C1> SplitFieldsInto for (C0, C1) {
    type SlotsInto = (Option<C0>, Option<C1>);

    fn split_fields_into(self) -> (r: Self::SlotsInto) {
        (Some(self.0), Some(self.1))
    }
}

impl<'a, C0, C1> TakeFieldMut<'a, (C0, C1), TStr<Str_0>> for (Option<&'a mut C0>, Option<&'a mut C1>) where C0: 'a {
    open spec fn slot_name() -> Seq<char> {
        Str_0::name_spec()
    }

    proof fn lemma_slot_path(path: TStr<Str_0>) {
    }

    proof fn lemma_all_present(&self) {
    }

    fn take_field_mut(&mut self, path: TStr<Str_0>) -> (r: Option<&'a mut C0>) {
        proof {
            lemma_index_names_distinct();
        }
        assert(<Self as TakeFieldMut<'a, (C0, C1), TStr<Str_0>>>::slot_name() == Str_0::name_spec());
        self.0.take()
    }
}

impl<C0, C1> TakeFieldInto<(C0, C1), TStr<Str_0>> for (Option<C0>, Option<C1>) {
    open spec fn slot_name() -> Seq<char> {
        Str_0::name_spec()
    }

    proof fn lemma_slot_path(path: TStr<Str_0>) {
    }

    proof fn lemma_all_present(&self) {
    }

    fn take_field_into(&mut self, path: TStr<Str_0>) -> (r: Option<C0>) {
        proof {
            lemma_index_names_distinct();
        }
        assert(<Self as TakeFieldInto<(C0, C1), TStr<Str_0>>>::slot_name() == Str_0::name_spec());
        self.0.take()
    }
}

impl<'a, C0, C1> TakeFieldMut<'a, (C0, C1), TStr<Str_1>> for (Option<&'a mut C0>, Option<&'a mut C1>) where C1: 'a {
    open spec fn slot_name() -> Seq<char> {
        Str_1::name_spec()
    }

    proof fn lemma_slot_path(path: TStr<Str_1>) {
    }

    proof fn lemma_all_present(&self) {
    }

    fn take_field_mut(&mut self, path: TStr<Str_1>) -> (r: Option<&'a mut C1>) {
        proof {
            lemma_index_names_distinct();
        }
        assert(<Self as TakeFieldMut<'a, (C0, C1), TStr<Str_1>>>::slot_name() == Str_1::name_spec());
        self.1.take()
    }
}

impl<C0, C1> TakeFieldInto<(C0, C1), TStr<Str_1>> for (Option<C0>, Option<C1>) {
    open spec fn slot_name() -> Seq<char> {
        Str_1::name_spec()
    }

    proof fn lemma_slot_path(path: TStr<Str_1>) {
    }

    proof fn lemma_all_present(&self) {
    }

    fn take_field_into(&mut self, path: TStr<Str_1>) -> (r: Option<C1>) {
        proof {
            lemma_index_names_distinct();
        }
        assert(<Self as TakeFieldInto<(C0, C1), TStr<Str_1>>>::slot_name() == Str_1::name_spec());
        self.1.take()
    }
}

// Tuples of 3 elements.

impl<'a, C0, C1, C2> FieldSlots<(C0, C1, C2)> for (Option<&'a mut C0>, Option<&'a mut C1>, Option<&'a mut C2>) {
    open spec fn present(&self, name: Seq<char>) -> bool {
        (name == Str_0::name_spec() && self.0 is Some) || (name == Str_1::name_spec() && self.1 is Some) || (name == Str_2::name_spec() && self.2 is Some)
    }

    open spec fn all_present(&self) -> bool {
        self.0 is Some && self.1 is Some && self.2 is Some
    }

    open spec fn reads(&self, w: &(C0, C1, C2)) -> bool {
        (self.0 is Some ==> *self.0->Some_0 == w.0) && (self.1 is Some ==> *self.1->Some_0 == w.1) && (self.2 is Some ==> *self.2->Some_0 == w.2)
    }
}

impl<C0, C1, C2> FieldSlots<(C0, C1, C2)> for (Option<C0>, Option<C1>, Option<C2>) {
    open spec fn present(&self, name: Seq<char>) -> bool {
        (name == Str_0::name_spec() && self.0 is Some) || (name == Str_1::name_spec() && self.1 is Some) || (name == Str_2::name_spec() && self.2 is Some)
    }

    open spec fn all_present(&self) -> bool {
        self.0 is Some && self.1 is Some && self.2 is Some
    }

    open spec fn reads(&self, w: &(C0, C1, C2)) -> bool {
        (self.0 is Some ==> self.0->Some_0 == w.0) && (self.1 is Some ==> self.1->Some_0 == w.1) && (self.2 is Some ==> self.2->Some_0 == w.2)
    }
}

impl<'a, C0: 'a, C1: 'a, C2: 'a> SplitFieldsMut<'a> for (C0, C1, C2) {
    type SlotsMut = (Option<&'a mut C0>, Option<&'a mut C1>, Option<&'a mut C2>);

    /// Each slot lends its field: writing through the slots' references is
    /// what writing to the tuple's fields does.
    fn split_fields_mut(&'a mut self) -> (r: Self::SlotsMut)
        ensures
            *final(self) == (*final(r.0->Some_0), *final(r.1->Some_0), *final(r.2->Some_0)),
    {
        (Some(&mut self.0), Some(&mut self.1), Some(&mut self.2))
    }
}

impl<C0, C1, C2> SplitFieldsInto for (C0, C1, C2) {
    type SlotsInto = (Option<C0>, Option<C1>, Option<C2>);

    fn split_fields_into(self) -> (r: Self::SlotsInto) {
        (Some(self.0), Some(self.1), Some(self.2))
    }
}

impl<'a, C0, C1, C2> TakeFieldMut<'a, (C0, C1, C2), TStr<Str_0>> for (Option<&'a mut C0>, Option<&'a mut C1>, Option<&'a mut C2>) where C0: 'a {
    open spec fn slot_name() -> Seq<char> {
        Str_0::name_spec()
    }

    proof fn lemma_slot_path(path: TStr<Str_0>) {
    }

    proof fn lemma_all_present(&self) {
    }

    fn take_field_mut(&mut self, path: TStr<Str_0>) -> (r: Option<&'a mut C0>) {
        proof {
            lemma_index_names_distinct();
        }
        assert(<Self as TakeFieldMut<'a, (C0, C1, C2), TStr<Str_0>>>::slot_name() == Str_0::name_spec());
        self.0.take()
    }
}

impl<C0, C1, C2> TakeFieldInto<(C0, C1, C2), TStr<Str_0>> for (Option<C0>, Option<C1>, Option<C2>) {
    open spec fn slot_name() -> Seq<char> {
        Str_0::name_spec()
    }

    proof fn lemma_slot_path(path: TStr<Str_0>) {
    }

    proof fn lemma_all_present(&self) {
    }

    fn take_field_into(&mut self, path: TStr<Str_0>) -> (r: Option<C0>) {
        proof {
            lemma_index_names_distinct();
        }
        assert(<Self as TakeFieldInto<(C0, C1, C2), TStr<Str_0>>>::slot_name() == Str_0::name_spec());
        self.0.take()
    }
}

impl<'a, C0, C1, C2> TakeFieldMut<'a, (C0, C1, C2), TStr<Str_1>> for (Option<&'a mut C0>, Option<&'a mut C1>, Option<&'a mut C2>) where C1: 'a {
    open spec fn slot_name() -> Seq<char> {
        Str_1::name_spec()
    }

    proof fn lemma_slot_path(path: TStr<Str_1>) {
    }

    proof fn lemma_all_present(&self) {
    }

    fn take_field_mut(&mut self, path: TStr<Str_1>) -> (r: Option<&'a mut C1>) {
        proof {
            lemma_index_names_distinct();
        }
        assert(<Self as TakeFieldMut<'a, (C0, C1, C2), TStr<Str_1>>>::slot_name() == Str_1::name_spec());
        self.1.take()
    }
}

impl<C0, C1, C2> TakeFieldInto<(C0, C1, C2), TStr<Str_1>> for (Option<C0>, Option<C1>, Option<C2>) {
    open spec fn slot_name() -> Seq<char> {
        Str_1::name_spec()
    }

    proof fn lemma_slot_path(path: TStr<Str_1>) {
    }

    proof fn lemma_all_present(&self) {
    }

    fn take_field_into(&mut self, path: TStr<Str_1>) -> (r: Option<C1>) {
        proof {
            lemma_index_names_distinct();
        }
        assert(<Self as TakeFieldInto<(C0, C1, C2), TStr<Str_1>>>::slot_name() == Str_1::name_spec());
        self.1.take()
    }
}

impl<'a, C0, C1, C2> TakeFieldMut<'a, (C0, C1, C2), TStr<Str_2>> for (Option<&'a mut C0>, Option<&'a mut C1>, Option<&'a mut C2>) where C2: 'a {
    open spec fn slot_name() -> Seq<char> {
        Str_2::name_spec()
    }

    proof fn lemma_slot_path(path: TStr<Str_2>) {
    }

    proof fn lemma_all_present(&self) {
    }

    fn take_field_mut(&mut self, path: TStr<Str_2>) -> (r: Option<&'a mut C2>) {
        proof {
            lemma_index_names_distinct();
        }
        assert(<Self as TakeFieldMut<'a, (C0, C1, C2), TStr<Str_2>>>::slot_name() == Str_2::name_spec());
        self.2.take()
    }
}

impl<C0, C1, C2> TakeFieldInto<(C0, C1, C2), TStr<Str_2>> for (Option<C0>, Option<C1>, Option<C2>) {
    open spec fn slot_name() -> Seq<char> {
        Str_2::name_spec()
    }

    proof fn lemma_slot_path(path: TStr<Str_2>) {
    }

    proof fn lemma_all_present(&self) {
    }

    fn take_field_into(&mut self, path: TStr<Str_2>) -> (r: Option<C2>) {
        proof {
            lemma_index_names_distinct();
        }
        assert(<Self as TakeFieldInto<(C0, C1, C2), TStr<Str_2>>>::slot_name() == Str_2::name_spec());
        self.2.take()
    }
}

// Tuples of 4 elements.

impl<'a, C0, C1, C2, C3> FieldSlots<(C0, C1, C2, C3)> for (Option<&'a mut C0>, Option<&'a mut C1>, Option<&'a mut C2>, Option<&'a mut C3>) {
    open spec fn present(&self, name: Seq<char>) -> bool {
        (name == Str_0::name_spec() && self.0 is Some) || (name == Str_1::name_spec() && self.1 is Some) || (name == Str_2::name_spec() && self.2 is Some) || (name == Str_3::name_spec() && self.3 is Some)
    }

    open spec fn all_present(&self) -> bool {
        self.0 is Some && self.1 is Some && self.2 is Some && self.3 is Some
    }

    open spec fn reads(&self, w: &(C0, C1, C2, C3)) -> bool {
        (self.0 is Some ==> *self.0->Some_0 == w.0) && (self.1 is Some ==> *self.1->Some_0 == w.1) && (self.2 is Some ==> *self.2->Some_0 == w.2) && (self.3 is Some ==> *self.3->Some_0 == w.3)
    }
}

impl<C0, C1, C2, C3> FieldSlots<(C0, C1, C2, C3)> for (Option<C0>, Option<C1>, Option<C2>, Option<C3>) {
    open spec fn present(&self, name: Seq<char>) -> bool {
        (name == Str_0::name_spec() && self.0 is Some) || (name == Str_1::name_spec() && self.1 is Some) || (name == Str_2::name_spec() && self.2 is Some) || (name == Str_3::name_spec() && self.3 is Some)
    }

    open spec fn all_present(&self) -> bool {
        self.0 is Some && self.1 is Some && self.2 is Some && self.3 is Some
    }

    open spec fn reads(&self, w: &(C0, C1, C2, C3)) -> bool {
        (self.0 is Some ==> self.0->Some_0 == w.0) && (self.1 is Some ==> self.1->Some_0 == w.1) && (self.2 is Some ==> self.2->Some_0 == w.2) && (self.3 is Some ==> self.3->Some_0 == w.3)
    }
}

impl<'a, C0: 'a, C1: 'a, C2: 'a, C3: 'a> SplitFieldsMut<'a> for (C0, C1, C2, C3) {
    type SlotsMut = (Option<&'a mut C0>, Option<&'a mut C1>, Option<&'a mut C2>, Option<&'a mut C3>);

    /// Each slot lends its field: writing through the slots' references is
    /// what writing to the tuple's fields does.
    fn split_fields_mut(&'a mut self) -> (r: Self::SlotsMut)
        ensures
            *final(self) == (*final(r.0->Some_0), *final(r.1->Some_0), *final(r.2->Some_0), *final(r.3->Some_0)),
    {
        (Some(&mut self.0), Some(&mut self.1), Some(&mut self.2), Some(&mut self.3))
    }
}

impl<C0, C1, C2, C3> SplitFieldsInto for (C0, C1, C2, C3) {
    type SlotsInto = (Option<C0>, Option<C1>, Option<C2>, Option<C3>);

    fn split_fields_into(self) -> (r: Self::SlotsInto) {
        (Some(self.0), Some(self.1), Some(self.2), Some(self.3))
    }
}

impl<'a, C0, C1, C2, C3> TakeFieldMut<'a, (C0, C1, C2, C3), TStr<Str_0>> for (Option<&'a mut C0>, Option<&'a mut C1>, Option<&'a mut C2>, Option<&'a mut C3>) where C0: 'a {
    open spec fn slot_name() -> Seq<char> {
        Str_0::name_spec()
    }

    proof fn lemma_slot_path(path: TStr<Str_0>) {
    }

    proof fn lemma_all_present(&self) {
    }

    fn take_field_mut(&mut self, path: TStr<Str_0>) -> (r: Option<&'a mut C0>) {
        proof {
            lemma_index_names_distinct();
        }
        assert(<Self as TakeFieldMut<'a, (C0, C1, C2, C3), TStr<Str_0>>>::slot_name() == Str_0::name_spec());
        self.0.take()
    }
}

impl<C0, C1, C2, C3> TakeFieldInto<(C0, C1, C2, C3), TStr<Str_0>> for (Option<C0>, Option<C1>, Option<C2>, Option<C3>) {
    open spec fn slot_name() -> Seq<char> {
        Str_0::name_spec()
    }

    proof fn lemma_slot_path(path: TStr<Str_0>) {
    }

    proof fn lemma_all_present(&self) {
    }

    fn take_field_into(&mut self, path: TStr<Str_0>) -> (r: Option<C0>) {
        proof {
            lemma_index_names_distinct();
        }
        assert(<Self as TakeFieldInto<(C0, C1, C2, C3), TStr<Str_0>>>::slot_name() == Str_0::name_spec());
        self.0.take()
    }
}

impl<'a, C0, C1, C2, C3> TakeFieldMut<'a, (C0, C1, C2, C3), TStr<Str_1>> for (Option<&'a mut C0>, Option<&'a mut C1>, Option<&'a mut C2>, Option<&'a mut C3>) where C1: 'a {
    open spec fn slot_name() -> Seq<char> {
        Str_1::name_spec()
    }

    proof fn lemma_slot_path(path: TStr<Str_1>) {
    }

    proof fn lemma_all_present(&self) {
    }

    fn take_field_mut(&mut self, path: TStr<Str_1>) -> (r: Option<&'a mut C1>) {
        proof {
            lemma_index_names_distinct();
        }
        assert(<Self as TakeFieldMut<'a, (C0, C1, C2, C3), TStr<Str_1>>>::slot_name() == Str_1::name_spec());
        self.1.take()
    }
}

impl<C0, C1, C2, C3> TakeFieldInto<(C0, C1, C2, C3), TStr<Str_1>> for (Option<C0>, Option<C1>, Option<C2>, Option<C3>) {
    open spec fn slot_name() -> Seq<char> {
        Str_1::name_spec()
    }

    proof fn lemma_slot_path(path: TStr<Str_1>) {
    }

    proof fn lemma_all_present(&self) {
    }

    fn take_field_into(&mut self, path: TStr<Str_1>) -> (r: Option<C1>) {
        proof {
            lemma_index_names_distinct();
        }
        assert(<Self as TakeFieldInto<(C0, C1, C2, C3), TStr<Str_1>>>::slot_name() == Str_1::name_spec());
        self.1.take()
    }
}

impl<'a, C0, C1, C2, C3> TakeFieldMut<'a, (C0, C1, C2, C3), TStr<Str_2>> for (Option<&'a mut C0>, Option<&'a mut C1>, Option<&'a mut C2>, Option<&'a mut C3>) where C2: 'a {
    open spec fn slot_name() -> Seq<char> {
        Str_2::name_spec()
    }

    proof fn lemma_slot_path(path: TStr<Str_2>) {
    }

    proof fn lemma_all_present(&self) {
    }

    fn take_field_mut(&mut self, path: TStr<Str_2>) -> (r: Option<&'a mut C2>) {
        proof {
            lemma_index_names_distinct();
        }
        assert(<Self as TakeFieldMut<'a, (C0, C1, C2, C3), TStr<Str_2>>>::slot_name() == Str_2::name_spec());
        self.2.take()
    }
}

impl<C0, C1, C2, C3> TakeFieldInto<(C0, C1, C2, C3), TStr<Str_2>> for (Option<C0>, Option<C1>, Option<C2>, Option<C3>) {
    open spec fn slot_name() -> Seq<char> {
        Str_2::name_spec()
    }

    proof fn lemma_slot_path(path: TStr<Str_2>) {
    }

    proof fn lemma_all_present(&self) {
    }

    fn take_field_into(&mut self, path: TStr<Str_2>) -> (r: Option<C2>) {
        proof {
            lemma_index_names_distinct();
        }
        assert(<Self as TakeFieldInto<(C0, C1, C2, C3), TStr<Str_2>>>::slot_name() == Str_2::name_spec());
        self.2.take()
    }
}

impl<'a, C0, C1, C2, C3> TakeFieldMut<'a, (C0, C1, C2, C3), TStr<Str_3>> for (Option<&'a mut C0>, Option<&'a mut C1>, Option<&'a mut C2>, Option<&'a mut C3>) where C3: 'a {
    open spec fn slot_name() -> Seq<char> {
        Str_3::name_spec()
    }

    proof fn lemma_slot_path(path: TStr<Str_3>) {
    }

    proof fn lemma_all_present(&self) {
    }

    fn take_field_mut(&mut self, path: TStr<Str_3>) -> (r: Option<&'a mut C3>) {
        proof {
            lemma_index_names_distinct();
        }
        assert(<Self as TakeFieldMut<'a, (C0, C1, C2, C3), TStr<Str_3>>>::slot_name() == Str_3::name_spec());
        self.3.take()
    }
}

impl<C0, C1, C2, C3> TakeFieldInto<(C0, C1, C2, C3), TStr<Str_3>> for (Option<C0>, Option<C1>, Option<C2>, Option<C3>) {
    open spec fn slot_name() -> Seq<char> {
        Str_3::name_spec()
    }

    proof fn lemma_slot_path(path: TStr<Str_3>) {
    }

    proof fn lemma_all_present(&self) {
    }

    fn take_field_into(&mut self, path: TStr<Str_3>) -> (r: Option<C3>) {
        proof {
            lemma_index_names_distinct();
        }
        assert(<Self as TakeFieldInto<(C0, C1, C2, C3), TStr<Str_3>>>::slot_name() == Str_3::name_spec());
        self.3.take()
    }
}

// Tuples of 5 elements.

impl<'a, C0, C1, C2, C3, C4> FieldSlots<(C0, C1, C2, C3, C4)> for (Option<&'a mut C0>, Option<&'a mut C1>, Option<&'a mut C2>, Option<&'a mut C3>, Option<&'a mut C4>) {
    open spec fn present(&self, name: Seq<char>) -> bool {
        (name == Str_0::name_spec() && self.0 is Some) || (name == Str_1::name_spec() && self.1 is Some) || (name == Str_2::name_spec() && self.2 is Some) || (name == Str_3::name_spec() && self.3 is Some) || (name == Str_4::name_spec() && self.4 is Some)
    }

    open spec fn all_present(&self) -> bool {
        self.0 is Some && self.1 is Some && self.2 is Some && self.3 is Some && self.4 is Some
    }

    open spec fn reads(&self, w: &(C0, C1, C2, C3, C4)) -> bool {
        (self.0 is Some ==> *self.0->Some_0 == w.0) && (self.1 is Some ==> *self.1->Some_0 == w.1) && (self.2 is Some ==> *self.2->Some_0 == w.2) && (self.3 is Some ==> *self.3->Some_0 == w.3) && (self.4 is Some ==> *self.4->Some_0 == w.4)
    }
}

impl<C0, C1, C2, C3, C4> FieldSlots<(C0, C1, C2, C3, C4)> for (Option<C0>, Option<C1>, Option<C2>, Option<C3>, Option<C4>) {
    open spec fn present(&self, name: Seq<char>) -> bool {
        (name == Str_0::name_spec() && self.0 is Some) || (name == Str_1::name_spec() && self.1 is Some) || (name == Str_2::name_spec() && self.2 is Some) || (name == Str_3::name_spec() && self.3 is Some) || (name == Str_4::name_spec() && self.4 is Some)
    }

    open spec fn all_present(&self) -> bool {
        self.0 is Some && self.1 is Some && self.2 is Some && self.3 is Some && self.4 is Some
    }

    open spec fn reads(&self, w: &(C0, C1, C2, C3, C4)) -> bool {
        (self.0 is Some ==> self.0->Some_0 == w.0) && (self.1 is Some ==> self.1->Some_0 == w.1) && (self.2 is Some ==> self.2->Some_0 == w.2) && (self.3 is Some ==> self.3->Some_0 == w.3) && (self.4 is Some ==> self.4->Some_0 == w.4)
    }
}

impl<'a, C0: 'a, C1: 'a, C2: 'a, C3: 'a, C4: 'a> SplitFieldsMut<'a> for (C0, C1, C2, C3, C4) {
    type SlotsMut = (Option<&'a mut C0>, Option<&'a mut C1>, Option<&'a mut C2>, Option<&'a mut C3>, Option<&'a mut C4>);

    /// Each slot lends its field: writing through the slots' references is
    /// what writing to the tuple's fields does.
    fn split_fields_mut(&'a mut self) -> (r: Self::SlotsMut)
        ensures
            *final(self) == (*final(r.0->Some_0), *final(r.1->Some_0), *final(r.2->Some_0), *final(r.3->Some_0), *final(r.4->Some_0)),
    {
        (Some(&mut self.0), Some(&mut self.1), Some(&mut self.2), Some(&mut self.3), Some(&mut self.4))
    }
}

impl<C0, C1, C2, C3, C4> SplitFieldsInto for (C0, C1, C2, C3, C4) {
    type SlotsInto = (Option<C0>, Option<C1>, Option<C2>, Option<C3>, Option<C4>);

    fn split_fields_into(self) -> (r: Self::SlotsInto) {
        (Some(self.0), Some(self.1), Some(self.2), Some(self.3), Some(self.4))
    }
}

impl<'a, C0, C1, C2, C3, C4> TakeFieldMut<'a, (C0, C1, C2, C3, C4), TStr<Str_0>> for (Option<&'a mut C0>, Option<&'a mut C1>, Option<&'a mut C2>, Option<&'a mut C3>, Option<&'a mut C4>) where C0: 'a {
    open spec fn slot_name() -> Seq<char> {
        Str_0::name_spec()
    }

    proof fn lemma_slot_path(path: TStr<Str_0>) {
    }

    proof fn lemma_all_present(&self) {
    }

    fn take_field_mut(&mut self, path: TStr<Str_0>) -> (r: Option<&'a mut C0>) {
        proof {
            lemma_index_names_distinct();
        }
        assert(<Self as TakeFieldMut<'a, (C0, C1, C2, C3, C4), TStr<Str_0>>>::slot_name() == Str_0::name_spec());
        self.0.take()
    }
}

impl<C0, C1, C2, C3, C4> TakeFieldInto<(C0, C1, C2, C3, C4), TStr<Str_0>> for (Option<C0>, Option<C1>, Option<C2>, Option<C3>, Option<C4>) {
    open spec fn slot_name() -> Seq<char> {
        Str_0::name_spec()
    }

    proof fn lemma_slot_path(path: TStr<Str_0>) {
    }

    proof fn lemma_all_present(&self) {
    }

    fn take_field_into(&mut self, path: TStr<Str_0>) -> (r: Option<C0>) {
        proof {
            lemma_index_names_distinct();
        }
        assert(<Self as TakeFieldInto<(C0, C1, C2, C3, C4), TStr<Str_0>>>::slot_name() == Str_0::name_spec());
        self.0.take()
    }
}

impl<'a, C0, C1, C2, C3, C4> TakeFieldMut<'a, (C0, C1, C2, C3, C4), TStr<Str_1>> for (Option<&'a mut C0>, Option<&'a mut C1>, Option<&'a mut C2>, Option<&'a mut C3>, Option<&'a mut C4>) where C1: 'a {
    open spec fn slot_name() -> Seq<char> {
        Str_1::name_spec()
    }

    proof fn lemma_slot_path(path: TStr<Str_1>) {
    }

    proof fn lemma_all_present(&self) {
    }

    fn take_field_mut(&mut self, path: TStr<Str_1>) -> (r: Option<&'a mut C1>) {
        proof {
            lemma_index_names_distinct();
        }
        assert(<Self as TakeFieldMut<'a, (C0, C1, C2, C3, C4), TStr<Str_1>>>::slot_name() == Str_1::name_spec());
        self.1.take()
    }
}

impl<C0, C1, C2, C3, C4> TakeFieldInto<(C0, C1, C2, C3, C4), TStr<Str_1>> for (Option<C0>, Option<C1>, Option<C2>, Option<C3>, Option<C4>) {
    open spec fn slot_name() -> Seq<char> {
        Str_1::name_spec()
    }

    proof fn lemma_slot_path(path: TStr<Str_1>) {
    }

    proof fn lemma_all_present(&self) {
    }

    fn take_field_into(&mut self, path: TStr<Str_1>) -> (r: Option<C1>) {
        proof {
            lemma_index_names_distinct();
        }
        assert(<Self as TakeFieldInto<(C0, C1, C2, C3, C4), TStr<Str_1>>>::slot_name() == Str_1::name_spec());
        self.1.take()
    }
}

impl<'a, C0, C1, C2, C3, C4> TakeFieldMut<'a, (C0, C1, C2, C3, C4), TStr<Str_2>> for (Option<&'a mut C0>, Option<&'a mut C1>, Option<&'a mut C2>, Option<&'a mut C3>, Option<&'a mut C4>) where C2: 'a {
    open spec fn slot_name() -> Seq<char> {
        Str_2::name_spec()
    }

    proof fn lemma_slot_path(path: TStr<Str_2>) {
    }

    proof fn lemma_all_present(&self) {
    }

    fn take_field_mut(&mut self, path: TStr<Str_2>) -> (r: Option<&'a mut C2>) {
        proof {
            lemma_index_names_distinct();
        }
        assert(<Self as TakeFieldMut<'a, (C0, C1, C2, C3, C4), TStr<Str_2>>>::slot_name() == Str_2::name_spec());
        self.2.take()
    }
}

impl<C0, C1, C2, C3, C4> TakeFieldInto<(C0, C1, C2, C3, C4), TStr<Str_2>> for (Option<C0>, Option<C1>, Option<C2>, Option<C3>, Option<C4>) {
    open spec fn slot_name() -> Seq<char> {
        Str_2::name_spec()
    }

    proof fn lemma_slot_path(path: TStr<Str_2>) {
    }

    proof fn lemma_all_present(&self) {
    }

    fn take_field_into(&mut self, path: TStr<Str_2>) -> (r: Option<C2>) {
        proof {
            lemma_index_names_distinct();
        }
        assert(<Self as TakeFieldInto<(C0, C1, C2, C3, C4), TStr<Str_2>>>::slot_name() == Str_2::name_spec());
        self.2.take()
    }
}

impl<'a, C0, C1, C2, C3, C4> TakeFieldMut<'a, (C0, C1, C2, C3, C4), TStr<Str_3>> for (Option<&'a mut C0>, Option<&'a mut C1>, Option<&'a mut C2>, Option<&'a mut C3>, Option<&'a mut C4>) where C3: 'a {
    open spec fn slot_name() -> Seq<char> {
        Str_3::name_spec()
    }

    proof fn lemma_slot_path(path: TStr<Str_3>) {
    }

    proof fn lemma_all_present(&self) {
    }

    fn take_field_mut(&mut self, path: TStr<Str_3>) -> (r: Option<&'a mut C3>) {
        proof {
            lemma_index_names_distinct();
        }
        assert(<Self as TakeFieldMut<'a, (C0, C1, C2, C3, C4), TStr<Str_3>>>::slot_name() == Str_3::name_spec());
        self.3.take()
    }
}

impl<C0, C1, C2, C3, C4> TakeFieldInto<(C0, C1, C2, C3, C4), TStr<Str_3>> for (Option<C0>, Option<C1>, Option<C2>, Option<C3>, Option<C4>) {
    open spec fn slot_name() -> Seq<char> {
        Str_3::name_spec()
    }

    proof fn lemma_slot_path(path: TStr<Str_3>) {
    }

    proof fn lemma_all_present(&self) {
    }

    fn take_field_into(&mut self, path: TStr<Str_3>) -> (r: Option<C3>) {
        proof {
            lemma_index_names_distinct();
        }
        assert(<Self as TakeFieldInto<(C0, C1, C2, C3, C4), TStr<Str_3>>>::slot_name() == Str_3::name_spec());
        self.3.take()
    }
}

impl<'a, C0, C1, C2, C3, C4> TakeFieldMut<'a, (C0, C1, C2, C3, C4), TStr<Str_4>> for (Option<&'a mut C0>, Option<&'a mut C1>, Option<&'a mut C2>, Option<&'a mut C3>, Option<&'a mut C4>) where C4: 'a {
    open spec fn slot_name() -> Seq<char> {
        Str_4::name_spec()
    }

    proof fn lemma_slot_path(path: TStr<Str_4>) {
    }

    proof fn lemma_all_present(&self) {
    }

    fn take_field_mut(&mut self, path: TStr<Str_4>) -> (r: Option<&'a mut C4>) {
        proof {
            lemma_index_names_distinct();
        }
        assert(<Self as TakeFieldMut<'a, (C0, C1, C2, C3, C4), TStr<Str_4>>>::slot_name() == Str_4::name_spec());
        self.4.take()
    }
}

impl<C0, C1, C2, C3, C4> TakeFieldInto<(C0, C1, C2, C3, C4), TStr<Str_4>> for (Option<C0>, Option<C1>, Option<C2>, Option<C3>, Option<C4>) {
    open spec fn slot_name() -> Seq<char> {
        Str_4::name_spec()
    }

    proof fn lemma_slot_path(path: TStr<Str_4>) {
    }

    proof fn lemma_all_present(&self) {
    }

    fn take_field_into(&mut self, path: TStr<Str_4>) -> (r: Option<C4>) {
        proof {
            lemma_index_names_distinct();
        }
        assert(<Self as TakeFieldInto<(C0, C1, C2, C3, C4), TStr<Str_4>>>::slot_name() == Str_4::name_spec());
        self.4.take()
    }
}

// Tuples of 6 elements.

impl<'a, C0, C1, C2, C3, C4, C5> FieldSlots<(C0, C1, C2, C3, C4, C5)> for (Option<&'a mut C0>, Option<&'a mut C1>, Option<&'a mut C2>, Option<&'a mut C3>, Option<&'a mut C4>, Option<&'a mut C5>) {
    open spec fn present(&self, name: Seq<char>) -> bool {
        (name == Str_0::name_spec() && self.0 is Some) || (name == Str_1::name_spec() && self.1 is Some) || (name == Str_2::name_spec() && self.2 is Some) || (name == Str_3::name_spec() && self.3 is Some) || (name == Str_4::name_spec() && self.4 is Some) || (name == Str_5::name_spec() && self.5 is Some)
    }

    open spec fn all_present(&self) -> bool {
        self.0 is Some && self.1 is Some && self.2 is Some && self.3 is Some && self.4 is Some && self.5 is Some
    }

    open spec fn reads(&self, w: &(C0, C1, C2, C3, C4, C5)) -> bool {
        (self.0 is Some ==> *self.0->Some_0 == w.0) && (self.1 is Some ==> *self.1->Some_0 == w.1) && (self.2 is Some ==> *self.2->Some_0 == w.2) && (self.3 is Some ==> *self.3->Some_0 == w.3) && (self.4 is Some ==> *self.4->Some_0 == w.4) && (self.5 is Some ==> *self.5->Some_0 == w.5)
    }
}

impl<C0, C1, C2, C3, C4, C5> FieldSlots<(C0, C1, C2, C3, C4, C5)> for (Option<C0>, Option<C1>, Option<C2>, Option<C3>, Option<C4>, Option<C5>) {
    open spec fn present(&self, name: Seq<char>) -> bool {
        (name == Str_0::name_spec() && self.0 is Some) || (name == Str_1::name_spec() && self.1 is Some) || (name == Str_2::name_spec() && self.2 is Some) || (name == Str_3::name_spec() && self.3 is Some) || (name == Str_4::name_spec() && self.4 is Some) || (name == Str_5::name_spec() && self.5 is Some)
    }

    open spec fn all_present(&self) -> bool {
        self.0 is Some && self.1 is Some && self.2 is Some && self.3 is Some && self.4 is Some && self.5 is Some
    }

    open spec fn reads(&self, w: &(C0, C1, C2, C3, C4, C5)) -> bool {
        (self.0 is Some ==> self.0->Some_0 == w.0) && (self.1 is Some ==> self.1->Some_0 == w.1) && (self.2 is Some ==> self.2->Some_0 == w.2) && (self.3 is Some ==> self.3->Some_0 == w.3) && (self.4 is Some ==> self.4->Some_0 == w.4) && (self.5 is Some ==> self.5->Some_0 == w.5)
    }
}

impl<'a, C0: 'a, C1: 'a, C2: 'a, C3: 'a, C4: 'a, C5: 'a> SplitFieldsMut<'a> for (C0, C1, C2, C3, C4, C5) {
    type SlotsMut = (Option<&'a mut C0>, Option<&'a mut C1>, Option<&'a mut C2>, Option<&'a mut C3>, Option<&'a mut C4>, Option<&'a mut C5>);

    /// Each slot lends its field: writing through the slots' references is
    /// what writing to the tuple's fields does.
    fn split_fields_mut(&'a mut self) -> (r: Self::SlotsMut)
        ensures
            *final(self) == (*final(r.0->Some_0), *final(r.1->Some_0), *final(r.2->Some_0), *final(r.3->Some_0), *final(r.4->Some_0), *final(r.5->Some_0)),
    {
        (Some(&mut self.0), Some(&mut self.1), Some(&mut self.2), Some(&mut self.3), Some(&mut self.4), Some(&mut self.5))
    }
}

impl<C0, C1, C2, C3, C4, C5> SplitFieldsInto for (C0, C1, C2, C3, C4, C5) {
    type SlotsInto = (Option<C0>, Option<C1>, Option<C2>, Option<C3>, Option<C4>, Option<C5>);

    fn split_fields_into(self) -> (r: Self::SlotsInto) {
        (Some(self.0), Some(self.1), Some(self.2), Some(self.3), Some(self.4), Some(self.5))
    }
}

impl<'a, C0, C1, C2, C3, C4, C5> TakeFieldMut<'a, (C0, C1, C2, C3, C4, C5), TStr<Str_0>> for (Option<&'a mut C0>, Option<&'a mut C1>, Option<&'a mut C2>, Option<&'a mut C3>, Option<&'a mut C4>, Option<&'a mut C5>) where C0: 'a {
    open spec fn slot_name() -> Seq<char> {
        Str_0::name_spec()
    }

    proof fn lemma_slot_path(path: TStr<Str_0>) {
    }

    proof fn lemma_all_present(&self) {
    }

    fn take_field_mut(&mut self, path: TStr<Str_0>) -> (r: Option<&'a mut C0>) {
        proof {
            lemma_index_names_distinct();
        }
        assert(<Self as TakeFieldMut<'a, (C0, C1, C2, C3, C4, C5), TStr<Str_0>>>::slot_name() == Str_0::name_spec());
        self.0.take()
    }
}

impl<C0, C1, C2, C3, C4, C5> TakeFieldInto<(C0, C1, C2, C3, C4, C5), TStr<Str_0>> for (Option<C0>, Option<C1>, Option<C2>, Option<C3>, Option<C4>, Option<C5>) {
    open spec fn slot_name() -> Seq<char> {
        Str_0::name_spec()
    }

    proof fn lemma_slot_path(path: TStr<Str_0>) {
    }

    proof fn lemma_all_present(&self) {
    }

    fn take_field_into(&mut self, path: TStr<Str_0>) -> (r: Option<C0>) {
        proof {
            lemma_index_names_distinct();
        }
        assert(<Self as TakeFieldInto<(C0, C1, C2, C3, C4, C5), TStr<Str_0>>>::slot_name() == Str_0::name_spec());
        self.0.take()
    }
}

impl<'a, C0, C1, C2, C3, C4, C5> TakeFieldMut<'a, (C0, C1, C2, C3, C4, C5), TStr<Str_1>> for (Option<&'a mut C0>, Option<&'a mut C1>, Option<&'a mut C2>, Option<&'a mut C3>, Option<&'a mut C4>, Option<&'a mut C5>) where C1: 'a {
    open spec fn slot_name() -> Seq<char> {
        Str_1::name_spec()
    }

    proof fn lemma_slot_path(path: TStr<Str_1>) {
    }

    proof fn lemma_all_present(&self) {
    }

    fn take_field_mut(&mut self, path: TStr<Str_1>) -> (r: Option<&'a mut C1>) {
        proof {
            lemma_index_names_distinct();
        }
        assert(<Self as TakeFieldMut<'a, (C0, C1, C2, C3, C4, C5), TStr<Str_1>>>::slot_name() == Str_1::name_spec());
        self.1.take()
    }
}

impl<C0, C1, C2, C3, C4, C5> TakeFieldInto<(C0, C1, C2, C3, C4, C5), TStr<Str_1>> for (Option<C0>, Option<C1>, Option<C2>, Option<C3>, Option<C4>, Option<C5>) {
    open spec fn slot_name() -> Seq<char> {
        Str_1::name_spec()
    }

    proof fn lemma_slot_path(path: TStr<Str_1>) {
    }

    proof fn lemma_all_present(&self) {
    }

    fn take_field_into(&mut self, path: TStr<Str_1>) -> (r: Option<C1>) {
        proof {
            lemma_index_names_distinct();
        }
        assert(<Self as TakeFieldInto<(C0, C1, C2, C3, C4, C5), TStr<Str_1>>>::slot_name() == Str_1::name_spec());
        self.1.take()
    }
}

impl<'a, C0, C1, C2, C3, C4, C5> TakeFieldMut<'a, (C0, C1, C2, C3, C4, C5), TStr<Str_2>> for (Option<&'a mut C0>, Option<&'a mut C1>, Option<&'a mut C2>, Option<&'a mut C3>, Option<&'a mut C4>, Option<&'a mut C5>) where C2: 'a {
    open spec fn slot_name() -> Seq<char> {
        Str_2::name_spec()
    }

    proof fn lemma_slot_path(path: TStr<Str_2>) {
    }

    proof fn lemma_all_present(&self) {
    }

    fn take_field_mut(&mut self, path: TStr<Str_2>) -> (r: Option<&'a mut C2>) {
        proof {
            lemma_index_names_distinct();
        }
        assert(<Self as TakeFieldMut<'a, (C0, C1, C2, C3, C4, C5), TStr<Str_2>>>::slot_name() == Str_2::name_spec());
        self.2.take()
    }
}

impl<C0, C1, C2, C3, C4, C5> TakeFieldInto<(C0, C1, C2, C3, C4, C5), TStr<Str_2>> for (Option<C0>, Option<C1>, Option<C2>, Option<C3>, Option<C4>, Option<C5>) {
    open spec fn slot_name() -> Seq<char> {
        Str_2::name_spec()
    }

    proof fn lemma_slot_path(path: TStr<Str_2>) {
    }

    proof fn lemma_all_present(&self) {
    }

    fn take_field_into(&mut self, path: TStr<Str_2>) -> (r: Option<C2>) {
        proof {
            lemma_index_names_distinct();
        }
        assert(<Self as TakeFieldInto<(C0, C1, C2, C3, C4, C5), TStr<Str_2>>>::slot_name() == Str_2::name_spec());
        self.2.take()
    }
}

impl<'a, C0, C1, C2, C3, C4, C5> TakeFieldMut<'a, (C0, C1, C2, C3, C4, C5), TStr<Str_3>> for (Option<&'a mut C0>, Option<&'a mut C1>, Option<&'a mut C2>, Option<&'a mut C3>, Option<&'a mut C4>, Option<&'a mut C5>) where C3: 'a {
    open spec fn slot_name() -> Seq<char> {
        Str_3::name_spec()
    }

    proof fn lemma_slot_path(path: TStr<Str_3>) {
    }

    proof fn lemma_all_present(&self) {
    }

    fn take_field_mut(&mut self, path: TStr<Str_3>) -> (r: Option<&'a mut C3>) {
        proof {
            lemma_index_names_distinct();
        }
        assert(<Self as TakeFieldMut<'a, (C0, C1, C2, C3, C4, C5), TStr<Str_3>>>::slot_name() == Str_3::name_spec());
        self.3.take()
    }
}

impl<C0, C1, C2, C3, C4, C5> TakeFieldInto<(C0, C1, C2, C3, C4, C5), TStr<Str_3>> for (Option<C0>, Option<C1>, Option<C2>, Option<C3>, Option<C4>, Option<C5>) {
    open spec fn slot_name() -> Seq<char> {
        Str_3::name_spec()
    }

    proof fn lemma_slot_path(path: TStr<Str_3>) {
    }

    proof fn lemma_all_present(&self) {
    }

    fn take_field_into(&mut self, path: TStr<Str_3>) -> (r: Option<C3>) {
        proof {
            lemma_index_names_distinct();
        }
        assert(<Self as TakeFieldInto<(C0, C1, C2, C3, C4, C5), TStr<Str_3>>>::slot_name() == Str_3::name_spec());
        self.3.take()
    }
}

impl<'a, C0, C1, C2, C3, C4, C5> TakeFieldMut<'a, (C0, C1, C2, C3, C4, C5), TStr<Str_4>> for (Option<&'a mut C0>, Option<&'a mut C1>, Option<&'a mut C2>, Option<&'a mut C3>, Option<&'a mut C4>, Option<&'a mut C5>) where C4: 'a {
    open spec fn slot_name() -> Seq<char> {
        Str_4::name_spec()
    }

    proof fn lemma_slot_path(path: TStr<Str_4>) {
    }

    proof fn lemma_all_present(&self) {
    }

    fn take_field_mut(&mut self, path: TStr<Str_4>) -> (r: Option<&'a mut C4>) {
        proof {
            lemma_index_names_distinct();
        }
        assert(<Self as TakeFieldMut<'a, (C0, C1, C2, C3, C4, C5), TStr<Str_4>>>::slot_name() == Str_4::name_spec());
        self.4.take()
    }
}

impl<C0, C1, C2, C3, C4, C5> TakeFieldInto<(C0, C1, C2, C3, C4, C5), TStr<Str_4>> for (Option<C0>, Option<C1>, Option<C2>, Option<C3>, Option<C4>, Option<C5>) {
    open spec fn slot_name() -> Seq<char> {
        Str_4::name_spec()
    }

    proof fn lemma_slot_path(path: TStr<Str_4>) {
    }

    proof fn lemma_all_present(&self) {
    }

    fn take_field_into(&mut self, path: TStr<Str_4>) -> (r: Option<C4>) {
        proof {
            lemma_index_names_distinct();
        }
        assert(<Self as TakeFieldInto<(C0, C1, C2, C3, C4, C5), TStr<Str_4>>>::slot_name() == Str_4::name_spec());
        self.4.take()
    }
}

impl<'a, C0, C1, C2, C3, C4, C5> TakeFieldMut<'a, (C0, C1, C2, C3, C4, C5), TStr<Str_5>> for (Option<&'a mut C0>, Option<&'a mut C1>, Option<&'a mut C2>, Option<&'a mut C3>, Option<&'a mut C4>, Option<&'a mut C5>) where C5: 'a {
    open spec fn slot_name() -> Seq<char> {
        Str_5::name_spec()
    }

    proof fn lemma_slot_path(path: TStr<Str_5>) {
    }

    proof fn lemma_all_present(&self) {
    }

    fn take_field_mut(&mut self, path: TStr<Str_5>) -> (r: Option<&'a mut C5>) {
        proof {
            lemma_index_names_distinct();
        }
        assert(<Self as TakeFieldMut<'a, (C0, C1, C2, C3, C4, C5), TStr<Str_5>>>::slot_name() == Str_5::name_spec());
        self.5.take()
    }
}

impl<C0, C1, C2, C3, C4, C5> TakeFieldInto<(C0, C1, C2, C3, C4, C5), TStr<Str_5>> for (Option<C0>, Option<C1>, Option<C2>, Option<C3>, Option<C4>, Option<C5>) {
    open spec fn slot_name() -> Seq<char> {
        Str_5::name_spec()
    }

    proof fn lemma_slot_path(path: TStr<Str_5>) {
    }

    proof fn lemma_all_present(&self) {
    }

    fn take_field_into(&mut self, path: TStr<Str_5>) -> (r: Option<C5>) {
        proof {
            lemma_index_names_distinct();
        }
        assert(<Self as TakeFieldInto<(C0, C1, C2, C3, C4, C5), TStr<Str_5>>>::slot_name() == Str_5::name_spec());
        self.5.take()
    }
}

// Tuples of 7 elements.

impl<'a, C0, C1, C2, C3, C4, C5, C6> FieldSlots<(C0, C1, C2, C3, C4, C5, C6)> for (Option<&'a mut C0>, Option<&'a mut C1>, Option<&'a mut C2>, Option<&'a mut C3>, Option<&'a mut C4>, Option<&'a mut C5>, Option<&'a mut C6>) {
    open spec fn present(&self, name: Seq<char>) -> bool {
        (name == Str_0::name_spec() && self.0 is Some) || (name == Str_1::name_spec() && self.1 is Some) || (name == Str_2::name_spec() && self.2 is Some) || (name == Str_3::name_spec() && self.3 is Some) || (name == Str_4::name_spec() && self.4 is Some) || (name == Str_5::name_spec() && self.5 is Some) || (name == Str_6::name_spec() && self.6 is Some)
    }

    open spec fn all_present(&self) -> bool {
        self.0 is Some && self.1 is Some && self.2 is Some && self.3 is Some && self.4 is Some && self.5 is Some && self.6 is Some
    }

    open spec fn reads(&self, w: &(C0, C1, C2, C3, C4, C5, C6)) -> bool {
        (self.0 is Some ==> *self.0->Some_0 == w.0) && (self.1 is Some ==> *self.1->Some_0 == w.1) && (self.2 is Some ==> *self.2->Some_0 == w.2) && (self.3 is Some ==> *self.3->Some_0 == w.3) && (self.4 is Some ==> *self.4->Some_0 == w.4) && (self.5 is Some ==> *self.5->Some_0 == w.5) && (self.6 is Some ==> *self.6->Some_0 == w.6)
    }
}

impl<C0, C1, C2, C3, C4, C5, C6> FieldSlots<(C0, C1, C2, C3, C4, C5, C6)> for (Option<C0>, Option<C1>, Option<C2>, Option<C3>, Option<C4>, Option<C5>, Option<C6>) {
    open spec fn present(&self, name: Seq<char>) -> bool {
        (name == Str_0::name_spec() && self.0 is Some) || (name == Str_1::name_spec() && self.1 is Some) || (name == Str_2::name_spec() && self.2 is Some) || (name == Str_3::name_spec() && self.3 is Some) || (name == Str_4::name_spec() && self.4 is Some) || (name == Str_5::name_spec() && self.5 is Some) || (name == Str_6::name_spec() && self.6 is Some)
    }

    open spec fn all_present(&self) -> bool {
        self.0 is Some && self.1 is Some && self.2 is Some && self.3 is Some && self.4 is Some && self.5 is Some && self.6 is Some
    }

    open spec fn reads(&self, w: &(C0, C1, C2, C3, C4, C5, C6)) -> bool {
        (self.0 is Some ==> self.0->Some_0 == w.0) && (self.1 is Some ==> self.1->Some_0 == w.1) && (self.2 is Some ==> self.2->Some_0 == w.2) && (self.3 is Some ==> self.3->Some_0 == w.3) && (self.4 is Some ==> self.4->Some_0 == w.4) && (self.5 is Some ==> self.5->Some_0 == w.5) && (self.6 is Some ==> self.6->Some_0 == w.6)
    }
}

impl<'a, C0: 'a, C1: 'a, C2: 'a, C3: 'a, C4: 'a, C5: 'a, C6: 'a> SplitFieldsMut<'a> for (C0, C1, C2, C3, C4, C5, C6) {
    type SlotsMut = (Option<&'a mut C0>, Option<&'a mut C1>, Option<&'a mut C2>, Option<&'a mut C3>, Option<&'a mut C4>, Option<&'a mut C5>, Option<&'a mut C6>);

    /// Each slot lends its field: writing through the slots' references is
    /// what writing to the tuple's fields does.
    fn split_fields_mut(&'a mut self) -> (r: Self::SlotsMut)
        ensures
            *final(self) == (*final(r.0->Some_0), *final(r.1->Some_0), *final(r.2->Some_0), *final(r.3->Some_0), *final(r.4->Some_0), *final(r.5->Some_0), *final(r.6->Some_0)),
    {
        (Some(&mut self.0), Some(&mut self.1), Some(&mut self.2), Some(&mut self.3), Some(&mut self.4), Some(&mut self.5), Some(&mut self.6))
    }
}

impl<C0, C1, C2, C3, C4, C5, C6> SplitFieldsInto for (C0, C1, C2, C3, C4, C5, C6) {
    type SlotsInto = (Option<C0>, Option<C1>, Option<C2>, Option<C3>, Option<C4>, Option<C5>, Option<C6>);

    fn split_fields_into(self) -> (r: Self::SlotsInto) {
        (Some(self.0), Some(self.1), Some(self.2), Some(self.3), Some(self.4), Some(self.5), Some(self.6))
    }
}

impl<'a, C0, C1, C2, C3, C4, C5, C6> TakeFieldMut<'a, (C0, C1, C2, C3, C4, C5, C6), TStr<Str_0>> for (Option<&'a mut C0>, Option<&'a mut C1>, Option<&'a mut C2>, Option<&'a mut C3>, Option<&'a mut C4>, Option<&'a mut C5>, Option<&'a mut C6>) where C0: 'a {
    open spec fn slot_name() -> Seq<char> {
        Str_0::name_spec()
    }

    proof fn lemma_slot_path(path: TStr<Str_0>) {
    }

    proof fn lemma_all_present(&self) {
    }

    fn take_field_mut(&mut self, path: TStr<Str_0>) -> (r: Option<&'a mut C0>) {
        proof {
            lemma_index_names_distinct();
        }
        assert(<Self as TakeFieldMut<'a, (C0, C1, C2, C3, C4, C5, C6), TStr<Str_0>>>::slot_name() == Str_0::name_spec());
        self.0.take()
    }
}

impl<C0, C1, C2, C3, C4, C5, C6> TakeFieldInto<(C0, C1, C2, C3, C4, C5, C6), TStr<Str_0>> for (Option<C0>, Option<C1>, Option<C2>, Option<C3>, Option<C4>, Option<C5>, Option<C6>) {
    open spec fn slot_name() -> Seq<char> {
        Str_0::name_spec()
    }

    proof fn lemma_slot_path(path: TStr<Str_0>) {
    }

    proof fn lemma_all_present(&self) {
    }

    fn take_field_into(&mut self, path: TStr<Str_0>) -> (r: Option<C0>) {
        proof {
            lemma_index_names_distinct();
        }
        assert(<Self as TakeFieldInto<(C0, C1, C2, C3, C4, C5, C6), TStr<Str_0>>>::slot_name() == Str_0::name_spec());
        self.0.take()
    }
}

impl<'a, C0, C1, C2, C3, C4, C5, C6> TakeFieldMut<'a, (C0, C1, C2, C3, C4, C5, C6), TStr<Str_1>> for (Option<&'a mut C0>, Option<&'a mut C1>, Option<&'a mut C2>, Option<&'a mut C3>, Option<&'a mut C4>, Option<&'a mut C5>, Option<&'a mut C6>) where C1: 'a {
    open spec fn slot_name() -> Seq<char> {
        Str_1::name_spec()
    }

    proof fn lemma_slot_path(path: TStr<Str_1>) {
    }

    proof fn lemma_all_present(&self) {
    }

    fn take_field_mut(&mut self, path: TStr<Str_1>) -> (r: Option<&'a mut C1>) {
        proof {
            lemma_index_names_distinct();
        }
        assert(<Self as TakeFieldMut<'a, (C0, C1, C2, C3, C4, C5, C6), TStr<Str_1>>>::slot_name() == Str_1::name_spec());
        self.1.take()
    }
}

impl<C0, C1, C2, C3, C4, C5, C6> TakeFieldInto<(C0, C1, C2, C3, C4, C5, C6), TStr<Str_1>> for (Option<C0>, Option<C1>, Option<C2>, Option<C3>, Option<C4>, Option<C5>, Option<C6>) {
    open spec fn slot_name() -> Seq<char> {
        Str_1::name_spec()
    }

    proof fn lemma_slot_path(path: TStr<Str_1>) {
    }

    proof fn lemma_all_present(&self) {
    }

    fn take_field_into(&mut self, path: TStr<Str_1>) -> (r: Option<C1>) {
        proof {
            lemma_index_names_distinct();
        }
        assert(<Self as TakeFieldInto<(C0, C1, C2, C3, C4, C5, C6), TStr<Str_1>>>::slot_name() == Str_1::name_spec());
        self.1.take()
    }
}

impl<'a, C0, C1, C2, C3, C4, C5, C6> TakeFieldMut<'a, (C0, C1, C2, C3, C4, C5, C6), TStr<Str_2>> for (Option<&'a mut C0>, Option<&'a mut C1>, Option<&'a mut C2>, Option<&'a mut C3>, Option<&'a mut C4>, Option<&'a mut C5>, Option<&'a mut C6>) where C2: 'a {
    open spec fn slot_name() -> Seq<char> {
        Str_2::name_spec()
    }

    proof fn lemma_slot_path(path: TStr<Str_2>) {
    }

    proof fn lemma_all_present(&self) {
    }

    fn take_field_mut(&mut self, path: TStr<Str_2>) -> (r: Option<&'a mut C2>) {
        proof {
            lemma_index_names_distinct();
        }
        assert(<Self as TakeFieldMut<'a, (C0, C1, C2, C3, C4, C5, C6), TStr<Str_2>>>::slot_name() == Str_2::name_spec());
        self.2.take()
    }
}

impl<C0, C1, C2, C3, C4, C5, C6> TakeFieldInto<(C0, C1, C2, C3, C4, C5, C6), TStr<Str_2>> for (Option<C0>, Option<C1>, Option<C2>, Option<C3>, Option<C4>, Option<C5>, Option<C6>) {
    open spec fn slot_name() -> Seq<char> {
        Str_2::name_spec()
    }

    proof fn lemma_slot_path(path: TStr<Str_2>) {
    }

    proof fn lemma_all_present(&self) {
    }

    fn take_field_into(&mut self, path: TStr<Str_2>) -> (r: Option<C2>) {
        proof {
            lemma_index_names_distinct();
        }
        assert(<Self as TakeFieldInto<(C0, C1, C2, C3, C4, C5, C6), TStr<Str_2>>>::slot_name() == Str_2::name_spec());
        self.2.take()
    }
}

impl<'a, C0, C1, C2, C3, C4, C5, C6> TakeFieldMut<'a, (C0, C1, C2, C3, C4, C5, C6), TStr<Str_3>> for (Option<&'a mut C0>, Option<&'a mut C1>, Option<&'a mut C2>, Option<&'a mut C3>, Option<&'a mut C4>, Option<&'a mut C5>, Option<&'a mut C6>) where C3: 'a {
    open spec fn slot_name() -> Seq<char> {
        Str_3::name_spec()
    }

    proof fn lemma_slot_path(path: TStr<Str_3>) {
    }

    proof fn lemma_all_present(&self) {
    }

    fn take_field_mut(&mut self, path: TStr<Str_3>) -> (r: Option<&'a mut C3>) {
        proof {
            lemma_index_names_distinct();
        }
        assert(<Self as TakeFieldMut<'a, (C0, C1, C2, C3, C4, C5, C6), TStr<Str_3>>>::slot_name() == Str_3::name_spec());
        self.3.take()
    }
}

impl<C0, C1, C2, C3, C4, C5, C6> TakeFieldInto<(C0, C1, C2, C3, C4, C5, C6), TStr<Str_3>> for (Option<C0>, Option<C1>, Option<C2>, Option<C3>, Option<C4>, Option<C5>, Option<C6>) {
    open spec fn slot_name() -> Seq<char> {
        Str_3::name_spec()
    }

    proof fn lemma_slot_path(path: TStr<Str_3>) {
    }

    proof fn lemma_all_present(&self) {
    }

    fn take_field_into(&mut self, path: TStr<Str_3>) -> (r: Option<C3>) {
        proof {
            lemma_index_names_distinct();
        }
        assert(<Self as TakeFieldInto<(C0, C1, C2, C3, C4, C5, C6), TStr<Str_3>>>::slot_name() == Str_3::name_spec());
        self.3.take()
    }
}

impl<'a, C0, C1, C2, C3, C4, C5, C6> TakeFieldMut<'a, (C0, C1, C2, C3, C4, C5, C6), TStr<Str_4>> for (Option<&'a mut C0>, Option<&'a mut C1>, Option<&'a mut C2>, Option<&'a mut C3>, Option<&'a mut C4>, Option<&'a mut C5>, Option<&'a mut C6>) where C4: 'a {
    open spec fn slot_name() -> Seq<char> {
        Str_4::name_spec()
    }

    proof fn lemma_slot_path(path: TStr<Str_4>) {
    }

    proof fn lemma_all_present(&self) {
    }

    fn take_field_mut(&mut self, path: TStr<Str_4>) -> (r: Option<&'a mut C4>) {
        proof {
            lemma_index_names_distinct();
        }
        assert(<Self as TakeFieldMut<'a, (C0, C1, C2, C3, C4, C5, C6), TStr<Str_4>>>::slot_name() == Str_4::name_spec());
        self.4.take()
    }
}

impl<C0, C1, C2, C3, C4, C5, C6> TakeFieldInto<(C0, C1, C2, C3, C4, C5, C6), TStr<Str_4>> for (Option<C0>, Option<C1>, Option<C2>, Option<C3>, Option<C4>, Option<C5>, Option<C6>) {
    open spec fn slot_name() -> Seq<char> {
        Str_4::name_spec()
    }

    proof fn lemma_slot_path(path: TStr<Str_4>) {
    }

    proof fn lemma_all_present(&self) {
    }

    fn take_field_into(&mut self, path: TStr<Str_4>) -> (r: Option<C4>) {
        proof {
            lemma_index_names_distinct();
        }
        assert(<Self as TakeFieldInto<(C0, C1, C2, C3, C4, C5, C6), TStr<Str_4>>>::slot_name() == Str_4::name_spec());
        self.4.take()
    }
}

impl<'a, C0, C1, C2, C3, C4, C5, C6> TakeFieldMut<'a, (C0, C1, C2, C3, C4, C5, C6), TStr<Str_5>> for (Option<&'a mut C0>, Option<&'a mut C1>, Option<&'a mut C2>, Option<&'a mut C3>, Option<&'a mut C4>, Option<&'a mut C5>, Option<&'a mut C6>) where C5: 'a {
    open spec fn slot_name() -> Seq<char> {
        Str_5::name_spec()
    }

    proof fn lemma_slot_path(path: TStr<Str_5>) {
    }

    proof fn lemma_all_present(&self) {
    }

    fn take_field_mut(&mut self, path: TStr<Str_5>) -> (r: Option<&'a mut C5>) {
        proof {
            lemma_index_names_distinct();
        }
        assert(<Self as TakeFieldMut<'a, (C0, C1, C2, C3, C4, C5, C6), TStr<Str_5>>>::slot_name() == Str_5::name_spec());
        self.5.take()
    }
}

impl<C0, C1, C2, C3, C4, C5, C6> TakeFieldInto<(C0, C1, C2, C3, C4, C5, C6), TStr<Str_5>> for (Option<C0>, Option<C1>, Option<C2>, Option<C3>, Option<C4>, Option<C5>, Option<C6>) {
    open spec fn slot_name() -> Seq<char> {
        Str_5::name_spec()
    }

    proof fn lemma_slot_path(path: TStr<Str_5>) {
    }

    proof fn lemma_all_present(&self) {
    }

    fn take_field_into(&mut self, path: TStr<Str_5>) -> (r: Option<C5>) {
        proof {
            lemma_index_names_distinct();
        }
        assert(<Self as TakeFieldInto<(C0, C1, C2, C3, C4, C5, C6), TStr<Str_5>>>::slot_name() == Str_5::name_spec());
        self.5.take()
    }
}

impl<'a, C0, C1, C2, C3, C4, C5, C6> TakeFieldMut<'a, (C0, C1, C2, C3, C4, C5, C6), TStr<Str_6>> for (Option<&'a mut C0>, Option<&'a mut C1>, Option<&'a mut C2>, Option<&'a mut C3>, Option<&'a mut C4>, Option<&'a mut C5>, Option<&'a mut C6>) where C6: 'a {
    open spec fn slot_name() -> Seq<char> {
        Str_6::name_spec()
    }

    proof fn lemma_slot_path(path: TStr<Str_6>) {
    }

    proof fn lemma_all_present(&self) {
    }

    fn take_field_mut(&mut self, path: TStr<Str_6>) -> (r: Option<&'a mut C6>) {
        proof {
            lemma_index_names_distinct();
        }
        assert(<Self as TakeFieldMut<'a, (C0, C1, C2, C3, C4, C5, C6), TStr<Str_6>>>::slot_name() == Str_6::name_spec());
        self.6.take()
    }
}

impl<C0, C1, C2, C3, C4, C5, C6> TakeFieldInto<(C0, C1, C2, C3, C4, C5, C6), TStr<Str_6>> for (Option<C0>, Option<C1>, Option<C2>, Option<C3>, Option<C4>, Option<C5>, Option<C6>) {
    open spec fn slot_name() -> Seq<char> {
        Str_6::name_spec()
    }

    proof fn lemma_slot_path(path: TStr<Str_6>) {
    }

    proof fn lemma_all_present(&self) {
    }

    fn take_field_into(&mut self, path: TStr<Str_6>) -> (r: Option<C6>) {
        proof {
            lemma_index_names_distinct();
        }
        assert(<Self as TakeFieldInto<(C0, C1, C2, C3, C4, C5, C6), TStr<Str_6>>>::slot_name() == Str_6::name_spec());
        self.6.take()
    }
}

// Tuples of 8 elements.

impl<'a, C0, C1, C2, C3, C4, C5, C6, C7> FieldSlots<(C0, C1, C2, C3, C4, C5, C6, C7)> for (Option<&'a mut C0>, Option<&'a mut C1>, Option<&'a mut C2>, Option<&'a mut C3>, Option<&'a mut C4>, Option<&'a mut C5>, Option<&'a mut C6>, Option<&'a mut C7>) {
    open spec fn present(&self, name: Seq<char>) -> bool {
        (name == Str_0::name_spec() && self.0 is Some) || (name == Str_1::name_spec() && self.1 is Some) || (name == Str_2::name_spec() && self.2 is Some) || (name == Str_3::name_spec() && self.3 is Some) || (name == Str_4::name_spec() && self.4 is Some) || (name == Str_5::name_spec() && self.5 is Some) || (name == Str_6::name_spec() && self.6 is Some) || (name == Str_7::name_spec() && self.7 is Some)
    }

    open spec fn all_present(&self) -> bool {
        self.0 is Some && self.1 is Some && self.2 is Some && self.3 is Some && self.4 is Some && self.5 is Some && self.6 is Some && self.7 is Some
    }

    open spec fn reads(&self, w: &(C0, C1, C2, C3, C4, C5, C6, C7)) -> bool {
        (self.0 is Some ==> *self.0->Some_0 == w.0) && (self.1 is Some ==> *self.1->Some_0 == w.1) && (self.2 is Some ==> *self.2->Some_0 == w.2) && (self.3 is Some ==> *self.3->Some_0 == w.3) && (self.4 is Some ==> *self.4->Some_0 == w.4) && (self.5 is Some ==> *self.5->Some_0 == w.5) && (self.6 is Some ==> *self.6->Some_0 == w.6) && (self.7 is Some ==> *self.7->Some_0 == w.7)
    }
}

impl<C0, C1, C2, C3, C4, C5, C6, C7> FieldSlots<(C0, C1, C2, C3, C4, C5, C6, C7)> for (Option<C0>, Option<C1>, Option<C2>, Option<C3>, Option<C4>, Option<C5>, Option<C6>, Option<C7>) {
    open spec fn present(&self, name: Seq<char>) -> bool {
        (name == Str_0::name_spec() && self.0 is Some) || (name == Str_1::name_spec() && self.1 is Some) || (name == Str_2::name_spec() && self.2 is Some) || (name == Str_3::name_spec() && self.3 is Some) || (name == Str_4::name_spec() && self.4 is Some) || (name == Str_5::name_spec() && self.5 is Some) || (name == Str_6::name_spec() && self.6 is Some) || (name == Str_7::name_spec() && self.7 is Some)
    }

    open spec fn all_present(&self) -> bool {
        self.0 is Some && self.1 is Some && self.2 is Some && self.3 is Some && self.4 is Some && self.5 is Some && self.6 is Some && self.7 is Some
    }

    open spec fn reads(&self, w: &(C0, C1, C2, C3, C4, C5, C6, C7)) -> bool {
        (self.0 is Some ==> self.0->Some_0 == w.0) && (self.1 is Some ==> self.1->Some_0 == w.1) && (self.2 is Some ==> self.2->Some_0 == w.2) && (self.3 is Some ==> self.3->Some_0 == w.3) && (self.4 is Some ==> self.4->Some_0 == w.4) && (self.5 is Some ==> self.5->Some_0 == w.5) && (self.6 is Some ==> self.6->Some_0 == w.6) && (self.7 is Some ==> self.7->Some_0 == w.7)
    }
}

impl<'a, C0: 'a, C1: 'a, C2: 'a, C3: 'a, C4: 'a, C5: 'a, C6: 'a, C7: 'a> SplitFieldsMut<'a> for (C0, C1, C2, C3, C4, C5, C6, C7) {
    type SlotsMut = (Option<&'a mut C0>, Option<&'a mut C1>, Option<&'a mut C2>, Option<&'a mut C3>, Option<&'a mut C4>, Option<&'a mut C5>, Option<&'a mut C6>, Option<&'a mut C7>);

    /// Each slot lends its field: writing through the slots' references is
    /// what writing to the tuple's fields does.
    fn split_fields_mut(&'a mut self) -> (r: Self::SlotsMut)
        ensures
            *final(self) == (*final(r.0->Some_0), *final(r.1->Some_0), *final(r.2->Some_0), *final(r.3->Some_0), *final(r.4->Some_0), *final(r.5->Some_0), *final(r.6->Some_0), *final(r.7->Some_0)),
    {
        (Some(&mut self.0), Some(&mut self.1), Some(&mut self.2), Some(&mut self.3), Some(&mut self.4), Some(&mut self.5), Some(&mut self.6), Some(&mut self.7))
    }
}

impl<C0, C1, C2, C3, C4, C5, C6, C7> SplitFieldsInto for (C0, C1, C2, C3, C4, C5, C6, C7) {
    type SlotsInto = (Option<C0>, Option<C1>, Option<C2>, Option<C3>, Option<C4>, Option<C5>, Option<C6>, Option<C7>);

    fn split_fields_into(self) -> (r: Self::SlotsInto) {
        (Some(self.0), Some(self.1), Some(self.2), Some(self.3), Some(self.4), Some(self.5), Some(self.6), Some(self.7))
    }
}

impl<'a, C0, C1, C2, C3, C4, C5, C6, C7> TakeFieldMut<'a, (C0, C1, C2, C3, C4, C5, C6, C7), TStr<Str_0>> for (Option<&'a mut C0>, Option<&'a mut C1>, Option<&'a mut C2>, Option<&'a mut C3>, Option<&'a mut C4>, Option<&'a mut C5>, Option<&'a mut C6>, Option<&'a mut C7>) where C0: 'a {
    open spec fn slot_name() -> Seq<char> {
        Str_0::name_spec()
    }

    proof fn lemma_slot_path(path: TStr<Str_0>) {
    }

    proof fn lemma_all_present(&self) {
    }

    fn take_field_mut(&mut self, path: TStr<Str_0>) -> (r: Option<&'a mut C0>) {
        proof {
            lemma_index_names_distinct();
        }
        assert(<Self as TakeFieldMut<'a, (C0, C1, C2, C3, C4, C5, C6, C7), TStr<Str_0>>>::slot_name() == Str_0::name_spec());
        self.0.take()
    }
}

impl<C0, C1, C2, C3, C4, C5, C6, C7> TakeFieldInto<(C0, C1, C2, C3, C4, C5, C6, C7), TStr<Str_0>> for (Option<C0>, Option<C1>, Option<C2>, Option<C3>, Option<C4>, Option<C5>, Option<C6>, Option<C7>) {
    open spec fn slot_name() -> Seq<char> {
        Str_0::name_spec()
    }

    proof fn lemma_slot_path(path: TStr<Str_0>) {
    }

    proof fn lemma_all_present(&self) {
    }

    fn take_field_into(&mut self, path: TStr<Str_0>) -> (r: Option<C0>) {
        proof {
            lemma_index_names_distinct();
        }
        assert(<Self as TakeFieldInto<(C0, C1, C2, C3, C4, C5, C6, C7), TStr<Str_0>>>::slot_name() == Str_0::name_spec());
        self.0.take()
    }
}

impl<'a, C0, C1, C2, C3, C4, C5, C6, C7> TakeFieldMut<'a, (C0, C1, C2, C3, C4, C5, C6, C7), TStr<Str_1>> for (Option<&'a mut C0>, Option<&'a mut C1>, Option<&'a mut C2>, Option<&'a mut C3>, Option<&'a mut C4>, Option<&'a mut C5>, Option<&'a mut C6>, Option<&'a mut C7>) where C1: 'a {
    open spec fn slot_name() -> Seq<char> {
        Str_1::name_spec()
    }

    proof fn lemma_slot_path(path: TStr<Str_1>) {
    }

    proof fn lemma_all_present(&self) {
    }

    fn take_field_mut(&mut self, path: TStr<Str_1>) -> (r: Option<&'a mut C1>) {
        proof {
            lemma_index_names_distinct();
        }
        assert(<Self as TakeFieldMut<'a, (C0, C1, C2, C3, C4, C5, C6, C7), TStr<Str_1>>>::slot_name() == Str_1::name_spec());
        self.1.take()
    }
}

impl<C0, C1, C2, C3, C4, C5, C6, C7> TakeFieldInto<(C0, C1, C2, C3, C4, C5, C6, C7), TStr<Str_1>> for (Option<C0>, Option<C1>, Option<C2>, Option<C3>, Option<C4>, Option<C5>, Option<C6>, Option<C7>) {
    open spec fn slot_name() -> Seq<char> {
        Str_1::name_spec()
    }

    proof fn lemma_slot_path(path: TStr<Str_1>) {
    }

    proof fn lemma_all_present(&self) {
    }

    fn take_field_into(&mut self, path: TStr<Str_1>) -> (r: Option<C1>) {
        proof {
            lemma_index_names_distinct();
        }
        assert(<Self as TakeFieldInto<(C0, C1, C2, C3, C4, C5, C6, C7), TStr<Str_1>>>::slot_name() == Str_1::name_spec());
        self.1.take()
    }
}

impl<'a, C0, C1, C2, C3, C4, C5, C6, C7> TakeFieldMut<'a, (C0, C1, C2, C3, C4, C5, C6, C7), TStr<Str_2>> for (Option<&'a mut C0>, Option<&'a mut C1>, Option<&'a mut C2>, Option<&'a mut C3>, Option<&'a mut C4>, Option<&'a mut C5>, Option<&'a mut C6>, Option<&'a mut C7>) where C2: 'a {
    open spec fn slot_name() -> Seq<char> {
        Str_2::name_spec()
    }

    proof fn lemma_slot_path(path: TStr<Str_2>) {
    }

    proof fn lemma_all_present(&self) {
    }

    fn take_field_mut(&mut self, path: TStr<Str_2>) -> (r: Option<&'a mut C2>) {
        proof {
            lemma_index_names_distinct();
        }
        assert(<Self as TakeFieldMut<'a, (C0, C1, C2, C3, C4, C5, C6, C7), TStr<Str_2>>>::slot_name() == Str_2::name_spec());
        self.2.take()
    }
}

impl<C0, C1, C2, C3, C4, C5, C6, C7> TakeFieldInto<(C0, C1, C2, C3, C4, C5, C6, C7), TStr<Str_2>> for (Option<C0>, Option<C1>, Option<C2>, Option<C3>, Option<C4>, Option<C5>, Option<C6>, Option<C7>) {
    open spec fn slot_name() -> Seq<char> {
        Str_2::name_spec()
    }

    proof fn lemma_slot_path(path: TStr<Str_2>) {
    }

    proof fn lemma_all_present(&self) {
    }

    fn take_field_into(&mut self, path: TStr<Str_2>) -> (r: Option<C2>) {
        proof {
            lemma_index_names_distinct();
        }
        assert(<Self as TakeFieldInto<(C0, C1, C2, C3, C4, C5, C6, C7), TStr<Str_2>>>::slot_name() == Str_2::name_spec());
        self.2.take()
    }
}

impl<'a, C0, C1, C2, C3, C4, C5, C6, C7> TakeFieldMut<'a, (C0, C1, C2, C3, C4, C5, C6, C7), TStr<Str_3>> for (Option<&'a mut C0>, Option<&'a mut C1>, Option<&'a mut C2>, Option<&'a mut C3>, Option<&'a mut C4>, Option<&'a mut C5>, Option<&'a mut C6>, Option<&'a mut C7>) where C3: 'a {
    open spec fn slot_name() -> Seq<char> {
        Str_3::name_spec()
    }

    proof fn lemma_slot_path(path: TStr<Str_3>) {
    }

    proof fn lemma_all_present(&self) {
    }

    fn take_field_mut(&mut self, path: TStr<Str_3>) -> (r: Option<&'a mut C3>) {
        proof {
            lemma_index_names_distinct();
        }
        assert(<Self as TakeFieldMut<'a, (C0, C1, C2, C3, C4, C5, C6, C7), TStr<Str_3>>>::slot_name() == Str_3::name_spec());
        self.3.take()
    }
}

impl<C0, C1, C2, C3, C4, C5, C6, C7> TakeFieldInto<(C0, C1, C2, C3, C4, C5, C6, C7), TStr<Str_3>> for (Option<C0>, Option<C1>, Option<C2>, Option<C3>, Option<C4>, Option<C5>, Option<C6>, Option<C7>) {
    open spec fn slot_name() -> Seq<char> {
        Str_3::name_spec()
    }

    proof fn lemma_slot_path(path: TStr<Str_3>) {
    }

    proof fn lemma_all_present(&self) {
    }

    fn take_field_into(&mut self, path: TStr<Str_3>) -> (r: Option<C3>) {
        proof {
            lemma_index_names_distinct();
        }
        assert(<Self as TakeFieldInto<(C0, C1, C2, C3, C4, C5, C6, C7), TStr<Str_3>>>::slot_name() == Str_3::name_spec());
        self.3.take()
    }
}

impl<'a, C0, C1, C2, C3, C4, C5, C6, C7> TakeFieldMut<'a, (C0, C1, C2, C3, C4, C5, C6, C7), TStr<Str_4>> for (Option<&'a mut C0>, Option<&'a mut C1>, Option<&'a mut C2>, Option<&'a mut C3>, Option<&'a mut C4>, Option<&'a mut C5>, Option<&'a mut C6>, Option<&'a mut C7>) where C4: 'a {
    open spec fn slot_name() -> Seq<char> {
        Str_4::name_spec()
    }

    proof fn lemma_slot_path(path: TStr<Str_4>) {
    }

    proof fn lemma_all_present(&self) {
    }

    fn take_field_mut(&mut self, path: TStr<Str_4>) -> (r: Option<&'a mut C4>) {
        proof {
            lemma_index_names_distinct();
        }
        assert(<Self as TakeFieldMut<'a, (C0, C1, C2, C3, C4, C5, C6, C7), TStr<Str_4>>>::slot_name() == Str_4::name_spec());
        self.4.take()
    }
}

impl<C0, C1, C2, C3, C4, C5, C6, C7> TakeFieldInto<(C0, C1, C2, C3, C4, C5, C6, C7), TStr<Str_4>> for (Option<C0>, Option<C1>, Option<C2>, Option<C3>, Option<C4>, Option<C5>, Option<C6>, Option<C7>) {
    open spec fn slot_name() -> Seq<char> {
        Str_4::name_spec()
    }

    proof fn lemma_slot_path(path: TStr<Str_4>) {
    }

    proof fn lemma_all_present(&self) {
    }

    fn take_field_into(&mut self, path: TStr<Str_4>) -> (r: Option<C4>) {
        proof {
            lemma_index_names_distinct();
        }
        assert(<Self as TakeFieldInto<(C0, C1, C2, C3, C4, C5, C6, C7), TStr<Str_4>>>::slot_name() == Str_4::name_spec());
        self.4.take()
    }
}

impl<'a, C0, C1, C2, C3, C4, C5, C6, C7> TakeFieldMut<'a, (C0, C1, C2, C3, C4, C5, C6, C7), TStr<Str_5>> for (Option<&'a mut C0>, Option<&'a mut C1>, Option<&'a mut C2>, Option<&'a mut C3>, Option<&'a mut C4>, Option<&'a mut C5>, Option<&'a mut C6>, Option<&'a mut C7>) where C5: 'a {
    open spec fn slot_name() -> Seq<char> {
        Str_5::name_spec()
    }

    proof fn lemma_slot_path(path: TStr<Str_5>) {
    }

    proof fn lemma_all_present(&self) {
    }

    fn take_field_mut(&mut self, path: TStr<Str_5>) -> (r: Option<&'a mut C5>) {
        proof {
            lemma_index_names_distinct();
        }
        assert(<Self as TakeFieldMut<'a, (C0, C1, C2, C3, C4, C5, C6, C7), TStr<Str_5>>>::slot_name() == Str_5::name_spec());
        self.5.take()
    }
}

impl<C0, C1, C2, C3, C4, C5, C6, C7> TakeFieldInto<(C0, C1, C2, C3, C4, C5, C6, C7), TStr<Str_5>> for (Option<C0>, Option<C1>, Option<C2>, Option<C3>, Option<C4>, Option<C5>, Option<C6>, Option<C7>) {
    open spec fn slot_name() -> Seq<char> {
        Str_5::name_spec()
    }

    proof fn lemma_slot_path(path: TStr<Str_5>) {
    }

    proof fn lemma_all_present(&self) {
    }

    fn take_field_into(&mut self, path: TStr<Str_5>) -> (r: Option<C5>) {
        proof {
            lemma_index_names_distinct();
        }
        assert(<Self as TakeFieldInto<(C0, C1, C2, C3, C4, C5, C6, C7), TStr<Str_5>>>::slot_name() == Str_5::name_spec());
        self.5.take()
    }
}

impl<'a, C0, C1, C2, C3, C4, C5, C6, C7> TakeFieldMut<'a, (C0, C1, C2, C3, C4, C5, C6, C7), TStr<Str_6>> for (Option<&'a mut C0>, Option<&'a mut C1>, Option<&'a mut C2>, Option<&'a mut C3>, Option<&'a mut C4>, Option<&'a mut C5>, Option<&'a mut C6>, Option<&'a mut C7>) where C6: 'a {
    open spec fn slot_name() -> Seq<char> {
        Str_6::name_spec()
    }

    proof fn lemma_slot_path(path: TStr<Str_6>) {
    }

    proof fn lemma_all_present(&self) {
    }

    fn take_field_mut(&mut self, path: TStr<Str_6>) -> (r: Option<&'a mut C6>) {
        proof {
            lemma_index_names_distinct();
        }
        assert(<Self as TakeFieldMut<'a, (C0, C1, C2, C3, C4, C5, C6, C7), TStr<Str_6>>>::slot_name() == Str_6::name_spec());
        self.6.take()
    }
}

impl<C0, C1, C2, C3, C4, C5, C6, C7> TakeFieldInto<(C0, C1, C2, C3, C4, C5, C6, C7), TStr<Str_6>> for (Option<C0>, Option<C1>, Option<C2>, Option<C3>, Option<C4>, Option<C5>, Option<C6>, Option<C7>) {
    open spec fn slot_name() -> Seq<char> {
        Str_6::name_spec()
    }

    proof fn lemma_slot_path(path: TStr<Str_6>) {
    }

    proof fn lemma_all_present(&self) {
    }

    fn take_field_into(&mut self, path: TStr<Str_6>) -> (r: Option<C6>) {
        proof {
            lemma_index_names_distinct();
        }
        assert(<Self as TakeFieldInto<(C0, C1, C2, C3, C4, C5, C6, C7), TStr<Str_6>>>::slot_name() == Str_6::name_spec());
        self.6.take()
    }
}

impl<'a, C0, C1, C2, C3, C4, C5, C6, C7> TakeFieldMut<'a, (C0, C1, C2, C3, C4, C5, C6, C7), TStr<Str_7>> for (Option<&'a mut C0>, Option<&'a mut C1>, Option<&'a mut C2>, Option<&'a mut C3>, Option<&'a mut C4>, Option<&'a mut C5>, Option<&'a mut C6>, Option<&'a mut C7>) where C7: 'a {
    open spec fn slot_name() -> Seq<char> {
        Str_7::name_spec()
    }

    proof fn lemma_slot_path(path: TStr<Str_7>) {
    }

    proof fn lemma_all_present(&self) {
    }

    fn take_field_mut(&mut self, path: TStr<Str_7>) -> (r: Option<&'a mut C7>) {
        proof {
            lemma_index_names_distinct();
        }
        assert(<Self as TakeFieldMut<'a, (C0, C1, C2, C3, C4, C5, C6, C7), TStr<Str_7>>>::slot_name() == Str_7::name_spec());
        self.7.take()
    }
}

impl<C0, C1, C2, C3, C4, C5, C6, C7> TakeFieldInto<(C0, C1, C2, C3, C4, C5, C6, C7), TStr<Str_7>> for (Option<C0>, Option<C1>, Option<C2>, Option<C3>, Option<C4>, Option<C5>, Option<C6>, Option<C7>) {
    open spec fn slot_name() -> Seq<char> {
        Str_7::name_spec()
    }

    proof fn lemma_slot_path(path: TStr<Str_7>) {
    }

    proof fn lemma_all_present(&self) {
    }

    fn take_field_into(&mut self, path: TStr<Str_7>) -> (r: Option<C7>) {
        proof {
            lemma_index_names_distinct();
        }
        assert(<Self as TakeFieldInto<(C0, C1, C2, C3, C4, C5, C6, C7), TStr<Str_7>>>::slot_name() == Str_7::name_spec());
        self.7.take()
    }
}

// Tuples of 9 elements.

impl<'a, C0, C1, C2, C3, C4, C5, C6, C7, C8> FieldSlots<(C0, C1, C2, C3, C4, C5, C6, C7, C8)> for (Option<&'a mut C0>, Option<&'a mut C1>, Option<&'a mut C2>, Option<&'a mut C3>, Option<&'a mut C4>, Option<&'a mut C5>, Option<&'a mut C6>, Option<&'a mut C7>, Option<&'a mut C8>) {
    open spec fn present(&self, name: Seq<char>) -> bool {
        (name == Str_0::name_spec() && self.0 is Some) || (name == Str_1::name_spec() && self.1 is Some) || (name == Str_2::name_spec() && self.2 is Some) || (name == Str_3::name_spec() && self.3 is Some) || (name == Str_4::name_spec() && self.4 is Some) || (name == Str_5::name_spec() && self.5 is Some) || (name == Str_6::name_spec() && self.6 is Some) || (name == Str_7::name_spec() && self.7 is Some) || (name == Str_8::name_spec() && self.8 is Some)
    }

    open spec fn all_present(&self) -> bool {
        self.0 is Some && self.1 is Some && self.2 is Some && self.3 is Some && self.4 is Some && self.5 is Some && self.6 is Some && self.7 is Some && self.8 is Some
    }

    open spec fn reads(&self, w: &(C0, C1, C2, C3, C4, C5, C6, C7, C8)) -> bool {
        (self.0 is Some ==> *self.0->Some_0 == w.0) && (self.1 is Some ==> *self.1->Some_0 == w.1) && (self.2 is Some ==> *self.2->Some_0 == w.2) && (self.3 is Some ==> *self.3->Some_0 == w.3) && (self.4 is Some ==> *self.4->Some_0 == w.4) && (self.5 is Some ==> *self.5->Some_0 == w.5) && (self.6 is Some ==> *self.6->Some_0 == w.6) && (self.7 is Some ==> *self.7->Some_0 == w.7) && (self.8 is Some ==> *self.8->Some_0 == w.8)
    }
}

impl<C0, C1, C2, C3, C4, C5, C6, C7, C8> FieldSlots<(C0, C1, C2, C3, C4, C5, C6, C7, C8)> for (Option<C0>, Option<C1>, Option<C2>, Option<C3>, Option<C4>, Option<C5>, Option<C6>, Option<C7>, Option<C8>) {
    open spec fn present(&self, name: Seq<char>) -> bool {
        (name == Str_0::name_spec() && self.0 is Some) || (name == Str_1::name_spec() && self.1 is Some) || (name == Str_2::name_spec() && self.2 is Some) || (name == Str_3::name_spec() && self.3 is Some) || (name == Str_4::name_spec() && self.4 is Some) || (name == Str_5::name_spec() && self.5 is Some) || (name == Str_6::name_spec() && self.6 is Some) || (name == Str_7::name_spec() && self.7 is Some) || (name == Str_8::name_spec() && self.8 is Some)
    }

    open spec fn all_present(&self) -> bool {
        self.0 is Some && self.1 is Some && self.2 is Some && self.3 is Some && self.4 is Some && self.5 is Some && self.6 is Some && self.7 is Some && self.8 is Some
    }

    open spec fn reads(&self, w: &(C0, C1, C2, C3, C4, C5, C6, C7, C8)) -> bool {
        (self.0 is Some ==> self.0->Some_0 == w.0) && (self.1 is Some ==> self.1->Some_0 == w.1) && (self.2 is Some ==> self.2->Some_0 == w.2) && (self.3 is Some ==> self.3->Some_0 == w.3) && (self.4 is Some ==> self.4->Some_0 == w.4) && (self.5 is Some ==> self.5->Some_0 == w.5) && (self.6 is Some ==> self.6->Some_0 == w.6) && (self.7 is Some ==> self.7->Some_0 == w.7) && (self.8 is Some ==> self.8->Some_0 == w.8)
    }
}

impl<'a, C0: 'a, C1: 'a, C2: 'a, C3: 'a, C4: 'a, C5: 'a, C6: 'a, C7: 'a, C8: 'a> SplitFieldsMut<'a> for (C0, C1, C2, C3, C4, C5, C6, C7, C8) {
    type SlotsMut = (Option<&'a mut C0>, Option<&'a mut C1>, Option<&'a mut C2>, Option<&'a mut C3>, Option<&'a mut C4>, Option<&'a mut C5>, Option<&'a mut C6>, Option<&'a mut C7>, Option<&'a mut C8>);

    /// Each slot lends its field: writing through the slots' references is
    /// what writing to the tuple's fields does.
    fn split_fields_mut(&'a mut self) -> (r: Self::SlotsMut)
        ensures
            *final(self) == (*final(r.0->Some_0), *final(r.1->Some_0), *final(r.2->Some_0), *final(r.3->Some_0), *final(r.4->Some_0), *final(r.5->Some_0), *final(r.6->Some_0), *final(r.7->Some_0), *final(r.8->Some_0)),
    {
        (Some(&mut self.0), Some(&mut self.1), Some(&mut self.2), Some(&mut self.3), Some(&mut self.4), Some(&mut self.5), Some(&mut self.6), Some(&mut self.7), Some(&mut self.8))
    }
}

impl<C0, C1, C2, C3, C4, C5, C6, C7, C8> SplitFieldsInto for (C0, C1, C2, C3, C4, C5, C6, C7, C8) {
    type SlotsInto = (Option<C0>, Option<C1>, Option<C2>, Option<C3>, Option<C4>, Option<C5>, Option<C6>, Option<C7>, Option<C8>);

    fn split_fields_into(self) -> (r: Self::SlotsInto) {
        (Some(self.0), Some(self.1), Some(self.2), Some(self.3), Some(self.4), Some(self.5), Some(self.6), Some(self.7), Some(self.8))
    }
}

impl<'a, C0, C1, C2, C3, C4, C5, C6, C7, C8> TakeFieldMut<'a, (C0, C1, C2, C3, C4, C5, C6, C7, C8), TStr<Str_0>> for (Option<&'a mut C0>, Option<&'a mut C1>, Option<&'a mut C2>, Option<&'a mut C3>, Option<&'a mut C4>, Option<&'a mut C5>, Option<&'a mut C6>, Option<&'a mut C7>, Option<&'a mut C8>) where C0: 'a {
    open spec fn slot_name() -> Seq<char> {
        Str_0::name_spec()
    }

    proof fn lemma_slot_path(path: TStr<Str_0>) {
    }

    proof fn lemma_all_present(&self) {
    }

    fn take_field_mut(&mut self, path: TStr<Str_0>) -> (r: Option<&'a mut C0>) {
        proof {
            lemma_index_names_distinct();
        }
        assert(<Self as TakeFieldMut<'a, (C0, C1, C2, C3, C4, C5, C6, C7, C8), TStr<Str_0>>>::slot_name() == Str_0::name_spec());
        self.0.take()
    }
}

impl<C0, C1, C2, C3, C4, C5, C6, C7, C8> TakeFieldInto<(C0, C1, C2, C3, C4, C5, C6, C7, C8), TStr<Str_0>> for (Option<C0>, Option<C1>, Option<C2>, Option<C3>, Option<C4>, Option<C5>, Option<C6>, Option<C7>, Option<C8>) {
    open spec fn slot_name() -> Seq<char> {
        Str_0::name_spec()
    }

    proof fn lemma_slot_path(path: TStr<Str_0>) {
    }

    proof fn lemma_all_present(&self) {
    }

    fn take_field_into(&mut self, path: TStr<Str_0>) -> (r: Option<C0>) {
        proof {
            lemma_index_names_distinct();
        }
        assert(<Self as TakeFieldInto<(C0, C1, C2, C3, C4, C5, C6, C7, C8), TStr<Str_0>>>::slot_name() == Str_0::name_spec());
        self.0.take()
    }
}

impl<'a, C0, C1, C2, C3, C4, C5, C6, C7, C8> TakeFieldMut<'a, (C0, C1, C2, C3, C4, C5, C6, C7, C8), TStr<Str_1>> for (Option<&'a mut C0>, Option<&'a mut C1>, Option<&'a mut C2>, Option<&'a mut C3>, Option<&'a mut C4>, Option<&'a mut C5>, Option<&'a mut C6>, Option<&'a mut C7>, Option<&'a mut C8>) where C1: 'a {
    open spec fn slot_name() -> Seq<char> {
        Str_1::name_spec()
    }

    proof fn lemma_slot_path(path: TStr<Str_1>) {
    }

    proof fn lemma_all_present(&self) {
    }

    fn take_field_mut(&mut self, path: TStr<Str_1>) -> (r: Option<&'a mut C1>) {
        proof {
            lemma_index_names_distinct();
        }
        assert(<Self as TakeFieldMut<'a, (C0, C1, C2, C3, C4, C5, C6, C7, C8), TStr<Str_1>>>::slot_name() == Str_1::name_spec());
        self.1.take()
    }
}

impl<C0, C1, C2, C3, C4, C5, C6, C7, C8> TakeFieldInto<(C0, C1, C2, C3, C4, C5, C6, C7, C8), TStr<Str_1>> for (Option<C0>, Option<C1>, Option<C2>, Option<C3>, Option<C4>, Option<C5>, Option<C6>, Option<C7>, Option<C8>) {
    open spec fn slot_name() -> Seq<char> {
        Str_1::name_spec()
    }

    proof fn lemma_slot_path(path: TStr<Str_1>) {
    }

    proof fn lemma_all_present(&self) {
    }

    fn take_field_into(&mut self, path: TStr<Str_1>) -> (r: Option<C1>) {
        proof {
            lemma_index_names_distinct();
        }
        assert(<Self as TakeFieldInto<(C0, C1, C2, C3, C4, C5, C6, C7, C8), TStr<Str_1>>>::slot_name() == Str_1::name_spec());
        self.1.take()
    }
}

impl<'a, C0, C1, C2, C3, C4, C5, C6, C7, C8> TakeFieldMut<'a, (C0, C1, C2, C3, C4, C5, C6, C7, C8), TStr<Str_2>> for (Option<&'a mut C0>, Option<&'a mut C1>, Option<&'a mut C2>, Option<&'a mut C3>, Option<&'a mut C4>, Option<&'a mut C5>, Option<&'a mut C6>, Option<&'a mut C7>, Option<&'a mut C8>) where C2: 'a {
    open spec fn slot_name() -> Seq<char> {
        Str_2::name_spec()
    }

    proof fn lemma_slot_path(path: TStr<Str_2>) {
    }

    proof fn lemma_all_present(&self) {
    }

    fn take_field_mut(&mut self, path: TStr<Str_2>) -> (r: Option<&'a mut C2>) {
        proof {
            lemma_index_names_distinct();
        }
        assert(<Self as TakeFieldMut<'a, (C0, C1, C2, C3, C4, C5, C6, C7, C8), TStr<Str_2>>>::slot_name() == Str_2::name_spec());
        self.2.take()
    }
}

impl<C0, C1, C2, C3, C4, C5, C6, C7, C8> TakeFieldInto<(C0, C1, C2, C3, C4, C5, C6, C7, C8), TStr<Str_2>> for (Option<C0>, Option<C1>, Option<C2>, Option<C3>, Option<C4>, Option<C5>, Option<C6>, Option<C7>, Option<C8>) {
    open spec fn slot_name() -> Seq<char> {
        Str_2::name_spec()
    }

    proof fn lemma_slot_path(path: TStr<Str_2>) {
    }

    proof fn lemma_all_present(&self) {
    }

    fn take_field_into(&mut self, path: TStr<Str_2>) -> (r: Option<C2>) {
        proof {
            lemma_index_names_distinct();
        }
        assert(<Self as TakeFieldInto<(C0, C1, C2, C3, C4, C5, C6, C7, C8), TStr<Str_2>>>::slot_name() == Str_2::name_spec());
        self.2.take()
    }
}

impl<'a, C0, C1, C2, C3, C4, C5, C6, C7, C8> TakeFieldMut<'a, (C0, C1, C2, C3, C4, C5, C6, C7, C8), TStr<Str_3>> for (Option<&'a mut C0>, Option<&'a mut C1>, Option<&'a mut C2>, Option<&'a mut C3>, Option<&'a mut C4>, Option<&'a mut C5>, Option<&'a mut C6>, Option<&'a mut C7>, Option<&'a mut C8>) where C3: 'a {
    open spec fn slot_name() -> Seq<char> {
        Str_3::name_spec()
    }

    proof fn lemma_slot_path(path: TStr<Str_3>) {
    }

    proof fn lemma_all_present(&self) {
    }

    fn take_field_mut(&mut self, path: TStr<Str_3>) -> (r: Option<&'a mut C3>) {
        proof {
            lemma_index_names_distinct();
        }
        assert(<Self as TakeFieldMut<'a, (C0, C1, C2, C3, C4, C5, C6, C7, C8), TStr<Str_3>>>::slot_name() == Str_3::name_spec());
        self.3.take()
    }
}

impl<C0, C1, C2, C3, C4, C5, C6, C7, C8> TakeFieldInto<(C0, C1, C2, C3, C4, C5, C6, C7, C8), TStr<Str_3>> for (Option<C0>, Option<C1>, Option<C2>, Option<C3>, Option<C4>, Option<C5>, Option<C6>, Option<C7>, Option<C8>) {
    open spec fn slot_name() -> Seq<char> {
        Str_3::name_spec()
    }

    proof fn lemma_slot_path(path: TStr<Str_3>) {
    }

    proof fn lemma_all_present(&self) {
    }

    fn take_field_into(&mut self, path: TStr<Str_3>) -> (r: Option<C3>) {
        proof {
            lemma_index_names_distinct();
        }
        assert(<Self as TakeFieldInto<(C0, C1, C2, C3, C4, C5, C6, C7, C8), TStr<Str_3>>>::slot_name() == Str_3::name_spec());
        self.3.take()
    }
}

impl<'a, C0, C1, C2, C3, C4, C5, C6, C7, C8> TakeFieldMut<'a, (C0, C1, C2, C3, C4, C5, C6, C7, C8), TStr<Str_4>> for (Option<&'a mut C0>, Option<&'a mut C1>, Option<&'a mut C2>, Option<&'a mut C3>, Option<&'a mut C4>, Option<&'a mut C5>, Option<&'a mut C6>, Option<&'a mut C7>, Option<&'a mut C8>) where C4: 'a {
    open spec fn slot_name() -> Seq<char> {
        Str_4::name_spec()
    }

    proof fn lemma_slot_path(path: TStr<Str_4>) {
    }

    proof fn lemma_all_present(&self) {
    }

    fn take_field_mut(&mut self, path: TStr<Str_4>) -> (r: Option<&'a mut C4>) {
        proof {
            lemma_index_names_distinct();
        }
        assert(<Self as TakeFieldMut<'a, (C0, C1, C2, C3, C4, C5, C6, C7, C8), TStr<Str_4>>>::slot_name() == Str_4::name_spec());
        self.4.take()
    }
}

impl<C0, C1, C2, C3, C4, C5, C6, C7, C8> TakeFieldInto<(C0, C1, C2, C3, C4, C5, C6, C7, C8), TStr<Str_4>> for (Option<C0>, Option<C1>, Option<C2>, Option<C3>, Option<C4>, Option<C5>, Option<C6>, Option<C7>, Option<C8>) {
    open spec fn slot_name() -> Seq<char> {
        Str_4::name_spec()
    }

    proof fn lemma_slot_path(path: TStr<Str_4>) {
    }

    proof fn lemma_all_present(&self) {
    }

    fn take_field_into(&mut self, path: TStr<Str_4>) -> (r: Option<C4>) {
        proof {
            lemma_index_names_distinct();
        }
        assert(<Self as TakeFieldInto<(C0, C1, C2, C3, C4, C5, C6, C7, C8), TStr<Str_4>>>::slot_name() == Str_4::name_spec());
        self.4.take()
    }
}

impl<'a, C0, C1, C2, C3, C4, C5, C6, C7, C8> TakeFieldMut<'a, (C0, C1, C2, C3, C4, C5, C6, C7, C8), TStr<Str_5>> for (Option<&'a mut C0>, Option<&'a mut C1>, Option<&'a mut C2>, Option<&'a mut C3>, Option<&'a mut C4>, Option<&'a mut C5>, Option<&'a mut C6>, Option<&'a mut C7>, Option<&'a mut C8>) where C5: 'a {
    open spec fn slot_name() -> Seq<char> {
        Str_5::name_spec()
    }

    proof fn lemma_slot_path(path: TStr<Str_5>) {
    }

    proof fn lemma_all_present(&self) {
    }

    fn take_field_mut(&mut self, path: TStr<Str_5>) -> (r: Option<&'a mut C5>) {
        proof {
            lemma_index_names_distinct();
        }
        assert(<Self as TakeFieldMut<'a, (C0, C1, C2, C3, C4, C5, C6, C7, C8), TStr<Str_5>>>::slot_name() == Str_5::name_spec());
        self.5.take()
    }
}

impl<C0, C1, C2, C3, C4, C5, C6, C7, C8> TakeFieldInto<(C0, C1, C2, C3, C4, C5, C6, C7, C8), TStr<Str_5>> for (Option<C0>, Option<C1>, Option<C2>, Option<C3>, Option<C4>, Option<C5>, Option<C6>, Option<C7>, Option<C8>) {
    open spec fn slot_name() -> Seq<char> {
        Str_5::name_spec()
    }

    proof fn lemma_slot_path(path: TStr<Str_5>) {
    }

    proof fn lemma_all_present(&self) {
    }

    fn take_field_into(&mut self, path: TStr<Str_5>) -> (r: Option<C5>) {
        proof {
            lemma_index_names_distinct();
        }
        assert(<Self as TakeFieldInto<(C0, C1, C2, C3, C4, C5, C6, C7, C8), TStr<Str_5>>>::slot_name() == Str_5::name_spec());
        self.5.take()
    }
}

impl<'a, C0, C1, C2, C3, C4, C5, C6, C7, C8> TakeFieldMut<'a, (C0, C1, C2, C3, C4, C5, C6, C7, C8), TStr<Str_6>> for (Option<&'a mut C0>, Option<&'a mut C1>, Option<&'a mut C2>, Option<&'a mut C3>, Option<&'a mut C4>, Option<&'a mut C5>, Option<&'a mut C6>, Option<&'a mut C7>, Option<&'a mut C8>) where C6: 'a {
    open spec fn slot_name() -> Seq<char> {
        Str_6::name_spec()
    }

    proof fn lemma_slot_path(path: TStr<Str_6>) {
    }

    proof fn lemma_all_present(&self) {
    }

    fn take_field_mut(&mut self, path: TStr<Str_6>) -> (r: Option<&'a mut C6>) {
        proof {
            lemma_index_names_distinct();
        }
        assert(<Self as TakeFieldMut<'a, (C0, C1, C2, C3, C4, C5, C6, C7, C8), TStr<Str_6>>>::slot_name() == Str_6::name_spec());
        self.6.take()
    }
}

impl<C0, C1, C2, C3, C4, C5, C6, C7, C8> TakeFieldInto<(C0, C1, C2, C3, C4, C5, C6, C7, C8), TStr<Str_6>> for (Option<C0>, Option<C1>, Option<C2>, Option<C3>, Option<C4>, Option<C5>, Option<C6>, Option<C7>, Option<C8>) {
    open spec fn slot_name() -> Seq<char> {
        Str_6::name_spec()
    }

    proof fn lemma_slot_path(path: TStr<Str_6>) {
    }

    proof fn lemma_all_present(&self) {
    }

    fn take_field_into(&mut self, path: TStr<Str_6>) -> (r: Option<C6>) {
        proof {
            lemma_index_names_distinct();
        }
        assert(<Self as TakeFieldInto<(C0, C1, C2, C3, C4, C5, C6, C7, C8), TStr<Str_6>>>::slot_name() == Str_6::name_spec());
        self.6.take()
    }
}

impl<'a, C0, C1, C2, C3, C4, C5, C6, C7, C8> TakeFieldMut<'a, (C0, C1, C2, C3, C4, C5, C6, C7, C8), TStr<Str_7>> for (Option<&'a mut C0>, Option<&'a mut C1>, Option<&'a mut C2>, Option<&'a mut C3>, Option<&'a mut C4>, Option<&'a mut C5>, Option<&'a mut C6>, Option<&'a mut C7>, Option<&'a mut C8>) where C7: 'a {
    open spec fn slot_name() -> Seq<char> {
        Str_7::name_spec()
    }

    proof fn lemma_slot_path(path: TStr<Str_7>) {
    }

    proof fn lemma_all_present(&self) {
    }

    fn take_field_mut(&mut self, path: TStr<Str_7>) -> (r: Option<&'a mut C7>) {
        proof {
            lemma_index_names_distinct();
        }
        assert(<Self as TakeFieldMut<'a, (C0, C1, C2, C3, C4, C5, C6, C7, C8), TStr<Str_7>>>::slot_name() == Str_7::name_spec());
        self.7.take()
    }
}

impl<C0, C1, C2, C3, C4, C5, C6, C7, C8> TakeFieldInto<(C0, C1, C2, C3, C4, C5, C6, C7, C8), TStr<Str_7>> for (Option<C0>, Option<C1>, Option<C2>, Option<C3>, Option<C4>, Option<C5>, Option<C6>, Option<C7>, Option<C8>) {
    open spec fn slot_name() -> Seq<char> {
        Str_7::name_spec()
    }

    proof fn lemma_slot_path(path: TStr<Str_7>) {
    }

    proof fn lemma_all_present(&self) {
    }

    fn take_field_into(&mut self, path: TStr<Str_7>) -> (r: Option<C7>) {
        proof {
            lemma_index_names_distinct();
        }
        assert(<Self as TakeFieldInto<(C0, C1, C2, C3, C4, C5, C6, C7, C8), TStr<Str_7>>>::slot_name() == Str_7::name_spec());
        self.7.take()
    }
}

impl<'a, C0, C1, C2, C3, C4, C5, C6, C7, C8> TakeFieldMut<'a, (C0, C1, C2, C3, C4, C5, C6, C7, C8), TStr<Str_8>> for (Option<&'a mut C0>, Option<&'a mut C1>, Option<&'a mut C2>, Option<&'a mut C3>, Option<&'a mut C4>, Option<&'a mut C5>, Option<&'a mut C6>, Option<&'a mut C7>, Option<&'a mut C8>) where C8: 'a {
    open spec fn slot_name() -> Seq<char> {
        Str_8::name_spec()
    }

    proof fn lemma_slot_path(path: TStr<Str_8>) {
    }

    proof fn lemma_all_present(&self) {
    }

    fn take_field_mut(&mut self, path: TStr<Str_8>) -> (r: Option<&'a mut C8>) {
        proof {
            lemma_index_names_distinct();
        }
        assert(<Self as TakeFieldMut<'a, (C0, C1, C2, C3, C4, C5, C6, C7, C8), TStr<Str_8>>>::slot_name() == Str_8::name_spec());
        self.8.take()
    }
}

impl<C0, C1, C2, C3, C4, C5, C6, C7, C8> TakeFieldInto<(C0, C1, C2, C3, C4, C5, C6, C7, C8), TStr<Str_8>> for (Option<C0>, Option<C1>, Option<C2>, Option<C3>, Option<C4>, Option<C5>, Option<C6>, Option<C7>, Option<C8>) {
    open spec fn slot_name() -> Seq<char> {
        Str_8::name_spec()
    }

    proof fn lemma_slot_path(path: TStr<Str_8>) {
    }

    proof fn lemma_all_present(&self) {
    }

    fn take_field_into(&mut self, path: TStr<Str_8>) -> (r: Option<C8>) {
        proof {
            lemma_index_names_distinct();
        }
        assert(<Self as TakeFieldInto<(C0, C1, C2, C3, C4, C5, C6, C7, C8), TStr<Str_8>>>::slot_name() == Str_8::name_spec());
        self.8.take()
    }
}

// Tuples of 10 elements.

impl<'a, C0, C1, C2, C3, C4, C5, C6, C7, C8, C9> FieldSlots<(C0, C1, C2, C3, C4, C5, C6, C7, C8, C9)> for (Option<&'a mut C0>, Option<&'a mut C1>, Option<&'a mut C2>, Option<&'a mut C3>, Option<&'a mut C4>, Option<&'a mut C5>, Option<&'a mut C6>, Option<&'a mut C7>, Option<&'a mut C8>, Option<&'a mut C9>) {
    open spec fn present(&self, name: Seq<char>) -> bool {
        (name == Str_0::name_spec() && self.0 is Some) || (name == Str_1::name_spec() && self.1 is Some) || (name == Str_2::name_spec() && self.2 is Some) || (name == Str_3::name_spec() && self.3 is Some) || (name == Str_4::name_spec() && self.4 is Some) || (name == Str_5::name_spec() && self.5 is Some) || (name == Str_6::name_spec() && self.6 is Some) || (name == Str_7::name_spec() && self.7 is Some) || (name == Str_8::name_spec() && self.8 is Some) || (name == Str_9::name_spec() && self.9 is Some)
    }

    open spec fn all_present(&self) -> bool {
        self.0 is Some && self.1 is Some && self.2 is Some && self.3 is Some && self.4 is Some && self.5 is Some && self.6 is Some && self.7 is Some && self.8 is Some && self.9 is Some
    }

    open spec fn reads(&self, w: &(C0, C1, C2, C3, C4, C5, C6, C7, C8, C9)) -> bool {
        (self.0 is Some ==> *self.0->Some_0 == w.0) && (self.1 is Some ==> *self.1->Some_0 == w.1) && (self.2 is Some ==> *self.2->Some_0 == w.2) && (self.3 is Some ==> *self.3->Some_0 == w.3) && (self.4 is Some ==> *self.4->Some_0 == w.4) && (self.5 is Some ==> *self.5->Some_0 == w.5) && (self.6 is Some ==> *self.6->Some_0 == w.6) && (self.7 is Some ==> *self.7->Some_0 == w.7) && (self.8 is Some ==> *self.8->Some_0 == w.8) && (self.9 is Some ==> *self.9->Some_0 == w.9)
    }
}

impl<C0, C1, C2, C3, C4, C5, C6, C7, C8, C9> FieldSlots<(C0, C1, C2, C3, C4, C5, C6, C7, C8, C9)> for (Option<C0>, Option<C1>, Option<C2>, Option<C3>, Option<C4>, Option<C5>, Option<C6>, Option<C7>, Option<C8>, Option<C9>) {
    open spec fn present(&self, name: Seq<char>) -> bool {
        (name == Str_0::name_spec() && self.0 is Some) || (name == Str_1::name_spec() && self.1 is Some) || (name == Str_2::name_spec() && self.2 is Some) || (name == Str_3::name_spec() && self.3 is Some) || (name == Str_4::name_spec() && self.4 is Some) || (name == Str_5::name_spec() && self.5 is Some) || (name == Str_6::name_spec() && self.6 is Some) || (name == Str_7::name_spec() && self.7 is Some) || (name == Str_8::name_spec() && self.8 is Some) || (name == Str_9::name_spec() && self.9 is Some)
    }

    open spec fn all_present(&self) -> bool {
        self.0 is Some && self.1 is Some && self.2 is Some && self.3 is Some && self.4 is Some && self.5 is Some && self.6 is Some && self.7 is Some && self.8 is Some && self.9 is Some
    }

    open spec fn reads(&self, w: &(C0, C1, C2, C3, C4, C5, C6, C7, C8, C9)) -> bool {
        (self.0 is Some ==> self.0->Some_0 == w.0) && (self.1 is Some ==> self.1->Some_0 == w.1) && (self.2 is Some ==> self.2->Some_0 == w.2) && (self.3 is Some ==> self.3->Some_0 == w.3) && (self.4 is Some ==> self.4->Some_0 == w.4) && (self.5 is Some ==> self.5->Some_0 == w.5) && (self.6 is Some ==> self.6->Some_0 == w.6) && (self.7 is Some ==> self.7->Some_0 == w.7) && (self.8 is Some ==> self.8->Some_0 == w.8) && (self.9 is Some ==> self.9->Some_0 == w.9)
    }
}

impl<'a, C0: 'a, C1: 'a, C2: 'a, C3: 'a, C4: 'a, C5: 'a, C6: 'a, C7: 'a, C8: 'a, C9: 'a> SplitFieldsMut<'a> for (C0, C1, C2, C3, C4, C5, C6, C7, C8, C9) {
    type SlotsMut = (Option<&'a mut C0>, Option<&'a mut C1>, Option<&'a mut C2>, Option<&'a mut C3>, Option<&'a mut C4>, Option<&'a mut C5>, Option<&'a mut C6>, Option<&'a mut C7>, Option<&'a mut C8>, Option<&'a mut C9>);

    /// Each slot lends its field: writing through the slots' references is
    /// what writing to the tuple's fields does.
    fn split_fields_mut(&'a mut self) -> (r: Self::SlotsMut)
        ensures
            *final(self) == (*final(r.0->Some_0), *final(r.1->Some_0), *final(r.2->Some_0), *final(r.3->Some_0), *final(r.4->Some_0), *final(r.5->Some_0), *final(r.6->Some_0), *final(r.7->Some_0), *final(r.8->Some_0), *final(r.9->Some_0)),
    {
        (Some(&mut self.0), Some(&mut self.1), Some(&mut self.2), Some(&mut self.3), Some(&mut self.4), Some(&mut self.5), Some(&mut self.6), Some(&mut self.7), Some(&mut self.8), Some(&mut self.9))
    }
}

impl<C0, C1, C2, C3, C4, C5, C6, C7, C8, C9> SplitFieldsInto for (C0, C1, C2, C3, C4, C5, C6, C7, C8, C9) {
    type SlotsInto = (Option<C0>, Option<C1>, Option<C2>, Option<C3>, Option<C4>, Option<C5>, Option<C6>, Option<C7>, Option<C8>, Option<C9>);

    fn split_fields_into(self) -> (r: Self::SlotsInto) {
        (Some(self.0), Some(self.1), Some(self.2), Some(self.3), Some(self.4), Some(self.5), Some(self.6), Some(self.7), Some(self.8), Some(self.9))
    }
}

impl<'a, C0, C1, C2, C3, C4, C5, C6, C7, C8, C9> TakeFieldMut<'a, (C0, C1, C2, C3, C4, C5, C6, C7, C8, C9), TStr<Str_0>> for (Option<&'a mut C0>, Option<&'a mut C1>, Option<&'a mut C2>, Option<&'a mut C3>, Option<&'a mut C4>, Option<&'a mut C5>, Option<&'a mut C6>, Option<&'a mut C7>, Option<&'a mut C8>, Option<&'a mut C9>) where C0: 'a {
    open spec fn slot_name() -> Seq<char> {
        Str_0::name_spec()
    }

    proof fn lemma_slot_path(path: TStr<Str_0>) {
    }

    proof fn lemma_all_present(&self) {
    }

    fn take_field_mut(&mut self, path: TStr<Str_0>) -> (r: Option<&'a mut C0>) {
        proof {
            lemma_index_names_distinct();
        }
        assert(<Self as TakeFieldMut<'a, (C0, C1, C2, C3, C4, C5, C6, C7, C8, C9), TStr<Str_0>>>::slot_name() == Str_0::name_spec());
        self.0.take()
    }
}

impl<C0, C1, C2, C3, C4, C5, C6, C7, C8, C9> TakeFieldInto<(C0, C1, C2, C3, C4, C5, C6, C7, C8, C9), TStr<Str_0>> for (Option<C0>, Option<C1>, Option<C2>, Option<C3>, Option<C4>, Option<C5>, Option<C6>, Option<C7>, Option<C8>, Option<C9>) {
    open spec fn slot_name() -> Seq<char> {
        Str_0::name_spec()
    }

    proof fn lemma_slot_path(path: TStr<Str_0>) {
    }

    proof fn lemma_all_present(&self) {
    }

    fn take_field_into(&mut self, path: TStr<Str_0>) -> (r: Option<C0>) {
        proof {
            lemma_index_names_distinct();
        }
        assert(<Self as TakeFieldInto<(C0, C1, C2, C3, C4, C5, C6, C7, C8, C9), TStr<Str_0>>>::slot_name() == Str_0::name_spec());
        self.0.take()
    }
}

impl<'a, C0, C1, C2, C3, C4, C5, C6, C7, C8, C9> TakeFieldMut<'a, (C0, C1, C2, C3, C4, C5, C6, C7, C8, C9), TStr<Str_1>> for (Option<&'a mut C0>, Option<&'a mut C1>, Option<&'a mut C2>, Option<&'a mut C3>, Option<&'a mut C4>, Option<&'a mut C5>, Option<&'a mut C6>, Option<&'a mut C7>, Option<&'a mut C8>, Option<&'a mut C9>) where C1: 'a {
    open spec fn slot_name() -> Seq<char> {
        Str_1::name_spec()
    }

    proof fn lemma_slot_path(path: TStr<Str_1>) {
    }

    proof fn lemma_all_present(&self) {
    }

    fn take_field_mut(&mut self, path: TStr<Str_1>) -> (r: Option<&'a mut C1>) {
        proof {
            lemma_index_names_distinct();
        }
        assert(<Self as TakeFieldMut<'a, (C0, C1, C2, C3, C4, C5, C6, C7, C8, C9), TStr<Str_1>>>::slot_name() == Str_1::name_spec());
        self.1.take()
    }
}

impl<C0, C1, C2, C3, C4, C5, C6, C7, C8, C9> TakeFieldInto<(C0, C1, C2, C3, C4, C5, C6, C7, C8, C9), TStr<Str_1>> for (Option<C0>, Option<C1>, Option<C2>, Option<C3>, Option<C4>, Option<C5>, Option<C6>, Option<C7>, Option<C8>, Option<C9>) {
    open spec fn slot_name() -> Seq<char> {
        Str_1::name_spec()
    }

    proof fn lemma_slot_path(path: TStr<Str_1>) {
    }

    proof fn lemma_all_present(&self) {
    }

    fn take_field_into(&mut self, path: TStr<Str_1>) -> (r: Option<C1>) {
        proof {
            lemma_index_names_distinct();
        }
        assert(<Self as TakeFieldInto<(C0, C1, C2, C3, C4, C5, C6, C7, C8, C9), TStr<Str_1>>>::slot_name() == Str_1::name_spec());
        self.1.take()
    }
}

impl<'a, C0, C1, C2, C3, C4, C5, C6, C7, C8, C9> TakeFieldMut<'a, (C0, C1, C2, C3, C4, C5, C6, C7, C8, C9), TStr<Str_2>> for (Option<&'a mut C0>, Option<&'a mut C1>, Option<&'a mut C2>, Option<&'a mut C3>, Option<&'a mut C4>, Option<&'a mut C5>, Option<&'a mut C6>, Option<&'a mut C7>, Option<&'a mut C8>, Option<&'a mut C9>) where C2: 'a {
    open spec fn slot_name() -> Seq<char> {
        Str_2::name_spec()
    }

    proof fn lemma_slot_path(path: TStr<Str_2>) {
    }

    proof fn lemma_all_present(&self) {
    }

    fn take_field_mut(&mut self, path: TStr<Str_2>) -> (r: Option<&'a mut C2>) {
        proof {
            lemma_index_names_distinct();
        }
        assert(<Self as TakeFieldMut<'a, (C0, C1, C2, C3, C4, C5, C6, C7, C8, C9), TStr<Str_2>>>::slot_name() == Str_2::name_spec());
        self.2.take()
    }
}

impl<C0, C1, C2, C3, C4, C5, C6, C7, C8, C9> TakeFieldInto<(C0, C1, C2, C3, C4, C5, C6, C7, C8, C9), TStr<Str_2>> for (Option<C0>, Option<C1>, Option<C2>, Option<C3>, Option<C4>, Option<C5>, Option<C6>, Option<C7>, Option<C8>, Option<C9>) {
    open spec fn slot_name() -> Seq<char> {
        Str_2::name_spec()
    }

    proof fn lemma_slot_path(path: TStr<Str_2>) {
    }

    proof fn lemma_all_present(&self) {
    }

    fn take_field_into(&mut self, path: TStr<Str_2>) -> (r: Option<C2>) {
        proof {
            lemma_index_names_distinct();
        }
        assert(<Self as TakeFieldInto<(C0, C1, C2, C3, C4, C5, C6, C7, C8, C9), TStr<Str_2>>>::slot_name() == Str_2::name_spec());
        self.2.take()
    }
}

impl<'a, C0, C1, C2, C3, C4, C5, C6, C7, C8, C9> TakeFieldMut<'a, (C0, C1, C2, C3, C4, C5, C6, C7, C8, C9), TStr<Str_3>> for (Option<&'a mut C0>, Option<&'a mut C1>, Option<&'a mut C2>, Option<&'a mut C3>, Option<&'a mut C4>, Option<&'a mut C5>, Option<&'a mut C6>, Option<&'a mut C7>, Option<&'a mut C8>, Option<&'a mut C9>) where C3: 'a {
    open spec fn slot_name() -> Seq<char> {
        Str_3::name_spec()
    }

    proof fn lemma_slot_path(path: TStr<Str_3>) {
    }

    proof fn lemma_all_present(&self) {
    }

    fn take_field_mut(&mut self, path: TStr<Str_3>) -> (r: Option<&'a mut C3>) {
        proof {
            lemma_index_names_distinct();
        }
        assert(<Self as TakeFieldMut<'a, (C0, C1, C2, C3, C4, C5, C6, C7, C8, C9), TStr<Str_3>>>::slot_name() == Str_3::name_spec());
        self.3.take()
    }
}

impl<C0, C1, C2, C3, C4, C5, C6, C7, C8, C9> TakeFieldInto<(C0, C1, C2, C3, C4, C5, C6, C7, C8, C9), TStr<Str_3>> for (Option<C0>, Option<C1>, Option<C2>, Option<C3>, Option<C4>, Option<C5>, Option<C6>, Option<C7>, Option<C8>, Option<C9>) {
    open spec fn slot_name() -> Seq<char> {
        Str_3::name_spec()
    }

    proof fn lemma_slot_path(path: TStr<Str_3>) {
    }

    proof fn lemma_all_present(&self) {
    }

    fn take_field_into(&mut self, path: TStr<Str_3>) -> (r: Option<C3>) {
        proof {
            lemma_index_names_distinct();
        }
        assert(<Self as TakeFieldInto<(C0, C1, C2, C3, C4, C5, C6, C7, C8, C9), TStr<Str_3>>>::slot_name() == Str_3::name_spec());
        self.3.take()
    }
}

impl<'a, C0, C1, C2, C3, C4, C5, C6, C7, C8, C9> TakeFieldMut<'a, (C0, C1, C2, C3, C4, C5, C6, C7, C8, C9), TStr<Str_4>> for (Option<&'a mut C0>, Option<&'a mut C1>, Option<&'a mut C2>, Option<&'a mut C3>, Option<&'a mut C4>, Option<&'a mut C5>, Option<&'a mut C6>, Option<&'a mut C7>, Option<&'a mut C8>, Option<&'a mut C9>) where C4: 'a {
    open spec fn slot_name() -> Seq<char> {
        Str_4::name_spec()
    }

    proof fn lemma_slot_path(path: TStr<Str_4>) {
    }

    proof fn lemma_all_present(&self) {
    }

    fn take_field_mut(&mut self, path: TStr<Str_4>) -> (r: Option<&'a mut C4>) {
        proof {
            lemma_index_names_distinct();
        }
        assert(<Self as TakeFieldMut<'a, (C0, C1, C2, C3, C4, C5, C6, C7, C8, C9), TStr<Str_4>>>::slot_name() == Str_4::name_spec());
        self.4.take()
    }
}

impl<C0, C1, C2, C3, C4, C5, C6, C7, C8, C9> TakeFieldInto<(C0, C1, C2, C3, C4, C5, C6, C7, C8, C9), TStr<Str_4>> for (Option<C0>, Option<C1>, Option<C2>, Option<C3>, Option<C4>, Option<C5>, Option<C6>, Option<C7>, Option<C8>, Option<C9>) {
    open spec fn slot_name() -> Seq<char> {
        Str_4::name_spec()
    }

    proof fn lemma_slot_path(path: TStr<Str_4>) {
    }

    proof fn lemma_all_present(&self) {
    }

    fn take_field_into(&mut self, path: TStr<Str_4>) -> (r: Option<C4>) {
        proof {
            lemma_index_names_distinct();
        }
        assert(<Self as TakeFieldInto<(C0, C1, C2, C3, C4, C5, C6, C7, C8, C9), TStr<Str_4>>>::slot_name() == Str_4::name_spec());
        self.4.take()
    }
}

impl<'a, C0, C1, C2, C3, C4, C5, C6, C7, C8, C9> TakeFieldMut<'a, (C0, C1, C2, C3, C4, C5, C6, C7, C8, C9), TStr<Str_5>> for (Option<&'a mut C0>, Option<&'a mut C1>, Option<&'a mut C2>, Option<&'a mut C3>, Option<&'a mut C4>, Option<&'a mut C5>, Option<&'a mut C6>, Option<&'a mut C7>, Option<&'a mut C8>, Option<&'a mut C9>) where C5: 'a {
    open spec fn slot_name() -> Seq<char> {
        Str_5::name_spec()
    }

    proof fn lemma_slot_path(path: TStr<Str_5>) {
    }

    proof fn lemma_all_present(&self) {
    }

    fn take_field_mut(&mut self, path: TStr<Str_5>) -> (r: Option<&'a mut C5>) {
        proof {
            lemma_index_names_distinct();
        }
        assert(<Self as TakeFieldMut<'a, (C0, C1, C2, C3, C4, C5, C6, C7, C8, C9), TStr<Str_5>>>::slot_name() == Str_5::name_spec());
        self.5.take()
    }
}

impl<C0, C1, C2, C3, C4, C5, C6, C7, C8, C9> TakeFieldInto<(C0, C1, C2, C3, C4, C5, C6, C7, C8, C9), TStr<Str_5>> for (Option<C0>, Option<C1>, Option<C2>, Option<C3>, Option<C4>, Option<C5>, Option<C6>, Option<C7>, Option<C8>, Option<C9>) {
    open spec fn slot_name() -> Seq<char> {
        Str_5::name_spec()
    }

    proof fn lemma_slot_path(path: TStr<Str_5>) {
    }

    proof fn lemma_all_present(&self) {
    }

    fn take_field_into(&mut self, path: TStr<Str_5>) -> (r: Option<C5>) {
        proof {
            lemma_index_names_distinct();
        }
        assert(<Self as TakeFieldInto<(C0, C1, C2, C3, C4, C5, C6, C7, C8, C9), TStr<Str_5>>>::slot_name() == Str_5::name_spec());
        self.5.take()
    }
}

impl<'a, C0, C1, C2, C3, C4, C5, C6, C7, C8, C9> TakeFieldMut<'a, (C0, C1, C2, C3, C4, C5, C6, C7, C8, C9), TStr<Str_6>> for (Option<&'a mut C0>, Option<&'a mut C1>, Option<&'a mut C2>, Option<&'a mut C3>, Option<&'a mut C4>, Option<&'a mut C5>, Option<&'a mut C6>, Option<&'a mut C7>, Option<&'a mut C8>, Option<&'a mut C9>) where C6: 'a {
    open spec fn slot_name() -> Seq<char> {
        Str_6::name_spec()
    }

    proof fn lemma_slot_path(path: TStr<Str_6>) {
    }

    proof fn lemma_all_present(&self) {
    }

    fn take_field_mut(&mut self, path: TStr<Str_6>) -> (r: Option<&'a mut C6>) {
        proof {
            lemma_index_names_distinct();
        }
        assert(<Self as TakeFieldMut<'a, (C0, C1, C2, C3, C4, C5, C6, C7, C8, C9), TStr<Str_6>>>::slot_name() == Str_6::name_spec());
        self.6.take()
    }
}

impl<C0, C1, C2, C3, C4, C5, C6, C7, C8, C9> TakeFieldInto<(C0, C1, C2, C3, C4, C5, C6, C7, C8, C9), TStr<Str_6>> for (Option<C0>, Option<C1>, Option<C2>, Option<C3>, Option<C4>, Option<C5>, Option<C6>, Option<C7>, Option<C8>, Option<C9>) {
    open spec fn slot_name() -> Seq<char> {
        Str_6::name_spec()
    }

    proof fn lemma_slot_path(path: TStr<Str_6>) {
    }

    proof fn lemma_all_present(&self) {
    }

    fn take_field_into(&mut self, path: TStr<Str_6>) -> (r: Option<C6>) {
        proof {
            lemma_index_names_distinct();
        }
        assert(<Self as TakeFieldInto<(C0, C1, C2, C3, C4, C5, C6, C7, C8, C9), TStr<Str_6>>>::slot_name() == Str_6::name_spec());
        self.6.take()
    }
}

impl<'a, C0, C1, C2, C3, C4, C5, C6, C7, C8, C9> TakeFieldMut<'a, (C0, C1, C2, C3, C4, C5, C6, C7, C8, C9), TStr<Str_7>> for (Option<&'a mut C0>, Option<&'a mut C1>, Option<&'a mut C2>, Option<&'a mut C3>, Option<&'a mut C4>, Option<&'a mut C5>, Option<&'a mut C6>, Option<&'a mut C7>, Option<&'a mut C8>, Option<&'a mut C9>) where C7: 'a {
    open spec fn slot_name() -> Seq<char> {
        Str_7::name_spec()
    }

    proof fn lemma_slot_path(path: TStr<Str_7>) {
    }

    proof fn lemma_all_present(&self) {
    }

    fn take_field_mut(&mut self, path: TStr<Str_7>) -> (r: Option<&'a mut C7>) {
        proof {
            lemma_index_names_distinct();
        }
        assert(<Self as TakeFieldMut<'a, (C0, C1, C2, C3, C4, C5, C6, C7, C8, C9), TStr<Str_7>>>::slot_name() == Str_7::name_spec());
        self.7.take()
    }
}

impl<C0, C1, C2, C3, C4, C5, C6, C7, C8, C9> TakeFieldInto<(C0, C1, C2, C3, C4, C5, C6, C7, C8, C9), TStr<Str_7>> for (Option<C0>, Option<C1>, Option<C2>, Option<C3>, Option<C4>, Option<C5>, Option<C6>, Option<C7>, Option<C8>, Option<C9>) {
    open spec fn slot_name() -> Seq<char> {
        Str_7::name_spec()
    }

    proof fn lemma_slot_path(path: TStr<Str_7>) {
    }

    proof fn lemma_all_present(&self) {
    }

    fn take_field_into(&mut self, path: TStr<Str_7>) -> (r: Option<C7>) {
        proof {
            lemma_index_names_distinct();
        }
        assert(<Self as TakeFieldInto<(C0, C1, C2, C3, C4, C5, C6, C7, C8, C9), TStr<Str_7>>>::slot_name() == Str_7::name_spec());
        self.7.take()
    }
}

impl<'a, C0, C1, C2, C3, C4, C5, C6, C7, C8, C9> TakeFieldMut<'a, (C0, C1, C2, C3, C4, C5, C6, C7, C8, C9), TStr<Str_8>> for (Option<&'a mut C0>, Option<&'a mut C1>, Option<&'a mut C2>, Option<&'a mut C3>, Option<&'a mut C4>, Option<&'a mut C5>, Option<&'a mut C6>, Option<&'a mut C7>, Option<&'a mut C8>, Option<&'a mut C9>) where C8: 'a {
    open spec fn slot_name() -> Seq<char> {
        Str_8::name_spec()
    }

    proof fn lemma_slot_path(path: TStr<Str_8>) {
    }

    proof fn lemma_all_present(&self) {
    }

    fn take_field_mut(&mut self, path: TStr<Str_8>) -> (r: Option<&'a mut C8>) {
        proof {
            lemma_index_names_distinct();
        }
        assert(<Self as TakeFieldMut<'a, (C0, C1, C2, C3, C4, C5, C6, C7, C8, C9), TStr<Str_8>>>::slot_name() == Str_8::name_spec());
        self.8.take()
    }
}

impl<C0, C1, C2, C3, C4, C5, C6, C7, C8, C9> TakeFieldInto<(C0, C1, C2, C3, C4, C5, C6, C7, C8, C9), TStr<Str_8>> for (Option<C0>, Option<C1>, Option<C2>, Option<C3>, Option<C4>, Option<C5>, Option<C6>, Option<C7>, Option<C8>, Option<C9>) {
    open spec fn slot_name() -> Seq<char> {
        Str_8::name_spec()
    }

    proof fn lemma_slot_path(path: TStr<Str_8>) {
    }

    proof fn lemma_all_present(&self) {
    }

    fn take_field_into(&mut self, path: TStr<Str_8>) -> (r: Option<C8>) {
        proof {
            lemma_index_names_distinct();
        }
        assert(<Self as TakeFieldInto<(C0, C1, C2, C3, C4, C5, C6, C7, C8, C9), TStr<Str_8>>>::slot_name() == Str_8::name_spec());
        self.8.take()
    }
}

impl<'a, C0, C1, C2, C3, C4, C5, C6, C7, C8, C9> TakeFieldMut<'a, (C0, C1, C2, C3, C4, C5, C6, C7, C8, C9), TStr<Str_9>> for (Option<&'a mut C0>, Option<&'a mut C1>, Option<&'a mut C2>, Option<&'a mut C3>, Option<&'a mut C4>, Option<&'a mut C5>, Option<&'a mut C6>, Option<&'a mut C7>, Option<&'a mut C8>, Option<&'a mut C9>) where C9: 'a {
    open spec fn slot_name() -> Seq<char> {
        Str_9::name_spec()
    }

    proof fn lemma_slot_path(path: TStr<Str_9>) {
    }

    proof fn lemma_all_present(&self) {
    }

    fn take_field_mut(&mut self, path: TStr<Str_9>) -> (r: Option<&'a mut C9>) {
        proof {
            lemma_index_names_distinct();
        }
        assert(<Self as TakeFieldMut<'a, (C0, C1, C2, C3, C4, C5, C6, C7, C8, C9), TStr<Str_9>>>::slot_name() == Str_9::name_spec());
        self.9.take()
    }
}

impl<C0, C1, C2, C3, C4, C5, C6, C7, C8, C9> TakeFieldInto<(C0, C1, C2, C3, C4, C5, C6, C7, C8, C9), TStr<Str_9>> for (Option<C0>, Option<C1>, Option<C2>, Option<C3>, Option<C4>, Option<C5>, Option<C6>, Option<C7>, Option<C8>, Option<C9>) {
    open spec fn slot_name() -> Seq<char> {
        Str_9::name_spec()
    }

    proof fn lemma_slot_path(path: TStr<Str_9>) {
    }

    proof fn lemma_all_present(&self) {
    }

    fn take_field_into(&mut self, path: TStr<Str_9>) -> (r: Option<C9>) {
        proof {
            lemma_index_names_distinct();
        }
        assert(<Self as TakeFieldInto<(C0, C1, C2, C3, C4, C5, C6, C7, C8, C9), TStr<Str_9>>>::slot_name() == Str_9::name_spec());
        self.9.take()
    }
}

// Tuples of 11 elements.

impl<'a, C0, C1, C2, C3, C4, C5, C6, C7, C8, C9, C10> FieldSlots<(C0, C1, C2, C3, C4, C5, C6, C7, C8, C9, C10)> for (Option<&'a mut C0>, Option<&'a mut C1>, Option<&'a mut C2>, Option<&'a mut C3>, Option<&'a mut C4>, Option<&'a mut C5>, Option<&'a mut C6>, Option<&'a mut C7>, Option<&'a mut C8>, Option<&'a mut C9>, Option<&'a mut C10>) {
    open spec fn present(&self, name: Seq<char>) -> bool {
        (name == Str_0::name_spec() && self.0 is Some) || (name == Str_1::name_spec() && self.1 is Some) || (name == Str_2::name_spec() && self.2 is Some) || (name == Str_3::name_spec() && self.3 is Some) || (name == Str_4::name_spec() && self.4 is Some) || (name == Str_5::name_spec() && self.5 is Some) || (name == Str_6::name_spec() && self.6 is Some) || (name == Str_7::name_spec() && self.7 is Some) || (name == Str_8::name_spec() && self.8 is Some) || (name == Str_9::name_spec() && self.9 is Some) || (name == Str_10::name_spec() && self.10 is Some)
    }

    open spec fn all_present(&self) -> bool {
        self.0 is Some && self.1 is Some && self.2 is Some && self.3 is Some && self.4 is Some && self.5 is Some && self.6 is Some && self.7 is Some && self.8 is Some && self.9 is Some && self.10 is Some
    }

    open spec fn reads(&self, w: &(C0, C1, C2, C3, C4, C5, C6, C7, C8, C9, C10)) -> bool {
        (self.0 is Some ==> *self.0->Some_0 == w.0) && (self.1 is Some ==> *self.1->Some_0 == w.1) && (self.2 is Some ==> *self.2->Some_0 == w.2) && (self.3 is Some ==> *self.3->Some_0 == w.3) && (self.4 is Some ==> *self.4->Some_0 == w.4) && (self.5 is Some ==> *self.5->Some_0 == w.5) && (self.6 is Some ==> *self.6->Some_0 == w.6) && (self.7 is Some ==> *self.7->Some_0 == w.7) && (self.8 is Some ==> *self.8->Some_0 == w.8) && (self.9 is Some ==> *self.9->Some_0 == w.9) && (self.10 is Some ==> *self.10->Some_0 == w.10)
    }
}

impl<C0, C1, C2, C3, C4, C5, C6, C7, C8, C9, C10> FieldSlots<(C0, C1, C2, C3, C4, C5, C6, C7, C8, C9, C10)> for (Option<C0>, Option<C1>, Option<C2>, Option<C3>, Option<C4>, Option<C5>, Option<C6>, Option<C7>, Option<C8>, Option<C9>, Option<C10>) {
    open spec fn present(&self, name: Seq<char>) -> bool {
        (name == Str_0::name_spec() && self.0 is Some) || (name == Str_1::name_spec() && self.1 is Some) || (name == Str_2::name_spec() && self.2 is Some) || (name == Str_3::name_spec() && self.3 is Some) || (name == Str_4::name_spec() && self.4 is Some) || (name == Str_5::name_spec() && self.5 is Some) || (name == Str_6::name_spec() && self.6 is Some) || (name == Str_7::name_spec() && self.7 is Some) || (name == Str_8::name_spec() && self.8 is Some) || (name == Str_9::name_spec() && self.9 is Some) || (name == Str_10::name_spec() && self.10 is Some)
    }

    open spec fn all_present(&self) -> bool {
        self.0 is Some && self.1 is Some && self.2 is Some && self.3 is Some && self.4 is Some && self.5 is Some && self.6 is Some && self.7 is Some && self.8 is Some && self.9 is Some && self.10 is Some
    }

    open spec fn reads(&self, w: &(C0, C1, C2, C3, C4, C5, C6, C7, C8, C9, C10)) -> bool {
        (self.0 is Some ==> self.0->Some_0 == w.0) && (self.1 is Some ==> self.1->Some_0 == w.1) && (self.2 is Some ==> self.2->Some_0 == w.2) && (self.3 is Some ==> self.3->Some_0 == w.3) && (self.4 is Some ==> self.4->Some_0 == w.4) && (self.5 is Some ==> self.5->Some_0 == w.5) && (self.6 is Some ==> self.6->Some_0 == w.6) && (self.7 is Some ==> self.7->Some_0 == w.7) && (self.8 is Some ==> self.8->Some_0 == w.8) && (self.9 is Some ==> self.9->Some_0 == w.9) && (self.10 is Some ==> self.10->Some_0 == w.10)
    }
}

impl<'a, C0: 'a, C1: 'a, C2: 'a, C3: 'a, C4: 'a, C5: 'a, C6: 'a, C7: 'a, C8: 'a, C9: 'a, C10: 'a> SplitFieldsMut<'a> for (C0, C1, C2, C3, C4, C5, C6, C7, C8, C9, C10) {
    type SlotsMut = (Option<&'a mut C0>, Option<&'a mut C1>, Option<&'a mut C2>, Option<&'a mut C3>, Option<&'a mut C4>, Option<&'a mut C5>, Option<&'a mut C6>, Option<&'a mut C7>, Option<&'a mut C8>, Option<&'a mut C9>, Option<&'a mut C10>);

    /// Each slot lends its field: writing through the slots' references is
    /// what writing to the tuple's fields does.
    fn split_fields_mut(&'a mut self) -> (r: Self::SlotsMut)
        ensures
            *final(self) == (*final(r.0->Some_0), *final(r.1->Some_0), *final(r.2->Some_0), *final(r.3->Some_0), *final(r.4->Some_0), *final(r.5->Some_0), *final(r.6->Some_0), *final(r.7->Some_0), *final(r.8->Some_0), *final(r.9->Some_0), *final(r.10->Some_0)),
    {
        (Some(&mut self.0), Some(&mut self.1), Some(&mut self.2), Some(&mut self.3), Some(&mut self.4), Some(&mut self.5), Some(&mut self.6), Some(&mut self.7), Some(&mut self.8), Some(&mut self.9), Some(&mut self.10))
    }
}

impl<C0, C1, C2, C3, C4, C5, C6, C7, C8, C9, C10> SplitFieldsInto for (C0, C1, C2, C3, C4, C5, C6, C7, C8, C9, C10) {
    type SlotsInto = (Option<C0>, Option<C1>, Option<C2>, Option<C3>, Option<C4>, Option<C5>, Option<C6>, Option<C7>, Option<C8>, Option<C9>, Option<C10>);

    fn split_fields_into(self) -> (r: Self::SlotsInto) {
        (Some(self.0), Some(self.1), Some(self.2), Some(self.3), Some(self.4), Some(self.5), Some(self.6), Some(self.7), Some(self.8), Some(self.9), Some(self.10))
    }
}

impl<'a, C0, C1, C2, C3, C4, C5, C6, C7, C8, C9, C10> TakeFieldMut<'a, (C0, C1, C2, C3, C4, C5, C6, C7, C8, C9, C10), TStr<Str_0>> for (Option<&'a mut C0>, Option<&'a mut C1>, Option<&'a mut C2>, Option<&'a mut C3>, Option<&'a mut C4>, Option<&'a mut C5>, Option<&'a mut C6>, Option<&'a mut C7>, Option<&'a mut C8>, Option<&'a mut C9>, Option<&'a mut C10>) where C0: 'a {
    open spec fn slot_name() -> Seq<char> {
        Str_0::name_spec()
    }

    proof fn lemma_slot_path(path: TStr<Str_0>) {
    }

    proof fn lemma_all_present(&self) {
    }

    fn take_field_mut(&mut self, path: TStr<Str_0>) -> (r: Option<&'a mut C0>) {
        proof {
            lemma_index_names_distinct();
        }
        assert(<Self as TakeFieldMut<'a, (C0, C1, C2, C3, C4, C5, C6, C7, C8, C9, C10), TStr<Str_0>>>::slot_name() == Str_0::name_spec());
        self.0.take()
    }
}

impl<C0, C1, C2, C3, C4, C5, C6, C7, C8, C9, C10> TakeFieldInto<(C0, C1, C2, C3, C4, C5, C6, C7, C8, C9, C10), TStr<Str_0>> for (Option<C0>, Option<C1>, Option<C2>, Option<C3>, Option<C4>, Option<C5>, Option<C6>, Option<C7>, Option<C8>, Option<C9>, Option<C10>) {
    open spec fn slot_name() -> Seq<char> {
        Str_0::name_spec()
    }

    proof fn lemma_slot_path(path: TStr<Str_0>) {
    }

    proof fn lemma_all_present(&self) {
    }

    fn take_field_into(&mut self, path: TStr<Str_0>) -> (r: Option<C0>) {
        proof {
            lemma_index_names_distinct();
        }
        assert(<Self as TakeFieldInto<(C0, C1, C2, C3, C4, C5, C6, C7, C8, C9, C10), TStr<Str_0>>>::slot_name() == Str_0::name_spec());
        self.0.take()
    }
}

impl<'a, C0, C1, C2, C3, C4, C5, C6, C7, C8, C9, C10> TakeFieldMut<'a, (C0, C1, C2, C3, C4, C5, C6, C7, C8, C9, C10), TStr<Str_1>> for (Option<&'a mut C0>, Option<&'a mut C1>, Option<&'a mut C2>, Option<&'a mut C3>, Option<&'a mut C4>, Option<&'a mut C5>, Option<&'a mut C6>, Option<&'a mut C7>, Option<&'a mut C8>, Option<&'a mut C9>, Option<&'a mut C10>) where C1: 'a {
    open spec fn slot_name() -> Seq<char> {
        Str_1::name_spec()
    }

    proof fn lemma_slot_path(path: TStr<Str_1>) {
    }

    proof fn lemma_all_present(&self) {
    }

    fn take_field_mut(&mut self, path: TStr<Str_1>) -> (r: Option<&'a mut C1>) {
        proof {
            lemma_index_names_distinct();
        }
        assert(<Self as TakeFieldMut<'a, (C0, C1, C2, C3, C4, C5, C6, C7, C8, C9, C10), TStr<Str_1>>>::slot_name() == Str_1::name_spec());
        self.1.take()
    }
}

impl<C0, C1, C2, C3, C4, C5, C6, C7, C8, C9, C10> TakeFieldInto<(C0, C1, C2, C3, C4, C5, C6, C7, C8, C9, C10), TStr<Str_1>> for (Option<C0>, Option<C1>, Option<C2>, Option<C3>, Option<C4>, Option<C5>, Option<C6>, Option<C7>, Option<C8>, Option<C9>, Option<C10>) {
    open spec fn slot_name() -> Seq<char> {
        Str_1::name_spec()
    }

    proof fn lemma_slot_path(path: TStr<Str_1>) {
    }

    proof fn lemma_all_present(&self) {
    }

    fn take_field_into(&mut self, path: TStr<Str_1>) -> (r: Option<C1>) {
        proof {
            lemma_index_names_distinct();
        }
        assert(<Self as TakeFieldInto<(C0, C1, C2, C3, C4, C5, C6, C7, C8, C9, C10), TStr<Str_1>>>::slot_name() == Str_1::name_spec());
        self.1.take()
    }
}

impl<'a, C0, C1, C2, C3, C4, C5, C6, C7, C8, C9, C10> TakeFieldMut<'a, (C0, C1, C2, C3, C4, C5, C6, C7, C8, C9, C10), TStr<Str_2>> for (Option<&'a mut C0>, Option<&'a mut C1>, Option<&'a mut C2>, Option<&'a mut C3>, Option<&'a mut C4>, Option<&'a mut C5>, Option<&'a mut C6>, Option<&'a mut C7>, Option<&'a mut C8>, Option<&'a mut C9>, Option<&'a mut C10>) where C2: 'a {
    open spec fn slot_name() -> Seq<char> {
        Str_2::name_spec()
    }

    proof fn lemma_slot_path(path: TStr<Str_2>) {
    }

    proof fn lemma_all_present(&self) {
    }

    fn take_field_mut(&mut self, path: TStr<Str_2>) -> (r: Option<&'a mut C2>) {
        proof {
            lemma_index_names_distinct();
        }
        assert(<Self as TakeFieldMut<'a, (C0, C1, C2, C3, C4, C5, C6, C7, C8, C9, C10), TStr<Str_2>>>::slot_name() == Str_2::name_spec());
        self.2.take()
    }
}

impl<C0, C1, C2, C3, C4, C5, C6, C7, C8, C9, C10> TakeFieldInto<(C0, C1, C2, C3, C4, C5, C6, C7, C8, C9, C10), TStr<Str_2>> for (Option<C0>, Option<C1>, Option<C2>, Option<C3>, Option<C4>, Option<C5>, Option<C6>, Option<C7>, Option<C8>, Option<C9>, Option<C10>) {
    open spec fn slot_name() -> Seq<char> {
        Str_2::name_spec()
    }

    proof fn lemma_slot_path(path: TStr<Str_2>) {
    }

    proof fn lemma_all_present(&self) {
    }

    fn take_field_into(&mut self, path: TStr<Str_2>) -> (r: Option<C2>) {
        proof {
            lemma_index_names_distinct();
        }
        assert(<Self as TakeFieldInto<(C0, C1, C2, C3, C4, C5, C6, C7, C8, C9, C10), TStr<Str_2>>>::slot_name() == Str_2::name_spec());
        self.2.take()
    }
}

impl<'a, C0, C1, C2, C3, C4, C5, C6, C7, C8, C9, C10> TakeFieldMut<'a, (C0, C1, C2, C3, C4, C5, C6, C7, C8, C9, C10), TStr<Str_3>> for (Option<&'a mut C0>, Option<&'a mut C1>, Option<&'a mut C2>, Option<&'a mut C3>, Option<&'a mut C4>, Option<&'a mut C5>, Option<&'a mut C6>, Option<&'a mut C7>, Option<&'a mut C8>, Option<&'a mut C9>, Option<&'a mut C10>) where C3: 'a {
    open spec fn slot_name() -> Seq<char> {
        Str_3::name_spec()
    }

    proof fn lemma_slot_path(path: TStr<Str_3>) {
    }

    proof fn lemma_all_present(&self) {
    }

    fn take_field_mut(&mut self, path: TStr<Str_3>) -> (r: Option<&'a mut C3>) {
        proof {
            lemma_index_names_distinct();
        }
        assert(<Self as TakeFieldMut<'a, (C0, C1, C2, C3, C4, C5, C6, C7, C8, C9, C10), TStr<Str_3>>>::slot_name() == Str_3::name_spec());
        self.3.take()
    }
}

impl<C0, C1, C2, C3, C4, C5, C6, C7, C8, C9, C10> TakeFieldInto<(C0, C1, C2, C3, C4, C5, C6, C7, C8, C9, C10), TStr<Str_3>> for (Option<C0>, Option<C1>, Option<C2>, Option<C3>, Option<C4>, Option<C5>, Option<C6>, Option<C7>, Option<C8>, Option<C9>, Option<C10>) {
    open spec fn slot_name() -> Seq<char> {
        Str_3::name_spec()
    }

    proof fn lemma_slot_path(path: TStr<Str_3>) {
    }

    proof fn lemma_all_present(&self) {
    }

    fn take_field_into(&mut self, path: TStr<Str_3>) -> (r: Option<C3>) {
        proof {
            lemma_index_names_distinct();
        }
        assert(<Self as TakeFieldInto<(C0, C1, C2, C3, C4, C5, C6, C7, C8, C9, C10), TStr<Str_3>>>::slot_name() == Str_3::name_spec());
        self.3.take()
    }
}

impl<'a, C0, C1, C2, C3, C4, C5, C6, C7, C8, C9, C10> TakeFieldMut<'a, (C0, C1, C2, C3, C4, C5, C6, C7, C8, C9, C10), TStr<Str_4>> for (Option<&'a mut C0>, Option<&'a mut C1>, Option<&'a mut C2>, Option<&'a mut C3>, Option<&'a mut C4>, Option<&'a mut C5>, Option<&'a mut C6>, Option<&'a mut C7>, Option<&'a mut C8>, Option<&'a mut C9>, Option<&'a mut C10>) where C4: 'a {
    open spec fn slot_name() -> Seq<char> {
        Str_4::name_spec()
    }

    proof fn lemma_slot_path(path: TStr<Str_4>) {
    }

    proof fn lemma_all_present(&self) {
    }

    fn take_field_mut(&mut self, path: TStr<Str_4>) -> (r: Option<&'a mut C4>) {
        proof {
            lemma_index_names_distinct();
        }
        assert(<Self as TakeFieldMut<'a, (C0, C1, C2, C3, C4, C5, C6, C7, C8, C9, C10), TStr<Str_4>>>::slot_name() == Str_4::name_spec());
        self.4.take()
    }
}

impl<C0, C1, C2, C3, C4, C5, C6, C7, C8, C9, C10> TakeFieldInto<(C0, C1, C2, C3, C4, C5, C6, C7, C8, C9, C10), TStr<Str_4>> for (Option<C0>, Option<C1>, Option<C2>, Option<C3>, Option<C4>, Option<C5>, Option<C6>, Option<C7>, Option<C8>, Option<C9>, Option<C10>) {
    open spec fn slot_name() -> Seq<char> {
        Str_4::name_spec()
    }

    proof fn lemma_slot_path(path: TStr<Str_4>) {
    }

    proof fn lemma_all_present(&self) {
    }

    fn take_field_into(&mut self, path: TStr<Str_4>) -> (r: Option<C4>) {
        proof {
            lemma_index_names_distinct();
        }
        assert(<Self as TakeFieldInto<(C0, C1, C2, C3, C4, C5, C6, C7, C8, C9, C10), TStr<Str_4>>>::slot_name() == Str_4::name_spec());
        self.4.take()
    }
}

impl<'a, C0, C1, C2, C3, C4, C5, C6, C7, C8, C9, C10> TakeFieldMut<'a, (C0, C1, C2, C3, C4, C5, C6, C7, C8, C9, C10), TStr<Str_5>> for (Option<&'a mut C0>, Option<&'a mut C1>, Option<&'a mut C2>, Option<&'a mut C3>, Option<&'a mut C4>, Option<&'a mut C5>, Option<&'a mut C6>, Option<&'a mut C7>, Option<&'a mut C8>, Option<&'a mut C9>, Option<&'a mut C10>) where C5: 'a {
    open spec fn slot_name() -> Seq<char> {
        Str_5::name_spec()
    }

    proof fn lemma_slot_path(path: TStr<Str_5>) {
    }

    proof fn lemma_all_present(&self) {
    }

    fn take_field_mut(&mut self, path: TStr<Str_5>) -> (r: Option<&'a mut C5>) {
        proof {
            lemma_index_names_distinct();
        }
        assert(<Self as TakeFieldMut<'a, (C0, C1, C2, C3, C4, C5, C6, C7, C8, C9, C10), TStr<Str_5>>>::slot_name() == Str_5::name_spec());
        self.5.take()
    }
}

impl<C0, C1, C2, C3, C4, C5, C6, C7, C8, C9, C10> TakeFieldInto<(C0, C1, C2, C3, C4, C5, C6, C7, C8, C9, C10), TStr<Str_5>> for (Option<C0>, Option<C1>, Option<C2>, Option<C3>, Option<C4>, Option<C5>, Option<C6>, Option<C7>, Option<C8>, Option<C9>, Option<C10>) {
    open spec fn slot_name() -> Seq<char> {
        Str_5::name_spec()
    }

    proof fn lemma_slot_path(path: TStr<Str_5>) {
    }

    proof fn lemma_all_present(&self) {
    }

    fn take_field_into(&mut self, path: TStr<Str_5>) -> (r: Option<C5>) {
        proof {
            lemma_index_names_distinct();
        }
        assert(<Self as TakeFieldInto<(C0, C1, C2, C3, C4, C5, C6, C7, C8, C9, C10), TStr<Str_5>>>::slot_name() == Str_5::name_spec());
        self.5.take()
    }
}

impl<'a, C0, C1, C2, C3, C4, C5, C6, C7, C8, C9, C10> TakeFieldMut<'a, (C0, C1, C2, C3, C4, C5, C6, C7, C8, C9, C10), TStr<Str_6>> for (Option<&'a mut C0>, Option<&'a mut C1>, Option<&'a mut C2>, Option<&'a mut C3>, Option<&'a mut C4>, Option<&'a mut C5>, Option<&'a mut C6>, Option<&'a mut C7>, Option<&'a mut C8>, Option<&'a mut C9>, Option<&'a mut C10>) where C6: 'a {
    open spec fn slot_name() -> Seq<char> {
        Str_6::name_spec()
    }

    proof fn lemma_slot_path(path: TStr<Str_6>) {
    }

    proof fn lemma_all_present(&self) {
    }

    fn take_field_mut(&mut self, path: TStr<Str_6>) -> (r: Option<&'a mut C6>) {
        proof {
            lemma_index_names_distinct();
        }
        assert(<Self as TakeFieldMut<'a, (C0, C1, C2, C3, C4, C5, C6, C7, C8, C9, C10), TStr<Str_6>>>::slot_name() == Str_6::name_spec());
        self.6.take()
    }
}

impl<C0, C1, C2, C3, C4, C5, C6, C7, C8, C9, C10> TakeFieldInto<(C0, C1, C2, C3, C4, C5, C6, C7, C8, C9, C10), TStr<Str_6>> for (Option<C0>, Option<C1>, Option<C2>, Option<C3>, Option<C4>, Option<C5>, Option<C6>, Option<C7>, Option<C8>, Option<C9>, Option<C10>) {
    open spec fn slot_name() -> Seq<char> {
        Str_6::name_spec()
    }

    proof fn lemma_slot_path(path: TStr<Str_6>) {
    }

    proof fn lemma_all_present(&self) {
    }

    fn take_field_into(&mut self, path: TStr<Str_6>) -> (r: Option<C6>) {
        proof {
            lemma_index_names_distinct();
        }
        assert(<Self as TakeFieldInto<(C0, C1, C2, C3, C4, C5, C6, C7, C8, C9, C10), TStr<Str_6>>>::slot_name() == Str_6::name_spec());
        self.6.take()
    }
}

impl<'a, C0, C1, C2, C3, C4, C5, C6, C7, C8, C9, C10> TakeFieldMut<'a, (C0, C1, C2, C3, C4, C5, C6, C7, C8, C9, C10), TStr<Str_7>> for (Option<&'a mut C0>, Option<&'a mut C1>, Option<&'a mut C2>, Option<&'a mut C3>, Option<&'a mut C4>, Option<&'a mut C5>, Option<&'a mut C6>, Option<&'a mut C7>, Option<&'a mut C8>, Option<&'a mut C9>, Option<&'a mut C10>) where C7: 'a {
    open spec fn slot_name() -> Seq<char> {
        Str_7::name_spec()
    }

    proof fn lemma_slot_path(path: TStr<Str_7>) {
    }

    proof fn lemma_all_present(&self) {
    }

    fn take_field_mut(&mut self, path: TStr<Str_7>) -> (r: Option<&'a mut C7>) {
        proof {
            lemma_index_names_distinct();
        }
        assert(<Self as TakeFieldMut<'a, (C0, C1, C2, C3, C4, C5, C6, C7, C8, C9, C10), TStr<Str_7>>>::slot_name() == Str_7::name_spec());
        self.7.take()
    }
}

impl<C0, C1, C2, C3, C4, C5, C6, C7, C8, C9, C10> TakeFieldInto<(C0, C1, C2, C3, C4, C5, C6, C7, C8, C9, C10), TStr<Str_7>> for (Option<C0>, Option<C1>, Option<C2>, Option<C3>, Option<C4>, Option<C5>, Option<C6>, Option<C7>, Option<C8>, Option<C9>, Option<C10>) {
    open spec fn slot_name() -> Seq<char> {
        Str_7::name_spec()
    }

    proof fn lemma_slot_path(path: TStr<Str_7>) {
    }

    proof fn lemma_all_present(&self) {
    }

    fn take_field_into(&mut self, path: TStr<Str_7>) -> (r: Option<C7>) {
        proof {
            lemma_index_names_distinct();
        }
        assert(<Self as TakeFieldInto<(C0, C1, C2, C3, C4, C5, C6, C7, C8, C9, C10), TStr<Str_7>>>::slot_name() == Str_7::name_spec());
        self.7.take()
    }
}

impl<'a, C0, C1, C2, C3, C4, C5, C6, C7, C8, C9, C10> TakeFieldMut<'a, (C0, C1, C2, C3, C4, C5, C6, C7, C8, C9, C10), TStr<Str_8>> for (Option<&'a mut C0>, Option<&'a mut C1>, Option<&'a mut C2>, Option<&'a mut C3>, Option<&'a mut C4>, Option<&'a mut C5>, Option<&'a mut C6>, Option<&'a mut C7>, Option<&'a mut C8>, Option<&'a mut C9>, Option<&'a mut C10>) where C8: 'a {
    open spec fn slot_name() -> Seq<char> {
        Str_8::name_spec()
    }

    proof fn lemma_slot_path(path: TStr<Str_8>) {
    }

    proof fn lemma_all_present(&self) {
    }

    fn take_field_mut(&mut self, path: TStr<Str_8>) -> (r: Option<&'a mut C8>) {
        proof {
            lemma_index_names_distinct();
        }
        assert(<Self as TakeFieldMut<'a, (C0, C1, C2, C3, C4, C5, C6, C7, C8, C9, C10), TStr<Str_8>>>::slot_name() == Str_8::name_spec());
        self.8.take()
    }
}

impl<C0, C1, C2, C3, C4, C5, C6, C7, C8, C9, C10> TakeFieldInto<(C0, C1, C2, C3, C4, C5, C6, C7, C8, C9, C10), TStr<Str_8>> for (Option<C0>, Option<C1>, Option<C2>, Option<C3>, Option<C4>, Option<C5>, Option<C6>, Option<C7>, Option<C8>, Option<C9>, Option<C10>) {
    open spec fn slot_name() -> Seq<char> {
        Str_8::name_spec()
    }

    proof fn lemma_slot_path(path: TStr<Str_8>) {
    }

    proof fn lemma_all_present(&self) {
    }

    fn take_field_into(&mut self, path: TStr<Str_8>) -> (r: Option<C8>) {
        proof {
            lemma_index_names_distinct();
        }
        assert(<Self as TakeFieldInto<(C0, C1, C2, C3, C4, C5, C6, C7, C8, C9, C10), TStr<Str_8>>>::slot_name() == Str_8::name_spec());
        self.8.take()
    }
}

impl<'a, C0, C1, C2, C3, C4, C5, C6, C7, C8, C9, C10> TakeFieldMut<'a, (C0, C1, C2, C3, C4, C5, C6, C7, C8, C9, C10), TStr<Str_9>> for (Option<&'a mut C0>, Option<&'a mut C1>, Option<&'a mut C2>, Option<&'a mut C3>, Option<&'a mut C4>, Option<&'a mut C5>, Option<&'a mut C6>, Option<&'a mut C7>, Option<&'a mut C8>, Option<&'a mut C9>, Option<&'a mut C10>) where C9: 'a {
    open spec fn slot_name() -> Seq<char> {
        Str_9::name_spec()
    }

    proof fn lemma_slot_path(path: TStr<Str_9>) {
    }

    proof fn lemma_all_present(&self) {
    }

    fn take_field_mut(&mut self, path: TStr<Str_9>) -> (r: Option<&'a mut C9>) {
        proof {
            lemma_index_names_distinct();
        }
        assert(<Self as TakeFieldMut<'a, (C0, C1, C2, C3, C4, C5, C6, C7, C8, C9, C10), TStr<Str_9>>>::slot_name() == Str_9::name_spec());
        self.9.take()
    }
}

impl<C0, C1, C2, C3, C4, C5, C6, C7, C8, C9, C10> TakeFieldInto<(C0, C1, C2, C3, C4, C5, C6, C7, C8, C9, C10), TStr<Str_9>> for (Option<C0>, Option<C1>, Option<C2>, Option<C3>, Option<C4>, Option<C5>, Option<C6>, Option<C7>, Option<C8>, Option<C9>, Option<C10>) {
    open spec fn slot_name() -> Seq<char> {
        Str_9::name_spec()
    }

    proof fn lemma_slot_path(path: TStr<Str_9>) {
    }

    proof fn lemma_all_present(&self) {
    }

    fn take_field_into(&mut self, path: TStr<Str_9>) -> (r: Option<C9>) {
        proof {
            lemma_index_names_distinct();
        }
        assert(<Self as TakeFieldInto<(C0, C1, C2, C3, C4, C5, C6, C7, C8, C9, C10), TStr<Str_9>>>::slot_name() == Str_9::name_spec());
        self.9.take()
    }
}

impl<'a, C0, C1, C2, C3, C4, C5, C6, C7, C8, C9, C10> TakeFieldMut<'a, (C0, C1, C2, C3, C4, C5, C6, C7, C8, C9, C10), TStr<Str_10>> for (Option<&'a mut C0>, Option<&'a mut C1>, Option<&'a mut C2>, Option<&'a mut C3>, Option<&'a mut C4>, Option<&'a mut C5>, Option<&'a mut C6>, Option<&'a mut C7>, Option<&'a mut C8>, Option<&'a mut C9>, Option<&'a mut C10>) where C10: 'a {
    open spec fn slot_name() -> Seq<char> {
        Str_10::name_spec()
    }

    proof fn lemma_slot_path(path: TStr<Str_10>) {
    }

    proof fn lemma_all_present(&self) {
    }

    fn take_field_mut(&mut self, path: TStr<Str_10>) -> (r: Option<&'a mut C10>) {
        proof {
            lemma_index_names_distinct();
        }
        assert(<Self as TakeFieldMut<'a, (C0, C1, C2, C3, C4, C5, C6, C7, C8, C9, C10), TStr<Str_10>>>::slot_name() == Str_10::name_spec());
        self.10.take()
    }
}

impl<C0, C1, C2, C3, C4, C5, C6, C7, C8, C9, C10> TakeFieldInto<(C0, C1, C2, C3, C4, C5, C6, C7, C8, C9, C10), TStr<Str_10>> for (Option<C0>, Option<C1>, Option<C2>, Option<C3>, Option<C4>, Option<C5>, Option<C6>, Option<C7>, Option<C8>, Option<C9>, Option<C10>) {
    open spec fn slot_name() -> Seq<char> {
        Str_10::name_spec()
    }

    proof fn lemma_slot_path(path: TStr<Str_10>) {
    }

    proof fn lemma_all_present(&self) {
    }

    fn take_field_into(&mut self, path: TStr<Str_10>) -> (r: Option<C10>) {
        proof {
            lemma_index_names_distinct();
        }
        assert(<Self as TakeFieldInto<(C0, C1, C2, C3, C4, C5, C6, C7, C8, C9, C10), TStr<Str_10>>>::slot_name() == Str_10::name_spec());
        self.10.take()
    }
}

// Tuples of 12 elements.

impl<'a, C0, C1, C2, C3, C4, C5, C6, C7, C8, C9, C10, C11> FieldSlots<(C0, C1, C2, C3, C4, C5, C6, C7, C8, C9, C10, C11)> for (Option<&'a mut C0>, Option<&'a mut C1>, Option<&'a mut C2>, Option<&'a mut C3>, Option<&'a mut C4>, Option<&'a mut C5>, Option<&'a mut C6>, Option<&'a mut C7>, Option<&'a mut C8>, Option<&'a mut C9>, Option<&'a mut C10>, Option<&'a mut C11>) {
    open spec fn present(&self, name: Seq<char>) -> bool {
        (name == Str_0::name_spec() && self.0 is Some) || (name == Str_1::name_spec() && self.1 is Some) || (name == Str_2::name_spec() && self.2 is Some) || (name == Str_3::name_spec() && self.3 is Some) || (name == Str_4::name_spec() && self.4 is Some) || (name == Str_5::name_spec() && self.5 is Some) || (name == Str_6::name_spec() && self.6 is Some) || (name == Str_7::name_spec() && self.7 is Some) || (name == Str_8::name_spec() && self.8 is Some) || (name == Str_9::name_spec() && self.9 is Some) || (name == Str_10::name_spec() && self.10 is Some) || (name == Str_11::name_spec() && self.11 is Some)
    }

    open spec fn all_present(&self) -> bool {
        self.0 is Some && self.1 is Some && self.2 is Some && self.3 is Some && self.4 is Some && self.5 is Some && self.6 is Some && self.7 is Some && self.8 is Some && self.9 is Some && self.10 is Some && self.11 is Some
    }

    open spec fn reads(&self, w: &(C0, C1, C2, C3, C4, C5, C6, C7, C8, C9, C10, C11)) -> bool {
        (self.0 is Some ==> *self.0->Some_0 == w.0) && (self.1 is Some ==> *self.1->Some_0 == w.1) && (self.2 is Some ==> *self.2->Some_0 == w.2) && (self.3 is Some ==> *self.3->Some_0 == w.3) && (self.4 is Some ==> *self.4->Some_0 == w.4) && (self.5 is Some ==> *self.5->Some_0 == w.5) && (self.6 is Some ==> *self.6->Some_0 == w.6) && (self.7 is Some ==> *self.7->Some_0 == w.7) && (self.8 is Some ==> *self.8->Some_0 == w.8) && (self.9 is Some ==> *self.9->Some_0 == w.9) && (self.10 is Some ==> *self.10->Some_0 == w.10) && (self.11 is Some ==> *self.11->Some_0 == w.11)
    }
}

impl<C0, C1, C2, C3, C4, C5, C6, C7, C8, C9, C10, C11> FieldSlots<(C0, C1, C2, C3, C4, C5, C6, C7, C8, C9, C10, C11)> for (Option<C0>, Option<C1>, Option<C2>, Option<C3>, Option<C4>, Option<C5>, Option<C6>, Option<C7>, Option<C8>, Option<C9>, Option<C10>, Option<C11>) {
    open spec fn present(&self, name: Seq<char>) -> bool {
        (name == Str_0::name_spec() && self.0 is Some) || (name == Str_1::name_spec() && self.1 is Some) || (name == Str_2::name_spec() && self.2 is Some) || (name == Str_3::name_spec() && self.3 is Some) || (name == Str_4::name_spec() && self.4 is Some) || (name == Str_5::name_spec() && self.5 is Some) || (name == Str_6::name_spec() && self.6 is Some) || (name == Str_7::name_spec() && self.7 is Some) || (name == Str_8::name_spec() && self.8 is Some) || (name == Str_9::name_spec() && self.9 is Some) || (name == Str_10::name_spec() && self.10 is Some) || (name == Str_11::name_spec() && self.11 is Some)
    }

    open spec fn all_present(&self) -> bool {
        self.0 is Some && self.1 is Some && self.2 is Some && self.3 is Some && self.4 is Some && self.5 is Some && self.6 is Some && self.7 is Some && self.8 is Some && self.9 is Some && self.10 is Some && self.11 is Some
    }

    open spec fn reads(&self, w: &(C0, C1, C2, C3, C4, C5, C6, C7, C8, C9, C10, C11)) -> bool {
        (self.0 is Some ==> self.0->Some_0 == w.0) && (self.1 is Some ==> self.1->Some_0 == w.1) && (self.2 is Some ==> self.2->Some_0 == w.2) && (self.3 is Some ==> self.3->Some_0 == w.3) && (self.4 is Some ==> self.4->Some_0 == w.4) && (self.5 is Some ==> self.5->Some_0 == w.5) && (self.6 is Some ==> self.6->Some_0 == w.6) && (self.7 is Some ==> self.7->Some_0 == w.7) && (self.8 is Some ==> self.8->Some_0 == w.8) && (self.9 is Some ==> self.9->Some_0 == w.9) && (self.10 is Some ==> self.10->Some_0 == w.10) && (self.11 is Some ==> self.11->Some_0 == w.11)
    }
}

impl<'a, C0: 'a, C1: 'a, C2: 'a, C3: 'a, C4: 'a, C5: 'a, C6: 'a, C7: 'a, C8: 'a, C9: 'a, C10: 'a, C11: 'a> SplitFieldsMut<'a> for (C0, C1, C2, C3, C4, C5, C6, C7, C8, C9, C10, C11) {
    type SlotsMut = (Option<&'a mut C0>, Option<&'a mut C1>, Option<&'a mut C2>, Option<&'a mut C3>, Option<&'a mut C4>, Option<&'a mut C5>, Option<&'a mut C6>, Option<&'a mut C7>, Option<&'a mut C8>, Option<&'a mut C9>, Option<&'a mut C10>, Option<&'a mut C11>);

    /// Each slot lends its field: writing through the slots' references is
    /// what writing to the tuple's fields does.
    fn split_fields_mut(&'a mut self) -> (r: Self::SlotsMut)
        ensures
            *final(self) == (*final(r.0->Some_0), *final(r.1->Some_0), *final(r.2->Some_0), *final(r.3->Some_0), *final(r.4->Some_0), *final(r.5->Some_0), *final(r.6->Some_0), *final(r.7->Some_0), *final(r.8->Some_0), *final(r.9->Some_0), *final(r.10->Some_0), *final(r.11->Some_0)),
    {
        (Some(&mut self.0), Some(&mut self.1), Some(&mut self.2), Some(&mut self.3), Some(&mut self.4), Some(&mut self.5), Some(&mut self.6), Some(&mut self.7), Some(&mut self.8), Some(&mut self.9), Some(&mut self.10), Some(&mut self.11))
    }
}

impl<C0, C1, C2, C3, C4, C5, C6, C7, C8, C9, C10, C11> SplitFieldsInto for (C0, C1, C2, C3, C4, C5, C6, C7, C8, C9, C10, C11) {
    type SlotsInto = (Option<C0>, Option<C1>, Option<C2>, Option<C3>, Option<C4>, Option<C5>, Option<C6>, Option<C7>, Option<C8>, Option<C9>, Option<C10>, Option<C11>);

    fn split_fields_into(self) -> (r: Self::SlotsInto) {
        (Some(self.0), Some(self.1), Some(self.2), Some(self.3), Some(self.4), Some(self.5), Some(self.6), Some(self.7), Some(self.8), Some(self.9), Some(self.10), Some(self.11))
    }
}

impl<'a, C0, C1, C2, C3, C4, C5, C6, C7, C8, C9, C10, C11> TakeFieldMut<'a, (C0, C1, C2, C3, C4, C5, C6, C7, C8, C9, C10, C11), TStr<Str_0>> for (Option<&'a mut C0>, Option<&'a mut C1>, Option<&'a mut C2>, Option<&'a mut C3>, Option<&'a mut C4>, Option<&'a mut C5>, Option<&'a mut C6>, Option<&'a mut C7>, Option<&'a mut C8>, Option<&'a mut C9>, Option<&'a mut C10>, Option<&'a mut C11>) where C0: 'a {
    open spec fn slot_name() -> Seq<char> {
        Str_0::name_spec()
    }

    proof fn lemma_slot_path(path: TStr<Str_0>) {
    }

    proof fn lemma_all_present(&self) {
    }

    fn take_field_mut(&mut self, path: TStr<Str_0>) -> (r: Option<&'a mut C0>) {
        proof {
            lemma_index_names_distinct();
        }
        assert(<Self as TakeFieldMut<'a, (C0, C1, C2, C3, C4, C5, C6, C7, C8, C9, C10, C11), TStr<Str_0>>>::slot_name() == Str_0::name_spec());
        self.0.take()
    }
}

impl<C0, C1, C2, C3, C4, C5, C6, C7, C8, C9, C10, C11> TakeFieldInto<(C0, C1, C2, C3, C4, C5, C6, C7, C8, C9, C10, C11), TStr<Str_0>> for (Option<C0>, Option<C1>, Option<C2>, Option<C3>, Option<C4>, Option<C5>, Option<C6>, Option<C7>, Option<C8>, Option<C9>, Option<C10>, Option<C11>) {
    open spec fn slot_name() -> Seq<char> {
        Str_0::name_spec()
    }

    proof fn lemma_slot_path(path: TStr<Str_0>) {
    }

    proof fn lemma_all_present(&self) {
    }

    fn take_field_into(&mut self, path: TStr<Str_0>) -> (r: Option<C0>) {
        proof {
            lemma_index_names_distinct();
        }
        assert(<Self as TakeFieldInto<(C0, C1, C2, C3, C4, C5, C6, C7, C8, C9, C10, C11), TStr<Str_0>>>::slot_name() == Str_0::name_spec());
        self.0.take()
    }
}

impl<'a, C0, C1, C2, C3, C4, C5, C6, C7, C8, C9, C10, C11> TakeFieldMut<'a, (C0, C1, C2, C3, C4, C5, C6, C7, C8, C9, C10, C11), TStr<Str_1>> for (Option<&'a mut C0>, Option<&'a mut C1>, Option<&'a mut C2>, Option<&'a mut C3>, Option<&'a mut C4>, Option<&'a mut C5>, Option<&'a mut C6>, Option<&'a mut C7>, Option<&'a mut C8>, Option<&'a mut C9>, Option<&'a mut C10>, Option<&'a mut C11>) where C1: 'a {
    open spec fn slot_name() -> Seq<char> {
        Str_1::name_spec()
    }

    proof fn lemma_slot_path(path: TStr<Str_1>) {
    }

    proof fn lemma_all_present(&self) {
    }

    fn take_field_mut(&mut self, path: TStr<Str_1>) -> (r: Option<&'a mut C1>) {
        proof {
            lemma_index_names_distinct();
        }
        assert(<Self as TakeFieldMut<'a, (C0, C1, C2, C3, C4, C5, C6, C7, C8, C9, C10, C11), TStr<Str_1>>>::slot_name() == Str_1::name_spec());
        self.1.take()
    }
}

impl<C0, C1, C2, C3, C4, C5, C6, C7, C8, C9, C10, C11> TakeFieldInto<(C0, C1, C2, C3, C4, C5, C6, C7, C8, C9, C10, C11), TStr<Str_1>> for (Option<C0>, Option<C1>, Option<C2>, Option<C3>, Option<C4>, Option<C5>, Option<C6>, Option<C7>, Option<C8>, Option<C9>, Option<C10>, Option<C11>) {
    open spec fn slot_name() -> Seq<char> {
        Str_1::name_spec()
    }

    proof fn lemma_slot_path(path: TStr<Str_1>) {
    }

    proof fn lemma_all_present(&self) {
    }

    fn take_field_into(&mut self, path: TStr<Str_1>) -> (r: Option<C1>) {
        proof {
            lemma_index_names_distinct();
        }
        assert(<Self as TakeFieldInto<(C0, C1, C2, C3, C4, C5, C6, C7, C8, C9, C10, C11), TStr<Str_1>>>::slot_name() == Str_1::name_spec());
        self.1.take()
    }
}

impl<'a, C0, C1, C2, C3, C4, C5, C6, C7, C8, C9, C10, C11> TakeFieldMut<'a, (C0, C1, C2, C3, C4, C5, C6, C7, C8, C9, C10, C11), TStr<Str_2>> for (Option<&'a mut C0>, Option<&'a mut C1>, Option<&'a mut C2>, Option<&'a mut C3>, Option<&'a mut C4>, Option<&'a mut C5>, Option<&'a mut C6>, Option<&'a mut C7>, Option<&'a mut C8>, Option<&'a mut C9>, Option<&'a mut C10>, Option<&'a mut C11>) where C2: 'a {
    open spec fn slot_name() -> Seq<char> {
        Str_2::name_spec()
    }

    proof fn lemma_slot_path(path: TStr<Str_2>) {
    }

    proof fn lemma_all_present(&self) {
    }

    fn take_field_mut(&mut self, path: TStr<Str_2>) -> (r: Option<&'a mut C2>) {
        proof {
            lemma_index_names_distinct();
        }
        assert(<Self as TakeFieldMut<'a, (C0, C1, C2, C3, C4, C5, C6, C7, C8, C9, C10, C11), TStr<Str_2>>>::slot_name() == Str_2::name_spec());
        self.2.take()
    }
}

impl<C0, C1, C2, C3, C4, C5, C6, C7, C8, C9, C10, C11> TakeFieldInto<(C0, C1, C2, C3, C4, C5, C6, C7, C8, C9, C10, C11), TStr<Str_2>> for (Option<C0>, Option<C1>, Option<C2>, Option<C3>, Option<C4>, Option<C5>, Option<C6>, Option<C7>, Option<C8>, Option<C9>, Option<C10>, Option<C11>) {
    open spec fn slot_name() -> Seq<char> {
        Str_2::name_spec()
    }

    proof fn lemma_slot_path(path: TStr<Str_2>) {
    }

    proof fn lemma_all_present(&self) {
    }

    fn take_field_into(&mut self, path: TStr<Str_2>) -> (r: Option<C2>) {
        proof {
            lemma_index_names_distinct();
        }
        assert(<Self as TakeFieldInto<(C0, C1, C2, C3, C4, C5, C6, C7, C8, C9, C10, C11), TStr<Str_2>>>::slot_name() == Str_2::name_spec());
        self.2.take()
    }
}

impl<'a, C0, C1, C2, C3, C4, C5, C6, C7, C8, C9, C10, C11> TakeFieldMut<'a, (C0, C1, C2, C3, C4, C5, C6, C7, C8, C9, C10, C11), TStr<Str_3>> for (Option<&'a mut C0>, Option<&'a mut C1>, Option<&'a mut C2>, Option<&'a mut C3>, Option<&'a mut C4>, Option<&'a mut C5>, Option<&'a mut C6>, Option<&'a mut C7>, Option<&'a mut C8>, Option<&'a mut C9>, Option<&'a mut C10>, Option<&'a mut C11>) where C3: 'a {
    open spec fn slot_name() -> Seq<char> {
        Str_3::name_spec()
    }

    proof fn lemma_slot_path(path: TStr<Str_3>) {
    }

    proof fn lemma_all_present(&self) {
    }

    fn take_field_mut(&mut self, path: TStr<Str_3>) -> (r: Option<&'a mut C3>) {
        proof {
            lemma_index_names_distinct();
        }
        assert(<Self as TakeFieldMut<'a, (C0, C1, C2, C3, C4, C5, C6, C7, C8, C9, C10, C11), TStr<Str_3>>>::slot_name() == Str_3::name_spec());
        self.3.take()
    }
}

impl<C0, C1, C2, C3, C4, C5, C6, C7, C8, C9, C10, C11> TakeFieldInto<(C0, C1, C2, C3, C4, C5, C6, C7, C8, C9, C10, C11), TStr<Str_3>> for (Option<C0>, Option<C1>, Option<C2>, Option<C3>, Option<C4>, Option<C5>, Option<C6>, Option<C7>, Option<C8>, Option<C9>, Option<C10>, Option<C11>) {
    open spec fn slot_name() -> Seq<char> {
        Str_3::name_spec()
    }

    proof fn lemma_slot_path(path: TStr<Str_3>) {
    }

    proof fn lemma_all_present(&self) {
    }

    fn take_field_into(&mut self, path: TStr<Str_3>) -> (r: Option<C3>) {
        proof {
            lemma_index_names_distinct();
        }
        assert(<Self as TakeFieldInto<(C0, C1, C2, C3, C4, C5, C6, C7, C8, C9, C10, C11), TStr<Str_3>>>::slot_name() == Str_3::name_spec());
        self.3.take()
    }
}

impl<'a, C0, C1, C2, C3, C4, C5, C6, C7, C8, C9, C10, C11> TakeFieldMut<'a, (C0, C1, C2, C3, C4, C5, C6, C7, C8, C9, C10, C11), TStr<Str_4>> for (Option<&'a mut C0>, Option<&'a mut C1>, Option<&'a mut C2>, Option<&'a mut C3>, Option<&'a mut C4>, Option<&'a mut C5>, Option<&'a mut C6>, Option<&'a mut C7>, Option<&'a mut C8>, Option<&'a mut C9>, Option<&'a mut C10>, Option<&'a mut C11>) where C4: 'a {
    open spec fn slot_name() -> Seq<char> {
        Str_4::name_spec()
    }

    proof fn lemma_slot_path(path: TStr<Str_4>) {
    }

    proof fn lemma_all_present(&self) {
    }

    fn take_field_mut(&mut self, path: TStr<Str_4>) -> (r: Option<&'a mut C4>) {
        proof {
            lemma_index_names_distinct();
        }
        assert(<Self as TakeFieldMut<'a, (C0, C1, C2, C3, C4, C5, C6, C7, C8, C9, C10, C11), TStr<Str_4>>>::slot_name() == Str_4::name_spec());
        self.4.take()
    }
}

impl<C0, C1, C2, C3, C4, C5, C6, C7, C8, C9, C10, C11> TakeFieldInto<(C0, C1, C2, C3, C4, C5, C6, C7, C8, C9, C10, C11), TStr<Str_4>> for (Option<C0>, Option<C1>, Option<C2>, Option<C3>, Option<C4>, Option<C5>, Option<C6>, Option<C7>, Option<C8>, Option<C9>, Option<C10>, Option<C11>) {
    open spec fn slot_name() -> Seq<char> {
        Str_4::name_spec()
    }

    proof fn lemma_slot_path(path: TStr<Str_4>) {
    }

    proof fn lemma_all_present(&self) {
    }

    fn take_field_into(&mut self, path: TStr<Str_4>) -> (r: Option<C4>) {
        proof {
            lemma_index_names_distinct();
        }
        assert(<Self as TakeFieldInto<(C0, C1, C2, C3, C4, C5, C6, C7, C8, C9, C10, C11), TStr<Str_4>>>::slot_name() == Str_4::name_spec());
        self.4.take()
    }
}

impl<'a, C0, C1, C2, C3, C4, C5, C6, C7, C8, C9, C10, C11> TakeFieldMut<'a, (C0, C1, C2, C3, C4, C5, C6, C7, C8, C9, C10, C11), TStr<Str_5>> for (Option<&'a mut C0>, Option<&'a mut C1>, Option<&'a mut C2>, Option<&'a mut C3>, Option<&'a mut C4>, Option<&'a mut C5>, Option<&'a mut C6>, Option<&'a mut C7>, Option<&'a mut C8>, Option<&'a mut C9>, Option<&'a mut C10>, Option<&'a mut C11>) where C5: 'a {
    open spec fn slot_name() -> Seq<char> {
        Str_5::name_spec()
    }

    proof fn lemma_slot_path(path: TStr<Str_5>) {
    }

    proof fn lemma_all_present(&self) {
    }

    fn take_field_mut(&mut self, path: TStr<Str_5>) -> (r: Option<&'a mut C5>) {
        proof {
            lemma_index_names_distinct();
        }
        assert(<Self as TakeFieldMut<'a, (C0, C1, C2, C3, C4, C5, C6, C7, C8, C9, C10, C11), TStr<Str_5>>>::slot_name() == Str_5::name_spec());
        self.5.take()
    }
}

impl<C0, C1, C2, C3, C4, C5, C6, C7, C8, C9, C10, C11> TakeFieldInto<(C0, C1, C2, C3, C4, C5, C6, C7, C8, C9, C10, C11), TStr<Str_5>> for (Option<C0>, Option<C1>, Option<C2>, Option<C3>, Option<C4>, Option<C5>, Option<C6>, Option<C7>, Option<C8>, Option<C9>, Option<C10>, Option<C11>) {
    open spec fn slot_name() -> Seq<char> {
        Str_5::name_spec()
    }

    proof fn lemma_slot_path(path: TStr<Str_5>) {
    }

    proof fn lemma_all_present(&self) {
    }

    fn take_field_into(&mut self, path: TStr<Str_5>) -> (r: Option<C5>) {
        proof {
            lemma_index_names_distinct();
        }
        assert(<Self as TakeFieldInto<(C0, C1, C2, C3, C4, C5, C6, C7, C8, C9, C10, C11), TStr<Str_5>>>::slot_name() == Str_5::name_spec());
        self.5.take()
    }
}

impl<'a, C0, C1, C2, C3, C4, C5, C6, C7, C8, C9, C10, C11> TakeFieldMut<'a, (C0, C1, C2, C3, C4, C5, C6, C7, C8, C9, C10, C11), TStr<Str_6>> for (Option<&'a mut C0>, Option<&'a mut C1>, Option<&'a mut C2>, Option<&'a mut C3>, Option<&'a mut C4>, Option<&'a mut C5>, Option<&'a mut C6>, Option<&'a mut C7>, Option<&'a mut C8>, Option<&'a mut C9>, Option<&'a mut C10>, Option<&'a mut C11>) where C6: 'a {
    open spec fn slot_name() -> Seq<char> {
        Str_6::name_spec()
    }

    proof fn lemma_slot_path(path: TStr<Str_6>) {
    }

    proof fn lemma_all_present(&self) {
    }

    fn take_field_mut(&mut self, path: TStr<Str_6>) -> (r: Option<&'a mut C6>) {
        proof {
            lemma_index_names_distinct();
        }
        assert(<Self as TakeFieldMut<'a, (C0, C1, C2, C3, C4, C5, C6, C7, C8, C9, C10, C11), TStr<Str_6>>>::slot_name() == Str_6::name_spec());
        self.6.take()
    }
}

impl<C0, C1, C2, C3, C4, C5, C6, C7, C8, C9, C10, C11> TakeFieldInto<(C0, C1, C2, C3, C4, C5, C6, C7, C8, C9, C10, C11), TStr<Str_6>> for (Option<C0>, Option<C1>, Option<C2>, Option<C3>, Option<C4>, Option<C5>, Option<C6>, Option<C7>, Option<C8>, Option<C9>, Option<C10>, Option<C11>) {
    open spec fn slot_name() -> Seq<char> {
        Str_6::name_spec()
    }

    proof fn lemma_slot_path(path: TStr<Str_6>) {
    }

    proof fn lemma_all_present(&self) {
    }

    fn take_field_into(&mut self, path: TStr<Str_6>) -> (r: Option<C6>) {
        proof {
            lemma_index_names_distinct();
        }
        assert(<Self as TakeFieldInto<(C0, C1, C2, C3, C4, C5, C6, C7, C8, C9, C10, C11), TStr<Str_6>>>::slot_name() == Str_6::name_spec());
        self.6.take()
    }
}

impl<'a, C0, C1, C2, C3, C4, C5, C6, C7, C8, C9, C10, C11> TakeFieldMut<'a, (C0, C1, C2, C3, C4, C5, C6, C7, C8, C9, C10, C11), TStr<Str_7>> for (Option<&'a mut C0>, Option<&'a mut C1>, Option<&'a mut C2>, Option<&'a mut C3>, Option<&'a mut C4>, Option<&'a mut C5>, Option<&'a mut C6>, Option<&'a mut C7>, Option<&'a mut C8>, Option<&'a mut C9>, Option<&'a mut C10>, Option<&'a mut C11>) where C7: 'a {
    open spec fn slot_name() -> Seq<char> {
        Str_7::name_spec()
    }

    proof fn lemma_slot_path(path: TStr<Str_7>) {
    }

    proof fn lemma_all_present(&self) {
    }

    fn take_field_mut(&mut self, path: TStr<Str_7>) -> (r: Option<&'a mut C7>) {
        proof {
            lemma_index_names_distinct();
        }
        assert(<Self as TakeFieldMut<'a, (C0, C1, C2, C3, C4, C5, C6, C7, C8, C9, C10, C11), TStr<Str_7>>>::slot_name() == Str_7::name_spec());
        self.7.take()
    }
}

impl<C0, C1, C2, C3, C4, C5, C6, C7, C8, C9, C10, C11> TakeFieldInto<(C0, C1, C2, C3, C4, C5, C6, C7, C8, C9, C10, C11), TStr<Str_7>> for (Option<C0>, Option<C1>, Option<C2>, Option<C3>, Option<C4>, Option<C5>, Option<C6>, Option<C7>, Option<C8>, Option<C9>, Option<C10>, Option<C11>) {
    open spec fn slot_name() -> Seq<char> {
        Str_7::name_spec()
    }

    proof fn lemma_slot_path(path: TStr<Str_7>) {
    }

    proof fn lemma_all_present(&self) {
    }

    fn take_field_into(&mut self, path: TStr<Str_7>) -> (r: Option<C7>) {
        proof {
            lemma_index_names_distinct();
        }
        assert(<Self as TakeFieldInto<(C0, C1, C2, C3, C4, C5, C6, C7, C8, C9, C10, C11), TStr<Str_7>>>::slot_name() == Str_7::name_spec());
        self.7.take()
    }
}

impl<'a, C0, C1, C2, C3, C4, C5, C6, C7, C8, C9, C10, C11> TakeFieldMut<'a, (C0, C1, C2, C3, C4, C5, C6, C7, C8, C9, C10, C11), TStr<Str_8>> for (Option<&'a mut C0>, Option<&'a mut C1>, Option<&'a mut C2>, Option<&'a mut C3>, Option<&'a mut C4>, Option<&'a mut C5>, Option<&'a mut C6>, Option<&'a mut C7>, Option<&'a mut C8>, Option<&'a mut C9>, Option<&'a mut C10>, Option<&'a mut C11>) where C8: 'a {
    open spec fn slot_name() -> Seq<char> {
        Str_8::name_spec()
    }

    proof fn lemma_slot_path(path: TStr<Str_8>) {
    }

    proof fn lemma_all_present(&self) {
    }

    fn take_field_mut(&mut self, path: TStr<Str_8>) -> (r: Option<&'a mut C8>) {
        proof {
            lemma_index_names_distinct();
        }
        assert(<Self as TakeFieldMut<'a, (C0, C1, C2, C3, C4, C5, C6, C7, C8, C9, C10, C11), TStr<Str_8>>>::slot_name() == Str_8::name_spec());
        self.8.take()
    }
}

impl<C0, C1, C2, C3, C4, C5, C6, C7, C8, C9, C10, C11> TakeFieldInto<(C0, C1, C2, C3, C4, C5, C6, C7, C8, C9, C10, C11), TStr<Str_8>> for (Option<C0>, Option<C1>, Option<C2>, Option<C3>, Option<C4>, Option<C5>, Option<C6>, Option<C7>, Option<C8>, Option<C9>, Option<C10>, Option<C11>) {
    open spec fn slot_name() -> Seq<char> {
        Str_8::name_spec()
    }

    proof fn lemma_slot_path(path: TStr<Str_8>) {
    }

    proof fn lemma_all_present(&self) {
    }

    fn take_field_into(&mut self, path: TStr<Str_8>) -> (r: Option<C8>) {
        proof {
            lemma_index_names_distinct();
        }
        assert(<Self as TakeFieldInto<(C0, C1, C2, C3, C4, C5, C6, C7, C8, C9, C10, C11), TStr<Str_8>>>::slot_name() == Str_8::name_spec());
        self.8.take()
    }
}

impl<'a, C0, C1, C2, C3, C4, C5, C6, C7, C8, C9, C10, C11> TakeFieldMut<'a, (C0, C1, C2, C3, C4, C5, C6, C7, C8, C9, C10, C11), TStr<Str_9>> for (Option<&'a mut C0>, Option<&'a mut C1>, Option<&'a mut C2>, Option<&'a mut C3>, Option<&'a mut C4>, Option<&'a mut C5>, Option<&'a mut C6>, Option<&'a mut C7>, Option<&'a mut C8>, Option<&'a mut C9>, Option<&'a mut C10>, Option<&'a mut C11>) where C9: 'a {
    open spec fn slot_name() -> Seq<char> {
        Str_9::name_spec()
    }

    proof fn lemma_slot_path(path: TStr<Str_9>) {
    }

    proof fn lemma_all_present(&self) {
    }

    fn take_field_mut(&mut self, path: TStr<Str_9>) -> (r: Option<&'a mut C9>) {
        proof {
            lemma_index_names_distinct();
        }
        assert(<Self as TakeFieldMut<'a, (C0, C1, C2, C3, C4, C5, C6, C7, C8, C9, C10, C11), TStr<Str_9>>>::slot_name() == Str_9::name_spec());
        self.9.take()
    }
}

impl<C0, C1, C2, C3, C4, C5, C6, C7, C8, C9, C10, C11> TakeFieldInto<(C0, C1, C2, C3, C4, C5, C6, C7, C8, C9, C10, C11), TStr<Str_9>> for (Option<C0>, Option<C1>, Option<C2>, Option<C3>, Option<C4>, Option<C5>, Option<C6>, Option<C7>, Option<C8>, Option<C9>, Option<C10>, Option<C11>) {
    open spec fn slot_name() -> Seq<char> {
        Str_9::name_spec()
    }

    proof fn lemma_slot_path(path: TStr<Str_9>) {
    }

    proof fn lemma_all_present(&self) {
    }

    fn take_field_into(&mut self, path: TStr<Str_9>) -> (r: Option<C9>) {
        proof {
            lemma_index_names_distinct();
        }
        assert(<Self as TakeFieldInto<(C0, C1, C2, C3, C4, C5, C6, C7, C8, C9, C10, C11), TStr<Str_9>>>::slot_name() == Str_9::name_spec());
        self.9.take()
    }
}

impl<'a, C0, C1, C2, C3, C4, C5, C6, C7, C8, C9, C10, C11> TakeFieldMut<'a, (C0, C1, C2, C3, C4, C5, C6, C7, C8, C9, C10, C11), TStr<Str_10>> for (Option<&'a mut C0>, Option<&'a mut C1>, Option<&'a mut C2>, Option<&'a mut C3>, Option<&'a mut C4>, Option<&'a mut C5>, Option<&'a mut C6>, Option<&'a mut C7>, Option<&'a mut C8>, Option<&'a mut C9>, Option<&'a mut C10>, Option<&'a mut C11>) where C10: 'a {
    open spec fn slot_name() -> Seq<char> {
        Str_10::name_spec()
    }

    proof fn lemma_slot_path(path: TStr<Str_10>) {
    }

    proof fn lemma_all_present(&self) {
    }

    fn take_field_mut(&mut self, path: TStr<Str_10>) -> (r: Option<&'a mut C10>) {
        proof {
            lemma_index_names_distinct();
        }
        assert(<Self as TakeFieldMut<'a, (C0, C1, C2, C3, C4, C5, C6, C7, C8, C9, C10, C11), TStr<Str_10>>>::slot_name() == Str_10::name_spec());
        self.10.take()
    }
}

impl<C0, C1, C2, C3, C4, C5, C6, C7, C8, C9, C10, C11> TakeFieldInto<(C0, C1, C2, C3, C4, C5, C6, C7, C8, C9, C10, C11), TStr<Str_10>> for (Option<C0>, Option<C1>, Option<C2>, Option<C3>, Option<C4>, Option<C5>, Option<C6>, Option<C7>, Option<C8>, Option<C9>, Option<C10>, Option<C11>) {
    open spec fn slot_name() -> Seq<char> {
        Str_10::name_spec()
    }

    proof fn lemma_slot_path(path: TStr<Str_10>) {
    }

    proof fn lemma_all_present(&self) {
    }

    fn take_field_into(&mut self, path: TStr<Str_10>) -> (r: Option<C10>) {
        proof {
            lemma_index_names_distinct();
        }
        assert(<Self as TakeFieldInto<(C0, C1, C2, C3, C4, C5, C6, C7, C8, C9, C10, C11), TStr<Str_10>>>::slot_name() == Str_10::name_spec());
        self.10.take()
    }
}

impl<'a, C0, C1, C2, C3, C4, C5, C6, C7, C8, C9, C10, C11> TakeFieldMut<'a, (C0, C1, C2, C3, C4, C5, C6, C7, C8, C9, C10, C11), TStr<Str_11>> for (Option<&'a mut C0>, Option<&'a mut C1>, Option<&'a mut C2>, Option<&'a mut C3>, Option<&'a mut C4>, Option<&'a mut C5>, Option<&'a mut C6>, Option<&'a mut C7>, Option<&'a mut C8>, Option<&'a mut C9>, Option<&'a mut C10>, Option<&'a mut C11>) where C11: 'a {
    open spec fn slot_name() -> Seq<char> {
        Str_11::name_spec()
    }

    proof fn lemma_slot_path(path: TStr<Str_11>) {
    }

    proof fn lemma_all_present(&self) {
    }

    fn take_field_mut(&mut self, path: TStr<Str_11>) -> (r: Option<&'a mut C11>) {
        proof {
            lemma_index_names_distinct();
        }
        assert(<Self as TakeFieldMut<'a, (C0, C1, C2, C3, C4, C5, C6, C7, C8, C9, C10, C11), TStr<Str_11>>>::slot_name() == Str_11::name_spec());
        self.11.take()
    }
}

impl<C0, C1, C2, C3, C4, C5, C6, C7, C8, C9, C10, C11> TakeFieldInto<(C0, C1, C2, C3, C4, C5, C6, C7, C8, C9, C10, C11), TStr<Str_11>> for (Option<C0>, Option<C1>, Option<C2>, Option<C3>, Option<C4>, Option<C5>, Option<C6>, Option<C7>, Option<C8>, Option<C9>, Option<C10>, Option<C11>) {
    open spec fn slot_name() -> Seq<char> {
        Str_11::name_spec()
    }

    proof fn lemma_slot_path(path: TStr<Str_11>) {
    }

    proof fn lemma_all_present(&self) {
    }

    fn take_field_into(&mut self, path: TStr<Str_11>) -> (r: Option<C11>) {
        proof {
            lemma_index_names_distinct();
        }
        assert(<Self as TakeFieldInto<(C0, C1, C2, C3, C4, C5, C6, C7, C8, C9, C10, C11), TStr<Str_11>>>::slot_name() == Str_11::name_spec());
        self.11.take()
    }
}

} // verus!
