use std::cell::Cell;
use std::mem;
use structural::field_path::names::{Str_0, Str_1, Str_2, Str_31};
use structural::{FieldPathSet, GetFieldExt, TStr};

/// Counts the live clones of a value: one more on creation and on each
/// clone, one less on each drop.
struct DecOnDrop<'a> {
    counter: &'a Cell<usize>,
}

impl<'a> DecOnDrop<'a> {
    fn new(counter: &'a Cell<usize>) -> Self {
        counter.set(counter.get() + 1);
        DecOnDrop { counter }
    }
}

impl<'a> Clone for DecOnDrop<'a> {
    fn clone(&self) -> Self {
        DecOnDrop::new(self.counter)
    }
}

impl<'a> Drop for DecOnDrop<'a> {
    fn drop(&mut self) {
        self.counter.set(self.counter.get() - 1);
    }
}

fn f0() -> TStr<Str_0> {
    TStr::new()
}

fn f1() -> TStr<Str_1> {
    TStr::new()
}

fn f2() -> TStr<Str_2> {
    TStr::new()
}

#[test]
fn for_arrays_get_field() {
    assert_eq!([5].field_(f0()), &5);

    {
        let arr = [5, 8];
        assert_eq!(arr.field_(f0()), &5);
        assert_eq!(arr.field_(f1()), &8);
    }

    {
        let arr = [5, 8, 13];
        assert_eq!(arr.field_(f0()), &5);
        assert_eq!(arr.field_(f1()), &8);
        assert_eq!(arr.field_(f2()), &13);
    }
}

#[test]
fn for_arrays_get_field_mut() {
    assert_eq!([5].field_mut(f0()), &mut 5);

    {
        let mut arr = [5, 8];
        assert_eq!(arr.field_mut(f0()), &mut 5);
        assert_eq!(arr.field_mut(f1()), &mut 8);
    }

    {
        let mut arr = [5, 8, 13];
        assert_eq!(arr.field_mut(f0()), &mut 5);
        assert_eq!(arr.field_mut(f1()), &mut 8);
        assert_eq!(arr.field_mut(f2()), &mut 13);
    }

    assert_eq!([5].field_mut(f0()), &mut 5);
    assert_eq!(
        [5, 8].fields_mut(FieldPathSet::many((f0(), f1())).upgrade_unchecked()),
        (&mut 5, &mut 8)
    );
    assert_eq!(
        [5, 8, 13].fields_mut(FieldPathSet::many((f0(), f1(), f2())).upgrade_unchecked()),
        (&mut 5, &mut 8, &mut 13)
    );
    {
        let mut array = [5, 8, 13];
        let (e0, e1, e2) =
            array.fields_mut(FieldPathSet::many((f0(), f1(), f2())).upgrade_unchecked());
        mem::swap(e0, e1);
        mem::swap(e0, e2);
        mem::swap(e1, e2);
        assert_eq!(array, [13, 8, 5]);
    }
}

#[test]
fn for_arrays_into_field() {
    assert_eq!([5].into_field(f0()), 5);

    {
        let arr = [5, 8];
        assert_eq!(arr.clone().into_field(f0()), 5);
        assert_eq!(arr.clone().into_field(f1()), 8);
    }

    {
        let arr = [5, 8, 13];
        assert_eq!(arr.clone().into_field(f0()), 5);
        assert_eq!(arr.clone().into_field(f1()), 8);
        assert_eq!(arr.clone().into_field(f2()), 13);
    }

    {
        let counter = Cell::new(0);
        let cnt = DecOnDrop::new(&counter);

        [cnt.clone()].into_field(f0());

        assert_eq!(counter.get(), 1);

        {
            let arr = [cnt.clone(), cnt.clone()];
            assert_eq!(counter.get(), 3);
            arr.clone().into_field(f0());
            arr.clone().into_field(f1());
        }
        assert_eq!(counter.get(), 1);

        {
            let arr = [cnt.clone(), cnt.clone(), cnt.clone()];
            assert_eq!(counter.get(), 4);
            arr.clone().into_field(f0());
            arr.clone().into_field(f1());
            arr.clone().into_field(f2());
        }
        assert_eq!(counter.get(), 1);

        drop(cnt);
        assert_eq!(counter.get(), 0);
    }
}

#[test]
fn arrays_give_elements_up_to_index_31() {
    let mut array = [0u32; 32];
    for (i, x) in array.iter_mut().enumerate() {
        *x = 100 + i as u32;
    }
    assert_eq!(array.field_(TStr::<Str_31>::new()), &131);
    *array.field_mut(TStr::<Str_31>::new()) = 7;
    assert_eq!(array[31], 7);
    assert_eq!(array.fields(FieldPathSet::many((f2(), f0()))), (&102, &100));
    assert_eq!(array.into_field(f1()), 101);
}

#[test]
fn arrays_move_out_several_elements() {
    let array = [String::from("a"), String::from("b"), String::from("c")];
    assert_eq!(
        array.into_fields(FieldPathSet::many((f2(), f0())).upgrade_unchecked()),
        (String::from("c"), String::from("a"))
    );
}
