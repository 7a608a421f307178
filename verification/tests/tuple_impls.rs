use structural::field_path::names::{
    Str_0, Str_1, Str_11, Str_2, Str_3, Str_4, Str_5, Str_6, Str_7, Str_8,
};
use structural::field_path::PathTuple;
use structural::{FieldPathSet, GetField, GetFieldExt, TStr, UniquePaths};

fn get_field_1<T>(val: &T) -> &u64
where
    T: GetField<TStr<Str_1>, Ty = u64>,
{
    val.field_(TStr::<Str_1>::new())
}

#[test]
fn get_field_1_test() {
    assert_eq!(*get_field_1(&(2, 8)), 8);
    assert_eq!(*get_field_1(&(2, 5, 8)), 5);
    assert_eq!(*get_field_1(&(2, 3, 5, 8)), 3);
    assert_eq!(*get_field_1(&(1, 2, 3, 5, 8)), 2);
    assert_eq!(*get_field_1(&(1, 1, 2, 3, 5, 8)), 1);
    assert_eq!(*get_field_1(&(11, 13, 17, 19, 23, 29, 31)), 13);
    assert_eq!(*get_field_1(&(7, 11, 13, 17, 19, 23, 29, 31)), 11);
    assert_eq!(*get_field_1(&(5, 7, 11, 13, 17, 19, 23, 29, 31)), 7);
    assert_eq!(*get_field_1(&(3, 5, 7, 11, 13, 17, 19, 23, 29, 31)), 5);
}

#[test]
fn tuple_write_then_read() {
    let mut tup = (0u32, 1u64, 2u8);
    *tup.field_mut(TStr::<Str_1>::new()) = 100;
    assert_eq!(*tup.field_(TStr::<Str_1>::new()), 100);
    assert_eq!(tup, (0, 100, 2));
    *tup.field_mut(TStr::<Str_0>::new()) = 7;
    *tup.field_mut(TStr::<Str_2>::new()) = 9;
    assert_eq!(tup, (7, 100, 9));
}

#[test]
fn tuple_into_field_gives_the_field() {
    let tup = (String::from("a"), String::from("b"), 3u8, 4u16);
    assert_eq!(tup.clone().into_field(TStr::<Str_1>::new()), "b");
    assert_eq!(tup.clone().into_field(TStr::<Str_3>::new()), 4);
    assert_eq!(*tup.field_(TStr::<Str_0>::new()), "a");
}

#[test]
fn twelve_element_tuple() {
    let tup = (0u8, 1u8, 2u8, 3u8, 4u8, 5u8, 6u8, 7u8, 8u8, 9u8, 10u8, 11u8);
    assert_eq!(*tup.field_(TStr::<Str_11>::new()), 11);
    assert_eq!(*tup.field_(TStr::<Str_0>::new()), 0);
}

#[test]
fn tuple_fields_at_once() {
    let tup = (6u32, 5u32, 4u32, 3u32, 2u32);
    let set = FieldPathSet::many((TStr::<Str_0>::new(), TStr::<Str_1>::new()));
    assert_eq!(tup.fields(set), (&6, &5));
    let set = FieldPathSet::many((
        TStr::<Str_0>::new(),
        TStr::<Str_1>::new(),
        TStr::<Str_2>::new(),
    ));
    assert_eq!(tup.fields(set), (&6, &5, &4));
    let set = FieldPathSet::many((
        TStr::<Str_3>::new(),
        TStr::<Str_2>::new(),
        TStr::<Str_1>::new(),
        TStr::<Str_0>::new(),
    ));
    assert_eq!(tup.fields(set), (&3, &4, &5, &6));
    let aliased = FieldPathSet::many((TStr::<Str_2>::new(), TStr::<Str_2>::new()));
    assert_eq!(tup.fields(aliased), (&4, &4));
}

#[test]
fn tuple_single_field_sets() {
    let mut tup = (1u8, 2u8);
    let set = TStr::<Str_1>::new().into_set();
    let (x,) = tup.fields_mut(set);
    *x = 20;
    assert_eq!(tup, (1, 20));
    let set = TStr::<Str_0>::new().into_set();
    assert_eq!(tup.into_fields(set), (1,));
}

fn unique2<A: Copy, B: Copy>(a: A, b: B) -> FieldPathSet<(A, B), UniquePaths>
where
    (A, B): PathTuple,
{
    FieldPathSet::many((a, b)).upgrade_unchecked()
}

fn unique3<A: Copy, B: Copy, C: Copy>(a: A, b: B, c: C) -> FieldPathSet<(A, B, C), UniquePaths>
where
    (A, B, C): PathTuple,
{
    FieldPathSet::many((a, b, c)).upgrade_unchecked()
}

fn unique4<A: Copy, B: Copy, C: Copy, D: Copy>(
    a: A,
    b: B,
    c: C,
    d: D,
) -> FieldPathSet<(A, B, C, D), UniquePaths>
where
    (A, B, C, D): PathTuple,
{
    FieldPathSet::many((a, b, c, d)).upgrade_unchecked()
}

#[test]
fn get_mut_many() {
    let (f0, f1, f2, f3, f8) = (
        TStr::<Str_0>::new(),
        TStr::<Str_1>::new(),
        TStr::<Str_2>::new(),
        TStr::<Str_3>::new(),
        TStr::<Str_8>::new(),
    );
    {
        let mut tup = (0, 1, 2, 3, 4, 5);
        let (e0, e1) = tup.fields_mut(unique2(f0, f1));
        *e0 = 101;
        *e1 = 102;

        assert_eq!(tup.0, 101);
        assert_eq!(tup.1, 102);
    }
    {
        let mut tup = (0, 1, 2, 3, 4, 5);
        let (e0, e1, e2) = tup.fields_mut(unique3(f0, f1, f3));
        *e0 = 101;
        *e1 = 102;
        *e2 = 103;

        assert_eq!(tup.0, 101);
        assert_eq!(tup.1, 102);
        assert_eq!(tup.2, 2);
        assert_eq!(tup.3, 103);
        assert_eq!(tup.4, 4);
    }
    {
        let mut tup = (0, 1, 2, 3, 4, 5, 6, 7, 8);
        let (e0, e1, e2, e3) = tup.fields_mut(unique4(f0, f1, f2, f8));
        *e0 = 101;
        *e1 = 102;
        *e2 = 103;
        *e3 = 200;

        assert_eq!(tup.0, 101);
        assert_eq!(tup.1, 102);
        assert_eq!(tup.2, 103);
        assert_eq!(tup.3, 3);
        assert_eq!(tup.4, 4);
        assert_eq!(tup.7, 7);
        assert_eq!(tup.8, 200);
    }
}

#[test]
fn tuple4_test() {
    let (f0, f1, f2, f3) = (
        TStr::<Str_0>::new(),
        TStr::<Str_1>::new(),
        TStr::<Str_2>::new(),
        TStr::<Str_3>::new(),
    );
    {
        let mut this = (6u32, 5u32, 4u32, 3u32, 2u32, 1u32);
        assert_eq!(this.fields(FieldPathSet::many((f0, f1))), (&6, &5));
        assert_eq!(this.fields(FieldPathSet::many((f0, f1, f2))), (&6, &5, &4));
        assert_eq!(this.fields(FieldPathSet::many((f0, f1, f2, f3))), (&6, &5, &4, &3));
        assert_eq!(this.fields_mut(unique2(f0, f1)), (&mut 6, &mut 5));
        assert_eq!(this.fields_mut(unique3(f0, f1, f2)), (&mut 6, &mut 5, &mut 4));
        assert_eq!(
            this.fields_mut(unique4(f0, f1, f2, f3)),
            (&mut 6, &mut 5, &mut 4, &mut 3)
        );
        assert_eq!(this.clone().into_field(f0), 6);
        assert_eq!(this.clone().into_field(f1), 5);
        assert_eq!(this.clone().into_field(f2), 4);
        assert_eq!(this.clone().into_field(f3), 3);
    }
    {
        let mut this = (6u32, 5u32, 4u32, 3u32, 2u32);
        assert_eq!(this.fields(FieldPathSet::many((f0, f1))), (&6, &5));
        assert_eq!(this.fields(FieldPathSet::many((f0, f1, f2))), (&6, &5, &4));
        assert_eq!(this.fields(FieldPathSet::many((f0, f1, f2, f3))), (&6, &5, &4, &3));
        assert_eq!(this.fields_mut(unique2(f0, f1)), (&mut 6, &mut 5));
        assert_eq!(this.fields_mut(unique3(f0, f1, f2)), (&mut 6, &mut 5, &mut 4));
        assert_eq!(
            this.fields_mut(unique4(f0, f1, f2, f3)),
            (&mut 6, &mut 5, &mut 4, &mut 3)
        );
        assert_eq!(this.clone().into_field(f0), 6);
        assert_eq!(this.clone().into_field(f1), 5);
        assert_eq!(this.clone().into_field(f2), 4);
        assert_eq!(this.clone().into_field(f3), 3);
    }
    {
        let mut this = (6u32, 5u32, 4u32, 3u32);
        assert_eq!(this.fields(FieldPathSet::many((f0, f1))), (&6, &5));
        assert_eq!(this.fields(FieldPathSet::many((f0, f1, f2))), (&6, &5, &4));
        assert_eq!(this.fields(FieldPathSet::many((f0, f1, f2, f3))), (&6, &5, &4, &3));
        assert_eq!(this.fields_mut(unique2(f0, f1)), (&mut 6, &mut 5));
        assert_eq!(this.fields_mut(unique3(f0, f1, f2)), (&mut 6, &mut 5, &mut 4));
        assert_eq!(
            this.fields_mut(unique4(f0, f1, f2, f3)),
            (&mut 6, &mut 5, &mut 4, &mut 3)
        );
        assert_eq!(this.clone().into_field(f0), 6);
        assert_eq!(this.clone().into_field(f1), 5);
        assert_eq!(this.clone().into_field(f2), 4);
        assert_eq!(this.clone().into_field(f3), 3);
    }
}

#[test]
fn into_fields_moves_several_fields() {
    let tup = (String::from("a"), 2u8, String::from("c"));
    let (f0, f2) = (TStr::<Str_0>::new(), TStr::<Str_2>::new());
    assert_eq!(
        tup.into_fields(unique2(f2, f0)),
        (String::from("c"), String::from("a"))
    );
}

#[test]
fn sets_of_up_to_eight_paths() {
    let (f0, f1, f2, f3) = (
        TStr::<Str_0>::new(),
        TStr::<Str_1>::new(),
        TStr::<Str_2>::new(),
        TStr::<Str_3>::new(),
    );
    let (f4, f5, f6, f7) = (
        TStr::<Str_4>::new(),
        TStr::<Str_5>::new(),
        TStr::<Str_6>::new(),
        TStr::<Str_7>::new(),
    );
    let mut tup = (0u8, 1u8, 2u8, 3u8, 4u8, 5u8, 6u8, 7u8, 8u8);
    assert_eq!(
        tup.fields(FieldPathSet::many((f7, f0, f6, f1, f5))),
        (&7, &0, &6, &1, &5)
    );
    let set = FieldPathSet::many((f7, f6, f5, f4, f3, f2, f1, f0)).upgrade_unchecked();
    let (e7, e6, e5, e4, e3, e2, e1, e0) = tup.fields_mut(set);
    *e7 += 10;
    *e6 += 10;
    *e5 += 10;
    *e4 += 10;
    *e3 += 10;
    *e2 += 10;
    *e1 += 10;
    *e0 += 10;
    assert_eq!(tup, (10, 11, 12, 13, 14, 15, 16, 17, 8));
    let set6 = FieldPathSet::many((f5, f4, f3, f2, f1, f0)).upgrade_unchecked();
    assert_eq!(tup.into_fields(set6), (15, 14, 13, 12, 11, 10));
}
