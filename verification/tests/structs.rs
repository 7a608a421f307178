use std::ops::Range;
use structural::field_path::names::{
    Str_0, Str_1, Str_15, Str_2, Str_3, Str_63, Str_bar, Str_baz, Str_end, Str_foo, Str_start,
};
use structural::for_examples::{
    Delegating, MaxFields, Struct2, Struct3, StructBar, StructFoo, Tuple16, Tuple2,
};
use structural::{FieldCloner, FieldPath, FieldPathSet, GetFieldExt, NestedFieldPathSet, TStr};

#[test]
fn struct_fields() {
    let mut s = Struct3 { foo: Some(1u8), bar: "two", baz: 3u64 };
    assert_eq!(*s.field_(TStr::<Str_foo>::new()), Some(1));
    assert_eq!(*s.field_(TStr::<Str_bar>::new()), "two");
    assert_eq!(*s.field_(TStr::<Str_baz>::new()), 3);
    *s.field_mut(TStr::<Str_baz>::new()) = 30;
    assert_eq!(s, Struct3 { foo: Some(1), bar: "two", baz: 30 });
    assert_eq!(s.into_field(TStr::<Str_bar>::new()), "two");

    let s2 = Struct2 { foo: None::<u8>, bar: 5i32 };
    let set = FieldPathSet::many((TStr::<Str_bar>::new(), TStr::<Str_foo>::new()));
    assert_eq!(s2.fields(set), (&5, &None));

    let foo = StructFoo { foo: 'f' };
    let bar = StructBar { bar: 'b' };
    assert_eq!(*foo.field_(TStr::<Str_foo>::new()), 'f');
    assert_eq!(*bar.field_(TStr::<Str_bar>::new()), 'b');
}

#[test]
fn tuple_structs() {
    let t = Tuple2(Some(1u8), 2u16);
    assert_eq!(*t.field_(TStr::<Str_0>::new()), Some(1));
    assert_eq!(*t.field_(TStr::<Str_1>::new()), 2);
    let t16 = Tuple16(0u8, 1u8, 2u8, 3u8, 4u8, 5u8, 6u8, 7u8, 8u8, 9u8, 10u8, 11u8, 12u8, 13u8, 14u8, 15u8);
    assert_eq!(*t16.field_(TStr::<Str_15>::new()), 15);
    let max = MaxFields(
        0u8, 1, 2, 3, 4, 5, 6, 7, 8, 9, 10, 11, 12, 13, 14, 15, 16, 17, 18, 19, 20, 21, 22, 23,
        24, 25, 26, 27, 28, 29, 30, 31, 32, 33, 34, 35, 36, 37, 38, 39, 40, 41, 42, 43, 44, 45,
        46, 47, 48, 49, 50, 51, 52, 53, 54, 55, 56, 57, 58, 59, 60, 61, 62, 63,
    );
    assert_eq!(*max.field_(TStr::<Str_63>::new()), 63);
}

#[test]
fn delegating_gives_the_fields_of_the_inner_value() {
    let mut d = Delegating::new((3u8, "x"));
    assert_eq!(*d.field_(TStr::<Str_0>::new()), 3);
    *d.field_mut(TStr::<Str_0>::new()) = 4;
    assert_eq!(*d.field_(TStr::<Str_0>::new()), 4);
    assert_eq!(d.into_field(TStr::<Str_1>::new()), "x");
}

#[test]
fn range_fields() {
    let mut r: Range<u32> = 3..10;
    assert_eq!(*r.field_(TStr::<Str_start>::new()), 3);
    assert_eq!(*r.field_(TStr::<Str_end>::new()), 10);
    *r.field_mut(TStr::<Str_end>::new()) = 12;
    assert_eq!(r, 3..12);
    assert_eq!(r.into_field(TStr::<Str_start>::new()), 3);
}

#[test]
fn references_and_boxes_delegate() {
    let tup = (1u8, 2u8);
    let r = &tup;
    assert_eq!(*r.field_(TStr::<Str_1>::new()), 2);
    let mut boxed = Box::new((1u8, 2u8));
    *boxed.field_mut(TStr::<Str_0>::new()) = 10;
    assert_eq!(*boxed, (10, 2));
    assert_eq!(boxed.into_field(TStr::<Str_0>::new()), 10);
}

#[test]
fn field_cloner_methods() {
    let tup = (String::from("kept"), 5u32);
    let cloner = FieldCloner(&tup);
    assert_eq!(cloner.into_field(TStr::<Str_1>::new()), 5);
    assert_eq!(tup.0, "kept");

    let mut c = FieldCloner(1u8);
    *c.as_mut().0 = 2;
    assert_eq!(c, FieldCloner(2));
    assert_eq!(*c.as_ref().0, 2);
    assert_eq!(c.map(|x| x + 1), FieldCloner(3));
    assert_eq!(c.then(|c| c.0 * 10), FieldCloner(20));
}

#[test]
fn nested_field_path_sets() {
    let value = ((1u8, 2u8, 3u8), 4u8);
    let set = NestedFieldPathSet::new(
        TStr::<Str_0>::new(),
        FieldPathSet::many((TStr::<Str_2>::new(), TStr::<Str_0>::new())),
    );
    assert_eq!(value.fields(set), (&3, &1));

    let opt: Option<(u8, u8)> = None;
    let some_0 = structural::VariantField::new(
        TStr::<structural::field_path::names::Str_Some>::new(),
        TStr::<Str_0>::new(),
    );
    let set = NestedFieldPathSet::new(some_0, FieldPathSet::many((TStr::<Str_1>::new(),)));
    assert_eq!(opt.fields(set), None);
    let opt = Some((5u8, 6u8));
    assert_eq!(opt.fields(set), Some((&6,)));

    let mut value = ((1u8, 2u8), 3u8);
    let set = NestedFieldPathSet::new(TStr::<Str_0>::new(), TStr::<Str_1>::new().into_set());
    let (x,) = value.fields_mut(set);
    *x = 20;
    assert_eq!(value, ((1, 20), 3));
    let path = FieldPath::many((TStr::<Str_0>::new(), TStr::<Str_1>::new()));
    assert_eq!(*value.field_(path), 20);
}

#[test]
fn three_and_four_component_paths() {
    let mut value = ((1u8, (2u8, 3u8)), 4u8);
    let path = FieldPath::many((TStr::<Str_0>::new(), TStr::<Str_1>::new(), TStr::<Str_0>::new()));
    assert_eq!(*value.field_(path), 2);
    *value.field_mut(path) = 20;
    assert_eq!(value, ((1, (20, 3)), 4));
    let deep = (((((9u8,),),),),);
    let path4 = FieldPath::many((
        TStr::<Str_0>::new(),
        TStr::<Str_0>::new(),
        TStr::<Str_0>::new(),
        TStr::<Str_0>::new(),
    ));
    assert_eq!(*deep.field_(path4), (9,));
    assert_eq!(deep.into_field(path4), (9,));
}

#[test]
fn struct_fields_mut_and_into_fields() {
    let mut s = Struct3 { foo: Some(1u8), bar: 2u16, baz: 3u32 };
    let set = FieldPathSet::many((TStr::<Str_baz>::new(), TStr::<Str_foo>::new())).upgrade_unchecked();
    let (baz, foo) = s.fields_mut(set);
    *baz = 30;
    *foo = None;
    assert_eq!(s, Struct3 { foo: None, bar: 2, baz: 30 });
    let set = FieldPathSet::many((
        TStr::<Str_bar>::new(),
        TStr::<Str_baz>::new(),
        TStr::<Str_foo>::new(),
    ))
    .upgrade_unchecked();
    assert_eq!(s.into_fields(set), (2, 30, None));

    let mut t = Tuple2(Some('a'), 'b');
    let set = FieldPathSet::many((TStr::<Str_1>::new(), TStr::<Str_0>::new())).upgrade_unchecked();
    let (one, zero) = t.fields_mut(set);
    *one = 'c';
    *zero = None;
    assert_eq!(t, Tuple2(None, 'c'));
}

#[test]
fn one_path_sets_access_a_single_field() {
    let mut value = ((1u8, 2u8), Some(3u8));
    let set = TStr::<Str_1>::new().into_set();
    assert_eq!(*value.field_(set), Some(3));
    let nested = NestedFieldPathSet::new(TStr::<Str_0>::new(), TStr::<Str_1>::new().into_set());
    assert_eq!(*value.field_(nested), 2);
    *value.field_mut(nested) = 20;
    assert_eq!(value, ((1, 20), Some(3)));
    let some_0 = structural::VariantField::new(
        TStr::<structural::field_path::names::Str_Some>::new(),
        TStr::<Str_0>::new(),
    );
    let through_option = NestedFieldPathSet::new(TStr::<Str_1>::new(), some_0.into_set());
    assert_eq!(value.field_(through_option), Some(&3));
    assert_eq!(value.into_field(nested), 20);
}

#[test]
fn delegated_mdrop() {
    let tup = (2u8, 3u8, 5u8, 8u8);
    let mut mdrop = std::mem::ManuallyDrop::new(tup);
    let (f0, f1, f2, f3) = (
        TStr::<Str_0>::new(),
        TStr::<Str_1>::new(),
        TStr::<Str_2>::new(),
        TStr::<Str_3>::new(),
    );
    assert_eq!(mdrop.fields(FieldPathSet::many((f0, f1, f2, f3))), (&2, &3, &5, &8));
    assert_eq!(
        mdrop.fields_mut(FieldPathSet::many((f0, f1, f2, f3)).upgrade_unchecked()),
        (&mut 2, &mut 3, &mut 5, &mut 8)
    );
    assert_eq!(mdrop.clone().into_field(f0), 2);
    assert_eq!(mdrop.clone().into_field(f1), 3);
    assert_eq!(mdrop.clone().into_field(f2), 5);
    assert_eq!(mdrop.clone().into_field(f3), 8);
}

#[test]
fn manually_drop_field_mut_writes_through() {
    let mut mdrop = std::mem::ManuallyDrop::new((2u8, 3u8));
    *mdrop.field_mut(TStr::<Str_1>::new()) = 30;
    let (a, b) = mdrop.fields_mut(
        FieldPathSet::many((TStr::<Str_1>::new(), TStr::<Str_0>::new())).upgrade_unchecked(),
    );
    *a += 1;
    *b += 10;
    assert_eq!(std::mem::ManuallyDrop::into_inner(mdrop), (12, 31));
}

#[test]
fn manually_drop_moves_out_several_fields() {
    let mdrop = std::mem::ManuallyDrop::new((String::from("x"), 1u8, String::from("z")));
    let set = FieldPathSet::many((TStr::<Str_2>::new(), TStr::<Str_0>::new())).upgrade_unchecked();
    assert_eq!(mdrop.into_fields(set), (String::from("z"), String::from("x")));
}

#[test]
fn field_cloner_map_composes() {
    let c = FieldCloner(3u32);
    let twice = c.map(|x| x + 1).map(|x| x * 10);
    let composed = c.map(|x| (x + 1) * 10);
    assert_eq!(twice, composed);
    assert_eq!(twice, FieldCloner(40));
    assert_eq!(c.then(|w| w.0 + 1), c.map(|x| x + 1));
}

#[test]
fn pushed_paths_access_nested_and_several_fields() {
    let value = ((1u8, (2u8, 3u8)), 4u8);
    let path = FieldPath::one(TStr::<Str_0>::new())
        .push(TStr::<Str_1>::new())
        .push(TStr::<Str_0>::new());
    assert_eq!(*value.field_(path), 2);
    let set = FieldPathSet::many((TStr::<Str_1>::new(),)).push(FieldPath::one(TStr::<Str_0>::new()));
    let (four, first) = value.fields(set);
    assert_eq!((*four, *first), (4, (1, (2, 3))));
    let both = set.append(FieldPathSet::one(TStr::<Str_1>::new()));
    assert_eq!(value.fields(both), (&4, &(1, (2, 3)), &4));
}
