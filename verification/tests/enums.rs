use structural::field_path::names::{
    Str_0, Str_1, Str_Bar, Str_Boom, Str_Err, Str_Exploded, Str_Foo, Str_None, Str_Nope, Str_Ok,
    Str_Shengcai, Str_Shuye, Str_Some, Str_Ziemniak, Str_a, Str_b, Str_centymetry_objetosci,
    Str_legs, Str_Limbs, Str_noodles,
};
use structural::field_path::names::{Str_U32, Str_U64};
use structural::for_examples::{
    Bomb, Enum1, EnumOptFlying, EnumWithNewtype, EnumWithoutNewtype, ExtraOption, RefWrapper,
    Vegetable, WithBar,
};
use structural::{EnumExt, FieldCloner, FieldPath, GetFieldExt, TStr, VariantField};

fn some_0() -> VariantField<TStr<Str_Some>, TStr<Str_0>> {
    VariantField::new(TStr::new(), TStr::new())
}

#[test]
fn option_variant_fields() {
    let mut opt = Some(3u32);
    assert!(opt.is_variant(TStr::<Str_Some>::new()));
    assert!(!opt.is_variant(TStr::<Str_None>::new()));
    assert_eq!(opt.field_(some_0()), Some(&3));
    *opt.field_mut(some_0()).unwrap() = 10;
    assert_eq!(opt, Some(10));
    assert_eq!(opt.into_field(some_0()), Some(10));

    let none: Option<u32> = None;
    assert!(none.is_variant(TStr::<Str_None>::new()));
    assert_eq!(none.field_(some_0()), None);
    assert_eq!(none.into_field(some_0()), None);
}

#[test]
fn option_field_mut_on_other_variant_changes_nothing() {
    let mut none: Option<u32> = None;
    assert_eq!(none.field_mut(some_0()), None);
    assert_eq!(none, None);
}

#[test]
fn result_variant_fields() {
    let ok: Result<u8, &str> = Ok(5);
    let err: Result<u8, &str> = Err("bad");
    let ok_0 = VariantField::new(TStr::<Str_Ok>::new(), TStr::<Str_0>::new());
    let err_0 = VariantField::new(TStr::<Str_Err>::new(), TStr::<Str_0>::new());
    assert_eq!(ok.field_(ok_0), Some(&5));
    assert_eq!(ok.field_(err_0), None);
    assert_eq!(err.field_(ok_0), None);
    assert_eq!(err.field_(err_0), Some(&"bad"));
    assert!(ok.is_variant(TStr::<Str_Ok>::new()));
    assert!(err.is_variant(TStr::<Str_Err>::new()));
}

#[test]
fn nested_path_through_variants() {
    let nested = Some(Some(7u8));
    let path = FieldPath::many((some_0(), some_0()));
    assert_eq!(nested.field_(path), Some(&7));
    let outer_only: Option<Option<u8>> = Some(None);
    assert_eq!(outer_only.field_(path), None);
    let nothing: Option<Option<u8>> = None;
    assert_eq!(nothing.field_(path), None);

    let mut nested = Some(Some(7u8));
    *nested.field_mut(path).unwrap() = 8;
    assert_eq!(nested, Some(Some(8)));
}

#[test]
fn nested_path_through_struct_then_variant() {
    let tup = (Some(1u16), 2u16);
    let path = FieldPath::many((TStr::<Str_0>::new(), some_0()));
    assert_eq!(tup.field_(path), Some(&1));
    let path1 = FieldPath::one(TStr::<Str_1>::new());
    assert_eq!(*tup.field_(path1), 2);
}

#[test]
fn example_enums() {
    let bar = WithBar::Bar("hello");
    let bar_0 = VariantField::new(TStr::<Str_Bar>::new(), TStr::<Str_0>::new());
    assert_eq!(bar.field_(bar_0), Some(&"hello"));
    assert_eq!(WithBar::Nope.field_(bar_0), None);
    assert!(WithBar::Nope.is_variant(TStr::<Str_Nope>::new()));

    let mut boom = Bomb::Boom { a: "a", b: &[1, 2] };
    let boom_a = VariantField::new(TStr::<Str_Boom>::new(), TStr::<Str_a>::new());
    let boom_b = VariantField::new(TStr::<Str_Boom>::new(), TStr::<Str_b>::new());
    assert_eq!(boom.field_(boom_a), Some(&"a"));
    assert_eq!(boom.field_(boom_b), Some(&&[1u16, 2][..]));
    *boom.field_mut(boom_a).unwrap() = "changed";
    assert_eq!(boom, Bomb::Boom { a: "changed", b: &[1, 2] });
    assert!(Bomb::Exploded.is_variant(TStr::<Str_Exploded>::new()));
    assert_eq!(Bomb::Exploded.field_(boom_a), None);

    let foo = Enum1::Foo(3, 4);
    let foo_1 = VariantField::new(TStr::<Str_Foo>::new(), TStr::<Str_1>::new());
    assert_eq!(foo.field_(foo_1), Some(&4));

    let limbs = EnumOptFlying::Limbs { legs: Some(2), hands: None, noodles: 9 };
    let legs = VariantField::new(TStr::<Str_Limbs>::new(), TStr::<Str_legs>::new());
    let noodles = VariantField::new(TStr::<Str_Limbs>::new(), TStr::<Str_noodles>::new());
    assert_eq!(limbs.field_(legs), Some(&Some(2)));
    assert_eq!(limbs.field_(noodles), Some(&9));

    let extra: ExtraOption<u8> = ExtraOption::FileNotFound;
    assert!(!extra.is_variant(TStr::<Str_Some>::new()));
}

#[test]
fn renamed_variants_and_fields() {
    let potato = Vegetable::Potato { volume_cm: 13 };
    let letuce = Vegetable::Letuce { leaves: 21 };
    let volume = VariantField::new(TStr::<Str_Ziemniak>::new(), TStr::<Str_centymetry_objetosci>::new());
    let leaves = VariantField::new(TStr::<Str_Shengcai>::new(), TStr::<Str_Shuye>::new());
    assert_eq!(potato.field_(volume), Some(&13));
    assert_eq!(potato.field_(leaves), None);
    assert_eq!(letuce.field_(leaves), Some(&21));
    assert!(letuce.is_variant(TStr::<Str_Shengcai>::new()));
}

#[test]
fn variant_proxy_gives_fields_of_the_variant() {
    let boom = Bomb::Boom { a: "x", b: &[] };
    let proxy = match boom.into_variant(TStr::<Str_Boom>::new()) {
        Ok(p) => p,
        Err(_) => panic!("the enum is the Boom variant"),
    };
    assert_eq!(*proxy.field_(TStr::<Str_a>::new()), "x");
    assert_eq!(proxy.into_field(TStr::<Str_a>::new()), "x");

    let nope = Bomb::Nope;
    assert!(nope.into_variant(TStr::<Str_Boom>::new()).is_err());

    let boxed = Box::new(Bomb::Boom { a: "y", b: &[] });
    let proxy = match boxed.box_into_variant(TStr::<Str_Boom>::new()) {
        Ok(p) => p,
        Err(_) => panic!("the enum is the Boom variant"),
    };
    assert_eq!(*proxy.get(), Bomb::Boom { a: "y", b: &[] });
    let boxed_nope = Box::new(Bomb::Nope);
    assert_eq!(*boxed_nope.box_into_variant(TStr::<Str_Boom>::new()).unwrap_err(), Bomb::Nope);
}

#[test]
fn field_cloner_copies_variant_fields() {
    let value = Some(4u64);
    let cloner = FieldCloner(&value);
    assert_eq!(cloner.into_field(some_0()), Some(4));
    assert_eq!(value, Some(4));
}

#[test]
fn newtype_variant_fields_are_the_wrapped_fields() {
    let n = 5u32;
    let with = EnumWithNewtype::U32(RefWrapper(3, &n));
    let without = EnumWithoutNewtype::U32(3, &n);
    let u32_0 = VariantField::new(TStr::<Str_U32>::new(), TStr::<Str_0>::new());
    let u32_1 = VariantField::new(TStr::<Str_U32>::new(), TStr::<Str_1>::new());
    let u64_0 = VariantField::new(TStr::<Str_U64>::new(), TStr::<Str_0>::new());
    assert_eq!(with.field_(u32_0), Some(&3));
    assert_eq!(with.field_(u32_1), Some(&&5));
    assert_eq!(without.field_(u32_0), Some(&3));
    assert_eq!(without.field_(u32_1), Some(&&5));
    assert_eq!(with.field_(u64_0), None);
    assert!(with.is_variant(TStr::<Str_U32>::new()));
}

#[test]
fn as_variant_borrows_the_enum() {
    let boom = Bomb::Boom { a: "z", b: &[7] };
    let proxy = boom.as_variant(TStr::<Str_Boom>::new()).unwrap();
    assert_eq!(*proxy.field_(TStr::<Str_b>::new()), &[7u16][..]);
    assert!(Bomb::Nope.as_variant(TStr::<Str_Boom>::new()).is_err());
    assert_eq!(boom, Bomb::Boom { a: "z", b: &[7] });
}
