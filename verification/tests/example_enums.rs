use structural::field_path::names::{
    Str_0, Str_1, Str_2, Str_Bar, Str_Baz, Str_Boom, Str_Foo, Str_Qux, Str_a, Str_b, Str_foom, Str_uh,
    Str_what,
};
use structural::for_examples::{Comparison, Enum2, Enum3, Enum4, Variants, WithBar};
use structural::{FieldCloner, FieldPathSet, GetFieldExt, TStr, VariantField};

fn vf<V, F>(v: V, f: F) -> VariantField<V, F> {
    VariantField::new(v, f)
}

fn bar_0() -> VariantField<TStr<Str_Bar>, TStr<Str_0>> {
    vf(TStr::new(), TStr::new())
}

#[test]
fn variants_bar_field_through_a_variant_path() {
    let this = Variants::Bar("why?");
    assert_eq!(this.field_(bar_0()), Some(&"why?"));
    assert_eq!(
        this.fields(FieldPathSet::many((bar_0(), bar_0()))),
        (Some(&"why?"), Some(&"why?"))
    );
    assert!(this.is_variant(TStr::<Str_Bar>::new()));

    let with_bar = WithBar::Bar("why?");
    assert_eq!(with_bar.field_(bar_0()), Some(&"why?"));
    assert!(with_bar.is_variant(TStr::<Str_Bar>::new()));
}

#[test]
fn variants_foo_field_by_value() {
    let this = Variants::Foo(8, 13);
    let foo_0 = vf(TStr::<Str_Foo>::new(), TStr::<Str_0>::new());
    let value: u32 = this.into_field(foo_0).unwrap();
    assert_eq!(value, 8_u32);
    assert_eq!(this.into_field(vf(TStr::<Str_Foo>::new(), TStr::<Str_1>::new())), Some(13u64));
    assert_eq!(this.field_(vf(TStr::<Str_Bar>::new(), TStr::<Str_0>::new())), None);
}

#[test]
fn variants_baz_and_boom_fields() {
    let mut this = Variants::Baz(Some(Comparison::Less));
    let baz_0 = vf(TStr::<Str_Baz>::new(), TStr::<Str_0>::new());
    assert_eq!(this.field_(baz_0), Some(&Some(Comparison::Less)));
    *this.field_mut(baz_0).unwrap() = None;
    assert_eq!(this, Variants::Baz(None));

    let boom = Variants::Boom { a: Some(&[1, 2]), b: &[3] };
    assert_eq!(boom.field_(vf(TStr::<Str_Boom>::new(), TStr::<Str_a>::new())), Some(&Some(&[1u8, 2][..])));
    assert_eq!(boom.field_(vf(TStr::<Str_Boom>::new(), TStr::<Str_b>::new())), Some(&&[3u16][..]));
    assert!(!boom.is_variant(TStr::<Str_Baz>::new()));
}

#[test]
fn enum2_to_enum4_variant_fields() {
    let two = Enum2::Bar(Comparison::Greater, Some(5));
    assert_eq!(two.field_(vf(TStr::<Str_Bar>::new(), TStr::<Str_1>::new())), Some(&Some(5)));
    assert_eq!(two.field_(vf(TStr::<Str_Foo>::new(), TStr::<Str_0>::new())), None);

    let mut three = Enum3::Baz { foom: "x" };
    let foom = vf(TStr::<Str_Baz>::new(), TStr::<Str_foom>::new());
    *three.field_mut(foom).unwrap() = "y";
    assert_eq!(three, Enum3::Baz { foom: "y" });
    assert!(three.is_variant(TStr::<Str_Baz>::new()));

    let four = Enum4::Qux { uh: [1, 2, 3, 4], what: (true, false) };
    assert_eq!(four.field_(vf(TStr::<Str_Qux>::new(), TStr::<Str_uh>::new())), Some(&[1, 2, 3, 4]));
    assert_eq!(
        four.into_field(vf(TStr::<Str_Qux>::new(), TStr::<Str_what>::new())),
        Some((true, false))
    );
    assert!(!four.is_variant(TStr::<Str_Foo>::new()));
    assert!(Enum4::Foo(1, 2).is_variant(TStr::<Str_Foo>::new()));
}

#[test]
fn field_cloner_map_with_identity_gives_the_same_wrapper() {
    let c = FieldCloner(7u16);
    assert_eq!(c.map(|x| x), c);
}

#[test]
fn cloned_fields_clone_what_the_fields_hold() {
    let this = Variants::Bar("why?");
    assert_eq!(
        this.cloned_fields(FieldPathSet::many((bar_0(), bar_0()))),
        (Some("why?"), Some("why?"))
    );
    let tup = (String::from("a"), 2u8, vec![3u8]);
    let set = FieldPathSet::many((TStr::<Str_2>::new(), TStr::<Str_0>::new()));
    assert_eq!(tup.cloned_fields(set), (vec![3u8], String::from("a")));
    assert_eq!(tup, (String::from("a"), 2, vec![3]));
}
