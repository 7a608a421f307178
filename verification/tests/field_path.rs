use structural::field_path::names::{Str_99, Str_Foo, Str_bar, Str_baz};
use structural::field_path::{str_to_usize, ToUsize};
use structural::{
    AliasedPaths, FieldPathSet, NestedFieldPath, NestedFieldPathSet, TStr, UniquePaths,
    VariantField, VariantName,
};

type N99 = TStr<Str_99>;
type Foo = TStr<Str_Foo>;
type Bar = TStr<Str_bar>;
type Baz = TStr<Str_baz>;

#[test]
fn to_path_to_set() {
    {
        let this: N99 = TStr::new();
        let _: NestedFieldPath<(N99,)> = this.into_path();
        let _: N99 = this.into_path().into_component();
        let _: FieldPathSet<(N99,), UniquePaths> = this.into_set();
        let _: N99 = this.into_set().into_path();
        let _: (N99,) = this.into_set().into_paths();
    }
    {
        let this: VariantName<N99> = VariantName::new(TStr::new());
        let _: NestedFieldPath<(VariantName<N99>,)> = this.into_path();
        let _: VariantName<N99> = this.into_path().into_component();
        let _: FieldPathSet<(VariantName<N99>,), UniquePaths> = this.into_set();
        let _: VariantName<N99> = this.into_set().into_path();
        let _: (VariantName<N99>,) = this.into_set().into_paths();
    }
    {
        let this: VariantField<Foo, N99> = VariantField::new(TStr::new(), TStr::new());
        let _: NestedFieldPath<(VariantField<Foo, N99>,)> = this.into_path();
        let _: VariantField<Foo, N99> = this.into_path().into_component();
        let _: FieldPathSet<(VariantField<Foo, N99>,), UniquePaths> = this.into_set();
        let _: VariantField<Foo, N99> = this.into_set().into_path();
        let _: (VariantField<Foo, N99>,) = this.into_set().into_paths();
    }
    {
        let this: NestedFieldPath<(Bar, Baz)> = NestedFieldPath::many((TStr::new(), TStr::new()));
        let _: FieldPathSet<(NestedFieldPath<(Bar, Baz)>,), UniquePaths> = this.into_set();
        let _: NestedFieldPath<(Bar, Baz)> = this.into_set().into_path();
        let _: (NestedFieldPath<(Bar, Baz)>,) = this.into_set().into_paths();
    }
}

#[test]
fn uniqueness_methods() {
    {
        let bar: Bar = TStr::new();
        let baz: Baz = TStr::new();
        let this: FieldPathSet<(Bar, Baz), AliasedPaths> = FieldPathSet::many((bar, baz));
        let unique: FieldPathSet<(Bar, Baz), UniquePaths> = this.upgrade_unchecked();
        let _: FieldPathSet<(Bar, Baz), UniquePaths> = this.set_uniqueness();
        let _: FieldPathSet<(Bar, Baz), AliasedPaths> = this.set_uniqueness();
        let _: FieldPathSet<(Bar, Baz), AliasedPaths> = unique.downgrade();
    }
    {
        let bar: Bar = TStr::new();
        let baz: Baz = TStr::new();
        let this: NestedFieldPathSet<Bar, (Baz,), AliasedPaths> =
            NestedFieldPathSet::new(bar, FieldPathSet::many((baz,)));

        let unique: NestedFieldPathSet<Bar, (Baz,), UniquePaths> = this.upgrade_unchecked();
        let _: NestedFieldPathSet<Bar, (Baz,), UniquePaths> = this.set_uniqueness();
        let _: NestedFieldPathSet<Bar, (Baz,), AliasedPaths> = this.set_uniqueness();
        let _: NestedFieldPathSet<Bar, (Baz,), AliasedPaths> = unique.downgrade();
    }
}

#[test]
fn str_to_usize_values() {
    assert_eq!(str_to_usize("0"), 0);
    assert_eq!(str_to_usize("7"), 7);
    assert_eq!(str_to_usize("42"), 42);
    assert_eq!(str_to_usize("1000"), 1000);
    assert_eq!(str_to_usize("18446744073709551615"), usize::MAX);
    assert_eq!(<N99 as ToUsize>::to_usize(), 99);
}

#[test]
fn conversions_between_paths_and_sets() {
    let bar: Bar = TStr::new();
    let path: structural::FieldPath<(Bar,)> = bar.into();
    let back: Bar = path.into();
    let _ = back;
    let set: FieldPathSet<(structural::FieldPath<(Bar,)>,), UniquePaths> = path.into();
    let path_again: structural::FieldPath<(Bar,)> = set.into();
    let _ = path_again;
    let defaulted: FieldPathSet<(Bar, Baz), AliasedPaths> = Default::default();
    let _: (Bar, Baz) = defaulted.into_paths();
    let nested: NestedFieldPathSet<Bar, (Baz,), AliasedPaths> = Default::default();
    let _: Bar = nested.into_nested();
}

#[test]
fn fieldpath_push_append() {
    type A = TStr<Str_Foo>;
    type B = TStr<Str_bar>;
    type C = TStr<Str_baz>;
    type D = N99;
    let fp0 = NestedFieldPath::<(A,)>::one(TStr::new());
    let fp1 = NestedFieldPath::<(B,)>::one(TStr::new());
    let fp2 = NestedFieldPath::<(C,)>::one(TStr::new());
    let fp3 = NestedFieldPath::<(D,)>::one(TStr::new());

    let a: NestedFieldPath<(A, B)> = fp0.push(fp1.list.0);
    let _: NestedFieldPath<(A, B)> = fp0.append(fp1);

    let b: NestedFieldPath<(A, B, C)> = a.push(fp2.list.0);
    let _: NestedFieldPath<(A, B, C)> = a.append(fp2);

    let _: NestedFieldPath<(A, B, C, D)> = b.push(fp3.list.0);
    let _: NestedFieldPath<(A, B, C, D)> = b.append(fp3);
}

#[test]
fn fieldpaths_push_append() {
    type Fp<T> = NestedFieldPath<(T,)>;
    type A = TStr<Str_Foo>;
    type B = TStr<Str_bar>;
    type C = TStr<Str_baz>;
    type D = N99;
    let fp1 = Fp::<B>::one(TStr::new());
    let fp2 = Fp::<C>::one(TStr::new());
    let fp3 = Fp::<D>::one(TStr::new());

    let fps0 = FieldPathSet::one(Fp::<A>::one(TStr::new()));
    let fps1 = FieldPathSet::one(fp1);
    let fps2 = FieldPathSet::one(fp2);
    let fps3 = FieldPathSet::one(fp3);

    let a: FieldPathSet<(Fp<A>, Fp<B>), AliasedPaths> = fps0.push(fps1);
    let _: FieldPathSet<(Fp<A>, Fp<B>), AliasedPaths> = fps0.push(fp1);
    let _: FieldPathSet<(Fp<A>, Fp<B>), AliasedPaths> = fps0.append(fps1);

    let b: FieldPathSet<(Fp<A>, Fp<B>, Fp<C>), AliasedPaths> = a.push(fps2);
    let _: FieldPathSet<(Fp<A>, Fp<B>, Fp<C>), AliasedPaths> = a.push(fp2);
    let _: FieldPathSet<(Fp<A>, Fp<B>, Fp<C>), AliasedPaths> = a.append(fps2);

    let _: FieldPathSet<(Fp<A>, Fp<B>, Fp<C>, Fp<D>), AliasedPaths> = b.push(fps3);
    let _: FieldPathSet<(Fp<A>, Fp<B>, Fp<C>, Fp<D>), AliasedPaths> = b.push(fp3);
    let _: FieldPathSet<(Fp<A>, Fp<B>, Fp<C>, Fp<D>), AliasedPaths> = b.append(fps3);
}
