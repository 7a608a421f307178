//! Type-level representations of access to one or multiple fields.
//!
//! A field path is a value of a zero-sized type: the type says which field is
//! accessed. [`TStr`] names a field, [`VariantField`] names a field inside an
//! enum variant, [`VariantName`] names an enum variant, [`FieldPath`] names a
//! nested field (a tuple of the above), [`FieldPathSet`] names several fields
//! at once, and [`NestedFieldPathSet`] names several fields inside a nested one.
//!
//! Each path has a value-level view (`path_view`), a sequence of
//! [`PathComponent`]s, in which the contracts of this crate are stated.
use std::marker::PhantomData;
use vstd::prelude::*;

pub mod names;
pub mod to_usize;
pub mod tuple_ops;

pub use self::tuple_ops::{TupleAppend, TuplePush};
pub use self::to_usize::{
    decimal_name, decimal_value, digit_char, digit_value, lemma_decimal_name_value, is_decimal, is_digit, str_to_usize, IndexName, ToUsize,
};

verus! {

/// One step of a field path, as a value.
pub ghost enum PathComponent {
    /// A field of a struct (or of a tuple, or an element of a slice).
    Field(Seq<char>),
    /// A field inside an enum variant: the variant's name, then the field's.
    VariantField(Seq<char>, Seq<char>),
    /// An enum variant, as a whole.
    Variant(Seq<char>),
}

/// Whether the path `a` is a prefix of the path `b` (every path is a prefix of itself).
pub open spec fn is_prefix_of(a: Seq<PathComponent>, b: Seq<PathComponent>) -> bool {
    a.len() <= b.len() && b.subrange(0, a.len() as int) == a
}

/// Two fields whose one-step paths are not prefixes of each other have
/// different names.
pub proof fn lemma_field_names_differ(a: Seq<char>, b: Seq<char>)
    requires
        !is_prefix_of(seq![PathComponent::Field(a)], seq![PathComponent::Field(b)]),
    ensures
        a != b,
{
    if a == b {
        assert(seq![PathComponent::Field(b)].subrange(0, 1) =~= seq![PathComponent::Field(a)]);
    }
}

/// Whether no path in `paths` is a prefix of another path in `paths`.
///
/// This is the condition under which the paths can be borrowed mutably at once.
pub open spec fn paths_are_unique(paths: Seq<Seq<PathComponent>>) -> bool {
    forall|i: int, j: int|
        0 <= i < paths.len() && 0 <= j < paths.len() && i != j ==> !is_prefix_of(
            #[trigger] paths[i],
            #[trigger] paths[j],
        )
}

/// The parameter of [`TStr`]: a type standing for a string, the name of a field.
pub trait TStrName: Copy {
    spec fn name_spec() -> Seq<char>;

    fn name() -> (r: &'static str)
        ensures
            r@ == Self::name_spec(),
    ;
}

/// Marks the path types of this module.
pub trait Sealed {}

/// A type-level string, used as the name of a field or of an enum variant.
#[derive(Debug)]
pub struct TStr<T>(pub PhantomData<T>);

impl<T> Clone for TStr<T> {
    fn clone(&self) -> (r: Self)
        ensures
            r == *self,
    {
        TStr(PhantomData)
    }
}

impl<T> Copy for TStr<T> {}

impl<T> Default for TStr<T> {
    fn default() -> (r: Self)
        ensures
            r == TStr::<T>(PhantomData),
    {
        TStr(PhantomData)
    }
}

/// The type-level strings: the [`TStr`] types.
pub trait IsTStr: Sealed + Copy {
    spec fn tstr_spec() -> Seq<char>;
}

/// A field path that names a single field.
pub trait IsSingleFieldPath: Sized {
    spec fn path_view(&self) -> Seq<PathComponent>;
}

/// A field path that names any number of fields.
///
/// `PathUniqueness` is [`UniquePaths`] when no two of the paths alias.
pub trait IsMultiFieldPath: Sized {
    type PathUniqueness;
}

/// `Assert*` helper: implemented for every type, for each [`TStr`] parameter.
pub trait AssertTStrParamSealed<P> {}

/// Asserts that the parameter `P` is a [`TStr`].
pub trait AssertTStrParam<P>: AssertTStrParamSealed<P> {}

impl<This: ?Sized, P> AssertTStrParamSealed<TStr<P>> for This {}

impl<This: ?Sized, P> AssertTStrParam<TStr<P>> for This {}

impl<T> Sealed for TStr<T> {}

impl<T: TStrName> IsTStr for TStr<T> {
    open spec fn tstr_spec() -> Seq<char> {
        T::name_spec()
    }
}

impl<T: TStrName> IsSingleFieldPath for TStr<T> {
    open spec fn path_view(&self) -> Seq<PathComponent> {
        seq![PathComponent::Field(T::name_spec())]
    }
}

impl<T> IsMultiFieldPath for TStr<T> {
    type PathUniqueness = UniquePaths;
}

impl<T> TStr<T> {
    /// Constructs the type-level string.
    pub fn new() -> (r: Self)
        ensures
            r == TStr::<T>(PhantomData),
    {
        TStr(PhantomData)
    }

    /// Constructs a [`FieldPath`] with this as its only component.
    pub fn to_path(self) -> (r: FieldPath<(Self,)>)
        ensures
            r.list.0 == self,
    {
        FieldPath::one(self)
    }

    /// Constructs a [`FieldPathSet`] with the path to this field as its only path.
    pub fn to_set(self) -> (r: FieldPathSet<(FieldPath<(Self,)>,), UniquePaths>)
        where
            T: TStrName,
        ensures
            r.paths().0.list.0 == self,
    {
        FieldPathSet::one(FieldPath::one(self))
    }

    /// Constructs a [`FieldPath`] with this as its only component.
    pub fn into_path(self) -> (r: FieldPath<(Self,)>)
        ensures
            r.list.0 == self,
    {
        FieldPath::one(self)
    }

    /// Constructs a [`FieldPathSet`] with this as its only path.
    pub fn into_set(self) -> (r: FieldPathSet<(Self,), UniquePaths>)
        where
            T: TStrName,
        ensures
            r.paths().0 == self,
    {
        FieldPathSet::one(self)
    }
}

/// The path to a field inside an enum variant: `variant` names the variant,
/// `field` names the field.
#[derive(Debug, Default, Copy, Clone)]
pub struct VariantField<V, F> {
    pub variant: V,
    pub field: F,
}

impl<V, F> VariantField<V, F> {
    /// Constructs a `VariantField` from the variant's and the field's names.
    pub fn new(variant: V, field: F) -> (r: Self)
        ensures
            r.variant == variant,
            r.field == field,
    {
        VariantField { variant, field }
    }

    /// Constructs a [`FieldPath`] with this as its only component.
    pub fn to_path(self) -> (r: FieldPath<(Self,)>)
        ensures
            r.list.0 == self,
    {
        FieldPath::one(self)
    }

    /// Constructs a [`FieldPath`] with this as its only component.
    pub fn into_path(self) -> (r: FieldPath<(Self,)>)
        ensures
            r.list.0 == self,
    {
        FieldPath::one(self)
    }

    /// Constructs a [`FieldPathSet`] with the path to this field as its only path.
    pub fn to_set(self) -> (r: FieldPathSet<(FieldPath<(Self,)>,), UniquePaths>)
        where
            Self: IsSingleFieldPath,
        ensures
            r.paths().0.list.0 == self,
    {
        FieldPathSet::one(FieldPath::one(self))
    }

    /// Constructs a [`FieldPathSet`] with this as its only path.
    pub fn into_set(self) -> (r: FieldPathSet<(Self,), UniquePaths>)
        where
            Self: IsSingleFieldPath,
        ensures
            r.paths().0 == self,
    {
        FieldPathSet::one(self)
    }
}

impl<V: IsTStr, F: IsTStr> IsSingleFieldPath for VariantField<V, F> {
    open spec fn path_view(&self) -> Seq<PathComponent> {
        seq![PathComponent::VariantField(V::tstr_spec(), F::tstr_spec())]
    }
}

impl<V, F> IsMultiFieldPath for VariantField<V, F> {
    type PathUniqueness = UniquePaths;
}

/// The path to an enum variant as a whole: `name` names the variant.
#[derive(Debug, Default, Copy, Clone)]
pub struct VariantName<V> {
    pub name: V,
}

impl<V> VariantName<V> {
    /// Constructs a `VariantName` from the variant's name.
    pub fn new(name: V) -> (r: Self)
        ensures
            r.name == name,
    {
        VariantName { name }
    }

    /// Constructs a [`FieldPath`] with this as its only component.
    pub fn to_path(self) -> (r: FieldPath<(Self,)>)
        ensures
            r.list.0 == self,
    {
        FieldPath::one(self)
    }

    /// Constructs a [`FieldPath`] with this as its only component.
    pub fn into_path(self) -> (r: FieldPath<(Self,)>)
        ensures
            r.list.0 == self,
    {
        FieldPath::one(self)
    }

    /// Constructs a [`FieldPathSet`] with the path to this field as its only path.
    pub fn to_set(self) -> (r: FieldPathSet<(FieldPath<(Self,)>,), UniquePaths>)
        where
            Self: IsSingleFieldPath,
        ensures
            r.paths().0.list.0 == self,
    {
        FieldPathSet::one(FieldPath::one(self))
    }

    /// Constructs a [`FieldPathSet`] with this as its only path.
    pub fn into_set(self) -> (r: FieldPathSet<(Self,), UniquePaths>)
        where
            Self: IsSingleFieldPath,
        ensures
            r.paths().0 == self,
    {
        FieldPathSet::one(self)
    }
}

impl<V: IsTStr> IsSingleFieldPath for VariantName<V> {
    open spec fn path_view(&self) -> Seq<PathComponent> {
        seq![PathComponent::Variant(V::tstr_spec())]
    }
}

impl<V> IsMultiFieldPath for VariantName<V> {
    type PathUniqueness = UniquePaths;
}

/// The path to a nested field: `list` is a tuple of the single-step paths,
/// outermost first.
#[derive(Debug, Default, Copy, Clone)]
pub struct FieldPath<T> {
    pub list: T,
}

impl<T> FieldPath<(T,)> {
    /// Constructs a `FieldPath` with `value` as its only component.
    pub fn one(value: T) -> (r: Self)
        ensures
            r.list.0 == value,
    {
        FieldPath { list: (value,) }
    }

    /// Unwraps the only component of the path.
    pub fn into_component(self) -> (r: T)
        ensures
            r == self.list.0,
    {
        self.list.0
    }
}

impl<S> FieldPath<(TStr<S>,)> {
    /// Unwraps the only component of the path, a field name.
    pub fn to_tstr(self) -> (r: TStr<S>)
        ensures
            r == self.list.0,
    {
        self.list.0
    }
}

/// Another name for [`FieldPath`].
pub type NestedFieldPath<T> = FieldPath<T>;

impl<T> FieldPath<T> {
    /// Constructs a `FieldPath` from a tuple of components.
    pub fn many(list: T) -> (r: Self)
        ensures
            r.list == list,
    {
        FieldPath { list }
    }

    /// Constructs the path that goes on from this one through `other`.
    pub fn push<U>(self, other: U) -> (r: FieldPath<T::Output>) where T: TuplePush<U>
        ensures
            r.list == self.list.push_spec(other),
    {
        FieldPath { list: self.list.push_back(other) }
    }

    /// Constructs the path that goes on from this one through the
    /// components of `other`.
    pub fn append<U>(self, other: FieldPath<U>) -> (r: FieldPath<T::Output>) where
        T: TupleAppend<U>,

        ensures
            r.list == self.list.append_spec(other.list),
    {
        FieldPath { list: self.list.append_back(other.list) }
    }

    /// Constructs a [`FieldPathSet`] with this as its only path.
    pub fn to_set(self) -> (r: FieldPathSet<(Self,), UniquePaths>)
        where
            Self: IsSingleFieldPath,
        ensures
            r.paths().0 == self,
    {
        FieldPathSet::one(self)
    }

    /// Constructs a [`FieldPathSet`] with this as its only path.
    pub fn into_set(self) -> (r: FieldPathSet<(Self,), UniquePaths>)
        where
            Self: IsSingleFieldPath,
        ensures
            r.paths().0 == self,
    {
        FieldPathSet::one(self)
    }
}

impl<T> IsMultiFieldPath for FieldPath<T> {
    type PathUniqueness = UniquePaths;
}

impl<A: IsSingleFieldPath> IsSingleFieldPath for FieldPath<(A,)> {
    open spec fn path_view(&self) -> Seq<PathComponent> {
        self.list.0.path_view()
    }
}

impl<A: IsSingleFieldPath, B: IsSingleFieldPath> IsSingleFieldPath for FieldPath<(A, B)> {
    open spec fn path_view(&self) -> Seq<PathComponent> {
        self.list.0.path_view() + self.list.1.path_view()
    }
}

impl<A: IsSingleFieldPath, B: IsSingleFieldPath, C: IsSingleFieldPath> IsSingleFieldPath for FieldPath<
    (A, B, C),
> {
    open spec fn path_view(&self) -> Seq<PathComponent> {
        self.list.0.path_view() + self.list.1.path_view() + self.list.2.path_view()
    }
}

impl<
    A: IsSingleFieldPath,
    B: IsSingleFieldPath,
    C: IsSingleFieldPath,
    D: IsSingleFieldPath,
> IsSingleFieldPath for FieldPath<(A, B, C, D)> {
    open spec fn path_view(&self) -> Seq<PathComponent> {
        self.list.0.path_view() + self.list.1.path_view() + self.list.2.path_view()
            + self.list.3.path_view()
    }
}

/// A tuple of field paths, the contents of a [`FieldPathSet`].
pub trait PathTuple: Sized {
    spec fn paths_view(&self) -> Seq<Seq<PathComponent>>;
}

impl PathTuple for () {
    open spec fn paths_view(&self) -> Seq<Seq<PathComponent>> {
        seq![]
    }
}

impl<A: IsSingleFieldPath> PathTuple for (A,) {
    open spec fn paths_view(&self) -> Seq<Seq<PathComponent>> {
        seq![self.0.path_view()]
    }
}

impl<A: IsSingleFieldPath, B: IsSingleFieldPath> PathTuple for (A, B) {
    open spec fn paths_view(&self) -> Seq<Seq<PathComponent>> {
        seq![self.0.path_view(), self.1.path_view()]
    }
}

impl<A: IsSingleFieldPath, B: IsSingleFieldPath, C: IsSingleFieldPath> PathTuple for (A, B, C) {
    open spec fn paths_view(&self) -> Seq<Seq<PathComponent>> {
        seq![self.0.path_view(), self.1.path_view(), self.2.path_view()]
    }
}

impl<
    A: IsSingleFieldPath,
    B: IsSingleFieldPath,
    C: IsSingleFieldPath,
    D: IsSingleFieldPath,
> PathTuple for (A, B, C, D) {
    open spec fn paths_view(&self) -> Seq<Seq<PathComponent>> {
        seq![self.0.path_view(), self.1.path_view(), self.2.path_view(), self.3.path_view()]
    }
}

impl<
    A: IsSingleFieldPath,
    B: IsSingleFieldPath,
    C: IsSingleFieldPath,
    D: IsSingleFieldPath,
    E: IsSingleFieldPath,
> PathTuple for (A, B, C, D, E) {
    open spec fn paths_view(&self) -> Seq<Seq<PathComponent>> {
        seq![self.0.path_view(), self.1.path_view(), self.2.path_view(), self.3.path_view(), self.4.path_view()]
    }
}

impl<
    A: IsSingleFieldPath,
    B: IsSingleFieldPath,
    C: IsSingleFieldPath,
    D: IsSingleFieldPath,
    E: IsSingleFieldPath,
    F: IsSingleFieldPath,
> PathTuple for (A, B, C, D, E, F) {
    open spec fn paths_view(&self) -> Seq<Seq<PathComponent>> {
        seq![self.0.path_view(), self.1.path_view(), self.2.path_view(), self.3.path_view(), self.4.path_view(), self.5.path_view()]
    }
}

impl<
    A: IsSingleFieldPath,
    B: IsSingleFieldPath,
    C: IsSingleFieldPath,
    D: IsSingleFieldPath,
    E: IsSingleFieldPath,
    F: IsSingleFieldPath,
    G: IsSingleFieldPath,
> PathTuple for (A, B, C, D, E, F, G) {
    open spec fn paths_view(&self) -> Seq<Seq<PathComponent>> {
        seq![self.0.path_view(), self.1.path_view(), self.2.path_view(), self.3.path_view(), self.4.path_view(), self.5.path_view(), self.6.path_view()]
    }
}

impl<
    A: IsSingleFieldPath,
    B: IsSingleFieldPath,
    C: IsSingleFieldPath,
    D: IsSingleFieldPath,
    E: IsSingleFieldPath,
    F: IsSingleFieldPath,
    G: IsSingleFieldPath,
    H: IsSingleFieldPath,
> PathTuple for (A, B, C, D, E, F, G, H) {
    open spec fn paths_view(&self) -> Seq<Seq<PathComponent>> {
        seq![self.0.path_view(), self.1.path_view(), self.2.path_view(), self.3.path_view(), self.4.path_view(), self.5.path_view(), self.6.path_view(), self.7.path_view()]
    }
}

/// The uniqueness markers of a [`FieldPathSet`].
pub trait Uniqueness {
    /// Whether the paths must not alias.
    spec fn demands_unique() -> bool;
}

/// Marks a [`FieldPathSet`] whose paths do not alias:
/// no path is a prefix of another.
#[derive(Debug, Default, Copy, Clone)]
pub struct UniquePaths;

/// Marks a [`FieldPathSet`] whose paths may alias.
#[derive(Debug, Default, Copy, Clone)]
pub struct AliasedPaths;

impl Uniqueness for UniquePaths {
    open spec fn demands_unique() -> bool {
        true
    }
}

impl Uniqueness for AliasedPaths {
    open spec fn demands_unique() -> bool {
        false
    }
}

/// A list of field paths, used to access several fields at once.
///
/// If `U` is [`UniquePaths`], no path in the list is a prefix of another one:
/// this is the type's invariant.
pub struct FieldPathSet<T: PathTuple, U: Uniqueness> {
    paths: T,
    uniqueness: PhantomData<U>,
}

impl<T: PathTuple + Copy, U: Uniqueness> Clone for FieldPathSet<T, U> {
    fn clone(&self) -> (r: Self)
        ensures
            r == *self,
    {
        *self
    }
}

impl<T: PathTuple + Copy, U: Uniqueness> Copy for FieldPathSet<T, U> {}

impl<T: PathTuple + Default> Default for FieldPathSet<T, AliasedPaths> {
    fn default() -> (r: Self)
        ensures
            T::default.ensures((), r.paths()),
    {
        FieldPathSet::many(T::default())
    }
}

impl<T: PathTuple, U: Uniqueness> FieldPathSet<T, U> {
    #[verifier::type_invariant]
    spec fn unique_when_demanded(self) -> bool {
        U::demands_unique() ==> paths_are_unique(self.paths.paths_view())
    }

    /// The tuple of paths.
    pub closed spec fn paths(self) -> T {
        self.paths
    }

    /// Unwraps the tuple of paths.
    ///
    /// The paths of a `FieldPathSet<_, UniquePaths>` do not alias:
    /// no path is a prefix of another one.
    pub fn into_paths(self) -> (r: T)
        ensures
            r == self.paths(),
            U::demands_unique() ==> paths_are_unique(r.paths_view()),
    {
        proof {
            use_type_invariant(&self);
        }
        self.paths
    }
}

/// What can be pushed onto a [`FieldPathSet`]: a path, or a set of one path.
///
/// `pushed_path_spec` is the path that is pushed.
pub trait PushedPath: Sized {
    type Path;

    spec fn pushed_path_spec(self) -> Self::Path;

    fn into_pushed_path(self) -> (r: Self::Path)
        ensures
            r == self.pushed_path_spec(),
    ;
}

impl<T> PushedPath for TStr<T> {
    type Path = Self;

    open spec fn pushed_path_spec(self) -> Self {
        self
    }

    fn into_pushed_path(self) -> (r: Self) {
        self
    }
}

impl<V, F> PushedPath for VariantField<V, F> {
    type Path = Self;

    open spec fn pushed_path_spec(self) -> Self {
        self
    }

    fn into_pushed_path(self) -> (r: Self) {
        self
    }
}

impl<V> PushedPath for VariantName<V> {
    type Path = Self;

    open spec fn pushed_path_spec(self) -> Self {
        self
    }

    fn into_pushed_path(self) -> (r: Self) {
        self
    }
}

impl<T> PushedPath for FieldPath<T> {
    type Path = Self;

    open spec fn pushed_path_spec(self) -> Self {
        self
    }

    fn into_pushed_path(self) -> (r: Self) {
        self
    }
}

impl<P: IsSingleFieldPath, U: Uniqueness> PushedPath for FieldPathSet<(P,), U> {
    type Path = P;

    open spec fn pushed_path_spec(self) -> P {
        self.paths().0
    }

    fn into_pushed_path(self) -> (r: P) {
        self.into_paths().0
    }
}

impl<T: PathTuple, U: Uniqueness> FieldPathSet<T, U> {
    /// Constructs the set with the paths of this one, then `other`; the
    /// paths of the result may alias.
    pub fn push<O: PushedPath>(self, other: O) -> (r: FieldPathSet<T::Output, AliasedPaths>) where
        T: TuplePush<O::Path>,
        T::Output: PathTuple,

        ensures
            r.paths() == self.paths().push_spec(other.pushed_path_spec()),
    {
        FieldPathSet::many(self.into_paths().push_back(other.into_pushed_path()))
    }

    /// Constructs the set with the paths of this one, then those of
    /// `other`; the paths of the result may alias.
    pub fn append<T2: PathTuple, U2: Uniqueness>(self, other: FieldPathSet<T2, U2>) -> (r: FieldPathSet<
        T::Output,
        AliasedPaths,
    >) where T: TupleAppend<T2>, T::Output: PathTuple
        ensures
            r.paths() == self.paths().append_spec(other.paths()),
    {
        FieldPathSet::many(self.into_paths().append_back(other.into_paths()))
    }
}

impl<T: IsSingleFieldPath> FieldPathSet<(T,), UniquePaths> {
    /// Constructs a `FieldPathSet` from a single path (which cannot alias itself).
    pub fn one(val: T) -> (r: Self)
        ensures
            r.paths() == (val,),
    {
        FieldPathSet { paths: (val,), uniqueness: PhantomData }
    }
}

impl<T: PathTuple> FieldPathSet<T, AliasedPaths> {
    /// Constructs a `FieldPathSet` from a tuple of paths, which may alias.
    pub fn many(paths: T) -> (r: Self)
        ensures
            r.paths() == paths,
    {
        FieldPathSet { paths, uniqueness: PhantomData }
    }

    /// Marks the paths as not aliasing.
    ///
    /// No path may be a prefix of another one.
    pub fn upgrade_unchecked(self) -> (r: FieldPathSet<T, UniquePaths>)
        requires
            paths_are_unique(self.paths().paths_view()),
        ensures
            r.paths() == self.paths(),
    {
        FieldPathSet { paths: self.paths, uniqueness: PhantomData }
    }

    /// Changes the uniqueness marker of the set.
    ///
    /// If `U2` is [`UniquePaths`], no path may be a prefix of another one.
    pub fn set_uniqueness<U2: Uniqueness>(self) -> (r: FieldPathSet<T, U2>)
        requires
            U2::demands_unique() ==> paths_are_unique(self.paths().paths_view()),
        ensures
            r.paths() == self.paths(),
    {
        FieldPathSet { paths: self.paths, uniqueness: PhantomData }
    }
}

impl<T: PathTuple> FieldPathSet<T, UniquePaths> {
    /// Marks the paths as possibly aliasing.
    pub fn downgrade(self) -> (r: FieldPathSet<T, AliasedPaths>)
        ensures
            r.paths() == self.paths(),
    {
        FieldPathSet { paths: self.paths, uniqueness: PhantomData }
    }
}

impl<T: IsSingleFieldPath, U: Uniqueness> FieldPathSet<(T,), U> {
    /// Unwraps the only path of the set.
    pub fn to_path(self) -> (r: T)
        ensures
            r == self.paths().0,
    {
        self.paths.0
    }

    /// Unwraps the only path of the set.
    pub fn into_path(self) -> (r: T)
        ensures
            r == self.paths().0,
    {
        self.paths.0
    }
}

impl<T: PathTuple, U: Uniqueness> IsMultiFieldPath for FieldPathSet<T, U> {
    type PathUniqueness = U;
}

/// Several fields inside a nested field: `nested` is the path to the nested
/// field, and `set` the paths of the fields inside it.
pub struct NestedFieldPathSet<F, S: PathTuple, U: Uniqueness> {
    nested: F,
    set: FieldPathSet<S, U>,
}

impl<F: Copy, S: PathTuple + Copy, U: Uniqueness> Clone for NestedFieldPathSet<F, S, U> {
    fn clone(&self) -> (r: Self)
        ensures
            r == *self,
    {
        *self
    }
}

impl<F: Copy, S: PathTuple + Copy, U: Uniqueness> Copy for NestedFieldPathSet<F, S, U> {}

impl<F: Default, S: PathTuple + Default> Default for NestedFieldPathSet<F, S, AliasedPaths> {
    fn default() -> (r: Self)
        ensures
            F::default.ensures((), r.nested()),
            S::default.ensures((), r.set().paths()),
    {
        NestedFieldPathSet::new(F::default(), FieldPathSet::many(S::default()))
    }
}

impl<F, S: PathTuple, U: Uniqueness> NestedFieldPathSet<F, S, U> {
    /// The path to the nested field.
    pub closed spec fn nested(self) -> F {
        self.nested
    }

    /// The set of paths inside the nested field.
    pub closed spec fn set(self) -> FieldPathSet<S, U> {
        self.set
    }

    /// Constructs a `NestedFieldPathSet` from the path to the nested field and the set
    /// of paths inside it.
    pub fn new(nested: F, set: FieldPathSet<S, U>) -> (r: Self)
        ensures
            r.nested() == nested,
            r.set() == set,
    {
        NestedFieldPathSet { nested, set }
    }

    /// Unwraps the path to the nested field and the set of paths inside it.
    pub fn into_inner(self) -> (r: (F, FieldPathSet<S, U>))
        ensures
            r.0 == self.nested(),
            r.1 == self.set(),
    {
        (self.nested, self.set)
    }

    /// Unwraps the path to the nested field.
    pub fn into_nested(self) -> (r: F)
        ensures
            r == self.nested(),
    {
        self.nested
    }

    /// Unwraps the set of paths inside the nested field.
    pub fn into_set(self) -> (r: FieldPathSet<S, U>)
        ensures
            r == self.set(),
    {
        self.set
    }
}

impl<F, S: PathTuple> NestedFieldPathSet<F, S, AliasedPaths> {
    /// Marks the paths inside the nested field as not aliasing.
    ///
    /// No path of the set may be a prefix of another one.
    pub fn upgrade_unchecked(self) -> (r: NestedFieldPathSet<F, S, UniquePaths>)
        requires
            paths_are_unique(self.set().paths().paths_view()),
        ensures
            r.nested() == self.nested(),
            r.set().paths() == self.set().paths(),
    {
        NestedFieldPathSet { nested: self.nested, set: self.set.upgrade_unchecked() }
    }

    /// Changes the uniqueness marker of the set of paths inside the nested field.
    ///
    /// If `U2` is [`UniquePaths`], no path of the set may be a prefix of another one.
    pub fn set_uniqueness<U2: Uniqueness>(self) -> (r: NestedFieldPathSet<F, S, U2>)
        requires
            U2::demands_unique() ==> paths_are_unique(self.set().paths().paths_view()),
        ensures
            r.nested() == self.nested(),
            r.set().paths() == self.set().paths(),
    {
        NestedFieldPathSet { nested: self.nested, set: self.set.set_uniqueness() }
    }
}

impl<F, S: PathTuple> NestedFieldPathSet<F, S, UniquePaths> {
    /// Marks the paths inside the nested field as possibly aliasing.
    pub fn downgrade(self) -> (r: NestedFieldPathSet<F, S, AliasedPaths>)
        ensures
            r.nested() == self.nested(),
            r.set().paths() == self.set().paths(),
    {
        NestedFieldPathSet { nested: self.nested, set: self.set.downgrade() }
    }
}

impl<F, S: PathTuple, U: Uniqueness> IsMultiFieldPath for NestedFieldPathSet<F, S, U> {
    type PathUniqueness = U;
}

////////////////////////////////////////////////////////////////////////////////
// Conversions between a path and a one-element path or set of paths.

impl<S> From<FieldPath<(TStr<S>,)>> for TStr<S> {
    fn from(this: FieldPath<(TStr<S>,)>) -> (r: Self) {
        this.list.0
    }
}

impl<S> vstd::std_specs::convert::FromSpecImpl<FieldPath<(TStr<S>,)>> for TStr<S> {
    open spec fn obeys_from_spec() -> bool {
        true
    }

    open spec fn from_spec(v: FieldPath<(TStr<S>,)>) -> TStr<S> {
        v.list.0
    }
}

impl<S> From<TStr<S>> for FieldPath<(TStr<S>,)> {
    fn from(this: TStr<S>) -> (r: Self) {
        FieldPath::one(this)
    }
}

impl<S> vstd::std_specs::convert::FromSpecImpl<TStr<S>> for FieldPath<(TStr<S>,)> {
    open spec fn obeys_from_spec() -> bool {
        true
    }

    open spec fn from_spec(v: TStr<S>) -> FieldPath<(TStr<S>,)> {
        FieldPath { list: (v,) }
    }
}

impl<T, U: Uniqueness> From<FieldPathSet<(FieldPath<T>,), U>> for FieldPath<T> where FieldPath<T>: IsSingleFieldPath {
    fn from(this: FieldPathSet<(FieldPath<T>,), U>) -> (r: Self) {
        this.into_path()
    }
}

impl<T, U: Uniqueness> vstd::std_specs::convert::FromSpecImpl<FieldPathSet<(FieldPath<T>,), U>> for FieldPath<T> where FieldPath<T>: IsSingleFieldPath {
    open spec fn obeys_from_spec() -> bool {
        true
    }

    open spec fn from_spec(v: FieldPathSet<(FieldPath<T>,), U>) -> FieldPath<T> {
        v.paths().0
    }
}

impl<P> From<FieldPath<P>> for FieldPathSet<(FieldPath<P>,), UniquePaths> where FieldPath<P>: IsSingleFieldPath {
    fn from(this: FieldPath<P>) -> (r: Self)
        ensures
            r.paths() == (this,),
    {
        FieldPathSet::one(this)
    }
}

impl<P> vstd::std_specs::convert::FromSpecImpl<FieldPath<P>> for FieldPathSet<(FieldPath<P>,), UniquePaths> where FieldPath<P>: IsSingleFieldPath {
    open spec fn obeys_from_spec() -> bool {
        true
    }

    closed spec fn from_spec(v: FieldPath<P>) -> FieldPathSet<(FieldPath<P>,), UniquePaths> {
        FieldPathSet { paths: (v,), uniqueness: PhantomData }
    }
}

} // verus!
