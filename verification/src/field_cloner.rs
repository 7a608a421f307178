//! [`FieldCloner`]: by-value access to fields that copies them out of a borrowed value.
use crate::field::{
    FieldType, GetFieldImpl, GetFieldMutImpl, GetVariantField, InfallibleAccess, IntoFieldImpl,
    IntoVariantField,
};
use crate::enums::IsVariant;
use crate::field_path::TStr;
use vstd::prelude::*;

verus! {

/// Wraps a value, delegating the fields of the wrapper to it, so that taking a
/// field by value copies the field out of the wrapped value.
///
/// Useful with a reference: `FieldCloner(&x).into_field(path)` gives a copy of the
/// field of `x` that `path` names, leaving `x` untouched.
#[derive(Debug, Default, Copy, Clone, PartialEq, Eq, PartialOrd, Ord, Hash)]
pub struct FieldCloner<T>(pub T);

impl<T> FieldCloner<T> {
    /// Wraps a reference to the wrapped value.
    pub fn as_ref(&self) -> (r: FieldCloner<&T>)
        ensures
            *r.0 == self.0,
    {
        FieldCloner(&self.0)
    }

    /// Wraps a mutable reference to the wrapped value.
    pub fn as_mut(&mut self) -> (r: FieldCloner<&mut T>)
        ensures
            *r.0 == old(self).0,
            final(self).0 == *final(r.0),
    {
        FieldCloner(&mut self.0)
    }

    /// Transforms the wrapped value with `f`.
    pub fn map<F, U>(self, f: F) -> (r: FieldCloner<U>) where F: FnOnce(T) -> U
        requires
            f.requires((self.0,)),
        ensures
            f.ensures((self.0,), r.0),
    {
        FieldCloner(f(self.0))
    }

    /// Calls `f` with the wrapper, wrapping what it returns.
    pub fn then<F, U>(self, f: F) -> (r: FieldCloner<U>) where F: FnOnce(Self) -> U
        requires
            f.requires((self,)),
        ensures
            f.ensures((self,), r.0),
    {
        FieldCloner(f(self))
    }
}

/// Mapping with a function that returns its argument gives back the same
/// wrapper.
///
/// `mapped` is what `c.map(f)` gives.
pub proof fn lemma_map_identity<T, F>(c: FieldCloner<T>, f: F, mapped: FieldCloner<T>) where
    F: FnOnce(T) -> T,

    requires
        forall|x: T, y: T| #[trigger] f.ensures((x,), y) ==> y == x,
        f.ensures((c.0,), mapped.0),
    ensures
        mapped == c,
{
}

/// Mapping with `f` and then with `g` gives what mapping once with their
/// composition `h` gives, when the three functions are deterministic (each
/// result is the spec function `sf`, `sg`, and `sg` after `sf` of its argument).
///
/// `once` is what `c.map(f)` gives, `twice` what `once.map(g)` gives, and
/// `composed` what `c.map(h)` gives.
pub proof fn lemma_map_composes<T, U, W, F, G, H>(
    c: FieldCloner<T>,
    f: F,
    g: G,
    h: H,
    sf: spec_fn(T) -> U,
    sg: spec_fn(U) -> W,
    once: FieldCloner<U>,
    twice: FieldCloner<W>,
    composed: FieldCloner<W>,
) where F: FnOnce(T) -> U, G: FnOnce(U) -> W, H: FnOnce(T) -> W
    requires
        forall|x: T, y: U| #[trigger] f.ensures((x,), y) ==> y == sf(x),
        forall|x: U, y: W| #[trigger] g.ensures((x,), y) ==> y == sg(x),
        forall|x: T, y: W| #[trigger] h.ensures((x,), y) ==> y == sg(sf(x)),
        f.ensures((c.0,), once.0),
        g.ensures((once.0,), twice.0),
        h.ensures((c.0,), composed.0),
    ensures
        twice == composed,
        twice == FieldCloner(sg(sf(c.0))),
{
}

/// Calling `k` on the wrapper, where `k` applies `f` to the wrapped value,
/// gives what mapping with `f` gives, when `f` is deterministic (its result is
/// the spec function `sf` of its argument).
///
/// `via_wrapper` is what the call of `k` on `c` gives (wrapped), and `via_map`
/// what `c.map(f)` gives.
pub proof fn lemma_wrapper_call_is_map<T, U, F, K>(
    c: FieldCloner<T>,
    f: F,
    k: K,
    sf: spec_fn(T) -> U,
    via_wrapper: FieldCloner<U>,
    via_map: FieldCloner<U>,
) where F: FnOnce(T) -> U, K: FnOnce(FieldCloner<T>) -> U
    requires
        forall|x: T, y: U| #[trigger] f.ensures((x,), y) ==> y == sf(x),
        forall|w: FieldCloner<T>, y: U| #[trigger] k.ensures((w,), y) ==> y == sf(w.0),
        k.ensures((c,), via_wrapper.0),
        f.ensures((c.0,), via_map.0),
    ensures
        via_wrapper == via_map,
{
}

/// A `FieldCloner` gives the fields of the value it wraps: shared access
/// reads the wrapped value's field, and a write sets the wrapped value's field.
pub proof fn lemma_field_cloner_delegates<T: GetFieldMutImpl<P>, P>(
    c: FieldCloner<T>,
    new: FieldCloner<T>,
    v: T::Ty,
)
    ensures
        <FieldCloner<T> as GetFieldImpl<P>>::get_field_spec(&c) == c.0.get_field_spec(),
        <FieldCloner<T> as GetFieldMutImpl<P>>::field_updated(&c, &new, v) <==> T::field_updated(
            &c.0,
            &new.0,
            v,
        ),
{
}

impl<T: FieldType<P>, P> FieldType<P> for FieldCloner<T> {
    type Ty = T::Ty;
}

impl<T: GetFieldImpl<P>, P> GetFieldImpl<P> for FieldCloner<T> {
    type Error = T::Error;

    open spec fn get_field_spec(&self) -> Result<&T::Ty, T::Error> {
        self.0.get_field_spec()
    }

    fn get_field_(&self, path: P) -> (r: Result<&T::Ty, T::Error>) {
        self.0.get_field_(path)
    }
}

impl<T: GetFieldMutImpl<P>, P> GetFieldMutImpl<P> for FieldCloner<T> {
    open spec fn field_updated(old: &Self, new: &Self, v: T::Ty) -> bool {
        T::field_updated(&old.0, &new.0, v)
    }

    open spec fn unchanged(old: &Self, new: &Self) -> bool {
        T::unchanged(&old.0, &new.0)
    }

    proof fn lemma_read_after_write(old: &Self, new: &Self, v: T::Ty) {
        T::lemma_read_after_write(&old.0, &new.0, v);
    }

    proof fn lemma_unchanged_reads_same(old: &Self, new: &Self) {
        T::lemma_unchanged_reads_same(&old.0, &new.0);
    }

    fn get_field_mut_(&mut self, path: P) -> (r: Result<&mut T::Ty, T::Error>) {
        self.0.get_field_mut_(path)
    }
}

/// Taking a field by value copies it out of the wrapped value.
impl<T: GetFieldImpl<P, Error = InfallibleAccess>, P> IntoFieldImpl<P> for FieldCloner<T> where
    T::Ty: Copy,
 {
    fn into_field_(self, path: P) -> (r: Result<T::Ty, InfallibleAccess>) {
        match self.0.get_field_(path) {
            Ok(x) => Ok(*x),
            Err(e) => Err(e),
        }
    }
}

impl<T: IsVariant<TStr<V>>, V> IsVariant<TStr<V>> for FieldCloner<T> {
    open spec fn is_variant_spec(&self) -> bool {
        self.0.is_variant_spec()
    }

    fn is_variant_(&self, variant: TStr<V>) -> (r: bool) {
        self.0.is_variant_(variant)
    }
}

impl<T: GetVariantField<TStr<V>, F>, V, F> GetVariantField<TStr<V>, F> for FieldCloner<T> {
    open spec fn get_vfield_spec(&self) -> Option<&T::Ty> {
        self.0.get_vfield_spec()
    }

    proof fn lemma_vfield_iff_variant(&self) {
        self.0.lemma_vfield_iff_variant();
    }

    fn get_vfield_(&self, variant: TStr<V>, field: F) -> (r: Option<&T::Ty>) {
        self.0.get_vfield_(variant, field)
    }
}

/// Taking a variant's field by value copies it out of the wrapped value.
impl<T: GetVariantField<TStr<V>, F>, V, F> IntoVariantField<TStr<V>, F> for FieldCloner<T> where
    T::Ty: Copy,
 {
    fn into_vfield_(self, variant: TStr<V>, field: F) -> (r: Option<T::Ty>) {
        match self.0.get_vfield_(variant, field) {
            Some(x) => Some(*x),
            None => None,
        }
    }
}

} // verus!
