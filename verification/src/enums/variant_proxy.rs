//! A wrapper around an enum known to be a given variant.
use crate::enums::IsVariant;
use crate::field::{
    FieldType, GetFieldImpl, GetVariantField, InfallibleAccess, IntoFieldImpl, IntoVariantField,
};
use crate::field_path::{TStr, VariantField};
use std::marker::PhantomData;
use vstd::prelude::*;

verus! {

/// An enum known to be the variant named `V`.
///
/// Its invariant is that the wrapped enum is the `V` variant, so the fields of
/// that variant can be accessed as if they were the fields of a struct:
/// `VariantProxy<T, TStr<V>>` gives infallible access to the field `F` of `T`'s
/// `V` variant.
#[derive(Debug)]
pub struct VariantProxy<T: IsVariant<V>, V> {
    value: T,
    name: PhantomData<V>,
}

impl<T: IsVariant<V>, V> VariantProxy<T, V> {
    #[verifier::type_invariant]
    spec fn is_the_variant(self) -> bool {
        self.value.is_variant_spec()
    }

    /// The wrapped enum.
    pub closed spec fn inner(self) -> T {
        self.value
    }

    /// Wraps an enum that is the `V` variant.
    pub fn new(value: T, name: V) -> (r: Self)
        requires
            value.is_variant_spec(),
        ensures
            r.inner() == value,
    {
        VariantProxy { value, name: PhantomData }
    }

    /// Gets a reference to the wrapped enum, which is the `V` variant.
    pub fn get(&self) -> (r: &T)
        ensures
            *r == self.inner(),
            r.is_variant_spec(),
    {
        proof {
            use_type_invariant(self);
        }
        &self.value
    }

    /// Unwraps the enum, which is the `V` variant.
    pub fn into_inner(self) -> (r: T)
        ensures
            r == self.inner(),
            r.is_variant_spec(),
    {
        proof {
            use_type_invariant(&self);
        }
        self.value
    }
}

impl<T, V, F> FieldType<TStr<F>> for VariantProxy<T, TStr<V>> where
    T: IsVariant<TStr<V>> + FieldType<VariantField<TStr<V>, TStr<F>>>,
 {
    type Ty = <T as FieldType<VariantField<TStr<V>, TStr<F>>>>::Ty;
}

impl<T, V, F> GetFieldImpl<TStr<F>> for VariantProxy<T, TStr<V>> where
    T: GetVariantField<TStr<V>, TStr<F>>,
 {
    type Error = InfallibleAccess;

    open spec fn get_field_spec(&self) -> Result<&Self::Ty, InfallibleAccess> {
        Ok(self.inner().get_vfield_spec()->Some_0)
    }

    fn get_field_(&self, path: TStr<F>) -> (r: Result<&Self::Ty, InfallibleAccess>) {
        proof {
            use_type_invariant(self);
        }
        Ok(self.value.get_vfield_unchecked(TStr::new(), path))
    }
}

/// The field `F` of a `VariantProxy` is the field `F` of the `V` variant of
/// the enum it wraps.
pub proof fn lemma_variant_proxy_fields<T: GetVariantField<TStr<V>, TStr<F>>, V, F>(
    p: VariantProxy<T, TStr<V>>,
)
    ensures
        p.inner().get_vfield_spec() is Some ==> <VariantProxy<T, TStr<V>> as GetFieldImpl<
            TStr<F>,
        >>::get_field_spec(&p) == Ok::<&T::Ty, InfallibleAccess>(p.inner().get_vfield_spec()->Some_0),
{
}

impl<T, V, F> IntoFieldImpl<TStr<F>> for VariantProxy<T, TStr<V>> where
    T: IntoVariantField<TStr<V>, TStr<F>>,
 {
    fn into_field_(self, path: TStr<F>) -> (r: Result<Self::Ty, InfallibleAccess>) {
        proof {
            use_type_invariant(&self);
        }
        Ok(self.value.into_vfield_unchecked(TStr::new(), path))
    }
}

/// Conversion of an enum into a [`VariantProxy`].
pub trait EnumExt {
    /// Wraps `self` in a [`VariantProxy`] if it is the `V` variant,
    /// and gives it back otherwise.
    fn into_variant<V>(self, vari: TStr<V>) -> (r: Result<VariantProxy<Self, TStr<V>>, Self>) where
        Self: IsVariant<TStr<V>> + Sized,

        ensures
            match r {
                Ok(p) => self.is_variant_spec() && p.inner() == self,
                Err(s) => !self.is_variant_spec() && s == self,
            },
    {
        if self.is_variant_(vari) {
            Ok(VariantProxy::new(self, vari))
        } else {
            Err(self)
        }
    }

    /// Wraps a reference to `self` in a [`VariantProxy`] if it is the `V` variant,
    /// and gives the reference back otherwise.
    fn as_variant<V>(&self, vari: TStr<V>) -> (r: Result<VariantProxy<&Self, TStr<V>>, &Self>) where
        Self: IsVariant<TStr<V>>,

        ensures
            match r {
                Ok(p) => self.is_variant_spec() && p.inner() == self,
                Err(s) => !self.is_variant_spec() && s == self,
            },
    {
        if self.is_variant_(vari) {
            Ok(VariantProxy::new(self, vari))
        } else {
            Err(self)
        }
    }

    /// Wraps the boxed `self` in a boxed [`VariantProxy`] if it is the `V` variant,
    /// and gives the box back otherwise.
    fn box_into_variant<V>(self: Box<Self>, vari: TStr<V>) -> (r: Result<
        Box<VariantProxy<Self, TStr<V>>>,
        Box<Self>,
    >) where Self: IsVariant<TStr<V>> + Sized
        ensures
            match r {
                Ok(p) => (*self).is_variant_spec() && p.inner() == *self,
                Err(s) => !(*self).is_variant_spec() && s == self,
            },
    {
        if (*self).is_variant_(vari) {
            Ok(Box::new(VariantProxy::new(*self, vari)))
        } else {
            Err(self)
        }
    }
}

impl<This> EnumExt for This {}

} // verus!
