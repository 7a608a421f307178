//! Traits implemented by field paths, accessing a field of the type passed in.
//!
//! The `Rev*` traits turn the accessor traits around: where
//! `This: GetFieldImpl<P>` accesses the field `P` of `This`,
//! `P: RevGetFieldImpl<This>` does the same, and is also implemented by nested
//! paths ([`FieldPath`]), whose access chains the access of each component and
//! combines their errors with [`CombinedErrs`].
use crate::field::errors::{CombinedErrs, FailedAccess, IntoFieldErr, IsFieldErr};
use crate::field::{
    FieldType, GetFieldImpl, GetFieldMutImpl, GetVariantField, GetVariantFieldMut, IntoFieldImpl,
    IntoVariantField,
};
use crate::field_path::{
    FieldPath, FieldPathSet, IsSingleFieldPath, NestedFieldPathSet, TStr, Uniqueness, VariantField,
};
use vstd::prelude::*;

verus! {

/// The type of the field that the path `Self` names inside `This`.
pub trait RevFieldType<This: ?Sized> {
    type Ty;
}

/// Shared access to the field that the path `Self` names inside `This`.
///
/// `rev_get_field_spec` is what `rev_get_field` returns.
pub trait RevGetFieldImpl<'a, This: ?Sized + 'a>: RevFieldType<This> + Sized {
    type Error: IsFieldErr;

    spec fn rev_get_field_spec(self, this: &This) -> Result<&Self::Ty, Self::Error>;

    fn rev_get_field(self, this: &'a This) -> (r: Result<&'a Self::Ty, Self::Error>)
        ensures
            r == self.rev_get_field_spec(this),
    ;
}

/// Mutable access to the field that the path `Self` names inside `This`.
///
/// `rev_field_updated(old, new, v)` holds when `new` is `old` with the field set
/// to `v` (and nothing else changed); `rev_unchanged(old, new)` when the write
/// left the field as it was.
pub trait RevGetFieldMutImpl<'a, This: ?Sized + 'a>: RevGetFieldImpl<'a, This> {
    spec fn rev_field_updated(self, old: &This, new: &This, v: Self::Ty) -> bool;

    spec fn rev_unchanged(self, old: &This, new: &This) -> bool;

    /// A read after a write gives back what the write wrote.
    proof fn lemma_rev_read_after_write(self, old: &This, new: &This, v: Self::Ty)
        requires
            self.rev_field_updated(old, new, v),
        ensures
            self.rev_get_field_spec(new) == Ok::<&Self::Ty, Self::Error>(&v),
    ;

    /// When the field is left as it was, a read gives what it gave before.
    proof fn lemma_rev_unchanged_reads_same(self, old: &This, new: &This)
        requires
            self.rev_unchanged(old, new),
        ensures
            self.rev_get_field_spec(new) == self.rev_get_field_spec(old),
    ;

    fn rev_get_field_mut(self, this: &'a mut This) -> (r: Result<&'a mut Self::Ty, Self::Error>)
        ensures
            match r {
                Ok(x) => {
                    &&& self.rev_get_field_spec(&*old(this)) == Ok::<&Self::Ty, Self::Error>(&*x)
                    &&& self.rev_field_updated(&*old(this), &*final(this), *final(x))
                },
                Err(e) => {
                    &&& self.rev_get_field_spec(&*old(this)) == Err::<&Self::Ty, Self::Error>(e)
                    &&& self.rev_unchanged(&*old(this), &*final(this))
                },
            },
    ;
}

/// By-value access to the field that the path `Self` names inside `This`:
/// it gives what shared access gives.
pub trait RevIntoFieldImpl<'a, This: 'a>: RevGetFieldImpl<'a, This> {
    fn rev_into_field(self, this: This) -> (r: Result<Self::Ty, Self::Error>)
        ensures
            match (r, self.rev_get_field_spec(&this)) {
                (Ok(x), Ok(y)) => x == *y,
                (Err(e), Err(f)) => e == f,
                _ => false,
            },
    ;
}

/// The type of the field that `Path` names inside `This`.
pub type RevGetFieldType<Path, This> = <Path as RevFieldType<This>>::Ty;

////////////////////////////////////////////////////////////////////////////////
// A field name: the access of the field's accessor trait.

impl<This: ?Sized + FieldType<TStr<T>>, T> RevFieldType<This> for TStr<T> {
    type Ty = This::Ty;
}

impl<'a, This: ?Sized + 'a + GetFieldImpl<TStr<T>>, T> RevGetFieldImpl<'a, This> for TStr<T> where
    This::Ty: 'a,
 {
    type Error = This::Error;

    open spec fn rev_get_field_spec(self, this: &This) -> Result<&This::Ty, This::Error> {
        this.get_field_spec()
    }

    fn rev_get_field(self, this: &'a This) -> (r: Result<&'a This::Ty, This::Error>) {
        this.get_field_(self)
    }
}

impl<'a, This: ?Sized + 'a + GetFieldMutImpl<TStr<T>>, T> RevGetFieldMutImpl<'a, This> for TStr<
    T,
> where This::Ty: 'a {
    open spec fn rev_field_updated(self, old: &This, new: &This, v: This::Ty) -> bool {
        This::field_updated(old, new, v)
    }

    open spec fn rev_unchanged(self, old: &This, new: &This) -> bool {
        This::unchanged(old, new)
    }

    proof fn lemma_rev_read_after_write(self, old: &This, new: &This, v: This::Ty) {
        This::lemma_read_after_write(old, new, v);
    }

    proof fn lemma_rev_unchanged_reads_same(self, old: &This, new: &This) {
        This::lemma_unchanged_reads_same(old, new);
    }

    fn rev_get_field_mut(self, this: &'a mut This) -> (r: Result<&'a mut This::Ty, This::Error>) {
        this.get_field_mut_(self)
    }
}

impl<'a, This: 'a + IntoFieldImpl<TStr<T>>, T> RevIntoFieldImpl<'a, This> for TStr<T> where
    This::Ty: 'a,
 {
    fn rev_into_field(self, this: This) -> (r: Result<This::Ty, This::Error>) {
        this.into_field_(self)
    }
}

////////////////////////////////////////////////////////////////////////////////
// A field inside an enum variant: absent when the enum is another variant.

impl<This: ?Sized + FieldType<VariantField<V, F>>, V, F> RevFieldType<This> for VariantField<V, F> {
    type Ty = This::Ty;
}

impl<'a, This: ?Sized + 'a + GetVariantField<V, F>, V, F> RevGetFieldImpl<'a, This> for VariantField<
    V,
    F,
> where This::Ty: 'a {
    type Error = FailedAccess;

    open spec fn rev_get_field_spec(self, this: &This) -> Result<&This::Ty, FailedAccess> {
        match this.get_vfield_spec() {
            Some(x) => Ok(x),
            None => Err(FailedAccess),
        }
    }

    fn rev_get_field(self, this: &'a This) -> (r: Result<&'a This::Ty, FailedAccess>) {
        match this.get_vfield_(self.variant, self.field) {
            Some(x) => Ok(x),
            None => Err(FailedAccess),
        }
    }
}

impl<'a, This: 'a + GetVariantFieldMut<V, F>, V, F> RevGetFieldMutImpl<'a, This> for VariantField<
    V,
    F,
> where This::Ty: 'a {
    open spec fn rev_field_updated(self, old: &This, new: &This, v: This::Ty) -> bool {
        This::vfield_updated(old, new, v)
    }

    open spec fn rev_unchanged(self, old: &This, new: &This) -> bool {
        This::vfield_unchanged(old, new)
    }

    proof fn lemma_rev_read_after_write(self, old: &This, new: &This, v: This::Ty) {
        This::lemma_read_after_write(old, new, v);
    }

    proof fn lemma_rev_unchanged_reads_same(self, old: &This, new: &This) {
        This::lemma_vfield_unchanged_reads_same(old, new);
    }

    fn rev_get_field_mut(self, this: &'a mut This) -> (r: Result<&'a mut This::Ty, FailedAccess>) {
        match this.get_vfield_mut_(self.variant, self.field) {
            Some(x) => Ok(x),
            None => Err(FailedAccess),
        }
    }
}

impl<'a, This: 'a + IntoVariantField<V, F>, V, F> RevIntoFieldImpl<'a, This> for VariantField<
    V,
    F,
> where This::Ty: 'a {
    fn rev_into_field(self, this: This) -> (r: Result<This::Ty, FailedAccess>) {
        match this.into_vfield_(self.variant, self.field) {
            Some(x) => Ok(x),
            None => Err(FailedAccess),
        }
    }
}

////////////////////////////////////////////////////////////////////////////////
// A nested path of one component: the access of that component.

impl<This: ?Sized, A: RevFieldType<This>> RevFieldType<This> for FieldPath<(A,)> {
    type Ty = A::Ty;
}

impl<'a, This: ?Sized + 'a, A: RevGetFieldImpl<'a, This>> RevGetFieldImpl<'a, This> for FieldPath<
    (A,),
> {
    type Error = A::Error;

    open spec fn rev_get_field_spec(self, this: &This) -> Result<&A::Ty, A::Error> {
        self.list.0.rev_get_field_spec(this)
    }

    fn rev_get_field(self, this: &'a This) -> (r: Result<&'a A::Ty, A::Error>) {
        self.list.0.rev_get_field(this)
    }
}

impl<'a, This: ?Sized + 'a, A: RevGetFieldMutImpl<'a, This>> RevGetFieldMutImpl<'a, This> for FieldPath<
    (A,),
> {
    open spec fn rev_field_updated(self, old: &This, new: &This, v: A::Ty) -> bool {
        self.list.0.rev_field_updated(old, new, v)
    }

    open spec fn rev_unchanged(self, old: &This, new: &This) -> bool {
        self.list.0.rev_unchanged(old, new)
    }

    proof fn lemma_rev_read_after_write(self, old: &This, new: &This, v: A::Ty) {
        self.list.0.lemma_rev_read_after_write(old, new, v);
    }

    proof fn lemma_rev_unchanged_reads_same(self, old: &This, new: &This) {
        self.list.0.lemma_rev_unchanged_reads_same(old, new);
    }

    fn rev_get_field_mut(self, this: &'a mut This) -> (r: Result<&'a mut A::Ty, A::Error>) {
        self.list.0.rev_get_field_mut(this)
    }
}

impl<'a, This: 'a, A: RevIntoFieldImpl<'a, This>> RevIntoFieldImpl<'a, This> for FieldPath<(A,)> {
    fn rev_into_field(self, this: This) -> (r: Result<A::Ty, A::Error>) {
        self.list.0.rev_into_field(this)
    }
}

////////////////////////////////////////////////////////////////////////////////
// A nested path of two components: the second component's access applied to
// the field that the first one gives.

impl<This: ?Sized, A, B> RevFieldType<This> for FieldPath<(A, B)> where
    A: RevFieldType<This>,
    B: RevFieldType<A::Ty>,
 {
    type Ty = B::Ty;
}

impl<'a, This: ?Sized + 'a, A, B> RevGetFieldImpl<'a, This> for FieldPath<(A, B)> where
    A: RevGetFieldImpl<'a, This>,
    A::Ty: 'a,
    B: RevGetFieldImpl<'a, A::Ty>,
    (A::Error, B::Error): CombinedErrs,
    A::Error: IntoFieldErr<<(A::Error, B::Error) as CombinedErrs>::Combined>,
    B::Error: IntoFieldErr<<(A::Error, B::Error) as CombinedErrs>::Combined>,
 {
    type Error = <(A::Error, B::Error) as CombinedErrs>::Combined;

    open spec fn rev_get_field_spec(self, this: &This) -> Result<&Self::Ty, Self::Error> {
        match self.list.0.rev_get_field_spec(this) {
            Ok(mid) => match self.list.1.rev_get_field_spec(mid) {
                Ok(x) => Ok(x),
                Err(e) => Err(<B::Error as IntoFieldErr<Self::Error>>::into_field_err_spec(e)),
            },
            Err(e) => Err(<A::Error as IntoFieldErr<Self::Error>>::into_field_err_spec(e)),
        }
    }

    fn rev_get_field(self, this: &'a This) -> (r: Result<&'a Self::Ty, Self::Error>) {
        let (a, b) = self.list;
        match a.rev_get_field(this) {
            Ok(mid) => match b.rev_get_field(mid) {
                Ok(x) => Ok(x),
                Err(e) => Err(<B::Error as IntoFieldErr<Self::Error>>::into_field_err(e)),
            },
            Err(e) => Err(<A::Error as IntoFieldErr<Self::Error>>::into_field_err(e)),
        }
    }
}

impl<'a, This: ?Sized + 'a, A, B> RevGetFieldMutImpl<'a, This> for FieldPath<(A, B)> where
    A: RevGetFieldMutImpl<'a, This>,
    A::Ty: 'a,
    B: RevGetFieldMutImpl<'a, A::Ty>,
    (A::Error, B::Error): CombinedErrs,
    A::Error: IntoFieldErr<<(A::Error, B::Error) as CombinedErrs>::Combined>,
    B::Error: IntoFieldErr<<(A::Error, B::Error) as CombinedErrs>::Combined>,
 {
    open spec fn rev_field_updated(self, old: &This, new: &This, v: Self::Ty) -> bool {
        match self.list.0.rev_get_field_spec(old) {
            Ok(mid) => exists|m: A::Ty|
                self.list.0.rev_field_updated(old, new, m) && #[trigger] self.list.1.rev_field_updated(
                    mid,
                    &m,
                    v,
                ),
            Err(_) => false,
        }
    }

    open spec fn rev_unchanged(self, old: &This, new: &This) -> bool {
        ||| self.list.0.rev_unchanged(old, new)
        ||| match self.list.0.rev_get_field_spec(old) {
            Ok(mid) => exists|m: A::Ty|
                self.list.0.rev_field_updated(old, new, m) && #[trigger] self.list.1.rev_unchanged(
                    mid,
                    &m,
                ),
            Err(_) => false,
        }
    }

    proof fn lemma_rev_read_after_write(self, old: &This, new: &This, v: Self::Ty) {
        let mid = self.list.0.rev_get_field_spec(old)->Ok_0;
        let m = choose|m: A::Ty|
            self.list.0.rev_field_updated(old, new, m) && #[trigger] self.list.1.rev_field_updated(
                mid,
                &m,
                v,
            );
        self.list.0.lemma_rev_read_after_write(old, new, m);
        self.list.1.lemma_rev_read_after_write(mid, &m, v);
    }

    proof fn lemma_rev_unchanged_reads_same(self, old: &This, new: &This) {
        if self.list.0.rev_unchanged(old, new) {
            self.list.0.lemma_rev_unchanged_reads_same(old, new);
        } else {
            let mid = self.list.0.rev_get_field_spec(old)->Ok_0;
            let m = choose|m: A::Ty|
                self.list.0.rev_field_updated(old, new, m) && #[trigger] self.list.1.rev_unchanged(
                    mid,
                    &m,
                );
            self.list.0.lemma_rev_read_after_write(old, new, m);
            self.list.1.lemma_rev_unchanged_reads_same(mid, &m);
        }
    }

    fn rev_get_field_mut(self, this: &'a mut This) -> (r: Result<&'a mut Self::Ty, Self::Error>) {
        let (a, b) = self.list;
        match a.rev_get_field_mut(this) {
            Ok(mid) => {
                let ghost old_mid = *mid;
                let ghost final_mid = *final(mid);
                match b.rev_get_field_mut(mid) {
                    Ok(x) => {
                        proof {
                            assert(self.list.1.rev_field_updated(&old_mid, &final_mid, *final(x)));
                        }
                        Ok(x)
                    },
                    Err(e) => {
                        proof {
                            assert(self.list.1.rev_unchanged(&old_mid, &final_mid));
                        }
                        Err(<B::Error as IntoFieldErr<Self::Error>>::into_field_err(e))
                    },
                }
            },
            Err(e) => Err(<A::Error as IntoFieldErr<Self::Error>>::into_field_err(e)),
        }
    }
}

impl<'a, This: 'a, A, B> RevIntoFieldImpl<'a, This> for FieldPath<(A, B)> where
    A: RevIntoFieldImpl<'a, This>,
    A::Ty: 'a,
    B: RevIntoFieldImpl<'a, A::Ty>,
    (A::Error, B::Error): CombinedErrs,
    A::Error: IntoFieldErr<<(A::Error, B::Error) as CombinedErrs>::Combined>,
    B::Error: IntoFieldErr<<(A::Error, B::Error) as CombinedErrs>::Combined>,
 {
    fn rev_into_field(self, this: This) -> (r: Result<Self::Ty, Self::Error>) {
        let (a, b) = self.list;
        match a.rev_into_field(this) {
            Ok(mid) => match b.rev_into_field(mid) {
                Ok(x) => Ok(x),
                Err(e) => Err(<B::Error as IntoFieldErr<Self::Error>>::into_field_err(e)),
            },
            Err(e) => Err(<A::Error as IntoFieldErr<Self::Error>>::into_field_err(e)),
        }
    }
}

////////////////////////////////////////////////////////////////////////////////
// A nested path of 3 components: the first component, then the path of the others.

impl<This: ?Sized, A, B, C> RevFieldType<This> for FieldPath<(A, B, C)> where
    FieldPath<(A, FieldPath<(B, C)>)>: RevFieldType<This>,
 {
    type Ty = <FieldPath<(A, FieldPath<(B, C)>)> as RevFieldType<This>>::Ty;
}

impl<'a, This: ?Sized + 'a, A, B, C> RevGetFieldImpl<'a, This> for FieldPath<(A, B, C)> where
    FieldPath<(A, FieldPath<(B, C)>)>: RevGetFieldImpl<'a, This>,
 {
    type Error = <FieldPath<(A, FieldPath<(B, C)>)> as RevGetFieldImpl<'a, This>>::Error;

    open spec fn rev_get_field_spec(self, this: &This) -> Result<&Self::Ty, Self::Error> {
        let path = FieldPath { list: (self.list.0, FieldPath { list: (self.list.1, self.list.2) }) };
        path.rev_get_field_spec(this)
    }

    fn rev_get_field(self, this: &'a This) -> (r: Result<&'a Self::Ty, Self::Error>) {
        let path = FieldPath::many((self.list.0, FieldPath::many((self.list.1, self.list.2))));
        path.rev_get_field(this)
    }
}

impl<'a, This: ?Sized + 'a, A, B, C> RevGetFieldMutImpl<'a, This> for FieldPath<(A, B, C)> where
    FieldPath<(A, FieldPath<(B, C)>)>: RevGetFieldMutImpl<'a, This>,
 {
    open spec fn rev_field_updated(self, old: &This, new: &This, v: Self::Ty) -> bool {
        let path = FieldPath { list: (self.list.0, FieldPath { list: (self.list.1, self.list.2) }) };
        path.rev_field_updated(old, new, v)
    }

    open spec fn rev_unchanged(self, old: &This, new: &This) -> bool {
        let path = FieldPath { list: (self.list.0, FieldPath { list: (self.list.1, self.list.2) }) };
        path.rev_unchanged(old, new)
    }

    proof fn lemma_rev_read_after_write(self, old: &This, new: &This, v: Self::Ty) {
        let path = FieldPath { list: (self.list.0, FieldPath { list: (self.list.1, self.list.2) }) };
        path.lemma_rev_read_after_write(old, new, v);
    }

    proof fn lemma_rev_unchanged_reads_same(self, old: &This, new: &This) {
        let path = FieldPath { list: (self.list.0, FieldPath { list: (self.list.1, self.list.2) }) };
        path.lemma_rev_unchanged_reads_same(old, new);
    }

    fn rev_get_field_mut(self, this: &'a mut This) -> (r: Result<&'a mut Self::Ty, Self::Error>) {
        let path = FieldPath::many((self.list.0, FieldPath::many((self.list.1, self.list.2))));
        path.rev_get_field_mut(this)
    }
}

impl<'a, This: 'a, A, B, C> RevIntoFieldImpl<'a, This> for FieldPath<(A, B, C)> where
    FieldPath<(A, FieldPath<(B, C)>)>: RevIntoFieldImpl<'a, This>,
 {
    fn rev_into_field(self, this: This) -> (r: Result<Self::Ty, Self::Error>) {
        let path = FieldPath::many((self.list.0, FieldPath::many((self.list.1, self.list.2))));
        path.rev_into_field(this)
    }
}

////////////////////////////////////////////////////////////////////////////////
// A nested path of 4 components: the first component, then the path of the others.

impl<This: ?Sized, A, B, C, D> RevFieldType<This> for FieldPath<(A, B, C, D)> where
    FieldPath<(A, FieldPath<(B, C, D)>)>: RevFieldType<This>,
 {
    type Ty = <FieldPath<(A, FieldPath<(B, C, D)>)> as RevFieldType<This>>::Ty;
}

impl<'a, This: ?Sized + 'a, A, B, C, D> RevGetFieldImpl<'a, This> for FieldPath<(A, B, C, D)> where
    FieldPath<(A, FieldPath<(B, C, D)>)>: RevGetFieldImpl<'a, This>,
 {
    type Error = <FieldPath<(A, FieldPath<(B, C, D)>)> as RevGetFieldImpl<'a, This>>::Error;

    open spec fn rev_get_field_spec(self, this: &This) -> Result<&Self::Ty, Self::Error> {
        let path = FieldPath { list: (self.list.0, FieldPath { list: (self.list.1, self.list.2, self.list.3) }) };
        path.rev_get_field_spec(this)
    }

    fn rev_get_field(self, this: &'a This) -> (r: Result<&'a Self::Ty, Self::Error>) {
        let path = FieldPath::many((self.list.0, FieldPath::many((self.list.1, self.list.2, self.list.3))));
        path.rev_get_field(this)
    }
}

impl<'a, This: ?Sized + 'a, A, B, C, D> RevGetFieldMutImpl<'a, This> for FieldPath<(A, B, C, D)> where
    FieldPath<(A, FieldPath<(B, C, D)>)>: RevGetFieldMutImpl<'a, This>,
 {
    open spec fn rev_field_updated(self, old: &This, new: &This, v: Self::Ty) -> bool {
        let path = FieldPath { list: (self.list.0, FieldPath { list: (self.list.1, self.list.2, self.list.3) }) };
        path.rev_field_updated(old, new, v)
    }

    open spec fn rev_unchanged(self, old: &This, new: &This) -> bool {
        let path = FieldPath { list: (self.list.0, FieldPath { list: (self.list.1, self.list.2, self.list.3) }) };
        path.rev_unchanged(old, new)
    }

    proof fn lemma_rev_read_after_write(self, old: &This, new: &This, v: Self::Ty) {
        let path = FieldPath { list: (self.list.0, FieldPath { list: (self.list.1, self.list.2, self.list.3) }) };
        path.lemma_rev_read_after_write(old, new, v);
    }

    proof fn lemma_rev_unchanged_reads_same(self, old: &This, new: &This) {
        let path = FieldPath { list: (self.list.0, FieldPath { list: (self.list.1, self.list.2, self.list.3) }) };
        path.lemma_rev_unchanged_reads_same(old, new);
    }

    fn rev_get_field_mut(self, this: &'a mut This) -> (r: Result<&'a mut Self::Ty, Self::Error>) {
        let path = FieldPath::many((self.list.0, FieldPath::many((self.list.1, self.list.2, self.list.3))));
        path.rev_get_field_mut(this)
    }
}

impl<'a, This: 'a, A, B, C, D> RevIntoFieldImpl<'a, This> for FieldPath<(A, B, C, D)> where
    FieldPath<(A, FieldPath<(B, C, D)>)>: RevIntoFieldImpl<'a, This>,
 {
    fn rev_into_field(self, this: This) -> (r: Result<Self::Ty, Self::Error>) {
        let path = FieldPath::many((self.list.0, FieldPath::many((self.list.1, self.list.2, self.list.3))));
        path.rev_into_field(this)
    }
}

////////////////////////////////////////////////////////////////////////////////
// A set of one path: the access of that path.

impl<This: ?Sized, T: IsSingleFieldPath + RevFieldType<This>, U: Uniqueness> RevFieldType<This> for FieldPathSet<
    (T,),
    U,
> {
    type Ty = T::Ty;
}

impl<'a, This: ?Sized + 'a, T, U: Uniqueness> RevGetFieldImpl<'a, This> for FieldPathSet<(T,), U> where
    T: IsSingleFieldPath + RevGetFieldImpl<'a, This>,
 {
    type Error = T::Error;

    open spec fn rev_get_field_spec(self, this: &This) -> Result<&T::Ty, T::Error> {
        self.paths().0.rev_get_field_spec(this)
    }

    fn rev_get_field(self, this: &'a This) -> (r: Result<&'a T::Ty, T::Error>) {
        self.into_path().rev_get_field(this)
    }
}

impl<'a, This: ?Sized + 'a, T, U: Uniqueness> RevGetFieldMutImpl<'a, This> for FieldPathSet<(T,), U> where
    T: IsSingleFieldPath + RevGetFieldMutImpl<'a, This>,
 {
    open spec fn rev_field_updated(self, old: &This, new: &This, v: T::Ty) -> bool {
        self.paths().0.rev_field_updated(old, new, v)
    }

    open spec fn rev_unchanged(self, old: &This, new: &This) -> bool {
        self.paths().0.rev_unchanged(old, new)
    }

    proof fn lemma_rev_read_after_write(self, old: &This, new: &This, v: T::Ty) {
        self.paths().0.lemma_rev_read_after_write(old, new, v);
    }

    proof fn lemma_rev_unchanged_reads_same(self, old: &This, new: &This) {
        self.paths().0.lemma_rev_unchanged_reads_same(old, new);
    }

    fn rev_get_field_mut(self, this: &'a mut This) -> (r: Result<&'a mut T::Ty, T::Error>) {
        self.into_path().rev_get_field_mut(this)
    }
}

impl<'a, This: 'a, T, U: Uniqueness> RevIntoFieldImpl<'a, This> for FieldPathSet<(T,), U> where
    T: IsSingleFieldPath + RevIntoFieldImpl<'a, This>,
 {
    fn rev_into_field(self, this: This) -> (r: Result<T::Ty, T::Error>) {
        self.into_path().rev_into_field(this)
    }
}

////////////////////////////////////////////////////////////////////////////////
// A set of one path inside a nested field: the nested field's access, then
// the path's access inside it.

impl<This: ?Sized, A, B, U: Uniqueness> RevFieldType<This> for NestedFieldPathSet<A, (B,), U> where
    A: RevFieldType<This>,
    B: IsSingleFieldPath + RevFieldType<A::Ty>,
 {
    type Ty = B::Ty;
}

impl<'a, This: ?Sized + 'a, A, B, U: Uniqueness> RevGetFieldImpl<'a, This> for NestedFieldPathSet<
    A,
    (B,),
    U,
> where
    A: RevGetFieldImpl<'a, This>,
    A::Ty: 'a,
    B: IsSingleFieldPath + RevGetFieldImpl<'a, A::Ty>,
    A::Error: IntoFieldErr<B::Error>,
 {
    type Error = B::Error;

    open spec fn rev_get_field_spec(self, this: &This) -> Result<&B::Ty, B::Error> {
        match self.nested().rev_get_field_spec(this) {
            Ok(mid) => self.set().paths().0.rev_get_field_spec(mid),
            Err(e) => Err(e.into_field_err_spec()),
        }
    }

    fn rev_get_field(self, this: &'a This) -> (r: Result<&'a B::Ty, B::Error>) {
        let (nested, set) = self.into_inner();
        match nested.rev_get_field(this) {
            Ok(mid) => set.into_path().rev_get_field(mid),
            Err(e) => Err(e.into_field_err()),
        }
    }
}

impl<'a, This: ?Sized + 'a, A, B, U: Uniqueness> RevGetFieldMutImpl<'a, This> for NestedFieldPathSet<
    A,
    (B,),
    U,
> where
    A: RevGetFieldMutImpl<'a, This>,
    A::Ty: 'a,
    B: IsSingleFieldPath + RevGetFieldMutImpl<'a, A::Ty>,
    A::Error: IntoFieldErr<B::Error>,
 {
    open spec fn rev_field_updated(self, old: &This, new: &This, v: B::Ty) -> bool {
        match self.nested().rev_get_field_spec(old) {
            Ok(mid) => exists|m: A::Ty|
                self.nested().rev_field_updated(old, new, m)
                    && #[trigger] self.set().paths().0.rev_field_updated(mid, &m, v),
            Err(_) => false,
        }
    }

    open spec fn rev_unchanged(self, old: &This, new: &This) -> bool {
        ||| self.nested().rev_unchanged(old, new)
        ||| match self.nested().rev_get_field_spec(old) {
            Ok(mid) => exists|m: A::Ty|
                self.nested().rev_field_updated(old, new, m)
                    && #[trigger] self.set().paths().0.rev_unchanged(mid, &m),
            Err(_) => false,
        }
    }

    proof fn lemma_rev_read_after_write(self, old: &This, new: &This, v: B::Ty) {
        let mid = self.nested().rev_get_field_spec(old)->Ok_0;
        let m = choose|m: A::Ty|
            self.nested().rev_field_updated(old, new, m)
                && #[trigger] self.set().paths().0.rev_field_updated(mid, &m, v);
        self.nested().lemma_rev_read_after_write(old, new, m);
        self.set().paths().0.lemma_rev_read_after_write(mid, &m, v);
    }

    proof fn lemma_rev_unchanged_reads_same(self, old: &This, new: &This) {
        if self.nested().rev_unchanged(old, new) {
            self.nested().lemma_rev_unchanged_reads_same(old, new);
        } else {
            let mid = self.nested().rev_get_field_spec(old)->Ok_0;
            let m = choose|m: A::Ty|
                self.nested().rev_field_updated(old, new, m)
                    && #[trigger] self.set().paths().0.rev_unchanged(mid, &m);
            self.nested().lemma_rev_read_after_write(old, new, m);
            self.set().paths().0.lemma_rev_unchanged_reads_same(mid, &m);
        }
    }

    fn rev_get_field_mut(self, this: &'a mut This) -> (r: Result<&'a mut B::Ty, B::Error>) {
        let (nested, set) = self.into_inner();
        let b = set.into_path();
        match nested.rev_get_field_mut(this) {
            Ok(mid) => {
                let ghost old_mid = *mid;
                let ghost final_mid = *final(mid);
                match b.rev_get_field_mut(mid) {
                    Ok(x) => {
                        proof {
                            assert(b.rev_field_updated(&old_mid, &final_mid, *final(x)));
                        }
                        Ok(x)
                    },
                    Err(e) => {
                        proof {
                            assert(b.rev_unchanged(&old_mid, &final_mid));
                        }
                        Err(e)
                    },
                }
            },
            Err(e) => Err(e.into_field_err()),
        }
    }
}

impl<'a, This: 'a, A, B, U: Uniqueness> RevIntoFieldImpl<'a, This> for NestedFieldPathSet<A, (B,), U> where
    A: RevIntoFieldImpl<'a, This>,
    A::Ty: 'a,
    B: IsSingleFieldPath + RevIntoFieldImpl<'a, A::Ty>,
    A::Error: IntoFieldErr<B::Error>,
 {
    fn rev_into_field(self, this: This) -> (r: Result<B::Ty, B::Error>) {
        let (nested, set) = self.into_inner();
        match nested.rev_into_field(this) {
            Ok(mid) => set.into_path().rev_into_field(mid),
            Err(e) => Err(e.into_field_err()),
        }
    }
}

} // verus!
