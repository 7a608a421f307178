//! Extending tuples by one element at the end, or by the elements of another
//! tuple: how paths are pushed onto a [`FieldPath`](super::FieldPath) or a
//! [`FieldPathSet`](super::FieldPathSet).
use vstd::prelude::*;

verus! {

/// Tuples that take one more element at the end.
pub trait TuplePush<U>: Sized {
    type Output;

    /// `self` followed by `u`.
    spec fn push_spec(self, u: U) -> Self::Output;

    fn push_back(self, u: U) -> (r: Self::Output)
        ensures
            r == self.push_spec(u),
    ;
}

/// Tuples that take the elements of a tuple `U` at the end.
pub trait TupleAppend<U>: Sized {
    type Output;

    /// The elements of `self`, then those of `u`.
    spec fn append_spec(self, u: U) -> Self::Output;

    fn append_back(self, u: U) -> (r: Self::Output)
        ensures
            r == self.append_spec(u),
    ;
}

impl<U> TuplePush<U> for () {
    type Output = (U,);

    open spec fn push_spec(self, u: U) -> Self::Output {
        (u,)
    }

    fn push_back(self, u: U) -> (r: Self::Output) {
        (u,)
    }
}

impl<A0, U> TuplePush<U> for (A0,) {
    type Output = (A0, U);

    open spec fn push_spec(self, u: U) -> Self::Output {
        (self.0, u)
    }

    fn push_back(self, u: U) -> (r: Self::Output) {
        (self.0, u)
    }
}

impl<A0, A1, U> TuplePush<U> for (A0, A1) {
    type Output = (A0, A1, U);

    open spec fn push_spec(self, u: U) -> Self::Output {
        (self.0, self.1, u)
    }

    fn push_back(self, u: U) -> (r: Self::Output) {
        (self.0, self.1, u)
    }
}

impl<A0, A1, A2, U> TuplePush<U> for (A0, A1, A2) {
    type Output = (A0, A1, A2, U);

    open spec fn push_spec(self, u: U) -> Self::Output {
        (self.0, self.1, self.2, u)
    }

    fn push_back(self, u: U) -> (r: Self::Output) {
        (self.0, self.1, self.2, u)
    }
}

impl<A0, A1, A2, A3, U> TuplePush<U> for (A0, A1, A2, A3) {
    type Output = (A0, A1, A2, A3, U);

    open spec fn push_spec(self, u: U) -> Self::Output {
        (self.0, self.1, self.2, self.3, u)
    }

    fn push_back(self, u: U) -> (r: Self::Output) {
        (self.0, self.1, self.2, self.3, u)
    }
}

impl<A0, A1, A2, A3, A4, U> TuplePush<U> for (A0, A1, A2, A3, A4) {
    type Output = (A0, A1, A2, A3, A4, U);

    open spec fn push_spec(self, u: U) -> Self::Output {
        (self.0, self.1, self.2, self.3, self.4, u)
    }

    fn push_back(self, u: U) -> (r: Self::Output) {
        (self.0, self.1, self.2, self.3, self.4, u)
    }
}

impl<A0, A1, A2, A3, A4, A5, U> TuplePush<U> for (A0, A1, A2, A3, A4, A5) {
    type Output = (A0, A1, A2, A3, A4, A5, U);

    open spec fn push_spec(self, u: U) -> Self::Output {
        (self.0, self.1, self.2, self.3, self.4, self.5, u)
    }

    fn push_back(self, u: U) -> (r: Self::Output) {
        (self.0, self.1, self.2, self.3, self.4, self.5, u)
    }
}

impl<A0, A1, A2, A3, A4, A5, A6, U> TuplePush<U> for (A0, A1, A2, A3, A4, A5, A6) {
    type Output = (A0, A1, A2, A3, A4, A5, A6, U);

    open spec fn push_spec(self, u: U) -> Self::Output {
        (self.0, self.1, self.2, self.3, self.4, self.5, self.6, u)
    }

    fn push_back(self, u: U) -> (r: Self::Output) {
        (self.0, self.1, self.2, self.3, self.4, self.5, self.6, u)
    }
}

impl TupleAppend<()> for () {
    type Output = ();

    open spec fn append_spec(self, u: ()) -> Self::Output {
        ()
    }

    fn append_back(self, u: ()) -> (r: Self::Output) {
        ()
    }
}

impl<B0> TupleAppend<(B0,)> for () {
    type Output = (B0,);

    open spec fn append_spec(self, u: (B0,)) -> Self::Output {
        (u.0,)
    }

    fn append_back(self, u: (B0,)) -> (r: Self::Output) {
        (u.0,)
    }
}

impl<B0, B1> TupleAppend<(B0, B1)> for () {
    type Output = (B0, B1);

    open spec fn append_spec(self, u: (B0, B1)) -> Self::Output {
        (u.0, u.1)
    }

    fn append_back(self, u: (B0, B1)) -> (r: Self::Output) {
        (u.0, u.1)
    }
}

impl<B0, B1, B2> TupleAppend<(B0, B1, B2)> for () {
    type Output = (B0, B1, B2);

    open spec fn append_spec(self, u: (B0, B1, B2)) -> Self::Output {
        (u.0, u.1, u.2)
    }

    fn append_back(self, u: (B0, B1, B2)) -> (r: Self::Output) {
        (u.0, u.1, u.2)
    }
}

impl<B0, B1, B2, B3> TupleAppend<(B0, B1, B2, B3)> for () {
    type Output = (B0, B1, B2, B3);

    open spec fn append_spec(self, u: (B0, B1, B2, B3)) -> Self::Output {
        (u.0, u.1, u.2, u.3)
    }

    fn append_back(self, u: (B0, B1, B2, B3)) -> (r: Self::Output) {
        (u.0, u.1, u.2, u.3)
    }
}

impl<B0, B1, B2, B3, B4> TupleAppend<(B0, B1, B2, B3, B4)> for () {
    type Output = (B0, B1, B2, B3, B4);

    open spec fn append_spec(self, u: (B0, B1, B2, B3, B4)) -> Self::Output {
        (u.0, u.1, u.2, u.3, u.4)
    }

    fn append_back(self, u: (B0, B1, B2, B3, B4)) -> (r: Self::Output) {
        (u.0, u.1, u.2, u.3, u.4)
    }
}

impl<B0, B1, B2, B3, B4, B5> TupleAppend<(B0, B1, B2, B3, B4, B5)> for () {
    type Output = (B0, B1, B2, B3, B4, B5);

    open spec fn append_spec(self, u: (B0, B1, B2, B3, B4, B5)) -> Self::Output {
        (u.0, u.1, u.2, u.3, u.4, u.5)
    }

    fn append_back(self, u: (B0, B1, B2, B3, B4, B5)) -> (r: Self::Output) {
        (u.0, u.1, u.2, u.3, u.4, u.5)
    }
}

impl<B0, B1, B2, B3, B4, B5, B6> TupleAppend<(B0, B1, B2, B3, B4, B5, B6)> for () {
    type Output = (B0, B1, B2, B3, B4, B5, B6);

    open spec fn append_spec(self, u: (B0, B1, B2, B3, B4, B5, B6)) -> Self::Output {
        (u.0, u.1, u.2, u.3, u.4, u.5, u.6)
    }

    fn append_back(self, u: (B0, B1, B2, B3, B4, B5, B6)) -> (r: Self::Output) {
        (u.0, u.1, u.2, u.3, u.4, u.5, u.6)
    }
}

impl<B0, B1, B2, B3, B4, B5, B6, B7> TupleAppend<(B0, B1, B2, B3, B4, B5, B6, B7)> for () {
    type Output = (B0, B1, B2, B3, B4, B5, B6, B7);

    open spec fn append_spec(self, u: (B0, B1, B2, B3, B4, B5, B6, B7)) -> Self::Output {
        (u.0, u.1, u.2, u.3, u.4, u.5, u.6, u.7)
    }

    fn append_back(self, u: (B0, B1, B2, B3, B4, B5, B6, B7)) -> (r: Self::Output) {
        (u.0, u.1, u.2, u.3, u.4, u.5, u.6, u.7)
    }
}

impl<A0> TupleAppend<()> for (A0,) {
    type Output = (A0,);

    open spec fn append_spec(self, u: ()) -> Self::Output {
        (self.0,)
    }

    fn append_back(self, u: ()) -> (r: Self::Output) {
        (self.0,)
    }
}

impl<A0, B0> TupleAppend<(B0,)> for (A0,) {
    type Output = (A0, B0);

    open spec fn append_spec(self, u: (B0,)) -> Self::Output {
        (self.0, u.0)
    }

    fn append_back(self, u: (B0,)) -> (r: Self::Output) {
        (self.0, u.0)
    }
}

impl<A0, B0, B1> TupleAppend<(B0, B1)> for (A0,) {
    type Output = (A0, B0, B1);

    open spec fn append_spec(self, u: (B0, B1)) -> Self::Output {
        (self.0, u.0, u.1)
    }

    fn append_back(self, u: (B0, B1)) -> (r: Self::Output) {
        (self.0, u.0, u.1)
    }
}

impl<A0, B0, B1, B2> TupleAppend<(B0, B1, B2)> for (A0,) {
    type Output = (A0, B0, B1, B2);

    open spec fn append_spec(self, u: (B0, B1, B2)) -> Self::Output {
        (self.0, u.0, u.1, u.2)
    }

    fn append_back(self, u: (B0, B1, B2)) -> (r: Self::Output) {
        (self.0, u.0, u.1, u.2)
    }
}

impl<A0, B0, B1, B2, B3> TupleAppend<(B0, B1, B2, B3)> for (A0,) {
    type Output = (A0, B0, B1, B2, B3);

    open spec fn append_spec(self, u: (B0, B1, B2, B3)) -> Self::Output {
        (self.0, u.0, u.1, u.2, u.3)
    }

    fn append_back(self, u: (B0, B1, B2, B3)) -> (r: Self::Output) {
        (self.0, u.0, u.1, u.2, u.3)
    }
}

impl<A0, B0, B1, B2, B3, B4> TupleAppend<(B0, B1, B2, B3, B4)> for (A0,) {
    type Output = (A0, B0, B1, B2, B3, B4);

    open spec fn append_spec(self, u: (B0, B1, B2, B3, B4)) -> Self::Output {
        (self.0, u.0, u.1, u.2, u.3, u.4)
    }

    fn append_back(self, u: (B0, B1, B2, B3, B4)) -> (r: Self::Output) {
        (self.0, u.0, u.1, u.2, u.3, u.4)
    }
}

impl<A0, B0, B1, B2, B3, B4, B5> TupleAppend<(B0, B1, B2, B3, B4, B5)> for (A0,) {
    type Output = (A0, B0, B1, B2, B3, B4, B5);

    open spec fn append_spec(self, u: (B0, B1, B2, B3, B4, B5)) -> Self::Output {
        (self.0, u.0, u.1, u.2, u.3, u.4, u.5)
    }

    fn append_back(self, u: (B0, B1, B2, B3, B4, B5)) -> (r: Self::Output) {
        (self.0, u.0, u.1, u.2, u.3, u.4, u.5)
    }
}

impl<A0, B0, B1, B2, B3, B4, B5, B6> TupleAppend<(B0, B1, B2, B3, B4, B5, B6)> for (A0,) {
    type Output = (A0, B0, B1, B2, B3, B4, B5, B6);

    open spec fn append_spec(self, u: (B0, B1, B2, B3, B4, B5, B6)) -> Self::Output {
        (self.0, u.0, u.1, u.2, u.3, u.4, u.5, u.6)
    }

    fn append_back(self, u: (B0, B1, B2, B3, B4, B5, B6)) -> (r: Self::Output) {
        (self.0, u.0, u.1, u.2, u.3, u.4, u.5, u.6)
    }
}

impl<A0, A1> TupleAppend<()> for (A0, A1) {
    type Output = (A0, A1);

    open spec fn append_spec(self, u: ()) -> Self::Output {
        (self.0, self.1)
    }

    fn append_back(self, u: ()) -> (r: Self::Output) {
        (self.0, self.1)
    }
}

impl<A0, A1, B0> TupleAppend<(B0,)> for (A0, A1) {
    type Output = (A0, A1, B0);

    open spec fn append_spec(self, u: (B0,)) -> Self::Output {
        (self.0, self.1, u.0)
    }

    fn append_back(self, u: (B0,)) -> (r: Self::Output) {
        (self.0, self.1, u.0)
    }
}

impl<A0, A1, B0, B1> TupleAppend<(B0, B1)> for (A0, A1) {
    type Output = (A0, A1, B0, B1);

    open spec fn append_spec(self, u: (B0, B1)) -> Self::Output {
        (self.0, self.1, u.0, u.1)
    }

    fn append_back(self, u: (B0, B1)) -> (r: Self::Output) {
        (self.0, self.1, u.0, u.1)
    }
}

impl<A0, A1, B0, B1, B2> TupleAppend<(B0, B1, B2)> for (A0, A1) {
    type Output = (A0, A1, B0, B1, B2);

    open spec fn append_spec(self, u: (B0, B1, B2)) -> Self::Output {
        (self.0, self.1, u.0, u.1, u.2)
    }

    fn append_back(self, u: (B0, B1, B2)) -> (r: Self::Output) {
        (self.0, self.1, u.0, u.1, u.2)
    }
}

impl<A0, A1, B0, B1, B2, B3> TupleAppend<(B0, B1, B2, B3)> for (A0, A1) {
    type Output = (A0, A1, B0, B1, B2, B3);

    open spec fn append_spec(self, u: (B0, B1, B2, B3)) -> Self::Output {
        (self.0, self.1, u.0, u.1, u.2, u.3)
    }

    fn append_back(self, u: (B0, B1, B2, B3)) -> (r: Self::Output) {
        (self.0, self.1, u.0, u.1, u.2, u.3)
    }
}

impl<A0, A1, B0, B1, B2, B3, B4> TupleAppend<(B0, B1, B2, B3, B4)> for (A0, A1) {
    type Output = (A0, A1, B0, B1, B2, B3, B4);

    open spec fn append_spec(self, u: (B0, B1, B2, B3, B4)) -> Self::Output {
        (self.0, self.1, u.0, u.1, u.2, u.3, u.4)
    }

    fn append_back(self, u: (B0, B1, B2, B3, B4)) -> (r: Self::Output) {
        (self.0, self.1, u.0, u.1, u.2, u.3, u.4)
    }
}

impl<A0, A1, B0, B1, B2, B3, B4, B5> TupleAppend<(B0, B1, B2, B3, B4, B5)> for (A0, A1) {
    type Output = (A0, A1, B0, B1, B2, B3, B4, B5);

    open spec fn append_spec(self, u: (B0, B1, B2, B3, B4, B5)) -> Self::Output {
        (self.0, self.1, u.0, u.1, u.2, u.3, u.4, u.5)
    }

    fn append_back(self, u: (B0, B1, B2, B3, B4, B5)) -> (r: Self::Output) {
        (self.0, self.1, u.0, u.1, u.2, u.3, u.4, u.5)
    }
}

impl<A0, A1, A2> TupleAppend<()> for (A0, A1, A2) {
    type Output = (A0, A1, A2);

    open spec fn append_spec(self, u: ()) -> Self::Output {
        (self.0, self.1, self.2)
    }

    fn append_back(self, u: ()) -> (r: Self::Output) {
        (self.0, self.1, self.2)
    }
}

impl<A0, A1, A2, B0> TupleAppend<(B0,)> for (A0, A1, A2) {
    type Output = (A0, A1, A2, B0);

    open spec fn append_spec(self, u: (B0,)) -> Self::Output {
        (self.0, self.1, self.2, u.0)
    }

    fn append_back(self, u: (B0,)) -> (r: Self::Output) {
        (self.0, self.1, self.2, u.0)
    }
}

impl<A0, A1, A2, B0, B1> TupleAppend<(B0, B1)> for (A0, A1, A2) {
    type Output = (A0, A1, A2, B0, B1);

    open spec fn append_spec(self, u: (B0, B1)) -> Self::Output {
        (self.0, self.1, self.2, u.0, u.1)
    }

    fn append_back(self, u: (B0, B1)) -> (r: Self::Output) {
        (self.0, self.1, self.2, u.0, u.1)
    }
}

impl<A0, A1, A2, B0, B1, B2> TupleAppend<(B0, B1, B2)> for (A0, A1, A2) {
    type Output = (A0, A1, A2, B0, B1, B2);

    open spec fn append_spec(self, u: (B0, B1, B2)) -> Self::Output {
        (self.0, self.1, self.2, u.0, u.1, u.2)
    }

    fn append_back(self, u: (B0, B1, B2)) -> (r: Self::Output) {
        (self.0, self.1, self.2, u.0, u.1, u.2)
    }
}

impl<A0, A1, A2, B0, B1, B2, B3> TupleAppend<(B0, B1, B2, B3)> for (A0, A1, A2) {
    type Output = (A0, A1, A2, B0, B1, B2, B3);

    open spec fn append_spec(self, u: (B0, B1, B2, B3)) -> Self::Output {
        (self.0, self.1, self.2, u.0, u.1, u.2, u.3)
    }

    fn append_back(self, u: (B0, B1, B2, B3)) -> (r: Self::Output) {
        (self.0, self.1, self.2, u.0, u.1, u.2, u.3)
    }
}

impl<A0, A1, A2, B0, B1, B2, B3, B4> TupleAppend<(B0, B1, B2, B3, B4)> for (A0, A1, A2) {
    type Output = (A0, A1, A2, B0, B1, B2, B3, B4);

    open spec fn append_spec(self, u: (B0, B1, B2, B3, B4)) -> Self::Output {
        (self.0, self.1, self.2, u.0, u.1, u.2, u.3, u.4)
    }

    fn append_back(self, u: (B0, B1, B2, B3, B4)) -> (r: Self::Output) {
        (self.0, self.1, self.2, u.0, u.1, u.2, u.3, u.4)
    }
}

impl<A0, A1, A2, A3> TupleAppend<()> for (A0, A1, A2, A3) {
    type Output = (A0, A1, A2, A3);

    open spec fn append_spec(self, u: ()) -> Self::Output {
        (self.0, self.1, self.2, self.3)
    }

    fn append_back(self, u: ()) -> (r: Self::Output) {
        (self.0, self.1, self.2, self.3)
    }
}

impl<A0, A1, A2, A3, B0> TupleAppend<(B0,)> for (A0, A1, A2, A3) {
    type Output = (A0, A1, A2, A3, B0);

    open spec fn append_spec(self, u: (B0,)) -> Self::Output {
        (self.0, self.1, self.2, self.3, u.0)
    }

    fn append_back(self, u: (B0,)) -> (r: Self::Output) {
        (self.0, self.1, self.2, self.3, u.0)
    }
}

impl<A0, A1, A2, A3, B0, B1> TupleAppend<(B0, B1)> for (A0, A1, A2, A3) {
    type Output = (A0, A1, A2, A3, B0, B1);

    open spec fn append_spec(self, u: (B0, B1)) -> Self::Output {
        (self.0, self.1, self.2, self.3, u.0, u.1)
    }

    fn append_back(self, u: (B0, B1)) -> (r: Self::Output) {
        (self.0, self.1, self.2, self.3, u.0, u.1)
    }
}

impl<A0, A1, A2, A3, B0, B1, B2> TupleAppend<(B0, B1, B2)> for (A0, A1, A2, A3) {
    type Output = (A0, A1, A2, A3, B0, B1, B2);

    open spec fn append_spec(self, u: (B0, B1, B2)) -> Self::Output {
        (self.0, self.1, self.2, self.3, u.0, u.1, u.2)
    }

    fn append_back(self, u: (B0, B1, B2)) -> (r: Self::Output) {
        (self.0, self.1, self.2, self.3, u.0, u.1, u.2)
    }
}

impl<A0, A1, A2, A3, B0, B1, B2, B3> TupleAppend<(B0, B1, B2, B3)> for (A0, A1, A2, A3) {
    type Output = (A0, A1, A2, A3, B0, B1, B2, B3);

    open spec fn append_spec(self, u: (B0, B1, B2, B3)) -> Self::Output {
        (self.0, self.1, self.2, self.3, u.0, u.1, u.2, u.3)
    }

    fn append_back(self, u: (B0, B1, B2, B3)) -> (r: Self::Output) {
        (self.0, self.1, self.2, self.3, u.0, u.1, u.2, u.3)
    }
}

impl<A0, A1, A2, A3, A4> TupleAppend<()> for (A0, A1, A2, A3, A4) {
    type Output = (A0, A1, A2, A3, A4);

    open spec fn append_spec(self, u: ()) -> Self::Output {
        (self.0, self.1, self.2, self.3, self.4)
    }

    fn append_back(self, u: ()) -> (r: Self::Output) {
        (self.0, self.1, self.2, self.3, self.4)
    }
}

impl<A0, A1, A2, A3, A4, B0> TupleAppend<(B0,)> for (A0, A1, A2, A3, A4) {
    type Output = (A0, A1, A2, A3, A4, B0);

    open spec fn append_spec(self, u: (B0,)) -> Self::Output {
        (self.0, self.1, self.2, self.3, self.4, u.0)
    }

    fn append_back(self, u: (B0,)) -> (r: Self::Output) {
        (self.0, self.1, self.2, self.3, self.4, u.0)
    }
}

impl<A0, A1, A2, A3, A4, B0, B1> TupleAppend<(B0, B1)> for (A0, A1, A2, A3, A4) {
    type Output = (A0, A1, A2, A3, A4, B0, B1);

    open spec fn append_spec(self, u: (B0, B1)) -> Self::Output {
        (self.0, self.1, self.2, self.3, self.4, u.0, u.1)
    }

    fn append_back(self, u: (B0, B1)) -> (r: Self::Output) {
        (self.0, self.1, self.2, self.3, self.4, u.0, u.1)
    }
}

impl<A0, A1, A2, A3, A4, B0, B1, B2> TupleAppend<(B0, B1, B2)> for (A0, A1, A2, A3, A4) {
    type Output = (A0, A1, A2, A3, A4, B0, B1, B2);

    open spec fn append_spec(self, u: (B0, B1, B2)) -> Self::Output {
        (self.0, self.1, self.2, self.3, self.4, u.0, u.1, u.2)
    }

    fn append_back(self, u: (B0, B1, B2)) -> (r: Self::Output) {
        (self.0, self.1, self.2, self.3, self.4, u.0, u.1, u.2)
    }
}

impl<A0, A1, A2, A3, A4, A5> TupleAppend<()> for (A0, A1, A2, A3, A4, A5) {
    type Output = (A0, A1, A2, A3, A4, A5);

    open spec fn append_spec(self, u: ()) -> Self::Output {
        (self.0, self.1, self.2, self.3, self.4, self.5)
    }

    fn append_back(self, u: ()) -> (r: Self::Output) {
        (self.0, self.1, self.2, self.3, self.4, self.5)
    }
}

impl<A0, A1, A2, A3, A4, A5, B0> TupleAppend<(B0,)> for (A0, A1, A2, A3, A4, A5) {
    type Output = (A0, A1, A2, A3, A4, A5, B0);

    open spec fn append_spec(self, u: (B0,)) -> Self::Output {
        (self.0, self.1, self.2, self.3, self.4, self.5, u.0)
    }

    fn append_back(self, u: (B0,)) -> (r: Self::Output) {
        (self.0, self.1, self.2, self.3, self.4, self.5, u.0)
    }
}

impl<A0, A1, A2, A3, A4, A5, B0, B1> TupleAppend<(B0, B1)> for (A0, A1, A2, A3, A4, A5) {
    type Output = (A0, A1, A2, A3, A4, A5, B0, B1);

    open spec fn append_spec(self, u: (B0, B1)) -> Self::Output {
        (self.0, self.1, self.2, self.3, self.4, self.5, u.0, u.1)
    }

    fn append_back(self, u: (B0, B1)) -> (r: Self::Output) {
        (self.0, self.1, self.2, self.3, self.4, self.5, u.0, u.1)
    }
}

impl<A0, A1, A2, A3, A4, A5, A6> TupleAppend<()> for (A0, A1, A2, A3, A4, A5, A6) {
    type Output = (A0, A1, A2, A3, A4, A5, A6);

    open spec fn append_spec(self, u: ()) -> Self::Output {
        (self.0, self.1, self.2, self.3, self.4, self.5, self.6)
    }

    fn append_back(self, u: ()) -> (r: Self::Output) {
        (self.0, self.1, self.2, self.3, self.4, self.5, self.6)
    }
}

impl<A0, A1, A2, A3, A4, A5, A6, B0> TupleAppend<(B0,)> for (A0, A1, A2, A3, A4, A5, A6) {
    type Output = (A0, A1, A2, A3, A4, A5, A6, B0);

    open spec fn append_spec(self, u: (B0,)) -> Self::Output {
        (self.0, self.1, self.2, self.3, self.4, self.5, self.6, u.0)
    }

    fn append_back(self, u: (B0,)) -> (r: Self::Output) {
        (self.0, self.1, self.2, self.3, self.4, self.5, self.6, u.0)
    }
}

impl<A0, A1, A2, A3, A4, A5, A6, A7> TupleAppend<()> for (A0, A1, A2, A3, A4, A5, A6, A7) {
    type Output = (A0, A1, A2, A3, A4, A5, A6, A7);

    open spec fn append_spec(self, u: ()) -> Self::Output {
        (self.0, self.1, self.2, self.3, self.4, self.5, self.6, self.7)
    }

    fn append_back(self, u: ()) -> (r: Self::Output) {
        (self.0, self.1, self.2, self.3, self.4, self.5, self.6, self.7)
    }
}

} // verus!
