//! Turning the results of field accesses into the values that users see.
//!
//! A `Result<T, InfallibleAccess>` (a field that always exists) becomes the `T`,
//! a `Result<T, FailedAccess>` (a field that may be absent) becomes an
//! `Option<T>`, and tuples of results become tuples of those.
use crate::field::errors::{FailedAccess, InfallibleAccess};
use vstd::prelude::*;

verus! {

/// Transforms the `Result<T, _>`s inside a value returned by the `Rev*` traits into
/// either a `T` or an `Option<T>`, depending on the error type.
///
/// `denormalize_spec` undoes the transformation: every impl ensures that it gives
/// back the value that was normalized.
pub trait NormalizeFields: Sized {
    type Output;

    spec fn normalize_spec(self) -> Self::Output;

    spec fn denormalize_spec(out: Self::Output) -> Self;

    fn normalize_fields(self) -> (r: Self::Output)
        ensures
            r == self.normalize_spec(),
            Self::denormalize_spec(r) == self,
    ;
}

/// What normalizing a `This` gives.
pub type NormalizeFieldsOut<This> = <This as NormalizeFields>::Output;

impl<T> NormalizeFields for Result<T, InfallibleAccess> {
    type Output = T;

    open spec fn normalize_spec(self) -> T {
        self->Ok_0
    }

    open spec fn denormalize_spec(out: T) -> Self {
        Ok(out)
    }

    fn normalize_fields(self) -> (r: T) {
        match self {
            Ok(x) => x,
            Err(e) => {
                proof {
                    use_type_invariant(&e);
                }
                e.to::<T>()
            },
        }
    }
}

impl<T> NormalizeFields for Result<T, FailedAccess> {
    type Output = Option<T>;

    open spec fn normalize_spec(self) -> Option<T> {
        match self {
            Ok(x) => Some(x),
            Err(_) => None,
        }
    }

    open spec fn denormalize_spec(out: Option<T>) -> Self {
        match out {
            Some(x) => Ok(x),
            None => Err(FailedAccess),
        }
    }

    fn normalize_fields(self) -> (r: Option<T>) {
        match self {
            Ok(x) => Some(x),
            Err(e) => {
                assert(e == FailedAccess);
                None
            },
        }
    }
}

impl NormalizeFields for () {
    type Output = ();

    open spec fn normalize_spec(self) -> Self::Output {
        ()
    }

    open spec fn denormalize_spec(out: Self::Output) -> Self {
        ()
    }

    fn normalize_fields(self) -> (r: Self::Output) {
        ()
    }
}

impl<C0: NormalizeFields> NormalizeFields for (C0,) {
    type Output = (C0::Output,);

    open spec fn normalize_spec(self) -> Self::Output {
        (self.0.normalize_spec(),)
    }

    open spec fn denormalize_spec(out: Self::Output) -> Self {
        (C0::denormalize_spec(out.0),)
    }

    fn normalize_fields(self) -> (r: Self::Output) {
        (self.0.normalize_fields(),)
    }
}

impl<C0: NormalizeFields, C1: NormalizeFields> NormalizeFields for (C0, C1) {
    type Output = (C0::Output, C1::Output);

    open spec fn normalize_spec(self) -> Self::Output {
        (self.0.normalize_spec(), self.1.normalize_spec())
    }

    open spec fn denormalize_spec(out: Self::Output) -> Self {
        (C0::denormalize_spec(out.0), C1::denormalize_spec(out.1))
    }

    fn normalize_fields(self) -> (r: Self::Output) {
        (self.0.normalize_fields(), self.1.normalize_fields())
    }
}

impl<C0: NormalizeFields, C1: NormalizeFields, C2: NormalizeFields> NormalizeFields for (C0, C1, C2) {
    type Output = (C0::Output, C1::Output, C2::Output);

    open spec fn normalize_spec(self) -> Self::Output {
        (self.0.normalize_spec(), self.1.normalize_spec(), self.2.normalize_spec())
    }

    open spec fn denormalize_spec(out: Self::Output) -> Self {
        (C0::denormalize_spec(out.0), C1::denormalize_spec(out.1), C2::denormalize_spec(out.2))
    }

    fn normalize_fields(self) -> (r: Self::Output) {
        (self.0.normalize_fields(), self.1.normalize_fields(), self.2.normalize_fields())
    }
}

impl<C0: NormalizeFields, C1: NormalizeFields, C2: NormalizeFields, C3: NormalizeFields> NormalizeFields for (C0, C1, C2, C3) {
    type Output = (C0::Output, C1::Output, C2::Output, C3::Output);

    open spec fn normalize_spec(self) -> Self::Output {
        (self.0.normalize_spec(), self.1.normalize_spec(), self.2.normalize_spec(), self.3.normalize_spec())
    }

    open spec fn denormalize_spec(out: Self::Output) -> Self {
        (C0::denormalize_spec(out.0), C1::denormalize_spec(out.1), C2::denormalize_spec(out.2), C3::denormalize_spec(out.3))
    }

    fn normalize_fields(self) -> (r: Self::Output) {
        (self.0.normalize_fields(), self.1.normalize_fields(), self.2.normalize_fields(), self.3.normalize_fields())
    }
}

impl<C0: NormalizeFields, C1: NormalizeFields, C2: NormalizeFields, C3: NormalizeFields, C4: NormalizeFields> NormalizeFields for (C0, C1, C2, C3, C4) {
    type Output = (C0::Output, C1::Output, C2::Output, C3::Output, C4::Output);

    open spec fn normalize_spec(self) -> Self::Output {
        (
            self.0.normalize_spec(),
            self.1.normalize_spec(),
            self.2.normalize_spec(),
            self.3.normalize_spec(),
            self.4.normalize_spec(),
        )
    }

    open spec fn denormalize_spec(out: Self::Output) -> Self {
        (
            C0::denormalize_spec(out.0),
            C1::denormalize_spec(out.1),
            C2::denormalize_spec(out.2),
            C3::denormalize_spec(out.3),
            C4::denormalize_spec(out.4),
        )
    }

    fn normalize_fields(self) -> (r: Self::Output) {
        (
            self.0.normalize_fields(),
            self.1.normalize_fields(),
            self.2.normalize_fields(),
            self.3.normalize_fields(),
            self.4.normalize_fields(),
        )
    }
}

impl<C0: NormalizeFields, C1: NormalizeFields, C2: NormalizeFields, C3: NormalizeFields, C4: NormalizeFields, C5: NormalizeFields> NormalizeFields for (C0, C1, C2, C3, C4, C5) {
    type Output = (C0::Output, C1::Output, C2::Output, C3::Output, C4::Output, C5::Output);

    open spec fn normalize_spec(self) -> Self::Output {
        (
            self.0.normalize_spec(),
            self.1.normalize_spec(),
            self.2.normalize_spec(),
            self.3.normalize_spec(),
            self.4.normalize_spec(),
            self.5.normalize_spec(),
        )
    }

    open spec fn denormalize_spec(out: Self::Output) -> Self {
        (
            C0::denormalize_spec(out.0),
            C1::denormalize_spec(out.1),
            C2::denormalize_spec(out.2),
            C3::denormalize_spec(out.3),
            C4::denormalize_spec(out.4),
            C5::denormalize_spec(out.5),
        )
    }

    fn normalize_fields(self) -> (r: Self::Output) {
        (
            self.0.normalize_fields(),
            self.1.normalize_fields(),
            self.2.normalize_fields(),
            self.3.normalize_fields(),
            self.4.normalize_fields(),
            self.5.normalize_fields(),
        )
    }
}

impl<C0: NormalizeFields, C1: NormalizeFields, C2: NormalizeFields, C3: NormalizeFields, C4: NormalizeFields, C5: NormalizeFields, C6: NormalizeFields> NormalizeFields for (C0, C1, C2, C3, C4, C5, C6) {
    type Output = (C0::Output, C1::Output, C2::Output, C3::Output, C4::Output, C5::Output, C6::Output);

    open spec fn normalize_spec(self) -> Self::Output {
        (
            self.0.normalize_spec(),
            self.1.normalize_spec(),
            self.2.normalize_spec(),
            self.3.normalize_spec(),
            self.4.normalize_spec(),
            self.5.normalize_spec(),
            self.6.normalize_spec(),
        )
    }

    open spec fn denormalize_spec(out: Self::Output) -> Self {
        (
            C0::denormalize_spec(out.0),
            C1::denormalize_spec(out.1),
            C2::denormalize_spec(out.2),
            C3::denormalize_spec(out.3),
            C4::denormalize_spec(out.4),
            C5::denormalize_spec(out.5),
            C6::denormalize_spec(out.6),
        )
    }

    fn normalize_fields(self) -> (r: Self::Output) {
        (
            self.0.normalize_fields(),
            self.1.normalize_fields(),
            self.2.normalize_fields(),
            self.3.normalize_fields(),
            self.4.normalize_fields(),
            self.5.normalize_fields(),
            self.6.normalize_fields(),
        )
    }
}

impl<C0: NormalizeFields, C1: NormalizeFields, C2: NormalizeFields, C3: NormalizeFields, C4: NormalizeFields, C5: NormalizeFields, C6: NormalizeFields, C7: NormalizeFields> NormalizeFields for (C0, C1, C2, C3, C4, C5, C6, C7) {
    type Output = (C0::Output, C1::Output, C2::Output, C3::Output, C4::Output, C5::Output, C6::Output, C7::Output);

    open spec fn normalize_spec(self) -> Self::Output {
        (
            self.0.normalize_spec(),
            self.1.normalize_spec(),
            self.2.normalize_spec(),
            self.3.normalize_spec(),
            self.4.normalize_spec(),
            self.5.normalize_spec(),
            self.6.normalize_spec(),
            self.7.normalize_spec(),
        )
    }

    open spec fn denormalize_spec(out: Self::Output) -> Self {
        (
            C0::denormalize_spec(out.0),
            C1::denormalize_spec(out.1),
            C2::denormalize_spec(out.2),
            C3::denormalize_spec(out.3),
            C4::denormalize_spec(out.4),
            C5::denormalize_spec(out.5),
            C6::denormalize_spec(out.6),
            C7::denormalize_spec(out.7),
        )
    }

    fn normalize_fields(self) -> (r: Self::Output) {
        (
            self.0.normalize_fields(),
            self.1.normalize_fields(),
            self.2.normalize_fields(),
            self.3.normalize_fields(),
            self.4.normalize_fields(),
            self.5.normalize_fields(),
            self.6.normalize_fields(),
            self.7.normalize_fields(),
        )
    }
}

} // verus!
