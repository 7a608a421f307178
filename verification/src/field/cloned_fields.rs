//! Cloning the fields that shared access gives: what a reference points to,
//! what an `Option` of a reference points to, and each of these in a tuple.
use vstd::prelude::*;

verus! {

/// References to fields, which give clones of what they point to.
///
/// `cloned_from(c)` holds when `c` holds a clone of each value that `self`
/// points to, in the same places.
pub trait Cloned {
    type Cloned;

    spec fn cloned_from(&self, c: &Self::Cloned) -> bool;

    fn cloned_(&self) -> (c: Self::Cloned)
        ensures
            self.cloned_from(&c),
    ;
}

impl<'a, T: Clone> Cloned for &'a T {
    type Cloned = T;

    open spec fn cloned_from(&self, c: &T) -> bool {
        cloned(**self, *c)
    }

    fn cloned_(&self) -> (c: T) {
        (**self).clone()
    }
}

impl<'a, T: Clone> Cloned for Option<&'a T> {
    type Cloned = Option<T>;

    open spec fn cloned_from(&self, c: &Option<T>) -> bool {
        match (*self, *c) {
            (Some(x), Some(y)) => cloned(*x, y),
            (None, None) => true,
            _ => false,
        }
    }

    fn cloned_(&self) -> (c: Option<T>) {
        match self {
            Some(x) => Some((**x).clone()),
            None => None,
        }
    }
}

impl Cloned for () {
    type Cloned = ();

    open spec fn cloned_from(&self, c: &()) -> bool {
        true
    }

    fn cloned_(&self) -> (c: ()) {
        ()
    }
}

impl<C0: Cloned> Cloned for (C0,) {
    type Cloned = (C0::Cloned,);

    open spec fn cloned_from(&self, c: &Self::Cloned) -> bool {
        self.0.cloned_from(&c.0)
    }

    fn cloned_(&self) -> (c: Self::Cloned) {
        (self.0.cloned_(),)
    }
}

impl<C0: Cloned, C1: Cloned> Cloned for (C0, C1) {
    type Cloned = (C0::Cloned, C1::Cloned);

    open spec fn cloned_from(&self, c: &Self::Cloned) -> bool {
        self.0.cloned_from(&c.0) && self.1.cloned_from(&c.1)
    }

    fn cloned_(&self) -> (c: Self::Cloned) {
        (self.0.cloned_(), self.1.cloned_())
    }
}

impl<C0: Cloned, C1: Cloned, C2: Cloned> Cloned for (C0, C1, C2) {
    type Cloned = (C0::Cloned, C1::Cloned, C2::Cloned);

    open spec fn cloned_from(&self, c: &Self::Cloned) -> bool {
        self.0.cloned_from(&c.0) && self.1.cloned_from(&c.1) && self.2.cloned_from(&c.2)
    }

    fn cloned_(&self) -> (c: Self::Cloned) {
        (self.0.cloned_(), self.1.cloned_(), self.2.cloned_())
    }
}

impl<C0: Cloned, C1: Cloned, C2: Cloned, C3: Cloned> Cloned for (C0, C1, C2, C3) {
    type Cloned = (C0::Cloned, C1::Cloned, C2::Cloned, C3::Cloned);

    open spec fn cloned_from(&self, c: &Self::Cloned) -> bool {
        &&& self.0.cloned_from(&c.0)
        &&& self.1.cloned_from(&c.1)
        &&& self.2.cloned_from(&c.2)
        &&& self.3.cloned_from(&c.3)
    }

    fn cloned_(&self) -> (c: Self::Cloned) {
        (self.0.cloned_(), self.1.cloned_(), self.2.cloned_(), self.3.cloned_())
    }
}

impl<C0: Cloned, C1: Cloned, C2: Cloned, C3: Cloned, C4: Cloned> Cloned for (C0, C1, C2, C3, C4) {
    type Cloned = (C0::Cloned, C1::Cloned, C2::Cloned, C3::Cloned, C4::Cloned);

    open spec fn cloned_from(&self, c: &Self::Cloned) -> bool {
        &&& self.0.cloned_from(&c.0)
        &&& self.1.cloned_from(&c.1)
        &&& self.2.cloned_from(&c.2)
        &&& self.3.cloned_from(&c.3)
        &&& self.4.cloned_from(&c.4)
    }

    fn cloned_(&self) -> (c: Self::Cloned) {
        (
            self.0.cloned_(),
            self.1.cloned_(),
            self.2.cloned_(),
            self.3.cloned_(),
            self.4.cloned_(),
        )
    }
}

impl<C0: Cloned, C1: Cloned, C2: Cloned, C3: Cloned, C4: Cloned, C5: Cloned> Cloned for (C0, C1, C2, C3, C4, C5) {
    type Cloned = (C0::Cloned, C1::Cloned, C2::Cloned, C3::Cloned, C4::Cloned, C5::Cloned);

    open spec fn cloned_from(&self, c: &Self::Cloned) -> bool {
        &&& self.0.cloned_from(&c.0)
        &&& self.1.cloned_from(&c.1)
        &&& self.2.cloned_from(&c.2)
        &&& self.3.cloned_from(&c.3)
        &&& self.4.cloned_from(&c.4)
        &&& self.5.cloned_from(&c.5)
    }

    fn cloned_(&self) -> (c: Self::Cloned) {
        (
            self.0.cloned_(),
            self.1.cloned_(),
            self.2.cloned_(),
            self.3.cloned_(),
            self.4.cloned_(),
            self.5.cloned_(),
        )
    }
}

impl<C0: Cloned, C1: Cloned, C2: Cloned, C3: Cloned, C4: Cloned, C5: Cloned, C6: Cloned> Cloned for (C0, C1, C2, C3, C4, C5, C6) {
    type Cloned = (C0::Cloned, C1::Cloned, C2::Cloned, C3::Cloned, C4::Cloned, C5::Cloned, C6::Cloned);

    open spec fn cloned_from(&self, c: &Self::Cloned) -> bool {
        &&& self.0.cloned_from(&c.0)
        &&& self.1.cloned_from(&c.1)
        &&& self.2.cloned_from(&c.2)
        &&& self.3.cloned_from(&c.3)
        &&& self.4.cloned_from(&c.4)
        &&& self.5.cloned_from(&c.5)
        &&& self.6.cloned_from(&c.6)
    }

    fn cloned_(&self) -> (c: Self::Cloned) {
        (
            self.0.cloned_(),
            self.1.cloned_(),
            self.2.cloned_(),
            self.3.cloned_(),
            self.4.cloned_(),
            self.5.cloned_(),
            self.6.cloned_(),
        )
    }
}

impl<C0: Cloned, C1: Cloned, C2: Cloned, C3: Cloned, C4: Cloned, C5: Cloned, C6: Cloned, C7: Cloned> Cloned for (C0, C1, C2, C3, C4, C5, C6, C7) {
    type Cloned = (C0::Cloned, C1::Cloned, C2::Cloned, C3::Cloned, C4::Cloned, C5::Cloned, C6::Cloned, C7::Cloned);

    open spec fn cloned_from(&self, c: &Self::Cloned) -> bool {
        &&& self.0.cloned_from(&c.0)
        &&& self.1.cloned_from(&c.1)
        &&& self.2.cloned_from(&c.2)
        &&& self.3.cloned_from(&c.3)
        &&& self.4.cloned_from(&c.4)
        &&& self.5.cloned_from(&c.5)
        &&& self.6.cloned_from(&c.6)
        &&& self.7.cloned_from(&c.7)
    }

    fn cloned_(&self) -> (c: Self::Cloned) {
        (
            self.0.cloned_(),
            self.1.cloned_(),
            self.2.cloned_(),
            self.3.cloned_(),
            self.4.cloned_(),
            self.5.cloned_(),
            self.6.cloned_(),
            self.7.cloned_(),
        )
    }
}

} // verus!
