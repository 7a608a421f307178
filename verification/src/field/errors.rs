//! Field-accessor error types, and the traits that relate them.
//!
//! Accessors for fields that always exist (struct fields) report
//! [`InfallibleAccess`], a type with no values; accessors for fields that may be
//! missing (enum variant fields, slice elements) report [`FailedAccess`].
use vstd::prelude::*;

verus! {

/// Marks the error types of this crate; no other type implements [`IsFieldErr`].
pub trait Sealed {}

/// The errors that field accessors report.
///
/// `is_optional` tells whether an accessor reporting this error can fail:
/// it is `true` for [`FailedAccess`] and `false` for [`InfallibleAccess`].
pub trait IsFieldErr: Sealed + Copy {
    spec fn is_optional() -> bool;
}

/// The error of accesses to fields that may not exist,
/// most often fields inside an enum variant.
#[derive(Debug, Copy, Clone, PartialEq, Eq, PartialOrd, Ord, Hash)]
pub struct FailedAccess;

/// The error of accesses to fields that always exist, most often in a struct.
///
/// No value of this type can be constructed (its invariant is `false`),
/// so an accessor returning `Result<T, InfallibleAccess>` always returns `Ok`.
#[derive(Debug, Copy, Clone, PartialEq, Eq, PartialOrd, Ord, Hash)]
pub struct InfallibleAccess {
    never: (),
}

/// Another name for [`FailedAccess`].
pub type OptionalField = FailedAccess;

/// Another name for [`InfallibleAccess`].
pub type NonOptField = InfallibleAccess;

impl InfallibleAccess {
    /// No value satisfies this invariant, so code that holds an
    /// `InfallibleAccess` is unreachable.
    #[verifier::type_invariant]
    pub open spec fn uninhabited(self) -> bool {
        false
    }

    /// Converts this (impossible) value into any type.
    pub fn to<T>(self) -> T {
        proof {
            use_type_invariant(&self);
        }
        vstd::pervasive::unreached()
    }

    /// A description of the error.
    pub fn description(&self) -> (r: &'static str)
        ensures
            r@ == "The field isn't optional,this function is uncallable"@,
    {
        "The field isn't optional,this function is uncallable"
    }
}

impl FailedAccess {
    /// A description of the error.
    pub fn description(&self) -> (r: &'static str)
        ensures
            r@ == "Some field could not be accessed"@,
    {
        "Some field could not be accessed"
    }
}

impl Sealed for FailedAccess {}

impl IsFieldErr for FailedAccess {
    open spec fn is_optional() -> bool {
        true
    }
}

impl Sealed for InfallibleAccess {}

impl IsFieldErr for InfallibleAccess {
    open spec fn is_optional() -> bool {
        false
    }
}

/// Another name for [`IsFieldErr`].
pub trait FieldErr: IsFieldErr {}

impl<T: IsFieldErr> FieldErr for T {}

impl From<InfallibleAccess> for FailedAccess {
    fn from(e: InfallibleAccess) -> (r: FailedAccess) {
        FailedAccess
    }
}

impl vstd::std_specs::convert::FromSpecImpl<InfallibleAccess> for FailedAccess {
    open spec fn obeys_from_spec() -> bool {
        true
    }

    open spec fn from_spec(v: InfallibleAccess) -> FailedAccess {
        FailedAccess
    }
}

/// Converts a field-access error into another field-access error.
///
/// Every error converts into itself, and [`InfallibleAccess`] converts into
/// [`FailedAccess`]; [`FailedAccess`] never converts into [`InfallibleAccess`].
pub trait IntoFieldErr<T>: IsFieldErr {
    spec fn into_field_err_spec(self) -> T;

    fn into_field_err(self) -> (r: T)
        ensures
            r == self.into_field_err_spec(),
    ;
}

impl<T: IsFieldErr> IntoFieldErr<T> for T {
    open spec fn into_field_err_spec(self) -> T {
        self
    }

    fn into_field_err(self) -> (r: T) {
        self
    }
}

impl IntoFieldErr<FailedAccess> for InfallibleAccess {
    open spec fn into_field_err_spec(self) -> FailedAccess {
        FailedAccess
    }

    fn into_field_err(self) -> (r: FailedAccess) {
        self.to::<FailedAccess>()
    }
}

/// Combines the errors in a tuple into one error type.
///
/// The combination is [`InfallibleAccess`] when every error in the tuple is,
/// and [`FailedAccess`] otherwise: each impl proves that the combined error is
/// optional exactly when some error of the tuple is.
pub trait CombinedErrs {
    type Combined: IsFieldErr;

    /// Whether any error type of the tuple is optional.
    spec fn any_optional() -> bool;

    proof fn lemma_combined_is_optional_iff_any()
        ensures
            <Self::Combined as IsFieldErr>::is_optional() == Self::any_optional(),
    ;
}

/// Another name for [`CombinedErrs`].
pub trait CombineErrs: CombinedErrs {}

impl<T: CombinedErrs> CombineErrs for T {}

impl CombinedErrs for () {
    type Combined = InfallibleAccess;

    open spec fn any_optional() -> bool {
        false
    }

    proof fn lemma_combined_is_optional_iff_any() {
    }
}

impl CombinedErrs for (InfallibleAccess,) {
    type Combined = InfallibleAccess;

    open spec fn any_optional() -> bool {
        InfallibleAccess::is_optional()
    }

    proof fn lemma_combined_is_optional_iff_any() {
    }
}

impl CombinedErrs for (FailedAccess,) {
    type Combined = FailedAccess;

    open spec fn any_optional() -> bool {
        FailedAccess::is_optional()
    }

    proof fn lemma_combined_is_optional_iff_any() {
    }
}

impl CombinedErrs for (InfallibleAccess, InfallibleAccess) {
    type Combined = InfallibleAccess;

    open spec fn any_optional() -> bool {
        InfallibleAccess::is_optional() || InfallibleAccess::is_optional()
    }

    proof fn lemma_combined_is_optional_iff_any() {
    }
}

impl CombinedErrs for (InfallibleAccess, FailedAccess) {
    type Combined = FailedAccess;

    open spec fn any_optional() -> bool {
        InfallibleAccess::is_optional() || FailedAccess::is_optional()
    }

    proof fn lemma_combined_is_optional_iff_any() {
    }
}

impl CombinedErrs for (FailedAccess, InfallibleAccess) {
    type Combined = FailedAccess;

    open spec fn any_optional() -> bool {
        FailedAccess::is_optional() || InfallibleAccess::is_optional()
    }

    proof fn lemma_combined_is_optional_iff_any() {
    }
}

impl CombinedErrs for (FailedAccess, FailedAccess) {
    type Combined = FailedAccess;

    open spec fn any_optional() -> bool {
        FailedAccess::is_optional() || FailedAccess::is_optional()
    }

    proof fn lemma_combined_is_optional_iff_any() {
    }
}

impl CombinedErrs for (InfallibleAccess, InfallibleAccess, InfallibleAccess) {
    type Combined = InfallibleAccess;

    open spec fn any_optional() -> bool {
        InfallibleAccess::is_optional() || InfallibleAccess::is_optional() || InfallibleAccess::is_optional()
    }

    proof fn lemma_combined_is_optional_iff_any() {
    }
}

impl CombinedErrs for (InfallibleAccess, InfallibleAccess, FailedAccess) {
    type Combined = FailedAccess;

    open spec fn any_optional() -> bool {
        InfallibleAccess::is_optional() || InfallibleAccess::is_optional() || FailedAccess::is_optional()
    }

    proof fn lemma_combined_is_optional_iff_any() {
    }
}

impl CombinedErrs for (InfallibleAccess, FailedAccess, InfallibleAccess) {
    type Combined = FailedAccess;

    open spec fn any_optional() -> bool {
        InfallibleAccess::is_optional() || FailedAccess::is_optional() || InfallibleAccess::is_optional()
    }

    proof fn lemma_combined_is_optional_iff_any() {
    }
}

impl CombinedErrs for (InfallibleAccess, FailedAccess, FailedAccess) {
    type Combined = FailedAccess;

    open spec fn any_optional() -> bool {
        InfallibleAccess::is_optional() || FailedAccess::is_optional() || FailedAccess::is_optional()
    }

    proof fn lemma_combined_is_optional_iff_any() {
    }
}

impl CombinedErrs for (FailedAccess, InfallibleAccess, InfallibleAccess) {
    type Combined = FailedAccess;

    open spec fn any_optional() -> bool {
        FailedAccess::is_optional() || InfallibleAccess::is_optional() || InfallibleAccess::is_optional()
    }

    proof fn lemma_combined_is_optional_iff_any() {
    }
}

impl CombinedErrs for (FailedAccess, InfallibleAccess, FailedAccess) {
    type Combined = FailedAccess;

    open spec fn any_optional() -> bool {
        FailedAccess::is_optional() || InfallibleAccess::is_optional() || FailedAccess::is_optional()
    }

    proof fn lemma_combined_is_optional_iff_any() {
    }
}

impl CombinedErrs for (FailedAccess, FailedAccess, InfallibleAccess) {
    type Combined = FailedAccess;

    open spec fn any_optional() -> bool {
        FailedAccess::is_optional() || FailedAccess::is_optional() || InfallibleAccess::is_optional()
    }

    proof fn lemma_combined_is_optional_iff_any() {
    }
}

impl CombinedErrs for (FailedAccess, FailedAccess, FailedAccess) {
    type Combined = FailedAccess;

    open spec fn any_optional() -> bool {
        FailedAccess::is_optional() || FailedAccess::is_optional() || FailedAccess::is_optional()
    }

    proof fn lemma_combined_is_optional_iff_any() {
    }
}

impl CombinedErrs for (InfallibleAccess, InfallibleAccess, InfallibleAccess, InfallibleAccess) {
    type Combined = InfallibleAccess;

    open spec fn any_optional() -> bool {
        InfallibleAccess::is_optional() || InfallibleAccess::is_optional() || InfallibleAccess::is_optional() || InfallibleAccess::is_optional()
    }

    proof fn lemma_combined_is_optional_iff_any() {
    }
}

impl CombinedErrs for (InfallibleAccess, InfallibleAccess, InfallibleAccess, FailedAccess) {
    type Combined = FailedAccess;

    open spec fn any_optional() -> bool {
        InfallibleAccess::is_optional() || InfallibleAccess::is_optional() || InfallibleAccess::is_optional() || FailedAccess::is_optional()
    }

    proof fn lemma_combined_is_optional_iff_any() {
    }
}

impl CombinedErrs for (InfallibleAccess, InfallibleAccess, FailedAccess, InfallibleAccess) {
    type Combined = FailedAccess;

    open spec fn any_optional() -> bool {
        InfallibleAccess::is_optional() || InfallibleAccess::is_optional() || FailedAccess::is_optional() || InfallibleAccess::is_optional()
    }

    proof fn lemma_combined_is_optional_iff_any() {
    }
}

impl CombinedErrs for (InfallibleAccess, InfallibleAccess, FailedAccess, FailedAccess) {
    type Combined = FailedAccess;

    open spec fn any_optional() -> bool {
        InfallibleAccess::is_optional() || InfallibleAccess::is_optional() || FailedAccess::is_optional() || FailedAccess::is_optional()
    }

    proof fn lemma_combined_is_optional_iff_any() {
    }
}

impl CombinedErrs for (InfallibleAccess, FailedAccess, InfallibleAccess, InfallibleAccess) {
    type Combined = FailedAccess;

    open spec fn any_optional() -> bool {
        InfallibleAccess::is_optional() || FailedAccess::is_optional() || InfallibleAccess::is_optional() || InfallibleAccess::is_optional()
    }

    proof fn lemma_combined_is_optional_iff_any() {
    }
}

impl CombinedErrs for (InfallibleAccess, FailedAccess, InfallibleAccess, FailedAccess) {
    type Combined = FailedAccess;

    open spec fn any_optional() -> bool {
        InfallibleAccess::is_optional() || FailedAccess::is_optional() || InfallibleAccess::is_optional() || FailedAccess::is_optional()
    }

    proof fn lemma_combined_is_optional_iff_any() {
    }
}

impl CombinedErrs for (InfallibleAccess, FailedAccess, FailedAccess, InfallibleAccess) {
    type Combined = FailedAccess;

    open spec fn any_optional() -> bool {
        InfallibleAccess::is_optional() || FailedAccess::is_optional() || FailedAccess::is_optional() || InfallibleAccess::is_optional()
    }

    proof fn lemma_combined_is_optional_iff_any() {
    }
}

impl CombinedErrs for (InfallibleAccess, FailedAccess, FailedAccess, FailedAccess) {
    type Combined = FailedAccess;

    open spec fn any_optional() -> bool {
        InfallibleAccess::is_optional() || FailedAccess::is_optional() || FailedAccess::is_optional() || FailedAccess::is_optional()
    }

    proof fn lemma_combined_is_optional_iff_any() {
    }
}

impl CombinedErrs for (FailedAccess, InfallibleAccess, InfallibleAccess, InfallibleAccess) {
    type Combined = FailedAccess;

    open spec fn any_optional() -> bool {
        FailedAccess::is_optional() || InfallibleAccess::is_optional() || InfallibleAccess::is_optional() || InfallibleAccess::is_optional()
    }

    proof fn lemma_combined_is_optional_iff_any() {
    }
}

impl CombinedErrs for (FailedAccess, InfallibleAccess, InfallibleAccess, FailedAccess) {
    type Combined = FailedAccess;

    open spec fn any_optional() -> bool {
        FailedAccess::is_optional() || InfallibleAccess::is_optional() || InfallibleAccess::is_optional() || FailedAccess::is_optional()
    }

    proof fn lemma_combined_is_optional_iff_any() {
    }
}

impl CombinedErrs for (FailedAccess, InfallibleAccess, FailedAccess, InfallibleAccess) {
    type Combined = FailedAccess;

    open spec fn any_optional() -> bool {
        FailedAccess::is_optional() || InfallibleAccess::is_optional() || FailedAccess::is_optional() || InfallibleAccess::is_optional()
    }

    proof fn lemma_combined_is_optional_iff_any() {
    }
}

impl CombinedErrs for (FailedAccess, InfallibleAccess, FailedAccess, FailedAccess) {
    type Combined = FailedAccess;

    open spec fn any_optional() -> bool {
        FailedAccess::is_optional() || InfallibleAccess::is_optional() || FailedAccess::is_optional() || FailedAccess::is_optional()
    }

    proof fn lemma_combined_is_optional_iff_any() {
    }
}

impl CombinedErrs for (FailedAccess, FailedAccess, InfallibleAccess, InfallibleAccess) {
    type Combined = FailedAccess;

    open spec fn any_optional() -> bool {
        FailedAccess::is_optional() || FailedAccess::is_optional() || InfallibleAccess::is_optional() || InfallibleAccess::is_optional()
    }

    proof fn lemma_combined_is_optional_iff_any() {
    }
}

impl CombinedErrs for (FailedAccess, FailedAccess, InfallibleAccess, FailedAccess) {
    type Combined = FailedAccess;

    open spec fn any_optional() -> bool {
        FailedAccess::is_optional() || FailedAccess::is_optional() || InfallibleAccess::is_optional() || FailedAccess::is_optional()
    }

    proof fn lemma_combined_is_optional_iff_any() {
    }
}

impl CombinedErrs for (FailedAccess, FailedAccess, FailedAccess, InfallibleAccess) {
    type Combined = FailedAccess;

    open spec fn any_optional() -> bool {
        FailedAccess::is_optional() || FailedAccess::is_optional() || FailedAccess::is_optional() || InfallibleAccess::is_optional()
    }

    proof fn lemma_combined_is_optional_iff_any() {
    }
}

impl CombinedErrs for (FailedAccess, FailedAccess, FailedAccess, FailedAccess) {
    type Combined = FailedAccess;

    open spec fn any_optional() -> bool {
        FailedAccess::is_optional() || FailedAccess::is_optional() || FailedAccess::is_optional() || FailedAccess::is_optional()
    }

    proof fn lemma_combined_is_optional_iff_any() {
    }
}

} // verus!
