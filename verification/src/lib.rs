//! Field accessor traits, and emulation of structural types.
//!
//! A field is named by a path value ([`TStr`] for a field, [`VariantField`] for a
//! field inside an enum variant, [`FieldPath`] for a nested field, [`FieldPathSet`]
//! for several fields), and accessed through the accessor traits of [`field`]
//! (most conveniently with the methods of [`GetFieldExt`]).
pub mod enums;
pub mod field;
pub mod field_cloner;
pub mod field_path;
pub mod for_examples;

pub use crate::enums::{EnumExt, IsVariant, VariantCount, VariantProxy};
pub use crate::field::get_field_ext::GetFieldExt;
pub use crate::field::multi_fields::{
    NestedFieldPathSetOutput, RevGetMultiField, RevGetMultiFieldImpl, RevGetMultiFieldMut,
    RevGetMultiFieldMutImpl, RevIntoMultiField, RevIntoMultiFieldImpl,
};
pub use crate::field::normalize_fields::NormalizeFields;
pub use crate::field::rev_get_field::{
    RevFieldType, RevGetFieldImpl, RevGetFieldMutImpl, RevIntoFieldImpl,
};
pub use crate::field::{
    FailedAccess, FieldType, GetField, GetFieldImpl, GetFieldMut, GetFieldMutImpl,
    GetVariantField, GetVariantFieldMut, InfallibleAccess, IntoField, IntoFieldImpl, IntoFieldMut,
    IntoVariantField, IntoVariantFieldMut, IsFieldErr, OptGetField, OptGetFieldMut, OptIntoField,
    OptIntoFieldMut,
};
pub use crate::field_cloner::FieldCloner;
pub use crate::field_path::{
    AliasedPaths, FieldPath, FieldPathSet, NestedFieldPath, NestedFieldPathSet, TStr,
    UniquePaths, VariantField, VariantName,
};
