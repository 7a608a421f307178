use structural::field::errors::IntoFieldErr;
use structural::field_path::names::{Str_0, Str_1, Str_Some};
use structural::{FailedAccess, FieldPath, GetFieldExt, RevGetFieldImpl, TStr, VariantField};

#[test]
fn failed_access_description() {
    assert_eq!(FailedAccess.description(), "Some field could not be accessed");
}

#[test]
fn failed_access_converts_into_itself() {
    let e: FailedAccess = FailedAccess.into_field_err();
    assert_eq!(e, FailedAccess);
}

#[test]
fn nested_optional_component_makes_the_path_optional() {
    let some_0 = VariantField::new(TStr::<Str_Some>::new(), TStr::<Str_0>::new());
    let path = FieldPath::many((TStr::<Str_1>::new(), some_0));
    let present = (0u8, Some(5u8));
    let absent = (0u8, None::<u8>);
    assert_eq!(path.rev_get_field(&present), Ok(&5));
    assert_eq!(path.rev_get_field(&absent), Err(FailedAccess));
    assert_eq!(absent.field_(path), None);
}

#[test]
fn nested_infallible_path_never_fails() {
    let path = FieldPath::many((TStr::<Str_1>::new(), TStr::<Str_0>::new()));
    let value = (0u8, (7u8, 8u8));
    assert_eq!(*value.field_(path), 7);
}
