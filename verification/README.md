# structural

Field accessor traits, verified with Verus.

A field is named by a zero-sized path value: `TStr<N>` names a field (a
type-level string; `N` is one of the marker types in `field_path::names`),
`VariantField<V, F>` a field inside an enum variant, `FieldPath<(A, B, ..)>` a
nested field, `FieldPathSet<(P0, P1, ..), U>` several fields at once (up to
eight), and `NestedFieldPathSet` several fields inside a nested one. Paths are
extended with `push` and `append`.

Types expose their fields through the accessor traits of `field`
(`GetFieldImpl`, `GetFieldMutImpl`, `IntoFieldImpl` and their variant
counterparts), and users access them through `GetFieldExt`:

```rust
use structural::field_path::names::{Str_0, Str_1};
use structural::{GetFieldExt, TStr};

let mut pair = (1u8, "one");
assert_eq!(*pair.field_(TStr::<Str_1>::new()), "one");
*pair.field_mut(TStr::<Str_0>::new()) = 2;
assert_eq!(pair, (2, "one"));
```

Every accessor states what it returns over a spec function of its trait, and
every impl of the single-field accessors proves the laws that tie them
together: a read after a write through a mutable reference gives back what was
written, a write to an absent field changes nothing, by-value access gives what
shared access gives, a variant's field exists exactly when the enum is that
variant, and the paths of a `FieldPathSet<_, UniquePaths>` never alias.

Mutable access to several fields at once states that each reference starts at
its field's value; what writes through those references do is stated where a
value is split into its fields (`SplitFieldsMut::split_fields_mut` of each
tuple, array and example struct), not by the generic multi-field accessors.

## Layout

- `src/field.rs`: the accessor traits; `src/field/` their impls for tuples,
  arrays (the field `i` is the element at index `i`, named only for arrays
  longer than `i`), slices, ranges, references, boxes, `ManuallyDrop`,
  `Option` and `Result`, the error types,
  the `Rev*` traits implemented by paths (nested paths chain their
  components' accesses), access to several fields at once (several fields are
  borrowed mutably, or moved out, together by splitting the value into one
  slot per field and taking the slot of each path), and the normalization of
  results (`Result<T, InfallibleAccess>` becomes `T`,
  `Result<T, FailedAccess>` becomes `Option<T>`), and the cloning of shared
  results behind `GetFieldExt::cloned_fields`.
- `src/field_path.rs`: the path types; `src/field_path/names.rs` the field
  name markers; `src/field_path/to_usize.rs` the parsing of numeric names;
  `src/field_path/tuple_ops.rs` the tuple extension behind `push` and
  `append`.
- `src/enums.rs`: variant queries, and `VariantProxy`, an enum known to be a
  given variant.
- `src/field_cloner.rs`: `FieldCloner`, by-value access that copies fields out.
- `src/for_examples.rs`: example structs and enums with their accessors.
- `tests/`: tests of the library.
