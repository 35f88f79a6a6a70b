use vstd::prelude::*;

verus! {

/// Why an operation on the registry was refused.
///
/// Validation errors (`ModelNameEmpty`, `ModelNameTooLong`, `MetadataUriEmpty`,
/// `MetadataUriTooLong`, `InvalidLicense`) mean the caller's input was rejected
/// before anything was touched. `UnauthorizedPublisher` means the caller is not
/// the record's current publisher. `ModelDeprecated`, `AlreadyDeprecated` and
/// `ModelAlreadyExists` are state errors: the record is not in a state that
/// permits the operation. `ArithmeticOverflow` means a global counter or a
/// version counter would overflow; the operation has no effect.
#[derive(Clone, Copy, Debug, PartialEq, Eq, Structural)]
pub enum ModelRegistryError {
    ModelNameTooLong,
    MetadataUriTooLong,
    ModelNameEmpty,
    MetadataUriEmpty,
    UnauthorizedPublisher,
    ModelDeprecated,
    AlreadyDeprecated,
    InvalidLicense,
    ModelAlreadyExists,
    ArithmeticOverflow,
}

} // verus!
