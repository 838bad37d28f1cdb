use vstd::prelude::*;

verus! {

/// Why a serialized flag-register image was rejected.
#[derive(Clone, Copy, Debug, PartialEq, Eq, Structural)]
pub enum DecodeError {
    /// After separators are removed, the image does not hold exactly 32 digits.
    WrongLength,
    /// The image holds a character other than a binary digit or a separator.
    NonBinaryCharacter,
}

/// The named subfields of the packed registers.
#[derive(Clone, Copy, Debug, PartialEq, Eq, Structural)]
pub enum FieldName {
    SteppingId,
    Model,
    FamilyId,
    ProcessorType,
    ExtendedModelId,
    ExtendedFamilyId,
    NumberOfPhysicalAddressBits,
    NumberOfLinearAddressBits,
    NumberOfPhysicalCoresMinus1,
    Log2OfMaximumApicId,
    PerformanceTimestampCounterSize,
}

/// Why a packed register could not be built or changed.
#[derive(Clone, Copy, Debug, PartialEq, Eq, Structural)]
pub enum FieldError {
    /// A required subfield was absent from the named-field map.
    MissingField(FieldName),
    /// A subfield value does not fit its bit width; carries the field's
    /// largest legal value.
    FieldOverflow(FieldName, u8),
}

} // verus!
