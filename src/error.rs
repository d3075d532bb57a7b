use vstd::prelude::*;

verus! {

/// Why a byte string was rejected as a module.
#[derive(Clone, Copy, Debug, PartialEq, Eq, Structural)]
pub enum ParseError {
    /// The input ended before a value was complete.
    UnexpectedEnd,
    /// A LEB128 integer was malformed or did not fit its type.
    MalformedInteger,
    /// The first four bytes are not the module magic.
    MagicMismatch,
    /// The version field is not the supported version.
    UnsupportedVersion,
    /// A section kind byte outside `0..=11`.
    UnknownSectionId(u8),
    /// A non-custom section does not come after every earlier one in kind order.
    SectionOutOfOrder,
    /// A length-prefixed byte string runs past the end of its input.
    MalformedByteArray,
    /// Input remains after the last value.
    LeftoverBytes,
    /// A name is not valid UTF-8.
    InvalidUtf8,
    /// A value type other than `i32` or `i64`.
    UnsupportedValueType(u8),
    /// A limits tag other than `0x00` or `0x01`.
    BadLimitsTag(u8),
    /// A global mutability flag other than `0x00` or `0x01`.
    BadMutabilityFlag(u8),
    /// A fixed byte of the grammar was not there.
    UnexpectedByte { found: u8, expected: u8 },
    /// A function type with more than one result.
    MultipleResults,
    /// More than one table declaration.
    MultipleTables,
    /// More than one memory declaration.
    MultipleMemories,
    /// An import description tag outside `0x00..=0x03`.
    UnsupportedImportTag(u8),
    /// An export description tag outside `0x00..=0x03`.
    UnsupportedExportTag(u8),
    /// A reference to a table other than table 0.
    NonZeroTableIndex,
    /// A reference to a memory other than memory 0.
    NonZeroMemoryIndex,
    /// A start section, which this platform does not allow.
    StartNotSupported,
    /// A block type other than empty, `i32` or `i64`.
    UnsupportedBlockType(u8),
    /// An opcode outside the supported set.
    UnsupportedInstruction(u8),
    /// A code entry whose declared size differs from the bytes it occupies.
    CodeSizeMismatch,
}

/// The result of every parsing function.
pub type ParseResult<A> = Result<A, ParseError>;

} // verus!
