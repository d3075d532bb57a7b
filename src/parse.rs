//! Parsing of the binary format, in two stages. [`parse_skeleton`] carves the
//! input into its sections without looking inside them; [`parse_module`]
//! decodes each section into its typed form.
//!
//! Every parser is stated against a function on the mathematical input: the
//! bytes as a `Seq<u8>` and a position in them. A parser that succeeds yields
//! the value that function gives and stops where it says; one that fails
//! reports the error it gives.
use vstd::prelude::*;
use crate::cursor::{
    agrees, lemma_uleb_len, spec_byte, spec_i32, spec_i64, spec_u32, spec_u64, window, Cursor,
    SpecResult,
};
use crate::error::{ParseError, ParseResult};
use crate::types::{
    CustomSection, Module, ModuleModel,
    Code, CodeModel, CodeSection, Data, DataModel, DataSection, Element, ElementModel, ElementSection,
    ExportSection, Expression, FunctionSection, Global, GlobalModel, GlobalSection, ImportSection,
    Local, MemorySection, StartSection, TableSection, TypeSection,
    seq_model, BlockType, InstrModel, InstrSeq, Instruction, MemArg,
    ExportDescription, ExportModel, Export, FunctionType, FunctionTypeModel, GlobalType,
    ImportDescription, ImportModel, Import, Limits, MemoryType, Name, TableType, ValueType,
};
use vstd::utf8::{decode_utf8, valid_utf8};

verus! {

/// Sequences never reserve room for more than this many bytes up front,
/// whatever length they declare.
pub const MAX_PREALLOCATED_BYTES: usize = 1000;

/// A byte as the format speaks of it.
pub type Byte = u8;

/// A value that can be read from a cursor.
pub trait Parseable<'a>: Sized {
    /// The mathematical value that a parsed value stands for.
    type Model;

    spec fn model(&self) -> Self::Model;

    /// What reading a value at `pos` of `b` gives.
    spec fn spec_parse(b: Seq<u8>, pos: int) -> SpecResult<Self::Model>;

    /// Read a value, advancing the cursor past it.
    fn parse(cursor: &mut Cursor<'a>) -> (r: ParseResult<Self>)
        requires
            old(cursor).wf(),
        ensures
            final(cursor).wf(),
            final(cursor).bytes@ == old(cursor).bytes@,
            final(cursor).pos >= old(cursor).pos,
            match Self::spec_parse(old(cursor).bytes@, old(cursor).pos as int) {
                Ok((m, p)) => r matches Ok(x) && x.model() == m && final(cursor).pos == p,
                Err(e) => r matches Err(f) && f == e,
            },
    ;
}

/// The models of a sequence of values.
pub open spec fn models<'a, A: Parseable<'a>>(s: Seq<A>) -> Seq<A::Model> {
    s.map_values(|a: A| a.model())
}

impl<'a> Parseable<'a> for u8 {
    type Model = u8;

    open spec fn model(&self) -> u8 {
        *self
    }

    open spec fn spec_parse(b: Seq<u8>, pos: int) -> SpecResult<u8> {
        spec_byte(b, pos)
    }

    fn parse(cursor: &mut Cursor<'a>) -> (r: ParseResult<u8>) {
        cursor.read_byte()
    }
}

impl<'a> Parseable<'a> for u32 {
    type Model = u32;

    open spec fn model(&self) -> u32 {
        *self
    }

    open spec fn spec_parse(b: Seq<u8>, pos: int) -> SpecResult<u32> {
        spec_u32(b, pos)
    }

    fn parse(cursor: &mut Cursor<'a>) -> (r: ParseResult<u32>) {
        cursor.read_u32()
    }
}

impl<'a> Parseable<'a> for u64 {
    type Model = u64;

    open spec fn model(&self) -> u64 {
        *self
    }

    open spec fn spec_parse(b: Seq<u8>, pos: int) -> SpecResult<u64> {
        spec_u64(b, pos)
    }

    fn parse(cursor: &mut Cursor<'a>) -> (r: ParseResult<u64>) {
        cursor.read_u64()
    }
}

impl<'a> Parseable<'a> for i32 {
    type Model = i32;

    open spec fn model(&self) -> i32 {
        *self
    }

    open spec fn spec_parse(b: Seq<u8>, pos: int) -> SpecResult<i32> {
        spec_i32(b, pos)
    }

    fn parse(cursor: &mut Cursor<'a>) -> (r: ParseResult<i32>) {
        cursor.read_i32()
    }
}

impl<'a> Parseable<'a> for i64 {
    type Model = i64;

    open spec fn model(&self) -> i64 {
        *self
    }

    open spec fn spec_parse(b: Seq<u8>, pos: int) -> SpecResult<i64> {
        spec_i64(b, pos)
    }

    fn parse(cursor: &mut Cursor<'a>) -> (r: ParseResult<i64>) {
        cursor.read_i64()
    }
}

/// A length-prefixed byte string, borrowed from the input.
pub open spec fn spec_byte_array(b: Seq<u8>, pos: int) -> SpecResult<Seq<u8>> {
    match spec_u32(b, pos) {
        Ok((n, p)) => if p + n <= b.len() {
            Ok((b.subrange(p, p + n), p + n))
        } else {
            Err(ParseError::MalformedByteArray)
        },
        Err(e) => Err(e),
    }
}

impl<'a> Parseable<'a> for &'a [u8] {
    type Model = Seq<u8>;

    open spec fn model(&self) -> Seq<u8> {
        self@
    }

    open spec fn spec_parse(b: Seq<u8>, pos: int) -> SpecResult<Seq<u8>> {
        spec_byte_array(b, pos)
    }

    fn parse(cursor: &mut Cursor<'a>) -> (r: ParseResult<&'a [u8]>) {
        let len = cursor.read_u32()? as usize;
        let bytes: &'a [u8] = cursor.bytes;
        let pos = cursor.pos;
        if len <= bytes.len() - pos {
            let end = pos + len;
            cursor.pos = end;
            Ok(&bytes[pos..end])
        } else {
            Err(ParseError::MalformedByteArray)
        }
    }
}

/// `n` values one after another.
pub open spec fn spec_elems<'a, A: Parseable<'a>>(b: Seq<u8>, pos: int, n: nat) -> SpecResult<
    Seq<A::Model>,
>
    decreases n,
{
    if n == 0 {
        Ok((seq![], pos))
    } else {
        match spec_elems::<A>(b, pos, (n - 1) as nat) {
            Ok((s, p)) => match A::spec_parse(b, p) {
                Ok((m, q)) => Ok((s.push(m), q)),
                Err(e) => Err(e),
            },
            Err(e) => Err(e),
        }
    }
}

/// Once a run of values fails, every longer run fails the same way.
pub proof fn lemma_elems_err<'a, A: Parseable<'a>>(b: Seq<u8>, pos: int, k: nat, n: nat)
    requires
        k <= n,
        spec_elems::<A>(b, pos, k) is Err,
    ensures
        spec_elems::<A>(b, pos, n) == spec_elems::<A>(b, pos, k),
    decreases n - k,
{
    if n > k {
        lemma_elems_err::<A>(b, pos, k, (n - 1) as nat);
    }
}

/// The smaller of `declared` and the number of `elem_size`-byte elements
/// that fit in [`MAX_PREALLOCATED_BYTES`] (an element takes at least a byte).
pub open spec fn capped_capacity(declared: int, elem_size: int) -> int {
    let fit = MAX_PREALLOCATED_BYTES as int / (if elem_size <= 0 { 1 } else { elem_size });
    if declared < fit {
        declared
    } else {
        fit
    }
}

/// How many elements to reserve for a sequence that declares `declared`
/// elements of `elem_size` bytes each: at most what fits in
/// [`MAX_PREALLOCATED_BYTES`], so that a huge declared length costs nothing
/// before its elements are actually read.
pub fn preallocation(declared: u32, elem_size: usize) -> (r: usize)
    ensures
        r == capped_capacity(declared as int, elem_size as int),
        r <= MAX_PREALLOCATED_BYTES,
{
    let size = if elem_size == 0 { 1 } else { elem_size };
    let cap = MAX_PREALLOCATED_BYTES / size;
    if (declared as usize) < cap {
        declared as usize
    } else {
        cap
    }
}

impl<'a, A: Parseable<'a>> Parseable<'a> for Vec<A> {
    type Model = Seq<A::Model>;

    open spec fn model(&self) -> Seq<A::Model> {
        models::<A>(self@)
    }

    open spec fn spec_parse(b: Seq<u8>, pos: int) -> SpecResult<Seq<A::Model>> {
        match spec_u32(b, pos) {
            Ok((n, p)) => spec_elems::<A>(b, p, n as nat),
            Err(e) => Err(e),
        }
    }

    fn parse(cursor: &mut Cursor<'a>) -> (r: ParseResult<Vec<A>>) {
        let len = cursor.read_u32()?;
        let ghost b = cursor.bytes@;
        let ghost start = cursor.pos as int;
        let ghost first = old(cursor).pos;
        let mut out: Vec<A> = Vec::with_capacity(preallocation(len, core::mem::size_of::<A>()));
        let mut i: u32 = 0;
        assert(models::<A>(out@) =~= seq![]);
        while i < len
            invariant
                cursor.wf(),
                cursor.bytes@ == b,
                b == old(cursor).bytes@,
                first == old(cursor).pos,
                spec_u32(b, first as int) == Ok::<(u32, int), ParseError>((len, start)),
                cursor.pos >= start >= first,
                i <= len,
                spec_elems::<A>(b, start, i as nat) == Ok::<(Seq<A::Model>, int), ParseError>(
                    (models::<A>(out@), cursor.pos as int),
                ),
            decreases len - i,
        {
            let ghost before = out@;
            match A::parse(cursor) {
                Ok(x) => {
                    out.push(x);
                    assert(models::<A>(out@) =~= models::<A>(before).push(x.model()));
                },
                Err(e) => {
                    proof {
                        assert(spec_elems::<A>(b, start, (i + 1) as nat) is Err);
                        lemma_elems_err::<A>(b, start, (i + 1) as nat, len as nat);
                    }
                    return Err(e);
                },
            }
            i = i + 1;
        }
        Ok(out)
    }
}

/// The kind of a section, in the order in which non-custom sections must
/// appear.
#[derive(Clone, Copy, Debug, PartialEq, Eq, Structural, PartialOrd, Ord)]
pub enum SectionId {
    Custom,
    Type,
    Import,
    Function,
    Table,
    Memory,
    Global,
    Export,
    Start,
    Element,
    Code,
    Data,
}

impl SectionId {
    /// The kind's byte on the wire.
    pub open spec fn spec_code(self) -> u8 {
        match self {
            SectionId::Custom => 0,
            SectionId::Type => 1,
            SectionId::Import => 2,
            SectionId::Function => 3,
            SectionId::Table => 4,
            SectionId::Memory => 5,
            SectionId::Global => 6,
            SectionId::Export => 7,
            SectionId::Start => 8,
            SectionId::Element => 9,
            SectionId::Code => 10,
            SectionId::Data => 11,
        }
    }

    /// The kind's byte on the wire.
    pub fn code(&self) -> (r: u8)
        ensures
            r == self.spec_code(),
    {
        match self {
            SectionId::Custom => 0,
            SectionId::Type => 1,
            SectionId::Import => 2,
            SectionId::Function => 3,
            SectionId::Table => 4,
            SectionId::Memory => 5,
            SectionId::Global => 6,
            SectionId::Export => 7,
            SectionId::Start => 8,
            SectionId::Element => 9,
            SectionId::Code => 10,
            SectionId::Data => 11,
        }
    }
}

/// The section kind that a byte names, if any.
pub open spec fn section_id_of(x: u8) -> Option<SectionId> {
    if x == 0 {
        Some(SectionId::Custom)
    } else if x == 1 {
        Some(SectionId::Type)
    } else if x == 2 {
        Some(SectionId::Import)
    } else if x == 3 {
        Some(SectionId::Function)
    } else if x == 4 {
        Some(SectionId::Table)
    } else if x == 5 {
        Some(SectionId::Memory)
    } else if x == 6 {
        Some(SectionId::Global)
    } else if x == 7 {
        Some(SectionId::Export)
    } else if x == 8 {
        Some(SectionId::Start)
    } else if x == 9 {
        Some(SectionId::Element)
    } else if x == 10 {
        Some(SectionId::Code)
    } else if x == 11 {
        Some(SectionId::Data)
    } else {
        None
    }
}

impl<'a> Parseable<'a> for SectionId {
    type Model = SectionId;

    open spec fn model(&self) -> SectionId {
        *self
    }

    open spec fn spec_parse(b: Seq<u8>, pos: int) -> SpecResult<SectionId> {
        match spec_byte(b, pos) {
            Ok((x, p)) => match section_id_of(x) {
                Some(id) => Ok((id, p)),
                None => Err(ParseError::UnknownSectionId(x)),
            },
            Err(e) => Err(e),
        }
    }

    fn parse(cursor: &mut Cursor<'a>) -> (r: ParseResult<SectionId>) {
        let x = cursor.read_byte()?;
        match x {
            0 => Ok(SectionId::Custom),
            1 => Ok(SectionId::Type),
            2 => Ok(SectionId::Import),
            3 => Ok(SectionId::Function),
            4 => Ok(SectionId::Table),
            5 => Ok(SectionId::Memory),
            6 => Ok(SectionId::Global),
            7 => Ok(SectionId::Export),
            8 => Ok(SectionId::Start),
            9 => Ok(SectionId::Element),
            10 => Ok(SectionId::Code),
            11 => Ok(SectionId::Data),
            _ => Err(ParseError::UnknownSectionId(x)),
        }
    }
}

/// A section carved out of the input and not decoded: its kind and its
/// bytes, borrowed from the input. Writing the kind, the length and the bytes
/// gives the section back.
#[derive(Debug)]
pub struct UnparsedSection<'a> {
    pub section_id: SectionId,
    pub bytes: &'a [u8],
}

/// What an unparsed section stands for.
pub struct SectionModel {
    pub section_id: SectionId,
    pub bytes: Seq<u8>,
}

impl<'a> Parseable<'a> for UnparsedSection<'a> {
    type Model = SectionModel;

    open spec fn model(&self) -> SectionModel {
        SectionModel { section_id: self.section_id, bytes: self.bytes@ }
    }

    open spec fn spec_parse(b: Seq<u8>, pos: int) -> SpecResult<SectionModel> {
        match SectionId::spec_parse(b, pos) {
            Ok((id, p)) => match spec_byte_array(b, p) {
                Ok((bytes, q)) => Ok((SectionModel { section_id: id, bytes }, q)),
                Err(e) => Err(e),
            },
            Err(e) => Err(e),
        }
    }

    fn parse(cursor: &mut Cursor<'a>) -> (r: ParseResult<UnparsedSection<'a>>) {
        let section_id = SectionId::parse(cursor)?;
        let bytes = <&'a [u8]>::parse(cursor)?;
        Ok(UnparsedSection { section_id, bytes })
    }
}

/// Relies on `std::str::from_utf8`: it accepts exactly the valid UTF-8 byte
/// strings, and the string it returns holds the characters they encode.
#[verifier::external_body]
fn str_from_utf8(b: &[u8]) -> (r: Option<&str>)
    ensures
        r is Some <==> valid_utf8(b@),
        r matches Some(s) ==> s@ == decode_utf8(b@),
{
    std::str::from_utf8(b).ok()
}

impl<'a> Parseable<'a> for Name {
    type Model = Seq<char>;

    open spec fn model(&self) -> Seq<char> {
        self.name@
    }

    open spec fn spec_parse(b: Seq<u8>, pos: int) -> SpecResult<Seq<char>> {
        match spec_byte_array(b, pos) {
            Ok((bytes, p)) => if valid_utf8(bytes) {
                Ok((decode_utf8(bytes), p))
            } else {
                Err(ParseError::InvalidUtf8)
            },
            Err(e) => Err(e),
        }
    }

    fn parse(cursor: &mut Cursor<'a>) -> (r: ParseResult<Name>) {
        let name_bytes = <&'a [u8]>::parse(cursor)?;
        match str_from_utf8(name_bytes) {
            Some(s) => Ok(Name { name: s.to_owned() }),
            None => Err(ParseError::InvalidUtf8),
        }
    }
}

impl<'a> Parseable<'a> for ValueType {
    type Model = ValueType;

    open spec fn model(&self) -> ValueType {
        *self
    }

    open spec fn spec_parse(b: Seq<u8>, pos: int) -> SpecResult<ValueType> {
        match spec_byte(b, pos) {
            Ok((x, p)) => if x == 0x7F {
                Ok((ValueType::I32, p))
            } else if x == 0x7E {
                Ok((ValueType::I64, p))
            } else {
                Err(ParseError::UnsupportedValueType(x))
            },
            Err(e) => Err(e),
        }
    }

    fn parse(cursor: &mut Cursor<'a>) -> (r: ParseResult<ValueType>) {
        match cursor.read_byte()? {
            0x7F => Ok(ValueType::I32),
            0x7E => Ok(ValueType::I64),
            x => Err(ParseError::UnsupportedValueType(x)),
        }
    }
}

impl<'a> Parseable<'a> for Limits {
    type Model = Limits;

    open spec fn model(&self) -> Limits {
        *self
    }

    open spec fn spec_parse(b: Seq<u8>, pos: int) -> SpecResult<Limits> {
        match spec_byte(b, pos) {
            Ok((tag, p)) => if tag == 0x00 {
                match spec_u32(b, p) {
                    Ok((min, q)) => Ok((Limits { min, max: None }, q)),
                    Err(e) => Err(e),
                }
            } else if tag == 0x01 {
                match spec_u32(b, p) {
                    Ok((min, q)) => match spec_u32(b, q) {
                        Ok((max, t)) => Ok((Limits { min, max: Some(max) }, t)),
                        Err(e) => Err(e),
                    },
                    Err(e) => Err(e),
                }
            } else {
                Err(ParseError::BadLimitsTag(tag))
            },
            Err(e) => Err(e),
        }
    }

    fn parse(cursor: &mut Cursor<'a>) -> (r: ParseResult<Limits>) {
        match cursor.read_byte()? {
            0x00 => {
                let min = cursor.read_u32()?;
                Ok(Limits { min, max: None })
            },
            0x01 => {
                let min = cursor.read_u32()?;
                let max = cursor.read_u32()?;
                Ok(Limits { min, max: Some(max) })
            },
            tag => Err(ParseError::BadLimitsTag(tag)),
        }
    }
}

/// A byte that the grammar fixes.
pub open spec fn spec_expect(b: Seq<u8>, pos: int, byte: u8) -> SpecResult<()> {
    match spec_byte(b, pos) {
        Ok((x, p)) => if x == byte {
            Ok(((), p))
        } else {
            Err(ParseError::UnexpectedByte { found: x, expected: byte })
        },
        Err(e) => Err(e),
    }
}

/// Read a single byte and fail unless it is `byte`.
pub fn expect_byte<'a>(cursor: &mut Cursor<'a>, byte: Byte) -> (r: ParseResult<()>)
    requires
        old(cursor).wf(),
    ensures
        final(cursor).wf(),
        final(cursor).bytes@ == old(cursor).bytes@,
        final(cursor).pos >= old(cursor).pos,
        agrees(spec_expect(old(cursor).bytes@, old(cursor).pos as int, byte), r, final(cursor).pos as int),
{
    let x = cursor.read_byte()?;
    if x == byte {
        Ok(())
    } else {
        Err(ParseError::UnexpectedByte { found: x, expected: byte })
    }
}

impl<'a> Parseable<'a> for FunctionType {
    type Model = FunctionTypeModel;

    open spec fn model(&self) -> FunctionTypeModel {
        FunctionTypeModel { parameters: self.parameters@, result: self.result }
    }

    open spec fn spec_parse(b: Seq<u8>, pos: int) -> SpecResult<FunctionTypeModel> {
        match spec_expect(b, pos, 0x60) {
            Ok((_, p)) => match Vec::<ValueType>::spec_parse(b, p) {
                Ok((parameters, q)) => match Vec::<ValueType>::spec_parse(b, q) {
                    Ok((results, t)) => if results.len() == 0 {
                        Ok((FunctionTypeModel { parameters, result: None }, t))
                    } else if results.len() == 1 {
                        Ok((FunctionTypeModel { parameters, result: Some(results[0]) }, t))
                    } else {
                        Err(ParseError::MultipleResults)
                    },
                    Err(e) => Err(e),
                },
                Err(e) => Err(e),
            },
            Err(e) => Err(e),
        }
    }

    fn parse(cursor: &mut Cursor<'a>) -> (r: ParseResult<FunctionType>) {
        expect_byte(cursor, 0x60)?;
        let parameters = Vec::<ValueType>::parse(cursor)?;
        let results = Vec::<ValueType>::parse(cursor)?;
        proof {
            assert(models::<ValueType>(parameters@) =~= parameters@);
            assert(models::<ValueType>(results@) =~= results@);
        }
        if results.len() == 0 {
            Ok(FunctionType { parameters, result: None })
        } else if results.len() == 1 {
            Ok(FunctionType { parameters, result: Some(results[0]) })
        } else {
            Err(ParseError::MultipleResults)
        }
    }
}

impl<'a> Parseable<'a> for GlobalType {
    type Model = GlobalType;

    open spec fn model(&self) -> GlobalType {
        *self
    }

    open spec fn spec_parse(b: Seq<u8>, pos: int) -> SpecResult<GlobalType> {
        match ValueType::spec_parse(b, pos) {
            Ok((ty, p)) => match spec_byte(b, p) {
                Ok((flag, q)) => if flag == 0x00 {
                    Ok((GlobalType { ty, mutable: false }, q))
                } else if flag == 0x01 {
                    Ok((GlobalType { ty, mutable: true }, q))
                } else {
                    Err(ParseError::BadMutabilityFlag(flag))
                },
                Err(e) => Err(e),
            },
            Err(e) => Err(e),
        }
    }

    fn parse(cursor: &mut Cursor<'a>) -> (r: ParseResult<GlobalType>) {
        let ty = ValueType::parse(cursor)?;
        let mutable = match cursor.read_byte()? {
            0x00 => false,
            0x01 => true,
            flag => {
                return Err(ParseError::BadMutabilityFlag(flag));
            },
        };
        Ok(GlobalType { ty, mutable })
    }
}

impl<'a> Parseable<'a> for TableType {
    type Model = TableType;

    open spec fn model(&self) -> TableType {
        *self
    }

    open spec fn spec_parse(b: Seq<u8>, pos: int) -> SpecResult<TableType> {
        match spec_expect(b, pos, 0x70) {
            Ok((_, p)) => match Limits::spec_parse(b, p) {
                Ok((limits, q)) => Ok((TableType { limits }, q)),
                Err(e) => Err(e),
            },
            Err(e) => Err(e),
        }
    }

    fn parse(cursor: &mut Cursor<'a>) -> (r: ParseResult<TableType>) {
        expect_byte(cursor, 0x70)?;
        let limits = Limits::parse(cursor)?;
        Ok(TableType { limits })
    }
}

impl<'a> Parseable<'a> for MemoryType {
    type Model = MemoryType;

    open spec fn model(&self) -> MemoryType {
        *self
    }

    open spec fn spec_parse(b: Seq<u8>, pos: int) -> SpecResult<MemoryType> {
        match Limits::spec_parse(b, pos) {
            Ok((limits, p)) => Ok((MemoryType { limits }, p)),
            Err(e) => Err(e),
        }
    }

    fn parse(cursor: &mut Cursor<'a>) -> (r: ParseResult<MemoryType>) {
        let limits = Limits::parse(cursor)?;
        Ok(MemoryType { limits })
    }
}

impl<'a> Parseable<'a> for ImportDescription {
    type Model = ImportDescription;

    open spec fn model(&self) -> ImportDescription {
        *self
    }

    open spec fn spec_parse(b: Seq<u8>, pos: int) -> SpecResult<ImportDescription> {
        match spec_byte(b, pos) {
            Ok((tag, p)) => if tag == 0x00 {
                match spec_u32(b, p) {
                    Ok((type_idx, q)) => Ok((ImportDescription::Func { type_idx }, q)),
                    Err(e) => Err(e),
                }
            } else if tag == 0x01 {
                match TableType::spec_parse(b, p) {
                    Ok((table_type, q)) => Ok((ImportDescription::Table { table_type }, q)),
                    Err(e) => Err(e),
                }
            } else if tag == 0x02 {
                match MemoryType::spec_parse(b, p) {
                    Ok((memory_type, q)) => Ok((ImportDescription::Memory { memory_type }, q)),
                    Err(e) => Err(e),
                }
            } else if tag == 0x03 {
                match GlobalType::spec_parse(b, p) {
                    Ok((global_type, q)) => Ok((ImportDescription::Global { global_type }, q)),
                    Err(e) => Err(e),
                }
            } else {
                Err(ParseError::UnsupportedImportTag(tag))
            },
            Err(e) => Err(e),
        }
    }

    fn parse(cursor: &mut Cursor<'a>) -> (r: ParseResult<ImportDescription>) {
        match cursor.read_byte()? {
            0x00 => {
                let type_idx = cursor.read_u32()?;
                Ok(ImportDescription::Func { type_idx })
            },
            0x01 => {
                let table_type = TableType::parse(cursor)?;
                Ok(ImportDescription::Table { table_type })
            },
            0x02 => {
                let memory_type = MemoryType::parse(cursor)?;
                Ok(ImportDescription::Memory { memory_type })
            },
            0x03 => {
                let global_type = GlobalType::parse(cursor)?;
                Ok(ImportDescription::Global { global_type })
            },
            tag => Err(ParseError::UnsupportedImportTag(tag)),
        }
    }
}

impl<'a> Parseable<'a> for Import {
    type Model = ImportModel;

    open spec fn model(&self) -> ImportModel {
        ImportModel {
            mod_name: self.mod_name.model(),
            item_name: self.item_name.model(),
            description: self.description,
        }
    }

    open spec fn spec_parse(b: Seq<u8>, pos: int) -> SpecResult<ImportModel> {
        match Name::spec_parse(b, pos) {
            Ok((mod_name, p)) => match Name::spec_parse(b, p) {
                Ok((item_name, q)) => match ImportDescription::spec_parse(b, q) {
                    Ok((description, t)) => Ok((ImportModel { mod_name, item_name, description }, t)),
                    Err(e) => Err(e),
                },
                Err(e) => Err(e),
            },
            Err(e) => Err(e),
        }
    }

    fn parse(cursor: &mut Cursor<'a>) -> (r: ParseResult<Import>) {
        let mod_name = Name::parse(cursor)?;
        let item_name = Name::parse(cursor)?;
        let description = ImportDescription::parse(cursor)?;
        Ok(Import { mod_name, item_name, description })
    }
}

impl<'a> Parseable<'a> for ExportDescription {
    type Model = ExportDescription;

    open spec fn model(&self) -> ExportDescription {
        *self
    }

    open spec fn spec_parse(b: Seq<u8>, pos: int) -> SpecResult<ExportDescription> {
        match spec_byte(b, pos) {
            Ok((tag, p)) => if tag > 0x03 {
                Err(ParseError::UnsupportedExportTag(tag))
            } else {
                match spec_u32(b, p) {
                    Ok((index, q)) => if tag == 0x00 {
                        Ok((ExportDescription::Func { index }, q))
                    } else if tag == 0x03 {
                        Ok((ExportDescription::Global { index }, q))
                    } else if index != 0 {
                        Err(
                            if tag == 0x01 {
                                ParseError::NonZeroTableIndex
                            } else {
                                ParseError::NonZeroMemoryIndex
                            },
                        )
                    } else if tag == 0x01 {
                        Ok((ExportDescription::Table, q))
                    } else {
                        Ok((ExportDescription::Memory, q))
                    },
                    Err(e) => Err(e),
                }
            },
            Err(e) => Err(e),
        }
    }

    fn parse(cursor: &mut Cursor<'a>) -> (r: ParseResult<ExportDescription>) {
        match cursor.read_byte()? {
            0x00 => {
                let index = cursor.read_u32()?;
                Ok(ExportDescription::Func { index })
            },
            0x01 => {
                let index = cursor.read_u32()?;
                if index == 0 {
                    Ok(ExportDescription::Table)
                } else {
                    Err(ParseError::NonZeroTableIndex)
                }
            },
            0x02 => {
                let index = cursor.read_u32()?;
                if index == 0 {
                    Ok(ExportDescription::Memory)
                } else {
                    Err(ParseError::NonZeroMemoryIndex)
                }
            },
            0x03 => {
                let index = cursor.read_u32()?;
                Ok(ExportDescription::Global { index })
            },
            tag => Err(ParseError::UnsupportedExportTag(tag)),
        }
    }
}

impl<'a> Parseable<'a> for Export {
    type Model = ExportModel;

    open spec fn model(&self) -> ExportModel {
        ExportModel { name: self.name.model(), description: self.description }
    }

    open spec fn spec_parse(b: Seq<u8>, pos: int) -> SpecResult<ExportModel> {
        match Name::spec_parse(b, pos) {
            Ok((name, p)) => match ExportDescription::spec_parse(b, p) {
                Ok((description, q)) => Ok((ExportModel { name, description }, q)),
                Err(e) => Err(e),
            },
            Err(e) => Err(e),
        }
    }

    fn parse(cursor: &mut Cursor<'a>) -> (r: ParseResult<Export>) {
        let name = Name::parse(cursor)?;
        let description = ExportDescription::parse(cursor)?;
        Ok(Export { name, description })
    }
}

/// The end marker of an instruction sequence.
pub const END: Byte = 0x0B;

/// The marker between the branches of an `if`.
pub const ELSE: Byte = 0x05;

impl<'a> Parseable<'a> for BlockType {
    type Model = BlockType;

    open spec fn model(&self) -> BlockType {
        *self
    }

    open spec fn spec_parse(b: Seq<u8>, pos: int) -> SpecResult<BlockType> {
        match spec_byte(b, pos) {
            Ok((x, p)) => if x == 0x40 {
                Ok((BlockType::EmptyType, p))
            } else if x == 0x7F {
                Ok((BlockType::ValueType(ValueType::I32), p))
            } else if x == 0x7E {
                Ok((BlockType::ValueType(ValueType::I64), p))
            } else {
                Err(ParseError::UnsupportedBlockType(x))
            },
            Err(e) => Err(e),
        }
    }

    fn parse(cursor: &mut Cursor<'a>) -> (r: ParseResult<BlockType>) {
        match cursor.read_byte()? {
            0x40 => Ok(BlockType::EmptyType),
            0x7F => Ok(BlockType::ValueType(ValueType::I32)),
            0x7E => Ok(BlockType::ValueType(ValueType::I64)),
            x => Err(ParseError::UnsupportedBlockType(x)),
        }
    }
}

/// The immediate of loads and stores: alignment, then offset.
impl<'a> Parseable<'a> for MemArg {
    type Model = MemArg;

    open spec fn model(&self) -> MemArg {
        *self
    }

    open spec fn spec_parse(b: Seq<u8>, pos: int) -> SpecResult<MemArg> {
        match spec_u32(b, pos) {
            Ok((align, p)) => match spec_u32(b, p) {
                Ok((offset, q)) => Ok((MemArg { offset, align }, q)),
                Err(e) => Err(e),
            },
            Err(e) => Err(e),
        }
    }

    fn parse(cursor: &mut Cursor<'a>) -> (r: ParseResult<MemArg>) {
        let align = cursor.read_u32()?;
        let offset = cursor.read_u32()?;
        Ok(MemArg { offset, align })
    }
}

/// The instruction that an opcode without immediates stands for.
pub open spec fn plain_instr(op: u8) -> Option<Instruction> {
    match op {
        0x00 => Some(Instruction::Unreachable),
        0x01 => Some(Instruction::Nop),
        0x0F => Some(Instruction::Return),
        0x1A => Some(Instruction::Drop),
        0x1B => Some(Instruction::Select),
        0x45 => Some(Instruction::I32Eqz),
        0x46 => Some(Instruction::I32Eq),
        0x47 => Some(Instruction::I32Ne),
        0x48 => Some(Instruction::I32LtS),
        0x49 => Some(Instruction::I32LtU),
        0x4A => Some(Instruction::I32GtS),
        0x4B => Some(Instruction::I32GtU),
        0x4C => Some(Instruction::I32LeS),
        0x4D => Some(Instruction::I32LeU),
        0x4E => Some(Instruction::I32GeS),
        0x4F => Some(Instruction::I32GeU),
        0x50 => Some(Instruction::I64Eqz),
        0x51 => Some(Instruction::I64Eq),
        0x52 => Some(Instruction::I64Ne),
        0x53 => Some(Instruction::I64LtS),
        0x54 => Some(Instruction::I64LtU),
        0x55 => Some(Instruction::I64GtS),
        0x56 => Some(Instruction::I64GtU),
        0x57 => Some(Instruction::I64LeS),
        0x58 => Some(Instruction::I64LeU),
        0x59 => Some(Instruction::I64GeS),
        0x5A => Some(Instruction::I64GeU),
        0x67 => Some(Instruction::I32Clz),
        0x68 => Some(Instruction::I32Ctz),
        0x69 => Some(Instruction::I32Popcnt),
        0x6A => Some(Instruction::I32Add),
        0x6B => Some(Instruction::I32Sub),
        0x6C => Some(Instruction::I32Mul),
        0x6D => Some(Instruction::I32DivS),
        0x6E => Some(Instruction::I32DivU),
        0x6F => Some(Instruction::I32RemS),
        0x70 => Some(Instruction::I32RemU),
        0x71 => Some(Instruction::I32And),
        0x72 => Some(Instruction::I32Or),
        0x73 => Some(Instruction::I32Xor),
        0x74 => Some(Instruction::I32Shl),
        0x75 => Some(Instruction::I32ShrS),
        0x76 => Some(Instruction::I32ShrU),
        0x77 => Some(Instruction::I32Rotl),
        0x78 => Some(Instruction::I32Rotr),
        0x79 => Some(Instruction::I64Clz),
        0x7A => Some(Instruction::I64Ctz),
        0x7B => Some(Instruction::I64Popcnt),
        0x7C => Some(Instruction::I64Add),
        0x7D => Some(Instruction::I64Sub),
        0x7E => Some(Instruction::I64Mul),
        0x7F => Some(Instruction::I64DivS),
        0x80 => Some(Instruction::I64DivU),
        0x81 => Some(Instruction::I64RemS),
        0x82 => Some(Instruction::I64RemU),
        0x83 => Some(Instruction::I64And),
        0x84 => Some(Instruction::I64Or),
        0x85 => Some(Instruction::I64Xor),
        0x86 => Some(Instruction::I64Shl),
        0x87 => Some(Instruction::I64ShrS),
        0x88 => Some(Instruction::I64ShrU),
        0x89 => Some(Instruction::I64Rotl),
        0x8A => Some(Instruction::I64Rotr),
        0xA7 => Some(Instruction::I32WrapI64),
        0xAC => Some(Instruction::I64ExtendI32S),
        0xAD => Some(Instruction::I64ExtendI32U),
        _ => None,
    }
}

/// The instruction that an opcode with one index immediate stands for.
pub open spec fn index_instr(op: u8, idx: u32) -> Option<Instruction> {
    match op {
        0x0C => Some(Instruction::Br(idx)),
        0x0D => Some(Instruction::BrIf(idx)),
        0x10 => Some(Instruction::Call(idx)),
        0x20 => Some(Instruction::LocalGet(idx)),
        0x21 => Some(Instruction::LocalSet(idx)),
        0x22 => Some(Instruction::LocalTee(idx)),
        0x23 => Some(Instruction::GlobalGet(idx)),
        0x24 => Some(Instruction::GlobalSet(idx)),
        _ => None,
    }
}

/// The load or store that an opcode stands for.
pub open spec fn mem_instr(op: u8, m: MemArg) -> Option<Instruction> {
    match op {
        0x28 => Some(Instruction::I32Load(m)),
        0x29 => Some(Instruction::I64Load(m)),
        0x2C => Some(Instruction::I32Load8S(m)),
        0x2D => Some(Instruction::I32Load8U(m)),
        0x2E => Some(Instruction::I32Load16S(m)),
        0x2F => Some(Instruction::I32Load16U(m)),
        0x30 => Some(Instruction::I64Load8S(m)),
        0x31 => Some(Instruction::I64Load8U(m)),
        0x32 => Some(Instruction::I64Load16S(m)),
        0x33 => Some(Instruction::I64Load16U(m)),
        0x34 => Some(Instruction::I64Load32S(m)),
        0x35 => Some(Instruction::I64Load32U(m)),
        0x36 => Some(Instruction::I32Store(m)),
        0x37 => Some(Instruction::I64Store(m)),
        0x3A => Some(Instruction::I32Store8(m)),
        0x3B => Some(Instruction::I32Store16(m)),
        0x3C => Some(Instruction::I64Store8(m)),
        0x3D => Some(Instruction::I64Store16(m)),
        0x3E => Some(Instruction::I64Store32(m)),
        _ => None,
    }
}

/// An instruction whose opcode `op` was read just before `pos`.
///
/// Here and in [`spec_seq`] and [`spec_then`], the `pos < p <= b.len()`
/// tests carry the termination argument: a read never moves backwards or
/// past the end, as the decoders below show of every read they make.
pub open spec fn spec_instr(b: Seq<u8>, pos: int, op: u8) -> SpecResult<InstrModel>
    decreases b.len() - pos, 0int,
{
    if op == 0x02 || op == 0x03 {
        match BlockType::spec_parse(b, pos) {
            Ok((bt, p)) => if pos < p <= b.len() {
                match spec_seq(b, p, seq![]) {
                    Ok((body, q)) => Ok(
                        (if op == 0x02 {
                            InstrModel::Block(bt, body)
                        } else {
                            InstrModel::Loop(bt, body)
                        }, q),
                    ),
                    Err(e) => Err(e),
                }
            } else {
                Err(ParseError::UnexpectedEnd)
            },
            Err(e) => Err(e),
        }
    } else if op == 0x04 {
        match BlockType::spec_parse(b, pos) {
            Ok((ty, p)) => if pos < p <= b.len() {
                spec_then(b, p, ty, seq![])
            } else {
                Err(ParseError::UnexpectedEnd)
            },
            Err(e) => Err(e),
        }
    } else if op == 0x0E {
        match Vec::<u32>::spec_parse(b, pos) {
            Ok((labels, p)) => match spec_u32(b, p) {
                Ok((default, q)) => Ok((InstrModel::BrTable { labels, default }, q)),
                Err(e) => Err(e),
            },
            Err(e) => Err(e),
        }
    } else if op == 0x11 {
        match spec_u32(b, pos) {
            Ok((ty, p)) => match spec_expect(b, p, 0x00) {
                Ok((_, q)) => Ok((InstrModel::Plain(Instruction::CallIndirect(ty)), q)),
                Err(e) => Err(e),
            },
            Err(e) => Err(e),
        }
    } else if op == 0x3F || op == 0x40 {
        match spec_expect(b, pos, 0x00) {
            Ok((_, p)) => Ok(
                (InstrModel::Plain(
                    if op == 0x3F {
                        Instruction::MemorySize
                    } else {
                        Instruction::MemoryGrow
                    },
                ), p),
            ),
            Err(e) => Err(e),
        }
    } else if op == 0x41 {
        match spec_i32(b, pos) {
            Ok((n, p)) => Ok((InstrModel::Plain(Instruction::I32Const(n)), p)),
            Err(e) => Err(e),
        }
    } else if op == 0x42 {
        match spec_i64(b, pos) {
            Ok((n, p)) => Ok((InstrModel::Plain(Instruction::I64Const(n)), p)),
            Err(e) => Err(e),
        }
    } else if index_instr(op, 0) is Some {
        match spec_u32(b, pos) {
            Ok((idx, p)) => Ok((InstrModel::Plain(index_instr(op, idx)->0), p)),
            Err(e) => Err(e),
        }
    } else if mem_instr(op, MemArg { offset: 0, align: 0 }) is Some {
        match MemArg::spec_parse(b, pos) {
            Ok((m, p)) => Ok((InstrModel::Plain(mem_instr(op, m)->0), p)),
            Err(e) => Err(e),
        }
    } else {
        match plain_instr(op) {
            Some(i) => Ok((InstrModel::Plain(i), pos)),
            None => Err(ParseError::UnsupportedInstruction(op)),
        }
    }
}

/// Instructions from `pos` up to and including the end marker, after the
/// instructions `acc` already read.
pub open spec fn spec_seq(b: Seq<u8>, pos: int, acc: Seq<InstrModel>) -> SpecResult<Seq<InstrModel>>
    decreases b.len() - pos, 1int,
{
    match spec_byte(b, pos) {
        Ok((op, p)) => if op == END {
            Ok((acc, p))
        } else {
            match spec_instr(b, p, op) {
                Ok((i, q)) => if pos < q <= b.len() {
                    spec_seq(b, q, acc.push(i))
                } else {
                    Err(ParseError::UnexpectedEnd)
                },
                Err(e) => Err(e),
            }
        },
        Err(e) => Err(e),
    }
}

/// The then branch of an `if` of type `ty` from `pos` on, after the
/// instructions `acc` already read, and the else branch if there is one.
pub open spec fn spec_then(b: Seq<u8>, pos: int, ty: BlockType, acc: Seq<InstrModel>) -> SpecResult<InstrModel>
    decreases b.len() - pos, 1int,
{
    match spec_byte(b, pos) {
        Ok((op, p)) => if op == END {
            Ok((InstrModel::If { ty, then_branch: acc, else_branch: seq![] }, p))
        } else if op == ELSE {
            match spec_seq(b, p, seq![]) {
                Ok((else_branch, q)) => Ok((InstrModel::If { ty, then_branch: acc, else_branch }, q)),
                Err(e) => Err(e),
            }
        } else {
            match spec_instr(b, p, op) {
                Ok((i, q)) => if pos < q <= b.len() {
                    spec_then(b, q, ty, acc.push(i))
                } else {
                    Err(ParseError::UnexpectedEnd)
                },
                Err(e) => Err(e),
            }
        },
        Err(e) => Err(e),
    }
}

/// Whether `op` is an instruction with one index immediate.
fn takes_index(op: Byte) -> (r: bool)
    ensures
        r == (index_instr(op, 0) is Some),
{
    op == 0x0C || op == 0x0D || op == 0x10 || op == 0x20 || op == 0x21 || op == 0x22 || op == 0x23 || op == 0x24
}

/// The instruction of index opcode `op` with immediate `idx`.
fn index_instruction(op: Byte, idx: u32) -> (r: Option<Instruction>)
    ensures
        r == index_instr(op, idx),
        r matches Some(i) ==> i.model() == InstrModel::Plain(i),
{
    match op {
        0x0C => Some(Instruction::Br(idx)),
        0x0D => Some(Instruction::BrIf(idx)),
        0x10 => Some(Instruction::Call(idx)),
        0x20 => Some(Instruction::LocalGet(idx)),
        0x21 => Some(Instruction::LocalSet(idx)),
        0x22 => Some(Instruction::LocalTee(idx)),
        0x23 => Some(Instruction::GlobalGet(idx)),
        0x24 => Some(Instruction::GlobalSet(idx)),
        _ => None,
    }
}

/// Whether `op` is a load or a store.
fn takes_memarg(op: Byte) -> (r: bool)
    ensures
        r == (mem_instr(op, MemArg { offset: 0, align: 0 }) is Some),
{
    (0x28 <= op && op <= 0x3E) && op != 0x2A && op != 0x2B && op != 0x38 && op != 0x39
}

/// The load or store of opcode `op` with immediate `m`.
fn memory_instruction(op: Byte, m: MemArg) -> (r: Option<Instruction>)
    ensures
        r == mem_instr(op, m),
        r matches Some(i) ==> i.model() == InstrModel::Plain(i),
{
    match op {
        0x28 => Some(Instruction::I32Load(m)),
        0x29 => Some(Instruction::I64Load(m)),
        0x2C => Some(Instruction::I32Load8S(m)),
        0x2D => Some(Instruction::I32Load8U(m)),
        0x2E => Some(Instruction::I32Load16S(m)),
        0x2F => Some(Instruction::I32Load16U(m)),
        0x30 => Some(Instruction::I64Load8S(m)),
        0x31 => Some(Instruction::I64Load8U(m)),
        0x32 => Some(Instruction::I64Load16S(m)),
        0x33 => Some(Instruction::I64Load16U(m)),
        0x34 => Some(Instruction::I64Load32S(m)),
        0x35 => Some(Instruction::I64Load32U(m)),
        0x36 => Some(Instruction::I32Store(m)),
        0x37 => Some(Instruction::I64Store(m)),
        0x3A => Some(Instruction::I32Store8(m)),
        0x3B => Some(Instruction::I32Store16(m)),
        0x3C => Some(Instruction::I64Store8(m)),
        0x3D => Some(Instruction::I64Store16(m)),
        0x3E => Some(Instruction::I64Store32(m)),
        _ => None,
    }
}

/// The instruction of opcode `op` if it takes no immediates.
fn plain_instruction(op: Byte) -> (r: Option<Instruction>)
    ensures
        r == plain_instr(op),
        r matches Some(i) ==> i.model() == InstrModel::Plain(i),
{
    match op {
        0x00 => Some(Instruction::Unreachable),
        0x01 => Some(Instruction::Nop),
        0x0F => Some(Instruction::Return),
        0x1A => Some(Instruction::Drop),
        0x1B => Some(Instruction::Select),
        0x45 => Some(Instruction::I32Eqz),
        0x46 => Some(Instruction::I32Eq),
        0x47 => Some(Instruction::I32Ne),
        0x48 => Some(Instruction::I32LtS),
        0x49 => Some(Instruction::I32LtU),
        0x4A => Some(Instruction::I32GtS),
        0x4B => Some(Instruction::I32GtU),
        0x4C => Some(Instruction::I32LeS),
        0x4D => Some(Instruction::I32LeU),
        0x4E => Some(Instruction::I32GeS),
        0x4F => Some(Instruction::I32GeU),
        0x50 => Some(Instruction::I64Eqz),
        0x51 => Some(Instruction::I64Eq),
        0x52 => Some(Instruction::I64Ne),
        0x53 => Some(Instruction::I64LtS),
        0x54 => Some(Instruction::I64LtU),
        0x55 => Some(Instruction::I64GtS),
        0x56 => Some(Instruction::I64GtU),
        0x57 => Some(Instruction::I64LeS),
        0x58 => Some(Instruction::I64LeU),
        0x59 => Some(Instruction::I64GeS),
        0x5A => Some(Instruction::I64GeU),
        0x67 => Some(Instruction::I32Clz),
        0x68 => Some(Instruction::I32Ctz),
        0x69 => Some(Instruction::I32Popcnt),
        0x6A => Some(Instruction::I32Add),
        0x6B => Some(Instruction::I32Sub),
        0x6C => Some(Instruction::I32Mul),
        0x6D => Some(Instruction::I32DivS),
        0x6E => Some(Instruction::I32DivU),
        0x6F => Some(Instruction::I32RemS),
        0x70 => Some(Instruction::I32RemU),
        0x71 => Some(Instruction::I32And),
        0x72 => Some(Instruction::I32Or),
        0x73 => Some(Instruction::I32Xor),
        0x74 => Some(Instruction::I32Shl),
        0x75 => Some(Instruction::I32ShrS),
        0x76 => Some(Instruction::I32ShrU),
        0x77 => Some(Instruction::I32Rotl),
        0x78 => Some(Instruction::I32Rotr),
        0x79 => Some(Instruction::I64Clz),
        0x7A => Some(Instruction::I64Ctz),
        0x7B => Some(Instruction::I64Popcnt),
        0x7C => Some(Instruction::I64Add),
        0x7D => Some(Instruction::I64Sub),
        0x7E => Some(Instruction::I64Mul),
        0x7F => Some(Instruction::I64DivS),
        0x80 => Some(Instruction::I64DivU),
        0x81 => Some(Instruction::I64RemS),
        0x82 => Some(Instruction::I64RemU),
        0x83 => Some(Instruction::I64And),
        0x84 => Some(Instruction::I64Or),
        0x85 => Some(Instruction::I64Xor),
        0x86 => Some(Instruction::I64Shl),
        0x87 => Some(Instruction::I64ShrS),
        0x88 => Some(Instruction::I64ShrU),
        0x89 => Some(Instruction::I64Rotl),
        0x8A => Some(Instruction::I64Rotr),
        0xA7 => Some(Instruction::I32WrapI64),
        0xAC => Some(Instruction::I64ExtendI32S),
        0xAD => Some(Instruction::I64ExtendI32U),
        _ => None,
    }
}

/// Decode the instruction of opcode `op`, whose immediates follow at the
/// cursor. A block, loop or if is read with everything it nests. Any opcode
/// outside the supported set, every floating point one among them, is an
/// error.
pub fn decode_instruction<'a>(op: Byte, cursor: &mut Cursor<'a>) -> (r: ParseResult<Instruction>)
        requires
            old(cursor).wf(),
        ensures
            final(cursor).wf(),
            final(cursor).bytes@ == old(cursor).bytes@,
            final(cursor).pos >= old(cursor).pos,
            match spec_instr(old(cursor).bytes@, old(cursor).pos as int, op) {
                Ok((m, p)) => r matches Ok(i) && i.model() == m && final(cursor).pos == p,
                Err(e) => r matches Err(f) && f == e,
            },
    decreases old(cursor).bytes@.len() - old(cursor).pos, 1int,
{
    match op {
        0x02 | 0x03 => {
            let bt = BlockType::parse(cursor)?;
            let body = decode_terminated_sequence(cursor)?;
            if op == 0x02 {
                Ok(Instruction::Block(bt, body))
            } else {
                Ok(Instruction::Loop(bt, body))
            }
        },
        0x04 => decode_if(cursor),
        0x0E => {
            let labels = Vec::<u32>::parse(cursor)?;
            let default = cursor.read_u32()?;
            proof {
                assert(models::<u32>(labels@) =~= labels@);
            }
            Ok(Instruction::BrTable { labels, default })
        },
        0x11 => {
            let ty = cursor.read_u32()?;
            expect_byte(cursor, 0x00)?;
            Ok(Instruction::CallIndirect(ty))
        },
        0x3F => {
            expect_byte(cursor, 0x00)?;
            Ok(Instruction::MemorySize)
        },
        0x40 => {
            expect_byte(cursor, 0x00)?;
            Ok(Instruction::MemoryGrow)
        },
        0x41 => {
            let n = cursor.read_i32()?;
            Ok(Instruction::I32Const(n))
        },
        0x42 => {
            let n = cursor.read_i64()?;
            Ok(Instruction::I64Const(n))
        },
        _ => {
            if takes_index(op) {
                let idx = cursor.read_u32()?;
                match index_instruction(op, idx) {
                    Some(i) => Ok(i),
                    None => Err(ParseError::UnsupportedInstruction(op)),
                }
            } else if takes_memarg(op) {
                let m = MemArg::parse(cursor)?;
                match memory_instruction(op, m) {
                    Some(i) => Ok(i),
                    None => Err(ParseError::UnsupportedInstruction(op)),
                }
            } else {
                match plain_instruction(op) {
                    Some(i) => Ok(i),
                    None => Err(ParseError::UnsupportedInstruction(op)),
                }
            }
        },
    }
}

/// Decode the rest of an `if` whose block type has been read: the then
/// branch, and the else branch where the else marker comes before the end.
fn decode_if<'a>(cursor: &mut Cursor<'a>) -> (r: ParseResult<Instruction>)
        requires
            old(cursor).wf(),
        ensures
            final(cursor).wf(),
            final(cursor).bytes@ == old(cursor).bytes@,
            final(cursor).pos >= old(cursor).pos,
            match spec_instr(old(cursor).bytes@, old(cursor).pos as int, 0x04) {
                Ok((m, p)) => r matches Ok(i) && i.model() == m && final(cursor).pos == p,
                Err(e) => r matches Err(f) && f == e,
            },
    decreases old(cursor).bytes@.len() - old(cursor).pos, 0int,
{
    let ghost b = cursor.bytes@;
    let ty = BlockType::parse(cursor)?;
    let ghost start = cursor.pos as int;
    let mut then_branch: Vec<Instruction> = Vec::new();
    assert(seq_model(then_branch) =~= seq![]);
    loop
        invariant
            cursor.wf(),
            cursor.bytes@ == b,
            b == old(cursor).bytes@,
            cursor.pos >= start > old(cursor).pos,
            spec_instr(b, old(cursor).pos as int, 0x04) == spec_then(
                b,
                cursor.pos as int,
                ty,
                seq_model(then_branch),
            ),
        decreases b.len() - cursor.pos,
    {
        let op = cursor.read_byte()?;
        if op == END {
            let else_branch: Vec<Instruction> = Vec::new();
            assert(seq_model(else_branch) =~= seq![]);
            return Ok(Instruction::If { ty, then_branch, else_branch });
        } else if op == ELSE {
            let else_branch = decode_terminated_sequence(cursor)?;
            return Ok(Instruction::If { ty, then_branch, else_branch });
        } else {
            let ghost before = then_branch;
            let i = decode_instruction(op, cursor)?;
            let ghost im = i.model();
            then_branch.push(i);
            assert(seq_model(then_branch) =~= seq_model(before).push(im));
        }
    }
}

/// Decode instructions up to and including the end marker.
pub fn decode_terminated_sequence<'a>(cursor: &mut Cursor<'a>) -> (r: ParseResult<InstrSeq>)
        requires
            old(cursor).wf(),
        ensures
            final(cursor).wf(),
            final(cursor).bytes@ == old(cursor).bytes@,
            final(cursor).pos >= old(cursor).pos,
            match spec_seq(old(cursor).bytes@, old(cursor).pos as int, seq![]) {
                Ok((m, p)) => r matches Ok(s) && seq_model(s) == m && final(cursor).pos == p,
                Err(e) => r matches Err(f) && f == e,
            },
    decreases old(cursor).bytes@.len() - old(cursor).pos, 1int,
{
    let ghost b = cursor.bytes@;
    let mut instrs: Vec<Instruction> = Vec::new();
    assert(seq_model(instrs) =~= seq![]);
    loop
        invariant
            cursor.wf(),
            cursor.bytes@ == b,
            b == old(cursor).bytes@,
            cursor.pos >= old(cursor).pos,
            spec_seq(b, old(cursor).pos as int, seq![]) == spec_seq(
                b,
                cursor.pos as int,
                seq_model(instrs),
            ),
        decreases b.len() - cursor.pos,
    {
        let op = cursor.read_byte()?;
        if op == END {
            return Ok(instrs);
        }
        let ghost before = instrs;
        let i = decode_instruction(op, cursor)?;
        let ghost im = i.model();
        instrs.push(i);
        assert(seq_model(instrs) =~= seq_model(before).push(im));
    }
}

impl<'a> Parseable<'a> for Expression {
    type Model = Seq<InstrModel>;

    open spec fn model(&self) -> Seq<InstrModel> {
        seq_model(self.instrs)
    }

    open spec fn spec_parse(b: Seq<u8>, pos: int) -> SpecResult<Seq<InstrModel>> {
        spec_seq(b, pos, seq![])
    }

    fn parse(cursor: &mut Cursor<'a>) -> (r: ParseResult<Expression>) {
        let instrs = decode_terminated_sequence(cursor)?;
        Ok(Expression { instrs })
    }
}

impl<'a> Parseable<'a> for Local {
    type Model = Local;

    open spec fn model(&self) -> Local {
        *self
    }

    open spec fn spec_parse(b: Seq<u8>, pos: int) -> SpecResult<Local> {
        match spec_u32(b, pos) {
            Ok((multiplicity, p)) => match ValueType::spec_parse(b, p) {
                Ok((ty, q)) => Ok((Local { multiplicity, ty }, q)),
                Err(e) => Err(e),
            },
            Err(e) => Err(e),
        }
    }

    fn parse(cursor: &mut Cursor<'a>) -> (r: ParseResult<Local>) {
        let multiplicity = cursor.read_u32()?;
        let ty = ValueType::parse(cursor)?;
        Ok(Local { multiplicity, ty })
    }
}

/// A function body: its declared size, then local declarations and
/// instructions that must take exactly that many bytes.
impl<'a> Parseable<'a> for Code {
    type Model = CodeModel;

    open spec fn model(&self) -> CodeModel {
        CodeModel { locals: self.locals@, expr: self.expr.model() }
    }

    open spec fn spec_parse(b: Seq<u8>, pos: int) -> SpecResult<CodeModel> {
        match spec_u32(b, pos) {
            Ok((size, p)) => match Vec::<Local>::spec_parse(b, p) {
                Ok((locals, q)) => match Expression::spec_parse(b, q) {
                    Ok((expr, t)) => if t - p == size {
                        Ok((CodeModel { locals, expr }, t))
                    } else {
                        Err(ParseError::CodeSizeMismatch)
                    },
                    Err(e) => Err(e),
                },
                Err(e) => Err(e),
            },
            Err(e) => Err(e),
        }
    }

    fn parse(cursor: &mut Cursor<'a>) -> (r: ParseResult<Code>) {
        let size = cursor.read_u32()?;
        let start = cursor.position();
        let locals = Vec::<Local>::parse(cursor)?;
        let expr = Expression::parse(cursor)?;
        let end = cursor.position();
        proof {
            assert(models::<Local>(locals@) =~= locals@);
        }
        if end - start == size as usize {
            Ok(Code { locals, expr })
        } else {
            Err(ParseError::CodeSizeMismatch)
        }
    }
}

/// A data segment, which must be for memory 0.
impl<'a> Parseable<'a> for Data {
    type Model = DataModel;

    open spec fn model(&self) -> DataModel {
        DataModel { offset: self.offset.model(), init: self.init@ }
    }

    open spec fn spec_parse(b: Seq<u8>, pos: int) -> SpecResult<DataModel> {
        match spec_u32(b, pos) {
            Ok((index, p)) => if index != 0 {
                Err(ParseError::NonZeroMemoryIndex)
            } else {
                match Expression::spec_parse(b, p) {
                    Ok((offset, q)) => match Vec::<u8>::spec_parse(b, q) {
                        Ok((init, t)) => Ok((DataModel { offset, init }, t)),
                        Err(e) => Err(e),
                    },
                    Err(e) => Err(e),
                }
            },
            Err(e) => Err(e),
        }
    }

    fn parse(cursor: &mut Cursor<'a>) -> (r: ParseResult<Data>) {
        let index = cursor.read_u32()?;
        if index != 0 {
            return Err(ParseError::NonZeroMemoryIndex);
        }
        let offset = Expression::parse(cursor)?;
        let init = Vec::<u8>::parse(cursor)?;
        proof {
            assert(models::<u8>(init@) =~= init@);
        }
        Ok(Data { offset, init })
    }
}

/// An element segment, which must be for table 0.
impl<'a> Parseable<'a> for Element {
    type Model = ElementModel;

    open spec fn model(&self) -> ElementModel {
        ElementModel { offset: self.offset.model(), inits: self.inits@ }
    }

    open spec fn spec_parse(b: Seq<u8>, pos: int) -> SpecResult<ElementModel> {
        match spec_u32(b, pos) {
            Ok((index, p)) => if index != 0 {
                Err(ParseError::NonZeroTableIndex)
            } else {
                match Expression::spec_parse(b, p) {
                    Ok((offset, q)) => match Vec::<u32>::spec_parse(b, q) {
                        Ok((inits, t)) => Ok((ElementModel { offset, inits }, t)),
                        Err(e) => Err(e),
                    },
                    Err(e) => Err(e),
                }
            },
            Err(e) => Err(e),
        }
    }

    fn parse(cursor: &mut Cursor<'a>) -> (r: ParseResult<Element>) {
        let index = cursor.read_u32()?;
        if index != 0 {
            return Err(ParseError::NonZeroTableIndex);
        }
        let offset = Expression::parse(cursor)?;
        let inits = Vec::<u32>::parse(cursor)?;
        proof {
            assert(models::<u32>(inits@) =~= inits@);
        }
        Ok(Element { offset, inits })
    }
}

impl<'a> Parseable<'a> for Global {
    type Model = GlobalModel;

    open spec fn model(&self) -> GlobalModel {
        GlobalModel { ty: self.ty, init: self.init.model() }
    }

    open spec fn spec_parse(b: Seq<u8>, pos: int) -> SpecResult<GlobalModel> {
        match GlobalType::spec_parse(b, pos) {
            Ok((ty, p)) => match Expression::spec_parse(b, p) {
                Ok((init, q)) => Ok((GlobalModel { ty, init }, q)),
                Err(e) => Err(e),
            },
            Err(e) => Err(e),
        }
    }

    fn parse(cursor: &mut Cursor<'a>) -> (r: ParseResult<Global>) {
        let ty = GlobalType::parse(cursor)?;
        let init = Expression::parse(cursor)?;
        Ok(Global { ty, init })
    }
}

/// The contents of a section kind, and its value where the input has no
/// such section.
pub trait SectionDefault<'a>: Parseable<'a> {
    /// What an absent section stands for.
    spec fn spec_empty() -> Self::Model;

    /// The value of an absent section.
    fn empty() -> (r: Self)
        ensures
            r.model() == Self::spec_empty(),
    ;
}

impl<'a> Parseable<'a> for TypeSection {
    type Model = Seq<FunctionTypeModel>;

    open spec fn model(&self) -> Seq<FunctionTypeModel> {
        models::<FunctionType>(self.types@)
    }

    open spec fn spec_parse(b: Seq<u8>, pos: int) -> SpecResult<Seq<FunctionTypeModel>> {
        Vec::<FunctionType>::spec_parse(b, pos)
    }

    fn parse(cursor: &mut Cursor<'a>) -> (r: ParseResult<TypeSection>) {
        let types = Vec::<FunctionType>::parse(cursor)?;
        Ok(TypeSection { types })
    }
}

impl<'a> SectionDefault<'a> for TypeSection {
    open spec fn spec_empty() -> Seq<FunctionTypeModel> {
        seq![]
    }

    fn empty() -> (r: TypeSection) {
        let r = TypeSection { types: Vec::new() };
        assert(r.model() =~= seq![]);
        r
    }
}

impl<'a> Parseable<'a> for ImportSection {
    type Model = Seq<ImportModel>;

    open spec fn model(&self) -> Seq<ImportModel> {
        models::<Import>(self.imports@)
    }

    open spec fn spec_parse(b: Seq<u8>, pos: int) -> SpecResult<Seq<ImportModel>> {
        Vec::<Import>::spec_parse(b, pos)
    }

    fn parse(cursor: &mut Cursor<'a>) -> (r: ParseResult<ImportSection>) {
        let imports = Vec::<Import>::parse(cursor)?;
        Ok(ImportSection { imports })
    }
}

impl<'a> SectionDefault<'a> for ImportSection {
    open spec fn spec_empty() -> Seq<ImportModel> {
        seq![]
    }

    fn empty() -> (r: ImportSection) {
        let r = ImportSection { imports: Vec::new() };
        assert(r.model() =~= seq![]);
        r
    }
}

impl<'a> Parseable<'a> for FunctionSection {
    type Model = Seq<u32>;

    open spec fn model(&self) -> Seq<u32> {
        self.types@
    }

    open spec fn spec_parse(b: Seq<u8>, pos: int) -> SpecResult<Seq<u32>> {
        Vec::<u32>::spec_parse(b, pos)
    }

    fn parse(cursor: &mut Cursor<'a>) -> (r: ParseResult<FunctionSection>) {
        let types = Vec::<u32>::parse(cursor)?;
        proof {
            assert(models::<u32>(types@) =~= types@);
        }
        Ok(FunctionSection { types })
    }
}

impl<'a> SectionDefault<'a> for FunctionSection {
    open spec fn spec_empty() -> Seq<u32> {
        seq![]
    }

    fn empty() -> (r: FunctionSection) {
        FunctionSection { types: Vec::new() }
    }
}

/// At most one table: more is an error.
impl<'a> Parseable<'a> for TableSection {
    type Model = Option<TableType>;

    open spec fn model(&self) -> Option<TableType> {
        self.table_type
    }

    open spec fn spec_parse(b: Seq<u8>, pos: int) -> SpecResult<Option<TableType>> {
        match Vec::<TableType>::spec_parse(b, pos) {
            Ok((tables, p)) => if tables.len() == 0 {
                Ok((None, p))
            } else if tables.len() == 1 {
                Ok((Some(tables[0]), p))
            } else {
                Err(ParseError::MultipleTables)
            },
            Err(e) => Err(e),
        }
    }

    fn parse(cursor: &mut Cursor<'a>) -> (r: ParseResult<TableSection>) {
        let tables = Vec::<TableType>::parse(cursor)?;
        proof {
            assert(models::<TableType>(tables@) =~= tables@);
        }
        if tables.len() == 0 {
            Ok(TableSection { table_type: None })
        } else if tables.len() == 1 {
            Ok(TableSection { table_type: Some(tables[0]) })
        } else {
            Err(ParseError::MultipleTables)
        }
    }
}

impl<'a> SectionDefault<'a> for TableSection {
    open spec fn spec_empty() -> Option<TableType> {
        None
    }

    fn empty() -> (r: TableSection) {
        TableSection { table_type: None }
    }
}

/// At most one memory: more is an error.
impl<'a> Parseable<'a> for MemorySection {
    type Model = Option<MemoryType>;

    open spec fn model(&self) -> Option<MemoryType> {
        self.memory_type
    }

    open spec fn spec_parse(b: Seq<u8>, pos: int) -> SpecResult<Option<MemoryType>> {
        match Vec::<MemoryType>::spec_parse(b, pos) {
            Ok((memories, p)) => if memories.len() == 0 {
                Ok((None, p))
            } else if memories.len() == 1 {
                Ok((Some(memories[0]), p))
            } else {
                Err(ParseError::MultipleMemories)
            },
            Err(e) => Err(e),
        }
    }

    fn parse(cursor: &mut Cursor<'a>) -> (r: ParseResult<MemorySection>) {
        let memories = Vec::<MemoryType>::parse(cursor)?;
        proof {
            assert(models::<MemoryType>(memories@) =~= memories@);
        }
        if memories.len() == 0 {
            Ok(MemorySection { memory_type: None })
        } else if memories.len() == 1 {
            Ok(MemorySection { memory_type: Some(memories[0]) })
        } else {
            Err(ParseError::MultipleMemories)
        }
    }
}

impl<'a> SectionDefault<'a> for MemorySection {
    open spec fn spec_empty() -> Option<MemoryType> {
        None
    }

    fn empty() -> (r: MemorySection) {
        MemorySection { memory_type: None }
    }
}

impl<'a> Parseable<'a> for GlobalSection {
    type Model = Seq<GlobalModel>;

    open spec fn model(&self) -> Seq<GlobalModel> {
        models::<Global>(self.globals@)
    }

    open spec fn spec_parse(b: Seq<u8>, pos: int) -> SpecResult<Seq<GlobalModel>> {
        Vec::<Global>::spec_parse(b, pos)
    }

    fn parse(cursor: &mut Cursor<'a>) -> (r: ParseResult<GlobalSection>) {
        let globals = Vec::<Global>::parse(cursor)?;
        Ok(GlobalSection { globals })
    }
}

impl<'a> SectionDefault<'a> for GlobalSection {
    open spec fn spec_empty() -> Seq<GlobalModel> {
        seq![]
    }

    fn empty() -> (r: GlobalSection) {
        let r = GlobalSection { globals: Vec::new() };
        assert(r.model() =~= seq![]);
        r
    }
}

impl<'a> Parseable<'a> for ExportSection {
    type Model = Seq<ExportModel>;

    open spec fn model(&self) -> Seq<ExportModel> {
        models::<Export>(self.exports@)
    }

    open spec fn spec_parse(b: Seq<u8>, pos: int) -> SpecResult<Seq<ExportModel>> {
        Vec::<Export>::spec_parse(b, pos)
    }

    fn parse(cursor: &mut Cursor<'a>) -> (r: ParseResult<ExportSection>) {
        let exports = Vec::<Export>::parse(cursor)?;
        Ok(ExportSection { exports })
    }
}

impl<'a> SectionDefault<'a> for ExportSection {
    open spec fn spec_empty() -> Seq<ExportModel> {
        seq![]
    }

    fn empty() -> (r: ExportSection) {
        let r = ExportSection { exports: Vec::new() };
        assert(r.model() =~= seq![]);
        r
    }
}

/// Start functions are not allowed: a start section is rejected whatever it
/// holds.
impl<'a> Parseable<'a> for StartSection {
    type Model = ();

    open spec fn model(&self) -> () {
        ()
    }

    open spec fn spec_parse(b: Seq<u8>, pos: int) -> SpecResult<()> {
        Err(ParseError::StartNotSupported)
    }

    fn parse(_cursor: &mut Cursor<'a>) -> (r: ParseResult<StartSection>) {
        Err(ParseError::StartNotSupported)
    }
}

impl<'a> SectionDefault<'a> for StartSection {
    open spec fn spec_empty() -> () {
        ()
    }

    fn empty() -> (r: StartSection) {
        StartSection {  }
    }
}

impl<'a> Parseable<'a> for ElementSection {
    type Model = Seq<ElementModel>;

    open spec fn model(&self) -> Seq<ElementModel> {
        models::<Element>(self.elements@)
    }

    open spec fn spec_parse(b: Seq<u8>, pos: int) -> SpecResult<Seq<ElementModel>> {
        Vec::<Element>::spec_parse(b, pos)
    }

    fn parse(cursor: &mut Cursor<'a>) -> (r: ParseResult<ElementSection>) {
        let elements = Vec::<Element>::parse(cursor)?;
        Ok(ElementSection { elements })
    }
}

impl<'a> SectionDefault<'a> for ElementSection {
    open spec fn spec_empty() -> Seq<ElementModel> {
        seq![]
    }

    fn empty() -> (r: ElementSection) {
        let r = ElementSection { elements: Vec::new() };
        assert(r.model() =~= seq![]);
        r
    }
}

impl<'a> Parseable<'a> for CodeSection {
    type Model = Seq<CodeModel>;

    open spec fn model(&self) -> Seq<CodeModel> {
        models::<Code>(self.impls@)
    }

    open spec fn spec_parse(b: Seq<u8>, pos: int) -> SpecResult<Seq<CodeModel>> {
        Vec::<Code>::spec_parse(b, pos)
    }

    fn parse(cursor: &mut Cursor<'a>) -> (r: ParseResult<CodeSection>) {
        let impls = Vec::<Code>::parse(cursor)?;
        Ok(CodeSection { impls })
    }
}

impl<'a> SectionDefault<'a> for CodeSection {
    open spec fn spec_empty() -> Seq<CodeModel> {
        seq![]
    }

    fn empty() -> (r: CodeSection) {
        let r = CodeSection { impls: Vec::new() };
        assert(r.model() =~= seq![]);
        r
    }
}

impl<'a> Parseable<'a> for DataSection {
    type Model = Seq<DataModel>;

    open spec fn model(&self) -> Seq<DataModel> {
        models::<Data>(self.sections@)
    }

    open spec fn spec_parse(b: Seq<u8>, pos: int) -> SpecResult<Seq<DataModel>> {
        Vec::<Data>::spec_parse(b, pos)
    }

    fn parse(cursor: &mut Cursor<'a>) -> (r: ParseResult<DataSection>) {
        let sections = Vec::<Data>::parse(cursor)?;
        Ok(DataSection { sections })
    }
}

impl<'a> SectionDefault<'a> for DataSection {
    open spec fn spec_empty() -> Seq<DataModel> {
        seq![]
    }

    fn empty() -> (r: DataSection) {
        let r = DataSection { sections: Vec::new() };
        assert(r.model() =~= seq![]);
        r
    }
}

/// What reading a whole byte string as one value gives: the value must take
/// every byte.
pub open spec fn spec_parse_all<'a, A: Parseable<'a>>(b: Seq<u8>) -> Result<A::Model, ParseError> {
    match A::spec_parse(b, 0) {
        Ok((m, p)) => if p == b.len() {
            Ok(m)
        } else {
            Err(ParseError::LeftoverBytes)
        },
        Err(e) => Err(e),
    }
}

/// Read `bytes` as one value of type `A`, failing unless that uses all of them.
pub fn parse_all<'a, A: Parseable<'a>>(bytes: &'a [u8]) -> (r: ParseResult<A>)
    ensures
        match spec_parse_all::<A>(bytes@) {
            Ok(m) => r matches Ok(x) && x.model() == m,
            Err(e) => r matches Err(f) && f == e,
        },
{
    let mut cursor = Cursor::new(bytes);
    let res = A::parse(&mut cursor)?;
    if cursor.position() == bytes.len() {
        Ok(res)
    } else {
        Err(ParseError::LeftoverBytes)
    }
}

/// A read of a value agrees with its spec: the value's model and the end
/// position on success, the same error on failure.
pub open spec fn parsed<'a, A: Parseable<'a>>(s: SpecResult<A::Model>, r: ParseResult<A>, end: int) -> bool {
    match s {
        Ok((m, p)) => r matches Ok(x) && x.model() == m && end == p,
        Err(e) => r matches Err(f) && f == e,
    }
}

/// A read of a whole byte string agrees with its spec.
pub open spec fn parsed_all<'a, A: Parseable<'a>>(s: Result<A::Model, ParseError>, r: ParseResult<A>) -> bool {
    match s {
        Ok(m) => r matches Ok(x) && x.model() == m,
        Err(e) => r matches Err(f) && f == e,
    }
}

/// Reading a value whose type the context decides.
pub trait GetParseable<A> {
    fn next(self) -> ParseResult<A>;
}

/// A cursor reads the next value and moves past it.
impl<'a, 'b, A: Parseable<'a>> GetParseable<A> for &'b mut Cursor<'a> {
    fn next(self) -> (r: ParseResult<A>)
        ensures
            old(self).wf() ==> parsed::<A>(
                A::spec_parse(old(self).bytes@, old(self).pos as int),
                r,
                final(self).pos as int,
            ),
    {
        if self.pos <= self.bytes.len() {
            A::parse(self)
        } else {
            Err(ParseError::UnexpectedEnd)
        }
    }
}

/// A byte string is read as one value that must take all of it.
impl<'a, A: Parseable<'a>> GetParseable<A> for &'a [u8] {
    fn next(self) -> (r: ParseResult<A>)
        ensures
            parsed_all::<A>(spec_parse_all::<A>(self@), r),
    {
        parse_all::<A>(self)
    }
}

/// The module magic, `\0asm`.
pub open spec fn magic() -> Seq<u8> {
    seq![0x00u8, 0x61u8, 0x73u8, 0x6Du8]
}

/// The supported version, 1.
pub open spec fn version() -> Seq<u8> {
    seq![0x01u8, 0x00u8, 0x00u8, 0x00u8]
}

/// A module cut into its sections, none of them decoded. The lifetime is
/// that of the input the sections are borrowed from.
#[derive(Debug)]
pub struct Skeleton<'a> {
    pub ty: Option<UnparsedSection<'a>>,
    pub import: Option<UnparsedSection<'a>>,
    pub func: Option<UnparsedSection<'a>>,
    pub table: Option<UnparsedSection<'a>>,
    pub memory: Option<UnparsedSection<'a>>,
    pub global: Option<UnparsedSection<'a>>,
    pub export: Option<UnparsedSection<'a>>,
    pub start: Option<UnparsedSection<'a>>,
    pub element: Option<UnparsedSection<'a>>,
    pub code: Option<UnparsedSection<'a>>,
    pub data: Option<UnparsedSection<'a>>,
    /// The custom sections, in the order of the input.
    pub custom: Vec<UnparsedSection<'a>>,
}

/// What a skeleton stands for.
pub struct SkeletonModel {
    pub ty: Option<SectionModel>,
    pub import: Option<SectionModel>,
    pub func: Option<SectionModel>,
    pub table: Option<SectionModel>,
    pub memory: Option<SectionModel>,
    pub global: Option<SectionModel>,
    pub export: Option<SectionModel>,
    pub start: Option<SectionModel>,
    pub element: Option<SectionModel>,
    pub code: Option<SectionModel>,
    pub data: Option<SectionModel>,
    pub custom: Seq<SectionModel>,
}

pub open spec fn opt_model<'a>(s: Option<UnparsedSection<'a>>) -> Option<SectionModel> {
    match s {
        Some(u) => Some(u.model()),
        None => None,
    }
}

impl<'a> Skeleton<'a> {
    pub open spec fn model(&self) -> SkeletonModel {
        SkeletonModel {
            ty: opt_model(self.ty),
            import: opt_model(self.import),
            func: opt_model(self.func),
            table: opt_model(self.table),
            memory: opt_model(self.memory),
            global: opt_model(self.global),
            export: opt_model(self.export),
            start: opt_model(self.start),
            element: opt_model(self.element),
            code: opt_model(self.code),
            data: opt_model(self.data),
            custom: models::<UnparsedSection<'a>>(self.custom@),
        }
    }
}

impl SkeletonModel {
    /// No section at all.
    pub open spec fn empty() -> SkeletonModel {
        SkeletonModel {
            ty: None,
            import: None,
            func: None,
            table: None,
            memory: None,
            global: None,
            export: None,
            start: None,
            element: None,
            code: None,
            data: None,
            custom: seq![],
        }
    }

    /// The skeleton with section `s` recorded: in the slot of its kind, or
    /// after the other custom sections.
    pub open spec fn with_section(self, s: SectionModel) -> SkeletonModel {
        match s.section_id {
            SectionId::Custom => SkeletonModel { custom: self.custom.push(s), ..self },
            SectionId::Type => SkeletonModel { ty: Some(s), ..self },
            SectionId::Import => SkeletonModel { import: Some(s), ..self },
            SectionId::Function => SkeletonModel { func: Some(s), ..self },
            SectionId::Table => SkeletonModel { table: Some(s), ..self },
            SectionId::Memory => SkeletonModel { memory: Some(s), ..self },
            SectionId::Global => SkeletonModel { global: Some(s), ..self },
            SectionId::Export => SkeletonModel { export: Some(s), ..self },
            SectionId::Start => SkeletonModel { start: Some(s), ..self },
            SectionId::Element => SkeletonModel { element: Some(s), ..self },
            SectionId::Code => SkeletonModel { code: Some(s), ..self },
            SectionId::Data => SkeletonModel { data: Some(s), ..self },
        }
    }
}

/// The sections from `pos` to the end of `input`, recorded into `acc`.
/// `last` is the code of the last non-custom kind seen: each non-custom
/// section must have a greater one. A section read never ends before it
/// starts; the `pos < p` test says so for the termination argument.
pub open spec fn spec_sections(input: Seq<u8>, pos: int, last: u8, acc: SkeletonModel) -> Result<
    SkeletonModel,
    ParseError,
>
    decreases input.len() - pos,
{
    if pos >= input.len() {
        Ok(acc)
    } else {
        match UnparsedSection::spec_parse(input, pos) {
            Ok((s, p)) => if s.section_id != SectionId::Custom && s.section_id.spec_code() <= last {
                Err(ParseError::SectionOutOfOrder)
            } else if pos < p <= input.len() {
                spec_sections(
                    input,
                    p,
                    if s.section_id == SectionId::Custom {
                        last
                    } else {
                        s.section_id.spec_code()
                    },
                    acc.with_section(s),
                )
            } else {
                Err(ParseError::UnexpectedEnd)
            },
            Err(e) => Err(e),
        }
    }
}

/// The skeleton of a whole input: magic, version, then sections up to the
/// end.
pub open spec fn spec_skeleton(input: Seq<u8>) -> Result<SkeletonModel, ParseError> {
    if input.len() < 4 {
        Err(ParseError::UnexpectedEnd)
    } else if input.subrange(0, 4) != magic() {
        Err(ParseError::MagicMismatch)
    } else if input.len() < 8 {
        Err(ParseError::UnexpectedEnd)
    } else if input.subrange(4, 8) != version() {
        Err(ParseError::UnsupportedVersion)
    } else {
        spec_sections(input, 8, 0, SkeletonModel::empty())
    }
}

/// Cut `input` into its sections. It fails unless the input starts with the
/// magic and the supported version, every section is whole, the non-custom
/// sections come in strictly increasing kind order, and the sections take
/// the input to its end.
pub fn parse_skeleton<'a>(input: &'a [u8]) -> (r: ParseResult<Skeleton<'a>>)
    ensures
        match spec_skeleton(input@) {
            Ok(m) => r matches Ok(s) && s.model() == m,
            Err(e) => r matches Err(f) && f == e,
        },
{
    if input.len() < 4 {
        return Err(ParseError::UnexpectedEnd);
    }
    if !(input[0] == 0x00 && input[1] == 0x61 && input[2] == 0x73 && input[3] == 0x6D) {
        proof {
            if input@.subrange(0, 4) == magic() {
                assert(input@[0] == input@.subrange(0, 4)[0]);
                assert(input@[1] == input@.subrange(0, 4)[1]);
                assert(input@[2] == input@.subrange(0, 4)[2]);
                assert(input@[3] == input@.subrange(0, 4)[3]);
            }
        }
        return Err(ParseError::MagicMismatch);
    }
    assert(input@.subrange(0, 4) =~= magic());
    if input.len() < 8 {
        return Err(ParseError::UnexpectedEnd);
    }
    if !(input[4] == 0x01 && input[5] == 0x00 && input[6] == 0x00 && input[7] == 0x00) {
        proof {
            if input@.subrange(4, 8) == version() {
                assert(input@[4] == input@.subrange(4, 8)[0]);
                assert(input@[5] == input@.subrange(4, 8)[1]);
                assert(input@[6] == input@.subrange(4, 8)[2]);
                assert(input@[7] == input@.subrange(4, 8)[3]);
            }
        }
        return Err(ParseError::UnsupportedVersion);
    }
    assert(input@.subrange(4, 8) =~= version());
    let mut cursor = Cursor { bytes: input, pos: 8 };
    let mut last: u8 = 0;
    let mut skeleton = Skeleton {
        ty: None,
        import: None,
        func: None,
        table: None,
        memory: None,
        global: None,
        export: None,
        start: None,
        element: None,
        code: None,
        data: None,
        custom: Vec::new(),
    };
    assert(skeleton.model().custom =~= seq![]);
    while cursor.position() < input.len()
        invariant
            cursor.wf(),
            cursor.bytes@ == input@,
            spec_skeleton(input@) == spec_sections(input@, cursor.pos as int, last, skeleton.model()),
        decreases input@.len() - cursor.pos,
    {
        let ghost before = skeleton.model();
        let ghost at = cursor.pos as int;
        let section = UnparsedSection::parse(&mut cursor)?;
        let id = section.section_id;
        if id != SectionId::Custom && id.code() <= last {
            return Err(ParseError::SectionOutOfOrder);
        }
        if id != SectionId::Custom {
            last = id.code();
        }
        let ghost sm = section.model();
        match id {
            SectionId::Custom => {
                skeleton.custom.push(section);
                assert(skeleton.model().custom =~= before.custom.push(sm));
            },
            SectionId::Type => skeleton.ty = Some(section),
            SectionId::Import => skeleton.import = Some(section),
            SectionId::Function => skeleton.func = Some(section),
            SectionId::Table => skeleton.table = Some(section),
            SectionId::Memory => skeleton.memory = Some(section),
            SectionId::Global => skeleton.global = Some(section),
            SectionId::Export => skeleton.export = Some(section),
            SectionId::Start => skeleton.start = Some(section),
            SectionId::Element => skeleton.element = Some(section),
            SectionId::Code => skeleton.code = Some(section),
            SectionId::Data => skeleton.data = Some(section),
        }
        assert(skeleton.model() == before.with_section(sm));
        assert(at < cursor.pos);
    }
    Ok(skeleton)
}

/// What a custom section stands for: its name and the bytes after it.
pub struct CustomSectionModel {
    pub name: Seq<char>,
    pub contents: Seq<u8>,
}

/// A custom section's contents: a name, then bytes that mean nothing here.
pub open spec fn spec_custom(bytes: Seq<u8>) -> Result<CustomSectionModel, ParseError> {
    match Name::spec_parse(bytes, 0) {
        Ok((name, p)) => Ok(CustomSectionModel { name, contents: bytes.subrange(p, bytes.len() as int) }),
        Err(e) => Err(e),
    }
}

/// Read a custom section's name; the rest of it is its contents, borrowed.
pub fn parse_custom<'a>(sec: &UnparsedSection<'a>) -> (r: ParseResult<CustomSection<'a>>)
    ensures
        match spec_custom(sec.bytes@) {
            Ok(m) => r matches Ok(c) && c.name.name@ == m.name && c.contents@ == m.contents,
            Err(e) => r matches Err(f) && f == e,
        },
{
    let bytes: &'a [u8] = sec.bytes;
    let mut cursor = Cursor::new(bytes);
    let name = Name::parse(&mut cursor)?;
    let contents = cursor.remaining();
    Ok(CustomSection { name, contents })
}

/// A section's contents, or the empty contents where the section is absent.
pub open spec fn spec_section_or_empty<'a, A: SectionDefault<'a>>(sec: Option<SectionModel>) -> Result<
    A::Model,
    ParseError,
> {
    match sec {
        None => Ok(A::spec_empty()),
        Some(s) => spec_parse_all::<A>(s.bytes),
    }
}

/// Decode a section that may be absent: an absent one is empty, a present
/// one must be taken up exactly by its contents.
pub fn parse_sec_with_default<'a, A: SectionDefault<'a>>(sec: &Option<UnparsedSection<'a>>) -> (r: ParseResult<A>)
    ensures
        match spec_section_or_empty::<A>(opt_model(*sec)) {
            Ok(m) => r matches Ok(x) && x.model() == m,
            Err(e) => r matches Err(f) && f == e,
        },
{
    match sec {
        None => Ok(A::empty()),
        Some(s) => parse_all::<A>(s.bytes),
    }
}

impl Module {
    pub open spec fn model(&self) -> ModuleModel {
        ModuleModel {
            ty: self.ty.model(),
            import: self.import.model(),
            func: self.func.model(),
            table: self.table.model(),
            memory: self.memory.model(),
            global: self.global.model(),
            export: self.export.model(),
            start: self.start.model(),
            element: self.element.model(),
            code: self.code.model(),
            data: self.data.model(),
        }
    }
}

/// The module that a skeleton decodes to: each section in kind order, the
/// first failure deciding the error.
pub open spec fn spec_module(s: SkeletonModel) -> Result<ModuleModel, ParseError> {
    match spec_section_or_empty::<TypeSection>(s.ty) {
        Err(e) => Err(e),
        Ok(ty) => match spec_section_or_empty::<ImportSection>(s.import) {
            Err(e) => Err(e),
            Ok(import) => match spec_section_or_empty::<FunctionSection>(s.func) {
                Err(e) => Err(e),
                Ok(func) => match spec_section_or_empty::<TableSection>(s.table) {
                    Err(e) => Err(e),
                    Ok(table) => match spec_section_or_empty::<MemorySection>(s.memory) {
                        Err(e) => Err(e),
                        Ok(memory) => match spec_section_or_empty::<GlobalSection>(s.global) {
                            Err(e) => Err(e),
                            Ok(global) => match spec_section_or_empty::<ExportSection>(s.export) {
                                Err(e) => Err(e),
                                Ok(export) => match spec_section_or_empty::<StartSection>(s.start) {
                                    Err(e) => Err(e),
                                    Ok(start) => match spec_section_or_empty::<ElementSection>(
                                        s.element,
                                    ) {
                                        Err(e) => Err(e),
                                        Ok(element) => match spec_section_or_empty::<CodeSection>(
                                            s.code,
                                        ) {
                                            Err(e) => Err(e),
                                            Ok(code) => match spec_section_or_empty::<DataSection>(
                                                s.data,
                                            ) {
                                                Err(e) => Err(e),
                                                Ok(data) => Ok(
                                                    ModuleModel {
                                                        ty,
                                                        import,
                                                        func,
                                                        table,
                                                        memory,
                                                        global,
                                                        export,
                                                        start,
                                                        element,
                                                        code,
                                                        data,
                                                    },
                                                ),
                                            },
                                        },
                                    },
                                },
                            },
                        },
                    },
                },
            },
        },
    }
}

/// Decode every non-custom section of a skeleton into a module.
pub fn parse_module<'a>(skeleton: &Skeleton<'a>) -> (r: ParseResult<Module>)
    ensures
        match spec_module(skeleton.model()) {
            Ok(m) => r matches Ok(x) && x.model() == m,
            Err(e) => r matches Err(f) && f == e,
        },
{
    let ty = parse_sec_with_default::<TypeSection>(&skeleton.ty)?;
    let import = parse_sec_with_default::<ImportSection>(&skeleton.import)?;
    let func = parse_sec_with_default::<FunctionSection>(&skeleton.func)?;
    let table = parse_sec_with_default::<TableSection>(&skeleton.table)?;
    let memory = parse_sec_with_default::<MemorySection>(&skeleton.memory)?;
    let global = parse_sec_with_default::<GlobalSection>(&skeleton.global)?;
    let export = parse_sec_with_default::<ExportSection>(&skeleton.export)?;
    let start = parse_sec_with_default::<StartSection>(&skeleton.start)?;
    let element = parse_sec_with_default::<ElementSection>(&skeleton.element)?;
    let code = parse_sec_with_default::<CodeSection>(&skeleton.code)?;
    let data = parse_sec_with_default::<DataSection>(&skeleton.data)?;
    Ok(Module { ty, import, func, table, memory, global, export, start, element, code, data })
}

/// Parsing depends on the bytes alone: two parses of equal inputs give
/// equal skeletons, and equal modules from them.
pub proof fn lemma_parse_deterministic(
    a: Seq<u8>,
    b: Seq<u8>,
    s1: SkeletonModel,
    s2: SkeletonModel,
    m1: ModuleModel,
    m2: ModuleModel,
)
    requires
        a == b,
        spec_skeleton(a) == Ok::<SkeletonModel, ParseError>(s1),
        spec_skeleton(b) == Ok::<SkeletonModel, ParseError>(s2),
        spec_module(s1) == Ok::<ModuleModel, ParseError>(m1),
        spec_module(s2) == Ok::<ModuleModel, ParseError>(m2),
    ensures
        s1 == s2,
        m1 == m2,
{
}

/// A run of `n` values, each of which takes at least one byte, takes at
/// least `n` bytes.
proof fn lemma_elems_consume<'a, A: Parseable<'a>>(b: Seq<u8>, pos: int, n: nat)
    requires
        forall|q: int| #[trigger] A::spec_parse(b, q) matches Ok((_, t)) ==> t > q,
    ensures
        spec_elems::<A>(b, pos, n) matches Ok((_, t)) ==> t >= pos + n,
    decreases n,
{
    if n > 0 {
        lemma_elems_consume::<A>(b, pos, (n - 1) as nat);
        if let Ok((_, p)) = spec_elems::<A>(b, pos, (n - 1) as nat) {
            assert(A::spec_parse(b, p) matches Ok((_, t)) ==> t > p);
        }
    }
}

/// A sequence that declares more values than there are bytes left fails,
/// when every value takes at least a byte and no read runs past the end,
/// however large the declared length.
pub proof fn lemma_declared_length_too_long<'a, A: Parseable<'a>>(b: Seq<u8>, pos: int)
    requires
        forall|q: int| #[trigger] A::spec_parse(b, q) matches Ok((_, t)) ==> q < t <= b.len(),
        0 <= pos <= b.len(),
        spec_u32(b, pos) matches Ok((n, p)) && p + n > b.len(),
    ensures
        Vec::<A>::spec_parse(b, pos) is Err,
{
    let (n, p) = spec_u32(b, pos)->Ok_0;
    lemma_uleb_len(window(b, pos, 5));
    lemma_elems_consume::<A>(b, p, n as nat);
    if n > 0 {
        if let Ok((_, t)) = spec_elems::<A>(b, p, n as nat) {
            let (_, t0) = spec_elems::<A>(b, p, (n - 1) as nat)->Ok_0;
            assert(A::spec_parse(b, t0) matches Ok((_, t1)) ==> t1 <= b.len());
        }
    }
}

/// Bytes in particular: a byte sequence that declares more bytes than are
/// left fails.
pub proof fn lemma_byte_vec_too_long(b: Seq<u8>, pos: int)
    requires
        0 <= pos <= b.len(),
        spec_u32(b, pos) matches Ok((n, p)) && p + n > b.len(),
    ensures
        Vec::<u8>::spec_parse(b, pos) is Err,
{
    lemma_declared_length_too_long::<u8>(b, pos);
}

/// The floating point opcodes of the base instruction set: loads, stores,
/// constants, comparisons, arithmetic and conversions.
pub open spec fn is_float_opcode(op: u8) -> bool {
    ||| op == 0x2A || op == 0x2B || op == 0x38 || op == 0x39
    ||| op == 0x43 || op == 0x44
    ||| 0x5B <= op <= 0x66
    ||| 0x8B <= op <= 0xA6
    ||| 0xA8 <= op <= 0xAB
    ||| 0xAE <= op <= 0xBF
}

/// A floating point instruction is rejected as unsupported, wherever it
/// stands and whatever follows it.
pub proof fn lemma_float_opcode_rejected(b: Seq<u8>, pos: int, op: u8)
    requires
        is_float_opcode(op),
    ensures
        spec_instr(b, pos, op) == Err::<(InstrModel, int), ParseError>(
            ParseError::UnsupportedInstruction(op),
        ),
{
}

/// A function section after a code section is out of order, whatever the
/// two hold.
pub proof fn lemma_function_after_code_rejected(
    input: Seq<u8>,
    pos: int,
    last: u8,
    acc: SkeletonModel,
)
    requires
        0 <= pos < input.len(),
        last >= SectionId::Code.spec_code(),
        UnparsedSection::spec_parse(input, pos) matches Ok((s, _)) && s.section_id
            == SectionId::Function,
    ensures
        spec_sections(input, pos, last, acc) == Err::<SkeletonModel, ParseError>(
            ParseError::SectionOutOfOrder,
        ),
{
}

/// A function body whose locals and instructions take a different number of
/// bytes than it declares is rejected.
pub proof fn lemma_code_size_mismatch(b: Seq<u8>, pos: int)
    requires
        spec_u32(b, pos) matches Ok((size, p)) && (Vec::<Local>::spec_parse(b, p) matches Ok((_, q))
            && (Expression::spec_parse(b, q) matches Ok((_, t)) && t - p != size)),
    ensures
        Code::spec_parse(b, pos) == Err::<(CodeModel, int), ParseError>(ParseError::CodeSizeMismatch),
{
}

} // verus!
