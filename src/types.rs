//! The decoded form of a module, and the mathematical value each part
//! stands for.
use vstd::prelude::*;

verus! {

pub type TypeIndex = u32;
pub type FuncIndex = u32;
pub type TableIndex = u32;
pub type MemIndex = u32;
pub type GlobalIndex = u32;
pub type LocalIndex = u32;
pub type LabelIndex = u32;

/// A sequence of instructions.
pub type InstrSeq = Vec<Instruction>;

/// The value types of the platform. Floating point types cannot be
/// represented.
#[derive(Clone, Copy, Debug, PartialEq, Eq, Structural)]
pub enum ValueType {
    I32,
    I64,
}

/// The type of a block: no result, or one value.
#[derive(Clone, Copy, Debug, PartialEq, Eq, Structural)]
pub enum BlockType {
    EmptyType,
    ValueType(ValueType),
}

/// Size bounds of a table or a memory.
#[derive(Clone, Copy, Debug, PartialEq, Eq, Structural)]
pub struct Limits {
    pub min: u32,
    pub max: Option<u32>,
}

/// The immediate of a load or a store.
#[derive(Clone, Copy, Debug, PartialEq, Eq, Structural)]
pub struct MemArg {
    pub offset: u32,
    pub align: u32,
}

/// A function type: parameters and at most one result.
#[derive(Debug)]
pub struct FunctionType {
    pub parameters: Vec<ValueType>,
    pub result: Option<ValueType>,
}

/// What a function type stands for.
pub struct FunctionTypeModel {
    pub parameters: Seq<ValueType>,
    pub result: Option<ValueType>,
}

/// The type of a global: its value type and whether it can be set.
#[derive(Clone, Copy, Debug, PartialEq, Eq, Structural)]
pub struct GlobalType {
    pub ty: ValueType,
    pub mutable: bool,
}

/// A table of function references, with its limits.
#[derive(Clone, Copy, Debug, PartialEq, Eq, Structural)]
pub struct TableType {
    pub limits: Limits,
}

/// A linear memory, with its limits in pages.
#[derive(Clone, Copy, Debug, PartialEq, Eq, Structural)]
pub struct MemoryType {
    pub limits: Limits,
}

/// A name: valid UTF-8 on the wire.
#[derive(Debug)]
pub struct Name {
    pub name: String,
}

/// What an import brings in.
#[derive(Clone, Copy, Debug, PartialEq, Eq, Structural)]
pub enum ImportDescription {
    Func { type_idx: TypeIndex },
    Table { table_type: TableType },
    Memory { memory_type: MemoryType },
    Global { global_type: GlobalType },
}

/// An import: module name, item name and description.
#[derive(Debug)]
pub struct Import {
    pub mod_name: Name,
    pub item_name: Name,
    pub description: ImportDescription,
}

/// What an import stands for.
pub struct ImportModel {
    pub mod_name: Seq<char>,
    pub item_name: Seq<char>,
    pub description: ImportDescription,
}

/// What an export makes visible. Only table 0 and memory 0 exist.
#[derive(Clone, Copy, Debug, PartialEq, Eq, Structural)]
pub enum ExportDescription {
    Func { index: FuncIndex },
    Table,
    Memory,
    Global { index: GlobalIndex },
}

/// An export: a name and what it refers to.
#[derive(Debug)]
pub struct Export {
    pub name: Name,
    pub description: ExportDescription,
}

/// What an export stands for.
pub struct ExportModel {
    pub name: Seq<char>,
    pub description: ExportDescription,
}

/// An instruction of the supported set. Block, loop and if own their
/// nested sequences, so a function body is a finite tree.
#[derive(Debug)]
pub enum Instruction {
    Unreachable,
    Nop,
    /// A block with its own instruction sequence.
    Block(BlockType, InstrSeq),
    /// A loop, whose label branches back to its start.
    Loop(BlockType, InstrSeq),
    /// A conditional; the else branch is empty where the input has none.
    If { ty: BlockType, then_branch: InstrSeq, else_branch: InstrSeq },
    Br(LabelIndex),
    BrIf(LabelIndex),
    BrTable { labels: Vec<LabelIndex>, default: LabelIndex },
    Return,
    Call(FuncIndex),
    CallIndirect(TypeIndex),
    Drop,
    Select,
    LocalGet(LocalIndex),
    LocalSet(LocalIndex),
    LocalTee(LocalIndex),
    GlobalGet(GlobalIndex),
    GlobalSet(GlobalIndex),
    I32Load(MemArg),
    I64Load(MemArg),
    I32Load8S(MemArg),
    I32Load8U(MemArg),
    I32Load16S(MemArg),
    I32Load16U(MemArg),
    I64Load8S(MemArg),
    I64Load8U(MemArg),
    I64Load16S(MemArg),
    I64Load16U(MemArg),
    I64Load32S(MemArg),
    I64Load32U(MemArg),
    I32Store(MemArg),
    I64Store(MemArg),
    I32Store8(MemArg),
    I32Store16(MemArg),
    I64Store8(MemArg),
    I64Store16(MemArg),
    I64Store32(MemArg),
    MemorySize,
    MemoryGrow,
    I32Const(i32),
    I64Const(i64),
    I32Eqz,
    I32Eq,
    I32Ne,
    I32LtS,
    I32LtU,
    I32GtS,
    I32GtU,
    I32LeS,
    I32LeU,
    I32GeS,
    I32GeU,
    I64Eqz,
    I64Eq,
    I64Ne,
    I64LtS,
    I64LtU,
    I64GtS,
    I64GtU,
    I64LeS,
    I64LeU,
    I64GeS,
    I64GeU,
    I32Clz,
    I32Ctz,
    I32Popcnt,
    I32Add,
    I32Sub,
    I32Mul,
    I32DivS,
    I32DivU,
    I32RemS,
    I32RemU,
    I32And,
    I32Or,
    I32Xor,
    I32Shl,
    I32ShrS,
    I32ShrU,
    I32Rotl,
    I32Rotr,
    I64Clz,
    I64Ctz,
    I64Popcnt,
    I64Add,
    I64Sub,
    I64Mul,
    I64DivS,
    I64DivU,
    I64RemS,
    I64RemU,
    I64And,
    I64Or,
    I64Xor,
    I64Shl,
    I64ShrS,
    I64ShrU,
    I64Rotl,
    I64Rotr,
    I32WrapI64,
    I64ExtendI32S,
    I64ExtendI32U,
}

/// What an instruction stands for: its nested sequences as `Seq`s. An
/// instruction that owns no sequence stands for itself.
pub enum InstrModel {
    Block(BlockType, Seq<InstrModel>),
    Loop(BlockType, Seq<InstrModel>),
    If { ty: BlockType, then_branch: Seq<InstrModel>, else_branch: Seq<InstrModel> },
    BrTable { labels: Seq<LabelIndex>, default: LabelIndex },
    Plain(Instruction),
}

impl Instruction {
    /// The instruction owns no sequence.
    pub open spec fn is_plain(&self) -> bool {
        !(self is Block || self is Loop || self is If || self is BrTable)
    }

    pub open spec fn model(self) -> InstrModel
        decreases self,
    {
        match self {
            Instruction::Block(bt, body) => InstrModel::Block(bt, seq_model(body)),
            Instruction::Loop(bt, body) => InstrModel::Loop(bt, seq_model(body)),
            Instruction::If { ty, then_branch, else_branch } => InstrModel::If {
                ty,
                then_branch: seq_model(then_branch),
                else_branch: seq_model(else_branch),
            },
            Instruction::BrTable { labels, default } => InstrModel::BrTable {
                labels: labels@,
                default,
            },
            _ => InstrModel::Plain(self),
        }
    }
}

/// The models of a sequence of instructions, in order.
pub open spec fn seq_model(v: InstrSeq) -> Seq<InstrModel>
    decreases v,
{
    Seq::new(
        v@.len(),
        |k: int|
            if 0 <= k < v@.len() {
                v@[k].model()
            } else {
                InstrModel::Plain(Instruction::Nop)
            },
    )
}

/// A constant expression or a function body: instructions up to the end marker.
#[derive(Debug)]
pub struct Expression {
    pub instrs: InstrSeq,
}

/// A global with its type and initialiser.
#[derive(Debug)]
pub struct Global {
    pub ty: GlobalType,
    pub init: Expression,
}

/// What a global stands for.
pub struct GlobalModel {
    pub ty: GlobalType,
    pub init: Seq<InstrModel>,
}

/// An element segment of table 0: where it starts and the functions it holds.
#[derive(Debug)]
pub struct Element {
    pub offset: Expression,
    pub inits: Vec<FuncIndex>,
}

/// What an element segment stands for.
pub struct ElementModel {
    pub offset: Seq<InstrModel>,
    pub inits: Seq<FuncIndex>,
}

/// A run of `multiplicity` locals of one type.
#[derive(Clone, Copy, Debug, PartialEq, Eq, Structural)]
pub struct Local {
    pub multiplicity: u32,
    pub ty: ValueType,
}

/// A function body: its local declarations and its instructions.
#[derive(Debug)]
pub struct Code {
    pub locals: Vec<Local>,
    pub expr: Expression,
}

/// What a function body stands for.
pub struct CodeModel {
    pub locals: Seq<Local>,
    pub expr: Seq<InstrModel>,
}

/// A data segment of memory 0: where it starts and the bytes it holds.
#[derive(Debug)]
pub struct Data {
    pub offset: Expression,
    pub init: Vec<u8>,
}

/// What a data segment stands for.
pub struct DataModel {
    pub offset: Seq<InstrModel>,
    pub init: Seq<u8>,
}

#[derive(Debug)]
pub struct TypeSection {
    pub types: Vec<FunctionType>,
}

#[derive(Debug)]
pub struct ImportSection {
    pub imports: Vec<Import>,
}

/// The type index of each function defined in the module.
#[derive(Debug)]
pub struct FunctionSection {
    pub types: Vec<TypeIndex>,
}

/// At most one table.
#[derive(Debug)]
pub struct TableSection {
    pub table_type: Option<TableType>,
}

/// At most one memory.
#[derive(Debug)]
pub struct MemorySection {
    pub memory_type: Option<MemoryType>,
}

#[derive(Debug)]
pub struct GlobalSection {
    pub globals: Vec<Global>,
}

#[derive(Debug)]
pub struct ExportSection {
    pub exports: Vec<Export>,
}

/// Start functions are not allowed, so a parsed start section is always empty.
#[derive(Debug)]
pub struct StartSection {}

#[derive(Debug)]
pub struct ElementSection {
    pub elements: Vec<Element>,
}

#[derive(Debug)]
pub struct CodeSection {
    pub impls: Vec<Code>,
}

#[derive(Debug)]
pub struct DataSection {
    pub sections: Vec<Data>,
}

/// A fully decoded module. A section absent from the input is empty here.
#[derive(Debug)]
pub struct Module {
    pub ty: TypeSection,
    pub import: ImportSection,
    pub func: FunctionSection,
    pub table: TableSection,
    pub memory: MemorySection,
    pub global: GlobalSection,
    pub export: ExportSection,
    pub start: StartSection,
    pub element: ElementSection,
    pub code: CodeSection,
    pub data: DataSection,
}

/// What a module stands for, section by section.
pub struct ModuleModel {
    pub ty: Seq<FunctionTypeModel>,
    pub import: Seq<ImportModel>,
    pub func: Seq<TypeIndex>,
    pub table: Option<TableType>,
    pub memory: Option<MemoryType>,
    pub global: Seq<GlobalModel>,
    pub export: Seq<ExportModel>,
    pub start: (),
    pub element: Seq<ElementModel>,
    pub code: Seq<CodeModel>,
    pub data: Seq<DataModel>,
}

/// A custom section: a name, and contents borrowed from the input.
#[derive(Debug)]
pub struct CustomSection<'a> {
    pub name: Name,
    pub contents: &'a [u8],
}

} // verus!
