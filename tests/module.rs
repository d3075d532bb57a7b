use wasm_transform::error::ParseError;
use wasm_transform::parse::{
    decode_instruction, parse_all, parse_module, parse_skeleton, preallocation, GetParseable, Parseable,
    MAX_PREALLOCATED_BYTES,
};
use wasm_transform::cursor::Cursor;
use wasm_transform::types::{
    BlockType, Code, CodeSection, DataSection, ElementSection, ExportDescription, ExportSection,
    Expression, FunctionType, ImportDescription, ImportSection, Instruction, Limits,
    MemorySection, TableSection, TypeSection, ValueType,
};

fn module_bytes(sections: &[(u8, Vec<u8>)]) -> Vec<u8> {
    let mut out = vec![0x00, 0x61, 0x73, 0x6D, 0x01, 0x00, 0x00, 0x00];
    for (id, contents) in sections {
        out.push(*id);
        assert!(contents.len() < 128);
        out.push(contents.len() as u8);
        out.extend_from_slice(contents);
    }
    out
}

fn parse_bytes(bytes: &[u8]) -> Result<wasm_transform::types::Module, ParseError> {
    let skeleton = parse_skeleton(bytes)?;
    parse_module(&skeleton)
}

/// One function `() -> i32` whose body is `body` (without the final end).
fn one_function(body: &[u8]) -> Vec<u8> {
    let mut code = vec![0x00];
    code.extend_from_slice(body);
    code.push(0x0B);
    let mut entry = vec![code.len() as u8];
    entry.extend_from_slice(&code);
    let mut code_section = vec![0x01];
    code_section.extend_from_slice(&entry);
    module_bytes(&[(1, vec![0x01, 0x60, 0x00, 0x01, 0x7F]), (3, vec![0x01, 0x00]), (10, code_section)])
}

#[test]
fn decodes_a_small_module() {
    let module = parse_bytes(&one_function(&[0x41, 0x2A])).unwrap();
    assert_eq!(module.ty.types.len(), 1);
    assert!(module.ty.types[0].parameters.is_empty());
    assert_eq!(module.ty.types[0].result, Some(ValueType::I32));
    assert_eq!(module.func.types, vec![0]);
    assert_eq!(module.code.impls.len(), 1);
    assert!(matches!(module.code.impls[0].expr.instrs[..], [Instruction::I32Const(42)]));
}

#[test]
fn parsing_twice_gives_equal_modules() {
    let bytes = one_function(&[0x04, 0x40, 0x01, 0x05, 0x01, 0x0B, 0x41, 0x07]);
    let first = parse_bytes(&bytes).unwrap();
    let second = parse_bytes(&bytes.clone()).unwrap();
    assert_eq!(format!("{:?}", first), format!("{:?}", second));
}

#[test]
fn float_opcode_is_unsupported() {
    let bytes = one_function(&[0x43, 0x00, 0x00, 0x80, 0x3F]);
    assert_eq!(parse_bytes(&bytes).unwrap_err(), ParseError::UnsupportedInstruction(0x43));
    let add = one_function(&[0x41, 0x01, 0x41, 0x02, 0x92]);
    assert_eq!(parse_bytes(&add).unwrap_err(), ParseError::UnsupportedInstruction(0x92));
}

#[test]
fn huge_declared_length_fails() {
    let bytes = [0xFF, 0xFF, 0xFF, 0xFF, 0x0F, 0x60, 0x00];
    assert_eq!(parse_all::<TypeSection>(&bytes).unwrap_err(), ParseError::MalformedInteger);
    let data = [0xFF, 0xFF, 0xFF, 0xFF, 0x0F, 0x01, 0x02];
    assert_eq!(parse_all::<Vec<u8>>(&data).unwrap_err(), ParseError::UnexpectedEnd);
}

#[test]
fn preallocation_is_capped() {
    assert_eq!(preallocation(u32::MAX, 1), MAX_PREALLOCATED_BYTES);
    assert_eq!(preallocation(u32::MAX, 40), 25);
    assert_eq!(preallocation(3, 40), 3);
    assert_eq!(preallocation(u32::MAX, 0), MAX_PREALLOCATED_BYTES);
}

#[test]
fn if_else_decodes_both_branches() {
    let bytes = [0x04, 0x7F, 0x41, 0x01, 0x05, 0x41, 0x00, 0x0B, 0x0B];
    let expr = parse_all::<Expression>(&bytes).unwrap();
    assert_eq!(expr.instrs.len(), 1);
    match &expr.instrs[0] {
        Instruction::If { ty, then_branch, else_branch } => {
            assert_eq!(*ty, BlockType::ValueType(ValueType::I32));
            assert!(matches!(then_branch[..], [Instruction::I32Const(1)]));
            assert!(matches!(else_branch[..], [Instruction::I32Const(0)]));
        }
        other => panic!("not an if: {:?}", other),
    }
}

#[test]
fn if_without_else_has_empty_else_branch() {
    let bytes = [0x04, 0x7F, 0x41, 0x01, 0x0B, 0x0B];
    let expr = parse_all::<Expression>(&bytes).unwrap();
    match &expr.instrs[0] {
        Instruction::If { then_branch, else_branch, .. } => {
            assert!(matches!(then_branch[..], [Instruction::I32Const(1)]));
            assert!(else_branch.is_empty());
        }
        other => panic!("not an if: {:?}", other),
    }
}

#[test]
fn code_size_mismatch_is_reported() {
    let entry = [0x05, 0x00, 0x41, 0x01, 0x0B];
    assert_eq!(parse_all::<Code>(&entry).unwrap_err(), ParseError::CodeSizeMismatch);
    let exact = [0x04, 0x00, 0x41, 0x01, 0x0B];
    assert!(parse_all::<Code>(&exact).is_ok());
    let section = [0x01, 0x03, 0x00, 0x41, 0x01, 0x0B];
    assert_eq!(parse_all::<CodeSection>(&section).unwrap_err(), ParseError::CodeSizeMismatch);
}

#[test]
fn nested_blocks_and_branches() {
    let bytes = [
        0x02, 0x40, 0x03, 0x40, 0x0C, 0x01, 0x0D, 0x00, 0x0B, 0x0E, 0x02, 0x00, 0x01, 0x00, 0x0B,
        0x0B,
    ];
    let expr = parse_all::<Expression>(&bytes).unwrap();
    match &expr.instrs[..] {
        [Instruction::Block(BlockType::EmptyType, body)] => match &body[..] {
            [Instruction::Loop(BlockType::EmptyType, inner), Instruction::BrTable { labels, default }] => {
                assert!(matches!(inner[..], [Instruction::Br(1), Instruction::BrIf(0)]));
                assert_eq!(labels, &vec![0, 1]);
                assert_eq!(*default, 0);
            }
            other => panic!("unexpected block body: {:?}", other),
        },
        other => panic!("unexpected expression: {:?}", other),
    }
}

#[test]
fn immediates_are_read() {
    let bytes = [
        0x11, 0x03, 0x00, 0x3F, 0x00, 0x40, 0x00, 0x28, 0x02, 0x10, 0x42, 0x7F, 0x20, 0x05, 0x1A,
        0x0B,
    ];
    let expr = parse_all::<Expression>(&bytes).unwrap();
    assert_eq!(format!("{:?}", expr.instrs), format!("{:?}", vec![
        Instruction::CallIndirect(3),
        Instruction::MemorySize,
        Instruction::MemoryGrow,
        Instruction::I32Load(wasm_transform::types::MemArg { offset: 16, align: 2 }),
        Instruction::I64Const(-1),
        Instruction::LocalGet(5),
        Instruction::Drop,
    ]));
}

#[test]
fn call_indirect_needs_zero_byte() {
    let mut cursor = Cursor::new(&[0x03, 0x01]);
    assert_eq!(
        decode_instruction(0x11, &mut cursor).unwrap_err(),
        ParseError::UnexpectedByte { found: 0x01, expected: 0x00 }
    );
}

#[test]
fn unterminated_body_fails() {
    let bytes = [0x41, 0x01];
    assert_eq!(parse_all::<Expression>(&bytes).unwrap_err(), ParseError::UnexpectedEnd);
}

#[test]
fn bad_block_type_is_reported() {
    let bytes = [0x02, 0x7D, 0x0B, 0x0B];
    assert_eq!(parse_all::<Expression>(&bytes).unwrap_err(), ParseError::UnsupportedBlockType(0x7D));
}

#[test]
fn start_section_is_rejected() {
    let bytes = module_bytes(&[(8, vec![0x00])]);
    assert_eq!(parse_bytes(&bytes).unwrap_err(), ParseError::StartNotSupported);
}

#[test]
fn second_table_is_rejected() {
    let section = [0x02, 0x70, 0x00, 0x01, 0x70, 0x00, 0x01];
    assert_eq!(parse_all::<TableSection>(&section).unwrap_err(), ParseError::MultipleTables);
    let one = parse_all::<TableSection>(&[0x01, 0x70, 0x01, 0x01, 0x02]).unwrap();
    assert_eq!(one.table_type.unwrap().limits, Limits { min: 1, max: Some(2) });
}

#[test]
fn second_memory_is_rejected() {
    let section = [0x02, 0x00, 0x01, 0x00, 0x01];
    assert_eq!(parse_all::<MemorySection>(&section).unwrap_err(), ParseError::MultipleMemories);
    let none = parse_all::<MemorySection>(&[0x00]).unwrap();
    assert!(none.memory_type.is_none());
}

#[test]
fn bad_limits_tag_is_reported() {
    assert_eq!(parse_all::<MemorySection>(&[0x01, 0x02, 0x00]).unwrap_err(), ParseError::BadLimitsTag(2));
}

#[test]
fn multiple_results_are_rejected() {
    let section = [0x01, 0x60, 0x00, 0x02, 0x7F, 0x7F];
    assert_eq!(parse_all::<TypeSection>(&section).unwrap_err(), ParseError::MultipleResults);
}

#[test]
fn float_value_type_is_rejected() {
    let section = [0x01, 0x60, 0x01, 0x7D, 0x00];
    assert_eq!(parse_all::<TypeSection>(&section).unwrap_err(), ParseError::UnsupportedValueType(0x7D));
    let ok = parse_all::<FunctionType>(&[0x60, 0x02, 0x7F, 0x7E, 0x00]).unwrap();
    assert_eq!(ok.parameters, vec![ValueType::I32, ValueType::I64]);
    assert_eq!(ok.result, None);
}

#[test]
fn function_type_needs_marker() {
    assert_eq!(
        parse_all::<FunctionType>(&[0x61, 0x00, 0x00]).unwrap_err(),
        ParseError::UnexpectedByte { found: 0x61, expected: 0x60 }
    );
}

#[test]
fn imports_are_decoded() {
    let section = [
        0x02, 0x01, b'm', 0x01, b'f', 0x00, 0x02, 0x01, b'm', 0x01, b'g', 0x03, 0x7E, 0x01,
    ];
    let imports = parse_all::<ImportSection>(&section).unwrap();
    assert_eq!(imports.imports[0].mod_name.name, "m");
    assert_eq!(imports.imports[0].description, ImportDescription::Func { type_idx: 2 });
    assert_eq!(imports.imports[1].item_name.name, "g");
    assert!(matches!(imports.imports[1].description, ImportDescription::Global { .. }));
    let bad = [0x01, 0x01, b'm', 0x01, b'f', 0x04];
    assert_eq!(parse_all::<ImportSection>(&bad).unwrap_err(), ParseError::UnsupportedImportTag(4));
}

#[test]
fn global_mutability_flag_is_checked() {
    let bad = [0x01, 0x01, b'm', 0x01, b'g', 0x03, 0x7F, 0x02];
    assert_eq!(parse_all::<ImportSection>(&bad).unwrap_err(), ParseError::BadMutabilityFlag(2));
}

#[test]
fn exports_are_decoded() {
    let section = [0x02, 0x01, b'f', 0x00, 0x03, 0x01, b'm', 0x02, 0x00];
    let exports = parse_all::<ExportSection>(&section).unwrap();
    assert_eq!(exports.exports[0].description, ExportDescription::Func { index: 3 });
    assert_eq!(exports.exports[1].description, ExportDescription::Memory);
    let table = [0x01, 0x01, b't', 0x01, 0x01];
    assert_eq!(parse_all::<ExportSection>(&table).unwrap_err(), ParseError::NonZeroTableIndex);
    let memory = [0x01, 0x01, b't', 0x02, 0x01];
    assert_eq!(parse_all::<ExportSection>(&memory).unwrap_err(), ParseError::NonZeroMemoryIndex);
    let tag = [0x01, 0x01, b't', 0x09];
    assert_eq!(parse_all::<ExportSection>(&tag).unwrap_err(), ParseError::UnsupportedExportTag(9));
}

#[test]
fn data_segments_need_memory_zero() {
    let ok = parse_all::<DataSection>(&[0x01, 0x00, 0x41, 0x08, 0x0B, 0x02, 0xAB, 0xCD]).unwrap();
    assert_eq!(ok.sections[0].init, vec![0xAB, 0xCD]);
    let bad = [0x01, 0x01, 0x41, 0x08, 0x0B, 0x00];
    assert_eq!(parse_all::<DataSection>(&bad).unwrap_err(), ParseError::NonZeroMemoryIndex);
}

#[test]
fn element_segments_need_table_zero() {
    let ok = parse_all::<ElementSection>(&[0x01, 0x00, 0x41, 0x00, 0x0B, 0x02, 0x04, 0x05]).unwrap();
    assert_eq!(ok.elements[0].inits, vec![4, 5]);
    let bad = [0x01, 0x02, 0x41, 0x00, 0x0B, 0x00];
    assert_eq!(parse_all::<ElementSection>(&bad).unwrap_err(), ParseError::NonZeroTableIndex);
}

#[test]
fn leftover_section_bytes_are_rejected() {
    assert_eq!(parse_all::<TypeSection>(&[0x00, 0x00]).unwrap_err(), ParseError::LeftoverBytes);
    let bytes = module_bytes(&[(3, vec![0x01, 0x00, 0x00])]);
    assert_eq!(parse_bytes(&bytes).unwrap_err(), ParseError::LeftoverBytes);
}

#[test]
fn cursor_reads_values_in_turn() {
    let bytes = [0x60, 0x00, 0x00, 0x7F];
    let mut cursor = Cursor::new(&bytes);
    let ty = FunctionType::parse(&mut cursor).unwrap();
    assert!(ty.parameters.is_empty() && ty.result.is_none());
    assert_eq!(cursor.position(), 3);
    assert_eq!(ValueType::parse(&mut cursor).unwrap(), ValueType::I32);
    assert_eq!(cursor.position(), 4);
}

#[test]
fn next_reads_by_context() {
    let bytes = [0x7E, 0x2A];
    let mut cursor = Cursor::new(&bytes);
    let ty: ValueType = (&mut cursor).next().unwrap();
    let n: u32 = (&mut cursor).next().unwrap();
    assert_eq!((ty, n), (ValueType::I64, 42));
    let whole: &[u8] = &[0x02, 0x01, 0x02];
    let v: Vec<u8> = whole.next().unwrap();
    assert_eq!(v, vec![1, 2]);
    let short: &[u8] = &[0x01, 0x01, 0x02];
    let err: Result<Vec<u8>, ParseError> = short.next();
    assert_eq!(err.unwrap_err(), ParseError::LeftoverBytes);
}
