use wasm_transform::error::ParseError;
use wasm_transform::output::write_skeleton;
use wasm_transform::parse::{parse_custom, parse_module, parse_skeleton, SectionId};
use wasm_transform::utils::strip;

fn header() -> Vec<u8> {
    vec![0x00, 0x61, 0x73, 0x6D, 0x01, 0x00, 0x00, 0x00]
}

fn with_sections(sections: &[(u8, Vec<u8>)]) -> Vec<u8> {
    let mut out = header();
    for (id, contents) in sections {
        out.push(*id);
        assert!(contents.len() < 128);
        out.push(contents.len() as u8);
        out.extend_from_slice(contents);
    }
    out
}

#[test]
fn empty_module_has_no_sections() {
    let bytes = header();
    let skeleton = parse_skeleton(&bytes).unwrap();
    assert!(skeleton.ty.is_none());
    assert!(skeleton.code.is_none());
    assert!(skeleton.custom.is_empty());
    let module = parse_module(&skeleton).unwrap();
    assert!(module.ty.types.is_empty());
    assert!(module.code.impls.is_empty());
    assert!(module.table.table_type.is_none());
}

#[test]
fn bad_magic_is_reported() {
    let bytes = vec![0x00, 0x61, 0x73, 0x00, 0x01, 0x00, 0x00, 0x00];
    assert_eq!(parse_skeleton(&bytes).unwrap_err(), ParseError::MagicMismatch);
}

#[test]
fn bad_version_is_reported() {
    let bytes = vec![0x00, 0x61, 0x73, 0x6D, 0x02, 0x00, 0x00, 0x00];
    assert_eq!(parse_skeleton(&bytes).unwrap_err(), ParseError::UnsupportedVersion);
}

#[test]
fn truncated_header_is_reported() {
    assert_eq!(parse_skeleton(&[0x00, 0x61]).unwrap_err(), ParseError::UnexpectedEnd);
    assert_eq!(
        parse_skeleton(&[0x00, 0x61, 0x73, 0x6D, 0x01]).unwrap_err(),
        ParseError::UnexpectedEnd
    );
}

#[test]
fn code_before_function_is_out_of_order() {
    let bytes = with_sections(&[(10, vec![0x00]), (3, vec![0x00])]);
    assert_eq!(parse_skeleton(&bytes).unwrap_err(), ParseError::SectionOutOfOrder);
}

#[test]
fn duplicate_section_is_out_of_order() {
    let bytes = with_sections(&[(1, vec![0x00]), (1, vec![0x00])]);
    assert_eq!(parse_skeleton(&bytes).unwrap_err(), ParseError::SectionOutOfOrder);
}

#[test]
fn custom_sections_may_appear_anywhere() {
    let bytes = with_sections(&[
        (0, vec![0x01, b'a', 0x09]),
        (1, vec![0x00]),
        (0, vec![0x01, b'b']),
        (3, vec![0x00]),
    ]);
    let skeleton = parse_skeleton(&bytes).unwrap();
    assert_eq!(skeleton.custom.len(), 2);
    assert_eq!(skeleton.custom[0].bytes, &[0x01, b'a', 0x09]);
    assert_eq!(skeleton.ty.as_ref().unwrap().section_id, SectionId::Type);
    assert_eq!(skeleton.func.as_ref().unwrap().bytes, &[0x00]);
}

#[test]
fn unknown_section_id_is_reported() {
    let bytes = with_sections(&[(12, vec![])]);
    assert_eq!(parse_skeleton(&bytes).unwrap_err(), ParseError::UnknownSectionId(12));
}

#[test]
fn section_past_end_is_reported() {
    let mut bytes = header();
    bytes.extend_from_slice(&[0x01, 0x05, 0x00]);
    assert_eq!(parse_skeleton(&bytes).unwrap_err(), ParseError::MalformedByteArray);
}

#[test]
fn skeleton_round_trip() {
    let mut big = vec![0x01, b'n'];
    big.extend(std::iter::repeat(7u8).take(200));
    let mut bytes = with_sections(&[(1, vec![0x01, 0x60, 0x00, 0x00]), (3, vec![0x01, 0x00])]);
    bytes.push(0);
    bytes.extend_from_slice(&[0xCA, 0x01]);
    bytes.extend_from_slice(&big);
    bytes.extend_from_slice(&[0x00, 0x02, 0x01, b'z']);
    let skeleton = parse_skeleton(&bytes).unwrap();
    assert_eq!(skeleton.custom.len(), 2);
    assert_eq!(skeleton.custom[0].bytes.len(), 202);
    assert_eq!(write_skeleton(&skeleton), bytes);
}

#[test]
fn written_skeleton_orders_custom_sections_last() {
    let bytes = with_sections(&[(0, vec![0x01, b'c']), (1, vec![0x00])]);
    let skeleton = parse_skeleton(&bytes).unwrap();
    let expected = with_sections(&[(1, vec![0x00]), (0, vec![0x01, b'c'])]);
    assert_eq!(write_skeleton(&skeleton), expected);
}

#[test]
fn strip_removes_only_custom_sections() {
    let bytes = with_sections(&[(1, vec![0x00]), (0, vec![0x01, b'x'])]);
    let mut skeleton = parse_skeleton(&bytes).unwrap();
    strip(&mut skeleton);
    assert!(skeleton.custom.is_empty());
    assert!(skeleton.ty.is_some());
    assert_eq!(write_skeleton(&skeleton), with_sections(&[(1, vec![0x00])]));
}

#[test]
fn custom_section_name_and_contents() {
    let bytes = with_sections(&[(0, vec![0x04, b'n', b'a', b'm', b'e', 0xAA, 0xBB])]);
    let skeleton = parse_skeleton(&bytes).unwrap();
    let custom = parse_custom(&skeleton.custom[0]).unwrap();
    assert_eq!(custom.name.name, "name");
    assert_eq!(custom.contents, &[0xAA, 0xBB]);
}

#[test]
fn custom_section_non_ascii_name() {
    let bytes = with_sections(&[(0, vec![0x02, 0xC3, 0xA9, 0x01])]);
    let skeleton = parse_skeleton(&bytes).unwrap();
    let custom = parse_custom(&skeleton.custom[0]).unwrap();
    assert_eq!(custom.name.name, "\u{e9}");
    assert_eq!(custom.contents, &[0x01]);
}

#[test]
fn custom_section_bad_utf8_name() {
    let bytes = with_sections(&[(0, vec![0x01, 0xFF])]);
    let skeleton = parse_skeleton(&bytes).unwrap();
    assert_eq!(parse_custom(&skeleton.custom[0]).unwrap_err(), ParseError::InvalidUtf8);
}
