use rdbg::symbols::{location_or_unknown, DebugData, LoadError, SourceLocation};

/// A 64-bit little-endian ELF header with no sections or segments.
fn bare_elf() -> Vec<u8> {
    let mut image = vec![0x7f, b'E', b'L', b'F', 2, 1, 1, 0];
    image.extend_from_slice(&[0; 8]);
    image.extend_from_slice(&2u16.to_le_bytes());
    image.extend_from_slice(&0x3eu16.to_le_bytes());
    image.extend_from_slice(&1u32.to_le_bytes());
    image.extend_from_slice(&0u64.to_le_bytes());
    image.extend_from_slice(&0u64.to_le_bytes());
    image.extend_from_slice(&0u64.to_le_bytes());
    image.extend_from_slice(&0u32.to_le_bytes());
    image.extend_from_slice(&64u16.to_le_bytes());
    image.extend_from_slice(&56u16.to_le_bytes());
    image.extend_from_slice(&0u16.to_le_bytes());
    image.extend_from_slice(&64u16.to_le_bytes());
    image.extend_from_slice(&0u16.to_le_bytes());
    image.extend_from_slice(&0u16.to_le_bytes());
    image
}

fn push_section_header(image: &mut Vec<u8>, name: u32, kind: u32, offset: u64, size: u64) {
    image.extend_from_slice(&name.to_le_bytes());
    image.extend_from_slice(&kind.to_le_bytes());
    image.extend_from_slice(&0u64.to_le_bytes());
    image.extend_from_slice(&0u64.to_le_bytes());
    image.extend_from_slice(&offset.to_le_bytes());
    image.extend_from_slice(&size.to_le_bytes());
    image.extend_from_slice(&[0; 8]);
    image.extend_from_slice(&1u64.to_le_bytes());
    image.extend_from_slice(&0u64.to_le_bytes());
}

/// An ELF image whose `.debug_info` section holds a unit of an unknown
/// DWARF version.
fn elf_with_bad_debug_info() -> Vec<u8> {
    let mut image = vec![0x7f, b'E', b'L', b'F', 2, 1, 1, 0];
    image.extend_from_slice(&[0; 8]);
    image.extend_from_slice(&2u16.to_le_bytes());
    image.extend_from_slice(&0x3eu16.to_le_bytes());
    image.extend_from_slice(&1u32.to_le_bytes());
    image.extend_from_slice(&0u64.to_le_bytes());
    image.extend_from_slice(&0u64.to_le_bytes());
    image.extend_from_slice(&112u64.to_le_bytes());
    image.extend_from_slice(&0u32.to_le_bytes());
    image.extend_from_slice(&64u16.to_le_bytes());
    image.extend_from_slice(&56u16.to_le_bytes());
    image.extend_from_slice(&0u16.to_le_bytes());
    image.extend_from_slice(&64u16.to_le_bytes());
    image.extend_from_slice(&3u16.to_le_bytes());
    image.extend_from_slice(&1u16.to_le_bytes());
    image.extend_from_slice(b"\0.shstrtab\0.debug_info\0");
    image.extend_from_slice(&[16, 0, 0, 0, 9, 0]);
    image.extend_from_slice(&[0; 14]);
    image.extend_from_slice(&[0; 5]);
    assert_eq!(image.len(), 112);
    image.extend_from_slice(&[0; 64]);
    push_section_header(&mut image, 1, 3, 64, 23);
    push_section_header(&mut image, 11, 1, 87, 20);
    image
}

#[test]
fn unreadable_debug_info_is_refused() {
    assert!(matches!(DebugData::new(&elf_with_bad_debug_info()), Err(LoadError::BadDebugInfo)));
}

#[test]
fn garbage_is_not_an_object_file() {
    assert!(matches!(DebugData::new(b"not an object file"), Err(LoadError::NotAnObject)));
    assert!(matches!(DebugData::new(&[]), Err(LoadError::NotAnObject)));
}

#[test]
fn a_bare_elf_image_loads() {
    assert!(DebugData::new(&bare_elf()).is_ok());
}

#[test]
fn addresses_without_entries_resolve_to_nothing() {
    let data = DebugData::new(&bare_elf()).ok().unwrap();
    for addr in [0u64, 0x401000, u64::MAX].iter() {
        let location = data.find_location(*addr);
        assert!(location.file.is_none());
        assert!(location.line.is_none());
        assert!(location.column.is_none());
        assert!(data.find_function_name(*addr).is_none());
    }
}

#[test]
fn a_found_location_is_kept() {
    let found = SourceLocation { file: Some("main.c".to_string()), line: Some(7), column: None };
    let r = location_or_unknown(Some(found));
    assert_eq!(r.file, Some("main.c".to_string()));
    assert_eq!(r.line, Some(7));
    assert_eq!(r.column, None);
    let missing = location_or_unknown(None);
    assert!(missing.file.is_none() && missing.line.is_none() && missing.column.is_none());
}
