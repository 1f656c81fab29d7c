use wasm_vm::memory::MemInst;
use wasm_vm::interp::invoke;
use wasm_vm::leb128::DecodeError;
use wasm_vm::module::{check_header, decode_module, find_function_export, instantiate_memory, instantiate_table, read_sections, DataSegment, ElemSegment, Section};
use wasm_vm::value::{Error, Trap};
use wasm_vm::interp::Global;
use wasm_vm::value::Value;

fn add_module() -> Vec<u8> {
    vec![
        0x00, 0x61, 0x73, 0x6d, 0x01, 0x00, 0x00, 0x00, // preamble
        0x01, 0x07, 0x01, 0x60, 0x02, 0x7f, 0x7f, 0x01, 0x7f, // types
        0x03, 0x02, 0x01, 0x00, // functions
        0x07, 0x07, 0x01, 0x03, b'a', b'd', b'd', 0x00, 0x00, // exports
        0x0a, 0x09, 0x01, 0x07, 0x00, 0x20, 0x00, 0x20, 0x01, 0x6a, 0x0b, // code
    ]
}

fn no_memory() -> MemInst {
    MemInst::new(0, None).unwrap()
}

#[test]
fn decode_and_run_add_module() {
    let m = decode_module(&add_module()).unwrap();
    assert_eq!(m.types.len(), 1);
    assert_eq!(m.func_types, vec![0]);
    let idx = find_function_export(&m.exports, &b"add".to_vec()).unwrap();
    assert_eq!(idx, 0);
    assert_eq!(find_function_export(&m.exports, &b"sub".to_vec()), None);
    let r = invoke(&m.functions, &mut no_memory(), &mut vec![], &vec![], &vec![], idx as usize, vec![Value::I32(2), Value::I32(3)], 1000);
    assert_eq!(r, Ok(vec![Value::I32(5)]));
}

#[test]
fn sections_are_split() {
    let s = read_sections(&add_module()).unwrap();
    let ids: Vec<u8> = s.iter().map(|x| x.id).collect();
    assert_eq!(ids, vec![1, 3, 7, 10]);
    assert_eq!(s[1], Section { id: 3, start: 19, end: 21 });
}

#[test]
fn header_errors() {
    assert_eq!(check_header(&vec![0x00, 0x61, 0x73]), Err(DecodeError::MalformedHeader));
    assert_eq!(check_header(&vec![0x00, 0x61, 0x73, 0x6d, 0x02, 0x00, 0x00, 0x00]), Err(DecodeError::MalformedHeader));
    assert!(decode_module(&vec![0x00, 0x61, 0x73, 0x6d, 0x01, 0x00, 0x00, 0x00]).is_ok());
}

#[test]
fn section_errors() {
    let mut bad_id = add_module();
    bad_id[8] = 0x0c;
    assert!(matches!(decode_module(&bad_id), Err(DecodeError::UnknownSection)));
    let mut truncated = add_module();
    truncated.truncate(truncated.len() - 1);
    assert!(matches!(decode_module(&truncated), Err(DecodeError::TruncatedInput)));
    let mut bad_type = add_module();
    bad_type[13] = 0x70;
    assert!(matches!(decode_module(&bad_type), Err(DecodeError::BadValueType)));
}

#[test]
fn memory_section_is_read() {
    let mut bytes = add_module();
    // a memory section with limits min 1, max 3, placed after the function section
    let mem = vec![0x05, 0x04, 0x01, 0x01, 0x01, 0x03];
    bytes.splice(21..21, mem);
    let m = decode_module(&bytes).unwrap();
    assert_eq!(m.memory, Some((1, Some(3))));
    assert_eq!(decode_module(&add_module()).unwrap().memory, None);
}

#[test]
fn data_segments_fill_memory() {
    let mut bytes = add_module();
    bytes.splice(21..21, vec![0x05, 0x03, 0x01, 0x00, 0x01]);
    bytes.extend_from_slice(&[0x0b, 0x09, 0x01, 0x00, 0x41, 0x10, 0x0b, 0x03, b'h', b'i', b'\n']);
    let m = decode_module(&bytes).unwrap();
    assert_eq!(m.memory, Some((1, None)));
    assert_eq!(m.data.len(), 1);
    assert_eq!(m.data[0].offset, 16);
    assert_eq!(m.data[0].bytes, b"hi\n".to_vec());
    let mem = instantiate_memory(m.memory, &m.data).unwrap();
    assert_eq!(mem.data.len(), 65536);
    assert_eq!(&mem.data[15..20], &[0, b'h', b'i', b'\n', 0]);
}

#[test]
fn data_segment_past_memory_end() {
    let seg = DataSegment { offset: 65535, bytes: vec![1, 2] };
    assert_eq!(
        instantiate_memory(Some((1, None)), &vec![seg]).err(),
        Some(Error::Trap(Trap::OutOfBoundsMemoryAccess))
    );
    let mut mem = MemInst::new(1, None).unwrap();
    assert_eq!(mem.init_data(65534, &vec![7, 8]), Ok(()));
    assert_eq!(&mem.data[65534..], &[7, 8]);
    assert_eq!(mem.init_data(65535, &vec![7, 8]), Err(Trap::OutOfBoundsMemoryAccess));
    assert!(instantiate_memory(None, &vec![]).unwrap().data.is_empty());
}

#[test]
fn global_section_is_read() {
    let mut bytes = add_module();
    // two globals: mutable i32 = -1, immutable i64 = 5
    let globals = vec![0x06, 0x0b, 0x02, 0x7f, 0x01, 0x41, 0x7f, 0x0b, 0x7e, 0x00, 0x42, 0x05, 0x0b];
    bytes.splice(21..21, globals);
    let m = decode_module(&bytes).unwrap();
    assert_eq!(
        m.globals,
        vec![Global { value: Value::I32(-1), mutable: true }, Global { value: Value::I64(5), mutable: false }]
    );
}

#[test]
fn imports_are_refused() {
    let mut bytes = add_module();
    bytes.splice(8..8, vec![0x02, 0x01, 0x01]);
    assert!(matches!(decode_module(&bytes), Err(DecodeError::UnlinkableImport)));
    let mut empty = add_module();
    empty.splice(8..8, vec![0x02, 0x01, 0x00]);
    assert!(decode_module(&empty).is_ok());
}

#[test]
fn function_type_index_checked() {
    let mut bytes = add_module();
    bytes[20] = 0x01;
    assert!(matches!(decode_module(&bytes), Err(DecodeError::BadIndex)));
}

#[test]
fn table_and_elements_are_read_and_placed() {
    let mut bytes = add_module();
    // table of 3 function references (after the function section), then elements [0] at 1
    bytes.splice(21..21, vec![0x04, 0x04, 0x01, 0x70, 0x00, 0x03]);
    let at = bytes.len() - 11; // before the code section
    bytes.splice(at..at, vec![0x09, 0x07, 0x01, 0x00, 0x41, 0x01, 0x0b, 0x01, 0x00]);
    let m = decode_module(&bytes).unwrap();
    assert_eq!(m.table, Some((3, None)));
    assert_eq!(m.elems.len(), 1);
    assert_eq!(m.elems[0].offset, 1);
    assert_eq!(m.elems[0].funcs, vec![0]);
    assert_eq!(instantiate_table(m.table, &m.elems), Ok(vec![None, Some(0), None]));
    let late = ElemSegment { offset: 3, funcs: vec![0] };
    assert_eq!(instantiate_table(m.table, &vec![late]), Err(Error::Trap(Trap::UndefinedElement)));
}
