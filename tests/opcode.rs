use wasm_vm::opcode::Opcode;

#[test]
fn opcode_bytes_round_trip() {
    for b in 0..=255u8 {
        if let Some(op) = Opcode::from_u8(b) {
            assert_eq!(op.to_u8(), b);
        }
    }
    assert_eq!(Opcode::from_u8(0x6a), Some(Opcode::I32Add));
    assert_eq!(Opcode::from_u8(0xC4), Some(Opcode::I64Extend32S));
    assert_eq!(Opcode::from_u8(0xff), None);
    assert_eq!(Opcode::End.to_u8(), 0x0b);
}
