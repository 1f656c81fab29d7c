use wasm_vm::memory::MemInst;
use wasm_vm::value::Trap;
use wasm_vm::wasi::{fd_write, gather_iovecs};

#[test]
fn fd_write_single_iovec() {
    let mut m = MemInst::new(1, None).unwrap();
    for (k, b) in b"hi\n".iter().enumerate() {
        m.store(16 + k as u32, 0, 1, *b as u64).unwrap();
    }
    m.store(0, 0, 4, 16).unwrap();
    m.store(4, 0, 4, 3).unwrap();
    let bytes = gather_iovecs(&m, 0, 1).unwrap();
    assert_eq!(bytes, b"hi\n".to_vec());
    let nwritten_ptr = 32;
    m.store(nwritten_ptr, 0, 4, bytes.len() as u64).unwrap();
    assert_eq!(m.load(nwritten_ptr, 0, 4), Ok(3));
}

#[test]
fn fd_write_iovecs_in_order() {
    let mut m = MemInst::new(1, None).unwrap();
    m.store(100, 0, 2, 0x6261).unwrap(); // "ab"
    m.store(200, 0, 1, 0x63).unwrap(); // "c"
    m.store(0, 0, 4, 200).unwrap();
    m.store(4, 0, 4, 1).unwrap();
    m.store(8, 0, 4, 100).unwrap();
    m.store(12, 0, 4, 2).unwrap();
    assert_eq!(gather_iovecs(&m, 0, 2), Ok(b"cab".to_vec()));
    assert_eq!(gather_iovecs(&m, 0, 0), Ok(vec![]));
}

#[test]
fn fd_write_out_of_bounds() {
    let mut m = MemInst::new(1, None).unwrap();
    m.store(0, 0, 4, 65535).unwrap();
    m.store(4, 0, 4, 2).unwrap();
    assert_eq!(gather_iovecs(&m, 0, 1), Err(Trap::OutOfBoundsMemoryAccess));
    assert_eq!(gather_iovecs(&m, 65532, 1), Err(Trap::OutOfBoundsMemoryAccess));
}

#[test]
fn fd_write_stores_count_and_returns_bytes() {
    let mut m = MemInst::new(1, None).unwrap();
    for (k, b) in b"hi\n".iter().enumerate() {
        m.store(16 + k as u32, 0, 1, *b as u64).unwrap();
    }
    m.store(0, 0, 4, 16).unwrap();
    m.store(4, 0, 4, 3).unwrap();
    let (bytes, errno) = fd_write(&mut m, 0, 1, 32).unwrap();
    assert_eq!(bytes, b"hi\n".to_vec());
    assert_eq!(errno, 0);
    assert_eq!(m.load(32, 0, 4), Ok(3));
    assert_eq!(fd_write(&mut m, 0, 1, 65534), Err(Trap::OutOfBoundsMemoryAccess));
    assert_eq!(m.load(65532, 0, 4), Ok(0));
}
