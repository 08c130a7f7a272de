use synacor::errors::VmError;
use synacor::memory::Memory;
use synacor::values::{Register, Value};

#[test]
fn decode_boundaries() {
    assert_eq!(Value::decode(32767), Ok(Value::Literal(32767)));
    assert_eq!(Value::decode(32768), Ok(Value::Register(Register(0))));
    assert_eq!(Value::decode(32775), Ok(Value::Register(Register(7))));
    assert_eq!(Value::decode(32776), Err(VmError::InvalidWord));
    assert_eq!(Value::decode(65535), Err(VmError::InvalidWord));
}

#[test]
fn decode_low_words() {
    assert_eq!(Value::decode(0), Ok(Value::Literal(0)));
    assert_eq!(Value::decode(42), Ok(Value::Literal(42)));
    assert_eq!(Value::decode(32770), Ok(Value::Register(Register(2))));
}

#[test]
fn encode_round_trip() {
    for w in [0u16, 1, 100, 32767, 32768, 32770, 32775] {
        let v = Value::decode(w).expect("word should decode");
        assert_eq!(v.encode(), w);
    }
    assert_eq!(Value::Literal(5).encode(), 5);
    assert_eq!(Value::Register(Register(3)).encode(), 32771);
    assert_eq!(Value::Register(Register(7)).encode(), 32775);
}

#[test]
fn register_index() {
    assert_eq!(Register(0).index(), 0);
    assert_eq!(Register(7).index(), 7);
}

#[test]
fn memory_starts_zeroed() {
    let mut m = Memory::new();
    assert_eq!(m.at(0), Ok(0));
    assert_eq!(m.at(32767), Ok(0));
    for i in 0..8 {
        assert_eq!(m.read_register(i), 0);
    }
    assert_eq!(m.pop(), None);
}

#[test]
fn memory_load_little_endian() {
    let mut m = Memory::new();
    m.load(vec![0x34, 0x12, 0x01, 0x80]);
    assert_eq!(m.at(0), Ok(0x1234));
    assert_eq!(m.at(1), Ok(0x8001));
    assert_eq!(m.at(2), Ok(0));
}

#[test]
fn memory_load_odd_byte_discarded() {
    let mut m = Memory::new();
    m.load(vec![7, 0, 9]);
    assert_eq!(m.at(0), Ok(7));
    assert_eq!(m.at(1), Ok(0));
}

#[test]
fn memory_read_write() {
    let mut m = Memory::new();
    assert_eq!(m.set(5, 999), Ok(()));
    assert_eq!(m.at(5), Ok(999));
    assert_eq!(m.set(32768, 1), Err(VmError::AddressOutOfRange));
    assert_eq!(m.at(40000), Err(VmError::AddressOutOfRange));
}

#[test]
fn memory_registers() {
    let mut m = Memory::new();
    m.set_register(3, 123);
    assert_eq!(m.read_register(3), 123);
    assert_eq!(m.read_register(2), 0);
}

#[test]
fn memory_stack() {
    let mut m = Memory::new();
    m.push(1);
    m.push(2);
    assert_eq!(m.stack_depth(), 2);
    assert_eq!(m.pop(), Some(2));
    assert_eq!(m.pop(), Some(1));
    assert_eq!(m.pop(), None);
    assert_eq!(m.stack_depth(), 0);
}

#[test]
fn memory_slice() {
    let mut m = Memory::new();
    m.load(vec![10, 0, 20, 0, 30, 0]);
    assert_eq!(m.slice(0, 2), vec![10, 20, 30]);
    assert_eq!(m.slice(1, 1), vec![20]);
}
