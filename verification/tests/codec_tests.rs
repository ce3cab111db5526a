use instruction_indexer::codec::read_bool;
use instruction_indexer::codec::read_u16;
use instruction_indexer::codec::read_u32;
use instruction_indexer::codec::read_u64;
use instruction_indexer::codec::read_u8;

#[test]
fn read_u8_reads_one_byte() {
    let data = [0xab, 0xcd];
    assert_eq!(read_u8(&data, 0), Some((0xab, 1)));
    assert_eq!(read_u8(&data, 1), Some((0xcd, 2)));
    assert_eq!(read_u8(&data, 2), None);
}

#[test]
fn read_u16_is_little_endian() {
    let data = [0x34, 0x12, 0xff];
    assert_eq!(read_u16(&data, 0), Some((0x1234, 2)));
    assert_eq!(read_u16(&data, 2), None);
}

#[test]
fn read_u32_is_little_endian() {
    let data = [0x78, 0x56, 0x34, 0x12];
    assert_eq!(read_u32(&data, 0), Some((0x12345678, 4)));
    assert_eq!(read_u32(&data, 1), None);
}

#[test]
fn read_u64_is_little_endian() {
    let data = [1, 0, 0, 0, 0, 0, 0, 0, 0xef, 0xcd, 0xab, 0x89, 0x67, 0x45, 0x23, 0x01];
    assert_eq!(read_u64(&data, 0), Some((1, 8)));
    assert_eq!(read_u64(&data, 8), Some((0x0123456789abcdef, 16)));
    assert_eq!(read_u64(&data, 9), None);
}

#[test]
fn read_bool_is_strict() {
    let data = [0, 1, 2];
    assert_eq!(read_bool(&data, 0), Some((false, 1)));
    assert_eq!(read_bool(&data, 1), Some((true, 2)));
    assert_eq!(read_bool(&data, 2), None);
    assert_eq!(read_bool(&data, 3), None);
}
