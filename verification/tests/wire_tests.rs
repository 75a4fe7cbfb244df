use mpu6050_dmp::wire::i16_from_be;
use mpu6050_dmp::wire::i32_from_be;
use mpu6050_dmp::wire::u16_from_be;

#[test]
fn i16_big_endian_positive() {
    assert_eq!(i16_from_be(0x01, 0x02), 0x0102);
    assert_eq!(i16_from_be(0x03, 0x04), 0x0304);
    assert_eq!(i16_from_be(0x05, 0x06), 0x0506);
    assert_eq!(i16_from_be(0x00, 0x00), 0);
}

#[test]
fn i16_big_endian_negative() {
    assert_eq!(i16_from_be(0xFF, 0xFE), -2);
    assert_eq!(i16_from_be(0x80, 0x00), i16::MIN);
}

#[test]
fn u16_big_endian() {
    assert_eq!(u16_from_be(0x01, 0x02), 0x0102);
    assert_eq!(u16_from_be(0xFF, 0xFF), 0xFFFF);
    assert_eq!(u16_from_be(0x00, 0x03), 3);
}

#[test]
fn i32_big_endian() {
    assert_eq!(i32_from_be(0x00, 0x00, 0x40, 0x00), 16384);
    assert_eq!(i32_from_be(0xFF, 0xFF, 0xC0, 0x00), -16384);
    assert_eq!(i32_from_be(0x7F, 0xFF, 0xFF, 0xFF), i32::MAX);
    assert_eq!(i32_from_be(0x80, 0x00, 0x00, 0x00), i32::MIN);
}
