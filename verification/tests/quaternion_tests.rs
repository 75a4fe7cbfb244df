use mpu6050_dmp::quaternion::Quaternion;

#[test]
fn quaternion_decode_is_deterministic() {
    let block: [u8; 16] = [
        0x00, 0x00, 0x40, 0x00, 0xFF, 0xFF, 0xC0, 0x00, 0x00, 0x00, 0x00, 0x00, 0x00, 0x00, 0x00,
        0x01,
    ];
    let a = Quaternion::from_bytes(&block).unwrap();
    let b = Quaternion::from_bytes(&block).unwrap();
    assert_eq!(a, b);
    assert_eq!(a.w, 16384);
    assert_eq!(a.x, -16384);
    assert_eq!(a.y, 0);
    assert_eq!(a.z, 1);
}

#[test]
fn quaternion_decode_rejects_short_input() {
    let bytes = [0u8; 15];
    assert!(Quaternion::from_bytes(&bytes).is_err());
    let empty: [u8; 0] = [];
    assert!(Quaternion::from_bytes(&empty).is_err());
}

#[test]
fn quaternion_decode_rejects_long_input() {
    let bytes = [0u8; 17];
    assert!(Quaternion::from_bytes(&bytes).is_err());
}

#[test]
fn quaternion_decode_big_endian_fields() {
    let block: [u8; 16] = [
        0x01, 0x02, 0x03, 0x04, 0x05, 0x06, 0x07, 0x08, 0x80, 0x00, 0x00, 0x00, 0xFF, 0xFF, 0xFF,
        0xFF,
    ];
    let q = Quaternion::from_bytes(&block).unwrap();
    assert_eq!(q.w, 0x01020304);
    assert_eq!(q.x, 0x05060708);
    assert_eq!(q.y, i32::MIN);
    assert_eq!(q.z, -1);
}
