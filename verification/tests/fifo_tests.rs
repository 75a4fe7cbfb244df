use mpu6050_dmp::fifo::Fifo;

#[test]
fn fifo_byte_round_trip_all_values() {
    let mut b: u16 = 0;
    while b < 256 {
        let byte = b as u8;
        let decoded = Fifo::from_byte(byte);
        assert_eq!(decoded.to_byte(), byte);
        b += 1;
    }
}

#[test]
fn fifo_all_disabled_is_zero() {
    let fifo = Fifo::all_disabled();
    assert_eq!(fifo.to_byte(), 0);
    assert!(!fifo.temp);
    assert!(!fifo.xg);
    assert!(!fifo.yg);
    assert!(!fifo.zg);
    assert!(!fifo.accel);
    assert!(!fifo.slv2);
    assert!(!fifo.slv1);
    assert!(!fifo.slv0);
}

#[test]
fn fifo_from_byte_unpacks_bits() {
    let fifo = Fifo::from_byte(0xA5);
    assert!(fifo.temp);
    assert!(!fifo.xg);
    assert!(fifo.yg);
    assert!(!fifo.zg);
    assert!(!fifo.accel);
    assert!(fifo.slv2);
    assert!(!fifo.slv1);
    assert!(fifo.slv0);
    assert_eq!(fifo.to_byte(), 0xA5);
}

#[test]
fn fifo_default_matches_all_disabled() {
    assert_eq!(Fifo::default().to_byte(), Fifo::all_disabled().to_byte());
}
