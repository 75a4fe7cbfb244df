use mpu6050_dmp::accel::AccelFullScale;
use mpu6050_dmp::address::Address;
use mpu6050_dmp::clock_source::ClockSource;
use mpu6050_dmp::config::DigitalLowPassFilter;
use mpu6050_dmp::gyro::GyroFullScale;
use mpu6050_dmp::registers::Register;

#[test]
fn register_catalogue_matches_the_data_sheet() {
    assert_eq!(Register::Config.addr(), 0x1A);
    assert_eq!(Register::PwrMgmt1.addr(), 0x6B);
    assert_eq!(Register::SmpRtDiv.addr(), 0x19);
    assert_eq!(Register::AccelX_H.addr(), 0x3B);
    assert_eq!(Register::AccelX_L.addr(), 0x3C);
    assert_eq!(Register::AccelY_H.addr(), 0x3D);
    assert_eq!(Register::AccelY_L.addr(), 0x3E);
    assert_eq!(Register::AccelZ_H.addr(), 0x3F);
    assert_eq!(Register::AccelZ_L.addr(), 0x40);
    assert_eq!(Register::AccelConfig.addr(), 0x1C);
    assert_eq!(Register::GyroX_H.addr(), 0x43);
    assert_eq!(Register::GyroX_L.addr(), 0x44);
    assert_eq!(Register::GyroY_H.addr(), 0x45);
    assert_eq!(Register::GyroY_L.addr(), 0x46);
    assert_eq!(Register::GyroZ_H.addr(), 0x47);
    assert_eq!(Register::GyroZ_L.addr(), 0x48);
    assert_eq!(Register::GyroConfig.addr(), 0x1B);
    assert_eq!(Register::UserCtrl.addr(), 0x6A);
    assert_eq!(Register::IntEnable.addr(), 0x38);
    assert_eq!(Register::FifoEn.addr(), 0x23);
    assert_eq!(Register::FifoCount_H.addr(), 0x72);
    assert_eq!(Register::FifoCount_L.addr(), 0x73);
    assert_eq!(Register::FifoRw.addr(), 0x74);
    assert_eq!(Register::BankSel.addr(), 0x6D);
    assert_eq!(Register::MemStartAddr.addr(), 0x6E);
    assert_eq!(Register::MemRw.addr(), 0x6F);
    assert_eq!(Register::PrgmStart.addr(), 0x70);
    assert_eq!(Register::DmpConfig.addr(), 0x71);
}

#[test]
fn clock_source_values() {
    assert_eq!(ClockSource::Internal.value(), 0);
    assert_eq!(ClockSource::Xgyro.value(), 1);
    assert_eq!(ClockSource::Ygyro.value(), 2);
    assert_eq!(ClockSource::Zgyro.value(), 3);
    assert_eq!(ClockSource::External32768.value(), 4);
    assert_eq!(ClockSource::External19200.value(), 5);
    assert_eq!(ClockSource::Stop.value(), 7);
}

#[test]
fn full_scale_values() {
    assert_eq!(AccelFullScale::G2.value(), 0);
    assert_eq!(AccelFullScale::G4.value(), 1);
    assert_eq!(AccelFullScale::G8.value(), 2);
    assert_eq!(AccelFullScale::G16.value(), 3);
    assert_eq!(GyroFullScale::Deg250.value(), 0);
    assert_eq!(GyroFullScale::Deg500.value(), 1);
    assert_eq!(GyroFullScale::Deg1000.value(), 2);
    assert_eq!(GyroFullScale::Deg2000.value(), 3);
}

#[test]
fn low_pass_filter_values() {
    assert_eq!(DigitalLowPassFilter::Filter0.value(), 0);
    assert_eq!(DigitalLowPassFilter::Filter1.value(), 1);
    assert_eq!(DigitalLowPassFilter::Filter2.value(), 2);
    assert_eq!(DigitalLowPassFilter::Filter3.value(), 3);
    assert_eq!(DigitalLowPassFilter::Filter4.value(), 4);
    assert_eq!(DigitalLowPassFilter::Filter5.value(), 5);
    assert_eq!(DigitalLowPassFilter::Filter6.value(), 6);
}

#[test]
fn default_address_is_0x68() {
    let addr = Address::default();
    assert_eq!(addr.as_u8(), 0x68);
    assert_eq!(u8::from(addr), 0x68);
}
