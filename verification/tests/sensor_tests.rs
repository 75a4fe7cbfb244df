use std::cell::RefCell;
use std::collections::VecDeque;
use std::rc::Rc;

use mpu6050_dmp::address::Address;
use mpu6050_dmp::error::Error;
use mpu6050_dmp::sensor::Mpu6050;
use mpu6050_dmp::transport::DelayProvider;
use mpu6050_dmp::transport::Transport;

/// One recorded interaction with the scripted bus or the scripted delay
/// provider.
#[derive(Clone, Debug, PartialEq)]
enum Action {
    Write(u8, Vec<u8>),
    Read(u8, Vec<u8>, Vec<u8>),
    Delay(u32),
}

/// A scripted transport: records every transaction, answers reads from a
/// queue of scripted responses (zero-filled once the queue is empty), and
/// can be switched to fail.
struct MockBus {
    actions: Rc<RefCell<Vec<Action>>>,
    responses: VecDeque<Vec<u8>>,
    fail_writes: bool,
    fail_reads: bool,
    reads_before_failure: usize,
    reads_done: usize,
}

impl MockBus {
    fn new(actions: Rc<RefCell<Vec<Action>>>) -> Self {
        MockBus {
            actions,
            responses: VecDeque::new(),
            fail_writes: false,
            fail_reads: false,
            reads_before_failure: usize::MAX,
            reads_done: 0,
        }
    }
}

impl Transport for MockBus {
    type Error = u8;

    // The ghost transaction log exists only for specifications; it is never
    // called at run time.
    fn log(&self) -> mpu6050_dmp::transport::EventLog {
        panic!()
    }

    fn write(&mut self, address: u8, bytes: &[u8]) -> Result<(), u8> {
        if self.fail_writes {
            return Err(1);
        }
        self.actions.borrow_mut().push(Action::Write(address, bytes.to_vec()));
        Ok(())
    }

    fn write_then_read(
        &mut self,
        address: u8,
        bytes: &[u8],
        response: &mut Vec<u8>,
    ) -> Result<(), u8> {
        if self.fail_reads || self.reads_done >= self.reads_before_failure {
            return Err(2);
        }
        self.reads_done += 1;
        let scripted = self.responses.pop_front().unwrap_or_default();
        for i in 0..response.len() {
            response[i] = *scripted.get(i).unwrap_or(&0);
        }
        self.actions.borrow_mut().push(Action::Read(address, bytes.to_vec(), response.clone()));
        Ok(())
    }
}

/// A scripted delay provider that records each requested wait.
struct MockDelay {
    actions: Rc<RefCell<Vec<Action>>>,
}

impl DelayProvider for MockDelay {
    // The ghost delay log exists only for specifications; it is never
    // called at run time.
    fn log(&self) -> mpu6050_dmp::transport::DelayLog {
        panic!()
    }

    fn delay_ms(&mut self, ms: u32) {
        self.actions.borrow_mut().push(Action::Delay(ms));
    }
}

fn scripted_sensor(
    responses: Vec<Vec<u8>>,
) -> (Mpu6050<MockBus, MockDelay>, Rc<RefCell<Vec<Action>>>) {
    let actions = Rc::new(RefCell::new(Vec::new()));
    let mut bus = MockBus::new(actions.clone());
    // The first scripted response answers the sleep-clearing read that
    // construction performs.
    bus.responses.push_back(vec![0x00]);
    for r in responses {
        bus.responses.push_back(r);
    }
    let delay = MockDelay { actions: actions.clone() };
    let sensor = Mpu6050::new(bus, Address::default(), delay).unwrap();
    actions.borrow_mut().clear();
    (sensor, actions)
}

fn written_frames(actions: &[Action]) -> Vec<Vec<u8>> {
    let mut frames = Vec::new();
    for a in actions {
        if let Action::Write(_, bytes) = a {
            frames.push(bytes.clone());
        }
    }
    frames
}

#[test]
fn construction_clears_the_sleep_bit() {
    let actions = Rc::new(RefCell::new(Vec::new()));
    let mut bus = MockBus::new(actions.clone());
    bus.responses.push_back(vec![0xFF]);
    let delay = MockDelay { actions: actions.clone() };
    let sensor = Mpu6050::new(bus, Address::default(), delay);
    assert!(sensor.is_ok());
    let recorded = actions.borrow().clone();
    assert_eq!(
        recorded,
        vec![
            Action::Read(0x68, vec![0x6B], vec![0xFF]),
            Action::Write(0x68, vec![0x6B, 0xBF]),
        ]
    );
}

#[test]
fn construction_fails_when_the_bus_fails() {
    let actions = Rc::new(RefCell::new(Vec::new()));
    let mut bus = MockBus::new(actions.clone());
    bus.fail_reads = true;
    let delay = MockDelay { actions: actions.clone() };
    let r = Mpu6050::new(bus, Address::default(), delay);
    assert!(matches!(r, Err(Error::WriteReadError(2))));
}

#[test]
fn bring_up_writes_registers_in_the_fixed_order() {
    let (mut sensor, actions) = scripted_sensor(Vec::new());
    let firmware: Vec<u8> = (0u8..20).collect();
    sensor.initialize_dmp(&firmware).unwrap();
    let recorded = actions.borrow().clone();

    let mut write_addrs = Vec::new();
    for a in &recorded {
        if let Action::Write(_, bytes) = a {
            write_addrs.push(bytes[0]);
        }
    }
    assert_eq!(
        write_addrs,
        vec![
            0x6B, // power reset
            0x6B, // sleep bit cleared
            0x6A, // signal-path reset
            0x6A, // DMP disabled
            0x6B, // clock source
            0x38, // interrupts disabled
            0x23, // FIFO channels disabled
            0x1C, // accelerometer full scale
            0x19, // sample-rate divider
            0x1A, // low-pass filter
            0x6D, 0x6E, 0x6F, 0x6E, 0x6F, // firmware: one bank, two chunks
            0x70, // program start
            0x1B, // gyroscope full scale
            0x6A, // FIFO enabled
            0x6A, // FIFO reset
            0x6A, // DMP disabled again
            0x6A, // DMP enabled
        ]
    );

    // The two 200 ms settle delays come immediately after the reset write
    // and the signal-path-reset write.
    assert_eq!(recorded[1], Action::Write(0x68, vec![0x6B, 0x80]));
    assert_eq!(recorded[2], Action::Delay(200));
    assert_eq!(recorded[6], Action::Write(0x68, vec![0x6A, 0x01]));
    assert_eq!(recorded[7], Action::Delay(200));
    let delays: Vec<&Action> =
        recorded.iter().filter(|a| matches!(a, Action::Delay(_))).collect();
    assert_eq!(delays.len(), 2);
}

#[test]
fn firmware_load_partitions_banks_and_chunks() {
    let (mut sensor, actions) = scripted_sensor(Vec::new());
    let image: Vec<u8> = (0..300).map(|i| (i % 256) as u8).collect();
    sensor.load_firmware(&image).unwrap();
    let frames = written_frames(&actions.borrow());

    let bank_selects: Vec<&Vec<u8>> = frames.iter().filter(|f| f[0] == 0x6D).collect();
    let start_addrs: Vec<&Vec<u8>> = frames.iter().filter(|f| f[0] == 0x6E).collect();
    let chunk_writes: Vec<&Vec<u8>> = frames.iter().filter(|f| f[0] == 0x6F).collect();

    // ceil(300 / 256) bank selects, in ascending order.
    assert_eq!(bank_selects.len(), 2);
    assert_eq!(bank_selects[0], &vec![0x6D, 0x00]);
    assert_eq!(bank_selects[1], &vec![0x6D, 0x01]);

    // ceil(300 / 16) start-address/data pairs.
    assert_eq!(start_addrs.len(), 19);
    assert_eq!(chunk_writes.len(), 19);

    // Bank 0 holds 16 full chunks; bank 1 holds 44 bytes: 16, 16, 12.
    let mut expected_lens = vec![16usize; 16];
    expected_lens.extend_from_slice(&[16, 16, 12]);
    for (k, frame) in chunk_writes.iter().enumerate() {
        assert_eq!(frame.len() - 1, expected_lens[k]);
    }

    // Offsets restart at zero in each bank and ascend by 16.
    for (k, frame) in start_addrs.iter().enumerate() {
        let expected_offset = if k < 16 { (k * 16) as u8 } else { ((k - 16) * 16) as u8 };
        assert_eq!(frame[1], expected_offset);
    }

    // Chunk payloads carry the image bytes in order.
    let mut flattened = Vec::new();
    for frame in &chunk_writes {
        flattened.extend_from_slice(&frame[1..]);
    }
    assert_eq!(flattened, image);
}

#[test]
fn firmware_load_of_empty_image_writes_nothing() {
    let (mut sensor, actions) = scripted_sensor(Vec::new());
    sensor.load_firmware(&[]).unwrap();
    assert!(actions.borrow().is_empty());
}

#[test]
fn boot_firmware_writes_the_program_start_offset() {
    let (mut sensor, actions) = scripted_sensor(Vec::new());
    sensor.boot_firmware().unwrap();
    assert_eq!(
        actions.borrow().clone(),
        vec![Action::Write(0x68, vec![0x70, 0x04, 0x00])]
    );
}

#[test]
fn accel_burst_read_decodes_big_endian_axes() {
    let (mut sensor, actions) =
        scripted_sensor(vec![vec![0x01, 0x02, 0x03, 0x04, 0x05, 0x06]]);
    let sample = sensor.accel().unwrap();
    assert_eq!(sample.x(), 0x0102);
    assert_eq!(sample.y(), 0x0304);
    assert_eq!(sample.z(), 0x0506);
    assert_eq!(
        actions.borrow().clone(),
        vec![Action::Read(0x68, vec![0x3B], vec![0x01, 0x02, 0x03, 0x04, 0x05, 0x06])]
    );
}

#[test]
fn gyro_burst_read_decodes_big_endian_axes() {
    let (mut sensor, actions) =
        scripted_sensor(vec![vec![0xFF, 0xFE, 0x00, 0x10, 0x80, 0x00]]);
    let sample = sensor.gyro().unwrap();
    assert_eq!(sample.x(), -2);
    assert_eq!(sample.y(), 0x0010);
    assert_eq!(sample.z(), i16::MIN);
    assert_eq!(
        actions.borrow().clone(),
        vec![Action::Read(0x68, vec![0x43], vec![0xFF, 0xFE, 0x00, 0x10, 0x80, 0x00])]
    );
}

#[test]
fn fifo_count_is_a_big_endian_field() {
    let (mut sensor, actions) = scripted_sensor(vec![vec![0x01, 0x02]]);
    let count = sensor.get_fifo_count().unwrap();
    assert_eq!(count, 258);
    assert_eq!(
        actions.borrow().clone(),
        vec![Action::Read(0x68, vec![0x72], vec![0x01, 0x02])]
    );
}

#[test]
fn read_fifo_fills_the_front_of_the_buffer() {
    let (mut sensor, actions) =
        scripted_sensor(vec![vec![0x00, 0x03], vec![9, 8, 7]]);
    let mut buf = vec![0xAA; 8];
    let n = sensor.read_fifo(&mut buf).unwrap();
    assert_eq!(n, 3);
    assert_eq!(buf, vec![9, 8, 7, 0xAA, 0xAA, 0xAA, 0xAA, 0xAA]);
    assert_eq!(
        actions.borrow().clone(),
        vec![
            Action::Read(0x68, vec![0x72], vec![0x00, 0x03]),
            Action::Read(0x68, vec![0x74], vec![9, 8, 7]),
        ]
    );
}

#[test]
fn read_fifo_with_empty_fifo_reads_nothing() {
    let (mut sensor, actions) = scripted_sensor(vec![vec![0x00, 0x00]]);
    let mut buf = vec![0xAA; 4];
    let n = sensor.read_fifo(&mut buf).unwrap();
    assert_eq!(n, 0);
    assert_eq!(buf, vec![0xAA; 4]);
    assert_eq!(actions.borrow().len(), 1);
}

#[test]
fn read_fifo_caps_at_the_buffer_length() {
    let (mut sensor, _actions) =
        scripted_sensor(vec![vec![0x00, 0x05], vec![1, 2]]);
    let mut buf = vec![0u8; 2];
    let n = sensor.read_fifo(&mut buf).unwrap();
    assert_eq!(n, 2);
    assert_eq!(buf, vec![1, 2]);
}

#[test]
fn fifo_enable_mask_round_trips_through_the_register() {
    let (mut sensor, actions) = scripted_sensor(vec![vec![0xA5]]);
    let fifo = sensor.get_fifo_enabled().unwrap();
    assert!(fifo.temp);
    assert!(fifo.yg);
    assert!(fifo.slv2);
    assert!(fifo.slv0);
    sensor.set_fifo_enabled(fifo).unwrap();
    let recorded = actions.borrow().clone();
    assert_eq!(recorded[1], Action::Write(0x68, vec![0x23, 0xA5]));
}

#[test]
fn reset_dmp_sets_the_reset_bit() {
    let (mut sensor, actions) = scripted_sensor(vec![vec![0x00]]);
    sensor.reset_dmp().unwrap();
    assert_eq!(
        actions.borrow().clone(),
        vec![
            Action::Read(0x68, vec![0x6A], vec![0x00]),
            Action::Write(0x68, vec![0x6A, 0x08]),
        ]
    );
}

#[test]
fn calibrate_accel_does_nothing_and_succeeds() {
    let (mut sensor, actions) = scripted_sensor(Vec::new());
    assert!(sensor.calibrate_accel(10).is_ok());
    assert!(actions.borrow().is_empty());
}

#[test]
fn write_failures_surface_as_write_errors() {
    let actions = Rc::new(RefCell::new(Vec::new()));
    let mut bus = MockBus::new(actions.clone());
    bus.fail_writes = true;
    let delay = MockDelay { actions: actions.clone() };
    // Construction reads the power-management register successfully, then
    // the write half of the read-modify-write fails.
    let r = Mpu6050::new(bus, Address::default(), delay);
    assert!(matches!(r, Err(Error::WriteError(1))));
}

#[test]
fn read_failures_surface_as_write_read_errors() {
    let actions = Rc::new(RefCell::new(Vec::new()));
    let mut bus = MockBus::new(actions.clone());
    // Construction's read succeeds; every read after that fails.
    bus.reads_before_failure = 1;
    let delay = MockDelay { actions: actions.clone() };
    let mut sensor = Mpu6050::new(bus, Address::default(), delay).unwrap();
    let r = sensor.get_fifo_count();
    assert!(matches!(r, Err(Error::WriteReadError(2))));
}

#[test]
fn bring_up_aborts_on_the_first_failure() {
    let actions = Rc::new(RefCell::new(Vec::new()));
    let mut bus = MockBus::new(actions.clone());
    bus.reads_before_failure = 1;
    let delay = MockDelay { actions: actions.clone() };
    let mut sensor = Mpu6050::new(bus, Address::default(), delay).unwrap();
    actions.borrow_mut().clear();
    let firmware: Vec<u8> = (0u8..20).collect();
    // The very first step (the power reset's read) fails, so nothing is
    // written and no settle delay is performed.
    let r = sensor.initialize_dmp(&firmware);
    assert!(matches!(r, Err(Error::WriteReadError(2))));
    assert!(actions.borrow().is_empty());
}

#[test]
fn bring_up_over_an_empty_image_still_delays_twice() {
    let (mut sensor, actions) = scripted_sensor(Vec::new());
    sensor.initialize_dmp(&[]).unwrap();
    let recorded = actions.borrow().clone();
    let delays: Vec<&Action> =
        recorded.iter().filter(|a| matches!(a, Action::Delay(_))).collect();
    assert_eq!(delays.len(), 2);
    // Sixteen register writes: the fixed sequence with no firmware frames.
    let frames = written_frames(&recorded);
    assert_eq!(frames.len(), 16);
}
