use vstd::prelude::*;

use crate::accel::Accel;
use crate::accel::AccelFullScale;
use crate::address::Address;
use crate::clock_source::ClockSource;
use crate::config::DigitalLowPassFilter;
use crate::error::Error;
use crate::fifo::Fifo;
use crate::firmware_loader::firmware_written_regs;
use crate::gyro::Gyro;
use crate::gyro::GyroFullScale;
use crate::registers::Register;
use crate::transport::DelayProvider;
use crate::transport::Event;
use crate::transport::Transport;
use crate::transport::read1_ev;
use crate::transport::read_response;
use crate::transport::read_value;
use crate::transport::write_ev;
use crate::transport::written_regs;
use crate::wire::spec_u16_from_be;
use crate::wire::u16_from_be;

verus! {

/// A completed read-modify-write of one register: the log grew by a
/// single-byte read of the register and a write of `f` applied to the byte
/// that was read back.
pub open spec fn rmw_post(
    pre: Seq<Event>,
    post: Seq<Event>,
    address: u8,
    reg: u8,
    f: spec_fn(u8) -> u8,
) -> bool {
    let v = read_value(post[pre.len() as int]);
    post == pre + seq![read1_ev(address, reg, v), write_ev(address, reg, f(v))]
}

/// Pushing a read and a register write onto a log is the same as appending
/// the pair, and extends the register projection by that one register.
pub proof fn lemma_rmw_log(pre: Seq<Event>, address: u8, reg: u8, v: u8, w: u8)
    ensures
        pre.push(read1_ev(address, reg, v)).push(write_ev(address, reg, w)) == pre + seq![
            read1_ev(address, reg, v),
            write_ev(address, reg, w),
        ],
        (pre + seq![read1_ev(address, reg, v), write_ev(address, reg, w)])[pre.len() as int]
            == read1_ev(address, reg, v),
        read_value(read1_ev(address, reg, v)) == v,
        written_regs(pre.push(read1_ev(address, reg, v)).push(write_ev(address, reg, w)))
            == written_regs(pre).push(reg),
{
    let e1 = read1_ev(address, reg, v);
    let e2 = write_ev(address, reg, w);
    assert(pre.push(e1).push(e2) =~= pre + seq![e1, e2]);
    let l2 = pre.push(e1).push(e2);
    assert(l2.drop_last() =~= pre.push(e1));
    assert(pre.push(e1).drop_last() =~= pre);
    assert(written_regs(pre.push(e1)) =~= written_regs(pre));
    assert(written_regs(l2) =~= written_regs(pre).push(reg));
}

/// Pushing a register-addressed write frame onto a log extends the register
/// projection by the frame's first byte.
pub proof fn lemma_push_write_log(pre: Seq<Event>, address: u8, bytes: Seq<u8>)
    requires
        bytes.len() > 0,
    ensures
        written_regs(pre.push(Event::Write { address, bytes })) == written_regs(pre).push(
            bytes[0],
        ),
{
    let e = Event::Write { address, bytes };
    assert(pre.push(e).drop_last() =~= pre);
    assert(written_regs(pre.push(e)) =~= written_regs(pre).push(bytes[0]));
}

/// The register addresses written, in order, by a successful DMP bring-up
/// over a firmware image of `fw_len` bytes: the ten configuration steps,
/// then the firmware load, then program start and the five closing steps.
pub open spec fn spec_init_written_regs(fw_len: nat) -> Seq<u8> {
    seq![
        Register::PwrMgmt1.spec_addr(),
        Register::PwrMgmt1.spec_addr(),
        Register::UserCtrl.spec_addr(),
        Register::UserCtrl.spec_addr(),
        Register::PwrMgmt1.spec_addr(),
        Register::IntEnable.spec_addr(),
        Register::FifoEn.spec_addr(),
        Register::AccelConfig.spec_addr(),
        Register::SmpRtDiv.spec_addr(),
        Register::Config.spec_addr(),
    ] + firmware_written_regs(fw_len) + seq![
        Register::PrgmStart.spec_addr(),
        Register::GyroConfig.spec_addr(),
        Register::UserCtrl.spec_addr(),
        Register::UserCtrl.spec_addr(),
        Register::UserCtrl.spec_addr(),
        Register::UserCtrl.spec_addr(),
    ]
}

/// The driver handle: owns the bus transport exclusively, holds the resolved
/// bus address, and owns the delay provider injected at construction.
pub struct Mpu6050<T: Transport, D: DelayProvider> {
    transport: T,
    address: u8,
    delay: D,
}

impl<T: Transport, D: DelayProvider> Mpu6050<T, D> {
    /// The ghost log of bus transactions issued through this handle.
    pub closed spec fn bus_log(&self) -> Seq<Event> {
        self.transport.log()
    }

    /// The ghost log of blocking delays performed through this handle.
    pub closed spec fn delay_log(&self) -> Seq<u32> {
        self.delay.log()
    }

    /// The resolved bus address.
    pub closed spec fn spec_address(&self) -> u8 {
        self.address
    }

    /// Construct a driver handle for the device at `address`, forcing the
    /// device out of sleep mode as a side effect.
    pub fn new(transport: T, address: Address, delay: D) -> (r: Result<Self, Error<T::Error>>)
        ensures
            r is Ok ==> ({
                let s = r->Ok_0;
                &&& s.spec_address() == address.0
                &&& s.delay_log() == delay.log()
                &&& rmw_post(
                    transport.log(),
                    s.bus_log(),
                    address.0,
                    Register::PwrMgmt1.spec_addr(),
                    (|v: u8| v & 0xbf),
                )
                &&& written_regs(s.bus_log()) == written_regs(transport.log()).push(
                    Register::PwrMgmt1.spec_addr(),
                )
            }),
    {
        let mut sensor = Self { transport, address: address.as_u8(), delay };
        match sensor.disable_sleep() {
            Ok(()) => Ok(sensor),
            Err(e) => Err(e),
        }
    }

    /// One write-then-read bus transaction; a failure surfaces as
    /// [`Error::WriteReadError`].
    pub(crate) fn read(&mut self, bytes: &[u8], response: &mut Vec<u8>) -> (r: Result<
        (),
        Error<T::Error>,
    >)
        ensures
            final(self).spec_address() == old(self).spec_address(),
            final(self).delay_log() == old(self).delay_log(),
            r is Ok ==> final(response)@.len() == old(response)@.len(),
            r is Ok ==> final(self).bus_log() == old(self).bus_log().push(Event::Read {
                address: old(self).spec_address(),
                bytes: bytes@,
                response: final(response)@,
            }),
            r is Err ==> r->Err_0 is WriteReadError,
    {
        match self.transport.write_then_read(self.address, bytes, response) {
            Ok(()) => Ok(()),
            Err(e) => Err(Error::WriteReadError(e)),
        }
    }

    /// One plain bus write; a failure surfaces as [`Error::WriteError`].
    pub(crate) fn write(&mut self, bytes: &[u8]) -> (r: Result<(), Error<T::Error>>)
        ensures
            final(self).spec_address() == old(self).spec_address(),
            final(self).delay_log() == old(self).delay_log(),
            r is Ok ==> final(self).bus_log() == old(self).bus_log().push(Event::Write {
                address: old(self).spec_address(),
                bytes: bytes@,
            }),
            r is Err ==> r->Err_0 is WriteError,
    {
        match self.transport.write(self.address, bytes) {
            Ok(()) => Ok(()),
            Err(e) => Err(Error::WriteError(e)),
        }
    }

    /// Read one byte from `reg`: the outgoing frame is the register address
    /// alone, and the byte read back is returned.
    pub(crate) fn read_register(&mut self, reg: Register) -> (r: Result<u8, Error<T::Error>>)
        ensures
            final(self).spec_address() == old(self).spec_address(),
            final(self).delay_log() == old(self).delay_log(),
            r is Ok ==> final(self).bus_log() == old(self).bus_log().push(
                read1_ev(old(self).spec_address(), reg.spec_addr(), r->Ok_0),
            ),
            r is Err ==> r->Err_0 is WriteReadError,
    {
        let mut buf: Vec<u8> = Vec::new();
        buf.push(0);
        let frame: [u8; 1] = [reg.addr()];
        match self.read(frame.as_slice(), &mut buf) {
            Ok(()) => {
                let v = buf[0];
                proof {
                    assert(buf@ =~= seq![v]);
                    assert(frame@ =~= seq![reg.spec_addr()]);
                }
                Ok(v)
            },
            Err(e) => Err(e),
        }
    }

    /// Burst-read `response.len()` bytes starting at `reg`: one address byte
    /// out, the response read into the caller's buffer.
    pub(crate) fn read_registers(&mut self, reg: Register, response: &mut Vec<u8>) -> (r: Result<
        (),
        Error<T::Error>,
    >)
        ensures
            final(self).spec_address() == old(self).spec_address(),
            final(self).delay_log() == old(self).delay_log(),
            r is Ok ==> final(response)@.len() == old(response)@.len(),
            r is Ok ==> final(self).bus_log() == old(self).bus_log().push(Event::Read {
                address: old(self).spec_address(),
                bytes: seq![reg.spec_addr()],
                response: final(response)@,
            }),
            r is Err ==> r->Err_0 is WriteReadError,
    {
        let frame: [u8; 1] = [reg.addr()];
        proof {
            assert(frame@ =~= seq![reg.spec_addr()]);
        }
        self.read(frame.as_slice(), response)
    }

    /// Write one byte into `reg`: the outgoing frame is the register address
    /// followed by the value.
    pub(crate) fn write_register(&mut self, reg: Register, value: u8) -> (r: Result<
        (),
        Error<T::Error>,
    >)
        ensures
            final(self).spec_address() == old(self).spec_address(),
            final(self).delay_log() == old(self).delay_log(),
            r is Ok ==> final(self).bus_log() == old(self).bus_log().push(
                write_ev(old(self).spec_address(), reg.spec_addr(), value),
            ),
            r is Ok ==> written_regs(final(self).bus_log()) == written_regs(
                old(self).bus_log(),
            ).push(reg.spec_addr()),
            r is Err ==> r->Err_0 is WriteError,
    {
        let frame: [u8; 2] = [reg.addr(), value];
        proof {
            assert(frame@ =~= seq![reg.spec_addr(), value]);
        }
        let r = self.write(frame.as_slice());
        proof {
            if r is Ok {
                lemma_push_write_log(
                    old(self).bus_log(),
                    old(self).spec_address(),
                    seq![reg.spec_addr(), value],
                );
            }
        }
        r
    }

    /// Clear the sleep bit in the first power-management register
    /// (read-modify-write clearing bit 6).
    pub fn disable_sleep(&mut self) -> (r: Result<(), Error<T::Error>>)
        ensures
            final(self).spec_address() == old(self).spec_address(),
            final(self).delay_log() == old(self).delay_log(),
            r is Ok ==> rmw_post(
                old(self).bus_log(),
                final(self).bus_log(),
                old(self).spec_address(),
                Register::PwrMgmt1.spec_addr(),
                (|v: u8| v & 0xbf),
            ),
            r is Ok ==> written_regs(final(self).bus_log()) == written_regs(
                old(self).bus_log(),
            ).push(Register::PwrMgmt1.spec_addr()),
    {
        let value = match self.read_register(Register::PwrMgmt1) {
            Ok(v) => v,
            Err(e) => return Err(e),
        };
        let new_value = value & 0xbf;
        match self.write_register(Register::PwrMgmt1, new_value) {
            Ok(()) => {
                proof {
                    lemma_rmw_log(
                        old(self).bus_log(),
                        old(self).spec_address(),
                        Register::PwrMgmt1.spec_addr(),
                        value,
                        new_value,
                    );
                }
                Ok(())
            },
            Err(e) => Err(e),
        }
    }

    /// Power-reset the device (read-modify-write setting bit 7 of the first
    /// power-management register), then block for the fixed 200 ms hardware
    /// settle time.
    pub fn reset(&mut self) -> (r: Result<(), Error<T::Error>>)
        ensures
            final(self).spec_address() == old(self).spec_address(),
            r is Ok ==> rmw_post(
                old(self).bus_log(),
                final(self).bus_log(),
                old(self).spec_address(),
                Register::PwrMgmt1.spec_addr(),
                (|v: u8| v | 0x80),
            ),
            r is Ok ==> written_regs(final(self).bus_log()) == written_regs(
                old(self).bus_log(),
            ).push(Register::PwrMgmt1.spec_addr()),
            r is Ok ==> final(self).delay_log() == old(self).delay_log().push(200),
            r is Err ==> final(self).delay_log() == old(self).delay_log(),
    {
        let value = match self.read_register(Register::PwrMgmt1) {
            Ok(v) => v,
            Err(e) => return Err(e),
        };
        let new_value = value | 0x80;
        match self.write_register(Register::PwrMgmt1, new_value) {
            Ok(()) => (),
            Err(e) => return Err(e),
        };
        self.delay.delay_ms(200);
        proof {
            lemma_rmw_log(
                old(self).bus_log(),
                old(self).spec_address(),
                Register::PwrMgmt1.spec_addr(),
                value,
                new_value,
            );
        }
        Ok(())
    }

    /// Reset the signal path (read-modify-write setting bit 0 of the user
    /// control register), then block for the fixed 200 ms hardware settle
    /// time.
    pub fn reset_signal_path(&mut self) -> (r: Result<(), Error<T::Error>>)
        ensures
            final(self).spec_address() == old(self).spec_address(),
            r is Ok ==> rmw_post(
                old(self).bus_log(),
                final(self).bus_log(),
                old(self).spec_address(),
                Register::UserCtrl.spec_addr(),
                (|v: u8| v | 0x01),
            ),
            r is Ok ==> written_regs(final(self).bus_log()) == written_regs(
                old(self).bus_log(),
            ).push(Register::UserCtrl.spec_addr()),
            r is Ok ==> final(self).delay_log() == old(self).delay_log().push(200),
            r is Err ==> final(self).delay_log() == old(self).delay_log(),
    {
        let value = match self.read_register(Register::UserCtrl) {
            Ok(v) => v,
            Err(e) => return Err(e),
        };
        let new_value = value | 0x01;
        match self.write_register(Register::UserCtrl, new_value) {
            Ok(()) => (),
            Err(e) => return Err(e),
        };
        self.delay.delay_ms(200);
        proof {
            lemma_rmw_log(
                old(self).bus_log(),
                old(self).spec_address(),
                Register::UserCtrl.spec_addr(),
                value,
                new_value,
            );
        }
        Ok(())
    }

    /// Select the device clock source (read-modify-write or-ing the source's
    /// bit pattern into the first power-management register).
    pub fn set_clock_source(&mut self, clock_source: ClockSource) -> (r: Result<
        (),
        Error<T::Error>,
    >)
        ensures
            final(self).spec_address() == old(self).spec_address(),
            final(self).delay_log() == old(self).delay_log(),
            r is Ok ==> rmw_post(
                old(self).bus_log(),
                final(self).bus_log(),
                old(self).spec_address(),
                Register::PwrMgmt1.spec_addr(),
                (|v: u8| v | clock_source.spec_value()),
            ),
            r is Ok ==> written_regs(final(self).bus_log()) == written_regs(
                old(self).bus_log(),
            ).push(Register::PwrMgmt1.spec_addr()),
    {
        let value = match self.read_register(Register::PwrMgmt1) {
            Ok(v) => v,
            Err(e) => return Err(e),
        };
        let new_value = value | clock_source.value();
        match self.write_register(Register::PwrMgmt1, new_value) {
            Ok(()) => (),
            Err(e) => return Err(e),
        };
        proof {
            lemma_rmw_log(
                old(self).bus_log(),
                old(self).spec_address(),
                Register::PwrMgmt1.spec_addr(),
                value,
                new_value,
            );
        }
        Ok(())
    }

    /// Disable every interrupt source by writing zero into the
    /// interrupt-enable register.
    pub fn disable_interrupts(&mut self) -> (r: Result<(), Error<T::Error>>)
        ensures
            final(self).spec_address() == old(self).spec_address(),
            final(self).delay_log() == old(self).delay_log(),
            r is Ok ==> final(self).bus_log() == old(self).bus_log().push(
                write_ev(old(self).spec_address(), Register::IntEnable.spec_addr(), 0),
            ),
            r is Ok ==> written_regs(final(self).bus_log()) == written_regs(
                old(self).bus_log(),
            ).push(Register::IntEnable.spec_addr()),
    {
        self.write_register(Register::IntEnable, 0x00)
    }

    /// Accelerometer calibration entry point. It performs no computation and
    /// always succeeds: no calibration algorithm is specified.
    pub fn calibrate_accel(&mut self, _loops: u8) -> (r: Result<(), Error<T::Error>>)
        ensures
            *final(self) == *old(self),
            r is Ok,
    {
        Ok(())
    }

    /// Configure the accelerometer full-scale range (read-modify-write
    /// or-ing the setting's bit pattern, shifted into place, into the
    /// accelerometer configuration register).
    pub fn set_accel_full_scale(&mut self, scale: AccelFullScale) -> (r: Result<
        (),
        Error<T::Error>,
    >)
        ensures
            final(self).spec_address() == old(self).spec_address(),
            final(self).delay_log() == old(self).delay_log(),
            r is Ok ==> rmw_post(
                old(self).bus_log(),
                final(self).bus_log(),
                old(self).spec_address(),
                Register::AccelConfig.spec_addr(),
                (|v: u8| v | (scale.spec_value() << 3u8)),
            ),
            r is Ok ==> written_regs(final(self).bus_log()) == written_regs(
                old(self).bus_log(),
            ).push(Register::AccelConfig.spec_addr()),
    {
        let value = match self.read_register(Register::AccelConfig) {
            Ok(v) => v,
            Err(e) => return Err(e),
        };
        let new_value = value | (scale.value() << 3u8);
        match self.write_register(Register::AccelConfig, new_value) {
            Ok(()) => (),
            Err(e) => return Err(e),
        };
        proof {
            lemma_rmw_log(
                old(self).bus_log(),
                old(self).spec_address(),
                Register::AccelConfig.spec_addr(),
                value,
                new_value,
            );
        }
        Ok(())
    }

    /// Configure the gyroscope full-scale range (read-modify-write or-ing
    /// the setting's bit pattern, shifted into place, into the gyroscope
    /// configuration register).
    pub fn set_gyro_full_scale(&mut self, scale: GyroFullScale) -> (r: Result<(), Error<T::Error>>)
        ensures
            final(self).spec_address() == old(self).spec_address(),
            final(self).delay_log() == old(self).delay_log(),
            r is Ok ==> rmw_post(
                old(self).bus_log(),
                final(self).bus_log(),
                old(self).spec_address(),
                Register::GyroConfig.spec_addr(),
                (|v: u8| v | (scale.spec_value() << 3u8)),
            ),
            r is Ok ==> written_regs(final(self).bus_log()) == written_regs(
                old(self).bus_log(),
            ).push(Register::GyroConfig.spec_addr()),
    {
        let value = match self.read_register(Register::GyroConfig) {
            Ok(v) => v,
            Err(e) => return Err(e),
        };
        let new_value = value | (scale.value() << 3u8);
        match self.write_register(Register::GyroConfig, new_value) {
            Ok(()) => (),
            Err(e) => return Err(e),
        };
        proof {
            lemma_rmw_log(
                old(self).bus_log(),
                old(self).spec_address(),
                Register::GyroConfig.spec_addr(),
                value,
                new_value,
            );
        }
        Ok(())
    }

    /// Write the sample-rate divider register.
    pub fn set_sample_rate_divider(&mut self, div: u8) -> (r: Result<(), Error<T::Error>>)
        ensures
            final(self).spec_address() == old(self).spec_address(),
            final(self).delay_log() == old(self).delay_log(),
            r is Ok ==> final(self).bus_log() == old(self).bus_log().push(
                write_ev(old(self).spec_address(), Register::SmpRtDiv.spec_addr(), div),
            ),
            r is Ok ==> written_regs(final(self).bus_log()) == written_regs(
                old(self).bus_log(),
            ).push(Register::SmpRtDiv.spec_addr()),
    {
        self.write_register(Register::SmpRtDiv, div)
    }

    /// Select the digital low-pass filter (read-modify-write or-ing the
    /// setting's bit pattern into the configuration register).
    pub fn set_digital_lowpass_filter(&mut self, filter: DigitalLowPassFilter) -> (r: Result<
        (),
        Error<T::Error>,
    >)
        ensures
            final(self).spec_address() == old(self).spec_address(),
            final(self).delay_log() == old(self).delay_log(),
            r is Ok ==> rmw_post(
                old(self).bus_log(),
                final(self).bus_log(),
                old(self).spec_address(),
                Register::Config.spec_addr(),
                (|v: u8| v | filter.spec_value()),
            ),
            r is Ok ==> written_regs(final(self).bus_log()) == written_regs(
                old(self).bus_log(),
            ).push(Register::Config.spec_addr()),
    {
        let value = match self.read_register(Register::Config) {
            Ok(v) => v,
            Err(e) => return Err(e),
        };
        let new_value = value | filter.value();
        match self.write_register(Register::Config, new_value) {
            Ok(()) => (),
            Err(e) => return Err(e),
        };
        proof {
            lemma_rmw_log(
                old(self).bus_log(),
                old(self).spec_address(),
                Register::Config.spec_addr(),
                value,
                new_value,
            );
        }
        Ok(())
    }

    /// Reset the FIFO contents (read-modify-write setting bit 2 of the user
    /// control register).
    pub fn reset_fifo(&mut self) -> (r: Result<(), Error<T::Error>>)
        ensures
            final(self).spec_address() == old(self).spec_address(),
            final(self).delay_log() == old(self).delay_log(),
            r is Ok ==> rmw_post(
                old(self).bus_log(),
                final(self).bus_log(),
                old(self).spec_address(),
                Register::UserCtrl.spec_addr(),
                (|v: u8| v | 0x04),
            ),
            r is Ok ==> written_regs(final(self).bus_log()) == written_regs(
                old(self).bus_log(),
            ).push(Register::UserCtrl.spec_addr()),
    {
        let value = match self.read_register(Register::UserCtrl) {
            Ok(v) => v,
            Err(e) => return Err(e),
        };
        let new_value = value | 0x04;
        match self.write_register(Register::UserCtrl, new_value) {
            Ok(()) => (),
            Err(e) => return Err(e),
        };
        proof {
            lemma_rmw_log(
                old(self).bus_log(),
                old(self).spec_address(),
                Register::UserCtrl.spec_addr(),
                value,
                new_value,
            );
        }
        Ok(())
    }

    /// Enable the FIFO (read-modify-write setting bit 6 of the user control
    /// register).
    pub fn enable_fifo(&mut self) -> (r: Result<(), Error<T::Error>>)
        ensures
            final(self).spec_address() == old(self).spec_address(),
            final(self).delay_log() == old(self).delay_log(),
            r is Ok ==> rmw_post(
                old(self).bus_log(),
                final(self).bus_log(),
                old(self).spec_address(),
                Register::UserCtrl.spec_addr(),
                (|v: u8| v | 0x40),
            ),
            r is Ok ==> written_regs(final(self).bus_log()) == written_regs(
                old(self).bus_log(),
            ).push(Register::UserCtrl.spec_addr()),
    {
        let value = match self.read_register(Register::UserCtrl) {
            Ok(v) => v,
            Err(e) => return Err(e),
        };
        let new_value = value | 0x40;
        match self.write_register(Register::UserCtrl, new_value) {
            Ok(()) => (),
            Err(e) => return Err(e),
        };
        proof {
            lemma_rmw_log(
                old(self).bus_log(),
                old(self).spec_address(),
                Register::UserCtrl.spec_addr(),
                value,
                new_value,
            );
        }
        Ok(())
    }

    /// Set the DMP-enable bit (read-modify-write setting bit 7 of the user
    /// control register). For full DMP initialization see `initialize_dmp`.
    pub fn enable_dmp(&mut self) -> (r: Result<(), Error<T::Error>>)
        ensures
            final(self).spec_address() == old(self).spec_address(),
            final(self).delay_log() == old(self).delay_log(),
            r is Ok ==> rmw_post(
                old(self).bus_log(),
                final(self).bus_log(),
                old(self).spec_address(),
                Register::UserCtrl.spec_addr(),
                (|v: u8| v | 0x80),
            ),
            r is Ok ==> written_regs(final(self).bus_log()) == written_regs(
                old(self).bus_log(),
            ).push(Register::UserCtrl.spec_addr()),
    {
        let value = match self.read_register(Register::UserCtrl) {
            Ok(v) => v,
            Err(e) => return Err(e),
        };
        let new_value = value | 0x80;
        match self.write_register(Register::UserCtrl, new_value) {
            Ok(()) => (),
            Err(e) => return Err(e),
        };
        proof {
            lemma_rmw_log(
                old(self).bus_log(),
                old(self).spec_address(),
                Register::UserCtrl.spec_addr(),
                value,
                new_value,
            );
        }
        Ok(())
    }

    /// Clear the DMP-enable bit (read-modify-write clearing bit 7 of the
    /// user control register).
    pub fn disable_dmp(&mut self) -> (r: Result<(), Error<T::Error>>)
        ensures
            final(self).spec_address() == old(self).spec_address(),
            final(self).delay_log() == old(self).delay_log(),
            r is Ok ==> rmw_post(
                old(self).bus_log(),
                final(self).bus_log(),
                old(self).spec_address(),
                Register::UserCtrl.spec_addr(),
                (|v: u8| v & 0x7f),
            ),
            r is Ok ==> written_regs(final(self).bus_log()) == written_regs(
                old(self).bus_log(),
            ).push(Register::UserCtrl.spec_addr()),
    {
        let value = match self.read_register(Register::UserCtrl) {
            Ok(v) => v,
            Err(e) => return Err(e),
        };
        let new_value = value & 0x7f;
        match self.write_register(Register::UserCtrl, new_value) {
            Ok(()) => (),
            Err(e) => return Err(e),
        };
        proof {
            lemma_rmw_log(
                old(self).bus_log(),
                old(self).spec_address(),
                Register::UserCtrl.spec_addr(),
                value,
                new_value,
            );
        }
        Ok(())
    }

    /// Reset the DMP processor (read-modify-write setting bit 3 of the user
    /// control register).
    pub fn reset_dmp(&mut self) -> (r: Result<(), Error<T::Error>>)
        ensures
            final(self).spec_address() == old(self).spec_address(),
            final(self).delay_log() == old(self).delay_log(),
            r is Ok ==> rmw_post(
                old(self).bus_log(),
                final(self).bus_log(),
                old(self).spec_address(),
                Register::UserCtrl.spec_addr(),
                (|v: u8| v | 0x08),
            ),
            r is Ok ==> written_regs(final(self).bus_log()) == written_regs(
                old(self).bus_log(),
            ).push(Register::UserCtrl.spec_addr()),
    {
        let value = match self.read_register(Register::UserCtrl) {
            Ok(v) => v,
            Err(e) => return Err(e),
        };
        let new_value = value | 0x08;
        match self.write_register(Register::UserCtrl, new_value) {
            Ok(()) => (),
            Err(e) => return Err(e),
        };
        proof {
            lemma_rmw_log(
                old(self).bus_log(),
                old(self).spec_address(),
                Register::UserCtrl.spec_addr(),
                value,
                new_value,
            );
        }
        Ok(())
    }

    /// Read which FIFO channels are enabled.
    pub fn get_fifo_enabled(&mut self) -> (r: Result<Fifo, Error<T::Error>>)
        ensures
            final(self).spec_address() == old(self).spec_address(),
            final(self).delay_log() == old(self).delay_log(),
            r is Ok ==> ({
                let post = final(self).bus_log();
                &&& post.len() == old(self).bus_log().len() + 1
                &&& post.drop_last() == old(self).bus_log()
                &&& post.last() == read1_ev(
                    old(self).spec_address(),
                    Register::FifoEn.spec_addr(),
                    read_value(post.last()),
                )
                &&& r->Ok_0 == Fifo::spec_from_byte(read_value(post.last()))
            }),
    {
        let value = match self.read_register(Register::FifoEn) {
            Ok(v) => v,
            Err(e) => return Err(e),
        };
        proof {
            let post = self.bus_log();
            assert(post.drop_last() =~= old(self).bus_log());
        }
        Ok(Fifo::from_byte(value))
    }

    /// Select which FIFO channels are enabled by writing the packed mask.
    pub fn set_fifo_enabled(&mut self, fifo: Fifo) -> (r: Result<(), Error<T::Error>>)
        ensures
            final(self).spec_address() == old(self).spec_address(),
            final(self).delay_log() == old(self).delay_log(),
            r is Ok ==> final(self).bus_log() == old(self).bus_log().push(
                write_ev(
                    old(self).spec_address(),
                    Register::FifoEn.spec_addr(),
                    fifo.spec_to_byte(),
                ),
            ),
            r is Ok ==> written_regs(final(self).bus_log()) == written_regs(
                old(self).bus_log(),
            ).push(Register::FifoEn.spec_addr()),
    {
        let byte = fifo.to_byte();
        self.write_register(Register::FifoEn, byte)
    }

    /// Read the number of bytes waiting in the FIFO: a 16-bit big-endian
    /// field starting at the FIFO count register.
    pub fn get_fifo_count(&mut self) -> (r: Result<usize, Error<T::Error>>)
        ensures
            final(self).spec_address() == old(self).spec_address(),
            final(self).delay_log() == old(self).delay_log(),
            r is Ok ==> ({
                let post = final(self).bus_log();
                &&& post.len() == old(self).bus_log().len() + 1
                &&& post.drop_last() == old(self).bus_log()
                &&& post.last() == (Event::Read {
                    address: old(self).spec_address(),
                    bytes: seq![Register::FifoCount_H.spec_addr()],
                    response: read_response(post.last()),
                })
                &&& read_response(post.last()).len() == 2
                &&& r->Ok_0 == spec_u16_from_be(
                    read_response(post.last())[0],
                    read_response(post.last())[1],
                ) as usize
            }),
    {
        let mut buf: Vec<u8> = Vec::new();
        buf.push(0);
        buf.push(0);
        match self.read_registers(Register::FifoCount_H, &mut buf) {
            Ok(()) => {
                let count = u16_from_be(buf[0], buf[1]);
                proof {
                    let post = self.bus_log();
                    assert(post.drop_last() =~= old(self).bus_log());
                    assert(read_response(post.last()) == buf@);
                }
                Ok(count as usize)
            },
            Err(e) => Err(e),
        }
    }

    /// Read one 6-byte accelerometer sample and decode it.
    pub fn accel(&mut self) -> (r: Result<Accel, Error<T::Error>>)
        ensures
            final(self).spec_address() == old(self).spec_address(),
            final(self).delay_log() == old(self).delay_log(),
            r is Ok ==> ({
                let post = final(self).bus_log();
                let resp = read_response(post.last());
                &&& post.len() == old(self).bus_log().len() + 1
                &&& post.drop_last() == old(self).bus_log()
                &&& post.last() == (Event::Read {
                    address: old(self).spec_address(),
                    bytes: seq![Register::AccelX_H.spec_addr()],
                    response: resp,
                })
                &&& resp.len() == 6
                &&& r->Ok_0.spec_x() == Accel::spec_x_of(resp)
                &&& r->Ok_0.spec_y() == Accel::spec_y_of(resp)
                &&& r->Ok_0.spec_z() == Accel::spec_z_of(resp)
            }),
    {
        let mut data: Vec<u8> = vec![0u8; 6];
        match self.read_registers(Register::AccelX_H, &mut data) {
            Ok(()) => {
                let arr: [u8; 6] = [data[0], data[1], data[2], data[3], data[4], data[5]];
                proof {
                    let post = self.bus_log();
                    assert(post.drop_last() =~= old(self).bus_log());
                    assert(arr@ =~= data@);
                }
                Ok(Accel::new(arr))
            },
            Err(e) => Err(e),
        }
    }

    /// Load the DMP firmware and perform the whole fixed, order-sensitive
    /// bring-up sequence: reset, wake, signal-path reset, DMP disable,
    /// clock-source select, interrupt and FIFO-channel disable, full-scale
    /// and rate configuration, firmware load and start, gyroscope full
    /// scale, FIFO enable and reset, and the deliberate disable-then-enable
    /// of the DMP bit. Any step's failure aborts the sequence immediately.
    ///
    /// On success the register addresses written are exactly
    /// `spec_init_written_regs`, and the two fixed 200 ms settle delays
    /// have been performed.
    #[verifier::rlimit(60)]
    pub fn initialize_dmp(&mut self, firmware: &[u8]) -> (r: Result<(), Error<T::Error>>)
        requires
            firmware@.len() <= 65536,
        ensures
            final(self).spec_address() == old(self).spec_address(),
            r is Ok ==> written_regs(final(self).bus_log()) == written_regs(old(self).bus_log())
                + spec_init_written_regs(firmware@.len()),
            r is Ok ==> final(self).delay_log() == old(self).delay_log() + seq![200u32, 200u32],
    {
        let ghost w0 = written_regs(self.bus_log());
        let ghost head = seq![
            Register::PwrMgmt1.spec_addr(),
            Register::PwrMgmt1.spec_addr(),
            Register::UserCtrl.spec_addr(),
            Register::UserCtrl.spec_addr(),
            Register::PwrMgmt1.spec_addr(),
            Register::IntEnable.spec_addr(),
            Register::FifoEn.spec_addr(),
            Register::AccelConfig.spec_addr(),
            Register::SmpRtDiv.spec_addr(),
            Register::Config.spec_addr(),
        ];
        match self.reset() {
            Ok(()) => (),
            Err(e) => return Err(e),
        };
        match self.disable_sleep() {
            Ok(()) => (),
            Err(e) => return Err(e),
        };
        match self.reset_signal_path() {
            Ok(()) => (),
            Err(e) => return Err(e),
        };
        match self.disable_dmp() {
            Ok(()) => (),
            Err(e) => return Err(e),
        };
        match self.set_clock_source(ClockSource::Xgyro) {
            Ok(()) => (),
            Err(e) => return Err(e),
        };
        match self.disable_interrupts() {
            Ok(()) => (),
            Err(e) => return Err(e),
        };
        match self.set_fifo_enabled(Fifo::all_disabled()) {
            Ok(()) => (),
            Err(e) => return Err(e),
        };
        match self.set_accel_full_scale(AccelFullScale::G2) {
            Ok(()) => (),
            Err(e) => return Err(e),
        };
        match self.set_sample_rate_divider(4) {
            Ok(()) => (),
            Err(e) => return Err(e),
        };
        match self.set_digital_lowpass_filter(DigitalLowPassFilter::Filter1) {
            Ok(()) => (),
            Err(e) => return Err(e),
        };
        proof {
            assert(written_regs(self.bus_log()) =~= w0 + head);
        }
        match self.load_firmware(firmware) {
            Ok(()) => (),
            Err(e) => return Err(e),
        };
        proof {
            assert(written_regs(self.bus_log()) =~= w0 + (head + firmware_written_regs(
                firmware@.len(),
            )));
        }
        match self.boot_firmware() {
            Ok(()) => (),
            Err(e) => return Err(e),
        };
        match self.set_gyro_full_scale(GyroFullScale::Deg2000) {
            Ok(()) => (),
            Err(e) => return Err(e),
        };
        match self.enable_fifo() {
            Ok(()) => (),
            Err(e) => return Err(e),
        };
        match self.reset_fifo() {
            Ok(()) => (),
            Err(e) => return Err(e),
        };
        match self.disable_dmp() {
            Ok(()) => (),
            Err(e) => return Err(e),
        };
        match self.enable_dmp() {
            Ok(()) => (),
            Err(e) => return Err(e),
        };
        proof {
            let tail = seq![
                Register::PrgmStart.spec_addr(),
                Register::GyroConfig.spec_addr(),
                Register::UserCtrl.spec_addr(),
                Register::UserCtrl.spec_addr(),
                Register::UserCtrl.spec_addr(),
                Register::UserCtrl.spec_addr(),
            ];
            assert(written_regs(self.bus_log()) =~= w0 + (head + firmware_written_regs(
                firmware@.len(),
            ) + tail));
            assert(head + firmware_written_regs(firmware@.len()) + tail == spec_init_written_regs(
                firmware@.len(),
            ));
            assert(self.delay_log() =~= old(self).delay_log() + seq![200u32, 200u32]);
        }
        Ok(())
    }

    /// Read up to `buf.len()` bytes from the FIFO: one count read, then, if
    /// both the count and the buffer are nonzero, one burst read of
    /// `min(count, buf.len())` bytes into the front of `buf`. Returns how
    /// many bytes were read.
    pub fn read_fifo(&mut self, buf: &mut Vec<u8>) -> (r: Result<usize, Error<T::Error>>)
        ensures
            final(self).spec_address() == old(self).spec_address(),
            final(self).delay_log() == old(self).delay_log(),
            r is Ok ==> ({
                let n = r->Ok_0 as int;
                let pre = old(self).bus_log();
                let post = final(self).bus_log();
                let count_ev = post[pre.len() as int];
                let count = spec_u16_from_be(
                    read_response(count_ev)[0],
                    read_response(count_ev)[1],
                ) as int;
                &&& final(buf)@.len() == old(buf)@.len()
                &&& count_ev == (Event::Read {
                    address: old(self).spec_address(),
                    bytes: seq![Register::FifoCount_H.spec_addr()],
                    response: read_response(count_ev),
                })
                &&& read_response(count_ev).len() == 2
                &&& n == if count <= old(buf)@.len() {
                    count
                } else {
                    old(buf)@.len() as int
                }
                &&& if n == 0 {
                    &&& post == pre.push(count_ev)
                    &&& final(buf)@ == old(buf)@
                } else {
                    &&& post == pre.push(count_ev).push(
                        Event::Read {
                            address: old(self).spec_address(),
                            bytes: seq![Register::FifoRw.spec_addr()],
                            response: final(buf)@.take(n),
                        },
                    )
                    &&& final(buf)@.skip(n) == old(buf)@.skip(n)
                }
            }),
    {
        let count = match self.get_fifo_count() {
            Ok(c) => c,
            Err(e) => return Err(e),
        };
        let len = if buf.len() < count {
            buf.len()
        } else {
            count
        };
        if len == 0 {
            return Ok(0);
        }
        let mut tmp: Vec<u8> = vec![0u8; len];
        match self.read_registers(Register::FifoRw, &mut tmp) {
            Ok(()) => (),
            Err(e) => return Err(e),
        };
        let ghost buf_pre = buf@;
        let mut i: usize = 0;
        #[verifier::loop_isolation(false)]
        while i < len
            invariant
                i <= len,
                len <= buf_pre.len(),
                tmp@.len() == len,
                buf@.len() == buf_pre.len(),
                forall|k: int| 0 <= k < i ==> buf@[k] == tmp@[k],
                forall|k: int| i <= k < buf_pre.len() ==> buf@[k] == buf_pre[k],
            decreases len - i,
        {
            let b = tmp[i];
            buf[i] = b;
            i += 1;
        }
        proof {
            assert(buf@.take(len as int) =~= tmp@);
            assert(buf@.skip(len as int) =~= old(buf)@.skip(len as int));
        }
        Ok(len)
    }

    /// Read one 6-byte gyroscope sample and decode it.
    pub fn gyro(&mut self) -> (r: Result<Gyro, Error<T::Error>>)
        ensures
            final(self).spec_address() == old(self).spec_address(),
            final(self).delay_log() == old(self).delay_log(),
            r is Ok ==> ({
                let post = final(self).bus_log();
                let resp = read_response(post.last());
                &&& post.len() == old(self).bus_log().len() + 1
                &&& post.drop_last() == old(self).bus_log()
                &&& post.last() == (Event::Read {
                    address: old(self).spec_address(),
                    bytes: seq![Register::GyroX_H.spec_addr()],
                    response: resp,
                })
                &&& resp.len() == 6
                &&& r->Ok_0.spec_x() == Gyro::spec_x_of(resp)
                &&& r->Ok_0.spec_y() == Gyro::spec_y_of(resp)
                &&& r->Ok_0.spec_z() == Gyro::spec_z_of(resp)
            }),
    {
        let mut data: Vec<u8> = vec![0u8; 6];
        match self.read_registers(Register::GyroX_H, &mut data) {
            Ok(()) => {
                let arr: [u8; 6] = [data[0], data[1], data[2], data[3], data[4], data[5]];
                proof {
                    let post = self.bus_log();
                    assert(post.drop_last() =~= old(self).bus_log());
                    assert(arr@ =~= data@);
                }
                Ok(Gyro::new(arr))
            },
            Err(e) => Err(e),
        }
    }
}

} // verus!
