use vstd::prelude::*;

verus! {

/// The closed catalogue of addressable device registers.
#[allow(non_camel_case_types)]
#[derive(Copy, Clone, Debug, PartialEq, Eq, Structural)]
pub enum Register {
    Config,
    PwrMgmt1,
    SmpRtDiv,

    AccelX_H,
    AccelX_L,
    AccelY_H,
    AccelY_L,
    AccelZ_H,
    AccelZ_L,

    AccelConfig,

    GyroX_H,
    GyroX_L,
    GyroY_H,
    GyroY_L,
    GyroZ_H,
    GyroZ_L,

    GyroConfig,

    UserCtrl,
    IntEnable,

    FifoEn,
    FifoCount_H,
    FifoCount_L,
    FifoRw,

    BankSel,
    MemStartAddr,
    MemRw,
    PrgmStart,
    DmpConfig,
}

impl Register {
    /// The byte address of the register on the bus, as the data sheet fixes it.
    pub open spec fn spec_addr(self) -> u8 {
        match self {
            Register::Config => 0x1A,
            Register::PwrMgmt1 => 0x6B,
            Register::SmpRtDiv => 0x19,

            Register::AccelX_H => 0x3B,
            Register::AccelX_L => 0x3C,
            Register::AccelY_H => 0x3D,
            Register::AccelY_L => 0x3E,
            Register::AccelZ_H => 0x3F,
            Register::AccelZ_L => 0x40,

            Register::AccelConfig => 0x1C,

            Register::GyroX_H => 0x43,
            Register::GyroX_L => 0x44,
            Register::GyroY_H => 0x45,
            Register::GyroY_L => 0x46,
            Register::GyroZ_H => 0x47,
            Register::GyroZ_L => 0x48,

            Register::GyroConfig => 0x1B,

            Register::UserCtrl => 0x6A,
            Register::IntEnable => 0x38,

            Register::FifoEn => 0x23,
            Register::FifoCount_H => 0x72,
            Register::FifoCount_L => 0x73,
            Register::FifoRw => 0x74,

            Register::BankSel => 0x6D,
            Register::MemStartAddr => 0x6E,
            Register::MemRw => 0x6F,
            Register::PrgmStart => 0x70,
            Register::DmpConfig => 0x71,
        }
    }

    /// Executable form of the address mapping.
    pub fn addr(self) -> (r: u8)
        ensures
            r == self.spec_addr(),
    {
        match self {
            Register::Config => 0x1A,
            Register::PwrMgmt1 => 0x6B,
            Register::SmpRtDiv => 0x19,

            Register::AccelX_H => 0x3B,
            Register::AccelX_L => 0x3C,
            Register::AccelY_H => 0x3D,
            Register::AccelY_L => 0x3E,
            Register::AccelZ_H => 0x3F,
            Register::AccelZ_L => 0x40,

            Register::AccelConfig => 0x1C,

            Register::GyroX_H => 0x43,
            Register::GyroX_L => 0x44,
            Register::GyroY_H => 0x45,
            Register::GyroY_L => 0x46,
            Register::GyroZ_H => 0x47,
            Register::GyroZ_L => 0x48,

            Register::GyroConfig => 0x1B,

            Register::UserCtrl => 0x6A,
            Register::IntEnable => 0x38,

            Register::FifoEn => 0x23,
            Register::FifoCount_H => 0x72,
            Register::FifoCount_L => 0x73,
            Register::FifoRw => 0x74,

            Register::BankSel => 0x6D,
            Register::MemStartAddr => 0x6E,
            Register::MemRw => 0x6F,
            Register::PrgmStart => 0x70,
            Register::DmpConfig => 0x71,
        }
    }
}

} // verus!
