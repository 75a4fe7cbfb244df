use vstd::prelude::*;

verus! {

/// The device clock source selected through the first power-management register.
#[derive(Debug, Copy, Clone, PartialEq, Eq, Structural)]
pub enum ClockSource {
    Internal,
    Xgyro,
    Ygyro,
    Zgyro,
    External32768,
    External19200,
    Stop,
}

impl ClockSource {
    /// The bit pattern the data sheet assigns to the clock source.
    pub open spec fn spec_value(self) -> u8 {
        match self {
            ClockSource::Internal => 0,
            ClockSource::Xgyro => 1,
            ClockSource::Ygyro => 2,
            ClockSource::Zgyro => 3,
            ClockSource::External32768 => 4,
            ClockSource::External19200 => 5,
            ClockSource::Stop => 7,
        }
    }

    /// Executable form of the value mapping.
    pub fn value(self) -> (r: u8)
        ensures
            r == self.spec_value(),
    {
        match self {
            ClockSource::Internal => 0,
            ClockSource::Xgyro => 1,
            ClockSource::Ygyro => 2,
            ClockSource::Zgyro => 3,
            ClockSource::External32768 => 4,
            ClockSource::External19200 => 5,
            ClockSource::Stop => 7,
        }
    }
}

} // verus!
