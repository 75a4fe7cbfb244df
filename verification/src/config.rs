use vstd::prelude::*;

verus! {

/// The digital low-pass filter setting written into the configuration register.
#[derive(Debug, Copy, Clone, PartialEq, Eq, Structural)]
pub enum DigitalLowPassFilter {
    Filter0,
    Filter1,
    Filter2,
    Filter3,
    Filter4,
    Filter5,
    Filter6,
}

impl DigitalLowPassFilter {
    /// The bit pattern the data sheet assigns to the filter setting.
    pub open spec fn spec_value(self) -> u8 {
        match self {
            DigitalLowPassFilter::Filter0 => 0,
            DigitalLowPassFilter::Filter1 => 1,
            DigitalLowPassFilter::Filter2 => 2,
            DigitalLowPassFilter::Filter3 => 3,
            DigitalLowPassFilter::Filter4 => 4,
            DigitalLowPassFilter::Filter5 => 5,
            DigitalLowPassFilter::Filter6 => 6,
        }
    }

    /// Executable form of the value mapping.
    pub fn value(self) -> (r: u8)
        ensures
            r == self.spec_value(),
    {
        match self {
            DigitalLowPassFilter::Filter0 => 0,
            DigitalLowPassFilter::Filter1 => 1,
            DigitalLowPassFilter::Filter2 => 2,
            DigitalLowPassFilter::Filter3 => 3,
            DigitalLowPassFilter::Filter4 => 4,
            DigitalLowPassFilter::Filter5 => 5,
            DigitalLowPassFilter::Filter6 => 6,
        }
    }
}

} // verus!
