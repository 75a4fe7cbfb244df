use vstd::prelude::*;

use crate::wire::spec_i16_from_be;
use crate::wire::i16_from_be;

verus! {

/// One raw accelerometer sample: three signed 16-bit axis values decoded
/// big-endian from a 6-byte burst read.
#[derive(Copy, Clone, Debug, PartialEq, Eq, Structural)]
pub struct Accel {
    x: i16,
    y: i16,
    z: i16,
}

impl Accel {
    /// The x axis value of a sample decoded from the wire bytes.
    pub open spec fn spec_x_of(data: Seq<u8>) -> i16 {
        spec_i16_from_be(data[0], data[1])
    }

    /// The y axis value of a sample decoded from the wire bytes.
    pub open spec fn spec_y_of(data: Seq<u8>) -> i16 {
        spec_i16_from_be(data[2], data[3])
    }

    /// The z axis value of a sample decoded from the wire bytes.
    pub open spec fn spec_z_of(data: Seq<u8>) -> i16 {
        spec_i16_from_be(data[4], data[5])
    }

    /// Decode a 6-byte burst read into the three axis values, big-endian,
    /// x first, then y, then z.
    pub fn new(data: [u8; 6]) -> (r: Self)
        ensures
            r.spec_x() == Accel::spec_x_of(data@),
            r.spec_y() == Accel::spec_y_of(data@),
            r.spec_z() == Accel::spec_z_of(data@),
    {
        Self {
            x: i16_from_be(data[0], data[1]),
            y: i16_from_be(data[2], data[3]),
            z: i16_from_be(data[4], data[5]),
        }
    }

    pub closed spec fn spec_x(&self) -> i16 {
        self.x
    }

    pub closed spec fn spec_y(&self) -> i16 {
        self.y
    }

    pub closed spec fn spec_z(&self) -> i16 {
        self.z
    }

    pub fn x(&self) -> (r: i16)
        ensures
            r == self.spec_x(),
    {
        self.x
    }

    pub fn y(&self) -> (r: i16)
        ensures
            r == self.spec_y(),
    {
        self.y
    }

    pub fn z(&self) -> (r: i16)
        ensures
            r == self.spec_z(),
    {
        self.z
    }
}

/// The accelerometer full-scale (sensitivity) setting.
#[derive(Copy, Clone, Debug, PartialEq, Eq, Structural)]
pub enum AccelFullScale {
    G2,
    G4,
    G8,
    G16,
}

impl AccelFullScale {
    /// The bit pattern the data sheet assigns to the full-scale setting.
    pub open spec fn spec_value(self) -> u8 {
        match self {
            AccelFullScale::G2 => 0,
            AccelFullScale::G4 => 1,
            AccelFullScale::G8 => 2,
            AccelFullScale::G16 => 3,
        }
    }

    /// Executable form of the value mapping.
    pub fn value(self) -> (r: u8)
        ensures
            r == self.spec_value(),
    {
        match self {
            AccelFullScale::G2 => 0,
            AccelFullScale::G4 => 1,
            AccelFullScale::G8 => 2,
            AccelFullScale::G16 => 3,
        }
    }
}

} // verus!
