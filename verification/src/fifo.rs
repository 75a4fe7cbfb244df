use vstd::prelude::*;

verus! {

/// The FIFO channel-enable bitmask: eight independent channel flags packed
/// into one configuration byte.
#[derive(Debug, Copy, Clone, PartialEq, Eq, Structural)]
pub struct Fifo {
    pub temp: bool,
    pub xg: bool,
    pub yg: bool,
    pub zg: bool,
    pub accel: bool,
    pub slv2: bool,
    pub slv1: bool,
    pub slv0: bool,
}

impl Fifo {
    /// The packed byte: one bit per channel, temperature in the top bit
    /// down to slave 0 in the bottom bit.
    pub open spec fn spec_to_byte(self) -> u8 {
        (if self.temp { 0x80u8 } else { 0u8 })
            | (if self.xg { 0x40u8 } else { 0u8 })
            | (if self.yg { 0x20u8 } else { 0u8 })
            | (if self.zg { 0x10u8 } else { 0u8 })
            | (if self.accel { 0x08u8 } else { 0u8 })
            | (if self.slv2 { 0x04u8 } else { 0u8 })
            | (if self.slv1 { 0x02u8 } else { 0u8 })
            | (if self.slv0 { 0x01u8 } else { 0u8 })
    }

    /// The flags unpacked from a configuration byte.
    pub open spec fn spec_from_byte(byte: u8) -> Fifo {
        Fifo {
            temp: byte & 0x80 != 0,
            xg: byte & 0x40 != 0,
            yg: byte & 0x20 != 0,
            zg: byte & 0x10 != 0,
            accel: byte & 0x08 != 0,
            slv2: byte & 0x04 != 0,
            slv1: byte & 0x02 != 0,
            slv0: byte & 0x01 != 0,
        }
    }

    /// The mask with every channel disabled.
    pub fn all_disabled() -> (r: Self)
        ensures
            r == Fifo::spec_from_byte(0),
            r.spec_to_byte() == 0,
    {
        proof {
            assert(0u8 & 0x80 == 0 && 0u8 & 0x40 == 0 && 0u8 & 0x20 == 0 && 0u8 & 0x10 == 0
                && 0u8 & 0x08 == 0 && 0u8 & 0x04 == 0 && 0u8 & 0x02 == 0 && 0u8 & 0x01 == 0)
                by (bit_vector);
            assert(0u8 | 0u8 == 0u8) by (bit_vector);
        }
        Fifo::default()
    }

    /// Unpack a configuration byte into the eight channel flags.
    pub fn from_byte(byte: u8) -> (r: Self)
        ensures
            r == Fifo::spec_from_byte(byte),
    {
        Fifo {
            temp: byte & 0x80 != 0,
            xg: byte & 0x40 != 0,
            yg: byte & 0x20 != 0,
            zg: byte & 0x10 != 0,
            accel: byte & 0x08 != 0,
            slv2: byte & 0x04 != 0,
            slv1: byte & 0x02 != 0,
            slv0: byte & 0x01 != 0,
        }
    }

    /// Pack the eight channel flags into one configuration byte.
    pub fn to_byte(&self) -> (r: u8)
        ensures
            r == self.spec_to_byte(),
    {
        let t: u8 = if self.temp { 0x80 } else { 0 };
        let xg: u8 = if self.xg { 0x40 } else { 0 };
        let yg: u8 = if self.yg { 0x20 } else { 0 };
        let zg: u8 = if self.zg { 0x10 } else { 0 };
        let ac: u8 = if self.accel { 0x08 } else { 0 };
        let s2: u8 = if self.slv2 { 0x04 } else { 0 };
        let s1: u8 = if self.slv1 { 0x02 } else { 0 };
        let s0: u8 = if self.slv0 { 0x01 } else { 0 };
        t | xg | yg | zg | ac | s2 | s1 | s0
    }
}

impl Default for Fifo {
    /// Every channel disabled.
    fn default() -> (r: Self)
        ensures
            r == (Fifo {
                temp: false,
                xg: false,
                yg: false,
                zg: false,
                accel: false,
                slv2: false,
                slv1: false,
                slv0: false,
            }),
    {
        Fifo {
            temp: false,
            xg: false,
            yg: false,
            zg: false,
            accel: false,
            slv2: false,
            slv1: false,
            slv0: false,
        }
    }
}

/// Unpacking a byte into channel flags and packing the flags again
/// reproduces the byte, for every byte value.
pub proof fn lemma_fifo_byte_round_trip(b: u8)
    ensures
        Fifo::spec_from_byte(b).spec_to_byte() == b,
{
    assert((if b & 0x80 != 0 { 0x80u8 } else { 0u8 }) | (if b & 0x40 != 0 { 0x40u8 } else { 0u8 })
        | (if b & 0x20 != 0 { 0x20u8 } else { 0u8 }) | (if b & 0x10 != 0 { 0x10u8 } else { 0u8 })
        | (if b & 0x08 != 0 { 0x08u8 } else { 0u8 }) | (if b & 0x04 != 0 { 0x04u8 } else { 0u8 })
        | (if b & 0x02 != 0 { 0x02u8 } else { 0u8 }) | (if b & 0x01 != 0 { 0x01u8 } else { 0u8 })
        == b) by (bit_vector);
}

} // verus!
