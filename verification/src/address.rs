use vstd::prelude::*;

verus! {

/// A 7-bit bus address for the device. The factory default is 0x68.
#[derive(Copy, Clone, Debug, PartialEq, Eq, Structural)]
pub struct Address(pub u8);

impl Address {
    /// The raw byte placed on the bus for every transaction.
    pub fn as_u8(self) -> (r: u8)
        ensures
            r == self.0,
    {
        self.0
    }
}

impl Default for Address {
    /// The device's default bus address.
    fn default() -> (r: Self)
        ensures
            r.0 == 0x68,
    {
        Address(0x68)
    }
}

impl From<Address> for u8 {
    /// The raw byte placed on the bus for every transaction.
    fn from(addr: Address) -> (r: u8) {
        addr.0
    }
}

impl vstd::std_specs::convert::FromSpecImpl<Address> for u8 {
    open spec fn obeys_from_spec() -> bool {
        true
    }

    open spec fn from_spec(addr: Address) -> u8 {
        addr.0
    }
}

} // verus!
