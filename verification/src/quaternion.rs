use vstd::prelude::*;

use crate::wire::spec_i32_from_be;
use crate::wire::i32_from_be;

verus! {

/// An orientation quaternion as the DMP reports it: four signed 32-bit
/// fixed-point components (w, x, y, z), each a multiple of 1/16384 of the
/// unit value. A host that needs floating-point components divides each
/// raw component by 16384.
#[derive(Debug, Copy, Clone, PartialEq, Eq, Structural)]
pub struct Quaternion {
    pub w: i32,
    pub x: i32,
    pub y: i32,
    pub z: i32,
}

impl Quaternion {
    /// The quaternion decoded from a 16-byte FIFO block: four signed
    /// 32-bit big-endian fields, w first, then x, y, z.
    pub open spec fn spec_from_bytes(bytes: Seq<u8>) -> Quaternion {
        Quaternion {
            w: spec_i32_from_be(bytes[0], bytes[1], bytes[2], bytes[3]),
            x: spec_i32_from_be(bytes[4], bytes[5], bytes[6], bytes[7]),
            y: spec_i32_from_be(bytes[8], bytes[9], bytes[10], bytes[11]),
            z: spec_i32_from_be(bytes[12], bytes[13], bytes[14], bytes[15]),
        }
    }

    /// Decode a raw FIFO block into a quaternion.
    ///
    /// Succeeds exactly on 16-byte input; any other length is rejected.
    /// The result is a pure function of the input bytes.
    pub fn from_bytes(bytes: &[u8]) -> (r: Result<Self, ()>)
        ensures
            r is Ok <==> bytes@.len() == 16,
            bytes@.len() == 16 ==> r == Ok::<Quaternion, ()>(Quaternion::spec_from_bytes(bytes@)),
    {
        if bytes.len() != 16 {
            return Err(());
        }

        let w = i32_from_be(bytes[0], bytes[1], bytes[2], bytes[3]);
        let x = i32_from_be(bytes[4], bytes[5], bytes[6], bytes[7]);
        let y = i32_from_be(bytes[8], bytes[9], bytes[10], bytes[11]);
        let z = i32_from_be(bytes[12], bytes[13], bytes[14], bytes[15]);

        Ok(Self { w, x, y, z })
    }
}

} // verus!
