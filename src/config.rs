//! The settings of one encoding run, with their defaults.

use crate::bits::BitOrder;
use vstd::prelude::*;

verus! {

/// The byte order of the output container's multi-byte samples.
#[derive(Clone, Copy, Debug, PartialEq, Eq, Structural)]
pub enum OutputEndianness {
    Little,
    Big,
    /// The host's own byte order.
    Native,
}

/// The bit order of a run: the one asked for, else the host's byte order.
pub fn input_bit_order(requested: Option<BitOrder>, host_big_endian: bool) -> (r: BitOrder)
    ensures
        r == match requested {
            Some(order) => order,
            None => if host_big_endian {
                BitOrder::BigEndianBits
            } else {
                BitOrder::LittleEndianBits
            },
        },
{
    match requested {
        Some(order) => order,
        None => if host_big_endian {
            BitOrder::BigEndianBits
        } else {
            BitOrder::LittleEndianBits
        },
    }
}

/// The output byte order of a run: the one asked for, else the host's own.
pub fn output_endianness(requested: Option<OutputEndianness>) -> (r: OutputEndianness)
    ensures
        r == match requested {
            Some(e) => e,
            None => OutputEndianness::Native,
        },
{
    match requested {
        Some(e) => e,
        None => OutputEndianness::Native,
    }
}

} // verus!
