use vstd::prelude::*;

verus! {

/// Largest value of a channel plus one: each reading is eighteen bits wide.
pub const CHANNEL_LIMIT: u32 = 0x40000;

/// The reading carried by three big-endian bytes, of which only the low
/// eighteen bits are meaningful.
pub open spec fn channel_value(hi: u8, mid: u8, lo: u8) -> int {
    (hi as int * 65536 + mid as int * 256 + lo as int) % 0x40000
}

/// One decoded FIFO entry: channel A (red) and channel B (infrared).
#[derive(Clone, Copy, Debug, PartialEq, Eq, Structural)]
pub struct Sample {
    pub red: u32,
    pub ir: u32,
}

/// The sample carried by a six-byte FIFO entry.
pub open spec fn decoded(frame: Seq<u8>) -> Sample {
    Sample {
        red: channel_value(frame[0], frame[1], frame[2]) as u32,
        ir: channel_value(frame[3], frame[4], frame[5]) as u32,
    }
}

/// Assembles three big-endian bytes and keeps the low eighteen bits.
pub fn channel(hi: u8, mid: u8, lo: u8) -> (r: u32)
    ensures
        r as int == channel_value(hi, mid, lo),
        r < CHANNEL_LIMIT,
{
    let r = ((hi as u32) << 16 | (mid as u32) << 8 | (lo as u32)) & 0x3FFFF;
    assert(r as int == (hi as int * 65536 + mid as int * 256 + lo as int) % 0x40000 && r < 0x40000)
        by (bit_vector)
        requires
            r == ((hi as u32) << 16 | (mid as u32) << 8 | (lo as u32)) & 0x3FFFF,
    ;
    r
}

/// Splits a six-byte FIFO entry into its two channels.
pub fn decode(frame: [u8; 6]) -> (r: Sample)
    ensures
        r == decoded(frame@),
        r.red as int == channel_value(frame@[0], frame@[1], frame@[2]),
        r.ir as int == channel_value(frame@[3], frame@[4], frame@[5]),
        r.red < CHANNEL_LIMIT,
        r.ir < CHANNEL_LIMIT,
{
    Sample { red: channel(frame[0], frame[1], frame[2]), ir: channel(frame[3], frame[4], frame[5]) }
}

} // verus!
