use vstd::prelude::*;

verus! {

/// One bus transaction or wait that a driver asks its host to carry out.
/// Every register access goes to the sensor's fixed bus address.
#[derive(Clone, Copy, Debug, PartialEq, Eq, Structural)]
pub enum Request {
    /// Write the register address, then read one byte back.
    ReadRegister { reg: u8 },
    /// Write the register address, then read one six-byte FIFO entry.
    ReadFrame { reg: u8 },
    /// Write the two bytes `[reg, val]`.
    WriteRegister { reg: u8, val: u8 },
    /// Busy-wait for the given number of microseconds.
    Wait { micros: u32 },
}

/// What the host observed when it carried out a `Request`.
#[derive(Clone, Copy, Debug)]
pub enum Outcome {
    /// A write or a wait completed.
    Done,
    /// A one-byte read completed with this byte.
    Byte(u8),
    /// A FIFO burst read completed with these bytes.
    Frame([u8; 6]),
    /// The transport reported an error.
    BusFailed,
}

/// The bytes put on the bus for a register write: the address, then the value.
pub fn write_bytes(reg: u8, val: u8) -> (r: [u8; 2])
    ensures
        r@ == seq![reg, val],
{
    let r = [reg, val];
    assert(r@ =~= seq![reg, val]);
    r
}

/// The byte put on the bus before a register read: the address alone.
pub fn address_bytes(reg: u8) -> (r: [u8; 1])
    ensures
        r@ == seq![reg],
{
    let r = [reg];
    assert(r@ =~= seq![reg]);
    r
}

} // verus!
