use vstd::prelude::*;

verus! {

/// Number of samples waiting in the device FIFO, given the raw write and read
/// pointer registers. The hardware counters are five bits wide and wrap at 32.
pub open spec fn pending_count(write_ptr: int, read_ptr: int) -> int {
    (write_ptr - read_ptr) % 32
}

/// Samples available between the two FIFO pointers, modulo 32.
pub fn available_from_pointers(write_ptr: u8, read_ptr: u8) -> (r: u8)
    ensures
        r as int == pending_count(write_ptr as int, read_ptr as int),
        r < 32,
{
    let r = write_ptr.wrapping_sub(read_ptr) & 0x1f;
    assert(r as int == (write_ptr as int - read_ptr as int) % 32) by (bit_vector)
        requires
            r == write_ptr.wrapping_sub(read_ptr) & 0x1f,
    ;
    r
}

} // verus!
