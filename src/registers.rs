use vstd::prelude::*;

verus! {

/// Seven-bit bus address of the sensor.
pub const DEVICE_ADDRESS: u8 = 0x57;

pub const REG_INTR_STATUS_1: u8 = 0x00;
pub const REG_INTR_ENABLE_1: u8 = 0x02;
pub const REG_FIFO_WR_PTR: u8 = 0x04;
pub const REG_FIFO_RD_PTR: u8 = 0x06;
pub const REG_FIFO_DATA: u8 = 0x07;
pub const REG_FIFO_CONFIG: u8 = 0x08;
pub const REG_MODE_CONFIG: u8 = 0x09;
pub const REG_SPO2_CONFIG: u8 = 0x0A;
pub const REG_LED1_PA: u8 = 0x0C;
pub const REG_LED2_PA: u8 = 0x0D;
pub const REG_PART_ID: u8 = 0xFF;

/// Mode-configuration value with only the reset bit set.
pub const MODE_RESET: u8 = 0x40;

/// Part identifier that the sensor is expected to report.
pub const EXPECTED_PART_ID: u8 = 0x15;

/// Bit of the first interrupt-status register that flags a nearly full FIFO.
pub const FIFO_ALMOST_FULL: u8 = 0x80;

/// Bytes in one FIFO entry: two three-byte channel readings.
pub const FRAME_LEN: usize = 6;

/// Number of entries in the configuration table.
pub const CONFIG_LEN: usize = 6;

/// The configuration written after reset, in order: FIFO averaging and
/// rollover, heart-rate mode, ADC range and sample rate, the two LED pulse
/// amplitudes (the second one off), and the FIFO-almost-full interrupt.
pub open spec fn config_table() -> Seq<(u8, u8)> {
    seq![
        (REG_FIFO_CONFIG, 0x1Fu8),
        (REG_MODE_CONFIG, 0x02u8),
        (REG_SPO2_CONFIG, 0x27u8),
        (REG_LED1_PA, 0x3Fu8),
        (REG_LED2_PA, 0x00u8),
        (REG_INTR_ENABLE_1, 0x80u8),
    ]
}

/// Entry `i` of the configuration table.
pub fn config_entry(i: usize) -> (r: (u8, u8))
    requires
        i < CONFIG_LEN,
    ensures
        r == config_table()[i as int],
{
    if i == 0 {
        (REG_FIFO_CONFIG, 0x1F)
    } else if i == 1 {
        (REG_MODE_CONFIG, 0x02)
    } else if i == 2 {
        (REG_SPO2_CONFIG, 0x27)
    } else if i == 3 {
        (REG_LED1_PA, 0x3F)
    } else if i == 4 {
        (REG_LED2_PA, 0x00)
    } else {
        (REG_INTR_ENABLE_1, 0x80)
    }
}

} // verus!
