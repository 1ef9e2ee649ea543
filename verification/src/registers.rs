//! The register map of the device and the two bus primitives that reach it.

use vstd::prelude::*;
use crate::point::TOUCHPOINT_ENTRY_LEN;
use crate::touch_points::MAX_NUM_TOUCHPOINTS;

verus! {

/// Bus address at which the device answers unless strapped otherwise.
pub const GT911_I2C_ADDR_BA: u8 = 0x5D;

/// Command register; writing 0 puts the device into normal operation.
pub const GT911_COMMAND_REG: u16 = 0x8040;

/// Product identity, four ASCII bytes.
pub const GT911_PRODUCT_ID_REG: u16 = 0x8140;

/// Touch status: bit 7 is the ready flag, bits 0 to 3 the number of points.
pub const GT911_TOUCHPOINT_STATUS_REG: u16 = 0x814E;

/// First of five contiguous touch-point records.
pub const GT911_TOUCHPOINT_1_REG: u16 = 0x814F;

/// Length of the buffer into which every read is made: room for the most
/// records that the device reports at once, 40 bytes.
pub const SCRATCH_LEN: usize = MAX_NUM_TOUCHPOINTS * TOUCHPOINT_ENTRY_LEN;

/// One bus transaction that the driver asks its transport to perform.
#[derive(Debug, Clone, Copy, PartialEq, Eq)]
pub enum Transaction {
    /// Send `frame` to `address` as a single bus write.
    Write { address: u8, frame: [u8; 3] },
    /// Send `register` to `address`, then, without releasing the bus, read
    /// `len` bytes into the start of the scratch buffer.
    WriteRead { address: u8, register: [u8; 2], len: usize },
}

/// High byte of a register address, sent first.
pub open spec fn high_byte(register: u16) -> u8 {
    (register / 256) as u8
}

/// Low byte of a register address, sent second.
pub open spec fn low_byte(register: u16) -> u8 {
    (register % 256) as u8
}

/// The transaction that sets `register` to `value`.
pub open spec fn write_of(address: u8, register: u16, value: u8) -> Transaction {
    Transaction::Write { address, frame: [high_byte(register), low_byte(register), value] }
}

/// The transaction that reads `len` bytes starting at `register`.
pub open spec fn read_of(address: u8, register: u16, len: usize) -> Transaction {
    Transaction::WriteRead { address, register: [high_byte(register), low_byte(register)], len }
}

/// Composes the write of one byte to a register: the register address, high
/// byte first, then the value.
pub fn write(address: u8, register: u16, value: u8) -> (transaction: Transaction)
    ensures
        transaction == write_of(address, register, value),
{
    let frame: [u8; 3] = [(register / 256) as u8, (register % 256) as u8, value];
    Transaction::Write { address, frame }
}

/// Composes the read of `len` bytes from a register: the register address,
/// high byte first, and the read that follows it in the same transaction.
pub fn read(address: u8, register: u16, len: usize) -> (transaction: Transaction)
    ensures
        transaction == read_of(address, register, len),
{
    let register: [u8; 2] = [(register / 256) as u8, (register % 256) as u8];
    Transaction::WriteRead { address, register, len }
}

} // verus!
