//! The memory bus: byte-wide reads and writes at 16-bit addresses.

use vstd::prelude::*;

verus! {

/// Anything that can stand on the bus. A read may change the device that
/// answers it, so both operations take the device mutably.
pub trait Memory {
    /// Reads the byte at `address`.
    fn get(&mut self, address: u16) -> u8;

    /// Writes `value` at `address`.
    fn set(&mut self, address: u16, value: u8);
}

} // verus!
