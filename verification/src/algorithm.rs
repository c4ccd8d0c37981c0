//! The capability contract that an MCU author implements.

use vstd::prelude::*;
use crate::error_code::ErrorCode;
use crate::function::Function;

verus! {

/// What a flash algorithm for one MCU family provides.
///
/// Nothing is promised of what an implementation returns: each result goes to
/// the host as it comes.
pub trait FlashAlgorithm: Sized + 'static {
    /// Initialize the flash algorithm.
    ///
    /// * `address` - The start address of the flash region to program.
    /// * `clock` - The clock speed in Hertz for programming the device.
    /// * `function` - The function for which this initialization is for.
    fn new(address: u32, clock: u32, function: Function) -> Result<Self, ErrorCode>;

    /// Erase the entire chip. Only called in a session opened for
    /// [`Function::Erase`].
    fn erase_all(&mut self) -> Result<(), ErrorCode>;

    /// Erase the sector that starts at `address`. Only called in a session
    /// opened for [`Function::Erase`].
    fn erase_sector(&mut self, address: u32) -> Result<(), ErrorCode>;

    /// Program `data` to the page that starts at `address`. Only called in a
    /// session opened for [`Function::Program`].
    fn program_page(&mut self, address: u32, data: &[u8]) -> Result<(), ErrorCode>;

    /// Verify `size` bytes of flash from `address`: against `data` where it is
    /// given, by the device's own check where it is not. Only called in a
    /// session opened for [`Function::Verify`].
    fn verify(&mut self, address: u32, size: u32, data: Option<&[u8]>) -> Result<(), ErrorCode>;
}

} // verus!
