//! Flash memory controller: which reads, writes and erasures lie within the
//! flash and are aligned.

use vstd::prelude::*;

verus! {

/// Address of the first byte of the flash
pub const FLASH_BASE: u32 = 0x0800_0000;

/// Least number of bytes that can be read
pub const READ_SIZE: usize = 0x1;

/// Least number of bytes that can be written
pub const WRITE_SIZE: usize = 0x4;

/// Number of bytes that are erased together
pub const ERASE_SIZE: usize = 2048;

/// Extension trait that hands out the flash
pub trait FMCExt {
    fn constrain(self) -> Flash;
}

/// The flash memory of the device
pub struct Flash;

impl FMCExt for crate::pac::Flash {
    fn constrain(self) -> Flash {
        Flash
    }
}

/// What went wrong with an access to the flash
#[derive(Debug, Clone, Copy, PartialEq, Eq, Structural)]
pub enum FlashError {
    WriteProtected,
    ProgramError,
    OutOfBounds,
    NotAligned,
}

/// Capacities of the flash that its addresses can be computed for in 32
/// bits: at least one byte, and the address after the last byte still one of
/// 32 bits.
pub open spec fn addressable(capacity: int) -> bool {
    1 <= capacity <= u32::MAX - FLASH_BASE
}

/// Address of the last byte of a flash of `capacity` bytes.
pub open spec fn last_address(capacity: int) -> int {
    FLASH_BASE + capacity - 1
}

/// Whether `len` bytes from the offset `offset` lie within a flash of
/// `capacity` bytes, and the offset itself does too.
pub open spec fn readable(offset: int, len: int, capacity: int) -> bool {
    &&& FLASH_BASE + offset <= last_address(capacity)
    &&& FLASH_BASE + offset + len <= last_address(capacity) + 1
}

/// What an erasure from `from` up to `to` meets first: its start has to be
/// below the last address and its end at most one above it; then both have
/// to be multiples of the size of a page.
pub open spec fn erase_check(from: int, to: int, capacity: int) -> Result<(), FlashError> {
    if from >= last_address(capacity) || to > last_address(capacity) + 1 {
        Err(FlashError::OutOfBounds)
    } else if from % (ERASE_SIZE as int) != 0 || to % (ERASE_SIZE as int) != 0 {
        Err(FlashError::NotAligned)
    } else {
        Ok(())
    }
}

/// What a write of `len` bytes to the offset `offset` meets first: length
/// and offset have to be multiples of four; then the bytes have to lie
/// within the flash.
pub open spec fn write_check(offset: int, len: int, capacity: int) -> Result<(), FlashError> {
    if len % (WRITE_SIZE as int) != 0 || offset % (WRITE_SIZE as int) != 0 {
        Err(FlashError::NotAligned)
    } else if offset + len > capacity {
        Err(FlashError::OutOfBounds)
    } else {
        Ok(())
    }
}

impl Flash {
    /// Address of the last byte of a flash of `capacity` bytes.
    pub fn max_addr(capacity: usize) -> (address: u32)
        requires
            addressable(capacity as int),
        ensures
            address == last_address(capacity as int),
    {
        FLASH_BASE + (capacity as u32) - 1
    }

    /// Checks that `len` bytes can be read from the offset `offset`.
    pub fn check_read(offset: u32, len: usize, capacity: usize) -> (checked: Result<(), FlashError>)
        requires
            addressable(capacity as int),
            FLASH_BASE + offset + len <= u32::MAX,
        ensures
            checked is Ok <==> readable(offset as int, len as int, capacity as int),
            checked is Err ==> checked == Err::<(), FlashError>(FlashError::OutOfBounds),
    {
        let addr: u32 = FLASH_BASE + offset;
        if addr > Flash::max_addr(capacity) || (addr + len as u32) > (Flash::max_addr(capacity)
            + 1) {
            return Err(FlashError::OutOfBounds);
        }
        Ok(())
    }

    /// Checks an erasure from `from` up to `to` and gives the pages to
    /// erase: the first and the one after the last.
    pub fn check_erase(from: u32, to: u32, capacity: usize) -> (pages: Result<
        (u32, u32),
        FlashError,
    >)
        requires
            addressable(capacity as int),
        ensures
            pages is Ok <==> erase_check(from as int, to as int, capacity as int) is Ok,
            pages matches Err(e) ==> erase_check(from as int, to as int, capacity as int) == Err::<
                (),
                FlashError,
            >(e),
            pages matches Ok((first, end)) ==> first == from / (ERASE_SIZE as u32) && end == to / (
            ERASE_SIZE as u32),
    {
        if from >= Flash::max_addr(capacity) {
            return Err(FlashError::OutOfBounds);
        }
        if to > (Flash::max_addr(capacity) + 1) {
            return Err(FlashError::OutOfBounds);
        }
        if from % ERASE_SIZE as u32 != 0 || to % ERASE_SIZE as u32 != 0 {
            return Err(FlashError::NotAligned);
        }
        Ok((from / ERASE_SIZE as u32, to / ERASE_SIZE as u32))
    }

    /// Checks that `len` bytes can be written to the offset `offset`.
    pub fn check_write(offset: u32, len: usize, capacity: usize) -> (checked: Result<
        (),
        FlashError,
    >)
        requires
            offset + len <= usize::MAX,
        ensures
            checked == write_check(offset as int, len as int, capacity as int),
    {
        if len % WRITE_SIZE != 0 {
            return Err(FlashError::NotAligned);
        }
        if offset as usize % WRITE_SIZE != 0 {
            return Err(FlashError::NotAligned);
        }
        if (offset as usize) + len > capacity {
            return Err(FlashError::OutOfBounds);
        }
        Ok(())
    }
}

} // verus!
