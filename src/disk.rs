//! A memory-mapped block device: sector bounds checks and block transfers.
//!
//! The device's storage is a window of memory starting at `base_address`; the transfers
//! take that window as a byte slice.
use vstd::prelude::*;

verus! {

/// Bytes per sector.
pub const BLOCK_SIZE: usize = 512;

/// Address of the disk controller's storage window.
pub const DISK_BASE: usize = 0x10001000;

/// Sectors reported by the device once it is initialized.
pub const DISK_SECTORS: usize = 1024;

#[derive(Debug, Clone, Copy, PartialEq, Eq, Structural)]
pub enum DiskResult {
    Success,
    Error,
    Timeout,
    InvalidSector,
}

pub struct DiskDriver {
    pub base_address: usize,
    pub sector_count: usize,
    pub initialized: bool,
}

/// Why a transfer of `sector` with a buffer of `buffer_len` bytes is refused, if it is: the
/// device is not initialized, the sector is past the end, or the buffer is shorter than a
/// block.
pub open spec fn transfer_check(disk: DiskDriver, sector: usize, buffer_len: int) -> DiskResult {
    if !disk.initialized {
        DiskResult::Error
    } else if sector >= disk.sector_count {
        DiskResult::InvalidSector
    } else if buffer_len < BLOCK_SIZE {
        DiskResult::Error
    } else {
        DiskResult::Success
    }
}

impl DiskDriver {
    /// A driver for the controller at `DISK_BASE`, not yet initialized.
    pub fn new() -> (r: Self)
        ensures
            r.base_address == DISK_BASE,
            r.sector_count == 0,
            !r.initialized,
    {
        Self { base_address: DISK_BASE, sector_count: 0, initialized: false }
    }

    /// Brings the device up with `DISK_SECTORS` sectors.
    pub fn init(&mut self) -> (r: DiskResult)
        ensures
            r == DiskResult::Success,
            final(self).initialized,
            final(self).sector_count == DISK_SECTORS,
            final(self).base_address == old(self).base_address,
    {
        self.sector_count = DISK_SECTORS;
        self.initialized = true;
        DiskResult::Success
    }

    fn check_transfer(&self, sector: usize, buffer_len: usize) -> (r: DiskResult)
        ensures
            r == transfer_check(*self, sector, buffer_len as int),
    {
        if !self.initialized {
            DiskResult::Error
        } else if sector >= self.sector_count {
            DiskResult::InvalidSector
        } else if buffer_len < BLOCK_SIZE {
            DiskResult::Error
        } else {
            DiskResult::Success
        }
    }

    /// Copies sector `sector` of the device window `device` into the first block of
    /// `buffer`. On any refusal the buffer is left as it was.
    pub fn read_block(&self, sector: usize, buffer: &mut [u8], device: &[u8]) -> (r: DiskResult)
        requires
            device@.len() >= self.sector_count * BLOCK_SIZE,
        ensures
            r == transfer_check(*self, sector, old(buffer)@.len() as int),
            final(buffer)@.len() == old(buffer)@.len(),
            r == DiskResult::Success ==> ({
                let off = sector * BLOCK_SIZE;
                &&& final(buffer)@.subrange(0, BLOCK_SIZE as int) == device@.subrange(
                    off as int,
                    off + BLOCK_SIZE,
                )
                &&& final(buffer)@.subrange(BLOCK_SIZE as int, old(buffer)@.len() as int)
                    == old(buffer)@.subrange(BLOCK_SIZE as int, old(buffer)@.len() as int)
            }),
            r != DiskResult::Success ==> final(buffer)@ == old(buffer)@,
    {
        let check = self.check_transfer(sector, buffer.len());
        if check != DiskResult::Success {
            return check;
        }
        assert(sector * BLOCK_SIZE + BLOCK_SIZE <= self.sector_count * BLOCK_SIZE) by (
        nonlinear_arith)
            requires
                sector < self.sector_count,
        ;
        let device_len = device.len();
        let off = sector * BLOCK_SIZE;
        let mut i: usize = 0;
        while i < BLOCK_SIZE
            invariant
                i <= BLOCK_SIZE,
                off + BLOCK_SIZE <= device@.len(),
                device@.len() == device_len,
                buffer@.len() == old(buffer)@.len(),
                buffer@.len() >= BLOCK_SIZE,
                forall|j: int| 0 <= j < i ==> buffer@[j] == device@[off + j],
                forall|j: int| i <= j < buffer@.len() ==> buffer@[j] == old(buffer)@[j],
            decreases BLOCK_SIZE - i,
        {
            buffer[i] = device[off + i];
            i += 1;
        }
        assert(buffer@.subrange(0, BLOCK_SIZE as int) =~= device@.subrange(
            off as int,
            off + BLOCK_SIZE,
        ));
        assert(buffer@.subrange(BLOCK_SIZE as int, old(buffer)@.len() as int) =~= old(
            buffer,
        )@.subrange(BLOCK_SIZE as int, old(buffer)@.len() as int));
        DiskResult::Success
    }

    /// Copies the first block of `buffer` into sector `sector` of the device window
    /// `device`. On any refusal the device is left as it was.
    pub fn write_block(&self, sector: usize, buffer: &[u8], device: &mut [u8]) -> (r: DiskResult)
        requires
            old(device)@.len() >= self.sector_count * BLOCK_SIZE,
        ensures
            r == transfer_check(*self, sector, buffer@.len() as int),
            r == DiskResult::Success ==> final(device)@ == ({
                let off = sector * BLOCK_SIZE;
                old(device)@.subrange(0, off as int) + buffer@.subrange(0, BLOCK_SIZE as int)
                    + old(device)@.subrange(off + BLOCK_SIZE, old(device)@.len() as int)
            }),
            r != DiskResult::Success ==> final(device)@ == old(device)@,
    {
        let check = self.check_transfer(sector, buffer.len());
        if check != DiskResult::Success {
            return check;
        }
        assert(sector * BLOCK_SIZE + BLOCK_SIZE <= self.sector_count * BLOCK_SIZE) by (
        nonlinear_arith)
            requires
                sector < self.sector_count,
        ;
        let device_len = device.len();
        let off = sector * BLOCK_SIZE;
        let mut i: usize = 0;
        while i < BLOCK_SIZE
            invariant
                i <= BLOCK_SIZE,
                off + BLOCK_SIZE <= device@.len(),
                device@.len() == device_len,
                device@.len() == old(device)@.len(),
                buffer@.len() >= BLOCK_SIZE,
                forall|j: int| 0 <= j < off ==> device@[j] == old(device)@[j],
                forall|j: int| 0 <= j < i ==> device@[off + j] == buffer@[j],
                forall|j: int| off + i <= j < device@.len() ==> device@[j] == old(device)@[j],
            decreases BLOCK_SIZE - i,
        {
            device[off + i] = buffer[i];
            i += 1;
        }
        assert(device@ =~= old(device)@.subrange(0, off as int) + buffer@.subrange(
            0,
            BLOCK_SIZE as int,
        ) + old(device)@.subrange(off + BLOCK_SIZE, old(device)@.len() as int));
        DiskResult::Success
    }

    /// The number of sectors and the sector size.
    pub fn get_info(&self) -> (r: (usize, usize))
        ensures
            r == (self.sector_count, BLOCK_SIZE),
    {
        (self.sector_count, BLOCK_SIZE)
    }
}

} // verus!
