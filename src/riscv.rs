//! RISC-V machine-mode definitions and a model of the control/status registers.
//!
//! The registers are held as plain values in [`Csrs`]; the code that owns a real hart
//! copies them in and out around each operation.
use vstd::prelude::*;

verus! {

/// Index of the stack pointer in the general-purpose register file.
pub const REG_SP: usize = 2;

/// Index of the return address in the general-purpose register file.
pub const REG_RA: usize = 1;

pub const PRIVILEGE_USER: usize = 0;
pub const PRIVILEGE_SUPERVISOR: usize = 1;
pub const PRIVILEGE_MACHINE: usize = 3;

pub const SYS_EXIT: usize = 93;
pub const SYS_WRITE: usize = 64;

pub const EXCEPTION_INSTRUCTION_MISALIGNED: usize = 0;
pub const EXCEPTION_INSTRUCTION_ACCESS_FAULT: usize = 1;
pub const EXCEPTION_ILLEGAL_INSTRUCTION: usize = 2;
pub const EXCEPTION_BREAKPOINT: usize = 3;
pub const EXCEPTION_LOAD_ADDRESS_MISALIGNED: usize = 4;
pub const EXCEPTION_LOAD_ACCESS_FAULT: usize = 5;
pub const EXCEPTION_STORE_ADDRESS_MISALIGNED: usize = 6;
pub const EXCEPTION_STORE_ACCESS_FAULT: usize = 7;
pub const EXCEPTION_ECALL_FROM_USER: usize = 8;
pub const EXCEPTION_ECALL_FROM_SUPERVISOR: usize = 9;
pub const EXCEPTION_ECALL_FROM_MACHINE: usize = 11;

pub const INTERRUPT_USER_SOFTWARE: usize = 0;
pub const INTERRUPT_SUPERVISOR_SOFTWARE: usize = 1;
pub const INTERRUPT_MACHINE_SOFTWARE: usize = 3;
pub const INTERRUPT_USER_TIMER: usize = 4;
pub const INTERRUPT_SUPERVISOR_TIMER: usize = 5;
pub const INTERRUPT_MACHINE_TIMER: usize = 7;
pub const INTERRUPT_USER_EXTERNAL: usize = 8;
pub const INTERRUPT_SUPERVISOR_EXTERNAL: usize = 9;
pub const INTERRUPT_MACHINE_EXTERNAL: usize = 11;

/// CSR addresses.
pub const CSR_MSTATUS: usize = 0x300;
pub const CSR_MIE: usize = 0x304;
pub const CSR_MTVEC: usize = 0x305;
pub const CSR_MEPC: usize = 0x341;
pub const CSR_MCAUSE: usize = 0x342;
pub const CSR_MTVAL: usize = 0x343;
pub const CSR_MIP: usize = 0x344;

/// `mstatus.MPP`: the privilege tier that `mret` returns to (bits 12:11).
pub const MSTATUS_MPP: usize = 0x1800;
pub const MSTATUS_MPP_SHIFT: usize = 11;
/// `mstatus.MPIE` (bit 7).
pub const MSTATUS_MPIE: usize = 0x80;
/// `mstatus.MIE`, the global machine interrupt enable (bit 3).
pub const MSTATUS_MIE: usize = 0x8;

/// The machine-mode control and status registers of one hart.
#[derive(Clone, Copy, Debug)]
pub struct Csrs {
    pub mstatus: usize,
    pub mepc: usize,
    pub mcause: usize,
    pub mtval: usize,
    pub mie: usize,
    pub mip: usize,
    pub mtvec: usize,
}

/// What `csrr` returns for the CSR at address `csr`; unknown addresses read as zero.
pub open spec fn csr_value(hw: Csrs, csr: usize) -> usize {
    if csr == CSR_MSTATUS {
        hw.mstatus
    } else if csr == CSR_MEPC {
        hw.mepc
    } else if csr == CSR_MCAUSE {
        hw.mcause
    } else if csr == CSR_MTVAL {
        hw.mtval
    } else if csr == CSR_MIE {
        hw.mie
    } else if csr == CSR_MIP {
        hw.mip
    } else if csr == CSR_MTVEC {
        hw.mtvec
    } else {
        0
    }
}

/// The registers after `csrw csr, value`: only mstatus, mepc, mie and mtvec are writable,
/// a write to any other address is ignored.
pub open spec fn csr_written(hw: Csrs, csr: usize, value: usize) -> Csrs {
    if csr == CSR_MSTATUS {
        Csrs { mstatus: value, ..hw }
    } else if csr == CSR_MEPC {
        Csrs { mepc: value, ..hw }
    } else if csr == CSR_MIE {
        Csrs { mie: value, ..hw }
    } else if csr == CSR_MTVEC {
        Csrs { mtvec: value, ..hw }
    } else {
        hw
    }
}

/// The privilege tier held in `mstatus.MPP`.
pub open spec fn mpp_of(mstatus: usize) -> usize {
    (mstatus & MSTATUS_MPP) >> MSTATUS_MPP_SHIFT
}

/// Whether the bits of `mask` are set in `word` (for a one-bit mask: whether the bit is set).
pub open spec fn bit_set(word: usize, mask: usize) -> bool {
    word & mask != 0
}

/// Setting and clearing the bits of a mask leaves the other bits alone.
pub proof fn lemma_mask_ops(word: usize, mask: usize)
    ensures
        (word | mask) & mask == mask,
        (word | mask) & !mask == word & !mask,
        (word & !mask) & mask == 0,
        (word & !mask) & !mask == word & !mask,
{
    assert((word | mask) & mask == mask) by (bit_vector);
    assert((word | mask) & !mask == word & !mask) by (bit_vector);
    assert((word & !mask) & mask == 0) by (bit_vector);
    assert((word & !mask) & !mask == word & !mask) by (bit_vector);
}

/// Replacing the field under `mask` by `field` puts `field` there and keeps the rest.
pub proof fn lemma_replace_field(word: usize, field: usize, mask: usize)
    requires
        field & !mask == 0,
    ensures
        ((word & !mask) | field) & mask == field,
        ((word & !mask) | field) & !mask == word & !mask,
{
    assert(((word & !mask) | field) & mask == field) by (bit_vector)
        requires
            field & !mask == 0,
    ;
    assert(((word & !mask) | field) & !mask == word & !mask) by (bit_vector)
        requires
            field & !mask == 0,
    ;
}

pub fn read_csr(hw: &Csrs, csr: usize) -> (r: usize)
    ensures
        r == csr_value(*hw, csr),
{
    match csr {
        CSR_MSTATUS => hw.mstatus,
        CSR_MEPC => hw.mepc,
        CSR_MCAUSE => hw.mcause,
        CSR_MTVAL => hw.mtval,
        CSR_MIE => hw.mie,
        CSR_MIP => hw.mip,
        CSR_MTVEC => hw.mtvec,
        _ => 0,
    }
}

pub fn write_csr(hw: &mut Csrs, csr: usize, value: usize)
    ensures
        *final(hw) == csr_written(*old(hw), csr, value),
{
    match csr {
        CSR_MSTATUS => hw.mstatus = value,
        CSR_MEPC => hw.mepc = value,
        CSR_MIE => hw.mie = value,
        CSR_MTVEC => hw.mtvec = value,
        _ => {},
    }
}

pub fn read_mstatus(hw: &Csrs) -> (r: usize)
    ensures
        r == hw.mstatus,
{
    read_csr(hw, CSR_MSTATUS)
}

pub fn write_mstatus(hw: &mut Csrs, value: usize)
    ensures
        *final(hw) == (Csrs { mstatus: value, ..*old(hw) }),
{
    write_csr(hw, CSR_MSTATUS, value);
}

pub fn read_mepc(hw: &Csrs) -> (r: usize)
    ensures
        r == hw.mepc,
{
    read_csr(hw, CSR_MEPC)
}

pub fn write_mepc(hw: &mut Csrs, value: usize)
    ensures
        *final(hw) == (Csrs { mepc: value, ..*old(hw) }),
{
    write_csr(hw, CSR_MEPC, value);
}

pub fn read_mcause(hw: &Csrs) -> (r: usize)
    ensures
        r == hw.mcause,
{
    read_csr(hw, CSR_MCAUSE)
}

pub fn read_mtval(hw: &Csrs) -> (r: usize)
    ensures
        r == hw.mtval,
{
    read_csr(hw, CSR_MTVAL)
}

pub fn read_mie(hw: &Csrs) -> (r: usize)
    ensures
        r == hw.mie,
{
    read_csr(hw, CSR_MIE)
}

pub fn write_mie(hw: &mut Csrs, value: usize)
    ensures
        *final(hw) == (Csrs { mie: value, ..*old(hw) }),
{
    write_csr(hw, CSR_MIE, value);
}

pub fn read_mip(hw: &Csrs) -> (r: usize)
    ensures
        r == hw.mip,
{
    read_csr(hw, CSR_MIP)
}

pub fn read_mtvec(hw: &Csrs) -> (r: usize)
    ensures
        r == hw.mtvec,
{
    read_csr(hw, CSR_MTVEC)
}

pub fn write_mtvec(hw: &mut Csrs, value: usize)
    ensures
        *final(hw) == (Csrs { mtvec: value, ..*old(hw) }),
{
    write_csr(hw, CSR_MTVEC, value);
}

/// Reads the privilege tier that `mret` will return to.
pub fn read_mpp(hw: &Csrs) -> (r: usize)
    ensures
        r == mpp_of(hw.mstatus),
        r <= 3,
{
    let m = read_mstatus(hw);
    assert((m & MSTATUS_MPP) >> MSTATUS_MPP_SHIFT <= 3) by (bit_vector);
    (m & MSTATUS_MPP) >> MSTATUS_MPP_SHIFT
}

/// Sets `mstatus.MPP` to the low two bits of `value`; every other bit of every register is kept.
pub fn write_mpp(hw: &mut Csrs, value: usize)
    ensures
        mpp_of(final(hw).mstatus) == value & 3,
        final(hw).mstatus & !MSTATUS_MPP == old(hw).mstatus & !MSTATUS_MPP,
        *final(hw) == (Csrs { mstatus: final(hw).mstatus, ..*old(hw) }),
{
    let m = read_mstatus(hw);
    let field = (value & 3) << MSTATUS_MPP_SHIFT;
    assert(field & !MSTATUS_MPP == 0) by (bit_vector)
        requires
            field == (value & 3) << 11,
    ;
    let updated = (m & !MSTATUS_MPP) | field;
    assert((updated & MSTATUS_MPP) >> MSTATUS_MPP_SHIFT == value & 3) by (bit_vector)
        requires
            field == (value & 3) << 11,
            updated == (m & !0x1800usize) | field,
    ;
    proof {
        lemma_replace_field(m, field, MSTATUS_MPP);
    }
    write_mstatus(hw, updated);
}

pub fn read_mpie(hw: &Csrs) -> (r: bool)
    ensures
        r == bit_set(hw.mstatus, MSTATUS_MPIE),
{
    read_mstatus(hw) & MSTATUS_MPIE != 0
}

/// Sets or clears `mstatus.MPIE`; every other bit of every register is kept.
pub fn write_mpie(hw: &mut Csrs, value: bool)
    ensures
        bit_set(final(hw).mstatus, MSTATUS_MPIE) == value,
        final(hw).mstatus & !MSTATUS_MPIE == old(hw).mstatus & !MSTATUS_MPIE,
        *final(hw) == (Csrs { mstatus: final(hw).mstatus, ..*old(hw) }),
{
    let m = read_mstatus(hw);
    proof {
        lemma_mask_ops(m, MSTATUS_MPIE);
    }
    let updated = if value {
        m | MSTATUS_MPIE
    } else {
        m & !MSTATUS_MPIE
    };
    write_mstatus(hw, updated);
}

pub fn read_mie_global(hw: &Csrs) -> (r: bool)
    ensures
        r == bit_set(hw.mstatus, MSTATUS_MIE),
{
    read_mstatus(hw) & MSTATUS_MIE != 0
}

/// Sets or clears `mstatus.MIE`; every other bit of every register is kept.
pub fn write_mie_global(hw: &mut Csrs, value: bool)
    ensures
        bit_set(final(hw).mstatus, MSTATUS_MIE) == value,
        final(hw).mstatus & !MSTATUS_MIE == old(hw).mstatus & !MSTATUS_MIE,
        *final(hw) == (Csrs { mstatus: final(hw).mstatus, ..*old(hw) }),
{
    let m = read_mstatus(hw);
    proof {
        lemma_mask_ops(m, MSTATUS_MIE);
    }
    let updated = if value {
        m | MSTATUS_MIE
    } else {
        m & !MSTATUS_MIE
    };
    write_mstatus(hw, updated);
}

} // verus!
