use vstd::prelude::*;
use crate::cpu::{advance, bump, drop_by, join, lower, upper, StatusFlags, CPU};
use crate::laws::{law_add, law_compare_flags, law_subtract};
use crate::semantics::{
    accepts_extra_cycle, executed, indicator, nop_takes_operand, overflowed, page_differs,
    resolved,
};
use crate::state::{low_byte, signed8, wrap16, wrap8};
use crate::table::{is_implied, AddrMode, Operation};

verus! {

// -------------------------------------------------------------------
// Addressing modes
// -------------------------------------------------------------------

/// Implied mode: the operand is the accumulator. Reads no memory and
/// leaves the program counter where it is.
pub fn imp(cpu: &mut CPU) -> (extra: u8)
    ensures
        final(cpu)@ == old(cpu)@.after_imp(),
        extra == 0,
{
    cpu.fetched = cpu.get_accumulator();
    0
}

/// Immediate mode: the operand is the byte at the program counter, which
/// then moves past it.
pub fn imm(cpu: &mut CPU) -> (extra: u8)
    ensures
        final(cpu)@ == old(cpu)@.after_imm(),
        extra == 0,
{
    cpu.abs_addr = cpu.program_counter;
    cpu.program_counter = advance(cpu.program_counter, 1);
    0
}

/// Reads the two-byte little-endian address at the program counter and
/// moves the program counter past it.
fn take_word(cpu: &mut CPU) -> (w: u16)
    ensures
        w == old(cpu)@.operand_word(),
        final(cpu)@ == old(cpu)@.step(2),
{
    let w: u16 = cpu.read_word(cpu.program_counter);
    cpu.program_counter = advance(cpu.program_counter, 2);
    w
}

/// Reads the byte at the program counter and moves the program counter past it.
fn take_byte(cpu: &mut CPU) -> (b: u8)
    ensures
        b == old(cpu)@.operand_byte(),
        final(cpu)@ == old(cpu)@.step(1),
{
    let b: u8 = cpu.read(cpu.program_counter);
    cpu.program_counter = advance(cpu.program_counter, 1);
    b
}

/// Reads the 16-bit pointer stored in page zero at `pointer`.
fn read_zero_page_word(cpu: &CPU, pointer: u8) -> (w: u16)
    ensures
        w == cpu@.zero_page_word(pointer),
{
    let low: u8 = cpu.read(pointer as u16);
    let high: u8 = cpu.read(bump(pointer, 1) as u16);
    join(low, high)
}

/// 1 if the two addresses lie in different pages, else 0.
fn crossing(a: u16, b: u16) -> (extra: u8)
    ensures
        extra == indicator(page_differs(a, b)),
{
    if upper(a) != upper(b) {
        1
    } else {
        0
    }
}

/// Absolute mode: the effective address is the two-byte address that
/// follows the opcode.
pub fn abs(cpu: &mut CPU) -> (extra: u8)
    ensures
        final(cpu)@ == old(cpu)@.after_abs(),
        extra == 0,
{
    let address: u16 = take_word(cpu);
    cpu.abs_addr = address;
    0
}

/// Absolute mode indexed by X. Asks for an extra cycle exactly when the
/// effective address lies in another page than the address before indexing.
pub fn abx(cpu: &mut CPU) -> (extra: u8)
    ensures
        final(cpu)@ == old(cpu)@.after_indexed(old(cpu).regx),
        final(cpu).abs_addr == wrap16(old(cpu)@.operand_word() + old(cpu).regx),
        extra == indicator(page_differs(final(cpu).abs_addr, old(cpu)@.operand_word())),
{
    let base: u16 = take_word(cpu);
    cpu.abs_addr = advance(base, cpu.regx as u16);
    crossing(cpu.abs_addr, base)
}

/// Absolute mode indexed by Y. Asks for an extra cycle exactly when the
/// effective address lies in another page than the address before indexing.
pub fn aby(cpu: &mut CPU) -> (extra: u8)
    ensures
        final(cpu)@ == old(cpu)@.after_indexed(old(cpu).regy),
        final(cpu).abs_addr == wrap16(old(cpu)@.operand_word() + old(cpu).regy),
        extra == indicator(page_differs(final(cpu).abs_addr, old(cpu)@.operand_word())),
{
    let base: u16 = take_word(cpu);
    cpu.abs_addr = advance(base, cpu.regy as u16);
    crossing(cpu.abs_addr, base)
}

/// Relative mode: the byte that follows the opcode is a signed
/// displacement, kept sign-extended to 16 bits.
pub fn rel(cpu: &mut CPU) -> (extra: u8)
    ensures
        final(cpu)@ == old(cpu)@.after_rel(),
        final(cpu).rel_addr == wrap16(signed8(old(cpu)@.operand_byte())),
        extra == 0,
{
    let offset: u8 = take_byte(cpu);
    cpu.rel_addr = offset as u16;
    if offset >= 0x80 {
        let extended: u16 = cpu.rel_addr | 0xFF00;
        assert(offset >= 0x80 ==> (offset as u16) | 0xFF00 == 0xFF00 + (offset as u16))
            by (bit_vector);
        cpu.rel_addr = extended;
    }
    0
}

/// Zero-page mode: the effective address is the one-byte address that
/// follows the opcode.
pub fn zp0(cpu: &mut CPU) -> (extra: u8)
    ensures
        final(cpu)@ == old(cpu)@.after_zp0(),
        extra == 0,
{
    let address: u8 = take_byte(cpu);
    cpu.abs_addr = address as u16;
    0
}

/// Zero-page mode indexed by X; the sum wraps within page zero.
pub fn zpx(cpu: &mut CPU) -> (extra: u8)
    ensures
        final(cpu)@ == old(cpu)@.after_zero_page_indexed(old(cpu).regx),
        final(cpu).abs_addr < 256,
        extra == 0,
{
    let address: u8 = take_byte(cpu);
    cpu.abs_addr = bump(address, cpu.regx) as u16;
    0
}

/// Zero-page mode indexed by Y; the sum wraps within page zero.
pub fn zpy(cpu: &mut CPU) -> (extra: u8)
    ensures
        final(cpu)@ == old(cpu)@.after_zero_page_indexed(old(cpu).regy),
        final(cpu).abs_addr < 256,
        extra == 0,
{
    let address: u8 = take_byte(cpu);
    cpu.abs_addr = bump(address, cpu.regy) as u16;
    0
}

/// Indirect mode indexed by X: X is added to the pointer's address, within
/// page zero, before the pointer is read.
pub fn indx(cpu: &mut CPU) -> (extra: u8)
    ensures
        final(cpu)@ == old(cpu)@.after_indx(),
        extra == 0,
{
    let pointer: u8 = take_byte(cpu);
    cpu.abs_addr = read_zero_page_word(cpu, bump(pointer, cpu.regx));
    0
}

/// Indirect mode indexed by Y: Y is added to the address that the
/// zero-page pointer holds. Asks for an extra cycle exactly when the sum
/// lies in another page than that address.
pub fn indy(cpu: &mut CPU) -> (extra: u8)
    ensures
        final(cpu)@ == old(cpu)@.after_indy(),
        final(cpu).abs_addr == wrap16(old(cpu)@.indy_base() + old(cpu).regy),
        extra == indicator(page_differs(final(cpu).abs_addr, old(cpu)@.indy_base())),
{
    let pointer: u8 = take_byte(cpu);
    let base: u16 = read_zero_page_word(cpu, pointer);
    cpu.abs_addr = advance(base, cpu.regy as u16);
    crossing(cpu.abs_addr, base)
}

/// Indirect mode: the two-byte address that follows the opcode names a
/// pointer, and the effective address is what the pointer holds. The
/// pointer's high byte is read from the pointer's own page: a pointer in
/// the last byte of a page has its high byte in the first byte of that page.
pub fn ind(cpu: &mut CPU) -> (extra: u8)
    ensures
        final(cpu)@ == old(cpu)@.after_ind(),
        extra == 0,
{
    let pointer: u16 = take_word(cpu);
    let low: u8 = cpu.read(pointer);
    let high: u8 = cpu.read(join(bump(lower(pointer), 1), upper(pointer)));
    cpu.abs_addr = join(low, high);
    0
}

/// Runs the addressing mode `mode`.
pub fn resolve(mode: AddrMode, cpu: &mut CPU) -> (extra: u8)
    ensures
        final(cpu)@ == resolved(mode, old(cpu)@).0,
        extra == resolved(mode, old(cpu)@).1,
        extra <= 1,
{
    reveal(resolved);
    match mode {
        AddrMode::Imp => imp(cpu),
        AddrMode::Imm => imm(cpu),
        AddrMode::Abs => abs(cpu),
        AddrMode::Abx => abx(cpu),
        AddrMode::Aby => aby(cpu),
        AddrMode::Rel => rel(cpu),
        AddrMode::Zp0 => zp0(cpu),
        AddrMode::Zpx => zpx(cpu),
        AddrMode::Zpy => zpy(cpu),
        AddrMode::Indx => indx(cpu),
        AddrMode::Indy => indy(cpu),
        AddrMode::Ind => ind(cpu),
    }
}

// -------------------------------------------------------------------
// Flag helpers
// -------------------------------------------------------------------

/// Applies the zero-or-negative rule to the low byte of `value`: sets Zero
/// if it is 0, else sets Negative if its bit 7 is set. Clears neither flag.
pub fn check_if_zero_or_negative_u16(cpu: &mut CPU, value: u16)
    ensures
        final(cpu)@ == old(cpu)@.with_zero_or_negative(low_byte(value)),
{
    check_if_zero_or_negative_u8(cpu, lower(value));
}

/// Applies the zero-or-negative rule to `value`: sets Zero if it is 0,
/// else sets Negative if its bit 7 is set. Clears neither flag.
pub fn check_if_zero_or_negative_u8(cpu: &mut CPU, value: u8)
    ensures
        final(cpu)@ == old(cpu)@.with_zero_or_negative(value),
{
    assert((value & 0x80 != 0) == (value >= 128)) by (bit_vector);
    if value == 0 {
        cpu.set_flag(StatusFlags::Z, true)
    } else if (value & 0x80) != 0 {
        cpu.set_flag(StatusFlags::N, true)
    }
}

/// Recomputes Zero and Negative from `value`.
fn update_result_flags(cpu: &mut CPU, value: u8)
    ensures
        final(cpu)@ == old(cpu)@.with_result_flags(value),
{
    cpu.clear_flags(0x82);
    check_if_zero_or_negative_u8(cpu, value);
}

/// Stores a result where the operand came from.
fn store_result(cpu: &mut CPU, value: u8)
    ensures
        final(cpu)@ == old(cpu)@.store_result(value),
{
    if is_implied(cpu.cur_opcode) {
        cpu.acu = value;
    } else {
        cpu.write(cpu.abs_addr, value);
    }
}

// -------------------------------------------------------------------
// Operations
// -------------------------------------------------------------------

/// Adds `addend` and the carry to the accumulator and sets Carry,
/// Overflow, Zero and Negative.
fn add_to_accumulator(cpu: &mut CPU, addend: u8)
    ensures
        final(cpu)@ == old(cpu)@.add_to_accumulator(addend),
{
    let a: u8 = cpu.get_accumulator();
    let m: u8 = cpu.fetched;
    let sum: u16 = a as u16 + addend as u16 + cpu.get_flag(StatusFlags::C) as u16;
    let result: u8 = lower(sum);
    cpu.clear_flags(0xC3);
    check_if_zero_or_negative_u16(cpu, sum);
    let overflow: bool = ((!(a ^ m) & (a ^ result)) & 0x80) != 0;
    assert((((!(a ^ m) & (a ^ result)) & 0x80) != 0) == ((a >= 128) == (m >= 128) && (a >= 128)
        != (result >= 128))) by (bit_vector);
    cpu.set_flag(StatusFlags::V, overflow);
    cpu.set_flag(StatusFlags::C, sum > 0x00FF);
    cpu.acu = result;
}

/// ADC: adds the operand and the carry to the accumulator. Carry is the
/// ninth bit of the sum; Overflow is set when accumulator and operand have
/// one sign and the result the other; Zero and Negative follow the result.
pub fn adc(cpu: &mut CPU) -> (extra: u8)
    ensures
        final(cpu)@ == old(cpu)@.after_adc(),
        final(cpu).acu == wrap8(
            old(cpu).acu + old(cpu)@.operand() + old(cpu)@.flag_bit(StatusFlags::C),
        ),
        final(cpu)@.flag(StatusFlags::C) == (old(cpu).acu + old(cpu)@.operand() + old(
            cpu,
        )@.flag_bit(StatusFlags::C) > 255),
        final(cpu)@.flag(StatusFlags::V) == overflowed(
            old(cpu).acu,
            old(cpu)@.operand(),
            final(cpu).acu,
        ),
        final(cpu)@.flag(StatusFlags::Z) == (final(cpu).acu == 0),
        final(cpu)@.flag(StatusFlags::N) == (final(cpu).acu >= 128),
        extra == 1,
{
    proof {
        law_add(cpu@);
    }
    cpu.fetch();
    add_to_accumulator(cpu, cpu.fetched);
    1
}

/// SBC: subtracts the operand and the borrow (the inverse of Carry) from
/// the accumulator by adding the operand's one's complement.
pub fn sbc(cpu: &mut CPU) -> (extra: u8)
    ensures
        final(cpu)@ == old(cpu)@.after_sbc(),
        final(cpu).acu == wrap8(
            old(cpu).acu - old(cpu)@.operand() - (1 - old(cpu)@.flag_bit(StatusFlags::C)),
        ),
        final(cpu)@.flag(StatusFlags::C) == (old(cpu).acu - old(cpu)@.operand() - (1 - old(
            cpu,
        )@.flag_bit(StatusFlags::C)) >= 0),
        final(cpu)@.flag(StatusFlags::Z) == (final(cpu).acu == 0),
        final(cpu)@.flag(StatusFlags::N) == (final(cpu).acu >= 128),
        extra == 1,
{
    proof {
        law_subtract(cpu@);
    }
    cpu.fetch();
    let m: u8 = cpu.fetched;
    assert(m ^ 0xFF == 255 - m) by (bit_vector);
    add_to_accumulator(cpu, m ^ 0xFF);
    1
}

/// AND: the accumulator becomes its bitwise AND with the operand; Zero and
/// Negative follow the result.
pub fn and(cpu: &mut CPU) -> (extra: u8)
    ensures
        final(cpu)@ == old(cpu)@.after_and(),
        extra == 1,
{
    cpu.fetch();
    let value: u8 = cpu.get_accumulator() & cpu.fetched;
    update_result_flags(cpu, value);
    cpu.acu = value;
    1
}

/// ASL: shifts the operand left by one bit. Carry receives bit 7; the
/// result goes back to where the operand came from.
pub fn asl(cpu: &mut CPU) -> (extra: u8)
    ensures
        final(cpu)@ == old(cpu)@.after_asl(),
        extra == 0,
{
    cpu.fetch();
    let m: u8 = cpu.fetched;
    let value: u16 = (m as u16) << 1;
    assert((m as u16) << 1 == (m as u16) * 2) by (bit_vector);
    assert((((m as u16) << 1) & 0xFF00 > 0) == (m >= 128)) by (bit_vector);
    cpu.set_flag(StatusFlags::C, (value & 0xFF00) > 0);
    let result: u8 = lower(value);
    update_result_flags(cpu, result);
    store_result(cpu, result);
    0
}

/// BIT: Zero is set when accumulator and operand share no bit; Overflow
/// and Negative copy bits 6 and 7 of the operand.
pub fn bit(cpu: &mut CPU) -> (extra: u8)
    ensures
        final(cpu)@ == old(cpu)@.after_bit(),
        extra == 0,
{
    cpu.fetch();
    let value: u8 = cpu.get_accumulator() & cpu.fetched;
    cpu.set_flag(StatusFlags::Z, value == 0);
    cpu.set_flag(StatusFlags::V, (cpu.fetched & 0x40) != 0);
    cpu.set_flag(StatusFlags::N, (cpu.fetched & 0x80) != 0);
    0
}

/// Takes the branch if `taken`: one more cycle, a second one if the target
/// lies in another page than the program counter, which then moves there.
fn branch(cpu: &mut CPU, taken: bool)
    ensures
        final(cpu)@ == old(cpu)@.after_branch(taken),
{
    if taken {
        cpu.cycles = bump(cpu.cycles, 1);
        cpu.abs_addr = cpu.program_counter.wrapping_add(cpu.rel_addr);
        if upper(cpu.abs_addr) != upper(cpu.program_counter) {
            cpu.cycles = bump(cpu.cycles, 1);
        }
        cpu.program_counter = cpu.abs_addr;
    }
}

/// BCC: branches if Carry is clear. A branch that is taken costs one
/// more cycle, and a second one if it leaves the page.
pub fn bcc(cpu: &mut CPU) -> (extra: u8)
    ensures
        final(cpu)@ == old(cpu)@.after_branch(!old(cpu)@.flag(StatusFlags::C)),
        final(cpu).cycles == wrap8(old(cpu).cycles + old(cpu)@.branch_penalty(!old(cpu)@.flag(StatusFlags::C))),
        extra == 0,
{
    let taken: bool = cpu.get_flag(StatusFlags::C) == 0;
    branch(cpu, taken);
    0
}

/// BCS: branches if Carry is set. A branch that is taken costs one
/// more cycle, and a second one if it leaves the page.
pub fn bcs(cpu: &mut CPU) -> (extra: u8)
    ensures
        final(cpu)@ == old(cpu)@.after_branch(old(cpu)@.flag(StatusFlags::C)),
        final(cpu).cycles == wrap8(old(cpu).cycles + old(cpu)@.branch_penalty(old(cpu)@.flag(StatusFlags::C))),
        extra == 0,
{
    let taken: bool = cpu.get_flag(StatusFlags::C) == 1;
    branch(cpu, taken);
    0
}

/// BEQ: branches if Zero is set. A branch that is taken costs one
/// more cycle, and a second one if it leaves the page.
pub fn beq(cpu: &mut CPU) -> (extra: u8)
    ensures
        final(cpu)@ == old(cpu)@.after_branch(old(cpu)@.flag(StatusFlags::Z)),
        final(cpu).cycles == wrap8(old(cpu).cycles + old(cpu)@.branch_penalty(old(cpu)@.flag(StatusFlags::Z))),
        extra == 0,
{
    let taken: bool = cpu.get_flag(StatusFlags::Z) == 1;
    branch(cpu, taken);
    0
}

/// BMI: branches if Negative is set. A branch that is taken costs one
/// more cycle, and a second one if it leaves the page.
pub fn bmi(cpu: &mut CPU) -> (extra: u8)
    ensures
        final(cpu)@ == old(cpu)@.after_branch(old(cpu)@.flag(StatusFlags::N)),
        final(cpu).cycles == wrap8(old(cpu).cycles + old(cpu)@.branch_penalty(old(cpu)@.flag(StatusFlags::N))),
        extra == 0,
{
    let taken: bool = cpu.get_flag(StatusFlags::N) == 1;
    branch(cpu, taken);
    0
}

/// BNE: branches if Zero is clear. A branch that is taken costs one
/// more cycle, and a second one if it leaves the page.
pub fn bne(cpu: &mut CPU) -> (extra: u8)
    ensures
        final(cpu)@ == old(cpu)@.after_branch(!old(cpu)@.flag(StatusFlags::Z)),
        final(cpu).cycles == wrap8(old(cpu).cycles + old(cpu)@.branch_penalty(!old(cpu)@.flag(StatusFlags::Z))),
        extra == 0,
{
    let taken: bool = cpu.get_flag(StatusFlags::Z) == 0;
    branch(cpu, taken);
    0
}

/// BPL: branches if Negative is clear. A branch that is taken costs one
/// more cycle, and a second one if it leaves the page.
pub fn bpl(cpu: &mut CPU) -> (extra: u8)
    ensures
        final(cpu)@ == old(cpu)@.after_branch(!old(cpu)@.flag(StatusFlags::N)),
        final(cpu).cycles == wrap8(old(cpu).cycles + old(cpu)@.branch_penalty(!old(cpu)@.flag(StatusFlags::N))),
        extra == 0,
{
    let taken: bool = cpu.get_flag(StatusFlags::N) == 0;
    branch(cpu, taken);
    0
}

/// BVC: branches if Overflow is clear. A branch that is taken costs one
/// more cycle, and a second one if it leaves the page.
pub fn bvc(cpu: &mut CPU) -> (extra: u8)
    ensures
        final(cpu)@ == old(cpu)@.after_branch(!old(cpu)@.flag(StatusFlags::V)),
        final(cpu).cycles == wrap8(old(cpu).cycles + old(cpu)@.branch_penalty(!old(cpu)@.flag(StatusFlags::V))),
        extra == 0,
{
    let taken: bool = cpu.get_flag(StatusFlags::V) == 0;
    branch(cpu, taken);
    0
}

/// BVS: branches if Overflow is set. A branch that is taken costs one
/// more cycle, and a second one if it leaves the page.
pub fn bvs(cpu: &mut CPU) -> (extra: u8)
    ensures
        final(cpu)@ == old(cpu)@.after_branch(old(cpu)@.flag(StatusFlags::V)),
        final(cpu).cycles == wrap8(old(cpu).cycles + old(cpu)@.branch_penalty(old(cpu)@.flag(StatusFlags::V))),
        extra == 0,
{
    let taken: bool = cpu.get_flag(StatusFlags::V) == 1;
    branch(cpu, taken);
    0
}

/// Pushes a 16-bit value, high byte first.
pub(crate) fn push_word(cpu: &mut CPU, w: u16)
    ensures
        final(cpu)@ == old(cpu)@.push_word(w),
{
    cpu.push(upper(w));
    cpu.push(lower(w));
}

/// BRK: steps over the byte after the opcode, sets Interrupt-Disable,
/// pushes the program counter and then the status register with Break
/// set, and continues at the address stored at 0xFFFE.
pub fn brk(cpu: &mut CPU) -> (extra: u8)
    ensures
        final(cpu)@ == old(cpu)@.after_brk(),
        extra == 0,
{
    cpu.program_counter = advance(cpu.program_counter, 1);
    cpu.set_flag(StatusFlags::I, true);
    push_word(cpu, cpu.program_counter);
    cpu.set_flag(StatusFlags::B, true);
    cpu.push(cpu.status);
    cpu.program_counter = cpu.read_word(0xFFFE);
    0
}

/// CLC: clears Carry.
pub fn clc(cpu: &mut CPU) -> (extra: u8)
    ensures
        final(cpu)@ == old(cpu)@.without_flags(0x01u8),
        !final(cpu)@.flag(StatusFlags::C),
        extra == 0,
{
    let ghost before: u8 = cpu.status;
    cpu.clear_flags(StatusFlags::C.bit());
    assert((((before & !0x01u8) | 0x20u8) & 0x01u8) == 0) by (bit_vector);
    0
}

/// CLD: clears Decimal.
pub fn cld(cpu: &mut CPU) -> (extra: u8)
    ensures
        final(cpu)@ == old(cpu)@.without_flags(0x08u8),
        !final(cpu)@.flag(StatusFlags::D),
        extra == 0,
{
    let ghost before: u8 = cpu.status;
    cpu.clear_flags(StatusFlags::D.bit());
    assert((((before & !0x08u8) | 0x20u8) & 0x08u8) == 0) by (bit_vector);
    0
}

/// CLI: clears Interrupt-Disable.
pub fn cli(cpu: &mut CPU) -> (extra: u8)
    ensures
        final(cpu)@ == old(cpu)@.without_flags(0x04u8),
        !final(cpu)@.flag(StatusFlags::I),
        extra == 0,
{
    let ghost before: u8 = cpu.status;
    cpu.clear_flags(StatusFlags::I.bit());
    assert((((before & !0x04u8) | 0x20u8) & 0x04u8) == 0) by (bit_vector);
    0
}

/// CLV: clears Overflow.
pub fn clv(cpu: &mut CPU) -> (extra: u8)
    ensures
        final(cpu)@ == old(cpu)@.without_flags(0x40u8),
        !final(cpu)@.flag(StatusFlags::V),
        extra == 0,
{
    let ghost before: u8 = cpu.status;
    cpu.clear_flags(StatusFlags::V.bit());
    assert((((before & !0x40u8) | 0x20u8) & 0x40u8) == 0) by (bit_vector);
    0
}

/// Compares `register` with the operand.
fn compare(cpu: &mut CPU, register: u8)
    ensures
        final(cpu)@ == old(cpu)@.after_compare(register),
{
    cpu.fetch();
    let value: u8 = drop_by(register, cpu.fetched);
    cpu.set_flag(StatusFlags::C, register >= cpu.fetched);
    update_result_flags(cpu, value);
}

/// CMP: compares the accumulator with the operand. Carry is set when the
/// accumulator is not below it; Zero and Negative follow their difference.
pub fn cmp(cpu: &mut CPU) -> (extra: u8)
    ensures
        final(cpu)@ == old(cpu)@.after_compare(old(cpu).acu),
        final(cpu)@.flag(StatusFlags::C) == (old(cpu).acu >= old(cpu)@.operand()),
        final(cpu)@.flag(StatusFlags::Z) == (old(cpu).acu == old(cpu)@.operand()),
        final(cpu)@.flag(StatusFlags::N) == (wrap8(old(cpu).acu - old(cpu)@.operand()) >= 128),
        extra == 1,
{
    proof {
        law_compare_flags(cpu@, cpu.acu);
    }
    compare(cpu, cpu.get_accumulator());
    1
}

/// CPX: compares X with the operand.
pub fn cpx(cpu: &mut CPU) -> (extra: u8)
    ensures
        final(cpu)@ == old(cpu)@.after_compare(old(cpu).regx),
        final(cpu)@.flag(StatusFlags::C) == (old(cpu).regx >= old(cpu)@.operand()),
        final(cpu)@.flag(StatusFlags::Z) == (old(cpu).regx == old(cpu)@.operand()),
        final(cpu)@.flag(StatusFlags::N) == (wrap8(old(cpu).regx - old(cpu)@.operand()) >= 128),
        extra == 0,
{
    proof {
        law_compare_flags(cpu@, cpu.regx);
    }
    compare(cpu, cpu.get_register_x());
    0
}

/// CPY: compares Y with the operand.
pub fn cpy(cpu: &mut CPU) -> (extra: u8)
    ensures
        final(cpu)@ == old(cpu)@.after_compare(old(cpu).regy),
        final(cpu)@.flag(StatusFlags::C) == (old(cpu).regy >= old(cpu)@.operand()),
        final(cpu)@.flag(StatusFlags::Z) == (old(cpu).regy == old(cpu)@.operand()),
        final(cpu)@.flag(StatusFlags::N) == (wrap8(old(cpu).regy - old(cpu)@.operand()) >= 128),
        extra == 0,
{
    proof {
        law_compare_flags(cpu@, cpu.regy);
    }
    compare(cpu, cpu.get_register_y());
    0
}

/// DEC: the byte at the effective address goes down by one, wrapping from
/// 0 to 255; Zero and Negative follow the result.
pub fn dec(cpu: &mut CPU) -> (extra: u8)
    ensures
        final(cpu)@ == old(cpu)@.after_dec(),
        extra == 0,
{
    cpu.fetch();
    let value: u8 = drop_by(cpu.fetched, 1);
    cpu.write(cpu.abs_addr, value);
    update_result_flags(cpu, value);
    0
}

/// DEX: X goes down by one, wrapping; Zero and Negative follow the result.
pub fn dex(cpu: &mut CPU) -> (extra: u8)
    ensures
        final(cpu)@ == old(cpu)@.after_dex(),
        extra == 0,
{
    let value: u8 = drop_by(cpu.get_register_x(), 1);
    cpu.regx = value;
    update_result_flags(cpu, value);
    0
}

/// DEY: Y goes down by one, wrapping; Zero and Negative follow the result.
pub fn dey(cpu: &mut CPU) -> (extra: u8)
    ensures
        final(cpu)@ == old(cpu)@.after_dey(),
        extra == 0,
{
    let value: u8 = drop_by(cpu.get_register_y(), 1);
    cpu.regy = value;
    update_result_flags(cpu, value);
    0
}

/// EOR: the accumulator becomes its bitwise exclusive OR with the operand;
/// Zero and Negative follow the result.
pub fn eor(cpu: &mut CPU) -> (extra: u8)
    ensures
        final(cpu)@ == old(cpu)@.after_eor(),
        extra == 1,
{
    cpu.fetch();
    let value: u8 = cpu.get_accumulator() ^ cpu.fetched;
    cpu.acu = value;
    update_result_flags(cpu, value);
    1
}

/// INC: the byte at the effective address goes up by one, wrapping from
/// 255 to 0; Zero and Negative follow the result.
pub fn inc(cpu: &mut CPU) -> (extra: u8)
    ensures
        final(cpu)@ == old(cpu)@.after_inc(),
        extra == 0,
{
    cpu.fetch();
    let value: u8 = bump(cpu.fetched, 1);
    cpu.write(cpu.abs_addr, value);
    update_result_flags(cpu, value);
    0
}

/// INX: X goes up by one, wrapping; Zero and Negative follow the result.
pub fn inx(cpu: &mut CPU) -> (extra: u8)
    ensures
        final(cpu)@ == old(cpu)@.after_inx(),
        extra == 0,
{
    let value: u8 = bump(cpu.get_register_x(), 1);
    cpu.regx = value;
    update_result_flags(cpu, value);
    0
}

/// INY: Y goes up by one, wrapping; Zero and Negative follow the result.
pub fn iny(cpu: &mut CPU) -> (extra: u8)
    ensures
        final(cpu)@ == old(cpu)@.after_iny(),
        extra == 0,
{
    let value: u8 = bump(cpu.get_register_y(), 1);
    cpu.regy = value;
    update_result_flags(cpu, value);
    0
}

/// JMP: execution continues at the effective address.
pub fn jmp(cpu: &mut CPU) -> (extra: u8)
    ensures
        final(cpu)@ == old(cpu)@.after_jmp(),
        extra == 0,
{
    cpu.program_counter = cpu.abs_addr;
    0
}

/// JSR: pushes the address of the last byte of the instruction, high byte
/// first, and continues at the effective address.
pub fn jsr(cpu: &mut CPU) -> (extra: u8)
    ensures
        final(cpu)@ == old(cpu)@.after_jsr(),
        extra == 0,
{
    cpu.program_counter = cpu.program_counter.wrapping_sub(1);
    push_word(cpu, cpu.program_counter);
    cpu.program_counter = cpu.abs_addr;
    0
}

/// LDA: loads the operand into the accumulator; Zero and Negative follow it.
pub fn lda(cpu: &mut CPU) -> (extra: u8)
    ensures
        final(cpu)@ == old(cpu)@.after_lda(),
        extra == 1,
{
    cpu.fetch();
    cpu.acu = cpu.fetched;
    update_result_flags(cpu, cpu.get_accumulator());
    1
}

/// LDX: loads the operand into X; Zero and Negative follow it.
pub fn ldx(cpu: &mut CPU) -> (extra: u8)
    ensures
        final(cpu)@ == old(cpu)@.after_ldx(),
        extra == 1,
{
    cpu.fetch();
    cpu.regx = cpu.fetched;
    update_result_flags(cpu, cpu.get_register_x());
    1
}

/// LDY: loads the operand into Y; Zero and Negative follow it.
pub fn ldy(cpu: &mut CPU) -> (extra: u8)
    ensures
        final(cpu)@ == old(cpu)@.after_ldy(),
        extra == 1,
{
    cpu.fetch();
    cpu.regy = cpu.fetched;
    update_result_flags(cpu, cpu.get_register_y());
    1
}

/// LSR: shifts the operand right by one bit. Carry receives bit 0; the
/// result goes back to where the operand came from.
pub fn lsr(cpu: &mut CPU) -> (extra: u8)
    ensures
        final(cpu)@ == old(cpu)@.after_lsr(),
        extra == 0,
{
    cpu.fetch();
    let m: u8 = cpu.fetched;
    assert(((m & 0x01) != 0) == (m % 2 == 1)) by (bit_vector);
    assert(m >> 1 == m / 2) by (bit_vector);
    cpu.set_flag(StatusFlags::C, (m & 0x01) != 0);
    let value: u8 = m >> 1;
    update_result_flags(cpu, value);
    store_result(cpu, value);
    0
}

/// NOP: at six opcodes it steps over one operand byte; at every other
/// opcode it changes nothing.
pub fn nop(cpu: &mut CPU) -> (extra: u8)
    ensures
        final(cpu)@ == old(cpu)@.after_nop(),
        !nop_takes_operand(old(cpu).cur_opcode) ==> *final(cpu) == *old(cpu),
        extra == 0,
{
    match cpu.cur_opcode {
        0x1C | 0x3C | 0x5C | 0x7C | 0xDC | 0xFC => {
            cpu.program_counter = advance(cpu.program_counter, 1);
        },
        _ => {},
    }
    0
}

/// ORA: the accumulator becomes its bitwise OR with the operand; Zero and
/// Negative follow the result.
pub fn ora(cpu: &mut CPU) -> (extra: u8)
    ensures
        final(cpu)@ == old(cpu)@.after_ora(),
        extra == 1,
{
    cpu.fetch();
    let value: u8 = cpu.get_accumulator() | cpu.fetched;
    update_result_flags(cpu, value);
    cpu.acu = value;
    1
}

/// ROL: rotates the operand left by one bit through Carry: Carry moves
/// into bit 0 and receives bit 7.
pub fn rol(cpu: &mut CPU) -> (extra: u8)
    ensures
        final(cpu)@ == old(cpu)@.after_rol(),
        extra == 0,
{
    cpu.fetch();
    let m: u8 = cpu.fetched;
    let value: u8 = bump(bump(m, m), cpu.get_flag(StatusFlags::C));
    cpu.set_flag(StatusFlags::C, m >= 0x80);
    update_result_flags(cpu, value);
    store_result(cpu, value);
    0
}

/// ROR: rotates the operand right by one bit through Carry: Carry moves
/// into bit 7 and receives bit 0.
pub fn ror(cpu: &mut CPU) -> (extra: u8)
    ensures
        final(cpu)@ == old(cpu)@.after_ror(),
        extra == 0,
{
    cpu.fetch();
    let m: u8 = cpu.fetched;
    let top: u8 = if cpu.get_flag(StatusFlags::C) == 1 {
        0x80
    } else {
        0x00
    };
    let value: u8 = m / 2 + top;
    cpu.set_flag(StatusFlags::C, m % 2 == 1);
    update_result_flags(cpu, value);
    store_result(cpu, value);
    0
}

/// Pulls one byte: moves the stack pointer up, then reads at the stack address.
fn pull(cpu: &mut CPU) -> (data: u8)
    ensures
        final(cpu)@ == old(cpu)@.pulled(),
        data == final(cpu)@.stack_top(),
{
    cpu.stack_pointer = bump(cpu.stack_pointer, 1);
    cpu.read(cpu.get_stack_address())
}

/// PHA: pushes the accumulator.
pub fn pha(cpu: &mut CPU) -> (extra: u8)
    ensures
        final(cpu)@ == old(cpu)@.after_pha(),
        extra == 0,
{
    cpu.push(cpu.get_accumulator());
    0
}

/// PHP: pushes the status register with Break and the unused bit set;
/// the register itself keeps its value.
pub fn php(cpu: &mut CPU) -> (extra: u8)
    ensures
        final(cpu)@ == old(cpu)@.after_php(),
        extra == 0,
{
    cpu.push(cpu.status | 0x30);
    0
}

/// PLA: pulls the accumulator; Zero and Negative follow it.
pub fn pla(cpu: &mut CPU) -> (extra: u8)
    ensures
        final(cpu)@ == old(cpu)@.after_pla(),
        extra == 0,
{
    let value: u8 = pull(cpu);
    cpu.acu = value;
    update_result_flags(cpu, value);
    0
}

/// PLP: pulls the status register; the unused bit reads 1 afterwards.
pub fn plp(cpu: &mut CPU) -> (extra: u8)
    ensures
        final(cpu)@ == old(cpu)@.after_plp(),
        extra == 0,
{
    let value: u8 = pull(cpu);
    cpu.status = value | 0x20;
    0
}

/// RTI: pulls the status register, with Break clear and the unused bit
/// set, and then the program counter, low byte first.
pub fn rti(cpu: &mut CPU) -> (extra: u8)
    ensures
        final(cpu)@ == old(cpu)@.after_rti(),
        extra == 0,
{
    let status: u8 = pull(cpu);
    let low: u8 = pull(cpu);
    let high: u8 = pull(cpu);
    cpu.status = (status & !0x10) | 0x20;
    cpu.program_counter = join(low, high);
    0
}

/// RTS: pulls the program counter, low byte first, and continues at the
/// byte after it.
pub fn rts(cpu: &mut CPU) -> (extra: u8)
    ensures
        final(cpu)@ == old(cpu)@.after_rts(),
        extra == 0,
{
    let low: u8 = pull(cpu);
    let high: u8 = pull(cpu);
    cpu.program_counter = advance(join(low, high), 1);
    0
}

/// SEC: sets Carry.
pub fn sec(cpu: &mut CPU) -> (extra: u8)
    ensures
        final(cpu)@ == old(cpu)@.with_flag(StatusFlags::C, true),
        extra == 0,
{
    cpu.set_flag(StatusFlags::C, true);
    0
}

/// SED: sets Decimal.
pub fn sed(cpu: &mut CPU) -> (extra: u8)
    ensures
        final(cpu)@ == old(cpu)@.with_flag(StatusFlags::D, true),
        extra == 0,
{
    cpu.set_flag(StatusFlags::D, true);
    0
}

/// SEI: sets Interrupt-Disable.
pub fn sei(cpu: &mut CPU) -> (extra: u8)
    ensures
        final(cpu)@ == old(cpu)@.with_flag(StatusFlags::I, true),
        extra == 0,
{
    cpu.set_flag(StatusFlags::I, true);
    0
}

/// STA: stores the accumulator at the effective address.
pub fn sta(cpu: &mut CPU) -> (extra: u8)
    ensures
        final(cpu)@ == old(cpu)@.after_sta(),
        extra == 0,
{
    cpu.write(cpu.abs_addr, cpu.get_accumulator());
    0
}

/// STX: stores X at the effective address.
pub fn stx(cpu: &mut CPU) -> (extra: u8)
    ensures
        final(cpu)@ == old(cpu)@.after_stx(),
        extra == 0,
{
    cpu.write(cpu.abs_addr, cpu.get_register_x());
    0
}

/// STY: stores Y at the effective address.
pub fn sty(cpu: &mut CPU) -> (extra: u8)
    ensures
        final(cpu)@ == old(cpu)@.after_sty(),
        extra == 0,
{
    cpu.write(cpu.abs_addr, cpu.get_register_y());
    0
}

/// TAX: copies the accumulator to X; Zero and Negative follow it.
pub fn tax(cpu: &mut CPU) -> (extra: u8)
    ensures
        final(cpu)@ == old(cpu)@.after_tax(),
        extra == 0,
{
    cpu.regx = cpu.acu;
    update_result_flags(cpu, cpu.get_register_x());
    0
}

/// TAY: copies the accumulator to Y; Zero and Negative follow it.
pub fn tay(cpu: &mut CPU) -> (extra: u8)
    ensures
        final(cpu)@ == old(cpu)@.after_tay(),
        extra == 0,
{
    cpu.regy = cpu.acu;
    update_result_flags(cpu, cpu.get_register_y());
    0
}

/// TSX: copies the stack pointer to X; Zero and Negative follow it.
pub fn tsx(cpu: &mut CPU) -> (extra: u8)
    ensures
        final(cpu)@ == old(cpu)@.after_tsx(),
        extra == 0,
{
    cpu.regx = cpu.stack_pointer;
    update_result_flags(cpu, cpu.get_register_x());
    0
}

/// TXA: copies X to the accumulator; Zero and Negative follow it.
pub fn txa(cpu: &mut CPU) -> (extra: u8)
    ensures
        final(cpu)@ == old(cpu)@.after_txa(),
        extra == 0,
{
    cpu.acu = cpu.regx;
    update_result_flags(cpu, cpu.get_accumulator());
    0
}

/// TXS: copies X to the stack pointer; no flag changes.
pub fn txs(cpu: &mut CPU) -> (extra: u8)
    ensures
        final(cpu)@ == old(cpu)@.after_txs(),
        extra == 0,
{
    cpu.stack_pointer = cpu.regx;
    0
}

/// TYA: copies Y to the accumulator; Zero and Negative follow it.
pub fn tya(cpu: &mut CPU) -> (extra: u8)
    ensures
        final(cpu)@ == old(cpu)@.after_tya(),
        extra == 0,
{
    cpu.acu = cpu.regy;
    update_result_flags(cpu, cpu.get_accumulator());
    0
}

/// Runs the operation `op` and says whether it accepts an extra cycle (1) or not (0).
pub fn execute(op: Operation, cpu: &mut CPU) -> (extra: u8)
    ensures
        final(cpu)@ == executed(op, old(cpu)@),
        extra == indicator(accepts_extra_cycle(op)),
{
    reveal(executed);
    match op {
        Operation::Adc => adc(cpu),
        Operation::Sbc => sbc(cpu),
        Operation::And => and(cpu),
        Operation::Asl => asl(cpu),
        Operation::Bit => bit(cpu),
        Operation::Bcc => bcc(cpu),
        Operation::Bcs => bcs(cpu),
        Operation::Beq => beq(cpu),
        Operation::Bmi => bmi(cpu),
        Operation::Bne => bne(cpu),
        Operation::Bpl => bpl(cpu),
        Operation::Bvc => bvc(cpu),
        Operation::Bvs => bvs(cpu),
        Operation::Brk => brk(cpu),
        Operation::Clc => clc(cpu),
        Operation::Cld => cld(cpu),
        Operation::Cli => cli(cpu),
        Operation::Clv => clv(cpu),
        Operation::Cmp => cmp(cpu),
        Operation::Cpx => cpx(cpu),
        Operation::Cpy => cpy(cpu),
        Operation::Dec => dec(cpu),
        Operation::Dex => dex(cpu),
        Operation::Dey => dey(cpu),
        Operation::Eor => eor(cpu),
        Operation::Inc => inc(cpu),
        Operation::Inx => inx(cpu),
        Operation::Iny => iny(cpu),
        Operation::Jmp => jmp(cpu),
        Operation::Jsr => jsr(cpu),
        Operation::Lda => lda(cpu),
        Operation::Ldx => ldx(cpu),
        Operation::Ldy => ldy(cpu),
        Operation::Lsr => lsr(cpu),
        Operation::Nop => nop(cpu),
        Operation::Ora => ora(cpu),
        Operation::Pha => pha(cpu),
        Operation::Php => php(cpu),
        Operation::Pla => pla(cpu),
        Operation::Plp => plp(cpu),
        Operation::Rol => rol(cpu),
        Operation::Ror => ror(cpu),
        Operation::Rti => rti(cpu),
        Operation::Rts => rts(cpu),
        Operation::Sec => sec(cpu),
        Operation::Sed => sed(cpu),
        Operation::Sei => sei(cpu),
        Operation::Sta => sta(cpu),
        Operation::Stx => stx(cpu),
        Operation::Sty => sty(cpu),
        Operation::Tax => tax(cpu),
        Operation::Tay => tay(cpu),
        Operation::Tsx => tsx(cpu),
        Operation::Txa => txa(cpu),
        Operation::Txs => txs(cpu),
        Operation::Tya => tya(cpu),
    }
}

} // verus!
