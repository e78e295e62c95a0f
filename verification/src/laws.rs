use vstd::prelude::*;
use crate::cpu::StatusFlags;
use crate::semantics::{
    accepts_extra_cycle, branch_taken, executed, indicator, overflowed, page_differs, resolved,
    wrap32,
};
use crate::state::{high_byte, low_byte, signed8, word, wrap16, wrap8, State};
use crate::table::{fallback, table, AddrMode, Operation};

verus! {

// -------------------------------------------------------------------
// Flags
// -------------------------------------------------------------------

/// After any write to the status register the unused bit reads 1.
pub proof fn law_unused_bit_reads_one(s: State, flag: StatusFlags, enable: bool, flags: u8)
    ensures
        s.with_flag(flag, enable).flag(StatusFlags::G),
        s.without_flags(flags).flag(StatusFlags::G),
{
    let x = s.status;
    let m = flag.mask();
    assert(((x | m | 0x20u8) & 0x20u8) != 0) by (bit_vector);
    assert((((x & !m) | 0x20u8) & 0x20u8) != 0) by (bit_vector);
    assert((((x & !flags) | 0x20u8) & 0x20u8) != 0) by (bit_vector);
}

/// A flag reads what was last written to it, and a write to one flag
/// leaves every other flag but the unused one as it was.
pub proof fn law_flag_write_then_read(s: State, flag: StatusFlags, enable: bool, other: StatusFlags)
    requires
        flag != StatusFlags::G,
    ensures
        s.with_flag(flag, enable).flag(flag) == enable,
        other != flag && other != StatusFlags::G ==> s.with_flag(flag, enable).flag(other)
            == s.flag(other),
{
    let x = s.status;
    let m = flag.mask();
    let o = other.mask();
    assert(m == 1 || m == 2 || m == 4 || m == 8 || m == 16 || m == 64 || m == 128);
    assert((m == 1 || m == 2 || m == 4 || m == 8 || m == 16 || m == 64 || m == 128) ==> ((x | m
        | 0x20u8) & m) != 0 && (((x & !m) | 0x20u8) & m) == 0) by (bit_vector);
    if other != flag && other != StatusFlags::G {
        assert(o == 1 || o == 2 || o == 4 || o == 8 || o == 16 || o == 64 || o == 128);
        assert(o != m);
        assert((m == 1 || m == 2 || m == 4 || m == 8 || m == 16 || m == 64 || m == 128) && (o
            == 1 || o == 2 || o == 4 || o == 8 || o == 16 || o == 64 || o == 128) && o != m ==> ((x
            | m | 0x20u8) & o) == (x & o) && (((x & !m) | 0x20u8) & o) == (x & o))
            by (bit_vector);
    }
}

/// Clearing a set of flags clears exactly the flags in the set.
pub proof fn law_flag_clear(s: State, flags: u8, other: StatusFlags)
    requires
        other != StatusFlags::G,
    ensures
        s.without_flags(flags).flag(other) == (s.flag(other) && flags & other.mask() == 0),
{
    let x = s.status;
    let o = other.mask();
    assert(o == 1 || o == 2 || o == 4 || o == 8 || o == 16 || o == 64 || o == 128);
    assert((o == 1 || o == 2 || o == 4 || o == 8 || o == 16 || o == 64 || o == 128) ==> ((((x
        & !flags) | 0x20u8) & o) != 0) == ((x & o) != 0 && (flags & o) == 0)) by (bit_vector);
}

/// The flags after the accumulator took `addend` and the carry: Carry is
/// set exactly when the sum passes 255, Overflow exactly when the
/// accumulator and the fetched operand had one sign and the result has the
/// other, Zero exactly when the result is 0, Negative exactly when it is
/// 128 or more. Interrupt-Disable, Decimal and Break keep their values.
pub proof fn law_add_flags(s: State, addend: u8)
    ensures
        ({
            let sum = s.acu + addend + s.flag_bit(StatusFlags::C);
            let after = s.add_to_accumulator(addend);
            &&& after.acu == wrap8(sum)
            &&& after.flag(StatusFlags::C) == (sum > 255)
            &&& after.flag(StatusFlags::V) == overflowed(s.acu, s.fetched, after.acu)
            &&& after.flag(StatusFlags::Z) == (after.acu == 0)
            &&& after.flag(StatusFlags::N) == (after.acu >= 128)
            &&& after.flag(StatusFlags::I) == s.flag(StatusFlags::I)
            &&& after.flag(StatusFlags::D) == s.flag(StatusFlags::D)
            &&& after.flag(StatusFlags::B) == s.flag(StatusFlags::B)
        }),
{
    let sum = s.acu + addend + s.flag_bit(StatusFlags::C);
    let result = wrap8(sum);
    let cleared = s.without_flags(0xC3u8);
    let ruled = cleared.with_zero_or_negative(result);
    let judged = ruled.with_flag(StatusFlags::V, overflowed(s.acu, s.fetched, result));
    let carried = judged.with_flag(StatusFlags::C, sum > 255);
    assert(0xC3u8 & 0x01u8 != 0 && 0xC3u8 & 0x02u8 != 0 && 0xC3u8 & 0x40u8 != 0 && 0xC3u8 & 0x80u8
        != 0 && 0xC3u8 & 0x04u8 == 0 && 0xC3u8 & 0x08u8 == 0 && 0xC3u8 & 0x10u8 == 0)
        by (bit_vector);
    assert forall|f: StatusFlags| f != StatusFlags::G implies carried.flag(f) == (match f {
        StatusFlags::C => sum > 255,
        StatusFlags::V => overflowed(s.acu, s.fetched, result),
        StatusFlags::Z => result == 0,
        StatusFlags::N => result >= 128,
        _ => s.flag(f),
    }) by {
        law_flag_clear(s, 0xC3u8, f);
        law_flag_write_then_read(cleared, StatusFlags::Z, true, f);
        law_flag_write_then_read(cleared, StatusFlags::N, true, f);
        law_flag_write_then_read(ruled, StatusFlags::V, overflowed(s.acu, s.fetched, result), f);
        law_flag_write_then_read(judged, StatusFlags::C, sum > 255, f);
    }
    assert(carried.flag(StatusFlags::C) == (sum > 255));
    assert(carried.flag(StatusFlags::V) == overflowed(s.acu, s.fetched, result));
    assert(carried.flag(StatusFlags::Z) == (result == 0));
    assert(carried.flag(StatusFlags::N) == (result >= 128));
    assert(carried.flag(StatusFlags::I) == s.flag(StatusFlags::I));
    assert(carried.flag(StatusFlags::D) == s.flag(StatusFlags::D));
    assert(carried.flag(StatusFlags::B) == s.flag(StatusFlags::B));
}

/// Subtraction with borrow: adding the one's complement of the operand
/// leaves the accumulator minus the operand minus the borrow, modulo 256,
/// where the borrow is 1 when Carry was clear; Carry is set afterwards
/// exactly when nothing had to be borrowed.
pub proof fn law_subtract(s: State)
    ensures
        ({
            let difference = s.acu - s.operand() - (1 - s.flag_bit(StatusFlags::C));
            &&& s.after_sbc().acu == wrap8(difference)
            &&& s.after_sbc().flag(StatusFlags::C) == (difference >= 0)
            &&& s.after_sbc().flag(StatusFlags::Z) == (s.after_sbc().acu == 0)
            &&& s.after_sbc().flag(StatusFlags::N) == (s.after_sbc().acu >= 128)
        }),
{
    let fetched = s.after_fetch();
    law_add_flags(fetched, wrap8(255 - fetched.fetched));
}

/// Addition with carry: the accumulator holds the sum modulo 256, and
/// Carry is set exactly when the sum passed 255.
pub proof fn law_add(s: State)
    ensures
        ({
            let sum = s.acu + s.operand() + s.flag_bit(StatusFlags::C);
            &&& s.after_adc().acu == wrap8(sum)
            &&& s.after_adc().flag(StatusFlags::C) == (sum > 255)
            &&& s.after_adc().flag(StatusFlags::V) == overflowed(
                s.acu,
                s.operand(),
                s.after_adc().acu,
            )
            &&& s.after_adc().flag(StatusFlags::Z) == (s.after_adc().acu == 0)
            &&& s.after_adc().flag(StatusFlags::N) == (s.after_adc().acu >= 128)
        }),
{
    let fetched = s.after_fetch();
    law_add_flags(fetched, fetched.fetched);
}

/// The flags after a comparison: Carry is set exactly when the register
/// is not below the operand, Zero exactly when the two are equal, and
/// Negative exactly when their difference modulo 256 is 128 or more.
/// Nothing else changes but the fetched operand.
pub proof fn law_compare_flags(s: State, register: u8)
    ensures
        ({
            let after = s.after_compare(register);
            &&& after.flag(StatusFlags::C) == (register >= s.operand())
            &&& after.flag(StatusFlags::Z) == (register == s.operand())
            &&& after.flag(StatusFlags::N) == (wrap8(register - s.operand()) >= 128)
            &&& after.flag(StatusFlags::V) == s.flag(StatusFlags::V)
            &&& after.acu == s.acu && after.regx == s.regx && after.regy == s.regy
            &&& after.bus == s.bus
        }),
{
    let fetched = s.after_fetch();
    let difference = wrap8(register - fetched.fetched);
    let carried = fetched.with_flag(StatusFlags::C, register >= fetched.fetched);
    law_zero_or_negative(carried, difference);
    law_flag_write_then_read(fetched, StatusFlags::C, register >= fetched.fetched, StatusFlags::C);
    law_flag_write_then_read(fetched, StatusFlags::C, register >= fetched.fetched, StatusFlags::V);
    law_result_flags_keep_the_rest(carried, difference, StatusFlags::C);
    law_result_flags_keep_the_rest(carried, difference, StatusFlags::V);
}

/// Recomputing Zero and Negative leaves every other flag as it was.
pub proof fn law_result_flags_keep_the_rest(s: State, value: u8, other: StatusFlags)
    requires
        other != StatusFlags::G,
        other != StatusFlags::Z,
        other != StatusFlags::N,
    ensures
        s.with_result_flags(value).flag(other) == s.flag(other),
{
    let cleared = s.without_flags(0x82u8);
    let o = other.mask();
    assert(o == 1 || o == 4 || o == 8 || o == 16 || o == 64);
    assert((o == 1 || o == 4 || o == 8 || o == 16 || o == 64) ==> 0x82u8 & o == 0)
        by (bit_vector);
    law_flag_clear(s, 0x82u8, other);
    law_flag_write_then_read(cleared, StatusFlags::Z, true, other);
    law_flag_write_then_read(cleared, StatusFlags::N, true, other);
}

/// The zero-or-negative rule never leaves Zero and Negative both set when
/// both were clear before, and names the result exactly: Zero for 0,
/// Negative for 128 and above, neither for the rest.
pub proof fn law_zero_or_negative(s: State, value: u8)
    ensures
        s.with_result_flags(value).flag(StatusFlags::Z) == (value == 0),
        s.with_result_flags(value).flag(StatusFlags::N) == (value >= 128),
        !(s.with_result_flags(value).flag(StatusFlags::Z) && s.with_result_flags(value).flag(
            StatusFlags::N,
        )),
{
    let x = s.status;
    let c: u8 = (x & !0x82u8) | 0x20u8;
    assert(s.without_flags(0x82u8).status == c);
    assert(c == (x & !0x82u8) | 0x20u8 ==> (c & 0x02u8) == 0 && (c & 0x80u8) == 0 && ((c | 0x02u8
        | 0x20u8) & 0x02u8) != 0 && ((c | 0x02u8 | 0x20u8) & 0x80u8) == 0 && ((c | 0x80u8
        | 0x20u8) & 0x80u8) != 0 && ((c | 0x80u8 | 0x20u8) & 0x02u8) == 0) by (bit_vector);
}

// -------------------------------------------------------------------
// Operand access
// -------------------------------------------------------------------

/// In implied mode the operand is the accumulator whatever memory holds,
/// and with or without a bus: loading it reads no memory. Memory itself is
/// never changed by loading an operand, in any mode.
pub proof fn law_implied_fetch_reads_no_memory(s: State, memory: Option<Map<u16, u8>>)
    requires
        s.implied(),
    ensures
        (State { bus: memory, ..s }).after_fetch().fetched == s.acu,
        (State { bus: memory, ..s }).after_imp().fetched == s.acu,
        (State { bus: memory, ..s }).after_fetch().bus == memory,
        (State { bus: memory, ..s }).after_fetch() == (State {
            bus: memory,
            ..s.after_fetch()
        }),
{
}

/// The operand depends on at most one byte of memory, the one at the
/// effective address, and in implied mode on none: two memories that
/// agree on that byte give the same operand.
pub proof fn law_fetch_footprint(s: State, first: Map<u16, u8>, second: Map<u16, u8>)
    requires
        s.implied() || first[s.abs_addr] == second[s.abs_addr],
    ensures
        (State { bus: Some(first), ..s }).after_fetch().fetched == (State {
            bus: Some(second),
            ..s
        }).after_fetch().fetched,
{
}

/// Loading the operand twice is the same as loading it once.
pub proof fn law_fetch_is_idempotent(s: State)
    ensures
        s.after_fetch().after_fetch() == s.after_fetch(),
{
}

/// A byte that was written is the byte read back, every other address
/// keeps its byte, and without a bus every read gives 0 whatever was written.
pub proof fn law_write_then_read(s: State, address: u16, data: u8, other: u16)
    ensures
        s.bus is Some ==> s.poke(address, data).peek(address) == data,
        other != address ==> s.poke(address, data).peek(other) == s.peek(other),
        s.bus is None ==> s.poke(address, data) == s && s.peek(other) == 0,
{
}

/// What was pushed last is pulled first, and the stack pointer is back
/// where it was.
pub proof fn law_push_then_pull(s: State, data: u8)
    requires
        s.bus is Some,
    ensures
        s.push(data).pulled().stack_top() == data,
        s.push(data).pulled().stack_pointer == s.stack_pointer,
        s.push(data).stack_address() == 0x0100 + wrap8(s.stack_pointer - 1),
{
}

/// A return from a subroutine continues at the byte after the call.
pub proof fn law_call_then_return(s: State)
    requires
        s.bus is Some,
    ensures
        s.after_jsr().after_rts().program_counter == s.program_counter,
        s.after_jsr().after_rts().stack_pointer == s.stack_pointer,
{
    let w = wrap16(s.program_counter - 1);
    let a = s.step(-1).push(high_byte(w));
    let b = a.push(low_byte(w));
    assert(s.after_jsr().bus == b.bus);
    assert(a.stack_address() != s.stack_address());
    let low = s.after_jsr().pulled();
    assert(low.stack_address() == a.stack_address());
    assert(low.stack_top() == low_byte(w));
    let high = low.pulled();
    assert(high.stack_address() == s.stack_address());
    assert(high.stack_top() == high_byte(w));
    assert(word(low_byte(w), high_byte(w)) == w);
}

/// The indexed modes ask for an extra cycle exactly when the effective
/// address lies in another page than the address before the index was added.
pub proof fn law_indexed_page_crossing(s: State)
    ensures
        resolved(AddrMode::Abx, s).1 == indicator(
            page_differs(wrap16(s.operand_word() + s.regx), s.operand_word()),
        ),
        resolved(AddrMode::Aby, s).1 == indicator(
            page_differs(wrap16(s.operand_word() + s.regy), s.operand_word()),
        ),
        resolved(AddrMode::Indy, s).1 == indicator(
            page_differs(wrap16(s.indy_base() + s.regy), s.indy_base()),
        ),
        resolved(AddrMode::Abx, s).0.abs_addr == wrap16(s.operand_word() + s.regx),
        resolved(AddrMode::Aby, s).0.abs_addr == wrap16(s.operand_word() + s.regy),
        resolved(AddrMode::Indy, s).0.abs_addr == wrap16(s.indy_base() + s.regy),
{
    reveal(resolved);
}

/// A displacement byte below 128 stands for itself; one of 128 or more
/// stands for itself minus 256, kept as a 16-bit value with every bit of
/// the high byte set. Adding the kept value to an address modulo 65536
/// moves the address by the signed displacement.
pub proof fn law_relative_displacement(s: State, address: u16)
    ensures
        s.operand_byte() < 128 ==> s.after_rel().rel_addr == s.operand_byte(),
        s.operand_byte() >= 128 ==> s.after_rel().rel_addr == 0xFF00 + s.operand_byte(),
        wrap16(address + s.after_rel().rel_addr) == wrap16(address + signed8(s.operand_byte())),
{
}

// -------------------------------------------------------------------
// What an instruction leaves alone
// -------------------------------------------------------------------

/// An addressing mode writes no memory and changes no register but the
/// program counter: only the decode scratch values move. It asks for at
/// most one extra cycle.
pub proof fn lemma_resolved_frame(mode: AddrMode, s: State)
    ensures
        resolved(mode, s).0.bus == s.bus,
        resolved(mode, s).0.acu == s.acu,
        resolved(mode, s).0.regx == s.regx,
        resolved(mode, s).0.regy == s.regy,
        resolved(mode, s).0.stack_pointer == s.stack_pointer,
        resolved(mode, s).0.status == s.status,
        resolved(mode, s).0.cur_opcode == s.cur_opcode,
        resolved(mode, s).0.cycles == s.cycles,
        resolved(mode, s).0.clock_count == s.clock_count,
        resolved(mode, s).1 <= 1,
{
    reveal(resolved);
}

/// An operation leaves the opcode and the pulse counter alone, and only a
/// taken branch changes the cycle counter: by one, or by two if it
/// leaves the page.
pub proof fn lemma_executed_frame(op: Operation, s: State)
    ensures
        executed(op, s).cur_opcode == s.cur_opcode,
        executed(op, s).clock_count == s.clock_count,
        executed(op, s).cycles == wrap8(s.cycles + s.branch_penalty(branch_taken(op, s))),
        !branch_taken(op, s) ==> executed(op, s).cycles == s.cycles,
{
    let after = executed(op, s);
    if op.is_branch() {
        lemma_branch_executed(op, s);
    } else {
        assert(!branch_taken(op, s));
        assert(after.cycles == s.cycles && after.cur_opcode == s.cur_opcode && after.clock_count
            == s.clock_count) by {
            lemma_plain_operation_frame(op, s);
        }
    }
}

/// Each of the eight branches is the one conditional branch, taken on its
/// own condition.
pub proof fn lemma_branch_executed(op: Operation, s: State)
    requires
        op.is_branch(),
    ensures
        executed(op, s) == s.after_branch(branch_taken(op, s)),
{
    reveal(executed);
}

/// An operation that is no branch leaves the opcode, the cycle counter and
/// the pulse counter alone.
proof fn lemma_plain_operation_frame(op: Operation, s: State)
    requires
        !op.is_branch(),
    ensures
        executed(op, s).cur_opcode == s.cur_opcode,
        executed(op, s).clock_count == s.clock_count,
        executed(op, s).cycles == s.cycles,
{
    reveal(executed);
    match op {
        Operation::Adc | Operation::Sbc => {},
        Operation::And | Operation::Eor | Operation::Bit => {},
        Operation::Asl | Operation::Lsr => {},
        Operation::Brk | Operation::Jsr | Operation::Jmp | Operation::Nop => {},
        Operation::Clc | Operation::Cld | Operation::Cli | Operation::Clv => {},
        Operation::Cmp | Operation::Cpx | Operation::Cpy => {},
        Operation::Dec | Operation::Inc => {},
        Operation::Dex | Operation::Dey | Operation::Inx | Operation::Iny => {},
        Operation::Lda | Operation::Ldx | Operation::Ldy => {},
        Operation::Ora | Operation::Rol | Operation::Ror => {},
        Operation::Pha | Operation::Php | Operation::Pla | Operation::Plp => {},
        Operation::Rti | Operation::Rts => {},
        Operation::Sec | Operation::Sed | Operation::Sei => {},
        Operation::Sta | Operation::Stx | Operation::Sty => {},
        Operation::Tax | Operation::Tay | Operation::Tsx => {},
        Operation::Txa | Operation::Txs | Operation::Tya => {},
        _ => {},
    }
}

// -------------------------------------------------------------------
// The clock
// -------------------------------------------------------------------

/// The branches sit at the opcodes whose low five bits are 10000; each
/// is in relative mode and costs two cycles before it is taken.
pub proof fn law_branch_entries(opcode: u8)
    ensures
        table(opcode).operate.is_branch() <==> opcode % 32 == 16,
        table(opcode).operate.is_branch() ==> table(opcode).addr_mode == AddrMode::Rel
            && table(opcode).cycles == 2,
{
    reveal(table);
}

/// Every entry carries the mnemonic of its operation, and an entry that
/// is a no-operation is the fallback: implied mode at two cycles.
pub proof fn law_table_entries(opcode: u8)
    ensures
        table(opcode).name == table(opcode).operate.mnemonic(),
        table(opcode).operate == Operation::Nop ==> table(opcode) == fallback(),
{
    reveal(table);
}

/// Every entry of the opcode table costs between two and seven cycles.
pub proof fn lemma_base_cost(opcode: u8)
    ensures
        2 <= table(opcode).cycles <= 7,
{
    reveal(table);
}

/// An idle processor that receives a pulse holds, before the pulse is
/// counted, the whole cost of the instruction in its cycle counter:
/// between 2 and 10 cycles. The pulse itself uses up one of them.
pub proof fn law_instruction_cost(s: State)
    requires
        s.cycles == 0,
    ensures
        2 <= s.cost() <= 10,
        s.after_instruction().cycles == s.cost(),
        s.after_instruction().clock_count == s.clock_count,
        s.after_instruction().flag(StatusFlags::G),
        s.after_clock().cycles == s.cost() - 1,
{
    let last = executed(table(s.decoded().cur_opcode).operate, s.decoded().addressed());
    law_unused_bit_reads_one(
        State { cycles: wrap8(last.cycles + indicator(s.extra_cycle_granted())), ..last },
        StatusFlags::G,
        true,
        0u8,
    );
    let d = s.decoded();
    let inst = table(d.cur_opcode);
    lemma_base_cost(d.cur_opcode);
    lemma_resolved_frame(inst.addr_mode, d);
    lemma_executed_frame(inst.operate, d.addressed());
}

/// The pulse counter goes up by exactly one with every pulse, whether an
/// instruction is in flight or not, until it wraps at 2^32.
pub proof fn law_pulse_counts_once(s: State)
    ensures
        s.after_clock().clock_count == wrap32(s.clock_count + 1),
        s.clock_count < u32::MAX ==> s.after_clock().clock_count == s.clock_count + 1,
{
    if s.cycles == 0 {
        law_instruction_cost(s);
    }
}

/// While an instruction is in flight a pulse does nothing but count
/// itself and use up one cycle.
pub proof fn law_busy_pulse(s: State)
    requires
        s.cycles > 0,
    ensures
        s.after_clock() == (State {
            cycles: (s.cycles - 1) as u8,
            clock_count: wrap32(s.clock_count + 1),
            ..s
        }),
{
}

/// An instruction that costs N cycles occupies exactly N pulses: counted
/// from an idle processor, the cycle counter holds N - k after k pulses,
/// so it is zero again after the N-th pulse and not before.
pub proof fn law_instruction_occupies_its_cost(s: State, k: nat)
    requires
        s.cycles == 0,
        1 <= k <= s.cost(),
    ensures
        s.after_pulses(k).cycles == s.cost() - k,
        (s.after_pulses(k).cycles == 0) == (k == s.cost()),
    decreases k,
{
    law_instruction_cost(s);
    reveal_with_fuel(State::after_pulses, 2);
    if k == 1 {
        assert(s.after_pulses(1) == s.after_clock());
    } else {
        law_instruction_occupies_its_cost(s, (k - 1) as nat);
        law_busy_pulse(s.after_pulses((k - 1) as nat));
    }
}

/// An instruction with a base cost of two cycles that is granted nothing
/// more is in flight after the first pulse and complete after the second.
pub proof fn law_two_cycle_instruction(s: State)
    requires
        s.cycles == 0,
        table(s.operand_byte()).cycles == 2,
        s.cost() == 2,
    ensures
        s.after_clock().cycles == 1,
        s.after_clock().after_clock().cycles == 0,
        s.clock_count < u32::MAX - 1 ==> s.after_clock().after_clock().clock_count
            == s.clock_count + 2,
{
    law_instruction_cost(s);
    law_busy_pulse(s.after_clock());
    law_pulse_counts_once(s);
}

/// A branch costs its base cost if it is not taken, one cycle more if it
/// is taken within the page, and two more if it is taken into another page.
pub proof fn law_branch_cost(s: State)
    requires
        s.cycles == 0,
        table(s.operand_byte()).operate.is_branch(),
    ensures
        ({
            let before = s.decoded().addressed();
            let inst = table(s.operand_byte());
            let taken = branch_taken(inst.operate, before);
            let target = wrap16(before.program_counter + before.rel_addr);
            &&& !taken ==> s.after_instruction().cycles == inst.cycles
            &&& taken && !page_differs(target, before.program_counter)
                ==> s.after_instruction().cycles == inst.cycles + 1
            &&& taken && page_differs(target, before.program_counter)
                ==> s.after_instruction().cycles == inst.cycles + 2
            &&& taken ==> s.after_instruction().program_counter == target
            &&& !taken ==> s.after_instruction().program_counter == before.program_counter
        }),
{
    law_instruction_cost(s);
    let d = s.decoded();
    let inst = table(d.cur_opcode);
    assert(!accepts_extra_cycle(inst.operate));
    lemma_resolved_frame(inst.addr_mode, d);
    lemma_branch_executed(inst.operate, d.addressed());
}

// -------------------------------------------------------------------
// The unused bit
// -------------------------------------------------------------------

/// A byte with the unused bit OR-ed in has the unused bit set.
proof fn lemma_unused_bit_sticks()
    ensures
        forall|x: u8| (#[trigger] (x | 0x20u8)) & 0x20u8 != 0,
{
    assert forall|x: u8| (#[trigger] (x | 0x20u8)) & 0x20u8 != 0 by {
        assert((x | 0x20u8) & 0x20u8 != 0) by (bit_vector);
    }
}

/// No operation clears the unused bit.
pub proof fn law_operations_keep_the_unused_bit(op: Operation, s: State)
    requires
        s.flag(StatusFlags::G),
    ensures
        executed(op, s).flag(StatusFlags::G),
{
    reveal(executed);
    lemma_unused_bit_sticks();
    if op.is_branch() {
        lemma_branch_executed(op, s);
    } else {
        match op {
            Operation::Adc | Operation::Sbc => {},
            Operation::And | Operation::Eor | Operation::Ora | Operation::Bit => {},
            Operation::Asl | Operation::Lsr | Operation::Rol | Operation::Ror => {},
            Operation::Brk | Operation::Jsr | Operation::Jmp | Operation::Nop => {},
            Operation::Clc | Operation::Cld | Operation::Cli | Operation::Clv => {},
            Operation::Sec | Operation::Sed | Operation::Sei => {},
            Operation::Cmp | Operation::Cpx | Operation::Cpy => {},
            Operation::Dec | Operation::Inc => {},
            Operation::Dex | Operation::Dey | Operation::Inx | Operation::Iny => {},
            Operation::Lda | Operation::Ldx | Operation::Ldy => {},
            Operation::Pha | Operation::Php | Operation::Pla | Operation::Plp => {},
            Operation::Rti | Operation::Rts => {},
            Operation::Sta | Operation::Stx | Operation::Sty => {},
            Operation::Tax | Operation::Tay | Operation::Tsx => {},
            Operation::Txa | Operation::Txs | Operation::Tya => {},
            _ => {},
        }
    }
}

/// The unused bit reads 1 in a new processor and after a reset, and once
/// it is set neither a clock pulse nor an interrupt clears it.
pub proof fn law_unused_bit_is_kept(s: State)
    ensures
        s.after_reset().flag(StatusFlags::G),
        s.cycles == 0 ==> s.after_clock().flag(StatusFlags::G),
        s.flag(StatusFlags::G) ==> s.after_clock().flag(StatusFlags::G),
        s.flag(StatusFlags::G) ==> s.after_interrupt_request().flag(StatusFlags::G),
        s.after_non_maskable_input().flag(StatusFlags::G),
{
    lemma_unused_bit_sticks();
    assert(0x20u8 & 0x20u8 != 0) by (bit_vector);
    if s.cycles == 0 {
        law_instruction_cost(s);
    }
}

// -------------------------------------------------------------------
// Interrupts
// -------------------------------------------------------------------

/// While Interrupt-Disable is set the maskable interrupt changes nothing.
pub proof fn law_masked_interrupt_has_no_effect(s: State)
    requires
        s.flag(StatusFlags::I),
    ensures
        s.after_interrupt_request() == s,
{
}

/// The non-maskable interrupt always has an effect, whatever
/// Interrupt-Disable holds: three bytes are pushed, so the stack pointer
/// moves; eight cycles remain; Interrupt-Disable is set afterwards. The
/// maskable interrupt does the same, with seven cycles, when
/// Interrupt-Disable is clear.
pub proof fn law_interrupt_entry(s: State)
    ensures
        s.after_non_maskable_input() != s,
        s.after_non_maskable_input().stack_pointer == wrap8(s.stack_pointer - 3),
        s.after_non_maskable_input().cycles == 8,
        s.after_non_maskable_input().flag(StatusFlags::I),
        !s.after_non_maskable_input().flag(StatusFlags::B),
        !s.flag(StatusFlags::I) ==> s.after_interrupt_request().stack_pointer == wrap8(
            s.stack_pointer - 3,
        ) && s.after_interrupt_request().cycles == 7 && s.after_interrupt_request().flag(
            StatusFlags::I,
        ),
{
    let x = s.status;
    let y: u8 = ((((x & !0x10u8) | 0x20u8) | 0x20u8 | 0x20u8) | 0x04u8 | 0x20u8);
    assert(s.interrupted(0xFFFAu16, 8u8).status == y);
    assert(s.interrupted(0xFFFEu16, 7u8).status == y);
    assert(y == ((((x & !0x10u8) | 0x20u8) | 0x20u8 | 0x20u8) | 0x04u8 | 0x20u8) ==> (y & 0x04u8)
        != 0 && (y & 0x10u8) == 0) by (bit_vector);
}

/// A reset writes no memory and leaves the processor with the stack
/// pointer at 0xFD, the unused bit alone in the status register, eight
/// cycles to go, and the program counter loaded from 0xFFFC and 0xFFFD.
pub proof fn law_reset(s: State)
    ensures
        s.after_reset().bus == s.bus,
        s.after_reset().stack_pointer == 0xFD,
        s.after_reset().status == 0x20,
        s.after_reset().cycles == 8,
        s.after_reset().program_counter == s.peek(0xFFFCu16) + 256 * s.peek(0xFFFDu16),
{
}

} // verus!
