use vstd::prelude::*;
use crate::cpu::StatusFlags;
use crate::state::{high_byte, low_byte, signed8, word, wrap16, wrap8, State};
use crate::table::{table, AddrMode, Operation};

verus! {

/// `v` reduced modulo 2^32: the value the pulse counter holds after wrapping.
pub open spec fn wrap32(v: int) -> u32 {
    (v % 0x1_0000_0000) as u32
}

/// Whether two addresses lie in different 256-byte pages.
pub open spec fn page_differs(a: u16, b: u16) -> bool {
    high_byte(a) != high_byte(b)
}

/// 1 if `condition` holds, else 0.
pub open spec fn indicator(condition: bool) -> u8 {
    if condition {
        1u8
    } else {
        0u8
    }
}

/// Whether bit 7 of a byte, its sign as a two's-complement number, is set.
pub open spec fn negative(b: u8) -> bool {
    b >= 128
}

/// The overflow rule of the adder: both inputs have the same sign and the
/// result has the other one.
pub open spec fn overflowed(accumulator: u8, operand: u8, result: u8) -> bool {
    negative(accumulator) == negative(operand) && negative(accumulator) != negative(result)
}

/// The opcodes at which a no-operation takes one operand byte.
pub open spec fn nop_takes_operand(opcode: u8) -> bool {
    opcode == 0x1C || opcode == 0x3C || opcode == 0x5C || opcode == 0x7C || opcode == 0xDC
        || opcode == 0xFC
}

impl State {
    // ---------------------------------------------------------------
    // Addressing modes
    // ---------------------------------------------------------------

    /// The program counter moved forward by `n`, wrapping at the top of memory.
    pub open spec fn step(self, n: int) -> State {
        State { program_counter: wrap16(self.program_counter + n), ..self }
    }

    /// The byte the program counter points at.
    pub open spec fn operand_byte(self) -> u8 {
        self.peek(self.program_counter)
    }

    /// The two-byte address the program counter points at.
    pub open spec fn operand_word(self) -> u16 {
        self.peek_word(self.program_counter)
    }

    /// The 16-bit pointer stored in the zero page at `pointer`; its high
    /// byte is read from `pointer + 1` within page zero.
    pub open spec fn zero_page_word(self, pointer: u8) -> u16 {
        word(self.peek(pointer as u16), self.peek(wrap8(pointer + 1) as u16))
    }

    /// Implied mode: the accumulator becomes the operand.
    pub open spec fn after_imp(self) -> State {
        State { fetched: self.acu, ..self }
    }

    /// Immediate mode: the effective address is the program counter, which
    /// moves on by one.
    pub open spec fn after_imm(self) -> State {
        State { abs_addr: self.program_counter, ..self }.step(1)
    }

    /// Absolute mode: the effective address is the two-byte address at the
    /// program counter.
    pub open spec fn after_abs(self) -> State {
        State { abs_addr: self.operand_word(), ..self }.step(2)
    }

    /// Absolute mode indexed by `index`.
    pub open spec fn after_indexed(self, index: u8) -> State {
        State { abs_addr: wrap16(self.operand_word() + index), ..self }.step(2)
    }

    /// Relative mode: the byte at the program counter, read as a signed
    /// number, is kept modulo 65536.
    pub open spec fn after_rel(self) -> State {
        State { rel_addr: wrap16(signed8(self.operand_byte())), ..self }.step(1)
    }

    /// Zero-page mode: the effective address is the byte at the program
    /// counter.
    pub open spec fn after_zp0(self) -> State {
        State { abs_addr: self.operand_byte() as u16, ..self }.step(1)
    }

    /// Zero-page mode indexed by `index`: the sum stays within page zero.
    pub open spec fn after_zero_page_indexed(self, index: u8) -> State {
        State { abs_addr: wrap8(self.operand_byte() + index) as u16, ..self }.step(1)
    }

    /// Indirect-X mode: the effective address is the pointer stored in page
    /// zero at the operand byte plus X.
    pub open spec fn after_indx(self) -> State {
        State {
            abs_addr: self.zero_page_word(wrap8(self.operand_byte() + self.regx)),
            ..self
        }.step(1)
    }

    /// The address the zero-page pointer of indirect-Y mode holds, before Y is added.
    pub open spec fn indy_base(self) -> u16 {
        self.zero_page_word(self.operand_byte())
    }

    /// Indirect-Y mode: the effective address is the pointer stored in page
    /// zero at the operand byte, plus Y.
    pub open spec fn after_indy(self) -> State {
        State { abs_addr: wrap16(self.indy_base() + self.regy), ..self }.step(1)
    }

    /// The 16-bit value that the pointer at `pointer` holds, as the indirect
    /// jump reads it: the high byte comes from the pointer's own page, so a
    /// pointer in the last byte of a page has its high byte in the first.
    pub open spec fn pointer_target(self, pointer: u16) -> u16 {
        word(
            self.peek(pointer),
            self.peek(word(wrap8(low_byte(pointer) + 1), high_byte(pointer))),
        )
    }

    /// Indirect mode: the effective address is what the pointer at the
    /// program counter holds.
    pub open spec fn after_ind(self) -> State {
        State { abs_addr: self.pointer_target(self.operand_word()), ..self }.step(2)
    }

    // ---------------------------------------------------------------
    // Operand access
    // ---------------------------------------------------------------

    /// Whether the instruction in flight takes the accumulator as its operand.
    pub open spec fn implied(self) -> bool {
        table(self.cur_opcode).addr_mode == AddrMode::Imp
    }

    /// The operand of the instruction in flight: the accumulator in implied
    /// mode, else the byte at the effective address.
    pub open spec fn operand(self) -> u8 {
        if self.implied() {
            self.acu
        } else {
            self.peek(self.abs_addr)
        }
    }

    /// The operand loaded into `fetched`; nothing else changes.
    pub open spec fn after_fetch(self) -> State {
        State { fetched: self.operand(), ..self }
    }

    /// A result stored where the operand came from: in the accumulator in
    /// implied mode, else at the effective address.
    pub open spec fn store_result(self, value: u8) -> State {
        if self.implied() {
            State { acu: value, ..self }
        } else {
            self.poke(self.abs_addr, value)
        }
    }

    // ---------------------------------------------------------------
    // Operations
    // ---------------------------------------------------------------

    /// The accumulator plus `addend` plus the carry, as the adder sees it:
    /// Carry is the ninth bit of the sum, Overflow follows the fetched
    /// operand, Zero and Negative follow the low byte of the sum.
    pub open spec fn add_to_accumulator(self, addend: u8) -> State {
        let sum = self.acu + addend + self.flag_bit(StatusFlags::C);
        let result = wrap8(sum);
        State {
            acu: result,
            ..self.without_flags(0xC3u8).with_zero_or_negative(result).with_flag(
                StatusFlags::V,
                overflowed(self.acu, self.fetched, result),
            ).with_flag(StatusFlags::C, sum > 255)
        }
    }

    /// ADC: the operand and the carry are added to the accumulator.
    pub open spec fn after_adc(self) -> State {
        let s = self.after_fetch();
        s.add_to_accumulator(s.fetched)
    }

    /// SBC: the one's complement of the operand and the carry are added to
    /// the accumulator.
    pub open spec fn after_sbc(self) -> State {
        let s = self.after_fetch();
        s.add_to_accumulator(wrap8(255 - s.fetched))
    }

    /// AND: accumulator and operand are combined bit by bit; Zero and
    /// Negative follow the result.
    pub open spec fn after_and(self) -> State {
        let s = self.after_fetch();
        let result = s.acu & s.fetched;
        State { acu: result, ..s.with_result_flags(result) }
    }

    /// EOR: accumulator and operand are combined by exclusive OR; Zero and
    /// Negative follow the result.
    pub open spec fn after_eor(self) -> State {
        let s = self.after_fetch();
        let result = s.acu ^ s.fetched;
        State { acu: result, ..s.with_result_flags(result) }
    }

    /// ASL: the operand is doubled modulo 256 and stored back; Carry receives
    /// its bit 7.
    pub open spec fn after_asl(self) -> State {
        let s = self.after_fetch();
        let result = wrap8(s.fetched * 2);
        s.with_flag(StatusFlags::C, s.fetched >= 128).with_result_flags(result).store_result(
            result,
        )
    }

    /// LSR: the operand is halved and stored back; Carry receives its bit 0.
    pub open spec fn after_lsr(self) -> State {
        let s = self.after_fetch();
        let result = s.fetched / 2;
        s.with_flag(StatusFlags::C, s.fetched % 2 == 1).with_result_flags(result).store_result(
            result,
        )
    }

    /// BIT: Zero says that accumulator and operand share no bit; Overflow and
    /// Negative copy bits 6 and 7 of the operand.
    pub open spec fn after_bit(self) -> State {
        let s = self.after_fetch();
        s.with_flag(StatusFlags::Z, s.acu & s.fetched == 0).with_flag(
            StatusFlags::V,
            s.fetched & 0x40 != 0,
        ).with_flag(StatusFlags::N, s.fetched & 0x80 != 0)
    }

    /// The target of a taken branch.
    pub open spec fn branch_target(self) -> u16 {
        wrap16(self.program_counter + self.rel_addr)
    }

    /// The extra pulses a branch costs: none if not taken, one if taken,
    /// two if taken into another page.
    pub open spec fn branch_penalty(self, taken: bool) -> int {
        if !taken {
            0
        } else if page_differs(self.branch_target(), self.program_counter) {
            2
        } else {
            1
        }
    }

    /// A conditional branch that is taken exactly when `taken` holds.
    pub open spec fn after_branch(self, taken: bool) -> State {
        if taken {
            State {
                cycles: wrap8(self.cycles + self.branch_penalty(taken)),
                abs_addr: self.branch_target(),
                program_counter: self.branch_target(),
                ..self
            }
        } else {
            self
        }
    }

    /// The program counter is pushed, then the status register, and the
    /// program counter is loaded from `vector`.
    pub open spec fn enter_handler(self, vector: u16) -> State {
        let s = self.push_word(self.program_counter);
        let s = s.push(s.status);
        State { program_counter: s.peek_word(vector), ..s }
    }

    /// BRK: the program counter steps over one byte and is pushed after
    /// Interrupt-Disable is set; the status register is pushed with Break
    /// set; execution continues at the address stored at 0xFFFE.
    pub open spec fn after_brk(self) -> State {
        let s = self.step(1).with_flag(StatusFlags::I, true);
        let s = s.push_word(s.program_counter).with_flag(StatusFlags::B, true);
        let s = s.push(s.status);
        State { program_counter: s.peek_word(0xFFFEu16), ..s }
    }

    /// `register` compared with the operand: Carry says that the register
    /// is not below it, Zero and Negative follow their difference.
    pub open spec fn after_compare(self, register: u8) -> State {
        let s = self.after_fetch();
        s.with_flag(StatusFlags::C, register >= s.fetched).with_result_flags(
            wrap8(register - s.fetched),
        )
    }

    /// DEC: the operand minus one, modulo 256, is stored at the effective
    /// address.
    pub open spec fn after_dec(self) -> State {
        let s = self.after_fetch();
        let result = wrap8(s.fetched - 1);
        s.poke(s.abs_addr, result).with_result_flags(result)
    }

    /// INC: the operand plus one, modulo 256, is stored at the effective
    /// address.
    pub open spec fn after_inc(self) -> State {
        let s = self.after_fetch();
        let result = wrap8(s.fetched + 1);
        s.poke(s.abs_addr, result).with_result_flags(result)
    }

    /// DEX: X minus one, modulo 256.
    pub open spec fn after_dex(self) -> State {
        let result = wrap8(self.regx - 1);
        State { regx: result, ..self.with_result_flags(result) }
    }

    /// DEY: Y minus one, modulo 256.
    pub open spec fn after_dey(self) -> State {
        let result = wrap8(self.regy - 1);
        State { regy: result, ..self.with_result_flags(result) }
    }

    /// INX: X plus one, modulo 256.
    pub open spec fn after_inx(self) -> State {
        let result = wrap8(self.regx + 1);
        State { regx: result, ..self.with_result_flags(result) }
    }

    /// INY: Y plus one, modulo 256.
    pub open spec fn after_iny(self) -> State {
        let result = wrap8(self.regy + 1);
        State { regy: result, ..self.with_result_flags(result) }
    }

    /// JMP: the program counter becomes the effective address.
    pub open spec fn after_jmp(self) -> State {
        State { program_counter: self.abs_addr, ..self }
    }

    /// JSR: the program counter minus one is pushed, high byte first; the
    /// program counter becomes the effective address.
    pub open spec fn after_jsr(self) -> State {
        let s = self.step(-1);
        State { program_counter: s.abs_addr, ..s.push_word(s.program_counter) }
    }

    /// LDA: the operand goes to the accumulator.
    pub open spec fn after_lda(self) -> State {
        let s = self.after_fetch();
        State { acu: s.fetched, ..s.with_result_flags(s.fetched) }
    }

    /// LDX: the operand goes to X.
    pub open spec fn after_ldx(self) -> State {
        let s = self.after_fetch();
        State { regx: s.fetched, ..s.with_result_flags(s.fetched) }
    }

    /// LDY: the operand goes to Y.
    pub open spec fn after_ldy(self) -> State {
        let s = self.after_fetch();
        State { regy: s.fetched, ..s.with_result_flags(s.fetched) }
    }

    /// ORA: accumulator and operand are combined by OR; Zero and Negative
    /// follow the result.
    pub open spec fn after_ora(self) -> State {
        let s = self.after_fetch();
        let result = s.acu | s.fetched;
        State { acu: result, ..s.with_result_flags(result) }
    }

    /// ROL: the operand is doubled modulo 256, Carry moves into bit 0 and
    /// receives bit 7.
    pub open spec fn after_rol(self) -> State {
        let s = self.after_fetch();
        let result = wrap8(s.fetched * 2 + s.flag_bit(StatusFlags::C));
        s.with_flag(StatusFlags::C, s.fetched >= 128).with_result_flags(result).store_result(
            result,
        )
    }

    /// ROR: the operand is halved, Carry moves into bit 7 and receives bit 0.
    pub open spec fn after_ror(self) -> State {
        let s = self.after_fetch();
        let result = wrap8(s.fetched / 2 + 128 * s.flag_bit(StatusFlags::C));
        s.with_flag(StatusFlags::C, s.fetched % 2 == 1).with_result_flags(result).store_result(
            result,
        )
    }

    /// The state after one byte is pulled: the stack pointer moves up by
    /// one, wrapping within its page, and then names the byte pulled.
    pub open spec fn pulled(self) -> State {
        State { stack_pointer: wrap8(self.stack_pointer + 1), ..self }
    }

    /// The byte at the stack address.
    pub open spec fn stack_top(self) -> u8 {
        self.peek(self.stack_address())
    }

    /// PHA: the accumulator is pushed.
    pub open spec fn after_pha(self) -> State {
        self.push(self.acu)
    }

    /// PHP: the status register is pushed with Break and the unused bit set.
    pub open spec fn after_php(self) -> State {
        self.push(self.status | 0x30u8)
    }

    /// PLA: the accumulator is pulled; Zero and Negative follow it.
    pub open spec fn after_pla(self) -> State {
        let s = self.pulled();
        State { acu: s.stack_top(), ..s.with_result_flags(s.stack_top()) }
    }

    /// PLP: the status register is pulled; the unused bit reads 1.
    pub open spec fn after_plp(self) -> State {
        let s = self.pulled();
        State { status: s.stack_top() | 0x20u8, ..s }
    }

    /// RTI: the status register is pulled, with Break clear, then the program
    /// counter, low byte first.
    pub open spec fn after_rti(self) -> State {
        let s = self.pulled();
        let low = s.pulled();
        let high = low.pulled();
        State {
            status: (s.stack_top() & !0x10u8) | 0x20u8,
            program_counter: word(low.stack_top(), high.stack_top()),
            ..high
        }
    }

    /// RTS: the program counter is pulled, low byte first, and moves on by
    /// one.
    pub open spec fn after_rts(self) -> State {
        let low = self.pulled();
        let high = low.pulled();
        State { program_counter: wrap16(word(low.stack_top(), high.stack_top()) + 1), ..high }
    }

    /// STA: the accumulator is stored at the effective address.
    pub open spec fn after_sta(self) -> State {
        self.poke(self.abs_addr, self.acu)
    }

    /// STX: X is stored at the effective address.
    pub open spec fn after_stx(self) -> State {
        self.poke(self.abs_addr, self.regx)
    }

    /// STY: Y is stored at the effective address.
    pub open spec fn after_sty(self) -> State {
        self.poke(self.abs_addr, self.regy)
    }

    /// TAX: X becomes the accumulator.
    pub open spec fn after_tax(self) -> State {
        State { regx: self.acu, ..self.with_result_flags(self.acu) }
    }

    /// TAY: Y becomes the accumulator.
    pub open spec fn after_tay(self) -> State {
        State { regy: self.acu, ..self.with_result_flags(self.acu) }
    }

    /// TSX: X becomes the stack pointer.
    pub open spec fn after_tsx(self) -> State {
        State { regx: self.stack_pointer, ..self.with_result_flags(self.stack_pointer) }
    }

    /// TXA: the accumulator becomes X.
    pub open spec fn after_txa(self) -> State {
        State { acu: self.regx, ..self.with_result_flags(self.regx) }
    }

    /// TXS: the stack pointer becomes X; no flag changes.
    pub open spec fn after_txs(self) -> State {
        State { stack_pointer: self.regx, ..self }
    }

    /// TYA: the accumulator becomes Y.
    pub open spec fn after_tya(self) -> State {
        State { acu: self.regy, ..self.with_result_flags(self.regy) }
    }

    /// NOP: at six opcodes the program counter moves on by one; at every
    /// other opcode nothing changes.
    pub open spec fn after_nop(self) -> State {
        if nop_takes_operand(self.cur_opcode) {
            self.step(1)
        } else {
            self
        }
    }

    // ---------------------------------------------------------------
    // Reset and interrupts
    // ---------------------------------------------------------------

    /// Reset: registers and scratch values are cleared, the stack pointer is
    /// 0xFD, only the unused bit is set, the program counter comes from
    /// 0xFFFC and 0xFFFD, eight cycles remain. Memory is not written.
    pub open spec fn after_reset(self) -> State {
        State {
            status: 0x20u8,
            stack_pointer: 0xFDu8,
            regx: 0u8,
            regy: 0u8,
            acu: 0u8,
            abs_addr: 0u16,
            rel_addr: 0u16,
            fetched: 0u8,
            program_counter: self.peek_word(0xFFFCu16),
            cycles: 8u8,
            ..self
        }
    }

    /// The entry sequence shared by both interrupts: the program counter is
    /// pushed, then the status register with Break clear and
    /// Interrupt-Disable set; execution continues at the address stored at
    /// `vector`, after `cycles` pulses.
    pub open spec fn interrupted(self, vector: u16, cycles: u8) -> State {
        let s = self.push_word(self.program_counter).with_flag(StatusFlags::B, false).with_flag(
            StatusFlags::G,
            true,
        ).with_flag(StatusFlags::I, true);
        let s = s.push(s.status);
        State { program_counter: s.peek_word(vector), cycles, ..s }
    }

    /// The maskable interrupt: nothing while Interrupt-Disable is set, else
    /// the entry sequence through 0xFFFE with seven cycles.
    pub open spec fn after_interrupt_request(self) -> State {
        if self.flag(StatusFlags::I) {
            self
        } else {
            self.interrupted(0xFFFEu16, 7u8)
        }
    }

    /// The non-maskable interrupt: the entry sequence through 0xFFFA with
    /// eight cycles, whatever Interrupt-Disable holds.
    pub open spec fn after_non_maskable_input(self) -> State {
        self.interrupted(0xFFFAu16, 8u8)
    }
}

/// The state after the addressing mode `mode` has run, and whether it
/// asks for an extra cycle (1) or not (0).
#[verifier::opaque]
pub open spec fn resolved(mode: AddrMode, s: State) -> (State, u8) {
    match mode {
        AddrMode::Imp => (s.after_imp(), 0u8),
        AddrMode::Imm => (s.after_imm(), 0u8),
        AddrMode::Abs => (s.after_abs(), 0u8),
        AddrMode::Abx => (
            s.after_indexed(s.regx),
            indicator(page_differs(s.after_indexed(s.regx).abs_addr, s.operand_word())),
        ),
        AddrMode::Aby => (
            s.after_indexed(s.regy),
            indicator(page_differs(s.after_indexed(s.regy).abs_addr, s.operand_word())),
        ),
        AddrMode::Rel => (s.after_rel(), 0u8),
        AddrMode::Zp0 => (s.after_zp0(), 0u8),
        AddrMode::Zpx => (s.after_zero_page_indexed(s.regx), 0u8),
        AddrMode::Zpy => (s.after_zero_page_indexed(s.regy), 0u8),
        AddrMode::Indx => (s.after_indx(), 0u8),
        AddrMode::Indy => (
            s.after_indy(),
            indicator(page_differs(s.after_indy().abs_addr, s.indy_base())),
        ),
        AddrMode::Ind => (s.after_ind(), 0u8),
    }
}

/// Whether `op` accepts the extra cycle that an addressing mode asks for:
/// the operations that only read their operand do.
pub open spec fn accepts_extra_cycle(op: Operation) -> bool {
    matches!(
        op,
        Operation::Adc | Operation::Sbc | Operation::And | Operation::Eor | Operation::Ora
            | Operation::Lda | Operation::Ldx | Operation::Ldy | Operation::Cmp
    )
}

/// Whether `op` is a conditional branch whose condition holds in `s`.
pub open spec fn branch_taken(op: Operation, s: State) -> bool {
    match op {
        Operation::Bcc => !s.flag(StatusFlags::C),
        Operation::Bcs => s.flag(StatusFlags::C),
        Operation::Beq => s.flag(StatusFlags::Z),
        Operation::Bmi => s.flag(StatusFlags::N),
        Operation::Bne => !s.flag(StatusFlags::Z),
        Operation::Bpl => !s.flag(StatusFlags::N),
        Operation::Bvc => !s.flag(StatusFlags::V),
        Operation::Bvs => s.flag(StatusFlags::V),
        _ => false,
    }
}

/// The state after the operation `op` has run.
#[verifier::opaque]
pub open spec fn executed(op: Operation, s: State) -> State {
    match op {
        Operation::Adc => s.after_adc(),
        Operation::Sbc => s.after_sbc(),
        Operation::And => s.after_and(),
        Operation::Asl => s.after_asl(),
        Operation::Bit => s.after_bit(),
        Operation::Bcc => s.after_branch(!s.flag(StatusFlags::C)),
        Operation::Bcs => s.after_branch(s.flag(StatusFlags::C)),
        Operation::Beq => s.after_branch(s.flag(StatusFlags::Z)),
        Operation::Bmi => s.after_branch(s.flag(StatusFlags::N)),
        Operation::Bne => s.after_branch(!s.flag(StatusFlags::Z)),
        Operation::Bpl => s.after_branch(!s.flag(StatusFlags::N)),
        Operation::Bvc => s.after_branch(!s.flag(StatusFlags::V)),
        Operation::Bvs => s.after_branch(s.flag(StatusFlags::V)),
        Operation::Brk => s.after_brk(),
        Operation::Clc => s.without_flags(0x01u8),
        Operation::Cld => s.without_flags(0x08u8),
        Operation::Cli => s.without_flags(0x04u8),
        Operation::Clv => s.without_flags(0x40u8),
        Operation::Cmp => s.after_compare(s.acu),
        Operation::Cpx => s.after_compare(s.regx),
        Operation::Cpy => s.after_compare(s.regy),
        Operation::Dec => s.after_dec(),
        Operation::Dex => s.after_dex(),
        Operation::Dey => s.after_dey(),
        Operation::Eor => s.after_eor(),
        Operation::Inc => s.after_inc(),
        Operation::Inx => s.after_inx(),
        Operation::Iny => s.after_iny(),
        Operation::Jmp => s.after_jmp(),
        Operation::Jsr => s.after_jsr(),
        Operation::Lda => s.after_lda(),
        Operation::Ldx => s.after_ldx(),
        Operation::Ldy => s.after_ldy(),
        Operation::Lsr => s.after_lsr(),
        Operation::Nop => s.after_nop(),
        Operation::Ora => s.after_ora(),
        Operation::Pha => s.after_pha(),
        Operation::Php => s.after_php(),
        Operation::Pla => s.after_pla(),
        Operation::Plp => s.after_plp(),
        Operation::Rol => s.after_rol(),
        Operation::Ror => s.after_ror(),
        Operation::Rti => s.after_rti(),
        Operation::Rts => s.after_rts(),
        Operation::Sec => s.with_flag(StatusFlags::C, true),
        Operation::Sed => s.with_flag(StatusFlags::D, true),
        Operation::Sei => s.with_flag(StatusFlags::I, true),
        Operation::Sta => s.after_sta(),
        Operation::Stx => s.after_stx(),
        Operation::Sty => s.after_sty(),
        Operation::Tax => s.after_tax(),
        Operation::Tay => s.after_tay(),
        Operation::Tsx => s.after_tsx(),
        Operation::Txa => s.after_txa(),
        Operation::Txs => s.after_txs(),
        Operation::Tya => s.after_tya(),
    }
}

impl State {
    // ---------------------------------------------------------------
    // The clock
    // ---------------------------------------------------------------

    /// The state once the opcode at the program counter has been read and
    /// the cost of its instruction loaded, before its addressing mode runs.
    pub open spec fn decoded(self) -> State {
        let opcode = self.operand_byte();
        State { cur_opcode: opcode, cycles: table(opcode).cycles, ..self }.with_flag(
            StatusFlags::G,
            true,
        ).step(1)
    }

    /// The state once the addressing mode of the decoded instruction has run.
    pub open spec fn addressed(self) -> State {
        resolved(table(self.cur_opcode).addr_mode, self).0
    }

    /// Whether the extra cycle is granted to the instruction at the program
    /// counter: its addressing mode must ask for it and its operation accept it.
    pub open spec fn extra_cycle_granted(self) -> bool {
        let s = self.decoded();
        let inst = table(s.cur_opcode);
        resolved(inst.addr_mode, s).1 == 1 && accepts_extra_cycle(inst.operate)
    }

    /// What the instruction at the program counter costs in all: the base
    /// cost of its table entry, what a taken branch adds, and the extra
    /// cycle if it is granted.
    pub open spec fn cost(self) -> int {
        let s = self.decoded().addressed();
        let inst = table(s.cur_opcode);
        inst.cycles + s.branch_penalty(branch_taken(inst.operate, s)) + indicator(
            self.extra_cycle_granted(),
        )
    }

    /// The state once the instruction at the program counter has been
    /// decoded and carried out, with its whole cost in the cycle counter.
    pub open spec fn after_instruction(self) -> State {
        let s = self.decoded();
        let s = executed(table(s.cur_opcode).operate, s.addressed());
        State { cycles: wrap8(s.cycles + indicator(self.extra_cycle_granted())), ..s }.with_flag(
            StatusFlags::G,
            true,
        )
    }

    /// The state after one clock pulse: an idle processor first decodes and
    /// carries out the next instruction; every pulse then counts once and
    /// uses up one of the remaining cycles.
    pub open spec fn after_clock(self) -> State {
        let s = if self.cycles == 0 {
            self.after_instruction()
        } else {
            self
        };
        State {
            clock_count: wrap32(s.clock_count + 1),
            cycles: wrap8(s.cycles - 1),
            ..s
        }
    }

    /// The state after `n` clock pulses.
    pub open spec fn after_pulses(self, n: nat) -> State
        decreases n,
    {
        if n == 0 {
            self
        } else {
            self.after_pulses((n - 1) as nat).after_clock()
        }
    }
}

} // verus!
