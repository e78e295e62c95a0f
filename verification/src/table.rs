use vstd::prelude::*;

verus! {

/// How an instruction finds its operand.
#[derive(Clone, Copy, Debug, PartialEq, Eq)]
pub enum AddrMode {
    /// Implied: the operand is the accumulator
    Imp,
    /// Immediate: the operand follows the opcode
    Imm,
    /// Absolute: a two-byte address follows the opcode
    Abs,
    /// Absolute, indexed by X
    Abx,
    /// Absolute, indexed by Y
    Aby,
    /// Relative: a signed displacement follows the opcode
    Rel,
    /// Zero page: a one-byte address follows the opcode
    Zp0,
    /// Zero page, indexed by X
    Zpx,
    /// Zero page, indexed by Y
    Zpy,
    /// Indirect, indexed by X before the pointer is read
    Indx,
    /// Indirect, indexed by Y after the pointer is read
    Indy,
    /// Indirect: the address of a two-byte pointer follows the opcode
    Ind,
}

/// What an instruction does with its operand.
#[derive(Clone, Copy, Debug, PartialEq, Eq)]
pub enum Operation {
    /// Add memory to the accumulator with carry
    Adc,
    /// Subtract memory from the accumulator with borrow
    Sbc,
    /// Bitwise AND of memory into the accumulator
    And,
    /// Shift left by one bit
    Asl,
    /// Test bits of memory against the accumulator
    Bit,
    /// Branch if Carry is clear
    Bcc,
    /// Branch if Carry is set
    Bcs,
    /// Branch if Zero is set
    Beq,
    /// Branch if Negative is set
    Bmi,
    /// Branch if Zero is clear
    Bne,
    /// Branch if Negative is clear
    Bpl,
    /// Branch if Overflow is clear
    Bvc,
    /// Branch if Overflow is set
    Bvs,
    /// Software interrupt
    Brk,
    /// Clear Carry
    Clc,
    /// Clear Decimal
    Cld,
    /// Clear Interrupt-Disable
    Cli,
    /// Clear Overflow
    Clv,
    /// Compare memory with the accumulator
    Cmp,
    /// Compare memory with X
    Cpx,
    /// Compare memory with Y
    Cpy,
    /// Decrement memory
    Dec,
    /// Decrement X
    Dex,
    /// Decrement Y
    Dey,
    /// Bitwise exclusive OR of memory into the accumulator
    Eor,
    /// Increment memory
    Inc,
    /// Increment X
    Inx,
    /// Increment Y
    Iny,
    /// Jump
    Jmp,
    /// Jump to subroutine
    Jsr,
    /// Load the accumulator
    Lda,
    /// Load X
    Ldx,
    /// Load Y
    Ldy,
    /// Shift right by one bit
    Lsr,
    /// No operation
    Nop,
    /// Bitwise OR of memory into the accumulator
    Ora,
    /// Push the accumulator
    Pha,
    /// Push the status register
    Php,
    /// Pull the accumulator
    Pla,
    /// Pull the status register
    Plp,
    /// Rotate left through Carry
    Rol,
    /// Rotate right through Carry
    Ror,
    /// Return from interrupt
    Rti,
    /// Return from subroutine
    Rts,
    /// Set Carry
    Sec,
    /// Set Decimal
    Sed,
    /// Set Interrupt-Disable
    Sei,
    /// Store the accumulator
    Sta,
    /// Store X
    Stx,
    /// Store Y
    Sty,
    /// Copy the accumulator to X
    Tax,
    /// Copy the accumulator to Y
    Tay,
    /// Copy the stack pointer to X
    Tsx,
    /// Copy X to the accumulator
    Txa,
    /// Copy X to the stack pointer
    Txs,
    /// Copy Y to the accumulator
    Tya,
}

impl Operation {
    /// The three-letter mnemonic of the operation.
    pub open spec fn mnemonic(self) -> &'static str {
        match self {
            Operation::Adc => "ADC",
            Operation::Sbc => "SBC",
            Operation::And => "AND",
            Operation::Asl => "ASL",
            Operation::Bit => "BIT",
            Operation::Bcc => "BCC",
            Operation::Bcs => "BCS",
            Operation::Beq => "BEQ",
            Operation::Bmi => "BMI",
            Operation::Bne => "BNE",
            Operation::Bpl => "BPL",
            Operation::Bvc => "BVC",
            Operation::Bvs => "BVS",
            Operation::Brk => "BRK",
            Operation::Clc => "CLC",
            Operation::Cld => "CLD",
            Operation::Cli => "CLI",
            Operation::Clv => "CLV",
            Operation::Cmp => "CMP",
            Operation::Cpx => "CPX",
            Operation::Cpy => "CPY",
            Operation::Dec => "DEC",
            Operation::Dex => "DEX",
            Operation::Dey => "DEY",
            Operation::Eor => "EOR",
            Operation::Inc => "INC",
            Operation::Inx => "INX",
            Operation::Iny => "INY",
            Operation::Jmp => "JMP",
            Operation::Jsr => "JSR",
            Operation::Lda => "LDA",
            Operation::Ldx => "LDX",
            Operation::Ldy => "LDY",
            Operation::Lsr => "LSR",
            Operation::Nop => "NOP",
            Operation::Ora => "ORA",
            Operation::Pha => "PHA",
            Operation::Php => "PHP",
            Operation::Pla => "PLA",
            Operation::Plp => "PLP",
            Operation::Rol => "ROL",
            Operation::Ror => "ROR",
            Operation::Rti => "RTI",
            Operation::Rts => "RTS",
            Operation::Sec => "SEC",
            Operation::Sed => "SED",
            Operation::Sei => "SEI",
            Operation::Sta => "STA",
            Operation::Stx => "STX",
            Operation::Sty => "STY",
            Operation::Tax => "TAX",
            Operation::Tay => "TAY",
            Operation::Tsx => "TSX",
            Operation::Txa => "TXA",
            Operation::Txs => "TXS",
            Operation::Tya => "TYA",
        }
    }

    /// The three-letter mnemonic of the operation.
    pub fn name(self) -> (name: &'static str)
        ensures
            name == self.mnemonic(),
    {
        match self {
            Operation::Adc => "ADC",
            Operation::Sbc => "SBC",
            Operation::And => "AND",
            Operation::Asl => "ASL",
            Operation::Bit => "BIT",
            Operation::Bcc => "BCC",
            Operation::Bcs => "BCS",
            Operation::Beq => "BEQ",
            Operation::Bmi => "BMI",
            Operation::Bne => "BNE",
            Operation::Bpl => "BPL",
            Operation::Bvc => "BVC",
            Operation::Bvs => "BVS",
            Operation::Brk => "BRK",
            Operation::Clc => "CLC",
            Operation::Cld => "CLD",
            Operation::Cli => "CLI",
            Operation::Clv => "CLV",
            Operation::Cmp => "CMP",
            Operation::Cpx => "CPX",
            Operation::Cpy => "CPY",
            Operation::Dec => "DEC",
            Operation::Dex => "DEX",
            Operation::Dey => "DEY",
            Operation::Eor => "EOR",
            Operation::Inc => "INC",
            Operation::Inx => "INX",
            Operation::Iny => "INY",
            Operation::Jmp => "JMP",
            Operation::Jsr => "JSR",
            Operation::Lda => "LDA",
            Operation::Ldx => "LDX",
            Operation::Ldy => "LDY",
            Operation::Lsr => "LSR",
            Operation::Nop => "NOP",
            Operation::Ora => "ORA",
            Operation::Pha => "PHA",
            Operation::Php => "PHP",
            Operation::Pla => "PLA",
            Operation::Plp => "PLP",
            Operation::Rol => "ROL",
            Operation::Ror => "ROR",
            Operation::Rti => "RTI",
            Operation::Rts => "RTS",
            Operation::Sec => "SEC",
            Operation::Sed => "SED",
            Operation::Sei => "SEI",
            Operation::Sta => "STA",
            Operation::Stx => "STX",
            Operation::Sty => "STY",
            Operation::Tax => "TAX",
            Operation::Tay => "TAY",
            Operation::Tsx => "TSX",
            Operation::Txa => "TXA",
            Operation::Txs => "TXS",
            Operation::Tya => "TYA",
        }
    }

    /// Whether the operation is one of the eight conditional branches.
    pub open spec fn is_branch(self) -> bool {
        matches!(
            self,
            Operation::Bcc | Operation::Bcs | Operation::Beq | Operation::Bmi | Operation::Bne
                | Operation::Bpl | Operation::Bvc | Operation::Bvs
        )
    }
}

/// One entry of the opcode table.
#[derive(Clone, Copy, Debug)]
pub struct INSTRUCTION {
    /// Mnemonic
    pub name: &'static str,
    /// How the operand is found
    pub addr_mode: AddrMode,
    /// What is done with it
    pub operate: Operation,
    /// Pulses the instruction occupies before any extra cycle
    pub cycles: u8,
}

/// The entry for `operate` in mode `addr_mode` at a base cost of `cycles`.
pub open spec fn entry(operate: Operation, addr_mode: AddrMode, cycles: u8) -> INSTRUCTION {
    INSTRUCTION { name: operate.mnemonic(), addr_mode, operate, cycles }
}

/// The entry every opcode without an instruction of its own resolves to:
/// a no-operation in implied mode that costs two pulses.
pub open spec fn fallback() -> INSTRUCTION {
    entry(Operation::Nop, AddrMode::Imp, 2)
}

/// The opcode table: the instruction that each of the 256 opcode bytes
/// selects, laid out by the opcode's upper and lower four bits. A byte with
/// no instruction of its own selects the fallback.
#[verifier::opaque]
pub open spec fn table(opcode: u8) -> INSTRUCTION {
    match opcode / 16 {
        0x0u8 => match opcode % 16 {
            0x0u8 => entry(Operation::Brk, AddrMode::Imp, 7),
            0x1u8 => entry(Operation::Ora, AddrMode::Indx, 6),
            0x5u8 => entry(Operation::Ora, AddrMode::Zp0, 3),
            0x6u8 => entry(Operation::Asl, AddrMode::Zp0, 5),
            0x8u8 => entry(Operation::Php, AddrMode::Imp, 3),
            0x9u8 => entry(Operation::Ora, AddrMode::Imm, 2),
            0xAu8 => entry(Operation::Asl, AddrMode::Imp, 2),
            0xDu8 => entry(Operation::Ora, AddrMode::Abs, 4),
            0xEu8 => entry(Operation::Asl, AddrMode::Abs, 6),
            _ => fallback(),
        },
        0x1u8 => match opcode % 16 {
            0x0u8 => entry(Operation::Bpl, AddrMode::Rel, 2),
            0x1u8 => entry(Operation::Ora, AddrMode::Indy, 5),
            0x5u8 => entry(Operation::Ora, AddrMode::Zpx, 4),
            0x6u8 => entry(Operation::Asl, AddrMode::Zpx, 6),
            0x8u8 => entry(Operation::Clc, AddrMode::Imp, 2),
            0x9u8 => entry(Operation::Ora, AddrMode::Aby, 4),
            0xDu8 => entry(Operation::Ora, AddrMode::Abx, 4),
            0xEu8 => entry(Operation::Asl, AddrMode::Abx, 7),
            _ => fallback(),
        },
        0x2u8 => match opcode % 16 {
            0x0u8 => entry(Operation::Jsr, AddrMode::Abs, 6),
            0x1u8 => entry(Operation::And, AddrMode::Indx, 6),
            0x4u8 => entry(Operation::Bit, AddrMode::Zp0, 3),
            0x5u8 => entry(Operation::And, AddrMode::Zp0, 3),
            0x6u8 => entry(Operation::Rol, AddrMode::Zp0, 5),
            0x8u8 => entry(Operation::Plp, AddrMode::Imp, 4),
            0x9u8 => entry(Operation::And, AddrMode::Imm, 2),
            0xAu8 => entry(Operation::Rol, AddrMode::Imp, 2),
            0xCu8 => entry(Operation::Bit, AddrMode::Abs, 4),
            0xDu8 => entry(Operation::And, AddrMode::Abs, 4),
            0xEu8 => entry(Operation::Rol, AddrMode::Abs, 6),
            _ => fallback(),
        },
        0x3u8 => match opcode % 16 {
            0x0u8 => entry(Operation::Bmi, AddrMode::Rel, 2),
            0x1u8 => entry(Operation::And, AddrMode::Indy, 5),
            0x5u8 => entry(Operation::And, AddrMode::Zpx, 4),
            0x6u8 => entry(Operation::Rol, AddrMode::Zpx, 6),
            0x8u8 => entry(Operation::Sec, AddrMode::Imp, 2),
            0x9u8 => entry(Operation::And, AddrMode::Aby, 4),
            0xDu8 => entry(Operation::And, AddrMode::Abx, 4),
            0xEu8 => entry(Operation::Rol, AddrMode::Abx, 7),
            _ => fallback(),
        },
        0x4u8 => match opcode % 16 {
            0x0u8 => entry(Operation::Rti, AddrMode::Imp, 6),
            0x1u8 => entry(Operation::Eor, AddrMode::Indx, 6),
            0x5u8 => entry(Operation::Eor, AddrMode::Zp0, 3),
            0x6u8 => entry(Operation::Lsr, AddrMode::Zp0, 5),
            0x8u8 => entry(Operation::Pha, AddrMode::Imp, 3),
            0x9u8 => entry(Operation::Eor, AddrMode::Imm, 2),
            0xAu8 => entry(Operation::Lsr, AddrMode::Imp, 2),
            0xCu8 => entry(Operation::Jmp, AddrMode::Abs, 3),
            0xDu8 => entry(Operation::Eor, AddrMode::Abs, 4),
            0xEu8 => entry(Operation::Lsr, AddrMode::Abs, 6),
            _ => fallback(),
        },
        0x5u8 => match opcode % 16 {
            0x0u8 => entry(Operation::Bvc, AddrMode::Rel, 2),
            0x1u8 => entry(Operation::Eor, AddrMode::Indy, 5),
            0x5u8 => entry(Operation::Eor, AddrMode::Zpx, 4),
            0x6u8 => entry(Operation::Lsr, AddrMode::Zpx, 6),
            0x8u8 => entry(Operation::Cli, AddrMode::Imp, 2),
            0x9u8 => entry(Operation::Eor, AddrMode::Aby, 4),
            0xDu8 => entry(Operation::Eor, AddrMode::Abx, 4),
            0xEu8 => entry(Operation::Lsr, AddrMode::Abx, 7),
            _ => fallback(),
        },
        0x6u8 => match opcode % 16 {
            0x0u8 => entry(Operation::Rts, AddrMode::Imp, 6),
            0x1u8 => entry(Operation::Adc, AddrMode::Indx, 6),
            0x5u8 => entry(Operation::Adc, AddrMode::Zp0, 3),
            0x6u8 => entry(Operation::Ror, AddrMode::Zp0, 5),
            0x8u8 => entry(Operation::Pla, AddrMode::Imp, 4),
            0x9u8 => entry(Operation::Adc, AddrMode::Imm, 2),
            0xAu8 => entry(Operation::Ror, AddrMode::Imp, 2),
            0xCu8 => entry(Operation::Jmp, AddrMode::Ind, 5),
            0xDu8 => entry(Operation::Adc, AddrMode::Abs, 4),
            0xEu8 => entry(Operation::Ror, AddrMode::Abs, 6),
            _ => fallback(),
        },
        0x7u8 => match opcode % 16 {
            0x0u8 => entry(Operation::Bvs, AddrMode::Rel, 2),
            0x1u8 => entry(Operation::Adc, AddrMode::Indy, 5),
            0x5u8 => entry(Operation::Adc, AddrMode::Zpx, 4),
            0x6u8 => entry(Operation::Ror, AddrMode::Zpx, 6),
            0x8u8 => entry(Operation::Sei, AddrMode::Imp, 2),
            0x9u8 => entry(Operation::Adc, AddrMode::Aby, 4),
            0xDu8 => entry(Operation::Adc, AddrMode::Abx, 4),
            0xEu8 => entry(Operation::Ror, AddrMode::Abx, 7),
            _ => fallback(),
        },
        0x8u8 => match opcode % 16 {
            0x1u8 => entry(Operation::Sta, AddrMode::Indx, 6),
            0x4u8 => entry(Operation::Sty, AddrMode::Zp0, 3),
            0x5u8 => entry(Operation::Sta, AddrMode::Zp0, 3),
            0x6u8 => entry(Operation::Stx, AddrMode::Zp0, 3),
            0x8u8 => entry(Operation::Dey, AddrMode::Imp, 2),
            0xAu8 => entry(Operation::Txa, AddrMode::Imp, 2),
            0xCu8 => entry(Operation::Sty, AddrMode::Abs, 4),
            0xDu8 => entry(Operation::Sta, AddrMode::Abs, 4),
            0xEu8 => entry(Operation::Stx, AddrMode::Abs, 4),
            _ => fallback(),
        },
        0x9u8 => match opcode % 16 {
            0x0u8 => entry(Operation::Bcc, AddrMode::Rel, 2),
            0x1u8 => entry(Operation::Sta, AddrMode::Indy, 6),
            0x4u8 => entry(Operation::Sty, AddrMode::Zpx, 4),
            0x5u8 => entry(Operation::Sta, AddrMode::Zpx, 4),
            0x6u8 => entry(Operation::Stx, AddrMode::Zpy, 4),
            0x8u8 => entry(Operation::Tya, AddrMode::Imp, 2),
            0x9u8 => entry(Operation::Sta, AddrMode::Aby, 5),
            0xAu8 => entry(Operation::Txs, AddrMode::Imp, 2),
            0xDu8 => entry(Operation::Sta, AddrMode::Abx, 5),
            _ => fallback(),
        },
        0xAu8 => match opcode % 16 {
            0x0u8 => entry(Operation::Ldy, AddrMode::Imm, 2),
            0x1u8 => entry(Operation::Lda, AddrMode::Indx, 6),
            0x2u8 => entry(Operation::Ldx, AddrMode::Imm, 2),
            0x4u8 => entry(Operation::Ldy, AddrMode::Zp0, 3),
            0x5u8 => entry(Operation::Lda, AddrMode::Zp0, 3),
            0x6u8 => entry(Operation::Ldx, AddrMode::Zp0, 3),
            0x8u8 => entry(Operation::Tay, AddrMode::Imp, 2),
            0x9u8 => entry(Operation::Lda, AddrMode::Imm, 2),
            0xAu8 => entry(Operation::Tax, AddrMode::Imp, 2),
            0xCu8 => entry(Operation::Ldy, AddrMode::Abs, 4),
            0xDu8 => entry(Operation::Lda, AddrMode::Abs, 4),
            0xEu8 => entry(Operation::Ldx, AddrMode::Abs, 4),
            _ => fallback(),
        },
        0xBu8 => match opcode % 16 {
            0x0u8 => entry(Operation::Bcs, AddrMode::Rel, 2),
            0x1u8 => entry(Operation::Lda, AddrMode::Indy, 5),
            0x4u8 => entry(Operation::Ldy, AddrMode::Zpx, 4),
            0x5u8 => entry(Operation::Lda, AddrMode::Zpx, 4),
            0x6u8 => entry(Operation::Ldx, AddrMode::Zpy, 4),
            0x8u8 => entry(Operation::Clv, AddrMode::Imp, 2),
            0x9u8 => entry(Operation::Lda, AddrMode::Aby, 4),
            0xAu8 => entry(Operation::Tsx, AddrMode::Imp, 2),
            0xCu8 => entry(Operation::Ldy, AddrMode::Abx, 4),
            0xDu8 => entry(Operation::Lda, AddrMode::Abx, 4),
            0xEu8 => entry(Operation::Ldx, AddrMode::Aby, 4),
            _ => fallback(),
        },
        0xCu8 => match opcode % 16 {
            0x0u8 => entry(Operation::Cpy, AddrMode::Imm, 2),
            0x1u8 => entry(Operation::Cmp, AddrMode::Indx, 6),
            0x4u8 => entry(Operation::Cpy, AddrMode::Zp0, 3),
            0x5u8 => entry(Operation::Cmp, AddrMode::Zp0, 3),
            0x6u8 => entry(Operation::Dec, AddrMode::Zp0, 5),
            0x8u8 => entry(Operation::Iny, AddrMode::Imp, 2),
            0x9u8 => entry(Operation::Cmp, AddrMode::Imm, 2),
            0xAu8 => entry(Operation::Dex, AddrMode::Imp, 2),
            0xCu8 => entry(Operation::Cpy, AddrMode::Abs, 4),
            0xDu8 => entry(Operation::Cmp, AddrMode::Abs, 4),
            0xEu8 => entry(Operation::Dec, AddrMode::Abs, 6),
            _ => fallback(),
        },
        0xDu8 => match opcode % 16 {
            0x0u8 => entry(Operation::Bne, AddrMode::Rel, 2),
            0x1u8 => entry(Operation::Cmp, AddrMode::Indy, 5),
            0x5u8 => entry(Operation::Cmp, AddrMode::Zpx, 4),
            0x6u8 => entry(Operation::Dec, AddrMode::Zpx, 6),
            0x8u8 => entry(Operation::Cld, AddrMode::Imp, 2),
            0x9u8 => entry(Operation::Cmp, AddrMode::Aby, 4),
            0xDu8 => entry(Operation::Cmp, AddrMode::Abx, 4),
            0xEu8 => entry(Operation::Dec, AddrMode::Abx, 7),
            _ => fallback(),
        },
        0xEu8 => match opcode % 16 {
            0x0u8 => entry(Operation::Cpx, AddrMode::Imm, 2),
            0x1u8 => entry(Operation::Sbc, AddrMode::Indx, 6),
            0x4u8 => entry(Operation::Cpx, AddrMode::Zp0, 3),
            0x5u8 => entry(Operation::Sbc, AddrMode::Zp0, 3),
            0x6u8 => entry(Operation::Inc, AddrMode::Zp0, 5),
            0x8u8 => entry(Operation::Inx, AddrMode::Imp, 2),
            0x9u8 => entry(Operation::Sbc, AddrMode::Imm, 2),
            0xAu8 => entry(Operation::Nop, AddrMode::Imp, 2),
            0xCu8 => entry(Operation::Cpx, AddrMode::Abs, 4),
            0xDu8 => entry(Operation::Sbc, AddrMode::Abs, 4),
            0xEu8 => entry(Operation::Inc, AddrMode::Abs, 6),
            _ => fallback(),
        },
        0xFu8 => match opcode % 16 {
            0x0u8 => entry(Operation::Beq, AddrMode::Rel, 2),
            0x1u8 => entry(Operation::Sbc, AddrMode::Indy, 5),
            0x5u8 => entry(Operation::Sbc, AddrMode::Zpx, 4),
            0x6u8 => entry(Operation::Inc, AddrMode::Zpx, 6),
            0x8u8 => entry(Operation::Sed, AddrMode::Imp, 2),
            0x9u8 => entry(Operation::Sbc, AddrMode::Aby, 4),
            0xDu8 => entry(Operation::Sbc, AddrMode::Abx, 4),
            0xEu8 => entry(Operation::Inc, AddrMode::Abx, 7),
            _ => fallback(),
        },
        _ => fallback(),
    }
}

fn make(operate: Operation, addr_mode: AddrMode, cycles: u8) -> (inst: INSTRUCTION)
    ensures
        inst == entry(operate, addr_mode, cycles),
{
    INSTRUCTION { name: operate.name(), addr_mode, operate, cycles }
}

/// Looks `opcode` up in the opcode table. Every byte has an entry, and every
/// entry costs between two and seven pulses.
pub fn lookup(opcode: u8) -> (inst: INSTRUCTION)
    ensures
        inst == table(opcode),
        2 <= inst.cycles <= 7,
{
    reveal(table);
    match opcode / 16 {
        0x0u8 => match opcode % 16 {
            0x0u8 => make(Operation::Brk, AddrMode::Imp, 7),
            0x1u8 => make(Operation::Ora, AddrMode::Indx, 6),
            0x5u8 => make(Operation::Ora, AddrMode::Zp0, 3),
            0x6u8 => make(Operation::Asl, AddrMode::Zp0, 5),
            0x8u8 => make(Operation::Php, AddrMode::Imp, 3),
            0x9u8 => make(Operation::Ora, AddrMode::Imm, 2),
            0xAu8 => make(Operation::Asl, AddrMode::Imp, 2),
            0xDu8 => make(Operation::Ora, AddrMode::Abs, 4),
            0xEu8 => make(Operation::Asl, AddrMode::Abs, 6),
            _ => make(Operation::Nop, AddrMode::Imp, 2),
        },
        0x1u8 => match opcode % 16 {
            0x0u8 => make(Operation::Bpl, AddrMode::Rel, 2),
            0x1u8 => make(Operation::Ora, AddrMode::Indy, 5),
            0x5u8 => make(Operation::Ora, AddrMode::Zpx, 4),
            0x6u8 => make(Operation::Asl, AddrMode::Zpx, 6),
            0x8u8 => make(Operation::Clc, AddrMode::Imp, 2),
            0x9u8 => make(Operation::Ora, AddrMode::Aby, 4),
            0xDu8 => make(Operation::Ora, AddrMode::Abx, 4),
            0xEu8 => make(Operation::Asl, AddrMode::Abx, 7),
            _ => make(Operation::Nop, AddrMode::Imp, 2),
        },
        0x2u8 => match opcode % 16 {
            0x0u8 => make(Operation::Jsr, AddrMode::Abs, 6),
            0x1u8 => make(Operation::And, AddrMode::Indx, 6),
            0x4u8 => make(Operation::Bit, AddrMode::Zp0, 3),
            0x5u8 => make(Operation::And, AddrMode::Zp0, 3),
            0x6u8 => make(Operation::Rol, AddrMode::Zp0, 5),
            0x8u8 => make(Operation::Plp, AddrMode::Imp, 4),
            0x9u8 => make(Operation::And, AddrMode::Imm, 2),
            0xAu8 => make(Operation::Rol, AddrMode::Imp, 2),
            0xCu8 => make(Operation::Bit, AddrMode::Abs, 4),
            0xDu8 => make(Operation::And, AddrMode::Abs, 4),
            0xEu8 => make(Operation::Rol, AddrMode::Abs, 6),
            _ => make(Operation::Nop, AddrMode::Imp, 2),
        },
        0x3u8 => match opcode % 16 {
            0x0u8 => make(Operation::Bmi, AddrMode::Rel, 2),
            0x1u8 => make(Operation::And, AddrMode::Indy, 5),
            0x5u8 => make(Operation::And, AddrMode::Zpx, 4),
            0x6u8 => make(Operation::Rol, AddrMode::Zpx, 6),
            0x8u8 => make(Operation::Sec, AddrMode::Imp, 2),
            0x9u8 => make(Operation::And, AddrMode::Aby, 4),
            0xDu8 => make(Operation::And, AddrMode::Abx, 4),
            0xEu8 => make(Operation::Rol, AddrMode::Abx, 7),
            _ => make(Operation::Nop, AddrMode::Imp, 2),
        },
        0x4u8 => match opcode % 16 {
            0x0u8 => make(Operation::Rti, AddrMode::Imp, 6),
            0x1u8 => make(Operation::Eor, AddrMode::Indx, 6),
            0x5u8 => make(Operation::Eor, AddrMode::Zp0, 3),
            0x6u8 => make(Operation::Lsr, AddrMode::Zp0, 5),
            0x8u8 => make(Operation::Pha, AddrMode::Imp, 3),
            0x9u8 => make(Operation::Eor, AddrMode::Imm, 2),
            0xAu8 => make(Operation::Lsr, AddrMode::Imp, 2),
            0xCu8 => make(Operation::Jmp, AddrMode::Abs, 3),
            0xDu8 => make(Operation::Eor, AddrMode::Abs, 4),
            0xEu8 => make(Operation::Lsr, AddrMode::Abs, 6),
            _ => make(Operation::Nop, AddrMode::Imp, 2),
        },
        0x5u8 => match opcode % 16 {
            0x0u8 => make(Operation::Bvc, AddrMode::Rel, 2),
            0x1u8 => make(Operation::Eor, AddrMode::Indy, 5),
            0x5u8 => make(Operation::Eor, AddrMode::Zpx, 4),
            0x6u8 => make(Operation::Lsr, AddrMode::Zpx, 6),
            0x8u8 => make(Operation::Cli, AddrMode::Imp, 2),
            0x9u8 => make(Operation::Eor, AddrMode::Aby, 4),
            0xDu8 => make(Operation::Eor, AddrMode::Abx, 4),
            0xEu8 => make(Operation::Lsr, AddrMode::Abx, 7),
            _ => make(Operation::Nop, AddrMode::Imp, 2),
        },
        0x6u8 => match opcode % 16 {
            0x0u8 => make(Operation::Rts, AddrMode::Imp, 6),
            0x1u8 => make(Operation::Adc, AddrMode::Indx, 6),
            0x5u8 => make(Operation::Adc, AddrMode::Zp0, 3),
            0x6u8 => make(Operation::Ror, AddrMode::Zp0, 5),
            0x8u8 => make(Operation::Pla, AddrMode::Imp, 4),
            0x9u8 => make(Operation::Adc, AddrMode::Imm, 2),
            0xAu8 => make(Operation::Ror, AddrMode::Imp, 2),
            0xCu8 => make(Operation::Jmp, AddrMode::Ind, 5),
            0xDu8 => make(Operation::Adc, AddrMode::Abs, 4),
            0xEu8 => make(Operation::Ror, AddrMode::Abs, 6),
            _ => make(Operation::Nop, AddrMode::Imp, 2),
        },
        0x7u8 => match opcode % 16 {
            0x0u8 => make(Operation::Bvs, AddrMode::Rel, 2),
            0x1u8 => make(Operation::Adc, AddrMode::Indy, 5),
            0x5u8 => make(Operation::Adc, AddrMode::Zpx, 4),
            0x6u8 => make(Operation::Ror, AddrMode::Zpx, 6),
            0x8u8 => make(Operation::Sei, AddrMode::Imp, 2),
            0x9u8 => make(Operation::Adc, AddrMode::Aby, 4),
            0xDu8 => make(Operation::Adc, AddrMode::Abx, 4),
            0xEu8 => make(Operation::Ror, AddrMode::Abx, 7),
            _ => make(Operation::Nop, AddrMode::Imp, 2),
        },
        0x8u8 => match opcode % 16 {
            0x1u8 => make(Operation::Sta, AddrMode::Indx, 6),
            0x4u8 => make(Operation::Sty, AddrMode::Zp0, 3),
            0x5u8 => make(Operation::Sta, AddrMode::Zp0, 3),
            0x6u8 => make(Operation::Stx, AddrMode::Zp0, 3),
            0x8u8 => make(Operation::Dey, AddrMode::Imp, 2),
            0xAu8 => make(Operation::Txa, AddrMode::Imp, 2),
            0xCu8 => make(Operation::Sty, AddrMode::Abs, 4),
            0xDu8 => make(Operation::Sta, AddrMode::Abs, 4),
            0xEu8 => make(Operation::Stx, AddrMode::Abs, 4),
            _ => make(Operation::Nop, AddrMode::Imp, 2),
        },
        0x9u8 => match opcode % 16 {
            0x0u8 => make(Operation::Bcc, AddrMode::Rel, 2),
            0x1u8 => make(Operation::Sta, AddrMode::Indy, 6),
            0x4u8 => make(Operation::Sty, AddrMode::Zpx, 4),
            0x5u8 => make(Operation::Sta, AddrMode::Zpx, 4),
            0x6u8 => make(Operation::Stx, AddrMode::Zpy, 4),
            0x8u8 => make(Operation::Tya, AddrMode::Imp, 2),
            0x9u8 => make(Operation::Sta, AddrMode::Aby, 5),
            0xAu8 => make(Operation::Txs, AddrMode::Imp, 2),
            0xDu8 => make(Operation::Sta, AddrMode::Abx, 5),
            _ => make(Operation::Nop, AddrMode::Imp, 2),
        },
        0xAu8 => match opcode % 16 {
            0x0u8 => make(Operation::Ldy, AddrMode::Imm, 2),
            0x1u8 => make(Operation::Lda, AddrMode::Indx, 6),
            0x2u8 => make(Operation::Ldx, AddrMode::Imm, 2),
            0x4u8 => make(Operation::Ldy, AddrMode::Zp0, 3),
            0x5u8 => make(Operation::Lda, AddrMode::Zp0, 3),
            0x6u8 => make(Operation::Ldx, AddrMode::Zp0, 3),
            0x8u8 => make(Operation::Tay, AddrMode::Imp, 2),
            0x9u8 => make(Operation::Lda, AddrMode::Imm, 2),
            0xAu8 => make(Operation::Tax, AddrMode::Imp, 2),
            0xCu8 => make(Operation::Ldy, AddrMode::Abs, 4),
            0xDu8 => make(Operation::Lda, AddrMode::Abs, 4),
            0xEu8 => make(Operation::Ldx, AddrMode::Abs, 4),
            _ => make(Operation::Nop, AddrMode::Imp, 2),
        },
        0xBu8 => match opcode % 16 {
            0x0u8 => make(Operation::Bcs, AddrMode::Rel, 2),
            0x1u8 => make(Operation::Lda, AddrMode::Indy, 5),
            0x4u8 => make(Operation::Ldy, AddrMode::Zpx, 4),
            0x5u8 => make(Operation::Lda, AddrMode::Zpx, 4),
            0x6u8 => make(Operation::Ldx, AddrMode::Zpy, 4),
            0x8u8 => make(Operation::Clv, AddrMode::Imp, 2),
            0x9u8 => make(Operation::Lda, AddrMode::Aby, 4),
            0xAu8 => make(Operation::Tsx, AddrMode::Imp, 2),
            0xCu8 => make(Operation::Ldy, AddrMode::Abx, 4),
            0xDu8 => make(Operation::Lda, AddrMode::Abx, 4),
            0xEu8 => make(Operation::Ldx, AddrMode::Aby, 4),
            _ => make(Operation::Nop, AddrMode::Imp, 2),
        },
        0xCu8 => match opcode % 16 {
            0x0u8 => make(Operation::Cpy, AddrMode::Imm, 2),
            0x1u8 => make(Operation::Cmp, AddrMode::Indx, 6),
            0x4u8 => make(Operation::Cpy, AddrMode::Zp0, 3),
            0x5u8 => make(Operation::Cmp, AddrMode::Zp0, 3),
            0x6u8 => make(Operation::Dec, AddrMode::Zp0, 5),
            0x8u8 => make(Operation::Iny, AddrMode::Imp, 2),
            0x9u8 => make(Operation::Cmp, AddrMode::Imm, 2),
            0xAu8 => make(Operation::Dex, AddrMode::Imp, 2),
            0xCu8 => make(Operation::Cpy, AddrMode::Abs, 4),
            0xDu8 => make(Operation::Cmp, AddrMode::Abs, 4),
            0xEu8 => make(Operation::Dec, AddrMode::Abs, 6),
            _ => make(Operation::Nop, AddrMode::Imp, 2),
        },
        0xDu8 => match opcode % 16 {
            0x0u8 => make(Operation::Bne, AddrMode::Rel, 2),
            0x1u8 => make(Operation::Cmp, AddrMode::Indy, 5),
            0x5u8 => make(Operation::Cmp, AddrMode::Zpx, 4),
            0x6u8 => make(Operation::Dec, AddrMode::Zpx, 6),
            0x8u8 => make(Operation::Cld, AddrMode::Imp, 2),
            0x9u8 => make(Operation::Cmp, AddrMode::Aby, 4),
            0xDu8 => make(Operation::Cmp, AddrMode::Abx, 4),
            0xEu8 => make(Operation::Dec, AddrMode::Abx, 7),
            _ => make(Operation::Nop, AddrMode::Imp, 2),
        },
        0xEu8 => match opcode % 16 {
            0x0u8 => make(Operation::Cpx, AddrMode::Imm, 2),
            0x1u8 => make(Operation::Sbc, AddrMode::Indx, 6),
            0x4u8 => make(Operation::Cpx, AddrMode::Zp0, 3),
            0x5u8 => make(Operation::Sbc, AddrMode::Zp0, 3),
            0x6u8 => make(Operation::Inc, AddrMode::Zp0, 5),
            0x8u8 => make(Operation::Inx, AddrMode::Imp, 2),
            0x9u8 => make(Operation::Sbc, AddrMode::Imm, 2),
            0xAu8 => make(Operation::Nop, AddrMode::Imp, 2),
            0xCu8 => make(Operation::Cpx, AddrMode::Abs, 4),
            0xDu8 => make(Operation::Sbc, AddrMode::Abs, 4),
            0xEu8 => make(Operation::Inc, AddrMode::Abs, 6),
            _ => make(Operation::Nop, AddrMode::Imp, 2),
        },
        0xFu8 => match opcode % 16 {
            0x0u8 => make(Operation::Beq, AddrMode::Rel, 2),
            0x1u8 => make(Operation::Sbc, AddrMode::Indy, 5),
            0x5u8 => make(Operation::Sbc, AddrMode::Zpx, 4),
            0x6u8 => make(Operation::Inc, AddrMode::Zpx, 6),
            0x8u8 => make(Operation::Sed, AddrMode::Imp, 2),
            0x9u8 => make(Operation::Sbc, AddrMode::Aby, 4),
            0xDu8 => make(Operation::Sbc, AddrMode::Abx, 4),
            0xEu8 => make(Operation::Inc, AddrMode::Abx, 7),
            _ => make(Operation::Nop, AddrMode::Imp, 2),
        },
        _ => make(Operation::Nop, AddrMode::Imp, 2),
    }
}

/// Whether `opcode` selects an instruction in implied mode, whose operand
/// is the accumulator rather than memory.
pub fn is_implied(opcode: u8) -> (implied: bool)
    ensures
        implied == (table(opcode).addr_mode == AddrMode::Imp),
{
    match lookup(opcode).addr_mode {
        AddrMode::Imp => true,
        _ => false,
    }
}

} // verus!
