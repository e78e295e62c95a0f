use vstd::prelude::*;
use crate::cpu::StatusFlags;

verus! {

/// `v` reduced modulo 256: the value an 8-bit register holds after wrapping.
pub open spec fn wrap8(v: int) -> u8 {
    (v % 256) as u8
}

/// `v` reduced modulo 65536: the value a 16-bit register holds after wrapping.
pub open spec fn wrap16(v: int) -> u16 {
    (v % 65536) as u16
}

/// The 16-bit value whose low byte is `low` and whose high byte is `high`.
pub open spec fn word(low: u8, high: u8) -> u16 {
    (high * 256 + low) as u16
}

/// The upper eight bits of `w`, which name its 256-byte page.
pub open spec fn high_byte(w: u16) -> u8 {
    (w / 256) as u8
}

/// The lower eight bits of `w`.
pub open spec fn low_byte(w: u16) -> u8 {
    (w % 256) as u8
}

/// A byte read as a two's-complement number, from -128 to 127.
pub open spec fn signed8(b: u8) -> int {
    if b >= 128 {
        b - 256
    } else {
        b as int
    }
}

/// Everything the processor's behaviour depends on: the registers, the
/// decode scratch values, and the contents of the attached memory (`None`
/// while no bus is attached).
pub struct State {
    pub regx: u8,
    pub regy: u8,
    pub acu: u8,
    pub stack_pointer: u8,
    pub program_counter: u16,
    pub status: u8,
    pub fetched: u8,
    pub abs_addr: u16,
    pub rel_addr: u16,
    pub temp_op: u16,
    pub cur_opcode: u8,
    pub cycles: u8,
    pub clock_count: u32,
    pub bus: Option<Map<u16, u8>>,
}

impl State {
    /// The byte a read of `address` returns: the stored byte, or 0 without a bus.
    pub open spec fn peek(self, address: u16) -> u8 {
        match self.bus {
            Some(memory) => memory[address],
            None => 0u8,
        }
    }

    /// The state after a write of `data` to `address`: nothing changes without a bus.
    pub open spec fn poke(self, address: u16, data: u8) -> State {
        match self.bus {
            Some(memory) => State { bus: Some(memory.insert(address, data)), ..self },
            None => self,
        }
    }

    /// The little-endian 16-bit value stored at `address` and the address after it.
    pub open spec fn peek_word(self, address: u16) -> u16 {
        word(self.peek(address), self.peek(wrap16(address + 1)))
    }

    /// The address in page one that the stack pointer names.
    pub open spec fn stack_address(self) -> u16 {
        (0x0100 + self.stack_pointer) as u16
    }

    /// The state after one byte is pushed: written at the stack address, then
    /// the stack pointer moves down by one, wrapping within its page.
    pub open spec fn push(self, data: u8) -> State {
        State {
            stack_pointer: wrap8(self.stack_pointer - 1),
            ..self.poke(self.stack_address(), data)
        }
    }

    /// The state after a 16-bit value is pushed, high byte first.
    pub open spec fn push_word(self, w: u16) -> State {
        self.push(high_byte(w)).push(low_byte(w))
    }

    /// Whether `flag` is set in the status register.
    pub open spec fn flag(self, flag: StatusFlags) -> bool {
        self.status & flag.mask() != 0
    }

    /// 1 if `flag` is set, else 0.
    pub open spec fn flag_bit(self, flag: StatusFlags) -> u8 {
        if self.flag(flag) {
            1u8
        } else {
            0u8
        }
    }

    /// The state after `flag` is set or cleared. The unused bit reads 1
    /// after every write to the status register.
    pub open spec fn with_flag(self, flag: StatusFlags, enable: bool) -> State {
        State {
            status: if enable {
                self.status | flag.mask() | 0x20u8
            } else {
                (self.status & !flag.mask()) | 0x20u8
            },
            ..self
        }
    }

    /// The state after every flag in `flags` is cleared (the unused bit stays 1).
    pub open spec fn without_flags(self, flags: u8) -> State {
        State { status: (self.status & !flags) | 0x20u8, ..self }
    }

    /// The state after the zero-or-negative rule is applied to `value`:
    /// Zero is set when `value` is 0, otherwise Negative is set when
    /// `value` is 128 or more. Neither flag is ever cleared by the rule.
    pub open spec fn with_zero_or_negative(self, value: u8) -> State {
        if value == 0 {
            self.with_flag(StatusFlags::Z, true)
        } else if value >= 128 {
            self.with_flag(StatusFlags::N, true)
        } else {
            self
        }
    }

    /// The state after Zero and Negative are recomputed from `value`.
    pub open spec fn with_result_flags(self, value: u8) -> State {
        self.without_flags(0x82u8).with_zero_or_negative(value)
    }
}

} // verus!
