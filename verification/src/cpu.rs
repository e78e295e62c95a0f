use vstd::prelude::*;
use crate::bus::BUS;
use crate::laws::{law_instruction_cost, lemma_executed_frame, lemma_resolved_frame};
use crate::opcode::{execute, push_word, resolve};
use crate::semantics::wrap32;
use crate::table::{is_implied, lookup};
use crate::state::{high_byte, low_byte, word, wrap16, wrap8, State};

verus! {

/// The flags of the status register, from bit 0 to bit 7.
#[derive(Clone, Copy, Debug, PartialEq, Eq)]
pub enum StatusFlags {
    /// Carry
    C,
    /// Zero
    Z,
    /// Interrupt disable
    I,
    /// Decimal
    D,
    /// Break
    B,
    /// Unused; reads 1
    G,
    /// Overflow
    V,
    /// Negative
    N,
}

impl StatusFlags {
    /// The bit of the status register that holds this flag.
    pub open spec fn mask(self) -> u8 {
        match self {
            StatusFlags::C => 0x01u8,
            StatusFlags::Z => 0x02u8,
            StatusFlags::I => 0x04u8,
            StatusFlags::D => 0x08u8,
            StatusFlags::B => 0x10u8,
            StatusFlags::G => 0x20u8,
            StatusFlags::V => 0x40u8,
            StatusFlags::N => 0x80u8,
        }
    }

    /// The bit of the status register that holds this flag.
    pub fn bit(self) -> (bit: u8)
        ensures
            bit == self.mask(),
    {
        match self {
            StatusFlags::C => 0x01u8,
            StatusFlags::Z => 0x02u8,
            StatusFlags::I => 0x04u8,
            StatusFlags::D => 0x08u8,
            StatusFlags::B => 0x10u8,
            StatusFlags::G => 0x20u8,
            StatusFlags::V => 0x40u8,
            StatusFlags::N => 0x80u8,
        }
    }
}

/// The processor: its registers, its decode scratch values, and the bus
/// it was connected to, if any.
pub struct CPU {
    /// X register
    pub regx: u8,
    /// Y register
    pub regy: u8,
    /// Accumulator
    pub acu: u8,
    /// Offset of the stack top within page one
    pub stack_pointer: u8,
    /// Address of the next byte of the program
    pub program_counter: u16,
    /// Status register
    pub status: u8,
    /// Operand of the instruction in flight
    pub fetched: u8,
    /// Effective address of the instruction in flight
    pub abs_addr: u16,
    /// Branch displacement, sign-extended to 16 bits
    pub rel_addr: u16,
    /// Scratch operand
    pub temp_op: u16,
    /// Opcode of the instruction in flight
    pub cur_opcode: u8,
    /// Pulses the instruction in flight still occupies
    pub cycles: u8,
    /// Pulses received since construction
    pub clock_count: u32,
    /// The attached memory, if any
    pub bus: Option<BUS>,
}

impl View for CPU {
    type V = State;

    open spec fn view(&self) -> State {
        State {
            regx: self.regx,
            regy: self.regy,
            acu: self.acu,
            stack_pointer: self.stack_pointer,
            program_counter: self.program_counter,
            status: self.status,
            fetched: self.fetched,
            abs_addr: self.abs_addr,
            rel_addr: self.rel_addr,
            temp_op: self.temp_op,
            cur_opcode: self.cur_opcode,
            cycles: self.cycles,
            clock_count: self.clock_count,
            bus: self.memory(),
        }
    }
}

/// `x + n` modulo 65536.
pub(crate) fn advance(x: u16, n: u16) -> (r: u16)
    ensures
        r == wrap16(x + n),
{
    x.wrapping_add(n)
}

/// `x + n` modulo 256.
pub(crate) fn bump(x: u8, n: u8) -> (r: u8)
    ensures
        r == wrap8(x + n),
{
    x.wrapping_add(n)
}

/// `x - n` modulo 256.
pub(crate) fn drop_by(x: u8, n: u8) -> (r: u8)
    ensures
        r == wrap8(x - n),
{
    x.wrapping_sub(n)
}

/// Joins two bytes into a 16-bit value.
pub(crate) fn join(low: u8, high: u8) -> (w: u16)
    ensures
        w == word(low, high),
{
    let w: u16 = ((high as u16) << 8) | (low as u16);
    assert(((high as u16) << 8) | (low as u16) == (high as u16) * 256 + (low as u16))
        by (bit_vector);
    w
}

/// The upper eight bits of `w`.
pub(crate) fn upper(w: u16) -> (b: u8)
    ensures
        b == high_byte(w),
{
    let b: u8 = (w >> 8) as u8;
    assert((w >> 8) == w / 256) by (bit_vector);
    b
}

/// The lower eight bits of `w`.
pub(crate) fn lower(w: u16) -> (b: u8)
    ensures
        b == low_byte(w),
{
    let b: u8 = (w & 0x00FF) as u8;
    assert((w & 0x00FF) == w % 256) by (bit_vector);
    b
}

impl CPU {
    /// The contents of the attached memory, or `None` while no bus is attached.
    pub open spec fn memory(&self) -> Option<Map<u16, u8>> {
        match self.bus {
            Some(bus) => Some(bus@),
            None => None,
        }
    }

    /// A processor with every register zero but the status register, in
    /// which only the unused bit is set, and with no bus attached.
    pub fn new() -> (cpu: Self)
        ensures
            cpu@ == (State {
                regx: 0,
                regy: 0,
                acu: 0,
                stack_pointer: 0,
                program_counter: 0,
                status: 0x20,
                fetched: 0,
                abs_addr: 0,
                rel_addr: 0,
                temp_op: 0,
                cur_opcode: 0,
                cycles: 0,
                clock_count: 0,
                bus: None,
            }),
    {
        CPU {
            regx: 0,
            regy: 0,
            acu: 0,
            stack_pointer: 0,
            program_counter: 0,
            status: 0x20,
            fetched: 0,
            abs_addr: 0,
            rel_addr: 0,
            temp_op: 0,
            cur_opcode: 0,
            cycles: 0,
            clock_count: 0,
            bus: None,
        }
    }

    /// Attaches `bus`, replacing any bus attached before. Registers keep their values.
    pub fn connect_bus(&mut self, bus: BUS)
        ensures
            final(self)@ == (State { bus: Some(bus@), ..old(self)@ }),
    {
        self.bus = Some(bus);
    }

    /// The byte at `address`, or 0 while no bus is attached.
    pub fn read(&self, address: u16) -> (data: u8)
        ensures
            data == self@.peek(address),
    {
        match &self.bus {
            Some(bus) => bus.read(address),
            None => 0,
        }
    }

    /// Stores `data` at `address`; does nothing while no bus is attached.
    pub fn write(&mut self, address: u16, data: u8)
        ensures
            final(self)@ == old(self)@.poke(address, data),
    {
        match &mut self.bus {
            Some(bus) => bus.write(address, data),
            None => {},
        }
    }

    /// The address in page one that the stack pointer names.
    pub fn get_stack_address(&self) -> (address: u16)
        ensures
            address == self@.stack_address(),
            address == 0x0100 + self.stack_pointer,
    {
        0x0100u16 + self.stack_pointer as u16
    }

    pub fn get_accumulator(&self) -> (value: u8)
        ensures
            value == self.acu,
    {
        self.acu
    }

    pub fn get_register_x(&self) -> (value: u8)
        ensures
            value == self.regx,
    {
        self.regx
    }

    pub fn get_register_y(&self) -> (value: u8)
        ensures
            value == self.regy,
    {
        self.regy
    }

    pub fn get_program_counter(&self) -> (value: u16)
        ensures
            value == self.program_counter,
    {
        self.program_counter
    }

    /// True exactly when no instruction is in flight.
    pub fn complete(&self) -> (done: bool)
        ensures
            done == (self.cycles == 0),
    {
        self.cycles == 0
    }

    /// 1 if `flag` is set in the status register, else 0.
    pub fn get_flag(&self, flag: StatusFlags) -> (value: u8)
        ensures
            value == self@.flag_bit(flag),
    {
        let bit: u8 = flag.bit();
        if (self.status & bit) > 0 {
            1
        } else {
            0
        }
    }

    /// Sets or clears `flag`; every other flag keeps its value, but the
    /// unused bit, which reads 1 afterwards.
    pub fn set_flag(&mut self, flag: StatusFlags, enable: bool)
        ensures
            final(self)@ == old(self)@.with_flag(flag, enable),
    {
        let bit: u8 = flag.bit();
        if enable {
            self.status = self.status | bit | 0x20;
        } else {
            self.status = (self.status & !bit) | 0x20;
        }
    }

    /// Clears every flag whose bit is set in `flags`; the unused bit reads 1 afterwards.
    pub fn clear_flags(&mut self, flags: u8)
        ensures
            final(self)@ == old(self)@.without_flags(flags),
    {
        self.status = (self.status & !flags) | 0x20;
    }

    /// One clock pulse. An idle processor reads the opcode at the program
    /// counter, loads the cost of its instruction, and runs its addressing
    /// mode and its operation; one more cycle is added only if both ask
    /// for it. Every pulse, idle or not, then counts once and uses up one
    /// of the remaining cycles, so an instruction that costs N cycles
    /// occupies N pulses.
    pub fn clock(&mut self)
        ensures
            final(self)@ == old(self)@.after_clock(),
            final(self).clock_count == wrap32(old(self).clock_count + 1),
            old(self).cycles > 0 ==> final(self).cycles == old(self).cycles - 1,
            old(self).cycles == 0 ==> final(self).cycles == old(self)@.cost() - 1,
    {
        let ghost before = self@;
        if self.cycles == 0 {
            proof {
                law_instruction_cost(before);
            }
            self.cur_opcode = self.read(self.program_counter);
            self.set_flag(StatusFlags::G, true);
            self.program_counter = advance(self.program_counter, 1);
            let inst = lookup(self.cur_opcode);
            self.cycles = inst.cycles;
            let ghost decoded = self@;
            let wanted: u8 = resolve(inst.addr_mode, self);
            let ghost addressed = self@;
            let accepted: u8 = execute(inst.operate, self);
            proof {
                lemma_resolved_frame(inst.addr_mode, decoded);
                lemma_executed_frame(inst.operate, addressed);
            }
            assert(wanted <= 1 && accepted <= 1 ==> (wanted & accepted) == (if wanted == 1
                && accepted == 1 {
                1u8
            } else {
                0u8
            })) by (bit_vector);
            self.cycles = bump(self.cycles, wanted & accepted);
            self.set_flag(StatusFlags::G, true);
        }
        self.clock_count = self.clock_count.wrapping_add(1);
        self.cycles = drop_by(self.cycles, 1);
    }

    /// Enters an interrupt handler: pushes the program counter, high byte
    /// first, then the status register with Break clear and
    /// Interrupt-Disable set, and continues at the address stored at `vector`.
    fn interrupt(&mut self, vector: u16, cycles: u8)
        ensures
            final(self)@ == old(self)@.interrupted(vector, cycles),
    {
        push_word(self, self.program_counter);
        self.set_flag(StatusFlags::B, false);
        self.set_flag(StatusFlags::G, true);
        self.set_flag(StatusFlags::I, true);
        self.push(self.status);
        self.program_counter = self.read_word(vector);
        self.cycles = cycles;
    }

    /// The maskable interrupt. While Interrupt-Disable is set it changes
    /// nothing. Otherwise it pushes the program counter and the status
    /// register, sets Interrupt-Disable, continues at the address stored at
    /// 0xFFFE and takes seven cycles.
    pub fn interrupt_request(&mut self)
        ensures
            final(self)@ == old(self)@.after_interrupt_request(),
            old(self)@.flag(StatusFlags::I) ==> *final(self) == *old(self),
            !old(self)@.flag(StatusFlags::I) ==> final(self)@ == old(self)@.interrupted(
                0xFFFEu16,
                7u8,
            ),
    {
        if self.get_flag(StatusFlags::I) == 0 {
            self.interrupt(0xFFFE, 7);
        }
    }

    /// The non-maskable interrupt: as the maskable one, whatever
    /// Interrupt-Disable holds; it continues at the address stored at 0xFFFA
    /// and takes eight cycles.
    pub fn non_maskable_input(&mut self)
        ensures
            final(self)@ == old(self)@.interrupted(0xFFFAu16, 8u8),
            final(self)@ == old(self)@.after_non_maskable_input(),
    {
        self.interrupt(0xFFFA, 8);
    }

    /// Reset: clears X, Y, the accumulator, the effective address, the
    /// branch displacement and the fetched operand; the stack pointer
    /// becomes 0xFD and the status register holds the unused bit alone; the
    /// program counter is loaded from 0xFFFC and 0xFFFD; eight cycles
    /// remain. Memory is not written.
    pub fn reset(&mut self)
        ensures
            final(self)@ == old(self)@.after_reset(),
            final(self)@.bus == old(self)@.bus,
    {
        self.status = StatusFlags::G.bit();
        self.stack_pointer = 0xFD;
        self.regx = 0;
        self.regy = 0;
        self.acu = 0;
        self.abs_addr = 0x0000;
        self.rel_addr = 0x0000;
        self.fetched = 0x00;
        self.program_counter = self.read_word(0xFFFC);
        self.cycles = 8;
    }

    /// Loads the operand of the instruction in flight: the accumulator in
    /// implied mode, which reads no memory; else the byte at the effective
    /// address, by a single read. Nothing but `fetched` changes.
    pub fn fetch(&mut self)
        ensures
            final(self)@ == old(self)@.after_fetch(),
            old(self)@.implied() ==> final(self).fetched == old(self).acu,
            !old(self)@.implied() ==> final(self).fetched == old(self)@.peek(old(self).abs_addr),
    {
        if is_implied(self.cur_opcode) {
            self.fetched = self.acu;
        } else {
            self.fetched = self.read(self.abs_addr);
        }
    }

    /// Pushes one byte: writes it at the stack address, then moves the stack pointer down.
    pub(crate) fn push(&mut self, data: u8)
        ensures
            final(self)@ == old(self)@.push(data),
    {
        let address: u16 = self.get_stack_address();
        self.write(address, data);
        self.stack_pointer = drop_by(self.stack_pointer, 1);
    }

    /// The little-endian 16-bit value stored at `address` and the address after it.
    pub(crate) fn read_word(&self, address: u16) -> (w: u16)
        ensures
            w == self@.peek_word(address),
    {
        let low: u8 = self.read(address);
        let high: u8 = self.read(advance(address, 1));
        join(low, high)
    }
}

} // verus!
