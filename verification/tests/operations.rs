use cpu6502::bus::BUS;
use cpu6502::cpu::{StatusFlags, CPU};
use cpu6502::opcode::{
    adc, and, asl, bcc, bcs, beq, bit, bmi, bne, bpl, brk, bvc, bvs, check_if_zero_or_negative_u16,
    check_if_zero_or_negative_u8, clc, cld, cli, clv, cmp, cpx, cpy, dec, dex, dey, eor, execute,
    inc, inx, iny, jmp, jsr, lda, ldx, ldy, lsr, nop, sbc,
};
use cpu6502::table::Operation;

const OPERAND: u16 = 0x0010;

/// A processor whose instruction in flight has `opcode` and finds `operand` in memory.
fn with_operand(opcode: u8, operand: u8) -> CPU {
    let mut bus = BUS::new();
    bus.write(OPERAND, operand);
    let mut cpu = CPU::new();
    cpu.connect_bus(bus);
    cpu.cur_opcode = opcode;
    cpu.abs_addr = OPERAND;
    cpu
}

fn flags(cpu: &CPU) -> (u8, u8, u8, u8) {
    (
        cpu.get_flag(StatusFlags::C),
        cpu.get_flag(StatusFlags::Z),
        cpu.get_flag(StatusFlags::V),
        cpu.get_flag(StatusFlags::N),
    )
}

#[test]
fn fetch_in_implied_mode_takes_the_accumulator() {
    let mut cpu = with_operand(0x0A, 0x77);
    cpu.acu = 0x33;
    cpu.fetch();
    assert_eq!(cpu.fetched, 0x33);
    cpu.fetch();
    assert_eq!(cpu.fetched, 0x33);
    assert_eq!(cpu.read(OPERAND), 0x77);
}

#[test]
fn fetch_in_a_memory_mode_reads_the_effective_address() {
    let mut cpu = with_operand(0xA5, 0x77);
    cpu.acu = 0x33;
    cpu.fetch();
    assert_eq!(cpu.fetched, 0x77);
    cpu.fetch();
    assert_eq!(cpu.fetched, 0x77);
    assert_eq!(cpu.acu, 0x33);
}

#[test]
fn fetch_at_an_opcode_without_an_instruction_takes_the_accumulator() {
    let mut cpu = with_operand(0x02, 0x77);
    cpu.acu = 0x33;
    cpu.fetch();
    assert_eq!(cpu.fetched, 0x33);
}

#[test]
fn fetch_without_a_bus_reads_zero() {
    let mut cpu = CPU::new();
    cpu.cur_opcode = 0xA5;
    cpu.fetched = 0x11;
    cpu.fetch();
    assert_eq!(cpu.fetched, 0x00);
}

#[test]
fn adc_signed_overflow() {
    let mut cpu = with_operand(0x65, 0x50);
    cpu.acu = 0x50;
    assert_eq!(adc(&mut cpu), 1);
    assert_eq!(cpu.acu, 0xA0);
    assert_eq!(cpu.get_flag(StatusFlags::V), 1);
    assert_eq!(cpu.get_flag(StatusFlags::C), 0);
    assert_eq!(cpu.get_flag(StatusFlags::N), 1);
    assert_eq!(cpu.get_flag(StatusFlags::Z), 0);
}

#[test]
fn adc_carries_out_of_bit_seven() {
    let mut cpu = with_operand(0x65, 0x01);
    cpu.acu = 0xFF;
    cpu.status = 0xE0;
    adc(&mut cpu);
    assert_eq!(cpu.acu, 0x00);
    assert_eq!(flags(&cpu), (1, 1, 0, 0));
}

#[test]
fn adc_adds_the_carry_in() {
    let mut cpu = with_operand(0x65, 0x01);
    cpu.acu = 0x01;
    cpu.set_flag(StatusFlags::C, true);
    adc(&mut cpu);
    assert_eq!(cpu.acu, 0x03);
    assert_eq!(flags(&cpu), (0, 0, 0, 0));
}

#[test]
fn adc_of_two_negatives_overflows() {
    let mut cpu = with_operand(0x65, 0x80);
    cpu.acu = 0x80;
    adc(&mut cpu);
    assert_eq!(cpu.acu, 0x00);
    assert_eq!(flags(&cpu), (1, 1, 1, 0));
}

#[test]
fn sbc_adds_the_complement_of_the_operand() {
    let mut cpu = with_operand(0xE5, 0x10);
    cpu.acu = 0x50;
    cpu.set_flag(StatusFlags::C, true);
    assert_eq!(sbc(&mut cpu), 1);
    assert_eq!(cpu.acu, 0x40);
    assert_eq!(flags(&cpu), (1, 0, 0, 0));
}

#[test]
fn sbc_with_borrow_pending() {
    let mut cpu = with_operand(0xE5, 0x10);
    cpu.acu = 0x50;
    sbc(&mut cpu);
    assert_eq!(cpu.acu, 0x3F);
    assert_eq!(flags(&cpu), (1, 0, 0, 0));
}

#[test]
fn sbc_below_zero_clears_carry() {
    let mut cpu = with_operand(0xE5, 0xF0);
    cpu.acu = 0x50;
    cpu.set_flag(StatusFlags::C, true);
    sbc(&mut cpu);
    assert_eq!(cpu.acu, 0x60);
    assert_eq!(flags(&cpu), (0, 0, 0, 0));
}

#[test]
fn sbc_equal_values_give_zero() {
    let mut cpu = with_operand(0xE5, 0x90);
    cpu.acu = 0x90;
    cpu.set_flag(StatusFlags::C, true);
    sbc(&mut cpu);
    assert_eq!(cpu.acu, 0x00);
    assert_eq!(flags(&cpu), (1, 1, 1, 0));
}

#[test]
fn and_combines_and_sets_negative() {
    let mut cpu = with_operand(0x25, 0x8F);
    cpu.acu = 0xF0;
    assert_eq!(and(&mut cpu), 1);
    assert_eq!(cpu.acu, 0x80);
    assert_eq!(flags(&cpu), (0, 0, 0, 1));
}

#[test]
fn and_to_zero_sets_zero_and_clears_negative() {
    let mut cpu = with_operand(0x25, 0x0F);
    cpu.acu = 0xF0;
    cpu.status = 0xA1;
    and(&mut cpu);
    assert_eq!(cpu.acu, 0x00);
    assert_eq!(flags(&cpu), (1, 1, 0, 0));
}

#[test]
fn eor_combines_and_sets_flags() {
    let mut cpu = with_operand(0x45, 0xFF);
    cpu.acu = 0xFF;
    cpu.status = 0xA0;
    assert_eq!(eor(&mut cpu), 1);
    assert_eq!(cpu.acu, 0x00);
    assert_eq!(flags(&cpu), (0, 1, 0, 0));

    let mut other = with_operand(0x45, 0x81);
    other.acu = 0x01;
    eor(&mut other);
    assert_eq!(other.acu, 0x80);
    assert_eq!(flags(&other), (0, 0, 0, 1));
}

#[test]
fn asl_on_the_accumulator() {
    let mut cpu = with_operand(0x0A, 0x55);
    cpu.acu = 0x81;
    assert_eq!(asl(&mut cpu), 0);
    assert_eq!(cpu.acu, 0x02);
    assert_eq!(flags(&cpu), (1, 0, 0, 0));
    assert_eq!(cpu.read(OPERAND), 0x55);
}

#[test]
fn asl_on_memory() {
    let mut cpu = with_operand(0x06, 0x40);
    cpu.acu = 0x11;
    cpu.set_flag(StatusFlags::C, true);
    assert_eq!(asl(&mut cpu), 0);
    assert_eq!(cpu.read(OPERAND), 0x80);
    assert_eq!(cpu.acu, 0x11);
    assert_eq!(flags(&cpu), (0, 0, 0, 1));
}

#[test]
fn asl_shifts_the_last_bit_out() {
    let mut cpu = with_operand(0x0A, 0x00);
    cpu.acu = 0x80;
    asl(&mut cpu);
    assert_eq!(cpu.acu, 0x00);
    assert_eq!(flags(&cpu), (1, 1, 0, 0));
}

#[test]
fn lsr_on_the_accumulator() {
    let mut cpu = with_operand(0x4A, 0x55);
    cpu.acu = 0x01;
    cpu.status = 0xA0;
    assert_eq!(lsr(&mut cpu), 0);
    assert_eq!(cpu.acu, 0x00);
    assert_eq!(flags(&cpu), (1, 1, 0, 0));
    assert_eq!(cpu.read(OPERAND), 0x55);
}

#[test]
fn lsr_on_memory() {
    let mut cpu = with_operand(0x46, 0xFE);
    cpu.acu = 0x11;
    cpu.set_flag(StatusFlags::C, true);
    lsr(&mut cpu);
    assert_eq!(cpu.read(OPERAND), 0x7F);
    assert_eq!(cpu.acu, 0x11);
    assert_eq!(flags(&cpu), (0, 0, 0, 0));
}

#[test]
fn bit_tests_without_changing_the_accumulator() {
    let mut cpu = with_operand(0x24, 0xC0);
    cpu.acu = 0x0F;
    assert_eq!(bit(&mut cpu), 0);
    assert_eq!(cpu.acu, 0x0F);
    assert_eq!(flags(&cpu), (0, 1, 1, 1));

    let mut other = with_operand(0x24, 0x01);
    other.acu = 0xFF;
    other.status = 0xE2;
    bit(&mut other);
    assert_eq!(flags(&other), (0, 0, 0, 0));
}

fn ready_to_branch(status: u8, program_counter: u16, displacement: u16) -> CPU {
    let mut cpu = CPU::new();
    cpu.status = status;
    cpu.program_counter = program_counter;
    cpu.rel_addr = displacement;
    cpu.cycles = 2;
    cpu
}

#[test]
fn branch_taken_within_the_page_costs_one_cycle() {
    let mut cpu = ready_to_branch(0x20, 0x8002, 0x0010);
    assert_eq!(bcc(&mut cpu), 0);
    assert_eq!(cpu.program_counter, 0x8012);
    assert_eq!(cpu.abs_addr, 0x8012);
    assert_eq!(cpu.cycles, 3);
}

#[test]
fn branch_taken_across_a_page_costs_two_cycles() {
    let mut cpu = ready_to_branch(0x20, 0x80F0, 0x0020);
    bcc(&mut cpu);
    assert_eq!(cpu.program_counter, 0x8110);
    assert_eq!(cpu.cycles, 4);
}

#[test]
fn branch_backwards_across_a_page() {
    let mut cpu = ready_to_branch(0x20, 0x8002, 0xFFFC);
    bcc(&mut cpu);
    assert_eq!(cpu.program_counter, 0x7FFE);
    assert_eq!(cpu.cycles, 4);

    let mut near = ready_to_branch(0x20, 0x8010, 0xFFFC);
    bcc(&mut near);
    assert_eq!(near.program_counter, 0x800C);
    assert_eq!(near.cycles, 3);
}

#[test]
fn branch_not_taken_changes_nothing() {
    let mut cpu = ready_to_branch(0x21, 0x8002, 0x0010);
    cpu.abs_addr = 0x1111;
    assert_eq!(bcc(&mut cpu), 0);
    assert_eq!(cpu.program_counter, 0x8002);
    assert_eq!(cpu.abs_addr, 0x1111);
    assert_eq!(cpu.cycles, 2);
    assert_eq!(cpu.status, 0x21);
}

#[test]
fn each_branch_follows_its_own_flag() {
    let cases: [(fn(&mut CPU) -> u8, u8, u8); 8] = [
        (bcc, 0x20, 0x21),
        (bcs, 0x21, 0x20),
        (beq, 0x22, 0x20),
        (bne, 0x20, 0x22),
        (bmi, 0xA0, 0x20),
        (bpl, 0x20, 0xA0),
        (bvs, 0x60, 0x20),
        (bvc, 0x20, 0x60),
    ];
    for (branch, taken_with, skipped_with) in cases {
        let mut taken = ready_to_branch(taken_with, 0x8002, 0x0004);
        assert_eq!(branch(&mut taken), 0);
        assert_eq!(taken.program_counter, 0x8006);
        assert_eq!(taken.cycles, 3);
        let mut skipped = ready_to_branch(skipped_with, 0x8002, 0x0004);
        assert_eq!(branch(&mut skipped), 0);
        assert_eq!(skipped.program_counter, 0x8002);
        assert_eq!(skipped.cycles, 2);
    }
}

#[test]
fn brk_pushes_and_jumps_through_the_vector() {
    let mut bus = BUS::new();
    bus.write(0xFFFE, 0x00);
    bus.write(0xFFFF, 0x90);
    let mut cpu = CPU::new();
    cpu.connect_bus(bus);
    cpu.program_counter = 0x8001;
    cpu.stack_pointer = 0xFD;
    cpu.status = 0x21;
    assert_eq!(brk(&mut cpu), 0);
    assert_eq!(cpu.program_counter, 0x9000);
    assert_eq!(cpu.stack_pointer, 0xFA);
    assert_eq!(cpu.read(0x01FD), 0x80);
    assert_eq!(cpu.read(0x01FC), 0x02);
    assert_eq!(cpu.read(0x01FB), 0x35);
    assert_eq!(cpu.status, 0x35);
}

#[test]
fn clear_instructions_clear_one_flag_each() {
    let mut cpu = CPU::new();
    cpu.status = 0xFF;
    assert_eq!(clc(&mut cpu), 0);
    assert_eq!(cpu.status, 0xFE);
    assert_eq!(cld(&mut cpu), 0);
    assert_eq!(cpu.status, 0xF6);
    assert_eq!(cli(&mut cpu), 0);
    assert_eq!(cpu.status, 0xF2);
    assert_eq!(clv(&mut cpu), 0);
    assert_eq!(cpu.status, 0xB2);
}

#[test]
fn cmp_compares_the_accumulator() {
    let mut equal = with_operand(0xC5, 0x40);
    equal.acu = 0x40;
    assert_eq!(cmp(&mut equal), 1);
    assert_eq!(flags(&equal), (1, 1, 0, 0));
    assert_eq!(equal.acu, 0x40);

    let mut below = with_operand(0xC5, 0x41);
    below.acu = 0x40;
    below.status = 0x23;
    cmp(&mut below);
    assert_eq!(flags(&below), (0, 0, 0, 1));

    let mut above = with_operand(0xC5, 0x40);
    above.acu = 0x41;
    above.status = 0xA2;
    cmp(&mut above);
    assert_eq!(flags(&above), (1, 0, 0, 0));
}

#[test]
fn cpx_compares_x() {
    let mut cpu = with_operand(0xE4, 0x10);
    cpu.regx = 0x10;
    cpu.acu = 0x00;
    cpu.regy = 0x00;
    assert_eq!(cpx(&mut cpu), 0);
    assert_eq!(flags(&cpu), (1, 1, 0, 0));

    let mut below = with_operand(0xE4, 0x10);
    below.regx = 0x0F;
    below.acu = 0xFF;
    cpx(&mut below);
    assert_eq!(flags(&below), (0, 0, 0, 1));
}

#[test]
fn cpy_compares_y() {
    let mut cpu = with_operand(0xC4, 0x10);
    cpu.regy = 0x90;
    cpu.acu = 0x00;
    cpu.regx = 0x00;
    assert_eq!(cpy(&mut cpu), 0);
    assert_eq!(flags(&cpu), (1, 0, 0, 1));
}

#[test]
fn dec_and_inc_wrap_in_memory() {
    let mut cpu = with_operand(0xC6, 0x00);
    assert_eq!(dec(&mut cpu), 0);
    assert_eq!(cpu.read(OPERAND), 0xFF);
    assert_eq!(flags(&cpu), (0, 0, 0, 1));

    let mut up = with_operand(0xE6, 0xFF);
    up.status = 0xA0;
    assert_eq!(inc(&mut up), 0);
    assert_eq!(up.read(OPERAND), 0x00);
    assert_eq!(flags(&up), (0, 1, 0, 0));

    let mut plain = with_operand(0xE6, 0x41);
    inc(&mut plain);
    assert_eq!(plain.read(OPERAND), 0x42);
    assert_eq!(flags(&plain), (0, 0, 0, 0));
}

#[test]
fn register_steps_wrap() {
    let mut cpu = CPU::new();
    assert_eq!(dex(&mut cpu), 0);
    assert_eq!(cpu.regx, 0xFF);
    assert_eq!(flags(&cpu), (0, 0, 0, 1));
    assert_eq!(inx(&mut cpu), 0);
    assert_eq!(cpu.regx, 0x00);
    assert_eq!(flags(&cpu), (0, 1, 0, 0));
    assert_eq!(dey(&mut cpu), 0);
    assert_eq!(cpu.regy, 0xFF);
    assert_eq!(flags(&cpu), (0, 0, 0, 1));
    assert_eq!(iny(&mut cpu), 0);
    assert_eq!(cpu.regy, 0x00);
    assert_eq!(iny(&mut cpu), 0);
    assert_eq!(cpu.regy, 0x01);
    assert_eq!(flags(&cpu), (0, 0, 0, 0));
    assert_eq!(cpu.acu, 0);
}

#[test]
fn jmp_moves_the_program_counter() {
    let mut cpu = CPU::new();
    cpu.abs_addr = 0x1234;
    cpu.program_counter = 0x8003;
    assert_eq!(jmp(&mut cpu), 0);
    assert_eq!(cpu.program_counter, 0x1234);
}

#[test]
fn jsr_pushes_the_return_address() {
    let mut cpu = with_operand(0x20, 0x00);
    cpu.abs_addr = 0x9000;
    cpu.program_counter = 0x8003;
    cpu.stack_pointer = 0xFD;
    assert_eq!(jsr(&mut cpu), 0);
    assert_eq!(cpu.program_counter, 0x9000);
    assert_eq!(cpu.read(0x01FD), 0x80);
    assert_eq!(cpu.read(0x01FC), 0x02);
    assert_eq!(cpu.stack_pointer, 0xFB);
}

#[test]
fn stack_pointer_wraps_within_page_one() {
    let mut cpu = with_operand(0x20, 0x00);
    cpu.abs_addr = 0x9000;
    cpu.program_counter = 0x0000;
    cpu.stack_pointer = 0x00;
    jsr(&mut cpu);
    assert_eq!(cpu.read(0x0100), 0xFF);
    assert_eq!(cpu.read(0x01FF), 0xFF);
    assert_eq!(cpu.stack_pointer, 0xFE);
}

#[test]
fn loads_copy_the_operand_and_set_flags() {
    let mut a = with_operand(0xA5, 0x80);
    assert_eq!(lda(&mut a), 1);
    assert_eq!(a.acu, 0x80);
    assert_eq!(flags(&a), (0, 0, 0, 1));

    let mut x = with_operand(0xA6, 0x00);
    x.status = 0xA0;
    assert_eq!(ldx(&mut x), 1);
    assert_eq!(x.regx, 0x00);
    assert_eq!(flags(&x), (0, 1, 0, 0));

    let mut y = with_operand(0xA4, 0x7F);
    y.status = 0xA2;
    assert_eq!(ldy(&mut y), 1);
    assert_eq!(y.regy, 0x7F);
    assert_eq!(flags(&y), (0, 0, 0, 0));
}

#[test]
fn nop_changes_nothing_at_its_own_opcode() {
    let mut cpu = with_operand(0xEA, 0x12);
    cpu.program_counter = 0x8001;
    cpu.status = 0x63;
    assert_eq!(nop(&mut cpu), 0);
    assert_eq!(cpu.program_counter, 0x8001);
    assert_eq!(cpu.status, 0x63);
    assert_eq!(cpu.read(OPERAND), 0x12);
}

#[test]
fn nop_steps_over_an_operand_at_six_opcodes() {
    for opcode in [0x1Cu8, 0x3C, 0x5C, 0x7C, 0xDC, 0xFC] {
        let mut cpu = with_operand(opcode, 0x12);
        cpu.program_counter = 0x8001;
        assert_eq!(nop(&mut cpu), 0);
        assert_eq!(cpu.program_counter, 0x8002);
        assert_eq!(cpu.status, 0x20);
    }
    for opcode in [0x0Cu8, 0x1A, 0x80, 0xEA] {
        let mut cpu = with_operand(opcode, 0x12);
        cpu.program_counter = 0x8001;
        nop(&mut cpu);
        assert_eq!(cpu.program_counter, 0x8001);
    }
}

#[test]
fn zero_or_negative_rule_on_a_byte() {
    let mut cpu = CPU::new();
    check_if_zero_or_negative_u8(&mut cpu, 0x00);
    assert_eq!(cpu.status, 0x22);
    let mut cpu = CPU::new();
    check_if_zero_or_negative_u8(&mut cpu, 0x80);
    assert_eq!(cpu.status, 0xA0);
    let mut cpu = CPU::new();
    check_if_zero_or_negative_u8(&mut cpu, 0x7F);
    assert_eq!(cpu.status, 0x20);
}

#[test]
fn zero_or_negative_rule_clears_nothing() {
    let mut cpu = CPU::new();
    cpu.status = 0xA0;
    check_if_zero_or_negative_u8(&mut cpu, 0x00);
    assert_eq!(cpu.status, 0xA2);
    check_if_zero_or_negative_u8(&mut cpu, 0x01);
    assert_eq!(cpu.status, 0xA2);
}

#[test]
fn zero_or_negative_rule_reads_the_low_byte_of_a_word() {
    let mut cpu = CPU::new();
    check_if_zero_or_negative_u16(&mut cpu, 0x0100);
    assert_eq!(cpu.status, 0x22);
    let mut cpu = CPU::new();
    check_if_zero_or_negative_u16(&mut cpu, 0x0180);
    assert_eq!(cpu.status, 0xA0);
    let mut cpu = CPU::new();
    check_if_zero_or_negative_u16(&mut cpu, 0x8001);
    assert_eq!(cpu.status, 0x20);
}

#[test]
fn execute_runs_the_named_operation() {
    let mut cpu = with_operand(0xA5, 0x42);
    assert_eq!(execute(Operation::Lda, &mut cpu), 1);
    assert_eq!(cpu.acu, 0x42);
    assert_eq!(execute(Operation::Inx, &mut cpu), 0);
    assert_eq!(cpu.regx, 0x01);
    assert_eq!(execute(Operation::Cmp, &mut cpu), 1);
    assert_eq!(flags(&cpu), (1, 1, 0, 0));
    assert_eq!(execute(Operation::Cpx, &mut cpu), 0);
    assert_eq!(flags(&cpu), (0, 0, 0, 1));
}
