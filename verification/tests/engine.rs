use cpu6502::bus::BUS;
use cpu6502::cpu::{StatusFlags, CPU};
use cpu6502::table::{is_implied, lookup, AddrMode, Operation};

fn machine_with(bytes: &[(u16, u8)]) -> CPU {
    let mut bus = BUS::new();
    for (address, data) in bytes {
        bus.write(*address, *data);
    }
    let mut cpu = CPU::new();
    cpu.connect_bus(bus);
    cpu
}

fn registers(cpu: &CPU) -> (u8, u8, u8, u8, u16, u8, u8, u16, u16, u8, u8, u32) {
    (
        cpu.regx, cpu.regy, cpu.acu, cpu.stack_pointer, cpu.program_counter, cpu.status,
        cpu.fetched, cpu.abs_addr, cpu.rel_addr, cpu.cur_opcode, cpu.cycles, cpu.clock_count,
    )
}

#[test]
fn reset_loads_the_vector_and_clears_registers() {
    let mut cpu = machine_with(&[(0xFFFC, 0x00), (0xFFFD, 0x80)]);
    cpu.regx = 1;
    cpu.regy = 2;
    cpu.acu = 3;
    cpu.status = 0xFF;
    cpu.abs_addr = 0x1234;
    cpu.rel_addr = 0x0012;
    cpu.fetched = 0x56;
    cpu.stack_pointer = 0x10;
    cpu.reset();
    assert_eq!(cpu.program_counter, 0x8000);
    assert_eq!(cpu.stack_pointer, 0xFD);
    assert_eq!(cpu.cycles, 8);
    assert_eq!(cpu.status, 0x20);
    assert_eq!((cpu.regx, cpu.regy, cpu.acu), (0, 0, 0));
    assert_eq!((cpu.abs_addr, cpu.rel_addr, cpu.fetched), (0, 0, 0));
    assert!(!cpu.complete());
}

#[test]
fn reset_writes_nothing_to_the_stack() {
    let mut cpu = machine_with(&[(0xFFFC, 0x34), (0xFFFD, 0x12), (0x0110, 0xAB)]);
    cpu.stack_pointer = 0x10;
    cpu.program_counter = 0x4321;
    cpu.reset();
    assert_eq!(cpu.program_counter, 0x1234);
    assert_eq!(cpu.read(0x0110), 0xAB);
    assert_eq!(cpu.read(0x010F), 0x00);
    assert_eq!(cpu.read(0x01FD), 0x00);
    assert_eq!(cpu.read(0x01FC), 0x00);
}

#[test]
fn reset_without_a_bus_starts_at_zero() {
    let mut cpu = CPU::new();
    cpu.program_counter = 0x4321;
    cpu.reset();
    assert_eq!(cpu.program_counter, 0x0000);
    assert_eq!(cpu.cycles, 8);
    assert_eq!(cpu.stack_pointer, 0xFD);
}

#[test]
fn reset_takes_eight_pulses() {
    let mut cpu = machine_with(&[(0xFFFC, 0x00), (0xFFFD, 0x80), (0x8000, 0xEA)]);
    cpu.reset();
    for _ in 0..7 {
        cpu.clock();
        assert!(!cpu.complete());
    }
    cpu.clock();
    assert!(cpu.complete());
    assert_eq!(cpu.program_counter, 0x8000);
    assert_eq!(cpu.clock_count, 8);
}

#[test]
fn two_cycle_instruction_occupies_two_pulses() {
    let mut cpu = machine_with(&[(0x8000, 0xEA), (0x8001, 0xEA)]);
    cpu.program_counter = 0x8000;
    assert!(cpu.complete());
    cpu.clock();
    assert!(!cpu.complete());
    assert_eq!(cpu.cycles, 1);
    assert_eq!(cpu.clock_count, 1);
    assert_eq!(cpu.program_counter, 0x8001);
    assert_eq!(cpu.cur_opcode, 0xEA);
    cpu.clock();
    assert!(cpu.complete());
    assert_eq!(cpu.clock_count, 2);
    assert_eq!(cpu.program_counter, 0x8001);
    cpu.clock();
    assert!(!cpu.complete());
    assert_eq!(cpu.clock_count, 3);
    assert_eq!(cpu.program_counter, 0x8002);
    cpu.clock();
    assert!(cpu.complete());
    assert_eq!(cpu.clock_count, 4);
}

#[test]
fn pulse_counter_wraps() {
    let mut cpu = machine_with(&[(0x8000, 0xEA)]);
    cpu.program_counter = 0x8000;
    cpu.clock_count = u32::MAX;
    cpu.clock();
    assert_eq!(cpu.clock_count, 0);
}

#[test]
fn clock_runs_an_immediate_load() {
    let mut cpu = machine_with(&[(0x8000, 0xA9), (0x8001, 0x42)]);
    cpu.program_counter = 0x8000;
    cpu.clock();
    assert_eq!(cpu.acu, 0x42);
    assert_eq!(cpu.program_counter, 0x8002);
    assert_eq!(cpu.cycles, 1);
    assert_eq!(cpu.status, 0x20);
}

#[test]
fn clock_sets_the_unused_bit() {
    let mut cpu = machine_with(&[(0x8000, 0xEA)]);
    cpu.program_counter = 0x8000;
    cpu.status = 0x00;
    cpu.clock();
    assert_eq!(cpu.status, 0x20);
}

#[test]
fn indexed_load_across_a_page_is_granted_a_cycle() {
    let mut cpu = machine_with(&[(0x8000, 0xBD), (0x8001, 0xFF), (0x8002, 0x12), (0x1300, 0x99)]);
    cpu.program_counter = 0x8000;
    cpu.regx = 0x01;
    cpu.clock();
    assert_eq!(cpu.acu, 0x99);
    assert_eq!(cpu.program_counter, 0x8003);
    assert_eq!(cpu.cycles, 4);
    let mut pulses = 1;
    while !cpu.complete() {
        cpu.clock();
        pulses += 1;
    }
    assert_eq!(pulses, 5);
}

#[test]
fn indexed_load_within_a_page_costs_its_base() {
    let mut cpu = machine_with(&[(0x8000, 0xBD), (0x8001, 0x10), (0x8002, 0x12), (0x1211, 0x99)]);
    cpu.program_counter = 0x8000;
    cpu.regx = 0x01;
    cpu.clock();
    assert_eq!(cpu.acu, 0x99);
    assert_eq!(cpu.cycles, 3);
}

#[test]
fn indexed_shift_across_a_page_is_granted_nothing() {
    let mut cpu = machine_with(&[(0x8000, 0x1E), (0x8001, 0xFF), (0x8002, 0x12), (0x1300, 0x41)]);
    cpu.program_counter = 0x8000;
    cpu.regx = 0x01;
    cpu.clock();
    assert_eq!(cpu.read(0x1300), 0x82);
    assert_eq!(cpu.cycles, 6);
}

#[test]
fn indirect_y_load_across_a_page_is_granted_a_cycle() {
    let mut cpu = machine_with(&[
        (0x8000, 0xB1), (0x8001, 0x40), (0x0040, 0xFF), (0x0041, 0x20), (0x2100, 0x07),
    ]);
    cpu.program_counter = 0x8000;
    cpu.regy = 0x01;
    cpu.clock();
    assert_eq!(cpu.acu, 0x07);
    assert_eq!(cpu.cycles, 5);
}

#[test]
fn branch_costs_follow_the_target() {
    let mut taken = machine_with(&[(0x8000, 0xD0), (0x8001, 0x02)]);
    taken.program_counter = 0x8000;
    taken.clock();
    assert_eq!(taken.program_counter, 0x8004);
    assert_eq!(taken.cycles, 2);

    let mut crossing = machine_with(&[(0x80FD, 0xD0), (0x80FE, 0x10)]);
    crossing.program_counter = 0x80FD;
    crossing.clock();
    assert_eq!(crossing.program_counter, 0x810F);
    assert_eq!(crossing.cycles, 3);

    let mut skipped = machine_with(&[(0x8000, 0xD0), (0x8001, 0x02)]);
    skipped.program_counter = 0x8000;
    skipped.status = 0x22;
    skipped.clock();
    assert_eq!(skipped.program_counter, 0x8002);
    assert_eq!(skipped.cycles, 1);
}

#[test]
fn branch_backwards_through_the_clock() {
    let mut cpu = machine_with(&[(0x8010, 0xF0), (0x8011, 0xFC)]);
    cpu.program_counter = 0x8010;
    cpu.status = 0x22;
    cpu.clock();
    assert_eq!(cpu.rel_addr, 0xFFFC);
    assert_eq!(cpu.program_counter, 0x800E);
    assert_eq!(cpu.cycles, 2);
}

#[test]
fn opcode_without_an_instruction_runs_as_a_two_cycle_nop() {
    let mut cpu = machine_with(&[(0x8000, 0x02), (0x8001, 0xFF)]);
    cpu.program_counter = 0x8000;
    cpu.acu = 0x11;
    cpu.clock();
    assert_eq!(cpu.program_counter, 0x8001);
    assert_eq!(cpu.cycles, 1);
    assert_eq!(cpu.acu, 0x11);
    assert_eq!(cpu.status, 0x20);
    cpu.clock();
    assert!(cpu.complete());
}

#[test]
fn busy_pulse_only_counts_down() {
    let mut cpu = machine_with(&[(0x8000, 0xA9), (0x8001, 0x42)]);
    cpu.program_counter = 0x8000;
    cpu.cycles = 3;
    cpu.clock();
    assert_eq!(cpu.cycles, 2);
    assert_eq!(cpu.clock_count, 1);
    assert_eq!(cpu.program_counter, 0x8000);
    assert_eq!(cpu.acu, 0x00);
}

#[test]
fn clock_runs_a_subroutine_call() {
    let mut cpu = machine_with(&[(0x8000, 0x20), (0x8001, 0x00), (0x8002, 0x90)]);
    cpu.program_counter = 0x8000;
    cpu.stack_pointer = 0xFD;
    cpu.clock();
    assert_eq!(cpu.program_counter, 0x9000);
    assert_eq!(cpu.read(0x01FD), 0x80);
    assert_eq!(cpu.read(0x01FC), 0x02);
    assert_eq!(cpu.stack_pointer, 0xFB);
    assert_eq!(cpu.cycles, 5);
}

#[test]
fn masked_interrupt_request_changes_nothing() {
    let mut cpu = machine_with(&[(0xFFFE, 0x00), (0xFFFF, 0x90), (0xFFFA, 0x00), (0xFFFB, 0xA0)]);
    cpu.program_counter = 0x1234;
    cpu.stack_pointer = 0xFD;
    cpu.status = 0x24;
    let before = registers(&cpu);
    cpu.interrupt_request();
    assert_eq!(registers(&cpu), before);
    assert_eq!(cpu.read(0x01FD), 0x00);
    assert_eq!(cpu.read(0x01FC), 0x00);
    assert_eq!(cpu.read(0x01FB), 0x00);

    cpu.non_maskable_input();
    assert_ne!(registers(&cpu), before);
    assert_eq!(cpu.program_counter, 0xA000);
    assert_eq!(cpu.stack_pointer, 0xFA);
    assert_eq!(cpu.cycles, 8);
    assert_eq!(cpu.read(0x01FD), 0x12);
    assert_eq!(cpu.read(0x01FC), 0x34);
    assert_eq!(cpu.read(0x01FB), 0x24);
}

#[test]
fn interrupt_request_pushes_and_jumps() {
    let mut cpu = machine_with(&[(0xFFFE, 0x00), (0xFFFF, 0x90)]);
    cpu.program_counter = 0x1234;
    cpu.stack_pointer = 0xFD;
    cpu.status = 0x31;
    cpu.interrupt_request();
    assert_eq!(cpu.read(0x01FD), 0x12);
    assert_eq!(cpu.read(0x01FC), 0x34);
    assert_eq!(cpu.read(0x01FB), 0x25);
    assert_eq!(cpu.status, 0x25);
    assert_eq!(cpu.stack_pointer, 0xFA);
    assert_eq!(cpu.program_counter, 0x9000);
    assert_eq!(cpu.cycles, 7);
    assert_eq!(cpu.get_flag(StatusFlags::I), 1);
}

#[test]
fn non_maskable_input_uses_its_own_vector() {
    let mut cpu = machine_with(&[(0xFFFA, 0x78), (0xFFFB, 0x56), (0xFFFE, 0x00), (0xFFFF, 0x90)]);
    cpu.program_counter = 0xABCD;
    cpu.stack_pointer = 0x01;
    cpu.status = 0x00;
    cpu.non_maskable_input();
    assert_eq!(cpu.read(0x0101), 0xAB);
    assert_eq!(cpu.read(0x0100), 0xCD);
    assert_eq!(cpu.read(0x01FF), 0x24);
    assert_eq!(cpu.stack_pointer, 0xFE);
    assert_eq!(cpu.program_counter, 0x5678);
    assert_eq!(cpu.cycles, 8);
}

#[test]
fn table_holds_the_documented_entries() {
    let load = lookup(0xA9);
    assert_eq!(load.name, "LDA");
    assert_eq!(load.addr_mode, AddrMode::Imm);
    assert_eq!(load.operate, Operation::Lda);
    assert_eq!(load.cycles, 2);

    let brk = lookup(0x00);
    assert_eq!((brk.name, brk.addr_mode, brk.operate, brk.cycles), ("BRK", AddrMode::Imp, Operation::Brk, 7));
    let shift = lookup(0x1E);
    assert_eq!((shift.name, shift.addr_mode, shift.operate, shift.cycles), ("ASL", AddrMode::Abx, Operation::Asl, 7));
    let store = lookup(0x91);
    assert_eq!((store.name, store.addr_mode, store.operate, store.cycles), ("STA", AddrMode::Indy, Operation::Sta, 6));
    let jump = lookup(0x6C);
    assert_eq!((jump.name, jump.addr_mode, jump.operate, jump.cycles), ("JMP", AddrMode::Ind, Operation::Jmp, 5));
    let nop = lookup(0xEA);
    assert_eq!((nop.name, nop.addr_mode, nop.operate, nop.cycles), ("NOP", AddrMode::Imp, Operation::Nop, 2));
    for opcode in [0x02u8, 0x1C, 0x80, 0xFF] {
        let other = lookup(opcode);
        assert_eq!((other.name, other.addr_mode, other.operate, other.cycles), ("NOP", AddrMode::Imp, Operation::Nop, 2));
    }
    let ldx = lookup(0xB6);
    assert_eq!((ldx.name, ldx.addr_mode, ldx.operate, ldx.cycles), ("LDX", AddrMode::Zpy, Operation::Ldx, 4));
    let sbc = lookup(0xF1);
    assert_eq!((sbc.name, sbc.addr_mode, sbc.operate, sbc.cycles), ("SBC", AddrMode::Indy, Operation::Sbc, 5));
    let branch = lookup(0x90);
    assert_eq!((branch.name, branch.addr_mode, branch.operate, branch.cycles), ("BCC", AddrMode::Rel, Operation::Bcc, 2));
}

#[test]
fn every_opcode_has_an_entry() {
    let mut own = 0;
    for opcode in 0..=255u8 {
        let inst = lookup(opcode);
        assert!(inst.cycles >= 2 && inst.cycles <= 7);
        assert_eq!(inst.name, inst.operate.name());
        assert_eq!(inst.name.len(), 3);
        if inst.operate != Operation::Nop {
            own += 1;
        } else {
            assert_eq!(inst.addr_mode, AddrMode::Imp);
            assert_eq!(inst.cycles, 2);
        }
        assert_eq!(is_implied(opcode), inst.addr_mode == AddrMode::Imp);
    }
    assert_eq!(own, 150);
}

#[test]
fn clock_stores_through_an_indexed_address_at_a_fixed_cost() {
    let mut cpu = machine_with(&[(0x8000, 0x9D), (0x8001, 0xFF), (0x8002, 0x12)]);
    cpu.program_counter = 0x8000;
    cpu.regx = 0x01;
    cpu.acu = 0x5A;
    cpu.clock();
    assert_eq!(cpu.read(0x1300), 0x5A);
    assert_eq!(cpu.cycles, 4);
}

#[test]
fn clock_jumps_through_a_pointer() {
    let mut cpu = machine_with(&[
        (0x8000, 0x6C), (0x8001, 0x34), (0x8002, 0x12), (0x1234, 0x78), (0x1235, 0x56),
    ]);
    cpu.program_counter = 0x8000;
    cpu.clock();
    assert_eq!(cpu.program_counter, 0x5678);
    assert_eq!(cpu.cycles, 4);
}

#[test]
fn a_short_program_runs_in_the_sum_of_its_costs() {
    let mut cpu = machine_with(&[
        (0xFFFC, 0x00), (0xFFFD, 0x80),
        (0x8000, 0xA9), (0x8001, 0x05),
        (0x8002, 0x85), (0x8003, 0x10),
        (0x8004, 0xE6), (0x8005, 0x10),
        (0x8006, 0xA6), (0x8007, 0x10),
    ]);
    cpu.reset();
    while !cpu.complete() {
        cpu.clock();
    }
    assert_eq!(cpu.clock_count, 8);
    let mut instructions = 0;
    while instructions < 4 {
        cpu.clock();
        if cpu.complete() {
            instructions += 1;
        }
    }
    assert_eq!(cpu.clock_count, 8 + 2 + 3 + 5 + 3);
    assert_eq!(cpu.acu, 0x05);
    assert_eq!(cpu.read(0x0010), 0x06);
    assert_eq!(cpu.regx, 0x06);
    assert_eq!(cpu.program_counter, 0x8008);
}

#[test]
fn interrupt_and_return_restore_the_program_counter() {
    let mut cpu = machine_with(&[(0xFFFE, 0x00), (0xFFFF, 0x90), (0x9000, 0x40)]);
    cpu.program_counter = 0x1234;
    cpu.stack_pointer = 0xFD;
    cpu.status = 0xE1;
    cpu.interrupt_request();
    assert_eq!(cpu.program_counter, 0x9000);
    while !cpu.complete() {
        cpu.clock();
    }
    cpu.clock();
    assert_eq!(cpu.cur_opcode, 0x40);
    assert_eq!(cpu.program_counter, 0x1234);
    assert_eq!(cpu.stack_pointer, 0xFD);
    assert_eq!(cpu.status, 0xE5);
    assert_eq!(cpu.cycles, 5);
}

#[test]
fn fallback_no_operation_steps_over_its_operand_at_six_opcodes() {
    let mut cpu = machine_with(&[(0x8000, 0x1C), (0x8001, 0xA9), (0x8002, 0xEA)]);
    cpu.program_counter = 0x8000;
    cpu.clock();
    assert_eq!(cpu.program_counter, 0x8002);
    assert_eq!(cpu.cycles, 1);
    assert_eq!(cpu.acu, 0x00);
    cpu.clock();
    cpu.clock();
    assert_eq!(cpu.cur_opcode, 0xEA);
    assert_eq!(cpu.program_counter, 0x8003);
}
