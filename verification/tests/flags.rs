use cpu6502::bus::BUS;
use cpu6502::cpu::{StatusFlags, CPU};

#[test]
fn new_cpu_is_idle_with_only_the_unused_bit() {
    let cpu = CPU::new();
    assert_eq!(cpu.get_register_x(), 0);
    assert_eq!(cpu.get_register_y(), 0);
    assert_eq!(cpu.get_accumulator(), 0);
    assert_eq!(cpu.get_program_counter(), 0);
    assert_eq!(cpu.stack_pointer, 0);
    assert_eq!(cpu.status, 0x20);
    assert_eq!(cpu.cycles, 0);
    assert_eq!(cpu.clock_count, 0);
    assert!(cpu.complete());
    assert!(cpu.bus.is_none());
}

#[test]
fn flag_bits_run_from_bit_zero_to_bit_seven() {
    assert_eq!(StatusFlags::C.bit(), 0x01);
    assert_eq!(StatusFlags::Z.bit(), 0x02);
    assert_eq!(StatusFlags::I.bit(), 0x04);
    assert_eq!(StatusFlags::D.bit(), 0x08);
    assert_eq!(StatusFlags::B.bit(), 0x10);
    assert_eq!(StatusFlags::G.bit(), 0x20);
    assert_eq!(StatusFlags::V.bit(), 0x40);
    assert_eq!(StatusFlags::N.bit(), 0x80);
}

#[test]
fn get_flag_reads_single_bits() {
    let mut cpu = CPU::new();
    cpu.status = 0xA1;
    assert_eq!(cpu.get_flag(StatusFlags::C), 1);
    assert_eq!(cpu.get_flag(StatusFlags::Z), 0);
    assert_eq!(cpu.get_flag(StatusFlags::I), 0);
    assert_eq!(cpu.get_flag(StatusFlags::D), 0);
    assert_eq!(cpu.get_flag(StatusFlags::B), 0);
    assert_eq!(cpu.get_flag(StatusFlags::G), 1);
    assert_eq!(cpu.get_flag(StatusFlags::V), 0);
    assert_eq!(cpu.get_flag(StatusFlags::N), 1);
}

#[test]
fn set_flag_sets_and_clears_one_flag() {
    let mut cpu = CPU::new();
    cpu.set_flag(StatusFlags::C, true);
    assert_eq!(cpu.status, 0x21);
    cpu.set_flag(StatusFlags::N, true);
    assert_eq!(cpu.status, 0xA1);
    cpu.set_flag(StatusFlags::C, false);
    assert_eq!(cpu.status, 0xA0);
    cpu.set_flag(StatusFlags::C, false);
    assert_eq!(cpu.status, 0xA0);
}

#[test]
fn flag_writes_leave_the_unused_bit_set() {
    let mut cpu = CPU::new();
    cpu.status = 0x00;
    cpu.set_flag(StatusFlags::Z, true);
    assert_eq!(cpu.status, 0x22);
    cpu.set_flag(StatusFlags::G, false);
    assert_eq!(cpu.get_flag(StatusFlags::G), 1);
    cpu.status = 0x00;
    cpu.set_flag(StatusFlags::V, false);
    assert_eq!(cpu.status, 0x20);
    cpu.clear_flags(0xFF);
    assert_eq!(cpu.status, 0x20);
}

#[test]
fn clear_flags_clears_every_flag_of_the_mask() {
    let mut cpu = CPU::new();
    cpu.status = 0xFF;
    cpu.clear_flags(0xC3);
    assert_eq!(cpu.status, 0x3C);
    cpu.clear_flags(0x00);
    assert_eq!(cpu.status, 0x3C);
}

#[test]
fn stack_address_lies_in_page_one() {
    let mut cpu = CPU::new();
    assert_eq!(cpu.get_stack_address(), 0x0100);
    cpu.stack_pointer = 0xFD;
    assert_eq!(cpu.get_stack_address(), 0x01FD);
    cpu.stack_pointer = 0xFF;
    assert_eq!(cpu.get_stack_address(), 0x01FF);
}

#[test]
fn bus_starts_zeroed_and_keeps_what_is_written() {
    let mut bus = BUS::new();
    assert_eq!(bus.read(0x0000), 0);
    assert_eq!(bus.read(0x07FF), 0);
    assert_eq!(bus.read(0xFFFF), 0);
    bus.write(0xFFFC, 0x34);
    bus.write(0x0000, 0x12);
    assert_eq!(bus.read(0xFFFC), 0x34);
    assert_eq!(bus.read(0xFFFC), 0x34);
    assert_eq!(bus.read(0x0000), 0x12);
    assert_eq!(bus.read(0xFFFD), 0);
    bus.write(0xFFFC, 0x56);
    assert_eq!(bus.read(0xFFFC), 0x56);
}

#[test]
fn reads_without_a_bus_return_zero_and_writes_do_nothing() {
    let mut cpu = CPU::new();
    assert_eq!(cpu.read(0x1234), 0);
    cpu.write(0x1234, 0x99);
    assert_eq!(cpu.read(0x1234), 0);
    assert!(cpu.bus.is_none());
}

#[test]
fn connected_bus_serves_reads_and_writes() {
    let mut bus = BUS::new();
    bus.write(0x8000, 0xA9);
    let mut cpu = CPU::new();
    cpu.acu = 7;
    cpu.connect_bus(bus);
    assert_eq!(cpu.acu, 7);
    assert_eq!(cpu.read(0x8000), 0xA9);
    cpu.write(0x0200, 0x11);
    assert_eq!(cpu.read(0x0200), 0x11);
    assert_eq!(cpu.read(0x0201), 0x00);
}
