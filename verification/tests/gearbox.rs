use gearbox::fast_filter_array;
use gearbox::load;
use gearbox::mem1;
use gearbox::mem2;
use gearbox::multiply_by_321;
use gearbox::simple_filter_array;
use gearbox::store_and_clear;
use gearbox::swap_memory;
use gearbox::temp;
use gearbox::Address;
use gearbox::GearBoxCpu;
use gearbox::Register;

#[test]
fn new_processor_has_zeroed_memory_and_sentinel_registers() {
    let mut cpu = GearBoxCpu::new();
    assert_eq!(cpu.mem(Address(0)), Some(0));
    assert_eq!(cpu.mem(Address(4)), Some(0));
    assert_eq!(cpu.mem(Address(2044)), Some(0));
    // The registers start at the sentinel -1: capturing each into memory
    // shows it.
    store_and_clear(&mut cpu, Address(12), Register::Reg1);
    store_and_clear(&mut cpu, Address(16), Register::Reg2);
    assert_eq!(cpu.mem(Address(12)), Some(-1));
    assert_eq!(cpu.mem(Address(16)), Some(-1));
}

#[test]
fn mov_copies_register_to_memory() {
    let mut cpu = GearBoxCpu::new();
    cpu.mov(Address(20), Register::Reg1);
    assert_eq!(cpu.mem(Address(20)), Some(-1));
}

#[test]
fn sub_subtracts_memory_from_register() {
    let mut cpu = GearBoxCpu::new();
    let a = Address(12);
    let b = Address(16);
    assert!(cpu.set_mem(a, 5));
    // Reg1 starts at -1; -1 - 5 = -6.
    cpu.sub(Register::Reg1, a);
    cpu.mov(b, Register::Reg1);
    assert_eq!(cpu.mem(b), Some(-6));
}

#[test]
fn sub_wraps_on_overflow() {
    let mut cpu = GearBoxCpu::new();
    let a = Address(12);
    let b = Address(16);
    assert!(cpu.set_mem(a, i32::MAX));
    // -1 - i32::MAX = i32::MIN exactly, no wrap yet.
    cpu.sub(Register::Reg1, a);
    // i32::MIN - i32::MAX exceeds the signed range and wraps to 1.
    cpu.sub(Register::Reg1, a);
    cpu.mov(b, Register::Reg1);
    assert_eq!(cpu.mem(b), Some(1));
}

#[test]
fn store_and_clear_captures_value_and_zeroes_register() {
    let mut cpu = GearBoxCpu::new();
    let t = temp();
    // Reg1 holds the sentinel -1: it lands in memory, the register is 0.
    store_and_clear(&mut cpu, t, Register::Reg1);
    assert_eq!(cpu.mem(t), Some(-1));
    // A second store shows the register really was zeroed.
    store_and_clear(&mut cpu, t, Register::Reg1);
    assert_eq!(cpu.mem(t), Some(0));
}

#[test]
fn load_reads_value_and_preserves_memory() {
    let mut cpu = GearBoxCpu::new();
    let a = Address(24);
    let b = Address(28);
    assert!(cpu.set_mem(a, 77));
    store_and_clear(&mut cpu, temp(), Register::Reg1);
    load(&mut cpu, Register::Reg1, a);
    // The address still holds its value...
    assert_eq!(cpu.mem(a), Some(77));
    // ...and the register holds a copy of it.
    store_and_clear(&mut cpu, b, Register::Reg1);
    assert_eq!(cpu.mem(b), Some(77));
}

#[test]
fn load_handles_minimum_value() {
    let mut cpu = GearBoxCpu::new();
    let a = Address(24);
    let b = Address(28);
    assert!(cpu.set_mem(a, i32::MIN));
    store_and_clear(&mut cpu, temp(), Register::Reg2);
    load(&mut cpu, Register::Reg2, a);
    assert_eq!(cpu.mem(a), Some(i32::MIN));
    store_and_clear(&mut cpu, b, Register::Reg2);
    assert_eq!(cpu.mem(b), Some(i32::MIN));
}

#[test]
fn swap_exchanges_memory_cells() {
    let mut cpu = GearBoxCpu::new();
    assert!(cpu.set_mem(mem1(), -42));
    assert!(cpu.set_mem(mem2(), 1999));
    assert_eq!(cpu.mem(mem1()), Some(-42));
    assert_eq!(cpu.mem(mem2()), Some(1999));
    swap_memory(&mut cpu);
    assert_eq!(cpu.mem(mem1()), Some(1999));
    assert_eq!(cpu.mem(mem2()), Some(-42));
}

#[test]
fn swap_twice_restores_original_values() {
    let mut cpu = GearBoxCpu::new();
    assert!(cpu.set_mem(mem1(), 123456));
    assert!(cpu.set_mem(mem2(), -654321));
    swap_memory(&mut cpu);
    swap_memory(&mut cpu);
    assert_eq!(cpu.mem(mem1()), Some(123456));
    assert_eq!(cpu.mem(mem2()), Some(-654321));
}

#[test]
fn swap_leaves_both_registers_zeroed() {
    let mut cpu = GearBoxCpu::new();
    assert!(cpu.set_mem(mem1(), 8));
    assert!(cpu.set_mem(mem2(), 9));
    swap_memory(&mut cpu);
    // Capturing each register right after the swap shows both are 0.
    store_and_clear(&mut cpu, Address(32), Register::Reg1);
    store_and_clear(&mut cpu, Address(36), Register::Reg2);
    assert_eq!(cpu.mem(Address(32)), Some(0));
    assert_eq!(cpu.mem(Address(36)), Some(0));
    // And the swap still happened.
    assert_eq!(cpu.mem(mem1()), Some(9));
    assert_eq!(cpu.mem(mem2()), Some(8));
}

#[test]
fn swap_leaves_unrelated_memory_untouched() {
    let mut cpu = GearBoxCpu::new();
    assert!(cpu.set_mem(Address(40), 31415));
    assert!(cpu.set_mem(mem1(), 1));
    assert!(cpu.set_mem(mem2(), 2));
    swap_memory(&mut cpu);
    assert_eq!(cpu.mem(Address(40)), Some(31415));
}

#[test]
fn out_of_bounds_read_faults() {
    let cpu = GearBoxCpu::new();
    // Byte offset 2048 translates to word index 512, one past the end.
    assert_eq!(cpu.mem(Address(2048)), None);
    assert_eq!(cpu.mem(Address(u16::MAX)), None);
}

#[test]
fn out_of_bounds_write_faults() {
    let mut cpu = GearBoxCpu::new();
    assert!(!cpu.set_mem(Address(2048), 7));
    // The last valid word is at byte offset 2044.
    assert!(cpu.set_mem(Address(2044), 7));
    assert_eq!(cpu.mem(Address(2044)), Some(7));
}

#[test]
fn multiply_by_321_matches_plain_multiplication() {
    assert_eq!(99 * 321, multiply_by_321(99));
    assert_eq!(0, multiply_by_321(0));
    assert_eq!(-99 * 321, multiply_by_321(-99));
}

#[test]
fn multiply_by_321_wraps_out_of_range_products() {
    assert_eq!(2147483327, multiply_by_321(i32::MAX));
    assert_eq!(i32::MIN, multiply_by_321(i32::MIN));
}

fn check_filter(input: &[i32], expected: &[i32]) {
    let mut simple: Vec<i32> = input.to_vec();
    simple_filter_array(&mut simple);
    assert_eq!(simple, expected);
    let mut fast: Vec<i32> = input.to_vec();
    fast_filter_array(&mut fast);
    assert_eq!(fast, expected);
}

#[test]
fn filter_arrays_compact_nonzero_elements() {
    check_filter(&[1, 2, 3, 4], &[1, 2, 3, 4]);
    check_filter(&[1, 2, 3, 4, 0], &[1, 2, 3, 4, 0]);
    check_filter(&[0, 1, 2, 3, 4], &[1, 2, 3, 4, 0]);
    check_filter(&[0, 1, 0, 2, 3], &[1, 2, 3, 0, 0]);
    check_filter(&[0], &[0]);
    check_filter(&[], &[]);
}

#[test]
fn filter_arrays_handle_adjacent_zeros() {
    check_filter(&[0, 0, 1], &[1, 0, 0]);
    check_filter(&[1, 0, 0, 2], &[1, 2, 0, 0]);
    check_filter(&[0, 0, 0], &[0, 0, 0]);
    check_filter(&[5, 0, 0, 0, 6, 7], &[5, 6, 7, 0, 0, 0]);
}
