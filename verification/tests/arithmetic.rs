use chip8::Chip8;

fn boot(program: &[u8]) -> Chip8 {
    let mut vm = Chip8::new();
    vm.load_game(program);
    vm
}

fn run(vm: &mut Chip8, cycles: usize) {
    for _ in 0..cycles {
        assert_eq!(vm.fault(), None);
        vm.emulate_cycle_with(0);
    }
}

/// Runs `8XY_` with `X` = 1 and `Y` = 2 on the given register values, with
/// the flag register holding `flag` before; returns `V1` and `VF` after.
fn alu(n: u8, vx: u8, vy: u8, flag: u8) -> (u8, u8) {
    let mut vm = boot(&[0x6F, flag, 0x61, vx, 0x62, vy, 0x81, 0x20 | n]);
    run(&mut vm, 4);
    assert_eq!(vm.pc(), 0x208);
    assert_eq!(vm.v()[2], vy);
    (vm.v()[1], vm.v()[0xF])
}

#[test]
fn load_immediate_sets_the_register() {
    let mut vm = boot(&[0x6A, 0x7B]);
    run(&mut vm, 1);
    assert_eq!(vm.v()[0xA], 0x7B);
    assert_eq!(vm.pc(), 0x202);
}

#[test]
fn add_immediate_wraps_and_leaves_the_flag() {
    // VF = 7; V1 = 250; V1 += 10
    let mut vm = boot(&[0x6F, 0x07, 0x61, 0xFA, 0x71, 0x0A]);
    run(&mut vm, 3);
    assert_eq!(vm.v()[1], 4);
    assert_eq!(vm.v()[0xF], 7);
    assert_eq!(vm.pc(), 0x206);
}

#[test]
fn add_immediate_without_overflow() {
    let mut vm = boot(&[0x61, 0x05, 0x71, 0x0A]);
    run(&mut vm, 2);
    assert_eq!(vm.v()[1], 15);
}

#[test]
fn copy_and_bitwise_operations_leave_the_flag() {
    assert_eq!(alu(0x0, 0x12, 0x34, 9), (0x34, 9));
    assert_eq!(alu(0x1, 0b1100, 0b1010, 9), (0b1110, 9));
    assert_eq!(alu(0x2, 0b1100, 0b1010, 9), (0b1000, 9));
    assert_eq!(alu(0x3, 0b1100, 0b1010, 9), (0b0110, 9));
}

#[test]
fn add_sets_the_flag_on_carry() {
    assert_eq!(alu(0x4, 200, 100, 0), (44, 1));
    assert_eq!(alu(0x4, 255, 1, 0), (0, 1));
    assert_eq!(alu(0x4, 255, 255, 0), (254, 1));
}

#[test]
fn add_clears_the_flag_without_carry() {
    assert_eq!(alu(0x4, 1, 2, 1), (3, 0));
    assert_eq!(alu(0x4, 255, 0, 1), (255, 0));
    assert_eq!(alu(0x4, 128, 127, 9), (255, 0));
    assert_eq!(alu(0x4, 0, 0, 9), (0, 0));
}

#[test]
fn subtract_clears_the_flag_on_borrow() {
    assert_eq!(alu(0x5, 5, 10, 1), (251, 0));
    assert_eq!(alu(0x5, 0, 1, 1), (255, 0));
    assert_eq!(alu(0x5, 0, 255, 9), (1, 0));
}

#[test]
fn subtract_sets_the_flag_without_borrow() {
    assert_eq!(alu(0x5, 10, 5, 0), (5, 1));
    assert_eq!(alu(0x5, 7, 7, 0), (0, 1));
    assert_eq!(alu(0x5, 255, 0, 0), (255, 1));
}

#[test]
fn shift_right_puts_the_low_bit_in_the_flag() {
    assert_eq!(alu(0x6, 0b0000_0101, 0, 0), (0b0000_0010, 1));
    assert_eq!(alu(0x6, 0b1111_1110, 0, 1), (0b0111_1111, 0));
    assert_eq!(alu(0x6, 0, 0xFF, 1), (0, 0));
}

#[test]
fn reverse_subtract_computes_vy_minus_vx() {
    assert_eq!(alu(0x7, 5, 10, 0), (5, 1));
    assert_eq!(alu(0x7, 10, 5, 1), (251, 0));
    assert_eq!(alu(0x7, 7, 7, 0), (0, 1));
}

#[test]
fn shift_left_puts_the_high_bit_in_the_flag() {
    assert_eq!(alu(0xE, 0b1000_0001, 0, 0), (0b0000_0010, 1));
    assert_eq!(alu(0xE, 0b0111_1111, 0, 1), (0b1111_1110, 0));
    assert_eq!(alu(0xE, 0xFF, 0, 0), (0xFE, 1));
}

#[test]
fn flag_register_as_destination_holds_the_flag() {
    // VF = 200, V1 = 100; VF += V1: the sum carries, and the flag is written
    // last
    let mut vm = boot(&[0x6F, 0xC8, 0x61, 0x64, 0x8F, 0x14]);
    run(&mut vm, 3);
    assert_eq!(vm.v()[0xF], 1);
    assert_eq!(vm.v()[1], 100);
    // VF = 1, V1 = 2; VF += V1: no carry
    let mut vm = boot(&[0x6F, 0x01, 0x61, 0x02, 0x8F, 0x14]);
    run(&mut vm, 3);
    assert_eq!(vm.v()[0xF], 0);
    // VF = 3; VF >>= 1: the low bit of 3
    let mut vm = boot(&[0x6F, 0x03, 0x8F, 0x06]);
    run(&mut vm, 2);
    assert_eq!(vm.v()[0xF], 1);
    // VF = 0x40; VF <<= 1: the high bit of 0x40
    let mut vm = boot(&[0x6F, 0x40, 0x8F, 0x0E]);
    run(&mut vm, 2);
    assert_eq!(vm.v()[0xF], 0);
    // VF = 5, V1 = 10; VF -= V1: borrow
    let mut vm = boot(&[0x6F, 0x05, 0x61, 0x0A, 0x8F, 0x15]);
    run(&mut vm, 3);
    assert_eq!(vm.v()[0xF], 0);
    // VF = 5, V1 = 10; VF = V1 - VF: no borrow
    let mut vm = boot(&[0x6F, 0x05, 0x61, 0x0A, 0x8F, 0x17]);
    run(&mut vm, 3);
    assert_eq!(vm.v()[0xF], 1);
}

#[test]
fn flag_register_as_operand_is_read_before_the_flag_is_written() {
    // V0 = 10, VF = 20; V0 += VF
    let mut vm = boot(&[0x60, 0x0A, 0x6F, 0x14, 0x80, 0xF4]);
    run(&mut vm, 3);
    assert_eq!(vm.v()[0], 30);
    assert_eq!(vm.v()[0xF], 0);
    // V1 = 250, VF = 10; V1 += VF: 260
    let mut vm = boot(&[0x61, 0xFA, 0x6F, 0x0A, 0x81, 0xF4]);
    run(&mut vm, 3);
    assert_eq!(vm.v()[1], 4);
    assert_eq!(vm.v()[0xF], 1);
    // V1 = 30, VF = 20; V1 -= VF
    let mut vm = boot(&[0x61, 0x1E, 0x6F, 0x14, 0x81, 0xF5]);
    run(&mut vm, 3);
    assert_eq!(vm.v()[1], 10);
    assert_eq!(vm.v()[0xF], 1);
    // V1 = 30, VF = 20; V1 = VF - V1: borrow
    let mut vm = boot(&[0x61, 0x1E, 0x6F, 0x14, 0x81, 0xF7]);
    run(&mut vm, 3);
    assert_eq!(vm.v()[1], 246);
    assert_eq!(vm.v()[0xF], 0);
    // V1 = 5, VF = 20; V1 = VF - V1
    let mut vm = boot(&[0x61, 0x05, 0x6F, 0x14, 0x81, 0xF7]);
    run(&mut vm, 3);
    assert_eq!(vm.v()[1], 15);
    assert_eq!(vm.v()[0xF], 1);
}

#[test]
fn same_register_twice() {
    // V1 = 200; V1 += V1
    let mut vm = boot(&[0x61, 0xC8, 0x81, 0x14]);
    run(&mut vm, 2);
    assert_eq!(vm.v()[1], 144);
    assert_eq!(vm.v()[0xF], 1);
    // V1 = 200; V1 -= V1
    let mut vm = boot(&[0x61, 0xC8, 0x81, 0x15]);
    run(&mut vm, 2);
    assert_eq!(vm.v()[1], 0);
    assert_eq!(vm.v()[0xF], 1);
}

#[test]
fn skip_if_equal_to_immediate() {
    let mut vm = boot(&[0x61, 0x2A, 0x31, 0x2A]);
    run(&mut vm, 2);
    assert_eq!(vm.pc(), 0x206);
    let mut vm = boot(&[0x61, 0x2A, 0x31, 0x2B]);
    run(&mut vm, 2);
    assert_eq!(vm.pc(), 0x204);
}

#[test]
fn skip_if_not_equal_to_immediate() {
    let mut vm = boot(&[0x61, 0x2A, 0x41, 0x2B]);
    run(&mut vm, 2);
    assert_eq!(vm.pc(), 0x206);
    let mut vm = boot(&[0x61, 0x2A, 0x41, 0x2A]);
    run(&mut vm, 2);
    assert_eq!(vm.pc(), 0x204);
}

#[test]
fn skip_if_registers_equal() {
    let mut vm = boot(&[0x61, 0x2A, 0x62, 0x2A, 0x51, 0x20]);
    run(&mut vm, 3);
    assert_eq!(vm.pc(), 0x208);
    let mut vm = boot(&[0x61, 0x2A, 0x62, 0x2B, 0x51, 0x20]);
    run(&mut vm, 3);
    assert_eq!(vm.pc(), 0x206);
}

#[test]
fn skip_if_registers_differ() {
    let mut vm = boot(&[0x61, 0x2A, 0x62, 0x2B, 0x91, 0x20]);
    run(&mut vm, 3);
    assert_eq!(vm.pc(), 0x208);
    let mut vm = boot(&[0x61, 0x2A, 0x62, 0x2A, 0x91, 0x20]);
    run(&mut vm, 3);
    assert_eq!(vm.pc(), 0x206);
}

#[test]
fn skips_change_nothing_but_the_program_counter() {
    let mut vm = boot(&[0x61, 0x2A, 0x31, 0x2A]);
    run(&mut vm, 1);
    let registers = vm.v().to_vec();
    run(&mut vm, 1);
    assert_eq!(vm.v(), &registers[..]);
    assert_eq!(vm.i(), 0);
    assert_eq!(vm.sp(), 0);
}
