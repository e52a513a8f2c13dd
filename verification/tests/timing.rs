use chip8::machine::TIMER_DIVISOR;
use chip8::Chip8;

fn boot(program: &[u8]) -> Chip8 {
    let mut vm = Chip8::new();
    vm.load_game(program);
    vm
}

fn run(vm: &mut Chip8, cycles: usize) {
    for _ in 0..cycles {
        assert_eq!(vm.fault(), None);
        vm.emulate_cycle_with(0);
    }
}

#[test]
fn timer_divisor_is_five() {
    assert_eq!(TIMER_DIVISOR, 5);
}

#[test]
fn key_wait_holds_the_program_counter_while_no_key_is_down() {
    // V2 = 0x77; wait for a key into V2
    let mut vm = boot(&[0x62, 0x77, 0xF2, 0x0A]);
    run(&mut vm, 1);
    for _ in 0..50 {
        vm.clear_keys();
        run(&mut vm, 1);
        assert_eq!(vm.pc(), 0x202);
        assert_eq!(vm.v()[2], 0x77);
    }
}

#[test]
fn key_wait_takes_the_lowest_key_that_is_down() {
    let mut vm = boot(&[0xF2, 0x0A, 0x63, 0x01]);
    run(&mut vm, 3);
    assert_eq!(vm.pc(), 0x200);
    vm.press_key(9);
    vm.press_key(4);
    vm.press_key(12);
    run(&mut vm, 1);
    assert_eq!(vm.v()[2], 4);
    assert_eq!(vm.pc(), 0x202);
    run(&mut vm, 1);
    assert_eq!(vm.v()[3], 1);
    assert_eq!(vm.pc(), 0x204);
}

#[test]
fn key_wait_takes_key_0_and_key_14() {
    let mut vm = boot(&[0x62, 0x77, 0xF2, 0x0A]);
    vm.press_key(0);
    run(&mut vm, 2);
    assert_eq!(vm.v()[2], 0);
    let mut vm = boot(&[0xF2, 0x0A]);
    vm.press_key(14);
    vm.press_key(15);
    run(&mut vm, 1);
    assert_eq!(vm.v()[2], 14);
    assert_eq!(vm.pc(), 0x202);
}

#[test]
fn key_wait_takes_key_15() {
    let mut vm = boot(&[0xF0, 0x0A]);
    vm.press_key(15);
    run(&mut vm, 1);
    assert_eq!(vm.v()[0], 15);
    assert_eq!(vm.pc(), 0x202);
}

#[test]
fn key_wait_takes_each_of_the_sixteen_keys() {
    for key in 0..16 {
        let mut vm = boot(&[0xF3, 0x0A]);
        run(&mut vm, 2);
        assert_eq!(vm.pc(), 0x200);
        vm.press_key(key);
        run(&mut vm, 1);
        assert_eq!(vm.v()[3] as usize, key);
        assert_eq!(vm.pc(), 0x202);
        let mut others = [0u8; 16];
        others[3] = key as u8;
        assert_eq!(vm.v(), &others);
    }
}

#[test]
fn key_wait_can_stall_at_address_zero() {
    // V0 = 0xF0, V1 = 0x0A; I = 0; store V0..V1; jump to 0
    let mut vm = boot(&[0x60, 0xF0, 0x61, 0x0A, 0xA0, 0x00, 0xF1, 0x55, 0x10, 0x00]);
    run(&mut vm, 5);
    assert_eq!(vm.pc(), 0);
    run(&mut vm, 3);
    assert_eq!(vm.pc(), 0);
    vm.press_key(1);
    run(&mut vm, 1);
    assert_eq!(vm.pc(), 2);
    assert_eq!(vm.v()[0], 1);
}

#[test]
fn timers_count_while_the_machine_waits_for_a_key() {
    // V0 = 2; delay = V0; wait for a key
    let mut vm = boot(&[0x60, 0x02, 0xF0, 0x15, 0xF1, 0x0A]);
    run(&mut vm, 2);
    assert_eq!(vm.delay_timer(), 2);
    run(&mut vm, 7);
    assert_eq!(vm.delay_timer(), 1);
    run(&mut vm, 1);
    assert_eq!(vm.pc(), 0x204);
    assert_eq!(vm.delay_timer(), 0);
}

#[test]
fn delay_timer_reaches_zero_after_d_times_the_divisor_cycles() {
    // The fifth cycle sets the timer to 4 and, ending a tick, takes one
    // off. From there the timer holds 3 at the start of a tick.
    let mut vm = boot(&[0x60, 0x04, 0x61, 0x00, 0x61, 0x00, 0x61, 0x00, 0xF0, 0x15, 0x12, 0x0A]);
    run(&mut vm, 4);
    assert_eq!(vm.delay_timer(), 0);
    run(&mut vm, 1);
    assert_eq!(vm.delay_timer(), 3);
    let d = 3;
    let divisor = TIMER_DIVISOR as usize;
    for n in 1..=(d * divisor + 20) {
        run(&mut vm, 1);
        let expected = if n / divisor >= d { 0 } else { d - n / divisor };
        assert_eq!(vm.delay_timer() as usize, expected);
        assert_eq!(vm.delay_timer() == 0, n >= d * divisor);
    }
}

#[test]
fn delay_timer_set_in_the_middle_of_a_tick_runs_out_sooner() {
    // V0 = 3; delay = V0, set in the second cycle of a tick
    let mut vm = boot(&[0x60, 0x03, 0xF0, 0x15, 0x12, 0x04]);
    run(&mut vm, 2);
    assert_eq!(vm.delay_timer(), 3);
    run(&mut vm, 2);
    assert_eq!(vm.delay_timer(), 3);
    run(&mut vm, 1);
    assert_eq!(vm.delay_timer(), 2);
    run(&mut vm, 9);
    assert_eq!(vm.delay_timer(), 1);
    run(&mut vm, 1);
    assert_eq!(vm.delay_timer(), 0);
    run(&mut vm, 30);
    assert_eq!(vm.delay_timer(), 0);
}

#[test]
fn new_machine_ends_its_first_tick_with_the_fifth_cycle() {
    // V0 = 1; delay = V0; loop
    let mut vm = boot(&[0x60, 0x01, 0xF0, 0x15, 0x12, 0x04]);
    run(&mut vm, 4);
    assert_eq!(vm.delay_timer(), 1);
    run(&mut vm, 1);
    assert_eq!(vm.delay_timer(), 0);
}

#[test]
fn delay_timer_is_read_into_a_register() {
    // V0 = 9; delay = V0; V5 = delay
    let mut vm = boot(&[0x60, 0x09, 0xF0, 0x15, 0xF5, 0x07]);
    run(&mut vm, 3);
    assert_eq!(vm.v()[5], 9);
    assert_eq!(vm.pc(), 0x206);
}

#[test]
fn sound_is_on_while_the_sound_timer_is_not_zero() {
    // V0 = 2; sound = V0; loop
    let mut vm = boot(&[0x60, 0x02, 0xF0, 0x18, 0x12, 0x04]);
    run(&mut vm, 1);
    assert!(!vm.sound_flag());
    run(&mut vm, 1);
    assert_eq!(vm.sound_timer(), 2);
    assert!(vm.sound_flag());
    run(&mut vm, 2);
    assert_eq!(vm.sound_timer(), 2);
    run(&mut vm, 1);
    assert_eq!(vm.sound_timer(), 1);
    assert!(vm.sound_flag());
    run(&mut vm, 4);
    assert!(vm.sound_flag());
    run(&mut vm, 1);
    assert_eq!(vm.sound_timer(), 0);
    assert!(!vm.sound_flag());
    run(&mut vm, 10);
    assert_eq!(vm.sound_timer(), 0);
}

#[test]
fn both_timers_count_together() {
    // V0 = 5, V1 = 3; delay = V0; sound = V1; loop
    let mut vm = boot(&[0x60, 0x05, 0x61, 0x03, 0xF0, 0x15, 0xF1, 0x18, 0x12, 0x08]);
    run(&mut vm, 4);
    assert_eq!((vm.delay_timer(), vm.sound_timer()), (5, 3));
    run(&mut vm, 1);
    assert_eq!((vm.delay_timer(), vm.sound_timer()), (4, 2));
    run(&mut vm, 10);
    assert_eq!((vm.delay_timer(), vm.sound_timer()), (2, 0));
    run(&mut vm, 10);
    assert_eq!((vm.delay_timer(), vm.sound_timer()), (0, 0));
}
