use mos6502::machine::Machine;
use mos6502::registers::{ps_carry, ps_negative, ps_overflow, ps_zero};

#[test]
fn add_with_carry_test() {
    let mut machine = Machine::new();

    machine.add_with_carry(1);
    assert_eq!(machine.registers.accumulator, 1);
    assert_eq!(machine.registers.status.contains(ps_carry), false);
    assert_eq!(machine.registers.status.contains(ps_zero), false);
    assert_eq!(machine.registers.status.contains(ps_negative), false);
    assert_eq!(machine.registers.status.contains(ps_overflow), false);

    machine.add_with_carry(-1);
    assert_eq!(machine.registers.accumulator, 0);
    assert_eq!(machine.registers.status.contains(ps_carry), true);
    assert_eq!(machine.registers.status.contains(ps_zero), true);
    assert_eq!(machine.registers.status.contains(ps_negative), false);
    assert_eq!(machine.registers.status.contains(ps_overflow), false);

    machine.add_with_carry(1);
    assert_eq!(machine.registers.accumulator, 2);
    assert_eq!(machine.registers.status.contains(ps_carry), false);
    assert_eq!(machine.registers.status.contains(ps_zero), false);
    assert_eq!(machine.registers.status.contains(ps_negative), false);
    assert_eq!(machine.registers.status.contains(ps_overflow), false);

    let mut machine = Machine::new();

    machine.add_with_carry(127);
    assert_eq!(machine.registers.accumulator, 127);
    assert_eq!(machine.registers.status.contains(ps_carry), false);
    assert_eq!(machine.registers.status.contains(ps_zero), false);
    assert_eq!(machine.registers.status.contains(ps_negative), false);
    assert_eq!(machine.registers.status.contains(ps_overflow), false);

    machine.add_with_carry(-127);
    assert_eq!(machine.registers.accumulator, 0);
    assert_eq!(machine.registers.status.contains(ps_carry), true);
    assert_eq!(machine.registers.status.contains(ps_zero), true);
    assert_eq!(machine.registers.status.contains(ps_negative), false);
    assert_eq!(machine.registers.status.contains(ps_overflow), false);

    machine.registers.status.remove(ps_carry);
    machine.add_with_carry(-128);
    assert_eq!(machine.registers.accumulator, -128);
    assert_eq!(machine.registers.status.contains(ps_carry), false);
    assert_eq!(machine.registers.status.contains(ps_zero), false);
    assert_eq!(machine.registers.status.contains(ps_negative), true);
    assert_eq!(machine.registers.status.contains(ps_overflow), false);

    machine.add_with_carry(127);
    assert_eq!(machine.registers.accumulator, -1);
    assert_eq!(machine.registers.status.contains(ps_carry), false);
    assert_eq!(machine.registers.status.contains(ps_zero), false);
    assert_eq!(machine.registers.status.contains(ps_negative), true);
    assert_eq!(machine.registers.status.contains(ps_overflow), false);

    let mut machine = Machine::new();

    machine.add_with_carry(127);
    assert_eq!(machine.registers.accumulator, 127);
    assert_eq!(machine.registers.status.contains(ps_carry), false);
    assert_eq!(machine.registers.status.contains(ps_zero), false);
    assert_eq!(machine.registers.status.contains(ps_negative), false);
    assert_eq!(machine.registers.status.contains(ps_overflow), false);

    machine.add_with_carry(1);
    assert_eq!(machine.registers.accumulator, -128);
    assert_eq!(machine.registers.status.contains(ps_carry), false);
    assert_eq!(machine.registers.status.contains(ps_zero), false);
    assert_eq!(machine.registers.status.contains(ps_negative), true);
    assert_eq!(machine.registers.status.contains(ps_overflow), true);
}

#[test]
fn bitwise_and_test() {
    let mut machine = Machine::new();

    machine.registers.accumulator = 0;

    machine.bitwise_and(-1);
    assert_eq!(machine.registers.accumulator, 0);
    assert_eq!(machine.registers.status.contains(ps_zero), true);
    assert_eq!(machine.registers.status.contains(ps_negative), false);

    machine.add_with_carry(i8::MAX);
    machine.add_with_carry(1);

    machine.bitwise_and(i8::MIN);
    assert_eq!(machine.registers.accumulator, i8::MIN);
    assert_eq!(machine.registers.status.contains(ps_zero), false);
    assert_eq!(machine.registers.status.contains(ps_negative), true);

    machine.bitwise_and(i8::MAX);
    assert_eq!(machine.registers.accumulator, 0);
    assert_eq!(machine.registers.status.contains(ps_zero), true);
    assert_eq!(machine.registers.status.contains(ps_negative), false);

    machine.registers.accumulator = -1;
    machine.bitwise_and(31);
    assert_eq!(machine.registers.accumulator, 31);
    assert_eq!(machine.registers.status.contains(ps_zero), false);
    assert_eq!(machine.registers.status.contains(ps_negative), false);
}

#[test]
fn adc_one_then_minus_one_wraps_with_carry() {
    let mut machine = Machine::new();

    machine.add_with_carry(1);
    assert_eq!(machine.registers.accumulator, 1);
    assert!(!machine.registers.status.contains(ps_carry));
    assert!(!machine.registers.status.contains(ps_zero));
    assert!(!machine.registers.status.contains(ps_negative));
    assert!(!machine.registers.status.contains(ps_overflow));

    machine.add_with_carry(-1);
    assert_eq!(machine.registers.accumulator, 0);
    assert!(machine.registers.status.contains(ps_carry));
    assert!(machine.registers.status.contains(ps_zero));
    assert!(!machine.registers.status.contains(ps_negative));
    assert!(!machine.registers.status.contains(ps_overflow));
}

#[test]
fn adc_opposite_signs_cancel_without_overflow() {
    let mut machine = Machine::new();

    machine.add_with_carry(127);
    machine.add_with_carry(-127);
    assert_eq!(machine.registers.accumulator, 0);
    assert!(machine.registers.status.contains(ps_carry));
    assert!(machine.registers.status.contains(ps_zero));
    assert!(!machine.registers.status.contains(ps_overflow));
}

#[test]
fn adc_positive_overflow_sets_overflow_and_negative() {
    let mut machine = Machine::new();

    machine.add_with_carry(127);
    machine.add_with_carry(1);
    assert_eq!(machine.registers.accumulator, -128);
    assert!(!machine.registers.status.contains(ps_carry));
    assert!(machine.registers.status.contains(ps_negative));
    assert!(machine.registers.status.contains(ps_overflow));
}

#[test]
fn adc_negative_overflow_sets_overflow_and_carry() {
    let mut machine = Machine::new();

    machine.add_with_carry(-128);
    assert_eq!(machine.registers.accumulator, -128);
    assert!(!machine.registers.status.contains(ps_carry));
    assert!(machine.registers.status.contains(ps_negative));
    assert!(!machine.registers.status.contains(ps_overflow));

    machine.add_with_carry(-128);
    assert_eq!(machine.registers.accumulator, 0);
    assert!(machine.registers.status.contains(ps_carry));
    assert!(machine.registers.status.contains(ps_zero));
    assert!(machine.registers.status.contains(ps_overflow));
}

#[test]
fn adc_consumes_carry_flag_as_one() {
    let mut machine = Machine::new();

    machine.add_with_carry(-1);
    assert_eq!(machine.registers.accumulator, -1);
    assert!(!machine.registers.status.contains(ps_carry));
    assert!(machine.registers.status.contains(ps_negative));

    machine.add_with_carry(1);
    assert_eq!(machine.registers.accumulator, 0);
    assert!(machine.registers.status.contains(ps_carry));

    // Carry is set, so adding zero still adds one.
    machine.add_with_carry(0);
    assert_eq!(machine.registers.accumulator, 1);
    assert!(!machine.registers.status.contains(ps_carry));
    assert!(!machine.registers.status.contains(ps_zero));
}

#[test]
fn and_all_bits_on_zero_accumulator_is_zero() {
    let mut machine = Machine::new();

    machine.registers.accumulator = 0;
    machine.bitwise_and(-1);
    assert_eq!(machine.registers.accumulator, 0);
    assert!(machine.registers.status.contains(ps_zero));
    assert!(!machine.registers.status.contains(ps_negative));
}

#[test]
fn and_masks_all_set_accumulator() {
    let mut machine = Machine::new();

    machine.registers.accumulator = -1;
    machine.bitwise_and(31);
    assert_eq!(machine.registers.accumulator, 31);
    assert!(!machine.registers.status.contains(ps_zero));
    assert!(!machine.registers.status.contains(ps_negative));
}

#[test]
fn and_leaves_carry_and_overflow_alone() {
    let mut machine = Machine::new();

    // Drive both carry and overflow high through an arithmetic wrap.
    machine.add_with_carry(-128);
    machine.add_with_carry(-128);
    assert!(machine.registers.status.contains(ps_carry));
    assert!(machine.registers.status.contains(ps_overflow));

    machine.registers.accumulator = 0x55;
    machine.bitwise_and(0x0F);
    assert_eq!(machine.registers.accumulator, 0x05);
    assert!(machine.registers.status.contains(ps_carry));
    assert!(machine.registers.status.contains(ps_overflow));

    // And with carry and overflow clear they stay clear.
    let mut machine = Machine::new();
    machine.registers.accumulator = 0x55;
    machine.bitwise_and(0x0F);
    assert!(!machine.registers.status.contains(ps_carry));
    assert!(!machine.registers.status.contains(ps_overflow));
}

#[test]
fn new_machine_is_zeroed() {
    let machine = Machine::new();
    assert_eq!(machine.registers.accumulator, 0);
    assert_eq!(machine.registers.index_x, 0);
    assert_eq!(machine.registers.index_y, 0);
    assert_eq!(machine.registers.stack_pointer, 0);
    assert_eq!(machine.registers.program_counter, 0);
    assert_eq!(machine.registers.status.bits, 0);
    assert_eq!(machine.memory.read(0x0000), 0);
    assert_eq!(machine.memory.read(0x1234), 0);
    assert_eq!(machine.memory.read(0xFFFF), 0);
}

#[test]
fn reset_discards_all_state() {
    let mut machine = Machine::new();
    machine.registers.accumulator = 42;
    machine.registers.index_x = -3;
    machine.registers.program_counter = 0xBEEF;
    machine.memory.write(0x0200, 0xAB);
    machine.add_with_carry(-128);

    machine.reset();
    assert_eq!(machine.registers.accumulator, 0);
    assert_eq!(machine.registers.index_x, 0);
    assert_eq!(machine.registers.index_y, 0);
    assert_eq!(machine.registers.stack_pointer, 0);
    assert_eq!(machine.registers.program_counter, 0);
    assert_eq!(machine.registers.status.bits, 0);
    assert_eq!(machine.memory.read(0x0200), 0);
}
