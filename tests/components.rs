use simulation_computer_rust::component::adder::{FullAdder, HalfAdder, RippleCarryAdder};
use simulation_computer_rust::component::big_gates::{ANDGate3, ANDGateN, ORGate3};
use simulation_computer_rust::component::Component;
use simulation_computer_rust::component::decoder::{Decoder1_2, Decoder2_4};
use simulation_computer_rust::component::enabler::EnablerN;
use simulation_computer_rust::component::encoder::{Encoder2_1, Encoder4_2, PriorityEncoder4_2};
use simulation_computer_rust::potentials::Potentials;

#[test]
fn test_half_adder_default() {
    let half_adder = HalfAdder::default();
    assert_eq!(half_adder.output(), vec![false, false]);
}

#[test]
fn test_full_adder_default() {
    let full_adder = FullAdder::default();
    assert_eq!(full_adder.output(), vec![false, false]);
}

#[test]
fn test_ripple_carry_adder_default() {
    let adder_4 = RippleCarryAdder::new(4);
    assert_eq!(adder_4.output(), vec![false, false, false, false, false]);
}

#[test]
fn test_half_adder_input() {
    let cases = [
        (false, false, false, false),
        (false, true, true, false),
        (true, false, true, false),
        (true, true, false, true),
    ];
    for (a, b, sum, carry) in cases {
        let mut half_adder = HalfAdder::default();
        half_adder.input(&vec![a, b]);
        half_adder.update_state();
        assert_eq!(half_adder.output(), vec![sum, carry]);
    }
}

#[test]
fn test_full_adder_input() {
    let cases = [
        (false, false, false, false, false),
        (false, false, true, true, false),
        (false, true, false, true, false),
        (false, true, true, false, true),
        (true, false, false, true, false),
        (true, false, true, false, true),
        (true, true, false, false, true),
        (true, true, true, true, true),
    ];
    for (a, b, c, sum, carry) in cases {
        let mut full_adder = FullAdder::default();
        full_adder.input(&vec![a, b, c]);
        full_adder.update_state();
        assert_eq!(full_adder.output(), vec![sum, carry]);
    }
}

#[test]
fn test_ripple_carry_adder_input() {
    // carry | a | b  => sum | carry
    let cases = [
        ("0 00 00", "00 0"),
        ("0 10 00", "10 0"),
        ("0 10 10", "01 0"),
        ("0 11 10", "00 1"),
        ("0 11 11", "01 1"),
        ("1 00 00", "10 0"),
        ("1 10 00", "01 0"),
        ("1 10 10", "11 0"),
        ("1 11 10", "10 1"),
        ("1 11 11", "11 1"),
    ];
    for (input, output) in cases {
        let mut adder_2 = RippleCarryAdder::new(2);
        let i = Potentials::from_little_endian(input, false);
        adder_2.fire(&i.get_data(true));
        let o = Potentials::from_little_endian(output, false);
        assert_eq!(adder_2.output(), o.get_data(true));
    }
}

fn to_bits(value: u32, width: usize) -> Vec<bool> {
    (0..width).map(|k| (value >> k) & 1 == 1).collect()
}

#[test]
fn test_ripple_carry_adder_exhaustive_two_bits() {
    for carry in 0..2u32 {
        for a in 0..4u32 {
            for b in 0..4u32 {
                let mut adder_2 = RippleCarryAdder::new(2);
                let mut pins = vec![carry == 1];
                pins.extend(to_bits(a, 2));
                pins.extend(to_bits(b, 2));
                adder_2.fire(&pins);
                assert_eq!(adder_2.output(), to_bits(a + b + carry, 3));
            }
        }
    }
}

#[test]
fn test_ripple_carry_adder_three_plus_two() {
    let mut adder_2 = RippleCarryAdder::new(2);
    adder_2.fire(&vec![false, true, true, false, true]);
    assert_eq!(adder_2.output(), vec![true, false, true]);
}

#[test]
fn test_ripple_carry_adder_pin_count() {
    let adder = RippleCarryAdder::new(3);
    assert_eq!(adder.get_pin_count(), (7, 4));
}

#[test]
fn test_and_gate_3_default() {
    let and_gate_3 = ANDGate3::default();
    assert_eq!(and_gate_3.output(), vec![false]);
}

#[test]
fn test_and_gate_3_with_truth_table() {
    for a in [false, true] {
        for b in [false, true] {
            for c in [false, true] {
                let mut and_gate_3 = ANDGate3::default();
                and_gate_3.input(&vec![a, b, c]);
                and_gate_3.update_state();
                assert_eq!(and_gate_3.output(), vec![a && b && c]);
            }
        }
    }
}

#[test]
fn test_or_gate_3_default() {
    let or_gate_3 = ORGate3::default();
    assert_eq!(or_gate_3.output(), vec![false]);
}

#[test]
fn test_or_gate_3_with_truth_table() {
    for a in [false, true] {
        for b in [false, true] {
            for c in [false, true] {
                let mut or_gate_3 = ORGate3::default();
                or_gate_3.input(&vec![a, b, c]);
                or_gate_3.update_state();
                assert_eq!(or_gate_3.output(), vec![a || b || c]);
            }
        }
    }
}

#[test]
fn test_and_gate_n_3_default() {
    let and_gate = ANDGateN::new(3);
    assert_eq!(and_gate.output(), vec![false]);
}

#[test]
fn test_and_gate_n_3_with_truth_table() {
    for a in [false, true] {
        for b in [false, true] {
            for c in [false, true] {
                let mut and_gate_3 = ANDGateN::new(3);
                and_gate_3.input(&vec![a, b, c]);
                and_gate_3.update_state();
                assert_eq!(and_gate_3.output(), vec![a && b && c]);
            }
        }
    }
}

#[test]
fn test_and_gate_n_2_and_5() {
    let mut and_gate_2 = ANDGateN::new(2);
    and_gate_2.fire(&vec![true, true]);
    assert_eq!(and_gate_2.output(), vec![true]);
    let mut and_gate_5 = ANDGateN::new(5);
    and_gate_5.fire(&vec![true, true, true, false, true]);
    assert_eq!(and_gate_5.output(), vec![false]);
    and_gate_5.fire(&vec![true, true, true, true, true]);
    assert_eq!(and_gate_5.output(), vec![true]);
}

#[test]
fn test_decoder1_2_default() {
    let decoder = Decoder1_2::default();
    assert_eq!(decoder.output(), vec![false, false]);
}

#[test]
fn test_decoder1_2_with_truth_table() {
    let cases = [(vec![true], vec![false, true]), (vec![false], vec![true, false])];
    for (input, output) in cases {
        let mut decoder = Decoder1_2::default();
        decoder.fire(&input);
        assert_eq!(decoder.output(), output);
    }
}

#[test]
fn test_decoder2_4_default() {
    let decoder = Decoder2_4::default();
    assert_eq!(decoder.output(), vec![false, false, false, false]);
}

#[test]
fn test_decoder2_4_with_truth_table() {
    let cases = [
        (vec![false, false], vec![true, false, false, false]),
        (vec![true, false], vec![false, true, false, false]),
        (vec![false, true], vec![false, false, true, false]),
        (vec![true, true], vec![false, false, false, true]),
    ];
    for (input, output) in cases {
        let mut decoder = Decoder2_4::default();
        decoder.fire(&input);
        assert_eq!(decoder.output(), output);
    }
}

#[test]
fn test_enable_default() {
    let enabler = EnablerN::new(4);
    assert_eq!(enabler.output(), vec![false, false, false, false]);
}

#[test]
fn test_enable_on() {
    let mut enabler = EnablerN::new(4);
    enabler.fire(&vec![true, false, false, true, true]);
    assert_eq!(enabler.output(), vec![true, false, false, true]);
}

#[test]
fn test_enable_off() {
    let mut enabler = EnablerN::new(4);
    enabler.fire(&vec![true, false, false, true, false]);
    assert_eq!(enabler.output(), vec![false, false, false, false]);
}

#[test]
fn test_enable_input_without_update_keeps_outputs() {
    let mut enabler = EnablerN::new(4);
    enabler.input(&vec![true, true, true, true, true]);
    assert_eq!(enabler.output(), vec![false, false, false, false]);
    enabler.update_state();
    assert_eq!(enabler.output(), vec![true, true, true, true]);
}

#[test]
fn test_encoder2_1_default() {
    let encoder = Encoder2_1::default();
    assert_eq!(encoder.output(), vec![false]);
}

#[test]
fn test_encoder2_1_truth_table() {
    let cases = [(vec![true, false], vec![false]), (vec![false, true], vec![true])];
    for (input, expected) in cases {
        let mut encoder = Encoder2_1::default();
        encoder.fire(&input);
        assert_eq!(encoder.output(), expected);
    }
}

#[test]
fn test_encoder4_2_default() {
    let encoder = Encoder4_2::default();
    assert_eq!(encoder.output(), vec![false, false]);
}

#[test]
fn test_encoder4_2_truth_table() {
    let cases = [
        (vec![true, false, false, false], vec![false, false]),
        (vec![false, true, false, false], vec![true, false]),
        (vec![false, false, true, false], vec![false, true]),
        (vec![false, false, false, true], vec![true, true]),
    ];
    for (input, expected) in cases {
        let mut encoder = Encoder4_2::default();
        encoder.fire(&input);
        assert_eq!(encoder.output(), expected);
    }
}

#[test]
fn test_priority_encoder4_2_default() {
    let encoder = PriorityEncoder4_2::default();
    assert_eq!(encoder.output(), vec![false, false, false]);
}

#[test]
fn test_priority_encoder4_2_truth_table() {
    let cases = [
        (vec![false, false, false, false], vec![false, false, false]),
        (vec![true, false, false, false], vec![false, false, true]),
        (vec![false, true, false, false], vec![true, false, true]),
        (vec![false, false, true, false], vec![false, true, true]),
        (vec![false, false, false, true], vec![true, true, true]),
    ];
    for (input, expected) in cases {
        let mut encoder = PriorityEncoder4_2::default();
        encoder.fire(&input);
        assert_eq!(encoder.output(), expected);
    }
}

#[test]
fn test_priority_encoder4_2_resolves_several_active_lines() {
    let mut encoder = PriorityEncoder4_2::default();
    encoder.fire(&vec![true, true, false, true]);
    assert_eq!(encoder.output(), vec![true, true, true]);
    encoder.fire(&vec![true, true, true, false]);
    assert_eq!(encoder.output(), vec![false, true, true]);
    encoder.fire(&vec![true, true, false, false]);
    assert_eq!(encoder.output(), vec![true, false, true]);
}

#[test]
fn test_update_state_twice_is_idempotent() {
    let mut adder = FullAdder::default();
    adder.fire(&vec![true, false, true]);
    let first = adder.output();
    adder.update_state();
    assert_eq!(adder.output(), first);
    assert_eq!(first, vec![false, true]);
}

#[test]
fn test_set_pin_input_and_get_pin_output() {
    let mut adder = HalfAdder::default();
    assert_eq!(adder.get_pin_count(), (2, 2));
    adder.set_pin_input(1, &true);
    adder.update_state();
    assert_eq!(adder.get_pin_output(0), true);
    assert_eq!(adder.get_pin_output(1), false);
}
