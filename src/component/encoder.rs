//! Encoders: a one-hot line set compressed to its binary index.

use vstd::prelude::*;

use crate::component::big_gates::ORGate3;
use crate::circuit::{ANDGate, NOTGate, ORGate, Potential, Wire};
use crate::component::{wire_values, Component};

verus! {

/// Two lines to one bit. Pins in: I0, I1. Pins out: the index bit.
#[derive(Debug, Clone, Copy)]
pub struct Encoder2_1 {
    input: [Wire; 2],
    output: [Wire; 1],
}

impl Default for Encoder2_1 {
    fn default() -> (r: Self)
        ensures
            r.inputs() == seq![false, false],
            r.outputs() == seq![false],
    {
        let r = Encoder2_1 {
            input: [Wire::new(false), Wire::new(false)],
            output: [Wire::new(false)],
        };
        assert(r.inputs() == seq![false, false]);
        assert(r.outputs() == seq![false]);
        r
    }
}

impl Component for Encoder2_1 {
    open spec fn wf(&self) -> bool {
        self.inputs().len() == 2 && self.outputs().len() == 1
    }

    closed spec fn inputs(&self) -> Seq<bool> {
        wire_values(self.input@)
    }

    closed spec fn outputs(&self) -> Seq<bool> {
        wire_values(self.output@)
    }

    /// The index bit is line I1.
    open spec fn logic(inputs: Seq<bool>) -> Seq<bool> {
        seq![inputs[1]]
    }

    fn get_pin_count(&self) -> (r: (usize, usize)) {
        (2, 1)
    }

    fn set_pin_input(&mut self, position: usize, value: &Potential) {
        self.input[position].input(value);
        assert(self.inputs() == old(self).inputs().update(position as int, *value));
    }

    fn get_pin_output(&self, position: usize) -> (r: Potential) {
        self.output[position].output()
    }

    fn update_state(&mut self) {
        let i1 = self.input[1].output();
        self.output[0].input(&i1);
        assert(self.outputs() == Self::logic(old(self).inputs()));
        assert(self.inputs() == old(self).inputs());
    }
}

/// Four lines to two bits through an OR tree. Pins in: I0 to I3. Pins out:
/// index bit 0 (least significant), index bit 1.
#[derive(Debug, Clone, Copy)]
pub struct Encoder4_2 {
    input: [Wire; 4],
    output: [Wire; 2],
    or_gates: [ORGate; 2],
}

impl Default for Encoder4_2 {
    fn default() -> (r: Self)
        ensures
            r.inputs() == seq![false, false, false, false],
            r.outputs() == seq![false, false],
    {
        let r = Encoder4_2 {
            input: [Wire::new(false), Wire::new(false), Wire::new(false), Wire::new(false)],
            output: [Wire::new(false), Wire::new(false)],
            or_gates: [ORGate::default(), ORGate::default()],
        };
        assert(r.inputs() == seq![false, false, false, false]);
        assert(r.outputs() == seq![false, false]);
        r
    }
}

impl Component for Encoder4_2 {
    open spec fn wf(&self) -> bool {
        self.inputs().len() == 4 && self.outputs().len() == 2
    }

    closed spec fn inputs(&self) -> Seq<bool> {
        wire_values(self.input@)
    }

    closed spec fn outputs(&self) -> Seq<bool> {
        wire_values(self.output@)
    }

    /// Bit 0 is I1 or I3, bit 1 is I2 or I3: the index of a single high line.
    open spec fn logic(inputs: Seq<bool>) -> Seq<bool> {
        seq![inputs[3] || inputs[1], inputs[3] || inputs[2]]
    }

    fn get_pin_count(&self) -> (r: (usize, usize)) {
        (4, 2)
    }

    fn set_pin_input(&mut self, position: usize, value: &Potential) {
        self.input[position].input(value);
        assert(self.inputs() == old(self).inputs().update(position as int, *value));
    }

    fn get_pin_output(&self, position: usize) -> (r: Potential) {
        self.output[position].output()
    }

    fn update_state(&mut self) {
        let i1 = self.input[1].output();
        let i2 = self.input[2].output();
        let i3 = self.input[3].output();
        self.or_gates[0].input(&i3, &i1);
        self.or_gates[1].input(&i3, &i2);
        self.output[0].input(&self.or_gates[0].output());
        self.output[1].input(&self.or_gates[1].output());
        assert(self.outputs() == Self::logic(old(self).inputs()));
        assert(self.inputs() == old(self).inputs());
    }
}

/// The index of the highest high line among I0 to I3, or 0 when none is.
pub open spec fn highest_active(inputs: Seq<bool>) -> nat {
    if inputs[3] {
        3
    } else if inputs[2] {
        2
    } else if inputs[1] {
        1
    } else {
        0
    }
}

/// Four lines to two bits and a valid flag, with priority I3 > I2 > I1 > I0.
/// Pins in: I0 to I3. Pins out: index bit 0, index bit 1, valid.
#[derive(Debug, Clone, Copy)]
pub struct PriorityEncoder4_2 {
    input: [Wire; 4],
    output: [Wire; 3],
    or_gate_1: ORGate,
    or_gate_2: ORGate,
    and_gate: ANDGate,
    not_gate: NOTGate,
    big_or: ORGate3,
}

impl Default for PriorityEncoder4_2 {
    fn default() -> (r: Self)
        ensures
            r.wf(),
            r.inputs() == seq![false, false, false, false],
            r.outputs() == seq![false, false, false],
    {
        let r = PriorityEncoder4_2 {
            input: [Wire::new(false), Wire::new(false), Wire::new(false), Wire::new(false)],
            output: [Wire::new(false), Wire::new(false), Wire::new(false)],
            or_gate_1: ORGate::default(),
            or_gate_2: ORGate::default(),
            and_gate: ANDGate::default(),
            not_gate: NOTGate::default(),
            big_or: ORGate3::default(),
        };
        assert(r.inputs() == seq![false, false, false, false]);
        assert(r.outputs() == seq![false, false, false]);
        r
    }
}

impl Component for PriorityEncoder4_2 {
    closed spec fn wf(&self) -> bool {
        self.big_or.wf()
    }

    closed spec fn inputs(&self) -> Seq<bool> {
        wire_values(self.input@)
    }

    closed spec fn outputs(&self) -> Seq<bool> {
        wire_values(self.output@)
    }

    /// The binary index of the highest-priority high line, and whether any
    /// line is high.
    open spec fn logic(inputs: Seq<bool>) -> Seq<bool> {
        let code = highest_active(inputs);
        seq![code % 2 == 1, code >= 2, inputs[0] || inputs[1] || inputs[2] || inputs[3]]
    }

    fn get_pin_count(&self) -> (r: (usize, usize)) {
        (4, 3)
    }

    fn set_pin_input(&mut self, position: usize, value: &Potential) {
        self.input[position].input(value);
        assert(self.inputs() == old(self).inputs().update(position as int, *value));
    }

    fn get_pin_output(&self, position: usize) -> (r: Potential) {
        self.output[position].output()
    }

    fn update_state(&mut self) {
        let i0 = self.input[0].output();
        let i1 = self.input[1].output();
        let i2 = self.input[2].output();
        let i3 = self.input[3].output();
        self.or_gate_1.input(&i3, &i2);
        let high_pair = self.or_gate_1.output();
        self.output[1].input(&high_pair);
        self.not_gate.input(&i2);
        self.and_gate.input(&i1, &self.not_gate.output());
        self.or_gate_2.input(&i3, &self.and_gate.output());
        self.output[0].input(&self.or_gate_2.output());
        self.big_or.fire(&vec![high_pair, i0, i1]);
        let valid = self.big_or.output();
        self.output[2].input(&valid[0]);
        assert(self.outputs() == Self::logic(old(self).inputs()));
        assert(self.inputs() == old(self).inputs());
    }
}

} // verus!
