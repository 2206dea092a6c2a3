//! Binary decoders: a binary address selects exactly one output line.

use vstd::prelude::*;

use crate::circuit::{bit, ANDGate, NOTGate, Potential, Wire};
use crate::component::{wire_values, Component};

verus! {

/// One address bit selects one of two lines. Pins in: A. Pins out: line 0,
/// line 1.
#[derive(Debug, Clone, Copy)]
pub struct Decoder1_2 {
    input: [Wire; 1],
    output: [Wire; 2],
    not_gate: NOTGate,
}

impl Default for Decoder1_2 {
    fn default() -> (r: Self)
        ensures
            r.inputs() == seq![false],
            r.outputs() == seq![false, false],
    {
        let r = Decoder1_2 {
            input: [Wire::new(false)],
            output: [Wire::new(false), Wire::new(false)],
            not_gate: NOTGate::default(),
        };
        assert(r.inputs() == seq![false]);
        assert(r.outputs() == seq![false, false]);
        r
    }
}

impl Component for Decoder1_2 {
    open spec fn wf(&self) -> bool {
        self.inputs().len() == 1 && self.outputs().len() == 2
    }

    closed spec fn inputs(&self) -> Seq<bool> {
        wire_values(self.input@)
    }

    closed spec fn outputs(&self) -> Seq<bool> {
        wire_values(self.output@)
    }

    /// Line 0 is high for address 0, line 1 for address 1.
    open spec fn logic(inputs: Seq<bool>) -> Seq<bool> {
        seq![!inputs[0], inputs[0]]
    }

    fn get_pin_count(&self) -> (r: (usize, usize)) {
        (1, 2)
    }

    fn set_pin_input(&mut self, position: usize, value: &Potential) {
        self.input[position].input(value);
        assert(self.inputs() == old(self).inputs().update(position as int, *value));
    }

    fn get_pin_output(&self, position: usize) -> (r: Potential) {
        self.output[position].output()
    }

    fn update_state(&mut self) {
        let a = self.input[0].output();
        self.not_gate.input(&a);
        self.output[0].input(&self.not_gate.output());
        self.output[1].input(&a);
        assert(self.outputs() == Self::logic(old(self).inputs()));
        assert(self.inputs() == old(self).inputs());
    }
}

/// Two address bits select one of four lines. Pins in: address bit 0 (least
/// significant), address bit 1. Pins out: lines 0 to 3.
#[derive(Debug, Clone, Copy)]
pub struct Decoder2_4 {
    input: [Wire; 2],
    output: [Wire; 4],
    not_gate: [NOTGate; 2],
    and_gate: [ANDGate; 4],
}

impl Default for Decoder2_4 {
    fn default() -> (r: Self)
        ensures
            r.inputs() == seq![false, false],
            r.outputs() == seq![false, false, false, false],
    {
        let r = Decoder2_4 {
            input: [Wire::new(false), Wire::new(false)],
            output: [Wire::new(false), Wire::new(false), Wire::new(false), Wire::new(false)],
            not_gate: [NOTGate::default(), NOTGate::default()],
            and_gate: [ANDGate::default(), ANDGate::default(), ANDGate::default(), ANDGate::default()],
        };
        assert(r.inputs() == seq![false, false]);
        assert(r.outputs() == seq![false, false, false, false]);
        r
    }
}

impl Component for Decoder2_4 {
    open spec fn wf(&self) -> bool {
        self.inputs().len() == 2 && self.outputs().len() == 4
    }

    closed spec fn inputs(&self) -> Seq<bool> {
        wire_values(self.input@)
    }

    closed spec fn outputs(&self) -> Seq<bool> {
        wire_values(self.output@)
    }

    /// Line k is high exactly when the address spells k.
    open spec fn logic(inputs: Seq<bool>) -> Seq<bool> {
        Seq::new(4, |k: int| k == bit(inputs[0]) + 2 * bit(inputs[1]))
    }

    fn get_pin_count(&self) -> (r: (usize, usize)) {
        (2, 4)
    }

    fn set_pin_input(&mut self, position: usize, value: &Potential) {
        self.input[position].input(value);
        assert(self.inputs() == old(self).inputs().update(position as int, *value));
    }

    fn get_pin_output(&self, position: usize) -> (r: Potential) {
        self.output[position].output()
    }

    fn update_state(&mut self) {
        let a0 = self.input[0].output();
        let a1 = self.input[1].output();
        self.not_gate[0].input(&a0);
        self.not_gate[1].input(&a1);
        let n0 = self.not_gate[0].output();
        let n1 = self.not_gate[1].output();
        self.and_gate[0].input(&n1, &n0);
        self.and_gate[1].input(&n1, &a0);
        self.and_gate[2].input(&a1, &n0);
        self.and_gate[3].input(&a1, &a0);
        self.output[0].input(&self.and_gate[0].output());
        self.output[1].input(&self.and_gate[1].output());
        self.output[2].input(&self.and_gate[2].output());
        self.output[3].input(&self.and_gate[3].output());
        assert(self.outputs() =~= Self::logic(old(self).inputs()));
        assert(self.inputs() == old(self).inputs());
    }
}

} // verus!
