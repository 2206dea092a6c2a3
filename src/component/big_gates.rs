//! Wide gates built by chaining two-input gates.

use vstd::prelude::*;

use crate::circuit::{ANDGate, ORGate, Potential, Wire};
use crate::component::{low_wires, wire_values, Component};

verus! {

/// Three-input AND gate: two AND gates in a chain.
#[derive(Debug, Clone, Copy)]
pub struct ANDGate3 {
    input: [Wire; 3],
    and_gate: [ANDGate; 2],
    output: Wire,
}

impl Default for ANDGate3 {
    fn default() -> (r: Self)
        ensures
            r.inputs() == seq![false, false, false],
            r.outputs() == seq![false],
    {
        let r = ANDGate3 {
            input: [Wire::new(false), Wire::new(false), Wire::new(false)],
            and_gate: [ANDGate::default(), ANDGate::default()],
            output: Wire::new(false),
        };
        assert(r.inputs() == seq![false, false, false]);
        r
    }
}

impl Component for ANDGate3 {
    open spec fn wf(&self) -> bool {
        self.inputs().len() == 3 && self.outputs().len() == 1
    }

    closed spec fn inputs(&self) -> Seq<bool> {
        wire_values(self.input@)
    }

    closed spec fn outputs(&self) -> Seq<bool> {
        seq![self.output@]
    }

    /// High when all three inputs are high.
    open spec fn logic(inputs: Seq<bool>) -> Seq<bool> {
        seq![inputs[0] && inputs[1] && inputs[2]]
    }

    fn get_pin_count(&self) -> (r: (usize, usize)) {
        (3, 1)
    }

    fn set_pin_input(&mut self, position: usize, value: &Potential) {
        self.input[position].input(value);
        assert(self.inputs() == old(self).inputs().update(position as int, *value));
    }

    fn get_pin_output(&self, position: usize) -> (r: Potential) {
        self.output.output()
    }

    fn update_state(&mut self) {
        let a = self.input[0].output();
        let b = self.input[1].output();
        let c = self.input[2].output();
        self.and_gate[0].input(&a, &b);
        let ab = self.and_gate[0].output();
        self.and_gate[1].input(&ab, &c);
        self.output.input(&self.and_gate[1].output());
        assert(self.inputs() == old(self).inputs());
    }
}

/// Three-input OR gate: two OR gates in a chain.
#[derive(Debug, Clone, Copy)]
pub struct ORGate3 {
    input: [Wire; 3],
    or_gate: [ORGate; 2],
    output: Wire,
}

impl Default for ORGate3 {
    fn default() -> (r: Self)
        ensures
            r.inputs() == seq![false, false, false],
            r.outputs() == seq![false],
    {
        let r = ORGate3 {
            input: [Wire::new(false), Wire::new(false), Wire::new(false)],
            or_gate: [ORGate::default(), ORGate::default()],
            output: Wire::new(false),
        };
        assert(r.inputs() == seq![false, false, false]);
        r
    }
}

impl Component for ORGate3 {
    open spec fn wf(&self) -> bool {
        self.inputs().len() == 3 && self.outputs().len() == 1
    }

    closed spec fn inputs(&self) -> Seq<bool> {
        wire_values(self.input@)
    }

    closed spec fn outputs(&self) -> Seq<bool> {
        seq![self.output@]
    }

    /// High when any of the three inputs is high.
    open spec fn logic(inputs: Seq<bool>) -> Seq<bool> {
        seq![inputs[0] || inputs[1] || inputs[2]]
    }

    fn get_pin_count(&self) -> (r: (usize, usize)) {
        (3, 1)
    }

    fn set_pin_input(&mut self, position: usize, value: &Potential) {
        self.input[position].input(value);
        assert(self.inputs() == old(self).inputs().update(position as int, *value));
    }

    fn get_pin_output(&self, position: usize) -> (r: Potential) {
        self.output.output()
    }

    fn update_state(&mut self) {
        let a = self.input[0].output();
        let b = self.input[1].output();
        let c = self.input[2].output();
        self.or_gate[0].input(&a, &b);
        let ab = self.or_gate[0].output();
        self.or_gate[1].input(&ab, &c);
        self.output.input(&self.or_gate[1].output());
        assert(self.inputs() == old(self).inputs());
    }
}

/// Whether every potential in `inputs` is high.
pub open spec fn all_high(inputs: Seq<bool>) -> bool {
    forall|k: int| 0 <= k < inputs.len() ==> #[trigger] inputs[k]
}

proof fn lemma_all_high_push(s: Seq<bool>, x: bool)
    ensures
        all_high(s.push(x)) == (all_high(s) && x),
{
    if all_high(s) && x {
        assert forall|k: int| 0 <= k < s.push(x).len() implies #[trigger] s.push(x)[k] by {
            if k < s.len() {
                assert(s[k]);
            }
        }
    }
    if all_high(s.push(x)) {
        assert(s.push(x)[s.len() as int]);
        assert forall|k: int| 0 <= k < s.len() implies #[trigger] s[k] by {
            assert(s.push(x)[k]);
        }
    }
}

/// N-input AND gate: N - 1 AND gates in a chain, N at least 2.
#[derive(Debug, Clone)]
pub struct ANDGateN {
    n_way: usize,
    input: Vec<Wire>,
    and_gate: Vec<ANDGate>,
    output: Wire,
}

impl ANDGateN {
    /// An AND gate over `n_way` inputs, with every pin low.
    pub fn new(n_way: usize) -> (r: Self)
        requires
            2 <= n_way,
        ensures
            r.wf(),
            r.inputs() == Seq::new(n_way as nat, |i: int| false),
            r.outputs() == seq![false],
    {
        let input = low_wires(n_way);
        let mut and_gate: Vec<ANDGate> = Vec::new();
        let mut j: usize = 0;
        while j < n_way - 1
            invariant
                j <= n_way - 1,
                and_gate.len() == j,
            decreases n_way - 1 - j,
        {
            and_gate.push(ANDGate::default());
            j = j + 1;
        }
        ANDGateN { n_way, input, and_gate, output: Wire::new(false) }
    }
}

impl Component for ANDGateN {
    closed spec fn wf(&self) -> bool {
        &&& 2 <= self.n_way
        &&& self.input.len() == self.n_way
        &&& self.and_gate.len() == self.n_way - 1
    }

    closed spec fn inputs(&self) -> Seq<bool> {
        wire_values(self.input@)
    }

    closed spec fn outputs(&self) -> Seq<bool> {
        seq![self.output@]
    }

    /// High when every input is high.
    open spec fn logic(inputs: Seq<bool>) -> Seq<bool> {
        seq![all_high(inputs)]
    }

    fn get_pin_count(&self) -> (r: (usize, usize)) {
        (self.n_way, 1)
    }

    fn set_pin_input(&mut self, position: usize, value: &Potential) {
        self.input[position].input(value);
        assert(self.inputs() == old(self).inputs().update(position as int, *value));
    }

    fn get_pin_output(&self, position: usize) -> (r: Potential) {
        self.output.output()
    }

    fn update_state(&mut self) {
        let n = self.n_way;
        let ghost ins = self.inputs();
        let a = self.input[0].output();
        let b = self.input[1].output();
        self.and_gate[0].input(&a, &b);
        proof {
            assert(ins.take(2) == seq![a].push(b));
            assert(seq![a] == Seq::<bool>::empty().push(a));
            lemma_all_high_push(Seq::<bool>::empty(), a);
            lemma_all_high_push(seq![a], b);
        }
        let mut i: usize = 1;
        while i < n - 1
            invariant
                self.wf(),
                self.n_way == n,
                1 <= i <= n - 1,
                self.inputs() == ins,
                self.outputs() == old(self).outputs(),
                self.and_gate[i - 1]@ == all_high(ins.take(i + 1)),
            decreases n - 1 - i,
        {
            let previous = self.and_gate[i - 1].output();
            let next = self.input[i + 1].output();
            self.and_gate[i].input(&previous, &next);
            assert(ins.take(i + 2) == ins.take(i + 1).push(next));
            proof {
                lemma_all_high_push(ins.take(i + 1), next);
            }
            i = i + 1;
        }
        self.output.input(&self.and_gate[n - 2].output());
        assert(ins.take(n as int) == ins);
    }
}

} // verus!
