//! Bus gating: a switch line lets data through or holds every line low.

use vstd::prelude::*;

use crate::circuit::{ANDGate, Potential, Wire};
use crate::component::{low_wires, wire_values, Component};

verus! {

/// Gates n data lines with one switch line.
///
/// Pins in: data lines `0..n`, then the switch at pin n. Pins out: the n
/// gated data lines.
#[derive(Debug, Clone)]
pub struct EnablerN {
    n_way: usize,
    input: Vec<Wire>,
    and_gates: Vec<ANDGate>,
    output: Vec<Wire>,
}

impl EnablerN {
    /// An enabler over `n_way` data lines, with every pin low.
    pub fn new(n_way: usize) -> (r: Self)
        requires
            n_way < usize::MAX,
        ensures
            r.wf(),
            r.inputs() == Seq::new((n_way + 1) as nat, |i: int| false),
            r.outputs() == Seq::new(n_way as nat, |i: int| false),
    {
        let input = low_wires(n_way + 1);
        let output = low_wires(n_way);
        let mut and_gates: Vec<ANDGate> = Vec::new();
        let mut j: usize = 0;
        while j < n_way
            invariant
                j <= n_way,
                and_gates.len() == j,
            decreases n_way - j,
        {
            and_gates.push(ANDGate::default());
            j = j + 1;
        }
        EnablerN { n_way, input, and_gates, output }
    }
}

impl Component for EnablerN {
    closed spec fn wf(&self) -> bool {
        &&& self.n_way < usize::MAX
        &&& self.input.len() == self.n_way + 1
        &&& self.and_gates.len() == self.n_way
        &&& self.output.len() == self.n_way
    }

    closed spec fn inputs(&self) -> Seq<bool> {
        wire_values(self.input@)
    }

    closed spec fn outputs(&self) -> Seq<bool> {
        wire_values(self.output@)
    }

    /// Each data line is passed through while the switch is high, and is low
    /// otherwise.
    open spec fn logic(inputs: Seq<bool>) -> Seq<bool> {
        let n = inputs.len() - 1;
        Seq::new(n as nat, |k: int| inputs[k] && inputs[n])
    }

    fn get_pin_count(&self) -> (r: (usize, usize)) {
        (self.n_way + 1, self.n_way)
    }

    fn set_pin_input(&mut self, position: usize, value: &Potential) {
        self.input[position].input(value);
        assert(self.inputs() == old(self).inputs().update(position as int, *value));
    }

    fn get_pin_output(&self, position: usize) -> (r: Potential) {
        self.output[position].output()
    }

    fn update_state(&mut self) {
        let n = self.n_way;
        let ghost ins = self.inputs();
        let switcher = self.input[n].output();
        let mut i: usize = 0;
        while i < n
            invariant
                self.wf(),
                self.n_way == n,
                i <= n,
                self.inputs() == ins,
                ins.len() == n + 1,
                switcher == ins[n as int],
                forall|k: int| 0 <= k < i ==> #[trigger] self.outputs()[k] == (ins[k] && switcher),
            decreases n - i,
        {
            let data = self.input[i].output();
            assert(data == ins[i as int]);
            let ghost before = self.outputs();
            self.and_gates[i].input(&data, &switcher);
            self.output[i].input(&self.and_gates[i].output());
            assert(self.outputs() == before.update(i as int, data && switcher));
            assert forall|k: int| 0 <= k < i + 1 implies #[trigger] self.outputs()[k] == (ins[k]
                && switcher) by {
                if k < i {
                    assert(before[k] == (ins[k] && switcher));
                }
            }
            i = i + 1;
        }
        assert(self.outputs() =~= Self::logic(ins));
    }
}

} // verus!
