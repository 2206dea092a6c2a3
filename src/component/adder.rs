//! Binary adders: half adder, full adder and the n-bit ripple-carry adder.

use vstd::prelude::*;

use crate::circuit::{bit, ANDGate, ORGate, Potential, Wire, XORGate};
use crate::component::{low_wires, wire_values, Component};

verus! {

/// Adds two bits. Pins in: A, B. Pins out: sum, carry.
#[derive(Debug, Clone, Copy)]
pub struct HalfAdder {
    input: [Wire; 2],
    output: [Wire; 2],
    and_gate: ANDGate,
    xor_gate: XORGate,
}

impl Default for HalfAdder {
    fn default() -> (r: Self)
        ensures
            r.inputs() == seq![false, false],
            r.outputs() == seq![false, false],
    {
        let r = HalfAdder {
            input: [Wire::new(false), Wire::new(false)],
            output: [Wire::new(false), Wire::new(false)],
            and_gate: ANDGate::default(),
            xor_gate: XORGate::default(),
        };
        assert(r.inputs() == seq![false, false]);
        assert(r.outputs() == seq![false, false]);
        r
    }
}

impl Component for HalfAdder {
    open spec fn wf(&self) -> bool {
        self.inputs().len() == 2 && self.outputs().len() == 2
    }

    closed spec fn inputs(&self) -> Seq<bool> {
        wire_values(self.input@)
    }

    closed spec fn outputs(&self) -> Seq<bool> {
        wire_values(self.output@)
    }

    /// The sum is the exclusive or of the inputs, the carry their conjunction.
    open spec fn logic(inputs: Seq<bool>) -> Seq<bool> {
        seq![inputs[0] != inputs[1], inputs[0] && inputs[1]]
    }

    fn get_pin_count(&self) -> (r: (usize, usize)) {
        (2, 2)
    }

    fn set_pin_input(&mut self, position: usize, value: &Potential) {
        self.input[position].input(value);
        assert(self.inputs() == old(self).inputs().update(position as int, *value));
    }

    fn get_pin_output(&self, position: usize) -> (r: Potential) {
        self.output[position].output()
    }

    fn update_state(&mut self) {
        let a = self.input[0].output();
        let b = self.input[1].output();
        self.and_gate.input(&a, &b);
        self.xor_gate.input(&a, &b);
        self.output[0].input(&self.xor_gate.output());
        self.output[1].input(&self.and_gate.output());
        assert(self.outputs() == Self::logic(old(self).inputs()));
        assert(self.inputs() == old(self).inputs());
    }
}

/// Adds three bits. Pins in: A, B, carry-in. Pins out: sum, carry-out.
///
/// Two half adders in series, with an OR gate joining their carries.
#[derive(Debug, Clone, Copy)]
pub struct FullAdder {
    half_adder: [HalfAdder; 2],
    or_gate: ORGate,
    input: [Wire; 3],
    output: [Wire; 2],
}

impl Default for FullAdder {
    fn default() -> (r: Self)
        ensures
            r.inputs() == seq![false, false, false],
            r.outputs() == seq![false, false],
    {
        let r = FullAdder {
            half_adder: [HalfAdder::default(), HalfAdder::default()],
            or_gate: ORGate::default(),
            input: [Wire::new(false), Wire::new(false), Wire::new(false)],
            output: [Wire::new(false), Wire::new(false)],
        };
        assert(r.inputs() == seq![false, false, false]);
        assert(r.outputs() == seq![false, false]);
        r
    }
}

impl Component for FullAdder {
    open spec fn wf(&self) -> bool {
        self.inputs().len() == 3 && self.outputs().len() == 2
    }

    closed spec fn inputs(&self) -> Seq<bool> {
        wire_values(self.input@)
    }

    closed spec fn outputs(&self) -> Seq<bool> {
        wire_values(self.output@)
    }

    /// The sum and carry-out are the two binary digits of A + B + carry-in.
    open spec fn logic(inputs: Seq<bool>) -> Seq<bool> {
        let total = bit(inputs[0]) + bit(inputs[1]) + bit(inputs[2]);
        seq![total % 2 == 1, total >= 2]
    }

    fn get_pin_count(&self) -> (r: (usize, usize)) {
        (3, 2)
    }

    fn set_pin_input(&mut self, position: usize, value: &Potential) {
        self.input[position].input(value);
        assert(self.inputs() == old(self).inputs().update(position as int, *value));
    }

    fn get_pin_output(&self, position: usize) -> (r: Potential) {
        self.output[position].output()
    }

    fn update_state(&mut self) {
        let a = self.input[0].output();
        let b = self.input[1].output();
        let carry_in = self.input[2].output();
        self.half_adder[0].fire(&vec![a, b]);
        let first = self.half_adder[0].output();
        self.half_adder[1].fire(&vec![first[0], carry_in]);
        let second = self.half_adder[1].output();
        self.or_gate.input(&first[1], &second[1]);
        self.output[0].input(&second[0]);
        self.output[1].input(&self.or_gate.output());
        assert(self.outputs() == Self::logic(old(self).inputs()));
        assert(self.inputs() == old(self).inputs());
    }
}

/// The number that a bit sequence spells, least significant bit first.
pub open spec fn bits_value(bits: Seq<bool>) -> nat
    decreases bits.len(),
{
    if bits.len() == 0 {
        0
    } else {
        bit(bits[0]) + 2 * bits_value(bits.drop_first())
    }
}

/// Ripple-carry addition of `a` and `b` (least significant bit first) with
/// carry-in `carry`: one sum bit per position, then the final carry-out.
pub open spec fn ripple_add(a: Seq<bool>, b: Seq<bool>, carry: bool) -> Seq<bool>
    decreases a.len(),
{
    if a.len() == 0 {
        seq![carry]
    } else {
        let total = bit(a[0]) + bit(b[0]) + bit(carry);
        seq![total % 2 == 1] + ripple_add(a.drop_first(), b.drop_first(), total >= 2)
    }
}

/// The width of an adder with `input_count` input pins.
pub open spec fn adder_width(input_count: nat) -> nat {
    ((input_count - 1) / 2) as nat
}

/// The first operand on the input pins of an adder of width `n`.
pub open spec fn operand_a(inputs: Seq<bool>, n: nat) -> Seq<bool> {
    inputs.subrange(1, n + 1 as int)
}

/// The second operand on the input pins of an adder of width `n`.
pub open spec fn operand_b(inputs: Seq<bool>, n: nat) -> Seq<bool> {
    inputs.subrange(n + 1 as int, 2 * n + 1 as int)
}

/// Ripple-carry addition is addition: the sum bits followed by the carry-out
/// spell `a + b + carry`.
pub proof fn lemma_ripple_add_value(a: Seq<bool>, b: Seq<bool>, carry: bool)
    requires
        a.len() == b.len(),
    ensures
        ripple_add(a, b, carry).len() == a.len() + 1,
        bits_value(ripple_add(a, b, carry)) == bits_value(a) + bits_value(b) + bit(carry),
    decreases a.len(),
{
    if a.len() > 0 {
        let total = bit(a[0]) + bit(b[0]) + bit(carry);
        let rest = ripple_add(a.drop_first(), b.drop_first(), total >= 2);
        lemma_ripple_add_value(a.drop_first(), b.drop_first(), total >= 2);
        let r = ripple_add(a, b, carry);
        assert(r.drop_first() =~= rest);
        assert(r[0] == (total % 2 == 1));
        assert(bit(total >= 2) * 2 + bit(total % 2 == 1) == total);
        let va = bits_value(a.drop_first());
        let vb = bits_value(b.drop_first());
        assert(bits_value(r) == bit(total % 2 == 1) + 2 * (va + vb + bit(total >= 2)));
        assert(bits_value(a) == bit(a[0]) + 2 * va);
        assert(bits_value(b) == bit(b[0]) + 2 * vb);
    } else {
        let r = ripple_add(a, b, carry);
        assert(r.drop_first().len() == 0);
        assert(bits_value(r.drop_first()) == 0);
    }
}

/// A settled ripple-carry adder of width `n` holds on its output pins, read
/// least significant bit first, the number A + B + carry-in.
pub proof fn lemma_ripple_carry_adder_sums(inputs: Seq<bool>, n: nat)
    requires
        1 <= n,
        inputs.len() == 2 * n + 1,
    ensures
        RippleCarryAdder::logic(inputs).len() == n + 1,
        bits_value(RippleCarryAdder::logic(inputs)) == bits_value(operand_a(inputs, n))
            + bits_value(operand_b(inputs, n)) + bit(inputs[0]),
{
    assert(adder_width(inputs.len()) == n);
    lemma_ripple_add_value(operand_a(inputs, n), operand_b(inputs, n), inputs[0]);
}

/// Adds two n-bit numbers.
///
/// Pins in: carry-in at 0, operand A at `1..=n`, operand B at `n+1..=2n`,
/// each least significant bit first. Pins out: the n sum bits, then the
/// carry-out.
#[derive(Debug, Clone)]
pub struct RippleCarryAdder {
    n_way: usize,
    input: Vec<Wire>,
    full_adders: Vec<FullAdder>,
    output: Vec<Wire>,
}

impl RippleCarryAdder {
    /// An adder of width `n_way`, with every pin low.
    pub fn new(n_way: usize) -> (r: Self)
        requires
            1 <= n_way,
            2 * n_way + 1 <= usize::MAX,
        ensures
            r.wf(),
            r.inputs() == Seq::new((2 * n_way + 1) as nat, |i: int| false),
            r.outputs() == Seq::new((n_way + 1) as nat, |i: int| false),
    {
        let input = low_wires(2 * n_way + 1);
        let output = low_wires(n_way + 1);
        let mut full_adders: Vec<FullAdder> = Vec::new();
        let mut j: usize = 0;
        while j < n_way
            invariant
                j <= n_way,
                full_adders.len() == j,
            decreases n_way - j,
        {
            full_adders.push(FullAdder::default());
            j = j + 1;
        }
        RippleCarryAdder { n_way, input, full_adders, output }
    }
}

impl Component for RippleCarryAdder {
    closed spec fn wf(&self) -> bool {
        &&& 1 <= self.n_way
        &&& 2 * self.n_way + 1 <= usize::MAX
        &&& self.input.len() == 2 * self.n_way + 1
        &&& self.full_adders.len() == self.n_way
        &&& self.output.len() == self.n_way + 1
    }

    closed spec fn inputs(&self) -> Seq<bool> {
        wire_values(self.input@)
    }

    closed spec fn outputs(&self) -> Seq<bool> {
        wire_values(self.output@)
    }

    /// The sum bits and carry-out of rippling the carry-in through A + B.
    open spec fn logic(inputs: Seq<bool>) -> Seq<bool> {
        let n = adder_width(inputs.len());
        ripple_add(operand_a(inputs, n), operand_b(inputs, n), inputs[0])
    }

    fn get_pin_count(&self) -> (r: (usize, usize)) {
        (2 * self.n_way + 1, self.n_way + 1)
    }

    fn set_pin_input(&mut self, position: usize, value: &Potential) {
        self.input[position].input(value);
        assert(self.inputs() == old(self).inputs().update(position as int, *value));
    }

    fn get_pin_output(&self, position: usize) -> (r: Potential) {
        self.output[position].output()
    }

    fn update_state(&mut self) {
        let n = self.n_way;
        let ghost ins = self.inputs();
        let ghost a = operand_a(ins, n as nat);
        let ghost b = operand_b(ins, n as nat);
        assert(adder_width(ins.len()) == n);
        let mut carry = self.input[0].output();
        let mut i: usize = 0;
        assert(a.skip(0) =~= a);
        assert(b.skip(0) =~= b);
        assert(self.outputs().take(0) =~= Seq::<bool>::empty());
        while i < n
            invariant
                self.wf(),
                self.n_way == n,
                i <= n,
                self.inputs() == ins,
                ins.len() == 2 * n + 1,
                a == operand_a(ins, n as nat),
                b == operand_b(ins, n as nat),
                self.outputs().take(i as int) + ripple_add(a.skip(i as int), b.skip(i as int), carry)
                    == ripple_add(a, b, ins[0]),
            decreases n - i,
        {
            let x = self.input[1 + i].output();
            let y = self.input[1 + n + i].output();
            assert(x == a[i as int] && y == b[i as int]);
            self.full_adders[i].fire(&vec![x, y, carry]);
            let stage = self.full_adders[i].output();
            let ghost rest = ripple_add(a.skip(i + 1), b.skip(i + 1), stage[1]);
            assert(a.skip(i as int).drop_first() == a.skip(i + 1));
            assert(b.skip(i as int).drop_first() == b.skip(i + 1));
            assert(ripple_add(a.skip(i as int), b.skip(i as int), carry) == seq![stage[0]] + rest);
            let ghost before = self.outputs();
            self.output[i].input(&stage[0]);
            assert(self.outputs() == before.update(i as int, stage[0]));
            assert(self.outputs().take(i + 1) == before.take(i as int).push(stage[0]));
            assert(self.outputs().take(i + 1) + rest
                == before.take(i as int) + (seq![stage[0]] + rest));
            carry = stage[1];
            i = i + 1;
        }
        let ghost before = self.outputs();
        self.output[n].input(&carry);
        assert(a.skip(n as int).len() == 0);
        assert(self.outputs() == before.take(n as int) + seq![carry]);
        assert(self.outputs() == Self::logic(ins));
    }
}

} // verus!
