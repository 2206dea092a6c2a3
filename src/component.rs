//! The pin-addressed component abstraction shared by every composite circuit.

use vstd::prelude::*;

use crate::circuit::{Potential, Wire};

pub mod adder;
pub mod big_gates;
pub mod decoder;
pub mod encoder;
pub mod enabler;

verus! {

/// The potentials carried by a row of wires, in order.
pub open spec fn wire_values(wires: Seq<Wire>) -> Seq<bool> {
    wires.map_values(|w: Wire| w@)
}

/// A row of `count` wires, all low.
pub(crate) fn low_wires(count: usize) -> (r: Vec<Wire>)
    ensures
        r.len() == count,
        wire_values(r@) == Seq::new(count as nat, |k: int| false),
{
    let mut r: Vec<Wire> = Vec::new();
    let mut i: usize = 0;
    while i < count
        invariant
            i <= count,
            r.len() == i,
            forall|k: int| 0 <= k < i ==> !(#[trigger] r@[k])@,
        decreases count - i,
    {
        r.push(Wire::new(false));
        i = i + 1;
    }
    assert(wire_values(r@) =~= Seq::new(count as nat, |k: int| false));
    r
}

/// A circuit with numbered input and output pins.
///
/// Setting an input pin only stores the value; outputs change only when
/// `update_state` recomputes them from the stored inputs.
pub trait Component: Sized {
    /// Structural well-formedness of the circuit.
    spec fn wf(&self) -> bool;

    /// The values stored on the input pins, by pin number.
    spec fn inputs(&self) -> Seq<bool>;

    /// The values on the output pins, by pin number.
    spec fn outputs(&self) -> Seq<bool>;

    /// What the output pins hold once the circuit has settled on `inputs`.
    spec fn logic(inputs: Seq<bool>) -> Seq<bool>;

    /// Number of input pins and number of output pins.
    fn get_pin_count(&self) -> (r: (usize, usize))
        requires
            self.wf(),
        ensures
            r.0 == self.inputs().len(),
            r.1 == self.outputs().len(),
    ;

    /// The value on output pin `position`.
    fn get_pin_output(&self, position: usize) -> (r: Potential)
        requires
            self.wf(),
            position < self.outputs().len(),
        ensures
            r == self.outputs()[position as int],
    ;

    /// Store `value` on input pin `position`; outputs are left as they are.
    fn set_pin_input(&mut self, position: usize, value: &Potential)
        requires
            old(self).wf(),
            position < old(self).inputs().len(),
        ensures
            final(self).wf(),
            final(self).inputs() == old(self).inputs().update(position as int, *value),
            final(self).outputs() == old(self).outputs(),
    ;

    /// Recompute every output pin from the stored inputs.
    fn update_state(&mut self)
        requires
            old(self).wf(),
        ensures
            final(self).wf(),
            final(self).inputs() == old(self).inputs(),
            final(self).outputs() == Self::logic(old(self).inputs()),
            final(self).outputs().len() == old(self).outputs().len(),
    ;

    /// Store `vec` on input pins `0..vec.len()`.
    fn input(&mut self, vec: &Vec<Potential>)
        requires
            old(self).wf(),
            vec.len() <= old(self).inputs().len(),
        ensures
            final(self).wf(),
            final(self).inputs() == vec@ + old(self).inputs().skip(vec.len() as int),
            final(self).outputs() == old(self).outputs(),
    {
        let ghost start = self.inputs();
        let mut i: usize = 0;
        while i < vec.len()
            invariant
                self.wf(),
                i <= vec.len() <= start.len(),
                self.inputs() == vec@.take(i as int) + start.skip(i as int),
                self.outputs() == old(self).outputs(),
            decreases vec.len() - i,
        {
            self.set_pin_input(i, &vec[i]);
            assert(self.inputs() == vec@.take(i + 1) + start.skip(i + 1));
            i = i + 1;
        }
        assert(vec@.take(i as int) == vec@);
    }

    /// Store `vec` on the first input pins, then settle the circuit.
    fn fire(&mut self, vec: &Vec<Potential>)
        requires
            old(self).wf(),
            vec.len() <= old(self).inputs().len(),
        ensures
            final(self).wf(),
            final(self).inputs() == vec@ + old(self).inputs().skip(vec.len() as int),
            final(self).outputs() == Self::logic(final(self).inputs()),
            final(self).outputs().len() == old(self).outputs().len(),
    {
        self.input(vec);
        self.update_state();
    }

    /// The values of all output pins, in pin order.
    fn output(&self) -> (r: Vec<Potential>)
        requires
            self.wf(),
        ensures
            r@ == self.outputs(),
    {
        let len: usize = self.get_pin_count().1;
        let mut r: Vec<Potential> = Vec::new();
        let mut i: usize = 0;
        while i < len
            invariant
                self.wf(),
                len == self.outputs().len(),
                i <= len,
                r@ == self.outputs().take(i as int),
            decreases len - i,
        {
            r.push(self.get_pin_output(i));
            assert(r@ == self.outputs().take(i + 1));
            i = i + 1;
        }
        assert(r@ == self.outputs());
        r
    }
}

/// Settling a circuit a second time, with its inputs unchanged, leaves the
/// outputs exactly as the first settling left them.
pub proof fn lemma_update_state_idempotent<C: Component>(start: C, once: C, twice: C)
    requires
        start.wf(),
        once.inputs() == start.inputs(),
        once.outputs() == C::logic(start.inputs()),
        twice.inputs() == once.inputs(),
        twice.outputs() == C::logic(once.inputs()),
    ensures
        twice.outputs() == once.outputs(),
{
}

} // verus!
