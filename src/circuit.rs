//! Signals, boolean operators and the primitive two-input gates.

use vstd::prelude::*;

verus! {

/// A single boolean logic level.
pub type Potential = bool;

/// The numeric weight of a potential: 1 when high, 0 when low.
pub open spec fn bit(p: bool) -> nat {
    if p {
        1
    } else {
        0
    }
}

/// Holds one potential: the last value written to it.
#[derive(Debug, Clone, Copy)]
pub struct Wire {
    potential: Potential,
}

impl View for Wire {
    type V = bool;

    closed spec fn view(&self) -> bool {
        self.potential
    }
}

impl Default for Wire {
    fn default() -> (r: Self)
        ensures
            r@ == false,
    {
        Wire { potential: false }
    }
}

impl Wire {
    /// Create a wire carrying `potential`.
    pub fn new(potential: Potential) -> (r: Self)
        ensures
            r@ == potential,
    {
        Wire { potential }
    }

    /// The potential currently on the wire.
    pub fn output(&self) -> (r: Potential)
        ensures
            r == self@,
    {
        self.potential
    }

    /// Overwrite the potential on the wire.
    pub fn input(&mut self, potential: &Potential)
        ensures
            final(self)@ == *potential,
    {
        self.potential = *potential;
    }
}

/// Logical negation.
pub fn operator_not(a: &Potential) -> (r: Potential)
    ensures
        r == !*a,
{
    !*a
}

/// Logical conjunction.
pub fn operator_and(a: &Potential, b: &Potential) -> (r: Potential)
    ensures
        r == (*a && *b),
{
    *a && *b
}

/// Logical disjunction.
pub fn operator_or(a: &Potential, b: &Potential) -> (r: Potential)
    ensures
        r == (*a || *b),
{
    *a || *b
}

/// Exclusive or: high when exactly one input is high.
pub fn operator_xor(a: &Potential, b: &Potential) -> (r: Potential)
    ensures
        r == (*a != *b),
{
    *a ^ *b
}

/// Negated conjunction.
pub fn operator_nand(a: &Potential, b: &Potential) -> (r: Potential)
    ensures
        r == !(*a && *b),
{
    operator_not(&operator_and(a, b))
}

/// Negated disjunction.
pub fn operator_nor(a: &Potential, b: &Potential) -> (r: Potential)
    ensures
        r == !(*a || *b),
{
    operator_not(&operator_or(a, b))
}

/// AND gate: high when both inputs are high.
#[derive(Debug, Clone, Copy)]
pub struct ANDGate {
    wire: Wire,
}

impl View for ANDGate {
    type V = bool;

    closed spec fn view(&self) -> bool {
        self.wire@
    }
}

impl Default for ANDGate {
    fn default() -> (r: Self)
        ensures
            r@ == false,
    {
        ANDGate { wire: Wire::new(false) }
    }
}

impl ANDGate {
    /// The output: this operator applied to the last inputs given.
    pub fn output(&self) -> (r: Potential)
        ensures
            r == self@,
    {
        self.wire.output()
    }

    /// Apply this operator to the inputs and hold the result.
    pub fn input(&mut self, a: &Potential, b: &Potential)
        ensures
            final(self)@ == (*a && *b),
    {
        self.wire.input(&operator_and(a, b));
    }
}

/// OR gate: high when either input is high.
#[derive(Debug, Clone, Copy)]
pub struct ORGate {
    wire: Wire,
}

impl View for ORGate {
    type V = bool;

    closed spec fn view(&self) -> bool {
        self.wire@
    }
}

impl Default for ORGate {
    fn default() -> (r: Self)
        ensures
            r@ == false,
    {
        ORGate { wire: Wire::new(false) }
    }
}

impl ORGate {
    /// The output: this operator applied to the last inputs given.
    pub fn output(&self) -> (r: Potential)
        ensures
            r == self@,
    {
        self.wire.output()
    }

    /// Apply this operator to the inputs and hold the result.
    pub fn input(&mut self, a: &Potential, b: &Potential)
        ensures
            final(self)@ == (*a || *b),
    {
        self.wire.input(&operator_or(a, b));
    }
}

/// NOT gate: inverts its single input.
#[derive(Debug, Clone, Copy)]
pub struct NOTGate {
    wire: Wire,
}

impl View for NOTGate {
    type V = bool;

    closed spec fn view(&self) -> bool {
        self.wire@
    }
}

impl Default for NOTGate {
    fn default() -> (r: Self)
        ensures
            r@ == false,
    {
        NOTGate { wire: Wire::new(false) }
    }
}

impl NOTGate {
    /// The output: this operator applied to the last inputs given.
    pub fn output(&self) -> (r: Potential)
        ensures
            r == self@,
    {
        self.wire.output()
    }

    /// Apply this operator to the inputs and hold the result.
    pub fn input(&mut self, a: &Potential)
        ensures
            final(self)@ == !*a,
    {
        self.wire.input(&operator_not(a));
    }
}

/// XOR gate: high when exactly one input is high.
#[derive(Debug, Clone, Copy)]
pub struct XORGate {
    wire: Wire,
}

impl View for XORGate {
    type V = bool;

    closed spec fn view(&self) -> bool {
        self.wire@
    }
}

impl Default for XORGate {
    fn default() -> (r: Self)
        ensures
            r@ == false,
    {
        XORGate { wire: Wire::new(false) }
    }
}

impl XORGate {
    /// The output: this operator applied to the last inputs given.
    pub fn output(&self) -> (r: Potential)
        ensures
            r == self@,
    {
        self.wire.output()
    }

    /// Apply this operator to the inputs and hold the result.
    pub fn input(&mut self, a: &Potential, b: &Potential)
        ensures
            final(self)@ == (*a != *b),
    {
        self.wire.input(&operator_xor(a, b));
    }
}

/// NAND gate: low only when both inputs are high.
#[derive(Debug, Clone, Copy)]
pub struct NANDGate {
    wire: Wire,
}

impl View for NANDGate {
    type V = bool;

    closed spec fn view(&self) -> bool {
        self.wire@
    }
}

impl Default for NANDGate {
    fn default() -> (r: Self)
        ensures
            r@ == false,
    {
        NANDGate { wire: Wire::new(false) }
    }
}

impl NANDGate {
    /// The output: this operator applied to the last inputs given.
    pub fn output(&self) -> (r: Potential)
        ensures
            r == self@,
    {
        self.wire.output()
    }

    /// Apply this operator to the inputs and hold the result.
    pub fn input(&mut self, a: &Potential, b: &Potential)
        ensures
            final(self)@ == !(*a && *b),
    {
        self.wire.input(&operator_nand(a, b));
    }
}

/// NOR gate: high only when both inputs are low.
#[derive(Debug, Clone, Copy)]
pub struct NORGate {
    wire: Wire,
}

impl View for NORGate {
    type V = bool;

    closed spec fn view(&self) -> bool {
        self.wire@
    }
}

impl Default for NORGate {
    fn default() -> (r: Self)
        ensures
            r@ == false,
    {
        NORGate { wire: Wire::new(false) }
    }
}

impl NORGate {
    /// The output: this operator applied to the last inputs given.
    pub fn output(&self) -> (r: Potential)
        ensures
            r == self@,
    {
        self.wire.output()
    }

    /// Apply this operator to the inputs and hold the result.
    pub fn input(&mut self, a: &Potential, b: &Potential)
        ensures
            final(self)@ == !(*a || *b),
    {
        self.wire.input(&operator_nor(a, b));
    }
}

} // verus!
