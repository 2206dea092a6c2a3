//! A combinational digital-logic simulator: boolean signal primitives,
//! pin-addressed logic components, and a bit-vector text codec.

pub mod circuit;
pub mod component;
pub mod potentials;
