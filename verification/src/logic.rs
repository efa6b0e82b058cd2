use vstd::prelude::*;

verus! {

/// A one-bit inverter: 1 becomes 0 and anything else becomes 1.
pub struct NotGate {
    pub input: Option<usize>,
}

/// A variadic bitwise OR.
pub struct OrGate {
    pub inputs: Vec<usize>,
}

} // verus!
