//! Message types for exercising custom message handling.
use vstd::prelude::*;

verus! {

/// A message without content.
#[derive(Debug, Clone, Copy, PartialEq, Eq, Default)]
pub struct EmptyMsg {}

/// A custom message of the kind an application adds to the simulator.
#[derive(Debug, Clone, PartialEq)]
pub enum CustomHelperMsg {
    SetName { name: String },
    SetAge { age: u32 },
    NoOp,
}

impl Default for CustomHelperMsg {
    fn default() -> (r: CustomHelperMsg)
        ensures
            r is NoOp,
    {
        CustomHelperMsg::NoOp
    }
}

} // verus!
