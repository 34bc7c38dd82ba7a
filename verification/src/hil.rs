//! The vocabulary a pin shares with the layers above it: pull resistor
//! settings, interrupt edges, pin configurations and callback handles.

use vstd::prelude::*;

verus! {

/// Handle of a registered callback. The pin stores it and hands it back when
/// its interrupt is handled; whoever runs the handler owns the callbacks.
pub type ClientId = usize;

/// What a pin does when nothing drives it.
#[derive(Clone, Copy, Debug, PartialEq, Eq, Structural)]
pub enum FloatingState {
    PullUp,
    PullDown,
    PullNone,
}

/// The edges a pin interrupt reacts to.
#[derive(Clone, Copy, Debug, PartialEq, Eq, Structural)]
pub enum InterruptEdge {
    RisingEdge,
    FallingEdge,
    EitherEdge,
}

/// What a pin is currently set up as.
#[derive(Clone, Copy, Debug, PartialEq, Eq, Structural)]
pub enum Configuration {
    /// The pin is an input.
    Input,
    /// The pin is an output.
    Output,
    /// The pin is both input and output.
    InputOutput,
    /// The pin serves a peripheral function other than GPIO.
    Function,
    /// The registers contradict each other.
    Other,
}

} // verus!
