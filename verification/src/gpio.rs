//! General purpose input/output: the pin type-state vocabulary. The pin
//! registers themselves are driven by the hardware binding outside this
//! crate; the types here name the drive modes and input/output states that
//! binding moves pins between, and the interrupt edge and filter selects.

use vstd::prelude::*;
use core::marker::PhantomData;

verus! {

/// Splitting a GPIO peripheral into independent pins and registers.
pub trait GpioExt {
    /// The parts to split the GPIO into.
    type Parts;

    /// Splits the GPIO block into independent pins and registers.
    fn split(self) -> Self::Parts;
}

/// HSIOM GPIO mode (type state).
pub struct GpioPinMode;

/// High impedance drive mode (type state).
pub struct HighZ;

/// Strong output drive mode (type state).
pub struct Strong;

/// Resistive pull-up drive mode (type state).
pub struct ResistivePullUp;

/// Resistive pull-down drive mode (type state).
pub struct ResistivePullDown;

/// Resistive pull-up and pull-down drive mode (type state).
pub struct ResistivePullUpDown;

/// Open drain, drives high (type state).
pub struct OpenDrainDrivesHigh;

/// Open drain, drives low (type state).
pub struct OpenDrainDrivesLow;

/// Input mode (type state).
#[verifier::reject_recursive_types(MODE)]
pub struct Input<MODE> {
    /// The drive mode tag.
    pub _mode: PhantomData<MODE>,
}

/// Output mode (type state).
#[verifier::reject_recursive_types(MODE)]
pub struct Output<MODE> {
    /// The drive mode tag.
    pub _mode: PhantomData<MODE>,
}

/// Which signal edges raise a pin interrupt.
#[derive(Clone, Copy, Debug, PartialEq, Eq, Structural)]
pub enum EdgeSelect {
    Disable,
    Rising,
    Falling,
    Both,
}

/// Which signal edges the pin glitch filter passes.
#[derive(Clone, Copy, Debug, PartialEq, Eq, Structural)]
pub enum FilterSelect {
    Disable,
    Rising,
    Falling,
    Both,
}

/// The logic level of a pin.
#[derive(Clone, Copy, Debug, PartialEq, Eq, Structural)]
pub enum PinLevel {
    Low,
    High,
}

} // verus!
