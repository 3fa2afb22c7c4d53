//! Type states of the LPC55 pins: which pin, what it is used for, and the
//! direction of a GPIO.

use vstd::prelude::*;

verus! {

/// What a pin can do.
pub enum PinType {
    /// Digital only.
    D,
    /// Analog or digital.
    A,
    /// I2C.
    I,
}

/// A physical pin: its port, number, bit mask, register offset and type.
pub trait PinId {
    const PORT: usize;
    const NUMBER: u8;
    const MASK: u32;
    const OFFSET: usize;
    const TYPE: PinType;
}

/// What a pin is currently used for.
pub trait PinState {}

/// A pin that is not used.
pub struct Unused;

impl PinState for Unused {}

/// A pin switched to a special function.
pub struct Special<F: crate::hal::function::Function> {
    pub _function: F,
}

impl<F: crate::hal::function::Function> PinState for Special<F> {}

/// The direction of a GPIO pin.
pub trait Direction {}

pub struct Unknown;

impl Direction for Unknown {}

pub struct Input;

impl Direction for Input {}

pub struct Output;

impl Direction for Output {}

pub struct AnalogInput;

impl Direction for AnalogInput {}

pub struct AnalogOutput;

impl Direction for AnalogOutput {}

/// Directions that are not input.
pub trait NotInput: Direction {}

impl NotInput for Unknown {}

impl NotInput for Output {}

/// Directions that are not output.
pub trait NotOutput: Direction {}

impl NotOutput for Unknown {}

impl NotOutput for Input {}

/// The level of a digital pin.
pub enum Level {
    Low,
    High,
}

} // verus!
