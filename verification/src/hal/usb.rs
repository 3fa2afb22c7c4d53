//! USB peripherals and their speeds.

use vstd::prelude::*;

verus! {

/// The speed of a USB peripheral.
#[derive(Clone, Copy)]
pub enum UsbSpeed {
    FullSpeed,
    HighSpeed,
}

/// A USB peripheral in a given state, with its speed.
pub trait Usb<State> {
    const SPEED: UsbSpeed;
}

} // verus!
