//! Type-level states and markers of the LPC55 hardware layer.

pub mod aligned;
pub mod usb;
pub mod pin;
pub mod function;
pub mod flexcomm;
pub mod reg_proxy;
