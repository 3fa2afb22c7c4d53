//! The three buttons of the device and the gestures read from them: press,
//! squeeze (A and B together) and release.

use vstd::prelude::*;

verus! {

/// Trio of buttons. A and B cannot be told apart reliably by the user, as
/// top/bottom or left/right depends on how the device is held.
#[derive(Copy, Clone, Debug, PartialEq, Eq, Structural)]
pub enum Button {
    A,
    B,
    Middle,
}

/// Pressed (true) or released, for each button.
#[derive(Copy, Clone, Debug, PartialEq, Eq, Structural)]
pub struct State {
    pub a: bool,
    pub b: bool,
    pub middle: bool,
}

/// Not yet: try again later.
#[derive(Copy, Clone, Debug, PartialEq, Eq, Structural)]
pub enum WouldBlock {
    WouldBlock,
}

/// Ready once all buttons are released.
pub fn all_released(state: State) -> (r: Result<(), WouldBlock>)
    ensures
        r is Ok <==> !state.a && !state.b && !state.middle,
{
    if !(state.a || state.b || state.middle) {
        Ok(())
    } else {
        Err(WouldBlock::WouldBlock)
    }
}

/// Ready once the buttons are in the wanted state.
pub fn in_state(current: State, wanted: State) -> (r: Result<(), WouldBlock>)
    ensures
        r is Ok <==> current == wanted,
{
    if current.a == wanted.a && current.b == wanted.b && current.middle == wanted.middle {
        Ok(())
    } else {
        Err(WouldBlock::WouldBlock)
    }
}

/// A squeeze is A and B pressed together.
pub fn squeezed(a_pressed: bool, b_pressed: bool) -> (r: bool)
    ensures
        r == (a_pressed && b_pressed),
{
    a_pressed && b_pressed
}

/// Implemented on a trio of buttons; only `is_pressed` is needed.
///
/// A button is read at the moment of the call, so two reads of one button
/// may differ. `can_read(button, level)` says that `level` is a reading that
/// `is_pressed(button)` may give; the other methods are stated over it.
pub trait Press {
    /// `pressed` is a level that a read of `button` may give. Outside
    /// verified code this is an ordinary method that an implementation
    /// writes as that predicate; nothing calls it at run time.
    spec fn can_read(&self, button: Button, pressed: bool) -> bool;

    /// Whether a button is pressed now.
    fn is_pressed(&self, button: Button) -> (r: bool)
        ensures
            self.can_read(button, r),
    ;

    /// Is the button released: the negation of one read of it.
    fn is_released(&self, button: Button) -> (r: bool)
        ensures
            self.can_read(button, !r),
    {
        !self.is_pressed(button)
    }

    /// Are A and B pressed together: one read of A and one of B, both
    /// pressed.
    fn is_squeezed(&self) -> (r: bool)
        ensures
            exists|a: bool, b: bool|
                #![trigger self.can_read(Button::A, a), self.can_read(Button::B, b)]
                self.can_read(Button::A, a) && self.can_read(Button::B, b) && r == (a && b),
    {
        let a = self.is_pressed(Button::A);
        let b = self.is_pressed(Button::B);
        squeezed(a, b)
    }

    /// The state of the three buttons: one read of each.
    fn state(&self) -> (r: State)
        ensures
            self.can_read(Button::A, r.a),
            self.can_read(Button::B, r.b),
            self.can_read(Button::Middle, r.middle),
    {
        State {
            a: self.is_pressed(Button::A),
            b: self.is_pressed(Button::B),
            middle: self.is_pressed(Button::Middle),
        }
    }

    /// Ready once all buttons are released (level sensitive): `Ok` exactly
    /// when one read of each button finds it released.
    fn wait_for_all_release(&self) -> (r: Result<(), WouldBlock>)
        ensures
            exists|s: State|
                #![trigger self.can_read(Button::A, s.a), self.can_read(Button::B, s.b), self.can_read(Button::Middle, s.middle)]
                self.can_read(Button::A, s.a) && self.can_read(Button::B, s.b)
                    && self.can_read(Button::Middle, s.middle)
                    && (r is Ok <==> !s.a && !s.b && !s.middle),
    {
        let s = self.state();
        let r = all_released(s);
        assert(self.can_read(Button::A, s.a) && self.can_read(Button::B, s.b)
            && self.can_read(Button::Middle, s.middle));
        r
    }

    /// Ready once the buttons are in the given state (level sensitive): `Ok`
    /// exactly when one read of each button matches it.
    fn wait_for_state(&self, state: State) -> (r: Result<(), WouldBlock>)
        ensures
            exists|s: State|
                #![trigger self.can_read(Button::A, s.a), self.can_read(Button::B, s.b), self.can_read(Button::Middle, s.middle)]
                self.can_read(Button::A, s.a) && self.can_read(Button::B, s.b)
                    && self.can_read(Button::Middle, s.middle)
                    && (r is Ok <==> s == state),
    {
        let s = self.state();
        let r = in_state(s, state);
        assert(self.can_read(Button::A, s.a) && self.can_read(Button::B, s.b)
            && self.can_read(Button::Middle, s.middle));
        r
    }
}

/// Edge-sensitive gestures: each is reported once per occurrence.
pub trait Edge {
    fn wait_for_new_press(&mut self, button: Button) -> Result<(), WouldBlock>;

    fn wait_for_new_release(&mut self, button: Button) -> Result<(), WouldBlock>;

    fn wait_for_new_squeeze(&mut self) -> Result<(), WouldBlock>;

    fn wait_for_any_new_press(&mut self) -> Result<Button, WouldBlock>;

    fn wait_for_any_new_release(&mut self) -> Result<Button, WouldBlock>;
}

} // verus!
