//! What a board gives the Trussed service: user presence and an uptime
//! clock; and the errors of a client's request queue.

use vstd::prelude::*;
use crate::trussed_types::Level;

verus! {

/// The user interface of the board.
pub trait UserInterface {
    /// Whether the user has shown presence, to consent to an action.
    fn check_user_presence(&mut self) -> Level;
}

/// Time since startup.
pub trait UpTime {
    fn uptime(&mut self) -> core::time::Duration;
}

/// Why a client could not hand a request to the service.
#[derive(Clone, Copy, Debug, PartialEq, Eq, Structural)]
pub enum ClientError {
    Full,
    Pending,
    DataTooLarge,
}

} // verus!
