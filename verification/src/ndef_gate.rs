//! Keeping the NDEF tag quiet around FIDO: the NDEF application refuses
//! SELECT while less than a suppression window has passed since the last
//! FIDO select or call, so that phones do not pop the tag during or after a
//! FIDO ceremony. The time base is the board's free-running counter.

use vstd::prelude::*;
use std::marker::PhantomData;
use crate::status::Status;

verus! {

/// Board-specific NDEF time base and FIDO transport hook.
pub trait NfcClock {
    /// Suppression window, in the unit of `now`.
    const SUPPRESS_WINDOW: u32;

    /// Free-running counter.
    fn now() -> u32;

    /// Whether the FIDO request in flight arrived contactless.
    fn set_fido_over_nfc(_contactless: bool) {
    }
}

/// Time since the last FIDO activity, on a counter that wraps around.
pub open spec fn elapsed(now: u32, last_fido: u32) -> u32 {
    (if now >= last_fido {
        now - last_fido
    } else {
        now + 0x1_0000_0000 - last_fido
    }) as u32
}

/// The NDEF tag is suppressed while less than `window` has elapsed.
pub fn ndef_suppressed(now: u32, last_fido: u32, window: u32) -> (r: bool)
    ensures
        r == (elapsed(now, last_fido) < window),
{
    let since = now.wrapping_sub(last_fido);
    assert(since == elapsed(now, last_fido));
    since < window
}

/// SELECT of the NDEF application: refused as not found while suppressed.
pub fn gate_select(now: u32, last_fido: u32, window: u32) -> (r: Result<(), Status>)
    ensures
        r is Err <==> elapsed(now, last_fido) < window,
        r is Err ==> r == Err::<(), Status>(Status::NotFound),
{
    if ndef_suppressed(now, last_fido, window) {
        return Err(Status::NotFound);
    }
    Ok(())
}

/// A FIDO select or call stamps the time: right after it, the tag is
/// suppressed for any non-empty window.
pub proof fn lemma_stamp_suppresses(now: u32, window: u32)
    requires
        window > 0,
    ensures
        elapsed(now, now) < window,
{
}

/// Once the window has passed (without wrapping around), the tag is
/// readable again.
pub proof fn lemma_window_passes(last_fido: u32, now: u32, window: u32)
    requires
        last_fido <= now,
        now - last_fido >= window,
    ensures
        !(elapsed(now, last_fido) < window),
{
}

/// Wraps the FIDO application; stamps the suppression window on every FIDO
/// select and call.
pub struct FidoNdefStamp<'a, C: NfcClock, A>(pub &'a mut A, pub PhantomData<C>);

impl<'a, C: NfcClock, A> FidoNdefStamp<'a, C, A> {
    pub fn new(app: &'a mut A) -> (r: FidoNdefStamp<'a, C, A>)
        ensures
            *r.0 == *old(app),
            *final(app) == *final(r.0),
    {
        FidoNdefStamp(app, PhantomData)
    }
}

/// Wraps the NDEF application; refuses SELECT while suppressed.
pub struct NdefFidoGate<'a, C: NfcClock, A>(pub &'a mut A, pub PhantomData<C>);

impl<'a, C: NfcClock, A> NdefFidoGate<'a, C, A> {
    pub fn new(app: &'a mut A) -> (r: NdefFidoGate<'a, C, A>)
        ensures
            *r.0 == *old(app),
            *final(app) == *final(r.0),
    {
        NdefFidoGate(app, PhantomData)
    }
}

} // verus!
