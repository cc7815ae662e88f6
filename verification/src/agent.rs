use vstd::prelude::*;

use crate::error::BtError;
use crate::strutil::{digit_char, push_char, spec_digit_char};

verus! {

/// Hard timeout, in seconds, on an outstanding confirmation request.
pub const CONFIRMATION_TIMEOUT_SECS: u64 = 30;

/// How an outstanding confirmation request was resolved.
#[derive(Clone, Copy, Debug, PartialEq, Eq, Structural)]
pub enum ConfirmationOutcome {
    /// Reported back to the platform as acceptance of the passkey.
    Accepted,
    /// Reported back as rejection; an explicit reject and a timeout both
    /// resolve this way.
    Rejected,
}

/// One inbound passkey-confirmation request.
pub struct ConfirmationRequest {
    /// Display form of the requesting peripheral's address.
    pub device_address: String,
    /// The numeric passkey to be confirmed (at most six decimal digits).
    pub passkey: u32,
    /// The instant (in seconds) at which the request arrived.
    pub requested_at: u64,
}

/// The platform's confirmation handler, as a state machine with two states:
/// idle, or awaiting the outcome of exactly one request.
///
/// The guard ("confirmation required") is set while a request is pending and
/// cleared unconditionally on any resolution, so no resolution path can leave
/// the agent stuck busy. A request is resolved at most once: whichever of
/// confirm, reject or timeout arrives first decides the outcome, and every
/// later resolution attempt is a no-op rather than a fault.
pub struct PairingAgent {
    pending: Option<ConfirmationRequest>,
}

impl PairingAgent {
    /// The guard flag, set exactly while a request is outstanding: the
    /// single source of truth callers reason from.
    pub open spec fn confirmation_required(&self) -> bool {
        self.spec_pending() is Some
    }

    /// The outstanding request, if any.
    pub closed spec fn spec_pending(&self) -> Option<ConfirmationRequest> {
        self.pending
    }

    pub fn new() -> (a: PairingAgent)
        ensures
            !a.confirmation_required(),
    {
        PairingAgent { pending: None }
    }

    pub fn is_confirmation_required(&self) -> (r: bool)
        ensures
            r == self.confirmation_required(),
    {
        self.pending.is_some()
    }

    /// The outstanding request, for rendering the user-facing prompt.
    pub fn pending_request(&self) -> (r: Option<&ConfirmationRequest>)
        ensures
            r is Some <==> self.confirmation_required(),
            r matches Some(req) ==> *req == self.spec_pending()->0,
    {
        match &self.pending {
            Some(req) => Some(req),
            None => None,
        }
    }

    /// An inbound confirmation request. While one is already pending, a
    /// second request is rejected as ambiguous and the pending one is
    /// preserved, guard included; otherwise the request is recorded, which
    /// sets the guard before any prompt is shown.
    pub fn handle_request(&mut self, device_address: String, passkey: u32, now: u64) -> (r: Result<
        (),
        BtError,
    >)
        ensures
            old(self).confirmation_required() ==> {
                &&& r == Err::<(), BtError>(BtError::ConfirmationAlreadyPending)
                &&& final(self).spec_pending() == old(self).spec_pending()
            },
            !old(self).confirmation_required() ==> {
                &&& r == Ok::<(), BtError>(())
                &&& final(self).spec_pending() == Some(
                    (ConfirmationRequest { device_address, passkey, requested_at: now }),
                )
            },
    {
        if self.pending.is_some() {
            Err(BtError::ConfirmationAlreadyPending)
        } else {
            self.pending = Some(ConfirmationRequest { device_address, passkey, requested_at: now });
            Ok(())
        }
    }

    /// The user confirmed the passkey. Resolves the pending request to
    /// acceptance and clears the guard; with nothing pending (already
    /// resolved, or never requested) it is a no-op and delivers nothing.
    pub fn resolve_confirm(&mut self) -> (r: Option<ConfirmationOutcome>)
        ensures
            !final(self).confirmation_required(),
            old(self).confirmation_required() ==> r == Some(ConfirmationOutcome::Accepted),
            !old(self).confirmation_required() ==> {
                &&& r is None
                &&& *final(self) == *old(self)
            },
    {
        if self.pending.is_some() {
            self.pending = None;
            Some(ConfirmationOutcome::Accepted)
        } else {
            None
        }
    }

    /// The user rejected the passkey. Resolves the pending request to
    /// rejection and clears the guard; a no-op with nothing pending.
    pub fn resolve_reject(&mut self) -> (r: Option<ConfirmationOutcome>)
        ensures
            !final(self).confirmation_required(),
            old(self).confirmation_required() ==> r == Some(ConfirmationOutcome::Rejected),
            !old(self).confirmation_required() ==> {
                &&& r is None
                &&& *final(self) == *old(self)
            },
    {
        if self.pending.is_some() {
            self.pending = None;
            Some(ConfirmationOutcome::Rejected)
        } else {
            None
        }
    }

    /// The clock reached `now`. A request that has been pending for the hard
    /// timeout or longer resolves to rejection, clearing the guard exactly as
    /// an explicit rejection would; otherwise nothing changes.
    pub fn check_timeout(&mut self, now: u64) -> (r: Option<ConfirmationOutcome>)
        ensures
            ({
                let timed_out = old(self).confirmation_required() && now >= old(
                    self,
                ).spec_pending()->0.requested_at + CONFIRMATION_TIMEOUT_SECS;
                if timed_out {
                    &&& r == Some(ConfirmationOutcome::Rejected)
                    &&& !final(self).confirmation_required()
                } else {
                    &&& r is None
                    &&& *final(self) == *old(self)
                }
            }),
    {
        let timed_out = match &self.pending {
            Some(req) => now >= req.requested_at && now - req.requested_at
                >= CONFIRMATION_TIMEOUT_SECS,
            None => false,
        };
        if timed_out {
            self.pending = None;
            Some(ConfirmationOutcome::Rejected)
        } else {
            None
        }
    }
}

/// The six-digit, zero-padded decimal rendering of a passkey.
pub open spec fn spec_passkey_string(p: int) -> Seq<char> {
    seq![
        spec_digit_char(p / 100000 % 10),
        spec_digit_char(p / 10000 % 10),
        spec_digit_char(p / 1000 % 10),
        spec_digit_char(p / 100 % 10),
        spec_digit_char(p / 10 % 10),
        spec_digit_char(p % 10),
    ]
}

/// The human-readable form of a numeric passkey: exactly six decimal digits,
/// zero-padded on the left.
pub fn format_passkey(passkey: u32) -> (r: String)
    requires
        passkey < 1000000,
    ensures
        r@ == spec_passkey_string(passkey as int),
        r@.len() == 6,
{
    let mut r = String::new();
    push_char(&mut r, digit_char(passkey / 100000 % 10));
    push_char(&mut r, digit_char(passkey / 10000 % 10));
    push_char(&mut r, digit_char(passkey / 1000 % 10));
    push_char(&mut r, digit_char(passkey / 100 % 10));
    push_char(&mut r, digit_char(passkey / 10 % 10));
    push_char(&mut r, digit_char(passkey % 10));
    proof {
        assert(r@ =~= spec_passkey_string(passkey as int));
    }
    r
}

} // verus!
