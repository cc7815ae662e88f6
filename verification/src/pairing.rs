use vstd::prelude::*;

use crate::error::BtError;
use crate::strutil::{contains_str, spec_contains};

verus! {

/// The confirmation-prompt interface the pairing agent drives. Implemented
/// outside the core (a notification popup, a menu prompt). Showing the prompt
/// must eventually lead to at most one resolution — the agent's confirm or
/// reject entry point — or to none at all, in which case the agent's own
/// timeout resolves the request; the agent enforces the at-most-once rule
/// centrally rather than trusting every implementation with it.
pub trait PairingConfirmationHandler {
    fn request_confirmation(&self, device_address: &str, passkey: &str) -> Result<(), BtError>;
}

/// Whether a transport error text names the page-timeout condition: the
/// structured out-of-range fact that `on_connect_result` takes, derived here
/// rather than by ad-hoc text sniffing at the call site.
pub fn connection_failure_out_of_range(error_text: &str) -> (r: bool)
    ensures
        r == spec_contains(error_text@, "Page Timeout"@),
{
    contains_str(error_text, "Page Timeout")
}

/// The next primitive the session driver must invoke for a connect flow.
#[derive(Clone, Copy, Debug, PartialEq, Eq, Structural)]
pub enum ConnectAction {
    /// Invoke the pairing primitive.
    Pair,
    /// Invoke the connect primitive.
    Connect,
}

/// How a connect flow ended.
#[derive(Clone, Copy, Debug, PartialEq, Eq, Structural)]
pub enum ConnectOutcome {
    Connected,
    /// Pairing failed; the connect primitive was never reached.
    PairingFailed,
    ConnectionFailed,
    /// A connection failure whose cause is the peer being unreachable.
    OutOfRange,
}

/// Where a connect flow stands.
#[derive(Clone, Copy, Debug, PartialEq, Eq, Structural)]
pub enum ConnectStage {
    /// Waiting for the result of the pairing primitive.
    AwaitingPairResult,
    /// Waiting for the result of the connect primitive.
    AwaitingConnectResult,
    /// Finished, with the given outcome.
    Complete(ConnectOutcome),
}

/// The pair-then-connect sequence against one device, fail-fast and without
/// retries.
///
/// The flow only decides; the session driver invokes the primitive each
/// returned action names and feeds the result back. An unpaired device is
/// paired first, and a pairing failure short-circuits the flow: no transition
/// out of `AwaitingPairResult` on failure ever yields the connect action, and
/// no transition leaves `Complete`. An already-paired device skips pairing
/// and goes straight to connect.
pub struct ConnectFlow {
    stage: ConnectStage,
}

impl ConnectFlow {
    pub closed spec fn stage(&self) -> ConnectStage {
        self.stage
    }

    pub fn current_stage(&self) -> (r: ConnectStage)
        ensures
            r == self.stage(),
    {
        self.stage
    }

    /// Start a connect flow for a device whose pairing state is `is_paired`.
    /// Exactly when the device is already paired, pairing is skipped and the
    /// first action is the connect primitive itself.
    pub fn begin(is_paired: bool) -> (r: (ConnectFlow, ConnectAction))
        ensures
            is_paired ==> {
                &&& r.1 == ConnectAction::Connect
                &&& r.0.stage() == ConnectStage::AwaitingConnectResult
            },
            !is_paired ==> {
                &&& r.1 == ConnectAction::Pair
                &&& r.0.stage() == ConnectStage::AwaitingPairResult
            },
    {
        if is_paired {
            (ConnectFlow { stage: ConnectStage::AwaitingConnectResult }, ConnectAction::Connect)
        } else {
            (ConnectFlow { stage: ConnectStage::AwaitingPairResult }, ConnectAction::Pair)
        }
    }

    /// The pairing primitive finished. On success the connect primitive is
    /// the next action; on failure the flow completes as `PairingFailed` and
    /// yields no further action, so the connect primitive is never invoked.
    pub fn on_pair_result(&mut self, ok: bool) -> (r: Option<ConnectAction>)
        requires
            old(self).stage() == ConnectStage::AwaitingPairResult,
        ensures
            ok ==> {
                &&& r == Some(ConnectAction::Connect)
                &&& final(self).stage() == ConnectStage::AwaitingConnectResult
            },
            !ok ==> {
                &&& r is None
                &&& final(self).stage() == ConnectStage::Complete(ConnectOutcome::PairingFailed)
            },
    {
        if ok {
            self.stage = ConnectStage::AwaitingConnectResult;
            Some(ConnectAction::Connect)
        } else {
            self.stage = ConnectStage::Complete(ConnectOutcome::PairingFailed);
            None
        }
    }

    /// The connect primitive finished. `out_of_range` distinguishes, as a
    /// structured fact from the transport, a failure caused by the peer
    /// being unreachable; it is ignored on success.
    pub fn on_connect_result(&mut self, ok: bool, out_of_range: bool)
        requires
            old(self).stage() == ConnectStage::AwaitingConnectResult,
        ensures
            ok ==> final(self).stage() == ConnectStage::Complete(ConnectOutcome::Connected),
            !ok && out_of_range ==> final(self).stage() == ConnectStage::Complete(
                ConnectOutcome::OutOfRange,
            ),
            !ok && !out_of_range ==> final(self).stage() == ConnectStage::Complete(
                ConnectOutcome::ConnectionFailed,
            ),
    {
        if ok {
            self.stage = ConnectStage::Complete(ConnectOutcome::Connected);
        } else if out_of_range {
            self.stage = ConnectStage::Complete(ConnectOutcome::OutOfRange);
        } else {
            self.stage = ConnectStage::Complete(ConnectOutcome::ConnectionFailed);
        }
    }
}

} // verus!
