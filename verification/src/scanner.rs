use vstd::prelude::*;

verus! {

/// What `start_discovery` did.
#[derive(Clone, Copy, Debug, PartialEq, Eq, Structural)]
pub enum ScanStartOutcome {
    /// A new discovery session was begun and a timer scheduled.
    Started,
    /// A session was already active; nothing was changed or scheduled.
    AlreadyScanning,
}

/// What `stop_discovery` did.
#[derive(Clone, Copy, Debug, PartialEq, Eq, Structural)]
pub enum ScanStopOutcome {
    /// The active session was ended and its timer cancelled.
    Stopped,
    /// No session was active; the call was a no-op.
    NotScanning,
}

/// The time-boxed discovery session, as a state machine over the shared
/// "is-scanning" flag and the one pending expiry timer.
///
/// The session driver owns the actual discovery handle and timer task; it
/// feeds this machine the three events (start request, stop request, timer
/// expiry) and performs the platform work that each transition calls for.
/// The flag is the single source of truth for "a discovery session is
/// active", and a timer is pending exactly while the flag is set.
pub struct Scanner {
    is_scanning: bool,
    deadline: Option<u64>,
}

/// The instant a scan started at `now` with window `timeout_sec` expires:
/// their sum, saturated at the largest representable instant.
pub open spec fn spec_scan_deadline(now: u64, timeout_sec: u64) -> u64 {
    if now + timeout_sec <= u64::MAX {
        (now + timeout_sec) as u64
    } else {
        u64::MAX
    }
}

impl Scanner {
    /// A timer is pending exactly while the flag is set.
    pub closed spec fn wf(&self) -> bool {
        self.is_scanning <==> self.deadline is Some
    }

    /// The shared "is-scanning" flag.
    pub closed spec fn scanning(&self) -> bool {
        self.is_scanning
    }

    /// The instant (in seconds) at which the pending timer expires.
    pub closed spec fn spec_deadline(&self) -> Option<u64> {
        self.deadline
    }

    pub fn new() -> (s: Scanner)
        ensures
            s.wf(),
            !s.scanning(),
    {
        Scanner { is_scanning: false, deadline: None }
    }

    /// Begin a discovery session of exactly `timeout_sec` seconds, unless one
    /// is already active: then the state is left unchanged and no second
    /// timer is scheduled.
    pub fn start_discovery(&mut self, now: u64, timeout_sec: u64) -> (r: ScanStartOutcome)
        requires
            old(self).wf(),
        ensures
            final(self).wf(),
            old(self).scanning() ==> {
                &&& r == ScanStartOutcome::AlreadyScanning
                &&& *final(self) == *old(self)
            },
            !old(self).scanning() ==> {
                &&& r == ScanStartOutcome::Started
                &&& final(self).scanning()
                &&& final(self).spec_deadline() == Some(spec_scan_deadline(now, timeout_sec))
            },
    {
        if self.is_scanning {
            ScanStartOutcome::AlreadyScanning
        } else {
            self.is_scanning = true;
            let deadline = if timeout_sec <= u64::MAX - now {
                now + timeout_sec
            } else {
                u64::MAX
            };
            self.deadline = Some(deadline);
            ScanStartOutcome::Started
        }
    }

    /// End the active session early, cancelling its timer; before `start`,
    /// or after the timer has already expired, this is a no-op and never an
    /// error.
    pub fn stop_discovery(&mut self) -> (r: ScanStopOutcome)
        requires
            old(self).wf(),
        ensures
            final(self).wf(),
            !final(self).scanning(),
            final(self).spec_deadline() is None,
            old(self).scanning() ==> r == ScanStopOutcome::Stopped,
            !old(self).scanning() ==> {
                &&& r == ScanStopOutcome::NotScanning
                &&& *final(self) == *old(self)
            },
    {
        if self.is_scanning {
            self.is_scanning = false;
            self.deadline = None;
            ScanStopOutcome::Stopped
        } else {
            ScanStopOutcome::NotScanning
        }
    }

    /// The expiry timer fired at instant `now`. Clears the flag once the
    /// deadline has passed; fired late (after a stop) or early it changes
    /// nothing, so expiry and an explicit stop commute and the timer can
    /// never re-fire: once the flag is clear, every further expiry leaves
    /// the state untouched.
    pub fn timer_expired(&mut self, now: u64) -> (fired: bool)
        requires
            old(self).wf(),
        ensures
            final(self).wf(),
            fired == (old(self).scanning() && now >= old(self).spec_deadline()->0),
            fired ==> {
                &&& !final(self).scanning()
                &&& final(self).spec_deadline() is None
            },
            !fired ==> *final(self) == *old(self),
    {
        match self.deadline {
            Some(deadline) => {
                if now >= deadline {
                    self.is_scanning = false;
                    self.deadline = None;
                    true
                } else {
                    false
                }
            },
            None => false,
        }
    }

    /// True once no discovery session is active; what a completion wait polls.
    pub fn is_discovery_completed(&self) -> (r: bool)
        ensures
            r == !self.scanning(),
    {
        !self.is_scanning
    }
}

} // verus!
