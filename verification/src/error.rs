use vstd::prelude::*;

verus! {

/// Structured error kinds for the session core.
///
/// `NoAdapterFound` is fatal to controller construction; property read/write
/// failures are surfaced to the caller without retry; `DeviceVanished` is
/// non-fatal and only used to skip a device during enumeration; the four
/// lifecycle failures are surfaced verbatim; `DeviceOutOfRange` is the
/// structured form of a connection failure caused by the peer being
/// unreachable; `ConfirmationTimeout` is treated like an explicit rejection;
/// `ConfirmationAlreadyPending` rejects a second confirmation request while
/// one is outstanding.
#[derive(Clone, Copy, Debug, PartialEq, Eq, Structural)]
pub enum BtError {
    NoAdapterFound,
    PropertyReadFailed,
    PropertyWriteFailed,
    DeviceVanished,
    PairingFailed,
    ConnectionFailed,
    DeviceOutOfRange,
    DisconnectionFailed,
    ForgetFailed,
    ConfirmationTimeout,
    ConfirmationAlreadyPending,
}

impl BtError {
    /// A short fixed description, in place of a `Display` implementation.
    pub fn message(&self) -> (r: &'static str)
        ensures
            r@ == self.spec_message(),
    {
        match self {
            BtError::NoAdapterFound => "no wireless adapter found",
            BtError::PropertyReadFailed => "failed to read an adapter or device property",
            BtError::PropertyWriteFailed => "failed to write an adapter or device property",
            BtError::DeviceVanished => "device vanished during enumeration",
            BtError::PairingFailed => "pairing failed",
            BtError::ConnectionFailed => "connection failed",
            BtError::DeviceOutOfRange => "device is out of range",
            BtError::DisconnectionFailed => "disconnection failed",
            BtError::ForgetFailed => "removing the device failed",
            BtError::ConfirmationTimeout => "confirmation timed out",
            BtError::ConfirmationAlreadyPending => "a confirmation request is already pending",
        }
    }

    pub open spec fn spec_message(&self) -> Seq<char> {
        match self {
            BtError::NoAdapterFound => "no wireless adapter found"@,
            BtError::PropertyReadFailed => "failed to read an adapter or device property"@,
            BtError::PropertyWriteFailed => "failed to write an adapter or device property"@,
            BtError::DeviceVanished => "device vanished during enumeration"@,
            BtError::PairingFailed => "pairing failed"@,
            BtError::ConnectionFailed => "connection failed"@,
            BtError::DeviceOutOfRange => "device is out of range"@,
            BtError::DisconnectionFailed => "disconnection failed"@,
            BtError::ForgetFailed => "removing the device failed"@,
            BtError::ConfirmationTimeout => "confirmation timed out"@,
            BtError::ConfirmationAlreadyPending => "a confirmation request is already pending"@,
        }
    }
}

} // verus!
