//! Enumerations and records that every binding surface shares.
use vstd::prelude::*;

verus! {

/// Which network paths a transfer may use.
#[derive(Clone, Copy, Debug, PartialEq, Eq, Structural)]
pub enum FfiPathPolicy {
    Auto,
    RelayOnly,
    DirectOnly,
}

/// Which rendezvous routes a request may try.
#[derive(Clone, Copy, Debug, PartialEq, Eq, Structural)]
pub struct FfiRendezvousPlan {
    /// Try the hosted rendezvous room before any local-network fallback.
    pub use_room: bool,
    /// Reuse the room code as the mDNS token when room pairing is unavailable.
    pub use_mdns: bool,
    /// Whether the native shell currently considers broker access viable.
    pub internet_available: bool,
}

impl Default for FfiRendezvousPlan {
    fn default() -> (r: Self)
        ensures
            r == (FfiRendezvousPlan { use_room: true, use_mdns: true, internet_available: true }),
    {
        FfiRendezvousPlan { use_room: true, use_mdns: true, internet_available: true }
    }
}

/// Side on which a failure arose.
#[derive(Clone, Copy, Debug, PartialEq, Eq, Structural)]
pub enum FfiFailureOrigin {
    Local,
    Peer,
    Unknown,
}

} // verus!
