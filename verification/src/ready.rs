//! The event handler that reacts to the ready lifecycle event: it announces
//! the authenticated identity and has the host push the registry's full
//! command metadata to the remote platform (see `crate::bootstrap`).

use vstd::prelude::*;

verus! {

/// The ready-event handler. Its `on_ready` hook logs `announcement(..)` and
/// then submits `Registry::sync_payload()` to the remote platform; the push
/// and the logging are the host's work, and a failed push is reported there
/// without being retried.
pub struct SlashReadyEvent;

impl SlashReadyEvent {
    /// The line logged when the ready event fires, naming the authenticated
    /// identity.
    pub fn announcement(&self, identity_name: &str) -> (r: String)
        ensures
            r@ == "Bot ready as "@ + identity_name@,
    {
        String::from_str("Bot ready as ").concat(identity_name)
    }
}

} // verus!
