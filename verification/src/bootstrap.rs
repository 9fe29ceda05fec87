//! The bootstrap synchronizer: on every ready event — the first and any
//! re-fired by a reconnect — the full command metadata set is pushed to the
//! remote platform as a bulk replacement of its previous command set.
//!
//! The library builds the payload; the host submits it. A failed push is
//! reported by the host but not retried; the remote set then stays stale
//! until the next ready event.

use vstd::prelude::*;

use crate::descriptor::CommandRecord;
use crate::descriptor::clone_schema;
use crate::descriptor::record_matches;
use crate::registry::Registry;

verus! {

impl Registry {
    /// The payload of one bootstrap push: every registered command mapped to
    /// its public registration record, in registry order.
    pub fn sync_payload(&self) -> (p: Vec<CommandRecord>)
        ensures
            p@.len() == self@.commands.len(),
            forall|i: int| 0 <= i < p@.len() ==> record_matches(#[trigger] p@[i], self@.commands[i]),
    {
        let commands = self.list_commands();
        let mut p: Vec<CommandRecord> = Vec::new();
        let mut i: usize = 0;
        while i < commands.len()
            invariant
                commands@ == self@.commands,
                i <= self@.commands.len(),
                p@.len() == i as int,
                forall|j: int|
                    0 <= j < i ==> record_matches(#[trigger] p@[j], self@.commands[j]),
            decreases self@.commands.len() - i,
        {
            p.push(
                CommandRecord {
                    name: commands[i].name.clone(),
                    description: commands[i].description.clone(),
                    options: clone_schema(&commands[i].parameter_schema),
                },
            );
            i = i + 1;
        }
        p
    }
}

/// The remote platform's command set after one bulk push: the push is a full
/// overwrite, not an incremental diff, so whatever the set held before, it
/// holds exactly the submitted payload afterwards.
pub open spec fn remote_after_push(
    remote: Seq<CommandRecord>,
    payload: Seq<CommandRecord>,
) -> Seq<CommandRecord> {
    payload
}

/// The bootstrap push is idempotent: submitting the same payload twice leaves
/// the remote command set exactly as submitting it once does, whatever the
/// set held before the first push.
pub proof fn lemma_sync_push_idempotent(remote: Seq<CommandRecord>, payload: Seq<CommandRecord>)
    ensures
        remote_after_push(remote_after_push(remote, payload), payload) == remote_after_push(
            remote,
            payload,
        ),
{
}

} // verus!
