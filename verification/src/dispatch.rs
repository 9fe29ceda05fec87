//! The command dispatcher: matches an incoming named invocation against the
//! registry and decides which registered command, if any, is to run.
//!
//! The scan is linear over the registered commands and the match is exact and
//! case-sensitive on the trigger token. Only the first matching descriptor
//! (by registry order) runs; an invocation that matches nothing is silently
//! dropped — no error is raised and no diagnostic is emitted.

use vstd::prelude::*;

use crate::descriptor::Invocation;
use crate::registry::Registry;

verus! {

/// The dispatcher's decision on a matched invocation: which registered
/// command is to run, and the invocation payload to hand to it. The host
/// performs the command's asynchronous run behaviour; a failure there is
/// contained by the host and never reaches the registry or later events.
pub struct RunCall {
    pub command_index: usize,
    pub invocation: Invocation,
}

impl Registry {
    /// The registry has some command whose trigger token reads `name`.
    pub open spec fn has_command_named(self, name: Seq<char>) -> bool {
        exists|j: int| 0 <= j < self@.commands.len() && self@.commands[j].name@ == name
    }

    /// Decides what an incoming named invocation runs: the first registered
    /// command (in registry order) whose name equals the invocation's name
    /// receives the invocation's payload; with no match, nothing runs and the
    /// invocation is dropped.
    pub fn dispatch(&self, invocation: Invocation) -> (r: Option<RunCall>)
        ensures
            match r {
                Some(call) => {
                    &&& self.has_command_named(invocation.name@)
                    &&& call.invocation == invocation
                    &&& call.command_index < self@.commands.len()
                    &&& self@.commands[call.command_index as int].name@ == invocation.name@
                    &&& forall|j: int|
                        0 <= j < call.command_index ==> self@.commands[j].name@
                            != invocation.name@
                },
                None => !self.has_command_named(invocation.name@),
            },
    {
        let commands = self.list_commands();
        let mut i: usize = 0;
        while i < commands.len()
            invariant
                commands@ == self@.commands,
                i <= self@.commands.len(),
                forall|j: int| 0 <= j < i ==> self@.commands[j].name@ != invocation.name@,
            decreases self@.commands.len() - i,
        {
            if commands[i].name == invocation.name {
                return Some(RunCall { command_index: i, invocation });
            }
            i = i + 1;
        }
        None
    }
}

} // verus!
