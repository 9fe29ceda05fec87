//! The one command this crate ships: `ping`, which replies with a pong. Its
//! published metadata and the content of its reply are fixed; sending the
//! reply over the connection is the host's asynchronous work.

use vstd::prelude::*;

use crate::descriptor::CommandDescriptor;
use crate::descriptor::ParameterDescriptor;

verus! {

/// The `ping` command: no parameters, and a run behaviour that sends one
/// reply whose content is `reply_content()`.
pub struct PingCommand;

impl PingCommand {
    /// The trigger token users invoke the command by.
    pub fn name(&self) -> (r: &'static str)
        ensures
            r@ == "ping"@,
    {
        "ping"
    }

    /// The summary the platform shows beside the command.
    pub fn description(&self) -> (r: &'static str)
        ensures
            r@ == "Replies pong!"@,
    {
        "Replies pong!"
    }

    /// The content of the one reply the command's run behaviour sends.
    pub fn reply_content(&self) -> (r: &'static str)
        ensures
            r@ == "🏓 Pong!"@,
    {
        "🏓 Pong!"
    }

    /// The descriptor the command registers under: its name and description,
    /// with an empty parameter schema.
    pub fn descriptor(&self) -> (r: CommandDescriptor)
        ensures
            r.name@ == "ping"@,
            r.description@ == "Replies pong!"@,
            r.parameter_schema@ == Seq::<ParameterDescriptor>::empty(),
    {
        CommandDescriptor {
            name: String::from_str("ping"),
            description: String::from_str("Replies pong!"),
            parameter_schema: Vec::new(),
        }
    }
}

} // verus!
