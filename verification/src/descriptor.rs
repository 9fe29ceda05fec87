//! The data model of a capability: the metadata a command publishes, the
//! record pushed to the remote platform, and the payload of a named
//! invocation.
//!
//! A command's run behaviour and a handler's hooks are asynchronous work that
//! the host program owns; the library sees a command as its metadata and an
//! event handler as the identifier the host gave it.

use vstd::prelude::*;

verus! {

/// One entry of a command's parameter schema: the name and description the
/// platform shows to the user, and whether the invoker must supply a value.
#[derive(Debug, PartialEq, Eq)]
pub struct ParameterDescriptor {
    pub name: String,
    pub description: String,
    pub required: bool,
}

impl Clone for ParameterDescriptor {
    fn clone(&self) -> (r: Self)
        ensures
            r == *self,
    {
        ParameterDescriptor {
            name: self.name.clone(),
            description: self.description.clone(),
            required: self.required,
        }
    }
}

/// The metadata of one registered command: its user-facing trigger token, a
/// human-readable summary, and the ordered (possibly empty) parameter schema.
#[derive(Debug, PartialEq, Eq)]
pub struct CommandDescriptor {
    pub name: String,
    pub description: String,
    pub parameter_schema: Vec<ParameterDescriptor>,
}

/// Copies a parameter schema element by element, preserving order.
pub fn clone_schema(v: &Vec<ParameterDescriptor>) -> (r: Vec<ParameterDescriptor>)
    ensures
        r@ == v@,
{
    let mut r: Vec<ParameterDescriptor> = Vec::new();
    let mut i: usize = 0;
    while i < v.len()
        invariant
            i <= v@.len(),
            r@.len() == i as int,
            forall|j: int| 0 <= j < i ==> r@[j] == v@[j],
        decreases v@.len() - i,
    {
        r.push(v[i].clone());
        i = i + 1;
    }
    proof {
        assert(r@ =~= v@);
    }
    r
}

impl Clone for CommandDescriptor {
    fn clone(&self) -> (r: Self)
        ensures
            r.name == self.name,
            r.description == self.description,
            r.parameter_schema@ == self.parameter_schema@,
    {
        CommandDescriptor {
            name: self.name.clone(),
            description: self.description.clone(),
            parameter_schema: clone_schema(&self.parameter_schema),
        }
    }
}

/// The public registration record the bootstrap synchronizer pushes to the
/// remote platform for one command: exactly the command's published metadata.
#[derive(Debug, PartialEq, Eq)]
pub struct CommandRecord {
    pub name: String,
    pub description: String,
    pub options: Vec<ParameterDescriptor>,
}

/// The record `r` carries exactly the published metadata of the command `c`.
pub open spec fn record_matches(r: CommandRecord, c: CommandDescriptor) -> bool {
    &&& r.name == c.name
    &&& r.description == c.description
    &&& r.options@ == c.parameter_schema@
}

/// An incoming named invocation: the trigger token the user typed and the
/// argument values that came with it.
#[derive(Debug, PartialEq, Eq)]
pub struct Invocation {
    pub name: String,
    pub arguments: Vec<String>,
}

} // verus!
