//! The capability registry: a process-wide, append-only collection of command
//! descriptors and event-handler identifiers.
//!
//! The host populates the registry during process initialization, before the
//! first event is dispatched, and only reads it afterwards. Registration
//! order is whatever order the host registered in; dispatch and broadcast
//! visit entries in exactly that order.

use vstd::prelude::*;

use crate::descriptor::CommandDescriptor;

verus! {

/// The mathematical content of a registry: the two ordered sequences of
/// registered entries.
pub struct RegistryView {
    pub commands: Seq<CommandDescriptor>,
    pub handlers: Seq<u64>,
}

/// The capability registry. Commands are stored as their full descriptors;
/// event handlers, whose hooks are asynchronous behaviour owned by the host,
/// are stored as the identifiers the host registered them under.
pub struct Registry {
    commands: Vec<CommandDescriptor>,
    handlers: Vec<u64>,
}

impl View for Registry {
    type V = RegistryView;

    closed spec fn view(&self) -> RegistryView {
        RegistryView { commands: self.commands@, handlers: self.handlers@ }
    }
}

impl Registry {
    /// An empty registry: nothing has been registered yet.
    pub fn new() -> (r: Registry)
        ensures
            r@.commands == Seq::<CommandDescriptor>::empty(),
            r@.handlers == Seq::<u64>::empty(),
    {
        Registry { commands: Vec::new(), handlers: Vec::new() }
    }

    /// Appends one command descriptor. Must only be called during process
    /// initialization, before the first dispatch; nothing is ever removed.
    pub fn register_command(&mut self, descriptor: CommandDescriptor)
        ensures
            final(self)@.commands == old(self)@.commands.push(descriptor),
            final(self)@.handlers == old(self)@.handlers,
    {
        self.commands.push(descriptor);
    }

    /// Appends one event-handler identifier. Must only be called during
    /// process initialization, before the first dispatch.
    pub fn register_handler(&mut self, handler: u64)
        ensures
            final(self)@.commands == old(self)@.commands,
            final(self)@.handlers == old(self)@.handlers.push(handler),
    {
        self.handlers.push(handler);
    }

    /// The full, stable sequence of registered commands, in registration
    /// order.
    pub fn list_commands(&self) -> (r: &Vec<CommandDescriptor>)
        ensures
            r@ == self@.commands,
    {
        &self.commands
    }

    /// The full, stable sequence of registered handler identifiers, in
    /// registration order.
    pub fn list_handlers(&self) -> (r: &Vec<u64>)
        ensures
            r@ == self@.handlers,
    {
        &self.handlers
    }
}

/// How many positions of `s` hold exactly the value `x`.
pub open spec fn occurrence_count<T>(s: Seq<T>, x: T) -> nat
    decreases s.len(),
{
    if s.len() == 0 {
        0
    } else {
        occurrence_count(s.drop_last(), x) + if s.last() == x {
            1nat
        } else {
            0nat
        }
    }
}

/// Registering appends exactly one occurrence: one registration raises the
/// registered value's count by one and leaves every other value's count
/// unchanged.
pub proof fn lemma_register_appends_once<T>(s: Seq<T>, x: T)
    ensures
        occurrence_count(s.push(x), x) == occurrence_count(s, x) + 1,
        forall|y: T| y != x ==> occurrence_count(s.push(x), y) == occurrence_count(s, y),
{
    assert(s.push(x).drop_last() == s);
}

/// Every descriptor registered before the first dispatch appears exactly once
/// in the listed sequence: when the registered values are pairwise distinct,
/// each of them has occurrence count exactly one.
pub proof fn lemma_each_registration_listed_once<T>(s: Seq<T>)
    requires
        forall|i: int, j: int| 0 <= i < j < s.len() ==> s[i] != s[j],
    ensures
        forall|i: int| 0 <= i < s.len() ==> #[trigger] occurrence_count(s, s[i]) == 1,
    decreases s.len(),
{
    if s.len() > 0 {
        let prefix = s.drop_last();
        lemma_each_registration_listed_once::<T>(prefix);
        assert forall|i: int| 0 <= i < s.len() implies #[trigger] occurrence_count(s, s[i])
            == 1 by {
            if i == s.len() - 1 {
                lemma_count_absent_unchanged(prefix, s[i]);
            } else {
                assert(occurrence_count(prefix, prefix[i]) == 1);
            }
        }
    }
}

/// A value that occurs at no position of `s` has occurrence count zero.
pub proof fn lemma_count_absent_unchanged<T>(s: Seq<T>, x: T)
    requires
        forall|i: int| 0 <= i < s.len() ==> s[i] != x,
    ensures
        occurrence_count(s, x) == 0,
    decreases s.len(),
{
    if s.len() > 0 {
        lemma_count_absent_unchanged(s.drop_last(), x);
    }
}

} // verus!
