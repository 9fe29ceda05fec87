//! The event broadcaster: for one incoming lifecycle or message event, every
//! registered handler's matching hook is invoked, sequentially, in registry
//! order.
//!
//! The library decides the invocation plan; the host awaits each hook in the
//! plan's order, completing one before starting the next. A failing hook is
//! contained by the host and does not halt the remaining invocations.

use vstd::prelude::*;

use crate::registry::Registry;
use crate::registry::occurrence_count;

verus! {

/// The payload of the ready lifecycle event: the display name of the
/// authenticated identity.
#[derive(Debug, PartialEq, Eq)]
pub struct ReadyPayload {
    pub identity_name: String,
}

/// The payload of a received message event.
#[derive(Debug, PartialEq, Eq)]
pub struct MessagePayload {
    pub author_name: String,
    pub content: String,
}

/// One incoming platform event the broadcaster routes.
#[derive(Debug, PartialEq, Eq)]
pub enum Event {
    Ready(ReadyPayload),
    Message(MessagePayload),
}

/// Which of a handler's two hooks an event reaches.
#[derive(Clone, Copy, Debug, PartialEq, Eq, Structural)]
pub enum HookKind {
    OnReady,
    OnMessage,
}

/// The hook that events of `e`'s kind reach on every handler.
pub open spec fn hook_for(e: Event) -> HookKind {
    match e {
        Event::Ready(_) => HookKind::OnReady,
        Event::Message(_) => HookKind::OnMessage,
    }
}

/// One entry of a broadcast plan: invoke hook `hook` of the handler
/// registered under `handler`.
#[derive(Clone, Copy, Debug, PartialEq, Eq, Structural)]
pub struct HookCall {
    pub handler: u64,
    pub hook: HookKind,
}

impl Registry {
    /// The broadcast plan for one event: every registered handler, in
    /// registry order, each with the hook matching the event's kind. The host
    /// awaits each entry's hook to completion before the next; a handler that
    /// does not override the hook does nothing.
    pub fn broadcast_plan(&self, event: &Event) -> (plan: Vec<HookCall>)
        ensures
            plan@.len() == self@.handlers.len(),
            forall|i: int|
                0 <= i < plan@.len() ==> plan@[i] == (HookCall {
                    handler: self@.handlers[i],
                    hook: hook_for(*event),
                }),
    {
        let hook = match event {
            Event::Ready(_) => HookKind::OnReady,
            Event::Message(_) => HookKind::OnMessage,
        };
        let handlers = self.list_handlers();
        let mut plan: Vec<HookCall> = Vec::new();
        let mut i: usize = 0;
        while i < handlers.len()
            invariant
                handlers@ == self@.handlers,
                hook == hook_for(*event),
                i <= self@.handlers.len(),
                plan@.len() == i as int,
                forall|j: int|
                    0 <= j < i ==> plan@[j] == (HookCall {
                        handler: self@.handlers[j],
                        hook: hook_for(*event),
                    }),
            decreases self@.handlers.len() - i,
        {
            plan.push(HookCall { handler: handlers[i], hook });
            i = i + 1;
        }
        plan
    }
}

/// For one event, every one of the N registered handlers' matching hooks
/// fires exactly once, in registry order: when the registered handler
/// identifiers are pairwise distinct, a plan shaped as `broadcast_plan`
/// promises — one entry per handler, in order, all with the event's hook —
/// contains each of its entries exactly once.
pub proof fn lemma_broadcast_fires_each_handler_once(
    handlers: Seq<u64>,
    plan: Seq<HookCall>,
    hook: HookKind,
)
    requires
        forall|i: int, j: int| 0 <= i < j < handlers.len() ==> handlers[i] != handlers[j],
        plan.len() == handlers.len(),
        forall|i: int|
            0 <= i < plan.len() ==> plan[i] == (HookCall { handler: handlers[i], hook }),
    ensures
        forall|i: int| 0 <= i < plan.len() ==> #[trigger] occurrence_count(plan, plan[i]) == 1,
{
    assert forall|i: int, j: int| 0 <= i < j < plan.len() implies plan[i] != plan[j] by {
        assert(plan[i].handler == handlers[i]);
        assert(plan[j].handler == handlers[j]);
    }
    crate::registry::lemma_each_registration_listed_once(plan);
}

} // verus!
