//! A small capability framework for chat-platform bots: independently written
//! command and event-handler modules are gathered into a process-wide registry
//! before the event loop starts, and incoming platform events are then routed
//! to them — named invocations to the first command whose name matches, and
//! lifecycle events to every registered handler in registry order.
//!
//! The library holds the registry and the decision logic (what to run, in what
//! order, and what to push to the remote platform); the host program performs
//! the asynchronous work those decisions call for.

pub mod bootstrap;
pub mod broadcaster;
pub mod descriptor;
pub mod dispatch;
pub mod ping;
pub mod ready;
pub mod registry;
