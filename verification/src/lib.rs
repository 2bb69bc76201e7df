//! raxon: the verified core of a signal-driven native UI framework.
//!
//! The library holds the parts of the framework that are pure data and
//! decisions: the widget/mutation model, URL routing and navigation state,
//! the host-session registry, the UIKit backend's callback tables, request
//! builders and caches, and the queues the
//! runtime drains once per frame. Platform glue lives outside the library.

pub mod android;
pub mod assoc;
pub mod core_types;
pub mod dom;
pub mod host;
pub mod ios;
pub mod nav;
pub mod net;
pub mod runtime;
pub mod text;
