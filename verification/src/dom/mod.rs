//! The widget/mutation model and the inbound event model.

pub mod event;
pub mod mutation;
