//! A media-session controller: playback metadata and state for one document,
//! a registry of handlers for transport-control actions, and the decision of
//! what each action request causes.

pub mod action;
pub mod dispatch;
pub mod handlers;
pub mod history;
pub mod laws;
pub mod metadata;
pub mod model;
pub mod session;
