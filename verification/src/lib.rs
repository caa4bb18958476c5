//! Request handling rules of a small portfolio backend: a visitor counter,
//! a recent-activity feed, a now-playing snapshot, a contact relay and a
//! list of published posts.
//!
//! Every handler here is a function from plain values to plain values. What
//! a handler needs from the outside world (the counter store, an upstream
//! HTTP service, process configuration) is handed to it as an argument, and
//! what it wants done there is handed back as an [`http::OutboundRequest`].

pub mod text;
pub mod http;
pub mod github;
pub mod visitors;
pub mod counter;
pub mod spotify;
pub mod contact;
pub mod blog;
pub mod router;
pub mod health;
pub mod second;
