//! Following HTTP redirections on behalf of a client.
//!
//! The crate holds the decisions of a redirect-following client and none of its
//! transport: [`FollowRedirect::call`] turns a request into the first request to send
//! and an [`engine::Engine`], and [`engine::Engine::on_response`] says, for each
//! response that comes back, whether it is the final one or which request to send next.
//! A [`policy::Policy`] decides whether a redirection is followed.

pub mod body;
pub mod engine;
pub mod message;
pub mod policy;
pub mod service;
pub mod uri;

pub use message::{Method, Request, StatusCode};
pub use service::{FollowRedirect, FollowRedirectLayer};
