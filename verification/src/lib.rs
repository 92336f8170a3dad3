//! Verified core of a small event-listing service: the settings it starts
//! with, the trust store that its TLS connections verify against, the
//! mapping of result rows to events, the life of one request as a state
//! machine, and the rule that turns every backend failure into one fixed
//! answer. The connection pool itself is not here: the service takes it from
//! a pool crate, and this library only decides how each lease ends.

pub mod event;
pub mod failure;
pub mod request;
pub mod settings;
pub mod trust;
