//! Capability matching for a browser session broker.
//!
//! A configured browser driver is described by a [`browser::BrowserConfig`];
//! an incoming client request by a [`browser::Capabilities`] value. The
//! matcher decides whether the configured browser satisfies the request's
//! name, version and platform constraints.

pub mod browser;
pub mod fold;
pub mod wire;
