//! Verified core of an embedded web-view host: cross-thread dispatch,
//! a cooperative message-loop stepper, URL routing for inline document
//! content, and the lifecycle of the opaque handle that ties them together.
//!
//! The operating system's windowing, registry and rendering calls live in
//! the unverified host layer; this crate holds the decisions and data they
//! act on, with contracts.

pub mod control;
pub mod dispatch;
pub mod encoding;
pub mod url;
pub mod webview;
pub mod wide;
