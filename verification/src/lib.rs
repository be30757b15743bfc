//! The decisions of a server integration for a reactive web framework.
//!
//! A server that renders an application answers two kinds of request. A
//! call of a server function is answered with the function's result, or
//! with a redirect where the call came from a plain HTML form. A page is
//! answered with a stream of HTML: the head of the document, what the
//! renderer produces, and the tail. While either is at work, components
//! and server functions may set the status and the headers of the
//! response.
//!
//! This library holds what is decided along the way, on plain values:
//!
//! - [`request`]: the snapshot of a request that application code reads;
//! - [`response`]: the status and headers that application code sets;
//! - [`server_fn`]: the response to a call of a server function;
//! - [`stream`] and [`shell`]: the chunks of a streamed page, their order,
//!   and the status and headers that go in front of them;
//! - [`routes`]: the paths to register with the host router;
//! - [`config`] and [`manifest`]: the settings of a site;
//! - [`rsx`]: the arguments of the template macro;
//! - [`header`], [`header_map`], [`status`], [`text`]: the values that the
//!   others work on.
//!
//! Reading requests, looking up and awaiting handlers, rendering, locking
//! and writing to sockets are the caller's work.

pub mod config;
pub mod header;
pub mod header_map;
pub mod manifest;
pub mod request;
pub mod response;
pub mod routes;
pub mod rsx;
pub mod server_fn;
pub mod shell;
pub mod status;
pub mod stream;
pub mod text;
