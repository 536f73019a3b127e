//! A reverse proxy for one upstream: requests that come in on a local port,
//! over HTTP or HTTPS, are forwarded to one fixed host and port, and the
//! answers are handed back. This library holds what the proxy decides: how a
//! command line becomes a configuration, where a request goes and what its
//! headers say on the way, what the client gets when the upstream fails, how a
//! TLS identity is loaded, and how a server instance and its supervisor move
//! from one step to the next. Sockets, files and the clock belong to the
//! program that uses it.

pub mod conf;
pub mod forward;
pub mod headers;
pub mod identity;
pub mod instance;
pub mod log;
pub mod supervisor;
pub mod target;
pub mod text;
