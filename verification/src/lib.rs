//! A local IPC daemon library: it caches one extraction result per
//! compilation unit and serves structured queries against it over a
//! line-delimited socket protocol, with an auto-start handshake for callers.
//!
//! The expensive extraction itself runs as an external subprocess; this
//! library holds the protocol codec, the query resolver, the cache manager,
//! the connection-server step logic and the client-side correlation rules,
//! all with verified contracts.

use vstd::prelude::*;

pub mod cache;
pub mod chars;
pub mod clones;
pub mod codec_prim;
pub mod codec_data;
pub mod codec_req;
pub mod codec_resp;
pub mod client;
pub mod deep_eq;
pub mod example;
pub mod extract;
pub mod lifecycle;
pub mod pattern;
pub mod protocol;
pub mod resolver;
pub mod server;
