//! The decisions of a self-updating site server.
//!
//! The server serves the pages of a working copy and, when the host of its
//! repository announces a push, brings the working copy up to the remote by
//! fast-forward only. This library decides; its caller reads, writes and
//! talks to the network, and reports back what it saw.
//!
//! - `git`: the synchronisation, one request at a time, and the credential
//!   that a fetch authenticates with.
//! - `model`: what a synchronisation can and cannot do to a repository.
//! - `github`: webhook deliveries, read from headers and a JSON body.
//! - `webhook`: what a delivery asks of the server.
//! - `page`: which file answers a request, and the page around a rendered
//!   Markdown file.
//! - `conf`: what the server is configured with.
//! - `commit`, `text`: commit identifiers and their text; comparisons on
//!   strings.

pub mod commit;
pub mod conf;
pub mod git;
pub mod github;
pub mod model;
pub mod page;
pub mod text;
pub mod webhook;
