//! Browser automation and testing library. Communication is done via
//! the [chrome devtools protocol](https://chromedevtools.github.io/devtools-protocol/)
//! which sends json messages back and forth. Currently only chrome is supported.
//!
//! This crate holds what the library decides: the messages sent to the
//! browser and how they are written as JSON, how replies are read and told
//! apart from events and errors, how sessions are opened, and where the
//! browser is found and installed. Sockets, processes and files are driven
//! by the code around it.
pub mod browser;
pub mod cdp;
pub mod dom;
pub mod download;
pub mod error;
pub mod json;
pub mod page;

pub use browser::Browser;
pub use error::{Error, Result};
pub use page::Page;

use vstd::prelude::*;

verus! {

/// A page that is always available and nearly empty.
pub const EMPTY_PAGE: &'static str = "https://blank.org/";

} // verus!
