//! A blocking facade over an asynchronous directory-access session.
//!
//! A caller issues one directory operation at a time and waits for its
//! completion; a streaming search hands entries out one at a time. The
//! facade enforces the discipline that makes this safe on a single shared
//! task driver: at most one protocol exchange outstanding at any instant,
//! no use after `unbind`, and a strict start -> next* -> finish order on
//! streaming results.

mod errors;
mod proto;
mod stream;
mod sync;

pub use errors::LdapError;
pub use stream::{EntryStream, FetchTicket, NextAction, Phase};
pub use sync::{ConnectRequest, DirOp, Exchange, LdapConn};
pub use proto::{
    CompareResult, Entry, Exop, ExopResult, LdapConnSettings, LdapResult, Mod, RawControl, Scope,
    SearchOptions, SearchResult, COMPARE_FALSE, COMPARE_TRUE,
};
