use vstd::prelude::*;

verus! {

/// The error taxonomy of the blocking facade.
///
/// Failures reported by the underlying asynchronous session are surfaced
/// verbatim (`ConnectionError`, `ProtocolError`, `Timeout`); the remaining
/// kinds are raised by the facade itself when its usage discipline is
/// broken, or when an operation was cancelled through `abandon`.
#[derive(Debug, Clone, PartialEq, Eq)]
pub enum LdapError {
    /// Connection establishment (socket, TLS, URL) failed.
    ConnectionError { text: String },
    /// The server rejected the operation; carries the protocol result code.
    ProtocolError { rc: u32, text: String },
    /// The shared task driver is already busy with another exchange.
    ExclusiveAccessError,
    /// A streaming-handle or completion call arrived out of order.
    ProtocolSequenceError,
    /// The session was torn down by `unbind`; no further use is allowed.
    SessionClosed,
    /// A caller-configured deadline elapsed before the operation finished.
    Timeout,
    /// The operation was cancelled through `abandon`; no entries follow.
    Abandoned,
}

} // verus!
