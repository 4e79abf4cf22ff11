use vstd::prelude::*;
use crate::errors::LdapError;

verus! {

/// Result of a single directory operation: the protocol result code plus
/// the matched DN and diagnostic text returned by the server. A code of 0
/// means success; the facade passes the value through unmodified.
#[derive(Debug, Clone, PartialEq, Eq)]
pub struct LdapResult {
    pub rc: u32,
    pub matched: String,
    pub text: String,
}

impl LdapResult {
    /// True exactly when the server reported success (result code 0).
    pub fn is_success(&self) -> (r: bool)
        ensures
            r == (self.rc == 0),
    {
        self.rc == 0
    }
}

/// One search entry, as an opaque encoded payload. The facade never looks
/// inside an entry; it hands entries out exactly as the session produced
/// them.
#[derive(Debug, Clone, PartialEq, Eq)]
pub struct Entry {
    pub payload: Vec<u8>,
}

/// Everything a non-streaming search returns: the matching entries as one
/// in-memory batch, and the final protocol result.
#[derive(Debug, Clone, PartialEq, Eq)]
pub struct SearchResult(pub Vec<Entry>, pub LdapResult);

/// Outcome of a compare operation. The protocol answers with a dedicated
/// result code: 6 for "attribute matched", 5 for "attribute differed";
/// anything else is an operation failure.
#[derive(Debug, Clone, PartialEq, Eq)]
pub struct CompareResult(pub LdapResult);

pub const COMPARE_FALSE: u32 = 5;
pub const COMPARE_TRUE: u32 = 6;

impl CompareResult {
    /// The three-valued reading of a compare outcome: `Ok(true)` or
    /// `Ok(false)` for the two answer codes, and the protocol error
    /// itself for every other code.
    pub fn equal(&self) -> (r: Result<bool, LdapError>)
        ensures
            self.0.rc == COMPARE_TRUE ==> r == Ok::<bool, LdapError>(true),
            self.0.rc == COMPARE_FALSE ==> r == Ok::<bool, LdapError>(false),
            self.0.rc != COMPARE_TRUE && self.0.rc != COMPARE_FALSE ==> r == Err::<bool, LdapError>(
                LdapError::ProtocolError { rc: self.0.rc, text: self.0.text },
            ),
    {
        if self.0.rc == COMPARE_TRUE {
            Ok(true)
        } else if self.0.rc == COMPARE_FALSE {
            Ok(false)
        } else {
            Err(LdapError::ProtocolError { rc: self.0.rc, text: self.0.text.clone() })
        }
    }
}

/// An extended-operation payload: an OID naming the operation and an
/// opaque value, both optional on the response side.
#[derive(Debug, Clone, PartialEq, Eq)]
pub struct Exop {
    pub name: Option<String>,
    pub val: Option<Vec<u8>>,
}

/// Outcome of an extended operation: the response payload, if the server
/// sent one, and the final protocol result.
#[derive(Debug, Clone, PartialEq, Eq)]
pub struct ExopResult(pub Option<Exop>, pub LdapResult);

/// Search scope, mirroring the protocol's three values.
#[derive(Debug, Clone, Copy, PartialEq, Eq)]
pub enum Scope {
    Base,
    OneLevel,
    Subtree,
}

/// One element of a modification list, passed through to the session
/// unmodified.
#[derive(Debug, Clone, PartialEq, Eq)]
pub enum Mod {
    Add(String, Vec<String>),
    Delete(String, Vec<String>),
    Replace(String, Vec<String>),
    Increment(String, String),
}

/// A raw protocol control: its OID, criticality, and opaque value.
#[derive(Debug, Clone, PartialEq, Eq)]
pub struct RawControl {
    pub ctype: String,
    pub crit: bool,
    pub val: Option<Vec<u8>>,
}

/// Per-search options forwarded to the session with the next search.
#[derive(Debug, Clone, Copy, PartialEq, Eq)]
pub struct SearchOptions {
    pub size_limit: u32,
    pub time_limit: u32,
    pub types_only: bool,
}

impl SearchOptions {
    /// Options that leave every limit at the protocol default.
    pub fn new() -> (r: Self)
        ensures
            r.size_limit == 0,
            r.time_limit == 0,
            !r.types_only,
    {
        SearchOptions { size_limit: 0, time_limit: 0, types_only: false }
    }
}

/// Connection-establishment settings, handed unmodified to the session's
/// async connector: certificate validation on or off, an optional trusted
/// root CA, an optional literal IP override for the host in the URL, and
/// whether to negotiate StartTLS.
#[derive(Debug, Clone, PartialEq, Eq)]
pub struct LdapConnSettings {
    pub no_tls_verify: bool,
    pub root_ca: Option<Vec<u8>>,
    pub ip_address: Option<String>,
    pub starttls: bool,
}

impl LdapConnSettings {
    /// Default settings: verify certificates, no extra trust root, no
    /// address override, no StartTLS.
    pub open spec fn default_spec() -> LdapConnSettings {
        LdapConnSettings { no_tls_verify: false, root_ca: None, ip_address: None, starttls: false }
    }

    /// Default settings: verify certificates, no extra trust root, no
    /// address override, no StartTLS.
    pub fn new() -> (r: Self)
        ensures
            r == Self::default_spec(),
    {
        LdapConnSettings { no_tls_verify: false, root_ca: None, ip_address: None, starttls: false }
    }

    /// Disable or re-enable certificate validation.
    pub fn set_no_tls_verify(self, no_tls_verify: bool) -> (r: Self)
        ensures
            r == (LdapConnSettings { no_tls_verify, ..self }),
    {
        LdapConnSettings { no_tls_verify, ..self }
    }

    /// Trust the given root CA, as encoded certificate bytes.
    pub fn set_root_ca(self, root_ca: Vec<u8>) -> (r: Self)
        ensures
            r == (LdapConnSettings { root_ca: Some(root_ca), ..self }),
    {
        LdapConnSettings { root_ca: Some(root_ca), ..self }
    }

    /// Connect to the given literal address instead of resolving the URL
    /// host, while still validating TLS against the URL host name.
    pub fn set_ip_address(self, ip_address: String) -> (r: Self)
        ensures
            r == (LdapConnSettings { ip_address: Some(ip_address), ..self }),
    {
        LdapConnSettings { ip_address: Some(ip_address), ..self }
    }

    /// Request a StartTLS negotiation after connecting.
    pub fn set_starttls(self, starttls: bool) -> (r: Self)
        ensures
            r == (LdapConnSettings { starttls, ..self }),
    {
        LdapConnSettings { starttls, ..self }
    }
}

} // verus!
