use vstd::prelude::*;
use crate::errors::LdapError;
use crate::proto::{
    CompareResult, Exop, ExopResult, LdapConnSettings, LdapResult, Mod, RawControl, Scope,
    SearchOptions, SearchResult,
};

verus! {

/// One directory operation, with its payload carried through to the
/// asynchronous session unmodified.
#[derive(Debug, Clone, PartialEq, Eq)]
pub enum DirOp {
    SimpleBind { bind_dn: String, bind_pw: String },
    SaslExternalBind,
    SaslSpnegoBind { username: String, password: String },
    Search { base: String, scope: Scope, filter: String, attrs: Vec<String> },
    StreamingSearch { base: String, scope: Scope, filter: String, attrs: Vec<String> },
    Add { dn: String, attrs: Vec<(String, Vec<String>)> },
    Compare { dn: String, attr: String, val: Vec<u8> },
    Delete { dn: String },
    Modify { dn: String, mods: Vec<Mod> },
    ModifyDn { dn: String, rdn: String, delete_old: bool, new_sup: Option<String> },
    Unbind,
    Extended { exop: Exop },
    Abandon { msgid: i32 },
}

/// Permission for exactly one protocol exchange on the shared task driver.
///
/// A facade method hands one out only when the session is open and no other
/// exchange is outstanding; the caller performs the asynchronous call it
/// describes and then returns it to the matching completion method. It
/// carries the request identifier assigned to the operation and whatever
/// per-operation configuration was pending on the facade.
#[derive(Debug, Clone, PartialEq, Eq)]
pub struct Exchange {
    pub id: i32,
    pub op: DirOp,
    pub search_opts: Option<SearchOptions>,
    pub controls: Option<Vec<RawControl>>,
    pub timeout_ms: Option<u64>,
}

/// An approved connection establishment: the URL and settings to hand to
/// the session's asynchronous connector.
#[derive(Debug, Clone, PartialEq, Eq)]
pub struct ConnectRequest {
    pub url: String,
    pub settings: LdapConnSettings,
}

/// Request identifiers count up from 1 and wrap around the positive range.
pub open spec fn next_id(id: i32) -> i32 {
    if id == i32::MAX {
        1i32
    } else {
        (id + 1) as i32
    }
}

/// The blocking facade over one asynchronous directory session.
///
/// It owns the state that makes blocking use of a single cooperative task
/// driver safe: whether the session is still open, which exchange (if any)
/// is outstanding on the driver, the identifier of the most recently issued
/// request, which requests were abandoned, and configuration to forward
/// with the next operation.
///
/// Every operation runs in two steps. The verb method (`search`,
/// `simple_bind`, ...) decides whether the exchange may happen: it refuses
/// with `SessionClosed` after `unbind`, refuses with `ExclusiveAccessError`
/// while another exchange is outstanding, and otherwise assigns the next
/// request identifier and returns an [`Exchange`]. The caller drives the
/// asynchronous session and hands the exchange together with the session's
/// reply to the matching `complete_*` method, which releases the driver and
/// surfaces the reply verbatim.
#[derive(Debug, PartialEq, Eq)]
pub struct LdapConn {
    pub closed: bool,
    pub pending: Option<i32>,
    pub last_id: i32,
    pub abandoned: Vec<i32>,
    pub search_opts: Option<SearchOptions>,
    pub controls: Option<Vec<RawControl>>,
    pub timeout_ms: Option<u64>,
}

impl LdapConn {
    /// A freshly connected facade: open, idle, no request issued yet.
    pub open spec fn is_initial(c: LdapConn) -> bool {
        &&& !c.closed
        &&& c.pending is None
        &&& c.last_id == 0
        &&& c.abandoned@ == Seq::<i32>::empty()
        &&& c.search_opts is None
        &&& c.controls is None
        &&& c.timeout_ms is None
    }

    /// What granting an exchange means: the next identifier is assigned,
    /// the payload and the pending per-operation configuration are carried
    /// verbatim, and the driver is busy until the matching completion.
    pub open spec fn granted(pre: LdapConn, op: DirOp, ex: Exchange, post: LdapConn) -> bool {
        &&& ex.id == next_id(pre.last_id)
        &&& ex.op == op
        &&& ex.search_opts == pre.search_opts
        &&& ex.controls == pre.controls
        &&& ex.timeout_ms == pre.timeout_ms
        &&& post == (LdapConn {
            pending: Some(ex.id),
            last_id: ex.id,
            search_opts: None,
            controls: None,
            timeout_ms: None,
            ..pre
        })
    }

    /// The full outcome of asking the facade for an exchange: a closed
    /// session refuses with `SessionClosed` and an occupied driver with
    /// `ExclusiveAccessError`, both without any effect; otherwise the
    /// exchange is granted.
    pub open spec fn begin_post(
        pre: LdapConn,
        post: LdapConn,
        op: DirOp,
        r: Result<Exchange, LdapError>,
    ) -> bool {
        if pre.closed {
            post == pre && r == Err::<Exchange, LdapError>(LdapError::SessionClosed)
        } else if pre.pending is Some {
            post == pre && r == Err::<Exchange, LdapError>(LdapError::ExclusiveAccessError)
        } else {
            match r {
                Ok(ex) => Self::granted(pre, op, ex, post),
                Err(_) => false,
            }
        }
    }

    fn begin(&mut self, op: DirOp) -> (r: Result<Exchange, LdapError>)
        ensures
            Self::begin_post(*old(self), *final(self), op, r),
    {
        if self.closed {
            return Err(LdapError::SessionClosed);
        }
        if self.pending.is_some() {
            return Err(LdapError::ExclusiveAccessError);
        }
        let id: i32 = if self.last_id == i32::MAX {
            1
        } else {
            self.last_id + 1
        };
        let ex = Exchange {
            id,
            op,
            search_opts: self.search_opts.take(),
            controls: self.controls.take(),
            timeout_ms: self.timeout_ms.take(),
        };
        self.pending = Some(id);
        self.last_id = id;
        Ok(ex)
    }

    /// Ask to open a connection to the server at `url` with default
    /// settings. The returned request is handed to the asynchronous
    /// connector; its outcome goes to [`LdapConn::connect_complete`].
    pub fn new(url: String) -> (r: ConnectRequest)
        ensures
            r == (ConnectRequest { url, settings: LdapConnSettings::default_spec() }),
    {
        Self::with_settings(LdapConnSettings::new(), url)
    }

    /// Ask to open a connection to the server at `url`, using `settings`
    /// for TLS, trust and address options. Both are passed through to the
    /// connector unmodified.
    pub fn with_settings(settings: LdapConnSettings, url: String) -> (r: ConnectRequest)
        ensures
            r == (ConnectRequest { url, settings }),
    {
        ConnectRequest { url, settings }
    }

    /// Complete connection establishment: a successful reply yields a
    /// fresh, open, idle facade; a failure from the connector is surfaced
    /// verbatim.
    pub fn connect_complete(req: ConnectRequest, reply: Result<(), LdapError>) -> (r: Result<
        LdapConn,
        LdapError,
    >)
        ensures
            reply is Ok ==> r is Ok && Self::is_initial(r->Ok_0),
            reply matches Err(e) ==> r == Err::<LdapConn, LdapError>(e),
    {
        match reply {
            Ok(()) => Ok(LdapConn {
                closed: false,
                pending: None,
                last_id: 0,
                abandoned: Vec::new(),
                search_opts: None,
                controls: None,
                timeout_ms: None,
            }),
            Err(e) => Err(e),
        }
    }

    /// Forward `opts` with the next search issued on this facade.
    pub fn with_search_options(&mut self, opts: SearchOptions)
        ensures
            *final(self) == (LdapConn { search_opts: Some(opts), ..*old(self) }),
    {
        self.search_opts = Some(opts);
    }

    /// Forward `ctrls` with the next operation issued on this facade.
    pub fn with_controls(&mut self, ctrls: Vec<RawControl>)
        ensures
            *final(self) == (LdapConn { controls: Some(ctrls), ..*old(self) }),
    {
        self.controls = Some(ctrls);
    }

    /// Give the next operation issued on this facade a deadline, in
    /// milliseconds.
    pub fn with_timeout(&mut self, timeout_ms: u64)
        ensures
            *final(self) == (LdapConn { timeout_ms: Some(timeout_ms), ..*old(self) }),
    {
        self.timeout_ms = Some(timeout_ms);
    }

    /// The identifier of the most recently issued request. Never blocks
    /// and never fails.
    pub fn last_id(&self) -> (r: i32)
        ensures
            r == self.last_id,
    {
        self.last_id
    }

    /// Whether the request with identifier `id` was cancelled on this
    /// facade: through a successful `abandon`, or because it timed out
    /// and the session gave up on it.
    pub fn id_abandoned(&self, id: i32) -> (r: bool)
        ensures
            r == self.abandoned@.contains(id),
    {
        let mut i: usize = 0;
        while i < self.abandoned.len()
            invariant
                i <= self.abandoned.len(),
                forall|j: int| 0 <= j < i ==> self.abandoned@[j] != id,
            decreases self.abandoned.len() - i,
        {
            if self.abandoned[i] == id {
                return true;
            }
            i += 1;
        }
        false
    }

    /// Ask to authenticate with a simple bind.
    pub fn simple_bind(&mut self, bind_dn: String, bind_pw: String) -> (r: Result<
        Exchange,
        LdapError,
    >)
        ensures
            Self::begin_post(*old(self), *final(self), DirOp::SimpleBind { bind_dn, bind_pw }, r),
    {
        self.begin(DirOp::SimpleBind { bind_dn, bind_pw })
    }

    /// Ask to authenticate with the EXTERNAL SASL mechanism.
    pub fn sasl_external_bind(&mut self) -> (r: Result<Exchange, LdapError>)
        ensures
            Self::begin_post(*old(self), *final(self), DirOp::SaslExternalBind, r),
    {
        self.begin(DirOp::SaslExternalBind)
    }

    /// Ask to authenticate with a negotiated (SPNEGO) SASL bind.
    pub fn sasl_spnego_bind(&mut self, username: String, password: String) -> (r: Result<
        Exchange,
        LdapError,
    >)
        ensures
            Self::begin_post(
                *old(self),
                *final(self),
                DirOp::SaslSpnegoBind { username, password },
                r,
            ),
    {
        self.begin(DirOp::SaslSpnegoBind { username, password })
    }

    /// Ask to run a search whose results come back as one batch.
    pub fn search(&mut self, base: String, scope: Scope, filter: String, attrs: Vec<String>) -> (r:
        Result<Exchange, LdapError>)
        ensures
            Self::begin_post(
                *old(self),
                *final(self),
                DirOp::Search { base, scope, filter, attrs },
                r,
            ),
    {
        self.begin(DirOp::Search { base, scope, filter, attrs })
    }

    /// Ask to start a search whose results are retrieved one entry at a
    /// time through a streaming handle.
    pub fn streaming_search(
        &mut self,
        base: String,
        scope: Scope,
        filter: String,
        attrs: Vec<String>,
    ) -> (r: Result<Exchange, LdapError>)
        ensures
            Self::begin_post(
                *old(self),
                *final(self),
                DirOp::StreamingSearch { base, scope, filter, attrs },
                r,
            ),
    {
        self.begin(DirOp::StreamingSearch { base, scope, filter, attrs })
    }

    /// Ask to add an entry with the given attributes.
    pub fn add(&mut self, dn: String, attrs: Vec<(String, Vec<String>)>) -> (r: Result<
        Exchange,
        LdapError,
    >)
        ensures
            Self::begin_post(*old(self), *final(self), DirOp::Add { dn, attrs }, r),
    {
        self.begin(DirOp::Add { dn, attrs })
    }

    /// Ask to compare an attribute of an entry against a value.
    pub fn compare(&mut self, dn: String, attr: String, val: Vec<u8>) -> (r: Result<
        Exchange,
        LdapError,
    >)
        ensures
            Self::begin_post(*old(self), *final(self), DirOp::Compare { dn, attr, val }, r),
    {
        self.begin(DirOp::Compare { dn, attr, val })
    }

    /// Ask to delete an entry.
    pub fn delete(&mut self, dn: String) -> (r: Result<Exchange, LdapError>)
        ensures
            Self::begin_post(*old(self), *final(self), DirOp::Delete { dn }, r),
    {
        self.begin(DirOp::Delete { dn })
    }

    /// Ask to apply a modification list to an entry.
    pub fn modify(&mut self, dn: String, mods: Vec<Mod>) -> (r: Result<Exchange, LdapError>)
        ensures
            Self::begin_post(*old(self), *final(self), DirOp::Modify { dn, mods }, r),
    {
        self.begin(DirOp::Modify { dn, mods })
    }

    /// Ask to rename an entry.
    pub fn modifydn(
        &mut self,
        dn: String,
        rdn: String,
        delete_old: bool,
        new_sup: Option<String>,
    ) -> (r: Result<Exchange, LdapError>)
        ensures
            Self::begin_post(
                *old(self),
                *final(self),
                DirOp::ModifyDn { dn, rdn, delete_old, new_sup },
                r,
            ),
    {
        self.begin(DirOp::ModifyDn { dn, rdn, delete_old, new_sup })
    }

    /// Ask to tear the session down. Once the teardown completes
    /// successfully, every further call on this facade and on any handle
    /// derived from it reports `SessionClosed`.
    pub fn unbind(&mut self) -> (r: Result<Exchange, LdapError>)
        ensures
            Self::begin_post(*old(self), *final(self), DirOp::Unbind, r),
    {
        self.begin(DirOp::Unbind)
    }

    /// Ask to run a protocol extended operation.
    pub fn extended(&mut self, exop: Exop) -> (r: Result<Exchange, LdapError>)
        ensures
            Self::begin_post(*old(self), *final(self), DirOp::Extended { exop }, r),
    {
        self.begin(DirOp::Extended { exop })
    }

    /// Ask to cancel the in-flight or still-streaming operation issued
    /// under `msgid`.
    pub fn abandon(&mut self, msgid: i32) -> (r: Result<Exchange, LdapError>)
        ensures
            Self::begin_post(*old(self), *final(self), DirOp::Abandon { msgid }, r),
    {
        self.begin(DirOp::Abandon { msgid })
    }

    /// The operations whose reply is a bare protocol result: the binds and
    /// the four update verbs.
    pub open spec fn yields_plain_result(op: DirOp) -> bool {
        match op {
            DirOp::SimpleBind { .. } => true,
            DirOp::SaslExternalBind => true,
            DirOp::SaslSpnegoBind { .. } => true,
            DirOp::Add { .. } => true,
            DirOp::Delete { .. } => true,
            DirOp::Modify { .. } => true,
            DirOp::ModifyDn { .. } => true,
            _ => false,
        }
    }

    /// Whether `ex` is the exchange currently outstanding on the driver.
    pub open spec fn outstanding(self, ex: Exchange) -> bool {
        self.pending == Some(ex.id)
    }

    /// The state after a completion releases the driver: identical but
    /// for the cleared pending marker.
    pub open spec fn drained(pre: LdapConn) -> LdapConn {
        LdapConn { pending: None, ..pre }
    }

    /// How a completion resolves the facade. On an ordinary reply the
    /// driver is simply released. A timed-out operation is additionally
    /// recorded as abandoned: the session is expected to cancel the
    /// request it gave up on, and the facade's bookkeeping must agree, so
    /// that no protocol state leaks and a streaming handle bound to the
    /// request reports the cancellation.
    pub open spec fn completes_to(pre: LdapConn, post: LdapConn, id: i32, timed_out: bool) -> bool {
        if timed_out {
            Self::drained_except_abandoned(pre, post) && post.abandoned@ == pre.abandoned@.push(id)
        } else {
            post == Self::drained(pre)
        }
    }

    /// Whether a session reply reports an elapsed deadline.
    pub open spec fn timed_out<T>(reply: Result<T, LdapError>) -> bool {
        reply == Err::<T, LdapError>(LdapError::Timeout)
    }

    pub(crate) fn reply_timed_out<T>(reply: &Result<T, LdapError>) -> (b: bool)
        ensures
            b == Self::timed_out(*reply),
    {
        match reply {
            Err(LdapError::Timeout) => true,
            _ => false,
        }
    }

    pub(crate) fn pending_is(&self, id: i32) -> (r: bool)
        ensures
            r == (self.pending == Some(id)),
    {
        match self.pending {
            Some(p) => p == id,
            None => false,
        }
    }

    /// Complete a bind or update exchange. A completion that does not
    /// match the outstanding exchange, or whose operation does not answer
    /// with a bare protocol result, is out of order: it reports
    /// `ProtocolSequenceError` and changes nothing. Otherwise the driver
    /// is released and the session's reply is surfaced verbatim; a
    /// timed-out request is additionally recorded as abandoned.
    pub fn complete_result(&mut self, ex: Exchange, reply: Result<LdapResult, LdapError>) -> (r:
        Result<LdapResult, LdapError>)
        ensures
            old(self).outstanding(ex) && Self::yields_plain_result(ex.op) ==> Self::completes_to(
                *old(self),
                *final(self),
                ex.id,
                Self::timed_out(reply),
            ) && r == reply,
            !(old(self).outstanding(ex) && Self::yields_plain_result(ex.op)) ==> *final(self)
                == *old(self) && r == Err::<LdapResult, LdapError>(
                LdapError::ProtocolSequenceError,
            ),
    {
        let kind_ok = match &ex.op {
            DirOp::SimpleBind { .. } => true,
            DirOp::SaslExternalBind => true,
            DirOp::SaslSpnegoBind { .. } => true,
            DirOp::Add { .. } => true,
            DirOp::Delete { .. } => true,
            DirOp::Modify { .. } => true,
            DirOp::ModifyDn { .. } => true,
            _ => false,
        };
        if self.pending_is(ex.id) && kind_ok {
            self.pending = None;
            if Self::reply_timed_out(&reply) {
                self.abandoned.push(ex.id);
            }
            reply
        } else {
            Err(LdapError::ProtocolSequenceError)
        }
    }

    /// Complete a non-streaming search exchange: the whole batch of
    /// entries and the final protocol result are surfaced verbatim.
    pub fn complete_search(&mut self, ex: Exchange, reply: Result<SearchResult, LdapError>) -> (r:
        Result<SearchResult, LdapError>)
        ensures
            old(self).outstanding(ex) && (ex.op matches DirOp::Search { .. }) ==> Self::completes_to(
                *old(self),
                *final(self),
                ex.id,
                Self::timed_out(reply),
            ) && r == reply,
            !(old(self).outstanding(ex) && (ex.op matches DirOp::Search { .. })) ==> *final(self)
                == *old(self) && r == Err::<SearchResult, LdapError>(
                LdapError::ProtocolSequenceError,
            ),
    {
        let kind_ok = match &ex.op {
            DirOp::Search { .. } => true,
            _ => false,
        };
        if self.pending_is(ex.id) && kind_ok {
            self.pending = None;
            if Self::reply_timed_out(&reply) {
                self.abandoned.push(ex.id);
            }
            reply
        } else {
            Err(LdapError::ProtocolSequenceError)
        }
    }

    /// Complete a compare exchange: the three-valued outcome is surfaced
    /// verbatim.
    pub fn complete_compare(&mut self, ex: Exchange, reply: Result<CompareResult, LdapError>) -> (r:
        Result<CompareResult, LdapError>)
        ensures
            old(self).outstanding(ex) && (ex.op matches DirOp::Compare { .. }) ==> Self::completes_to(
                *old(self),
                *final(self),
                ex.id,
                Self::timed_out(reply),
            ) && r == reply,
            !(old(self).outstanding(ex) && (ex.op matches DirOp::Compare { .. })) ==> *final(self)
                == *old(self) && r == Err::<CompareResult, LdapError>(
                LdapError::ProtocolSequenceError,
            ),
    {
        let kind_ok = match &ex.op {
            DirOp::Compare { .. } => true,
            _ => false,
        };
        if self.pending_is(ex.id) && kind_ok {
            self.pending = None;
            if Self::reply_timed_out(&reply) {
                self.abandoned.push(ex.id);
            }
            reply
        } else {
            Err(LdapError::ProtocolSequenceError)
        }
    }

    /// Complete an extended-operation exchange: the response payload and
    /// protocol result are surfaced verbatim.
    pub fn complete_extended(&mut self, ex: Exchange, reply: Result<ExopResult, LdapError>) -> (r:
        Result<ExopResult, LdapError>)
        ensures
            old(self).outstanding(ex) && (ex.op matches DirOp::Extended { .. }) ==> Self::completes_to(
                *old(self),
                *final(self),
                ex.id,
                Self::timed_out(reply),
            ) && r == reply,
            !(old(self).outstanding(ex) && (ex.op matches DirOp::Extended { .. })) ==> *final(self)
                == *old(self) && r == Err::<ExopResult, LdapError>(
                LdapError::ProtocolSequenceError,
            ),
    {
        let kind_ok = match &ex.op {
            DirOp::Extended { .. } => true,
            _ => false,
        };
        if self.pending_is(ex.id) && kind_ok {
            self.pending = None;
            if Self::reply_timed_out(&reply) {
                self.abandoned.push(ex.id);
            }
            reply
        } else {
            Err(LdapError::ProtocolSequenceError)
        }
    }

    /// Complete a session teardown. On a successful reply the facade is
    /// closed for good: every later call reports `SessionClosed`. A failed
    /// teardown leaves the session open.
    pub fn complete_unbind(&mut self, ex: Exchange, reply: Result<(), LdapError>) -> (r: Result<
        (),
        LdapError,
    >)
        ensures
            old(self).outstanding(ex) && (ex.op matches DirOp::Unbind) ==> r == reply && *final(self)
                == (if reply is Ok {
                LdapConn { closed: true, ..Self::drained(*old(self)) }
            } else {
                Self::drained(*old(self))
            }),
            !(old(self).outstanding(ex) && (ex.op matches DirOp::Unbind)) ==> *final(self) == *old(
                self,
            ) && r == Err::<(), LdapError>(LdapError::ProtocolSequenceError),
    {
        let kind_ok = match &ex.op {
            DirOp::Unbind => true,
            _ => false,
        };
        if self.pending_is(ex.id) && kind_ok {
            self.pending = None;
            if reply.is_ok() {
                self.closed = true;
            }
            reply
        } else {
            Err(LdapError::ProtocolSequenceError)
        }
    }

    /// The request an abandon exchange cancels; meaningful only when the
    /// operation is an abandon.
    pub open spec fn abandon_target(op: DirOp) -> i32 {
        match op {
            DirOp::Abandon { msgid } => msgid,
            _ => 0i32,
        }
    }

    /// Everything a completion must leave alone, besides the abandoned
    /// set: the session stays open or closed as it was, the identifier
    /// counter and pending configuration are untouched, and the driver is
    /// released.
    pub open spec fn drained_except_abandoned(pre: LdapConn, post: LdapConn) -> bool {
        &&& post.closed == pre.closed
        &&& post.pending is None
        &&& post.last_id == pre.last_id
        &&& post.search_opts == pre.search_opts
        &&& post.controls == pre.controls
        &&& post.timeout_ms == pre.timeout_ms
    }

    /// Complete an abandon exchange. On success the cancelled request's
    /// identifier is recorded, so that a streaming handle bound to it
    /// reports the cancellation instead of fetching further entries.
    pub fn complete_abandon(&mut self, ex: Exchange, reply: Result<(), LdapError>) -> (r: Result<
        (),
        LdapError,
    >)
        ensures
            old(self).outstanding(ex) && (ex.op matches DirOp::Abandon { .. }) ==> r == reply
                && Self::drained_except_abandoned(*old(self), *final(self))
                && final(self).abandoned@ == (if reply is Ok {
                old(self).abandoned@.push(Self::abandon_target(ex.op))
            } else {
                old(self).abandoned@
            }),
            !(old(self).outstanding(ex) && (ex.op matches DirOp::Abandon { .. })) ==> *final(self)
                == *old(self) && r == Err::<(), LdapError>(LdapError::ProtocolSequenceError),
    {
        let target: Option<i32> = match &ex.op {
            DirOp::Abandon { msgid } => Some(*msgid),
            _ => None,
        };
        if self.pending_is(ex.id) {
            if let Some(msgid) = target {
                self.pending = None;
                if reply.is_ok() {
                    self.abandoned.push(msgid);
                }
                return reply;
            }
        }
        Err(LdapError::ProtocolSequenceError)
    }
}

/// The exclusive-access law: the shared task driver admits one exchange at
/// a time. A verb method grants an exchange only when the driver is free,
/// the grant itself makes the driver busy, and while an exchange is
/// outstanding every further request on the open facade is refused with
/// `ExclusiveAccessError` and has no effect.
pub proof fn lemma_exclusive_driver(
    pre: LdapConn,
    post: LdapConn,
    op: DirOp,
    r: Result<Exchange, LdapError>,
)
    requires
        LdapConn::begin_post(pre, post, op, r),
    ensures
        r is Ok ==> pre.pending is None && !pre.closed && post.pending == Some(r->Ok_0.id),
        !pre.closed && pre.pending is Some ==> r == Err::<Exchange, LdapError>(
            LdapError::ExclusiveAccessError,
        ) && post == pre,
{
}

/// The issuance-order law: identifiers correlate operations with the order
/// in which they were issued. The first exchange granted carries the
/// successor of the last issued identifier, completing it keeps that
/// identifier as the most recent, and the next exchange granted carries
/// its successor — so `last_id` always names the most recently issued
/// operation, the one an `abandon` issued right after it is to cancel.
pub proof fn lemma_ids_follow_issuance(
    pre: LdapConn,
    mid: LdapConn,
    mid2: LdapConn,
    post: LdapConn,
    op1: DirOp,
    op2: DirOp,
    ex1: Exchange,
    ex2: Exchange,
    to: bool,
)
    requires
        LdapConn::granted(pre, op1, ex1, mid),
        LdapConn::completes_to(mid, mid2, ex1.id, to),
        LdapConn::granted(mid2, op2, ex2, post),
    ensures
        ex1.id == next_id(pre.last_id),
        mid2.last_id == ex1.id,
        ex2.id == next_id(ex1.id),
{
}

/// The closed-session law: once the facade is closed, every verb method
/// reports `SessionClosed`, leaves the facade unchanged, and grants no
/// exchange — so no network activity can follow from the call.
pub proof fn lemma_closed_refuses_everything(
    pre: LdapConn,
    post: LdapConn,
    op: DirOp,
    r: Result<Exchange, LdapError>,
)
    requires
        LdapConn::begin_post(pre, post, op, r),
        pre.closed,
    ensures
        r == Err::<Exchange, LdapError>(LdapError::SessionClosed),
        post == pre,
{
}

} // verus!
