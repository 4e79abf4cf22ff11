use vstd::prelude::*;
use crate::errors::LdapError;
use crate::proto::{Entry, LdapResult};
use crate::sync::{DirOp, Exchange, LdapConn};

verus! {

/// Where a streaming search stands in its start -> next* -> finish
/// protocol.
#[derive(Debug, Clone, Copy, PartialEq, Eq)]
pub enum Phase {
    /// Entries may still follow; `next` performs a protocol exchange.
    Streaming,
    /// The end-of-stream sentinel has been observed; `next` repeats it
    /// without any further exchange, and `result` may now be called.
    SentinelSeen,
    /// `result` has been called; the search is over.
    Finished,
    /// The search was cancelled through `abandon`; `next` reports the
    /// cancellation instead of fetching entries.
    Abandoned,
}

/// Permission for one next-entry exchange of a streaming search. It names
/// the search's request identifier; the underlying protocol exchange
/// continues that operation rather than issuing a new request.
#[derive(Debug, Clone, Copy, PartialEq, Eq)]
pub struct FetchTicket {
    pub id: i32,
}

/// What a `next` call asks of its caller: fetch the next entry from the
/// session's cursor, or nothing — the sentinel had already been observed
/// and is repeated idempotently.
#[derive(Debug, Clone, Copy, PartialEq, Eq)]
pub enum NextAction {
    Fetch(FetchTicket),
    Sentinel,
}

/// What one completed `next` round hands the caller, given the phase the
/// handle was in and the cursor's reply: while streaming, the reply is
/// passed through verbatim; once the sentinel has been observed, the
/// sentinel is repeated.
pub open spec fn yield_output(phase: Phase, reply: Option<Entry>) -> Option<Entry> {
    match phase {
        Phase::Streaming => reply,
        _ => None,
    }
}

/// The phase after one completed `next` round: a reply of `None` is the
/// end-of-stream sentinel and moves the handle to `SentinelSeen`; every
/// other phase is unchanged by `next`.
pub open spec fn yield_next_phase(phase: Phase, reply: Option<Entry>) -> Phase {
    match phase {
        Phase::Streaming => if reply is None {
            Phase::SentinelSeen
        } else {
            Phase::Streaming
        },
        Phase::SentinelSeen => Phase::SentinelSeen,
        Phase::Finished => Phase::Finished,
        Phase::Abandoned => Phase::Abandoned,
    }
}

/// The outputs of calling `next` once per cursor reply, in order, starting
/// from `phase`.
pub open spec fn yields(phase: Phase, replies: Seq<Option<Entry>>) -> Seq<Option<Entry>>
    decreases replies.len(),
{
    if replies.len() == 0 {
        Seq::empty()
    } else {
        seq![yield_output(phase, replies[0])] + yields(
            yield_next_phase(phase, replies[0]),
            replies.skip(1),
        )
    }
}

/// Handle for pulling the results of a streaming search one entry at a
/// time.
///
/// The handle shares the facade's task driver instead of owning one of its
/// own, so each blocking step borrows the facade that spawned it: at most
/// one of the two can be driving an exchange at any instant. The protocol
/// is strict: `next` until it yields the sentinel, then `result` exactly
/// once; `abandon` on the facade cancels the search, after which `next`
/// reports the cancellation.
#[derive(Debug, PartialEq, Eq)]
pub struct EntryStream {
    pub id: i32,
    pub phase: Phase,
}

impl LdapConn {
    /// Complete the start of a streaming search: a successful reply yields
    /// a handle bound to the search's request identifier and to this
    /// facade's driver; a failure from the session is surfaced verbatim.
    pub fn complete_streaming_search(&mut self, ex: Exchange, reply: Result<(), LdapError>) -> (r:
        Result<EntryStream, LdapError>)
        ensures
            old(self).outstanding(ex) && (ex.op matches DirOp::StreamingSearch { .. }) ==> {
                &&& Self::completes_to(
                    *old(self),
                    *final(self),
                    ex.id,
                    Self::timed_out(reply),
                )
                &&& (reply is Ok ==> r == Ok::<EntryStream, LdapError>(
                    EntryStream { id: ex.id, phase: Phase::Streaming },
                ))
                &&& (reply matches Err(e) ==> r == Err::<EntryStream, LdapError>(e))
            },
            !(old(self).outstanding(ex) && (ex.op matches DirOp::StreamingSearch { .. }))
                ==> *final(self) == *old(self) && r == Err::<EntryStream, LdapError>(
                LdapError::ProtocolSequenceError,
            ),
    {
        let kind_ok = match &ex.op {
            DirOp::StreamingSearch { .. } => true,
            _ => false,
        };
        if self.pending_is(ex.id) && kind_ok {
            self.pending = None;
            if Self::reply_timed_out(&reply) {
                self.abandoned.push(ex.id);
            }
            match reply {
                Ok(()) => Ok(EntryStream { id: ex.id, phase: Phase::Streaming }),
                Err(e) => Err(e),
            }
        } else {
            Err(LdapError::ProtocolSequenceError)
        }
    }
}

impl EntryStream {
    /// The request identifier of the search this handle streams, for use
    /// with `abandon`. Never blocks and never fails.
    pub fn last_id(&self) -> (r: i32)
        ensures
            r == self.id,
    {
        self.id
    }

    /// Ask for the next entry of the search.
    ///
    /// On a closed facade this reports `SessionClosed`; after the sentinel
    /// it repeats the sentinel without any protocol exchange; after a
    /// cancellation through `abandon` it reports `Abandoned` instead of
    /// fetching — the cancellation always wins. Otherwise it claims the
    /// shared driver (refusing with `ExclusiveAccessError` if an exchange
    /// is already outstanding) and asks the caller to fetch one entry from
    /// the cursor, whose reply goes to [`EntryStream::next_complete`].
    pub fn next(&mut self, conn: &mut LdapConn) -> (r: Result<NextAction, LdapError>)
        ensures
            old(conn).closed ==> r == Err::<NextAction, LdapError>(LdapError::SessionClosed)
                && *final(self) == *old(self) && *final(conn) == *old(conn),
            !old(conn).closed && (old(self).phase is SentinelSeen || old(self).phase is Finished)
                ==> r == Ok::<NextAction, LdapError>(NextAction::Sentinel) && *final(self) == *old(
                self,
            ) && *final(conn) == *old(conn),
            !old(conn).closed && old(self).phase is Abandoned ==> r == Err::<
                NextAction,
                LdapError,
            >(LdapError::Abandoned) && *final(self) == *old(self) && *final(conn) == *old(conn),
            !old(conn).closed && old(self).phase is Streaming && old(conn).abandoned@.contains(
                old(self).id,
            ) ==> r == Err::<NextAction, LdapError>(LdapError::Abandoned) && *final(self) == (
            EntryStream { phase: Phase::Abandoned, ..*old(self) }) && *final(conn) == *old(conn),
            !old(conn).closed && old(self).phase is Streaming && !old(conn).abandoned@.contains(
                old(self).id,
            ) && old(conn).pending is Some ==> r == Err::<NextAction, LdapError>(
                LdapError::ExclusiveAccessError,
            ) && *final(self) == *old(self) && *final(conn) == *old(conn),
            !old(conn).closed && old(self).phase is Streaming && !old(conn).abandoned@.contains(
                old(self).id,
            ) && old(conn).pending is None ==> r == Ok::<NextAction, LdapError>(
                NextAction::Fetch(FetchTicket { id: old(self).id }),
            ) && *final(self) == *old(self) && *final(conn) == (LdapConn {
                pending: Some(old(self).id),
                ..*old(conn)
            }),
    {
        if conn.closed {
            return Err(LdapError::SessionClosed);
        }
        match self.phase {
            Phase::SentinelSeen | Phase::Finished => Ok(NextAction::Sentinel),
            Phase::Abandoned => Err(LdapError::Abandoned),
            Phase::Streaming => {
                if conn.id_abandoned(self.id) {
                    self.phase = Phase::Abandoned;
                    Err(LdapError::Abandoned)
                } else if conn.pending.is_some() {
                    Err(LdapError::ExclusiveAccessError)
                } else {
                    conn.pending = Some(self.id);
                    Ok(NextAction::Fetch(FetchTicket { id: self.id }))
                }
            },
        }
    }

    /// Complete one next-entry exchange with the cursor's reply: an entry
    /// or, as `None`, the end-of-stream sentinel, both surfaced verbatim;
    /// a failure from the session likewise. A timed-out fetch records the
    /// search as abandoned and ends the stream. A completion that does not
    /// match the outstanding exchange is out of order and reports
    /// `ProtocolSequenceError` without effect.
    pub fn next_complete(
        &mut self,
        conn: &mut LdapConn,
        ticket: FetchTicket,
        reply: Result<Option<Entry>, LdapError>,
    ) -> (r: Result<Option<Entry>, LdapError>)
        ensures
            ({
                let valid = old(conn).pending == Some(ticket.id) && ticket.id == old(self).id
                    && old(self).phase is Streaming;
                if valid {
                    &&& LdapConn::completes_to(
                        *old(conn),
                        *final(conn),
                        ticket.id,
                        LdapConn::timed_out(reply),
                    )
                    &&& r == reply
                    &&& (reply matches Ok(e) ==> *final(self) == (EntryStream {
                        phase: yield_next_phase(Phase::Streaming, e),
                        ..*old(self)
                    }) && r == Ok::<Option<Entry>, LdapError>(yield_output(Phase::Streaming, e)))
                    &&& (reply is Err && !LdapConn::timed_out(reply) ==> *final(self) == *old(
                        self,
                    ))
                    &&& (LdapConn::timed_out(reply) ==> *final(self) == (EntryStream {
                        phase: Phase::Abandoned,
                        ..*old(self)
                    }))
                } else {
                    *final(self) == *old(self) && *final(conn) == *old(conn) && r == Err::<
                        Option<Entry>,
                        LdapError,
                    >(LdapError::ProtocolSequenceError)
                }
            }),
    {
        let phase_ok = match self.phase {
            Phase::Streaming => true,
            _ => false,
        };
        if conn.pending_is(ticket.id) && ticket.id == self.id && phase_ok {
            conn.pending = None;
            if LdapConn::reply_timed_out(&reply) {
                conn.abandoned.push(ticket.id);
                self.phase = Phase::Abandoned;
            }
            match reply {
                Ok(Some(e)) => Ok(Some(e)),
                Ok(None) => {
                    self.phase = Phase::SentinelSeen;
                    Ok(None)
                },
                Err(e) => Err(e),
            }
        } else {
            Err(LdapError::ProtocolSequenceError)
        }
    }

    /// Finish the search, yielding the final protocol result for the whole
    /// operation, exactly once and only after the sentinel was observed.
    ///
    /// `last` is the final result the session's cursor holds once the
    /// stream is drained; it is surfaced verbatim. Calling this before
    /// `next` has observed the sentinel, or a second time, reports
    /// `ProtocolSequenceError` and leaves both the handle and the facade
    /// untouched, so later operations on the facade are unaffected. On a
    /// closed facade it reports `SessionClosed`.
    pub fn result(&mut self, conn: &LdapConn, last: LdapResult) -> (r: Result<
        LdapResult,
        LdapError,
    >)
        ensures
            conn.closed ==> r == Err::<LdapResult, LdapError>(LdapError::SessionClosed)
                && *final(self) == *old(self),
            !conn.closed && old(self).phase is SentinelSeen ==> *final(self) == (EntryStream {
                phase: Phase::Finished,
                ..*old(self)
            }) && r == Ok::<LdapResult, LdapError>(last),
            !conn.closed && !(old(self).phase is SentinelSeen) ==> *final(self) == *old(self) && r
                == Err::<LdapResult, LdapError>(LdapError::ProtocolSequenceError),
    {
        if conn.closed {
            return Err(LdapError::SessionClosed);
        }
        match self.phase {
            Phase::SentinelSeen => {
                self.phase = Phase::Finished;
                Ok(last)
            },
            _ => Err(LdapError::ProtocolSequenceError),
        }
    }
}

/// A stream of `next` calls produces one output per call.
pub proof fn lemma_yields_len(phase: Phase, replies: Seq<Option<Entry>>)
    ensures
        yields(phase, replies).len() == replies.len(),
    decreases replies.len(),
{
    if replies.len() > 0 {
        lemma_yields_len(yield_next_phase(phase, replies[0]), replies.skip(1));
    }
}

/// Once the sentinel has been observed, every further `next` call yields
/// the sentinel again, whatever the cursor would reply.
pub proof fn lemma_sentinel_absorbs(replies: Seq<Option<Entry>>)
    ensures
        forall|i: int|
            0 <= i < replies.len() ==> yields(Phase::SentinelSeen, replies)[i] is None,
    decreases replies.len(),
{
    lemma_yields_len(Phase::SentinelSeen, replies);
    if replies.len() > 0 {
        lemma_sentinel_absorbs(replies.skip(1));
        lemma_yields_len(Phase::SentinelSeen, replies.skip(1));
        assert forall|i: int|
            0 <= i < replies.len() implies yields(Phase::SentinelSeen, replies)[i] is None by {
            if i > 0 {
                assert(yields(Phase::SentinelSeen, replies)[i] == yields(
                    Phase::SentinelSeen,
                    replies.skip(1),
                )[i - 1]);
            }
        }
    }
}

/// Each output of a run of `next` calls, by position: the cursor's replies
/// come through verbatim and in order up to and including the first
/// sentinel, and every later call yields the sentinel again.
pub proof fn lemma_stream_yields_in_order(replies: Seq<Option<Entry>>, i: int)
    requires
        0 <= i < replies.len(),
    ensures
        (forall|j: int| 0 <= j < i ==> replies[j] is Some) ==> yields(Phase::Streaming, replies)[i]
            == replies[i],
        (exists|j: int| 0 <= j < i && replies[j] is None) ==> yields(Phase::Streaming, replies)[i]
            is None,
    decreases i,
{
    lemma_yields_len(Phase::Streaming, replies);
    let tail = replies.skip(1);
    lemma_yields_len(Phase::Streaming, tail);
    if i > 0 {
        if replies[0] is Some {
            lemma_stream_yields_in_order(tail, i - 1);
            assert(yields(Phase::Streaming, replies)[i] == yields(Phase::Streaming, tail)[i - 1]);
            if forall|j: int| 0 <= j < i ==> replies[j] is Some {
                assert forall|j: int| 0 <= j < i - 1 implies tail[j] is Some by {
                    assert(tail[j] == replies[j + 1]);
                }
                assert(yields(Phase::Streaming, tail)[i - 1] == tail[i - 1]);
                assert(tail[i - 1] == replies[i]);
            }
            if exists|j: int| 0 <= j < i && replies[j] is None {
                let j = choose|j: int| 0 <= j < i && replies[j] is None;
                assert(0 <= j - 1 < i - 1 && tail[j - 1] is None);
                assert(yields(Phase::Streaming, tail)[i - 1] is None);
            }
        } else {
            lemma_sentinel_absorbs(tail);
            assert(yields(Phase::Streaming, replies)[i] == yields(Phase::SentinelSeen, tail)[i
                - 1]);
        }
    }
}

/// The streaming-search law: starting a stream and calling `next` once per
/// cursor reply yields exactly the entries the cursor produces, in the
/// cursor's order, terminated by the end-of-stream sentinel exactly once —
/// at the first sentinel reply — after which every further call repeats
/// the sentinel.
pub proof fn lemma_sentinel_exactly_once(replies: Seq<Option<Entry>>, k: int)
    requires
        0 <= k < replies.len(),
        forall|j: int| 0 <= j < k ==> replies[j] is Some,
        replies[k] is None,
    ensures
        forall|i: int|
            0 <= i < k ==> yields(Phase::Streaming, replies)[i] == replies[i] && yields(
                Phase::Streaming,
                replies,
            )[i] is Some,
        yields(Phase::Streaming, replies)[k] is None,
        forall|i: int|
            k < i < replies.len() ==> yields(Phase::Streaming, replies)[i] is None,
{
    lemma_yields_len(Phase::Streaming, replies);
    assert forall|i: int|
        0 <= i < k implies yields(Phase::Streaming, replies)[i] == replies[i] && yields(
        Phase::Streaming,
        replies,
    )[i] is Some by {
        lemma_stream_yields_in_order(replies, i);
    }
    lemma_stream_yields_in_order(replies, k);
    assert forall|i: int|
        k < i < replies.len() implies yields(Phase::Streaming, replies)[i] is None by {
        lemma_stream_yields_in_order(replies, i);
        assert(0 <= k < i && replies[k] is None);
    }
}

} // verus!
