use ldap_sync::{
    Entry, EntryStream, LdapConn, LdapError, LdapResult, NextAction, Scope,
};

fn ok_result() -> LdapResult {
    LdapResult { rc: 0, matched: String::new(), text: String::new() }
}

fn connected() -> LdapConn {
    let req = LdapConn::new("ldap://localhost:2389".to_string());
    LdapConn::connect_complete(req, Ok(())).unwrap()
}

fn start_stream(conn: &mut LdapConn) -> EntryStream {
    let ex = conn
        .streaming_search(
            "dc=example,dc=org".to_string(),
            Scope::Subtree,
            "(objectClass=person)".to_string(),
            vec!["cn".to_string()],
        )
        .unwrap();
    conn.complete_streaming_search(ex, Ok(())).unwrap()
}

fn entry(n: u8) -> Entry {
    Entry { payload: vec![n] }
}

/// One full next round against a cursor reply.
fn round(
    s: &mut EntryStream,
    conn: &mut LdapConn,
    reply: Result<Option<Entry>, LdapError>,
) -> Result<Option<Entry>, LdapError> {
    match s.next(conn).unwrap() {
        NextAction::Fetch(t) => s.next_complete(conn, t, reply),
        NextAction::Sentinel => Ok(None),
    }
}

#[test]
fn three_entries_in_order_then_sentinel_then_finish() {
    let mut conn = connected();
    let mut s = start_stream(&mut conn);

    assert_eq!(round(&mut s, &mut conn, Ok(Some(entry(1)))), Ok(Some(entry(1))));
    assert_eq!(round(&mut s, &mut conn, Ok(Some(entry(2)))), Ok(Some(entry(2))));
    assert_eq!(round(&mut s, &mut conn, Ok(Some(entry(3)))), Ok(Some(entry(3))));
    assert_eq!(round(&mut s, &mut conn, Ok(None)), Ok(None));
    assert_eq!(s.result(&conn, ok_result()), Ok(ok_result()));
}

#[test]
fn sentinel_repeats_without_an_exchange() {
    let mut conn = connected();
    let mut s = start_stream(&mut conn);
    assert_eq!(round(&mut s, &mut conn, Ok(None)), Ok(None));
    // No further fetch is asked for, whatever the cursor might still say.
    assert_eq!(s.next(&mut conn), Ok(NextAction::Sentinel));
    assert_eq!(s.next(&mut conn), Ok(NextAction::Sentinel));
    assert_eq!(conn.pending, None);
}

#[test]
fn finish_before_sentinel_or_twice_is_a_sequence_error() {
    let mut conn = connected();
    let mut s = start_stream(&mut conn);

    // Before any entry was pulled.
    assert_eq!(s.result(&conn, ok_result()), Err(LdapError::ProtocolSequenceError));

    // The stream and the facade keep working afterwards.
    assert_eq!(round(&mut s, &mut conn, Ok(Some(entry(9)))), Ok(Some(entry(9))));
    assert_eq!(round(&mut s, &mut conn, Ok(None)), Ok(None));
    assert_eq!(s.result(&conn, ok_result()), Ok(ok_result()));

    // A second finish is out of order.
    assert_eq!(s.result(&conn, ok_result()), Err(LdapError::ProtocolSequenceError));

    // Later operations on the same facade are unaffected.
    let ex = conn.delete("cn=x".to_string()).unwrap();
    assert!(conn.complete_result(ex, Ok(ok_result())).is_ok());
}

#[test]
fn abandon_wins_over_next() {
    let mut conn = connected();
    let mut s = start_stream(&mut conn);
    assert_eq!(s.last_id(), conn.last_id());

    let ex = conn.abandon(s.last_id()).unwrap();
    assert_eq!(conn.complete_abandon(ex, Ok(())), Ok(()));

    // The cancelled search yields no further entries, deterministically.
    assert_eq!(s.next(&mut conn), Err(LdapError::Abandoned));
    assert_eq!(s.next(&mut conn), Err(LdapError::Abandoned));
}

#[test]
fn stream_and_facade_share_one_driver() {
    let mut conn = connected();
    let mut s = start_stream(&mut conn);

    // While a fetch is outstanding, the facade may not start an exchange,
    // and a second fetch may not start either.
    let t = match s.next(&mut conn).unwrap() {
        NextAction::Fetch(t) => t,
        NextAction::Sentinel => panic!("stream ended before it began"),
    };
    assert_eq!(conn.delete("cn=x".to_string()), Err(LdapError::ExclusiveAccessError));
    let mut other = EntryStream { id: s.last_id(), phase: ldap_sync::Phase::Streaming };
    assert_eq!(other.next(&mut conn), Err(LdapError::ExclusiveAccessError));

    assert_eq!(s.next_complete(&mut conn, t, Ok(Some(entry(1)))), Ok(Some(entry(1))));
    // Released: the facade works again.
    let ex = conn.abandon(s.last_id()).unwrap();
    assert_eq!(conn.complete_abandon(ex, Ok(())), Ok(()));
}

#[test]
fn stream_failures_pass_through_verbatim() {
    let mut conn = connected();
    let mut s = start_stream(&mut conn);
    let r = round(
        &mut s,
        &mut conn,
        Err(LdapError::ProtocolError { rc: 11, text: "limit exceeded".to_string() }),
    );
    assert_eq!(r, Err(LdapError::ProtocolError { rc: 11, text: "limit exceeded".to_string() }));
    // The stream is still streaming: the error did not end it.
    assert_eq!(round(&mut s, &mut conn, Ok(None)), Ok(None));
}

#[test]
fn mismatched_fetch_completion_is_a_sequence_error() {
    let mut conn = connected();
    let mut s = start_stream(&mut conn);
    let t = match s.next(&mut conn).unwrap() {
        NextAction::Fetch(t) => t,
        NextAction::Sentinel => panic!("stream ended before it began"),
    };
    let wrong = ldap_sync::FetchTicket { id: t.id + 1 };
    assert_eq!(
        s.next_complete(&mut conn, wrong, Ok(None)),
        Err(LdapError::ProtocolSequenceError)
    );
    // The right ticket still completes.
    assert_eq!(s.next_complete(&mut conn, t, Ok(None)), Ok(None));
}

#[test]
fn closed_session_stops_the_stream() {
    let mut conn = connected();
    let mut s = start_stream(&mut conn);
    let ex = conn.unbind().unwrap();
    conn.complete_unbind(ex, Ok(())).unwrap();

    assert_eq!(s.next(&mut conn), Err(LdapError::SessionClosed));
    assert_eq!(s.result(&conn, ok_result()), Err(LdapError::SessionClosed));
}

#[test]
fn a_timed_out_fetch_kills_the_stream() {
    let mut conn = connected();
    let mut s = start_stream(&mut conn);
    assert_eq!(round(&mut s, &mut conn, Err(LdapError::Timeout)), Err(LdapError::Timeout));
    // The request was given up on and counts as abandoned: the stream
    // yields no further entries, and the facade itself is free again.
    assert_eq!(s.next(&mut conn), Err(LdapError::Abandoned));
    let ex = conn.delete("cn=x".to_string()).unwrap();
    assert!(conn.complete_result(ex, Ok(ok_result())).is_ok());
}
