//! The TLS engine: what is taken for granted of `rustls`, and the two ways in
//! which the worker drives it.
//!
//! A client connection is seen as a store of bytes. Bytes read in wait to be
//! processed; bytes that processing produced wait to be written out. With it
//! goes whether the handshake is still under way, whether either side has sent
//! an alert that ends the connection, and whether the connection has failed.

use vstd::prelude::*;

verus! {

/// A client connection of `rustls`.
#[verifier::external_type_specification]
#[verifier::external_body]
pub struct ExClientConnection(rustls::client::ClientConnection);

/// The protocol error of `rustls`.
#[verifier::external_type_specification]
#[verifier::external_body]
pub struct ExTlsError(rustls::Error);

/// The I/O error of the standard library.
#[verifier::external_type_specification]
#[verifier::external_body]
pub struct ExIoError(std::io::Error);

/// The bytes that the connection holds for the peer.
pub uninterp spec fn tls_outgoing(conn: rustls::client::ClientConnection) -> Seq<u8>;

/// The bytes from the peer that the connection holds unprocessed.
pub uninterp spec fn tls_incoming(conn: rustls::client::ClientConnection) -> Seq<u8>;

/// Whether the connection is still performing the TLS handshake.
pub uninterp spec fn tls_handshaking(conn: rustls::client::ClientConnection) -> bool;

/// Whether the peer has announced that it sends no more.
pub uninterp spec fn tls_peer_closed(conn: rustls::client::ClientConnection) -> bool;

/// Whether the connection has sent an alert that ends it.
pub uninterp spec fn tls_alert_sent(conn: rustls::client::ClientConnection) -> bool;

/// Whether the records left under the connection's keys, those that it has and
/// those that it may agree on, may run out while it processes something.
pub uninterp spec fn tls_keys_low(conn: rustls::client::ClientConnection) -> bool;

/// The `Debug` rendering of the protocol error that the connection failed with,
/// if it has failed.
pub uninterp spec fn tls_failure(conn: rustls::client::ClientConnection) -> Option<Seq<char>>;

/// The `Debug` rendering of a protocol error.
pub uninterp spec fn tls_error_debug(e: rustls::Error) -> Seq<char>;

/// How many bytes of `data` the connection takes in when it is offered them, or
/// how it is shown why it refuses.
pub uninterp spec fn tls_taken(conn: rustls::client::ClientConnection, data: Seq<u8>) -> Result<
    nat,
    Seq<char>,
>;

/// How many outgoing bytes the connection gives up at once.
pub uninterp spec fn tls_flight_len(conn: rustls::client::ClientConnection) -> nat;

/// `ConnectionCommon::write_tls`, with a byte vector as the writer, which takes
/// whatever it is given, so that writing succeeds. The first `n` outgoing bytes
/// have then moved from the connection to the end of `buf`, at least one if
/// there are any; the connection alone decides how many. Nothing else that is
/// named here of a connection changes.
#[verifier::external_body]
fn write_tls(conn: &mut rustls::client::ClientConnection, buf: &mut Vec<u8>) -> (r: Result<
    usize,
    std::io::Error,
>)
    ensures
        r is Ok,
        r matches Ok(n) ==> {
            &&& n == tls_flight_len(*old(conn))
            &&& n <= tls_outgoing(*old(conn)).len()
            &&& tls_outgoing(*old(conn)).len() > 0 ==> n > 0
            &&& final(buf)@ == old(buf)@ + tls_outgoing(*old(conn)).take(n as int)
            &&& tls_outgoing(*final(conn)) == tls_outgoing(*old(conn)).skip(n as int)
        },
        tls_incoming(*final(conn)) == tls_incoming(*old(conn)),
        tls_handshaking(*final(conn)) == tls_handshaking(*old(conn)),
        tls_peer_closed(*final(conn)) == tls_peer_closed(*old(conn)),
        tls_alert_sent(*final(conn)) == tls_alert_sent(*old(conn)),
        tls_keys_low(*final(conn)) == tls_keys_low(*old(conn)),
        tls_failure(*final(conn)) == tls_failure(*old(conn)),
{
    conn.write_tls(buf)
}

/// `ConnectionCommon::read_tls`, with a cursor over `data` as the reader. The
/// connection and the data decide whether it succeeds, how many bytes it takes,
/// and how its error is shown. On success the first `n` bytes of `data` have
/// joined the end of the incoming bytes. As long as the peer has not closed,
/// that is at least one if there are any, and all of up to 4096 that fit a
/// buffer of 18432. An error leaves the incoming bytes alone. Nothing else that
/// is named here of a connection changes, whatever the outcome.
#[verifier::external_body]
fn read_tls(conn: &mut rustls::client::ClientConnection, data: &Vec<u8>) -> (r: Result<
    usize,
    std::io::Error,
>)
    ensures
        r matches Ok(n) ==> {
            &&& tls_taken(*old(conn), data@) == Ok::<nat, Seq<char>>(n as nat)
            &&& n <= data@.len()
            &&& data@.len() > 0 && !tls_peer_closed(*old(conn)) ==> n > 0
            &&& data@.len() <= 4096 && tls_incoming(*old(conn)).len() + data@.len() <= 18432
                && !tls_peer_closed(*old(conn)) ==> n == data@.len()
            &&& tls_incoming(*final(conn)) == tls_incoming(*old(conn)) + data@.take(n as int)
        },
        r matches Err(e) ==> {
            &&& tls_taken(*old(conn), data@) is Err
            &&& forall|text: String| #[trigger]
                vstd::string::to_string_from_display_ensures(&e, text) ==> text@ == tls_taken(
                    *old(conn),
                    data@,
                )->Err_0
            &&& tls_incoming(*final(conn)) == tls_incoming(*old(conn))
        },
        tls_outgoing(*final(conn)) == tls_outgoing(*old(conn)),
        tls_handshaking(*final(conn)) == tls_handshaking(*old(conn)),
        tls_peer_closed(*final(conn)) == tls_peer_closed(*old(conn)),
        tls_alert_sent(*final(conn)) == tls_alert_sent(*old(conn)),
        tls_keys_low(*final(conn)) == tls_keys_low(*old(conn)),
        tls_failure(*final(conn)) == tls_failure(*old(conn)),
{
    conn.read_tls(&mut std::io::Cursor::new(data.as_slice()))
}

/// Whether the connection can be asked to process packets. One that has failed
/// only repeats its error. Any other may have to send an alert, and takes it for
/// granted that it has not sent one yet and that its keys last.
pub open spec fn tls_may_process(conn: rustls::client::ClientConnection) -> bool {
    tls_failure(conn) is Some || (!tls_alert_sent(conn) && !tls_keys_low(conn))
}

/// `ConnectionCommon::process_new_packets`, and `IoState::peer_has_closed` of
/// what it returns. `rustls` asserts that a connection sends one closing alert
/// at most and never runs out of keys, so connections on which that can fail
/// are left out. On success the answer agrees with the connection that is left
/// behind, and no closing alert was sent; an error is kept by the connection,
/// which has then failed for good. Outgoing bytes are only ever added, at the
/// end; incoming bytes are only ever used up; a handshake that is over stays
/// over, and a side that has closed stays closed. Which packets succeed depends
/// on keys, certificates and the clock, and is not said; nor is it said which
/// incoming bytes are left.
#[verifier::external_body]
fn process_new_packets(conn: &mut rustls::client::ClientConnection) -> (r: Result<
    bool,
    rustls::Error,
>)
    requires
        tls_may_process(*old(conn)),
    ensures
        r matches Ok(closed) ==> {
            &&& closed == tls_peer_closed(*final(conn))
            &&& tls_failure(*final(conn)) is None
            &&& !tls_alert_sent(*final(conn))
        },
        r matches Err(e) ==> tls_failure(*final(conn)) == Some(tls_error_debug(e)),
        tls_failure(*old(conn)) is Some ==> tls_failure(*final(conn)) == tls_failure(*old(conn)),
        tls_outgoing(*old(conn)).is_prefix_of(tls_outgoing(*final(conn))),
        tls_incoming(*final(conn)).len() <= tls_incoming(*old(conn)).len(),
        !tls_handshaking(*old(conn)) ==> !tls_handshaking(*final(conn)),
        tls_peer_closed(*old(conn)) ==> tls_peer_closed(*final(conn)),
        tls_alert_sent(*old(conn)) ==> tls_alert_sent(*final(conn)),
{
    conn.process_new_packets().map(|state| state.peer_has_closed())
}

/// `CommonState::is_handshaking`.
#[verifier::external_body]
fn is_handshaking(conn: &rustls::client::ClientConnection) -> (r: bool)
    ensures
        r == tls_handshaking(*conn),
{
    conn.is_handshaking()
}

/// `CommonState::wants_write`: whether any outgoing bytes are held.
#[verifier::external_body]
pub(crate) fn wants_write(conn: &rustls::client::ClientConnection) -> (r: bool)
    ensures
        r == (tls_outgoing(*conn).len() > 0),
{
    conn.wants_write()
}

/// The `Debug` implementation of `rustls::Error`, whose text is the error's
/// rendering.
#[verifier::external_body]
fn tls_error_text(e: &rustls::Error) -> (r: String)
    ensures
        r@ == tls_error_debug(*e),
{
    format!("{e:?}")
}

/// What came of handing a piece of the handshake to the TLS engine.
#[derive(Debug, PartialEq, Eq)]
pub enum TlsReport {
    /// The bytes could not be taken in, for this reason.
    ReadFailed(String),
    /// The packets were not acceptable, for this reason.
    ProtocolFailed(String),
    /// The packets were processed.
    Processed {
        /// Whether the peer has closed its side.
        peer_closed: bool,
        /// Whether the handshake is still under way.
        handshaking: bool,
    },
}

/// Whether `mid` is `pre` after it was offered `data` and took `n` bytes of it.
pub open spec fn tls_read(
    pre: rustls::client::ClientConnection,
    data: Seq<u8>,
    n: int,
    mid: rustls::client::ClientConnection,
) -> bool {
    &&& 0 <= n <= data.len()
    &&& tls_taken(pre, data) == Ok::<nat, Seq<char>>(n as nat)
    &&& data.len() > 0 && !tls_peer_closed(pre) ==> n > 0
    &&& data.len() <= 4096 && tls_incoming(pre).len() + data.len() <= 18432 && !tls_peer_closed(pre)
        ==> n == data.len()
    &&& tls_incoming(mid) == tls_incoming(pre) + data.take(n)
    &&& tls_outgoing(mid) == tls_outgoing(pre)
    &&& tls_handshaking(mid) == tls_handshaking(pre)
    &&& tls_peer_closed(mid) == tls_peer_closed(pre)
    &&& tls_alert_sent(mid) == tls_alert_sent(pre)
    &&& tls_keys_low(mid) == tls_keys_low(pre)
    &&& tls_failure(mid) == tls_failure(pre)
}

/// Whether `post` may be `pre` after packets were processed.
pub open spec fn tls_processed(
    pre: rustls::client::ClientConnection,
    post: rustls::client::ClientConnection,
) -> bool {
    &&& tls_outgoing(pre).is_prefix_of(tls_outgoing(post))
    &&& tls_incoming(post).len() <= tls_incoming(pre).len()
    &&& !tls_handshaking(pre) ==> !tls_handshaking(post)
    &&& tls_peer_closed(pre) ==> tls_peer_closed(post)
    &&& tls_alert_sent(pre) ==> tls_alert_sent(post)
    &&& tls_failure(pre) is Some ==> tls_failure(post) == tls_failure(pre)
}

/// Whether `report` and `post` may come of handing `data` to `pre`: the data
/// is read in, once, and then processed, and the report is true of the
/// connection afterwards.
pub open spec fn tls_absorbed(
    pre: rustls::client::ClientConnection,
    data: Seq<u8>,
    report: TlsReport,
    post: rustls::client::ClientConnection,
) -> bool {
    match report {
        TlsReport::ReadFailed(text) => {
            &&& tls_taken(pre, data) == Err::<nat, Seq<char>>(text@)
            &&& tls_incoming(post) == tls_incoming(pre)
            &&& tls_outgoing(post) == tls_outgoing(pre)
            &&& tls_handshaking(post) == tls_handshaking(pre)
            &&& tls_peer_closed(post) == tls_peer_closed(pre)
            &&& tls_alert_sent(post) == tls_alert_sent(pre)
            &&& tls_keys_low(post) == tls_keys_low(pre)
            &&& tls_failure(post) == tls_failure(pre)
        },
        TlsReport::ProtocolFailed(text) => {
            &&& tls_failure(post) == Some(text@)
            &&& exists|mid: rustls::client::ClientConnection, n: int| #[trigger]
                tls_read(pre, data, n, mid) && tls_processed(mid, post)
        },
        TlsReport::Processed { peer_closed, handshaking } => {
            &&& exists|mid: rustls::client::ClientConnection, n: int| #[trigger]
                tls_read(pre, data, n, mid) && tls_processed(mid, post)
            &&& tls_failure(post) is None
            &&& !tls_alert_sent(post)
            &&& peer_closed == tls_peer_closed(post)
            &&& handshaking == tls_handshaking(post)
        },
    }
}

/// Hands `data` from the peer to the TLS engine and has it processed.
pub fn absorb(conn: &mut rustls::client::ClientConnection, data: &Vec<u8>) -> (report: TlsReport)
    requires
        tls_may_process(*old(conn)),
    ensures
        tls_absorbed(*old(conn), data@, report, *final(conn)),
{
    let ghost pre = *conn;
    match read_tls(conn, data) {
        Err(e) => TlsReport::ReadFailed(e.to_string()),
        Ok(n) => {
            let ghost mid = *conn;
            assert(tls_read(pre, data@, n as int, mid));
            match process_new_packets(conn) {
                Err(e) => {
                    assert(tls_processed(mid, *conn));
                    TlsReport::ProtocolFailed(tls_error_text(&e))
                },
                Ok(peer_closed) => {
                    assert(tls_processed(mid, *conn));
                    TlsReport::Processed { peer_closed, handshaking: is_handshaking(conn) }
                },
            }
        },
    }
}

/// Whether `out` and `post` may come of taking outgoing bytes from `pre`. Taking
/// them succeeds; what was taken and what is left make up what there was, and
/// something is taken if there was anything.
pub open spec fn tls_emitted(
    pre: rustls::client::ClientConnection,
    out: Result<Vec<u8>, String>,
    post: rustls::client::ClientConnection,
) -> bool {
    &&& out is Ok
    &&& out matches Ok(bytes) ==> {
        &&& bytes@.len() == tls_flight_len(pre)
        &&& bytes@ + tls_outgoing(post) == tls_outgoing(pre)
        &&& tls_outgoing(pre).len() > 0 ==> bytes@.len() > 0
    }
    &&& tls_incoming(post) == tls_incoming(pre)
    &&& tls_handshaking(post) == tls_handshaking(pre)
    &&& tls_peer_closed(post) == tls_peer_closed(pre)
    &&& tls_alert_sent(post) == tls_alert_sent(pre)
    &&& tls_keys_low(post) == tls_keys_low(pre)
    &&& tls_failure(post) == tls_failure(pre)
}

/// Takes outgoing bytes from the TLS engine.
pub fn emit(conn: &mut rustls::client::ClientConnection) -> (out: Result<Vec<u8>, String>)
    ensures
        tls_emitted(*old(conn), out, *final(conn)),
{
    let ghost pre = *conn;
    let mut buf: Vec<u8> = Vec::new();
    match write_tls(conn, &mut buf) {
        Err(e) => Err(e.to_string()),
        Ok(n) => {
            assert(buf@ + tls_outgoing(*conn) =~= tls_outgoing(pre));
            Ok(buf)
        },
    }
}

} // verus!
