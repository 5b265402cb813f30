use vstd::prelude::*;

verus! {

/// Application protocol identifier that both peers present during the
/// handshake; a peer presenting another one is refused.
pub const ALPN: &'static str = "freven-quic-test";

/// Payload the client sends in its single exchange.
pub const PROBE_PAYLOAD: &'static str = "ping";

/// Seconds the client waits for the echoed response.
pub const EXCHANGE_TIMEOUT_SECS: u64 = 5;

/// Largest number of response bytes the client reads back from a stream.
pub const STREAM_READ_BUDGET: usize = 65536;

/// Size of the buffer each stream echo task reads into.
pub const STREAM_CHUNK_SIZE: usize = 16384;

/// Transport buffer for inbound datagrams, in bytes.
pub const DATAGRAM_RECEIVE_BUFFER: usize = 65536;

/// Transport buffer for outbound datagrams, in bytes.
pub const DATAGRAM_SEND_BUFFER: usize = 2097152;

/// Shown in place of a protocol when the handshake negotiated none.
pub const NO_PROTOCOL: &'static str = "<none>";

/// The bytes of an ASCII text, one per character.
pub open spec fn ascii_bytes(s: Seq<char>) -> Seq<u8> {
    s.map_values(|c: char| c as u8)
}

/// What `String::from_utf8_lossy` makes of these bytes.
pub uninterp spec fn utf8_lossy_of(b: Seq<u8>) -> Seq<char>;

/// Relies on `String::from_utf8_lossy`: the text depends on the bytes alone,
/// and bytes that are valid UTF-8, as ASCII is, come back unchanged.
#[verifier::external_body]
fn utf8_lossy(b: &[u8]) -> (r: String)
    ensures
        r@ == utf8_lossy_of(b@),
        (forall|i: int| 0 <= i < b@.len() ==> b@[i] < 128) ==> r@ == b@.map_values(
            |x: u8| x as char,
        ),
{
    String::from_utf8_lossy(b).into_owned()
}

/// The protocol identifier as the bytes offered during negotiation.
pub fn alpn_protocol() -> (r: Vec<u8>)
    ensures
        r@ == ascii_bytes(ALPN@),
{
    proof {
        reveal_strlit("freven-quic-test");
    }
    str_bytes(ALPN)
}

/// The payload the client sends.
pub fn probe_payload() -> (r: Vec<u8>)
    ensures
        r@ == ascii_bytes(PROBE_PAYLOAD@),
{
    proof {
        reveal_strlit("ping");
    }
    str_bytes(PROBE_PAYLOAD)
}

fn str_bytes(s: &str) -> (r: Vec<u8>)
    requires
        s.is_ascii(),
    ensures
        r@ == ascii_bytes(s@),
{
    let n = s.unicode_len();
    let mut r: Vec<u8> = Vec::new();
    let mut i: usize = 0;
    while i < n
        invariant
            s.is_ascii(),
            n == s@.len(),
            i <= n,
            r@ == ascii_bytes(s@.take(i as int)),
        decreases n - i,
    {
        r.push(s.get_ascii(i));
        proof {
            vstd::string::is_ascii_spec_bytes(s);
        }
        assert(ascii_bytes(s@.take(i + 1)) =~= ascii_bytes(s@.take(i as int)).push(
            s@[i as int] as u8,
        ));
        i = i + 1;
    }
    assert(s@.take(n as int) =~= s@);
    r
}

/// The negotiated protocol as shown to the user: its bytes read as UTF-8,
/// with invalid sequences replaced, or a marker when none was negotiated.
pub fn protocol_label(proto: Option<Vec<u8>>) -> (r: String)
    ensures
        r@ == match proto {
            Some(p) => utf8_lossy_of(p@),
            None => NO_PROTOCOL@,
        },
        proto matches Some(p) && (forall|i: int| 0 <= i < p@.len() ==> p@[i] < 128) ==> r@
            == proto->Some_0@.map_values(|x: u8| x as char),
{
    match proto {
        Some(p) => utf8_lossy(p.as_slice()),
        None => NO_PROTOCOL.to_owned(),
    }
}

} // verus!
