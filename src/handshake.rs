//! The WebSocket upgrade request and the timing of a connection.
use vstd::prelude::*;
use base64::Engine;

verus! {

/// How long the upgrade may take, in seconds.
pub const CONNECT_TIMEOUT_SECS: u64 = 5;

/// The keepalive interval, in seconds.
pub const KEEPALIVE_SECS: u64 = 15;

/// How many commands the inbox holds before a sender waits.
pub const INBOX_CAPACITY: usize = 100;

/// Padded standard base64 text of a byte string.
pub uninterp spec fn base64_standard(b: Seq<u8>) -> Seq<char>;

/// Relies on base64's `general_purpose::STANDARD` engine `encode`: the padded
/// standard base64 text of the bytes, which depends on them alone.
#[verifier::external_body]
fn encode_base64(b: &[u8]) -> (r: String)
    ensures
        r@ == base64_standard(b@),
{
    base64::engine::general_purpose::STANDARD.encode(b)
}

/// Relies on `rand::random`: sixteen bytes from the thread-local generator,
/// of which nothing is known.
#[verifier::external_body]
fn random_nonce() -> (r: [u8; 16]) {
    rand::random()
}

/// The `Sec-WebSocket-Key` of an upgrade: the base64 text of a nonce.
pub fn websocket_key(nonce: &[u8; 16]) -> (r: String)
    ensures
        r@ == base64_standard(nonce@),
{
    encode_base64(nonce.as_slice())
}

/// A `Sec-WebSocket-Key` made from a fresh random nonce.
pub fn new_websocket_key() -> (r: String)
    ensures
        exists|n: Seq<u8>| n.len() == 16 && r@ == base64_standard(n),
{
    let nonce = random_nonce();
    let r = websocket_key(&nonce);
    assert(nonce@.len() == 16);
    r
}

/// The headers of an upgrade request, in order.
pub open spec fn upgrade_header_list(host: Seq<char>, key: Seq<char>) -> Seq<(Seq<char>, Seq<char>)> {
    seq![
        ("Host"@, host),
        ("Connection"@, "Upgrade"@),
        ("Upgrade"@, "websocket"@),
        ("Sec-WebSocket-Version"@, "13"@),
        ("Sec-WebSocket-Key"@, key),
    ]
}

pub open spec fn headers_view(hs: Seq<(String, String)>) -> Seq<(Seq<char>, Seq<char>)> {
    hs.map_values(|h: (String, String)| (h.0@, h.1@))
}

fn header(name: &str, value: &str) -> (r: (String, String))
    ensures
        r.0@ == name@,
        r.1@ == value@,
{
    (String::from_str(name), String::from_str(value))
}

/// The headers of the upgrade request to `host` with the given key.
pub fn upgrade_headers(host: &str, key: &str) -> (r: Vec<(String, String)>)
    ensures
        headers_view(r@) == upgrade_header_list(host@, key@),
{
    let mut hs: Vec<(String, String)> = Vec::new();
    hs.push(header("Host", host));
    hs.push(header("Connection", "Upgrade"));
    hs.push(header("Upgrade", "websocket"));
    hs.push(header("Sec-WebSocket-Version", "13"));
    hs.push(header("Sec-WebSocket-Key", key));
    assert(headers_view(hs@) =~= upgrade_header_list(host@, key@));
    hs
}

} // verus!
