//! Discovery: the roster of devices that answered a broadcast status query.
//!
//! A scan sends `discovery_request` to the broadcast endpoint and collects
//! datagrams until a receive times out; the roster is then built from what
//! came back, one entry per datagram, in the order received.
use vstd::prelude::*;
use vstd::utf8::{valid_utf8, decode_utf8};
use crate::codec::{encode_get_status, get_status_text, nul_trimmed, trim_nul};

verus! {

/// Where a reply carries the device's identifier (its MAC address as twelve
/// hex digits): a fixed byte range of the NUL-trimmed payload.
pub const MAC_START: usize = 50;

/// One past the last byte of the identifier.
pub const MAC_END: usize = 62;

/// A device found by a scan: the endpoint it answered from, and its
/// identifier.
#[derive(Clone, Debug)]
pub struct WiFiDevice {
    pub ip_addr: String,
    pub mac: String,
}

/// One datagram received during a scan.
#[derive(Debug)]
pub struct Datagram {
    /// The endpoint it came from, as text.
    pub source: String,
    /// The bytes it held.
    pub payload: Vec<u8>,
}

/// The identifier a reply carries: the text of bytes 50 to 62 of the trimmed
/// payload, or empty when the payload is shorter or those bytes are not
/// UTF-8.
pub open spec fn mac_of(p: Seq<u8>) -> Seq<char> {
    let t = nul_trimmed(p);
    if t.len() >= MAC_END && valid_utf8(t.subrange(MAC_START as int, MAC_END as int)) {
        decode_utf8(t.subrange(MAC_START as int, MAC_END as int))
    } else {
        Seq::empty()
    }
}

/// The roster entry that one datagram gives.
pub open spec fn entry_matches(d: WiFiDevice, g: Datagram) -> bool {
    d.ip_addr@ == g.source@ && d.mac@ == mac_of(g.payload@)
}

/// Relies on `String::from_utf8`: the string of the bytes when they are
/// UTF-8, else `None`.
#[verifier::external_body]
fn utf8_string(b: Vec<u8>) -> (r: Option<String>)
    ensures
        r is Some <==> valid_utf8(b@),
        r is Some ==> r->0@ == decode_utf8(b@),
{
    match String::from_utf8(b) {
        Ok(s) => Some(s),
        Err(_) => None,
    }
}

/// The request a scan broadcasts: a status query, which every device
/// answers.
pub fn discovery_request() -> (r: String)
    ensures
        r@ == get_status_text(),
{
    encode_get_status()
}

/// The endpoint a scan broadcasts to.
pub fn discovery_endpoint() -> (r: String)
    ensures
        r@ == "255.255.255.255:38899"@,
{
    String::from_str("255.255.255.255:38899")
}

/// Extracts the identifier from a reply.
pub fn extract_mac(p: &[u8]) -> (r: String)
    ensures
        r@ == mac_of(p@),
{
    let t = trim_nul(p);
    if t.len() < MAC_END {
        return String::new();
    }
    let mut id: Vec<u8> = Vec::new();
    let mut k: usize = MAC_START;
    while k < MAC_END
        invariant
            MAC_START <= k <= MAC_END <= t@.len(),
            id@ == t@.subrange(MAC_START as int, k as int),
        decreases MAC_END - k,
    {
        id.push(t[k]);
        k = k + 1;
        assert(id@ =~= t@.subrange(MAC_START as int, k as int));
    }
    match utf8_string(id) {
        Some(s) => s,
        None => String::new(),
    }
}

/// The roster a scan yields: one device per datagram received, in order.
pub fn discover_devices(replies: &Vec<Datagram>) -> (r: Vec<WiFiDevice>)
    ensures
        r@.len() == replies@.len(),
        forall|i: int| 0 <= i < r@.len() ==> #[trigger] entry_matches(r@[i], replies@[i]),
{
    let mut list: Vec<WiFiDevice> = Vec::new();
    let mut n: usize = 0;
    while n < replies.len()
        invariant
            n <= replies@.len(),
            list@.len() == n,
            forall|i: int| 0 <= i < n ==> #[trigger] entry_matches(list@[i], replies@[i]),
        decreases replies.len() - n,
    {
        let g = &replies[n];
        let device = WiFiDevice { ip_addr: g.source.clone(), mac: extract_mac(g.payload.as_slice()) };
        list.push(device);
        n = n + 1;
    }
    list
}

} // verus!
