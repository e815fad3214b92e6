//! Wire codec: the JSON text of each request, and decoding of replies.
use vstd::prelude::*;
use vstd::string::*;

verus! {

/// A colour value: red, green, blue, warm white and cool white channels.
#[derive(Clone, Copy, Debug, PartialEq, Eq, Structural)]
pub struct RGBCW {
    pub r: u8,
    pub g: u8,
    pub b: u8,
    pub w: u8,
    pub c: u8,
}

/// The character of a decimal digit.
pub open spec fn digit_char(d: nat) -> char {
    if d == 0 { '0' } else if d == 1 { '1' } else if d == 2 { '2' } else if d == 3 { '3' }
    else if d == 4 { '4' } else if d == 5 { '5' } else if d == 6 { '6' } else if d == 7 { '7' }
    else if d == 8 { '8' } else { '9' }
}

/// The decimal text of a natural number, without leading zeros.
pub open spec fn decimal(n: nat) -> Seq<char>
    decreases n,
{
    if n < 10 {
        seq![digit_char(n)]
    } else {
        decimal(n / 10) + seq![digit_char(n % 10)]
    }
}

/// The text of one decimal digit.
fn digit_text(d: u8) -> (r: &'static str)
    requires
        d < 10,
    ensures
        r@ == seq![digit_char(d as nat)],
{
    proof {
        reveal_strlit("0"); reveal_strlit("1"); reveal_strlit("2"); reveal_strlit("3");
        reveal_strlit("4"); reveal_strlit("5"); reveal_strlit("6"); reveal_strlit("7");
        reveal_strlit("8"); reveal_strlit("9");
    }
    match d {
        0 => "0",
        1 => "1",
        2 => "2",
        3 => "3",
        4 => "4",
        5 => "5",
        6 => "6",
        7 => "7",
        8 => "8",
        _ => "9",
    }
}

/// Appends the decimal text of `n` to `out`.
fn push_decimal(out: &mut String, n: u8)
    ensures
        final(out)@ == old(out)@ + decimal(n as nat),
{
    if n >= 100 {
        let ghost m = n as nat;
        assert(m / 10 / 10 == m / 100 && m / 100 < 10 && m / 10 >= 10);
        assert(decimal(m / 10) == decimal(m / 100) + seq![digit_char((m / 10) % 10)]);
        out.append(digit_text(n / 100));
        out.append(digit_text((n / 10) % 10));
        out.append(digit_text(n % 10));
        assert(out@ =~= old(out)@ + decimal(m));
    } else if n >= 10 {
        out.append(digit_text(n / 10));
        out.append(digit_text(n % 10));
        assert(decimal(n as nat / 10) == seq![digit_char(n as nat / 10)]);
        assert(out@ =~= old(out)@ + decimal(n as nat));
    } else {
        out.append(digit_text(n));
    }
}

/// The text of a `setPilot` request that sets all five channels.
pub open spec fn set_color_text(c: RGBCW) -> Seq<char> {
    "{\"id\":1,\"method\":\"setPilot\",\"params\":{\"r\":"@ + decimal(c.r as nat) + ",\"g\":"@
        + decimal(c.g as nat) + ",\"b\":"@ + decimal(c.b as nat) + ",\"w\":"@ + decimal(
        c.w as nat,
    ) + ",\"c\":"@ + decimal(c.c as nat) + "}}"@
}

/// Encodes a request that sets the colour of a device.
pub fn encode_set_color(c: &RGBCW) -> (r: String)
    ensures
        r@ == set_color_text(*c),
{
    let mut out = String::from_str("{\"id\":1,\"method\":\"setPilot\",\"params\":{\"r\":");
    push_decimal(&mut out, c.r);
    out.append(",\"g\":");
    push_decimal(&mut out, c.g);
    out.append(",\"b\":");
    push_decimal(&mut out, c.b);
    out.append(",\"w\":");
    push_decimal(&mut out, c.w);
    out.append(",\"c\":");
    push_decimal(&mut out, c.c);
    out.append("}}");
    out
}

/// The text of a `setState` request that switches a device on or off.
pub open spec fn set_power_text(on: bool) -> Seq<char> {
    "{\"id\":1,\"method\":\"setState\",\"params\":{\"state\":"@ + (if on {
        "true"@
    } else {
        "false"@
    }) + "}}"@
}

/// Encodes a request that switches a device on or off.
pub fn encode_set_power(on: bool) -> (r: String)
    ensures
        r@ == set_power_text(on),
{
    let mut out = String::from_str("{\"id\":1,\"method\":\"setState\",\"params\":{\"state\":");
    if on {
        out.append("true");
    } else {
        out.append("false");
    }
    out.append("}}");
    out
}

/// The text of a `getPilot` request, which asks a device for its state.
pub open spec fn get_status_text() -> Seq<char> {
    "{\"method\":\"getPilot\",\"params\":{}}"@
}

/// Encodes a request that asks a device for its current state.
pub fn encode_get_status() -> (r: String)
    ensures
        r@ == get_status_text(),
{
    String::from_str("{\"method\":\"getPilot\",\"params\":{}}")
}

/// The first index at or after `i` that does not start a run of NUL bytes
/// reaching it.
pub open spec fn lead_end(p: Seq<u8>, i: int) -> int
    decreases p.len() - i,
{
    if 0 <= i < p.len() && p[i] == 0 {
        lead_end(p, i + 1)
    } else {
        i
    }
}

/// The end of `p[lo..j]` once the NUL bytes at its end are cut off.
pub open spec fn tail_end(p: Seq<u8>, lo: int, j: int) -> int
    decreases j - lo,
{
    if lo < j <= p.len() && p[j - 1] == 0 {
        tail_end(p, lo, j - 1)
    } else {
        j
    }
}

/// A received payload without the NUL padding at either end.
pub open spec fn nul_trimmed(p: Seq<u8>) -> Seq<u8> {
    let lo = lead_end(p, 0);
    p.subrange(lo, tail_end(p, lo, p.len() as int))
}

/// Strips the NUL padding that a fixed-size receive buffer leaves at either
/// end of a payload.
pub fn trim_nul(p: &[u8]) -> (r: Vec<u8>)
    ensures
        r@ == nul_trimmed(p@),
{
    let mut lo: usize = 0;
    while lo < p.len() && p[lo] == 0
        invariant
            lo <= p@.len(),
            lead_end(p@, 0) == lead_end(p@, lo as int),
        decreases p.len() - lo,
    {
        lo = lo + 1;
    }
    assert(lead_end(p@, lo as int) == lo as int);
    let mut hi: usize = p.len();
    while hi > lo && p[hi - 1] == 0
        invariant
            lo <= hi <= p@.len(),
            tail_end(p@, lo as int, p@.len() as int) == tail_end(p@, lo as int, hi as int),
        decreases hi,
    {
        hi = hi - 1;
    }
    assert(tail_end(p@, lo as int, hi as int) == hi as int);
    let mut out: Vec<u8> = Vec::new();
    let mut k: usize = lo;
    while k < hi
        invariant
            lo <= k <= hi <= p@.len(),
            out@ == p@.subrange(lo as int, k as int),
        decreases hi - k,
    {
        out.push(p[k]);
        k = k + 1;
        assert(out@ =~= p@.subrange(lo as int, k as int));
    }
    out
}

/// What a device's reply holds as a non-negative integer at `outer.key`,
/// when the payload is a JSON document with such a member.
pub uninterp spec fn json_u64_at(payload: Seq<u8>, outer: Seq<char>, key: Seq<char>) -> Option<u64>;

/// Relies on `serde_json::from_slice` (into `serde_json::Value`), then
/// `Value::get` twice and `Value::as_u64`: the integer at `outer.key`, or
/// `None` when the payload is not JSON or holds no such integer.
#[verifier::external_body]
fn json_u64_member(payload: &[u8], outer: &str, key: &str) -> (r: Option<u64>)
    ensures
        r == json_u64_at(payload@, outer@, key@),
        payload@.len() == 0 ==> r is None,
{
    let v: serde_json::Value = serde_json::from_slice(payload).ok()?;
    v.get(outer)?.get(key)?.as_u64()
}

/// Why a status reply could not be decoded.
#[derive(Clone, Copy, Debug, PartialEq, Eq, Structural)]
pub enum DecodeError {
    /// The payload is not JSON, or a channel is missing or not a
    /// non-negative integer.
    MissingField,
    /// A channel holds an integer above 255.
    OutOfRange,
}

/// One channel, from what the reply holds for it.
pub open spec fn channel_of(v: Option<u64>) -> Result<u8, DecodeError> {
    match v {
        None => Err(DecodeError::MissingField),
        Some(x) => if x <= 255 {
            Ok(x as u8)
        } else {
            Err(DecodeError::OutOfRange)
        },
    }
}

/// The colour that five channel readings give; the first failing channel,
/// in the order r, g, b, c, w, decides the error.
pub open spec fn color_of_fields(
    r: Option<u64>,
    g: Option<u64>,
    b: Option<u64>,
    c: Option<u64>,
    w: Option<u64>,
) -> Result<RGBCW, DecodeError> {
    match (channel_of(r), channel_of(g), channel_of(b), channel_of(c), channel_of(w)) {
        (Ok(r), Ok(g), Ok(b), Ok(c), Ok(w)) => Ok(RGBCW { r, g, b, w, c }),
        (Err(e), _, _, _, _) => Err(e),
        (_, Err(e), _, _, _) => Err(e),
        (_, _, Err(e), _, _) => Err(e),
        (_, _, _, Err(e), _) => Err(e),
        (_, _, _, _, Err(e)) => Err(e),
    }
}

/// What a status reply decodes to.
pub open spec fn status_of(p: Seq<u8>) -> Result<RGBCW, DecodeError> {
    let t = nul_trimmed(p);
    color_of_fields(
        json_u64_at(t, "result"@, "r"@),
        json_u64_at(t, "result"@, "g"@),
        json_u64_at(t, "result"@, "b"@),
        json_u64_at(t, "result"@, "c"@),
        json_u64_at(t, "result"@, "w"@),
    )
}

fn channel(v: Option<u64>) -> (r: Result<u8, DecodeError>)
    ensures
        r == channel_of(v),
{
    match v {
        None => Err(DecodeError::MissingField),
        Some(x) => if x <= 255 {
            Ok(x as u8)
        } else {
            Err(DecodeError::OutOfRange)
        },
    }
}

/// Builds a colour from the five channel readings of a status reply.
pub fn status_from_fields(
    r: Option<u64>,
    g: Option<u64>,
    b: Option<u64>,
    c: Option<u64>,
    w: Option<u64>,
) -> (res: Result<RGBCW, DecodeError>)
    ensures
        res == color_of_fields(r, g, b, c, w),
{
    let r = channel(r)?;
    let g = channel(g)?;
    let b = channel(b)?;
    let c = channel(c)?;
    let w = channel(w)?;
    Ok(RGBCW { r, g, b, w, c })
}

/// Decodes the reply to a `getPilot` request into the colour it reports.
pub fn decode_status(p: &[u8]) -> (res: Result<RGBCW, DecodeError>)
    ensures
        res == status_of(p@),
        nul_trimmed(p@).len() == 0 ==> res == Err::<RGBCW, DecodeError>(DecodeError::MissingField),
{
    let t = trim_nul(p);
    let s = t.as_slice();
    let r = json_u64_member(s, "result", "r");
    let g = json_u64_member(s, "result", "g");
    let b = json_u64_member(s, "result", "b");
    let c = json_u64_member(s, "result", "c");
    let w = json_u64_member(s, "result", "w");
    status_from_fields(r, g, b, c, w)
}

/// Whether a reply acknowledges a command: any non-empty reply does.
pub fn decode_ack(p: &[u8]) -> (r: bool)
    ensures
        r == (p@.len() > 0),
{
    p.len() > 0
}

/// A reply that reports a colour's five channels as integers decodes back
/// to that colour.
pub proof fn lemma_fields_round_trip(c: RGBCW)
    ensures
        color_of_fields(
            Some(c.r as u64),
            Some(c.g as u64),
            Some(c.b as u64),
            Some(c.c as u64),
            Some(c.w as u64),
        ) == Ok::<RGBCW, DecodeError>(c),
{
}

} // verus!
