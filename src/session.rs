//! Device session: the state a client keeps about one light, and how each
//! exchange with the device changes it.
//!
//! Each command is two calls: one returns the request text to send, the
//! other takes the outcome of sending it and waiting for a reply.
use vstd::prelude::*;
use vstd::string::*;
use crate::codec::{
    RGBCW,
    DecodeError,
    decode_ack,
    decode_status,
    encode_get_status,
    encode_set_color,
    encode_set_power,
    get_status_text,
    set_color_text,
    set_power_text,
    status_of,
};

verus! {

/// The outcome of the most recent exchange with a device.
#[derive(Clone, Copy, Debug, PartialEq, Eq, Structural)]
pub enum DeviceConnectionStatus {
    DeviceConnected,
    DeviceDisconnected,
    DeviceNotFound,
}

/// The power state the session believes the device is in.
#[derive(Clone, Copy, Debug, PartialEq, Eq, Structural)]
pub enum DeviceLightStatus {
    LightOff,
    LightOn,
}

/// Why a session could not be opened or a query failed.
#[derive(Clone, Copy, Debug, PartialEq, Eq, Structural)]
pub enum SessionError {
    /// The local socket could not be bound.
    BindFailed,
    /// The device did not answer the handshake.
    DeviceUnreachable,
    /// A status query got no usable reply.
    QueryFailed,
    /// The host clock reads before the Unix epoch.
    ClockUnavailable,
}

/// What came of sending one request and waiting for the reply.
#[derive(Debug)]
pub enum Reply {
    /// The request could not be sent.
    SendFailed,
    /// No reply came: the receive timed out or failed.
    ReceiveFailed,
    /// A datagram came back with these bytes.
    Received(Vec<u8>),
}

/// A reply that acknowledges a command: a datagram of nonzero length.
pub open spec fn acknowledged(reply: Reply) -> bool {
    match reply {
        Reply::Received(p) => p@.len() > 0,
        _ => false,
    }
}

/// A reply that answers the handshake: any datagram at all.
pub open spec fn answered(reply: Reply) -> bool {
    reply is Received
}

/// The address and port of a device, from its address alone.
pub open spec fn endpoint_text(ip: Seq<char>) -> Seq<char> {
    ip + ":38899"@
}

/// The all-zero colour a fresh session starts from.
pub open spec fn dark() -> RGBCW {
    RGBCW { r: 0, g: 0, b: 0, w: 0, c: 0 }
}

/// The address of a device with the protocol's port appended.
pub fn device_endpoint(ip: &str) -> (r: String)
    ensures
        r@ == endpoint_text(ip@),
{
    let mut s = String::from_str(ip);
    s.append(":38899");
    s
}

/// The liveness probe sent before a session is opened: a power-on command,
/// as the protocol has no dedicated ping. It switches the device on.
pub fn handshake_request() -> (r: String)
    ensures
        r@ == set_power_text(true),
{
    encode_set_power(true)
}

/// Whether the device answered the handshake probe.
pub fn handshake(reply: &Reply) -> (r: bool)
    ensures
        r == answered(*reply),
{
    match reply {
        Reply::Received(_) => true,
        _ => false,
    }
}

/// Whether a reply acknowledges a command.
fn ack_of(reply: &Reply) -> (r: bool)
    ensures
        r == acknowledged(*reply),
{
    match reply {
        Reply::Received(p) => decode_ack(p.as_slice()),
        _ => false,
    }
}

/// Declares std's `SystemTime`, which only passes through verified code.
#[verifier::external_type_specification]
#[verifier::external_body]
pub struct ExSystemTime(std::time::SystemTime);

/// Relies on `SystemTime::now`: the host's current time, of which nothing is
/// known here.
pub assume_specification[ std::time::SystemTime::now ]() -> std::time::SystemTime;

/// Relies on `SystemTime::duration_since(UNIX_EPOCH)` and `Duration::as_secs`:
/// whole seconds since the epoch, or `None` when `t` lies before it.
#[verifier::external_body]
fn secs_since_epoch(t: &std::time::SystemTime) -> (r: Option<u64>) {
    match t.duration_since(std::time::UNIX_EPOCH) {
        Ok(d) => Some(d.as_secs()),
        Err(_) => None,
    }
}

/// The current time in whole seconds since the Unix epoch; fails only when
/// the host clock reads before the epoch.
pub fn get_unix_time() -> (r: Result<u64, SessionError>)
    ensures
        r is Err ==> r == Err::<u64, SessionError>(SessionError::ClockUnavailable),
{
    let now = std::time::SystemTime::now();
    match secs_since_epoch(&now) {
        Some(s) => Ok(s),
        None => Err(SessionError::ClockUnavailable),
    }
}

/// Opens a session with the device at `ip_addr_n` (an address without a
/// port) from the outcome of the handshake probe sent to its endpoint. A
/// device that did not answer gives `DeviceUnreachable`.
pub fn setup_wiz_light(ip_addr_n: String, probe: &Reply) -> (r: Result<WiZRGBBulb, SessionError>)
    ensures
        !answered(*probe) ==> r == Err::<WiZRGBBulb, SessionError>(SessionError::DeviceUnreachable),
        answered(*probe) ==> (r is Ok || r == Err::<WiZRGBBulb, SessionError>(
            SessionError::ClockUnavailable,
        )),
        r is Ok ==> fresh_session(r->Ok_0, endpoint_text(ip_addr_n@)),
{
    if !handshake(probe) {
        return Err(SessionError::DeviceUnreachable);
    }
    let now = get_unix_time()?;
    Ok(WiZRGBBulb::new(device_endpoint(ip_addr_n.as_str()), now))
}

/// The broadcast endpoint that reaches every device on the local network.
pub open spec fn broadcast_endpoint_text() -> Seq<char> {
    "255.255.255.255:38899"@
}

/// A session addressed to every device at once through the broadcast
/// endpoint. No handshake is made: nothing answers for all devices.
pub fn setup_wiz_multicast() -> (r: Result<WiZRGBBulb, SessionError>)
    ensures
        r is Ok ==> fresh_session(r->Ok_0, broadcast_endpoint_text()),
        r is Err ==> r == Err::<WiZRGBBulb, SessionError>(SessionError::ClockUnavailable),
{
    let now = get_unix_time()?;
    Ok(WiZRGBBulb::new(String::from_str("255.255.255.255:38899"), now))
}

/// A session just opened with `endpoint`: connected, on, colour unread.
pub open spec fn fresh_session(s: WiZRGBBulb, endpoint: Seq<char>) -> bool {
    &&& s.ip_addr@ == endpoint
    &&& s.current_rgbcw == dark()
    &&& s.last_connection_status == DeviceConnectionStatus::DeviceConnected
    &&& s.last_light_status == DeviceLightStatus::LightOn
}

/// How the outcome `reply` of a command that, once acknowledged, leaves
/// the light in state `on_ack` takes session `s` to `t`, with result `r`:
/// `r` tells whether the device acknowledged; only the power and connection
/// states move, and the power state only on acknowledgement.
pub open spec fn command_step(
    s: WiZRGBBulb,
    reply: Reply,
    on_ack: DeviceLightStatus,
    t: WiZRGBBulb,
    r: bool,
) -> bool {
    &&& r == acknowledged(reply)
    &&& t.ip_addr@ == s.ip_addr@
    &&& t.current_rgbcw == s.current_rgbcw
    &&& t.last_connection_date == s.last_connection_date
    &&& if r {
        t.last_light_status == on_ack && t.last_connection_status
            == DeviceConnectionStatus::DeviceConnected
    } else {
        t.last_light_status == s.last_light_status && t.last_connection_status
            == DeviceConnectionStatus::DeviceDisconnected
    }
}

/// Switching a light on twice against a device that acknowledges both
/// commands leaves it on after each, with its colour unchanged.
pub proof fn lemma_turn_on_idempotent(
    s0: WiZRGBBulb,
    reply1: Reply,
    s1: WiZRGBBulb,
    r1: bool,
    reply2: Reply,
    s2: WiZRGBBulb,
    r2: bool,
)
    requires
        acknowledged(reply1),
        acknowledged(reply2),
        command_step(s0, reply1, DeviceLightStatus::LightOn, s1, r1),
        command_step(s1, reply2, DeviceLightStatus::LightOn, s2, r2),
    ensures
        r1 && r2,
        s1.last_light_status == DeviceLightStatus::LightOn,
        s2.last_light_status == DeviceLightStatus::LightOn,
        s1.current_rgbcw == s0.current_rgbcw,
        s2.current_rgbcw == s0.current_rgbcw,
        s2.last_connection_status == s1.last_connection_status,
{
}

/// One light as the client sees it.
pub struct WiZRGBBulb {
    /// The device's address with the protocol port, `a.b.c.d:38899`.
    pub ip_addr: String,
    /// The last colour the session set or read back.
    pub current_rgbcw: RGBCW,
    /// When the session was opened, in seconds since the Unix epoch.
    pub last_connection_date: u64,
    pub last_connection_status: DeviceConnectionStatus,
    pub last_light_status: DeviceLightStatus,
}

impl WiZRGBBulb {
    /// A session with a device that has just answered the handshake: it is
    /// connected and on, and its colour is not read yet.
    pub fn new(ip_addr: String, now: u64) -> (r: WiZRGBBulb)
        ensures
            r.ip_addr@ == ip_addr@,
            r.current_rgbcw == dark(),
            r.last_connection_date == now,
            r.last_connection_status == DeviceConnectionStatus::DeviceConnected,
            r.last_light_status == DeviceLightStatus::LightOn,
    {
        WiZRGBBulb {
            ip_addr,
            current_rgbcw: RGBCW { r: 0, g: 0, b: 0, w: 0, c: 0 },
            last_connection_date: now,
            last_connection_status: DeviceConnectionStatus::DeviceConnected,
            last_light_status: DeviceLightStatus::LightOn,
        }
    }

    /// The request that asks the device for its colour.
    pub fn get_status(&self) -> (r: String)
        ensures
            r@ == get_status_text(),
    {
        encode_get_status()
    }

    /// Takes the outcome of a status query. A reply that decodes updates the
    /// colour and is returned; otherwise the query fails, the colour stays
    /// and the session counts as disconnected.
    pub fn get_status_reply(&mut self, reply: &Reply) -> (r: Result<RGBCW, SessionError>)
        ensures
            final(self).ip_addr@ == old(self).ip_addr@,
            final(self).last_connection_date == old(self).last_connection_date,
            final(self).last_light_status == old(self).last_light_status,
            match *reply {
                Reply::Received(p) => match status_of(p@) {
                    Ok(c) => r == Ok::<RGBCW, SessionError>(c) && final(self).current_rgbcw == c
                        && final(self).last_connection_status
                        == DeviceConnectionStatus::DeviceConnected,
                    Err(_) => r == Err::<RGBCW, SessionError>(SessionError::QueryFailed)
                        && final(self).current_rgbcw == old(self).current_rgbcw
                        && final(self).last_connection_status
                        == DeviceConnectionStatus::DeviceDisconnected,
                },
                _ => r == Err::<RGBCW, SessionError>(SessionError::QueryFailed)
                    && final(self).current_rgbcw == old(self).current_rgbcw
                    && final(self).last_connection_status
                    == DeviceConnectionStatus::DeviceDisconnected,
            },
    {
        let decoded: Result<RGBCW, DecodeError> = match reply {
            Reply::Received(p) => decode_status(p.as_slice()),
            _ => Err(DecodeError::MissingField),
        };
        match decoded {
            Ok(c) => {
                self.current_rgbcw = c;
                self.last_connection_status = DeviceConnectionStatus::DeviceConnected;
                Ok(c)
            },
            Err(_) => {
                self.last_connection_status = DeviceConnectionStatus::DeviceDisconnected;
                Err(SessionError::QueryFailed)
            },
        }
    }

    /// Starts setting the colour: the session records the colour at once,
    /// before the device confirms it, and returns the request to send.
    pub fn set_rgbcw(&mut self, rgbcw: RGBCW) -> (r: String)
        ensures
            r@ == set_color_text(rgbcw),
            final(self).current_rgbcw == rgbcw,
            final(self).ip_addr@ == old(self).ip_addr@,
            final(self).last_connection_date == old(self).last_connection_date,
            final(self).last_connection_status == old(self).last_connection_status,
            final(self).last_light_status == old(self).last_light_status,
    {
        self.current_rgbcw = rgbcw;
        encode_set_color(&rgbcw)
    }

    /// Takes the outcome of a colour command: true when the device
    /// acknowledged it, which also marks the light on. On failure the power
    /// state stays and the session counts as disconnected.
    pub fn set_rgbcw_reply(&mut self, reply: &Reply) -> (r: bool)
        ensures
            command_step(*old(self), *reply, DeviceLightStatus::LightOn, *final(self), r),
    {
        self.power_reply(reply, DeviceLightStatus::LightOn)
    }

    /// The request that switches the device on.
    pub fn turn_on(&self) -> (r: String)
        ensures
            r@ == set_power_text(true),
    {
        encode_set_power(true)
    }

    /// Takes the outcome of a power-on command: true when acknowledged,
    /// which marks the light on; on failure the power state stays.
    pub fn turn_on_reply(&mut self, reply: &Reply) -> (r: bool)
        ensures
            command_step(*old(self), *reply, DeviceLightStatus::LightOn, *final(self), r),
    {
        self.power_reply(reply, DeviceLightStatus::LightOn)
    }

    /// The request that switches the device off.
    pub fn turn_off(&self) -> (r: String)
        ensures
            r@ == set_power_text(false),
    {
        encode_set_power(false)
    }

    /// Takes the outcome of a power-off command: true when acknowledged,
    /// which marks the light off; on failure the power state stays.
    pub fn turn_off_reply(&mut self, reply: &Reply) -> (r: bool)
        ensures
            command_step(*old(self), *reply, DeviceLightStatus::LightOff, *final(self), r),
    {
        self.power_reply(reply, DeviceLightStatus::LightOff)
    }

    /// Applies the outcome of a command that, once acknowledged, leaves the
    /// light in state `after`.
    fn power_reply(&mut self, reply: &Reply, after: DeviceLightStatus) -> (r: bool)
        ensures
            command_step(*old(self), *reply, after, *final(self), r),
    {
        if ack_of(reply) {
            self.last_light_status = after;
            self.last_connection_status = DeviceConnectionStatus::DeviceConnected;
            true
        } else {
            self.last_connection_status = DeviceConnectionStatus::DeviceDisconnected;
            false
        }
    }
}

} // verus!
