use wiz_light::codec::{
    decode_ack, decode_status, encode_get_status, encode_set_color, encode_set_power,
    status_from_fields, trim_nul, DecodeError, RGBCW,
};
use wiz_light::discovery::{
    discover_devices, discovery_endpoint, discovery_request, extract_mac, Datagram,
};
use wiz_light::session::{
    device_endpoint, get_unix_time, handshake, handshake_request, setup_wiz_light,
    setup_wiz_multicast, DeviceConnectionStatus, DeviceLightStatus, Reply, SessionError,
    WiZRGBBulb,
};

fn color(r: u8, g: u8, b: u8, c: u8, w: u8) -> RGBCW {
    RGBCW { r, g, b, w, c }
}

fn status_payload(c: &RGBCW) -> Vec<u8> {
    format!(
        "{{\"method\":\"getPilot\",\"env\":\"pro\",\"result\":{{\"mac\":\"a8bb50d0e1f2\",\"rssi\":-61,\"state\":true,\"sceneId\":0,\"r\":{},\"g\":{},\"b\":{},\"c\":{},\"w\":{},\"dimming\":100}}}}",
        c.r, c.g, c.b, c.c, c.w
    )
    .into_bytes()
}

fn session() -> WiZRGBBulb {
    WiZRGBBulb::new(String::from("10.0.0.5:38899"), 1_700_000_000)
}

fn ack4() -> Reply {
    Reply::Received(vec![b'{', b'}', 0, 0])
}

#[test]
fn set_color_request_text() {
    assert_eq!(
        encode_set_color(&color(0, 0, 0, 255, 255)),
        "{\"id\":1,\"method\":\"setPilot\",\"params\":{\"r\":0,\"g\":0,\"b\":0,\"w\":255,\"c\":255}}"
    );
    assert_eq!(
        encode_set_color(&color(7, 42, 100, 9, 10)),
        "{\"id\":1,\"method\":\"setPilot\",\"params\":{\"r\":7,\"g\":42,\"b\":100,\"w\":10,\"c\":9}}"
    );
}

#[test]
fn set_color_request_is_json_with_the_channels() {
    let c = color(12, 200, 3, 45, 99);
    let v: serde_json::Value = serde_json::from_str(&encode_set_color(&c)).unwrap();
    assert_eq!(v["method"].as_str(), Some("setPilot"));
    assert_eq!(v["params"]["r"].as_u64(), Some(12));
    assert_eq!(v["params"]["g"].as_u64(), Some(200));
    assert_eq!(v["params"]["b"].as_u64(), Some(3));
    assert_eq!(v["params"]["c"].as_u64(), Some(45));
    assert_eq!(v["params"]["w"].as_u64(), Some(99));
}

#[test]
fn power_and_status_request_text() {
    assert_eq!(
        encode_set_power(true),
        "{\"id\":1,\"method\":\"setState\",\"params\":{\"state\":true}}"
    );
    assert_eq!(
        encode_set_power(false),
        "{\"id\":1,\"method\":\"setState\",\"params\":{\"state\":false}}"
    );
    assert_eq!(encode_get_status(), "{\"method\":\"getPilot\",\"params\":{}}");
    assert_eq!(handshake_request(), encode_set_power(true));
    assert_eq!(discovery_request(), encode_get_status());
}

#[test]
fn trims_nul_padding_at_both_ends() {
    assert_eq!(trim_nul(&[0, 0, 1, 0, 2, 0, 0]), vec![1, 0, 2]);
    assert_eq!(trim_nul(&[0, 0, 0]), Vec::<u8>::new());
    assert_eq!(trim_nul(&[]), Vec::<u8>::new());
    assert_eq!(trim_nul(&[5, 6]), vec![5, 6]);
}

#[test]
fn decodes_padded_status_reply() {
    let c = color(10, 20, 30, 40, 50);
    let mut buf = status_payload(&c);
    buf.resize(256, 0);
    assert_eq!(decode_status(&buf), Ok(c));
}

#[test]
fn status_round_trip_over_channel_values() {
    for v in 0..=255u8 {
        let c = color(v, 255 - v, v / 2, v.wrapping_mul(7), 128);
        assert_eq!(decode_status(&status_payload(&c)), Ok(c));
    }
}

#[test]
fn garbage_and_short_payloads_fail_to_decode() {
    assert_eq!(decode_status(b"not json at all"), Err(DecodeError::MissingField));
    assert_eq!(decode_status(b"{\"result\":{\"r\":1"), Err(DecodeError::MissingField));
    assert_eq!(decode_status(&[]), Err(DecodeError::MissingField));
    assert_eq!(decode_status(&[0; 192]), Err(DecodeError::MissingField));
}

#[test]
fn bad_channel_values_fail_to_decode() {
    let out_of_range = b"{\"result\":{\"r\":256,\"g\":0,\"b\":0,\"c\":0,\"w\":0}}";
    assert_eq!(decode_status(out_of_range), Err(DecodeError::OutOfRange));
    let missing = b"{\"result\":{\"r\":1,\"g\":0,\"b\":0,\"c\":0}}";
    assert_eq!(decode_status(missing), Err(DecodeError::MissingField));
    let text = b"{\"result\":{\"r\":\"1\",\"g\":0,\"b\":0,\"c\":0,\"w\":0}}";
    assert_eq!(decode_status(text), Err(DecodeError::MissingField));
    let negative = b"{\"result\":{\"r\":-1,\"g\":0,\"b\":0,\"c\":0,\"w\":0}}";
    assert_eq!(decode_status(negative), Err(DecodeError::MissingField));
}

#[test]
fn fields_decide_the_colour_or_the_first_error() {
    assert_eq!(
        status_from_fields(Some(1), Some(2), Some(3), Some(4), Some(5)),
        Ok(color(1, 2, 3, 4, 5))
    );
    assert_eq!(
        status_from_fields(Some(1), Some(300), None, Some(4), Some(5)),
        Err(DecodeError::OutOfRange)
    );
    assert_eq!(
        status_from_fields(Some(1), None, Some(300), Some(4), Some(5)),
        Err(DecodeError::MissingField)
    );
}

#[test]
fn any_nonempty_reply_acknowledges() {
    assert!(decode_ack(&[1]));
    assert!(!decode_ack(&[]));
}

#[test]
fn endpoint_appends_port() {
    assert_eq!(device_endpoint("10.0.0.9"), "10.0.0.9:38899");
    assert_eq!(discovery_endpoint(), "255.255.255.255:38899");
}

#[test]
fn set_color_acknowledged_updates_session() {
    let mut s = session();
    let req = s.set_rgbcw(color(0, 0, 0, 255, 255));
    assert_eq!(req, encode_set_color(&color(0, 0, 0, 255, 255)));
    assert!(s.set_rgbcw_reply(&ack4()));
    assert_eq!(s.current_rgbcw, color(0, 0, 0, 255, 255));
    assert_eq!(s.last_light_status, DeviceLightStatus::LightOn);
    assert_eq!(s.last_connection_status, DeviceConnectionStatus::DeviceConnected);
}

#[test]
fn set_color_failure_keeps_optimistic_colour() {
    let mut s = session();
    s.last_light_status = DeviceLightStatus::LightOff;
    s.set_rgbcw(color(1, 2, 3, 4, 5));
    assert!(!s.set_rgbcw_reply(&Reply::SendFailed));
    assert_eq!(s.current_rgbcw, color(1, 2, 3, 4, 5));
    assert_eq!(s.last_light_status, DeviceLightStatus::LightOff);
    assert_eq!(s.last_connection_status, DeviceConnectionStatus::DeviceDisconnected);
}

#[test]
fn turn_on_twice_stays_on() {
    let mut s = session();
    s.current_rgbcw = color(9, 8, 7, 6, 5);
    s.last_light_status = DeviceLightStatus::LightOff;
    assert_eq!(s.turn_on(), encode_set_power(true));
    assert!(s.turn_on_reply(&ack4()));
    assert_eq!(s.last_light_status, DeviceLightStatus::LightOn);
    assert!(s.turn_on_reply(&ack4()));
    assert_eq!(s.last_light_status, DeviceLightStatus::LightOn);
    assert_eq!(s.current_rgbcw, color(9, 8, 7, 6, 5));
}

#[test]
fn turn_off_acknowledged_and_not() {
    let mut s = session();
    assert_eq!(s.turn_off(), encode_set_power(false));
    assert!(!s.turn_off_reply(&Reply::ReceiveFailed));
    assert_eq!(s.last_light_status, DeviceLightStatus::LightOn);
    assert!(!s.turn_off_reply(&Reply::Received(Vec::new())));
    assert_eq!(s.last_light_status, DeviceLightStatus::LightOn);
    assert!(s.turn_off_reply(&ack4()));
    assert_eq!(s.last_light_status, DeviceLightStatus::LightOff);
    assert_eq!(s.last_connection_status, DeviceConnectionStatus::DeviceConnected);
}

#[test]
fn status_query_updates_or_keeps_colour() {
    let mut s = session();
    assert_eq!(s.get_status(), encode_get_status());
    let c = color(3, 1, 4, 1, 5);
    assert_eq!(s.get_status_reply(&Reply::Received(status_payload(&c))), Ok(c));
    assert_eq!(s.current_rgbcw, c);
    assert_eq!(
        s.get_status_reply(&Reply::Received(b"garbage".to_vec())),
        Err(SessionError::QueryFailed)
    );
    assert_eq!(s.current_rgbcw, c);
    assert_eq!(s.last_connection_status, DeviceConnectionStatus::DeviceDisconnected);
    assert_eq!(s.get_status_reply(&Reply::ReceiveFailed), Err(SessionError::QueryFailed));
    assert_eq!(s.current_rgbcw, c);
}

#[test]
fn setup_without_reply_is_unreachable() {
    let r = setup_wiz_light(String::from("10.0.0.9"), &Reply::ReceiveFailed);
    assert!(matches!(r, Err(SessionError::DeviceUnreachable)));
    let r = setup_wiz_light(String::from("10.0.0.9"), &Reply::SendFailed);
    assert!(matches!(r, Err(SessionError::DeviceUnreachable)));
}

#[test]
fn setup_with_reply_opens_session() {
    assert!(handshake(&Reply::Received(vec![1])));
    assert!(!handshake(&Reply::ReceiveFailed));
    let s = setup_wiz_light(String::from("10.0.0.9"), &ack4()).unwrap();
    assert_eq!(s.ip_addr, "10.0.0.9:38899");
    assert_eq!(s.current_rgbcw, color(0, 0, 0, 0, 0));
    assert_eq!(s.last_connection_status, DeviceConnectionStatus::DeviceConnected);
    assert_eq!(s.last_light_status, DeviceLightStatus::LightOn);
    assert!(s.last_connection_date > 1_600_000_000);
}

#[test]
fn multicast_session_targets_broadcast() {
    let s = setup_wiz_multicast().unwrap();
    assert_eq!(s.ip_addr, "255.255.255.255:38899");
    assert_eq!(s.last_light_status, DeviceLightStatus::LightOn);
}

#[test]
fn clock_reads_after_epoch() {
    assert!(get_unix_time().unwrap() > 1_600_000_000);
}

#[test]
fn scan_without_replies_yields_empty_roster() {
    assert!(discover_devices(&Vec::new()).is_empty());
}

#[test]
fn scan_lists_three_devices_in_order() {
    let macs = ["a8bb50000001", "a8bb50000002", "a8bb50000003"];
    let replies: Vec<Datagram> = macs
        .iter()
        .enumerate()
        .map(|(i, m)| {
            let mut payload = format!(
                "{{\"method\":\"getPilot\",\"env\":\"pro\",\"result\":{{\"mac\":\"{}\",\"rssi\":-60}}}}",
                m
            )
            .into_bytes();
            payload.resize(256, 0);
            Datagram { source: format!("192.168.1.{}:38899", 20 + i), payload }
        })
        .collect();
    let roster = discover_devices(&replies);
    assert_eq!(roster.len(), 3);
    for i in 0..3 {
        assert_eq!(roster[i].ip_addr, format!("192.168.1.{}:38899", 20 + i));
        assert_eq!(roster[i].mac, macs[i]);
    }
}

#[test]
fn short_or_invalid_reply_gives_empty_identifier() {
    assert_eq!(extract_mac(b"{\"result\":{}}"), "");
    let mut bad = vec![b'x'; 70];
    bad[55] = 0xff;
    assert_eq!(extract_mac(&bad), "");
    let good = vec![b'x'; 70];
    assert_eq!(extract_mac(&good), "xxxxxxxxxxxx");
}
