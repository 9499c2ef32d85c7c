use camloop::config::Camera;
use camloop::payload::{decimal_bytes, info_payload};

fn cam(name: &str, device: &str, w: u32, h: u32) -> Camera {
    Camera {
        name: name.to_string(),
        device: device.to_string(),
        token: "token".to_string(),
        fingerprint: "fingerprint".to_string(),
        resolutionx: w,
        resolutiony: h,
    }
}

#[test]
fn decimal_bytes_exact_values() {
    assert_eq!(decimal_bytes(0), b"0".to_vec());
    assert_eq!(decimal_bytes(7), b"7".to_vec());
    assert_eq!(decimal_bytes(10), b"10".to_vec());
    assert_eq!(decimal_bytes(1234567890), b"1234567890".to_vec());
    assert_eq!(decimal_bytes(u64::MAX), b"18446744073709551615".to_vec());
}

#[test]
fn info_payload_fixed_shape() {
    let c = cam("porch", "/dev/video0", 1280, 720);
    let body = info_payload(&c);
    let expected = "{\"config\":{\"path\":\"/dev/video0\",\"name\":\"porch\",\"driver\":\"V4L2\",\"trigger_scheme\":\"THIRTY_SEC\",\"resolution\":{\"width\":1280,\"height\":720}}}";
    assert_eq!(body, expected.as_bytes().to_vec());
}

#[test]
fn info_payload_escapes_text_fields() {
    let c = cam("a\"b\\c", "/dev/v\n0", 1, 2);
    let body = info_payload(&c);
    let expected = "{\"config\":{\"path\":\"/dev/v\\u000a0\",\"name\":\"a\\\"b\\\\c\",\"driver\":\"V4L2\",\"trigger_scheme\":\"THIRTY_SEC\",\"resolution\":{\"width\":1,\"height\":2}}}";
    assert_eq!(String::from_utf8(body).unwrap(), expected);
}

#[test]
fn info_payload_passes_multibyte_text_through() {
    let c = cam("caf\u{e9}", "/dev/video1", 640, 480);
    let body = info_payload(&c);
    let expected = "{\"config\":{\"path\":\"/dev/video1\",\"name\":\"caf\u{e9}\",\"driver\":\"V4L2\",\"trigger_scheme\":\"THIRTY_SEC\",\"resolution\":{\"width\":640,\"height\":480}}}";
    assert_eq!(String::from_utf8(body).unwrap(), expected);
}

#[test]
fn info_payload_is_valid_json_shape() {
    // The framed document nests three objects and closes them all.
    let c = cam("porch", "/dev/video0", 1280, 720);
    let body = String::from_utf8(info_payload(&c)).unwrap();
    assert!(body.starts_with("{\"config\":{"));
    assert!(body.ends_with("}}}"));
    assert_eq!(body.matches('{').count(), 3);
    assert_eq!(body.matches('}').count(), 3);
}
