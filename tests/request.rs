use yamaha_rs::request::body_bytes;
use yamaha_rs::{
    device_info_path, request_text, response_body, set_enhancer, set_extra_bass, set_mute,
    set_pure_direct, set_sound_program, set_volume_down, set_volume_up, set_zone_power,
    signal_info_path, zone_program_list_path, zone_status_path,
};

#[test]
fn mute_paths() {
    assert_eq!(set_mute(true), "/v1/main/setMute?enable=true");
    assert_eq!(set_mute(false), "/v1/main/setMute?enable=false");
}

#[test]
fn sound_program_path_is_not_escaped() {
    assert_eq!(set_sound_program("movie"), "/v1/main/setSoundProgram?program=movie");
    assert_eq!(set_sound_program("a b&c"), "/v1/main/setSoundProgram?program=a b&c");
    assert_eq!(set_sound_program(""), "/v1/main/setSoundProgram?program=");
}

#[test]
fn switch_paths() {
    assert_eq!(set_pure_direct(true), "/v1/main/setPureDirect?enable=true");
    assert_eq!(set_pure_direct(false), "/v1/main/setPureDirect?enable=false");
    assert_eq!(set_enhancer(true), "/v1/main/setEnhancer?enable=true");
    assert_eq!(set_enhancer(false), "/v1/main/setEnhancer?enable=false");
    assert_eq!(set_extra_bass(true), "/v1/main/setExtraBass?enable=true");
    assert_eq!(set_extra_bass(false), "/v1/main/setExtraBass?enable=false");
}

#[test]
fn fixed_paths() {
    assert_eq!(set_zone_power(), "/v1/main/setPower?power=toggle");
    assert_eq!(set_volume_up(), "/v1/main/setVolume?volume=up");
    assert_eq!(set_volume_down(), "/v1/main/setVolume?volume=down");
    assert_eq!(device_info_path(), "/v1/system/getDeviceInfo");
    assert_eq!(zone_status_path(), "/v1/main/getStatus");
    assert_eq!(zone_program_list_path(), "/v1/main/getSoundProgramList");
    assert_eq!(signal_info_path(), "/v1/main/getSignalInfo");
}

#[test]
fn request_text_shape() {
    assert_eq!(
        request_text("/v1/main/getStatus"),
        "GET /YamahaExtendedControl/v1/main/getStatus HTTP/1.1\r\nConnection: close\r\n\r\n"
    );
    assert_eq!(
        request_text(&set_mute(true)),
        "GET /YamahaExtendedControl/v1/main/setMute?enable=true HTTP/1.1\r\nConnection: close\r\n\r\n"
    );
}

#[test]
fn body_after_first_separator() {
    let response = b"HTTP/1.1 200 OK\r\nContent-Type: application/json\r\n\r\n{\"a\":1}\r\n\r\nrest";
    assert_eq!(response_body(response), "{\"a\":1}\r\n\r\nrest");
    assert_eq!(body_bytes(response), b"{\"a\":1}\r\n\r\nrest".to_vec());
}

#[test]
fn body_without_separator_is_empty() {
    assert_eq!(response_body(b"HTTP/1.1 200 OK\r\nContent-Length: 0\r\n"), "");
    assert_eq!(response_body(b""), "");
    assert_eq!(response_body(b"\r\n\r"), "");
    assert!(body_bytes(b"no separator\n\n").is_empty());
}

#[test]
fn body_at_end_is_empty() {
    assert_eq!(response_body(b"HTTP/1.1 204 No Content\r\n\r\n"), "");
    assert_eq!(response_body(b"\r\n\r\nx"), "x");
}

#[test]
fn body_with_invalid_utf8_is_replaced() {
    let response = b"HTTP/1.1 200 OK\r\n\r\nab\xffcd";
    assert_eq!(response_body(response), "ab\u{FFFD}cd");
}
