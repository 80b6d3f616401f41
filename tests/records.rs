use yamaha_rs::{
    ActualVolume, AnalyticsInfo, AudioSignal, DeviceInfo, IpAddress, SignalInfo, ToneControl,
    YamahaDevice, ZoneProgramList, ZoneStatus,
};

const ZONE_STATUS: &str = r#"{"power":"on","sleep":0,"volume":42,"mute":false,"max_volume":161,"input":"hdmi1","input_text":"HDMI1","distribution_enable":false,"sound_program":"movie","surr_decoder_type":"","pure_direct":false,"enhancer":true,"tone_control":{"mode":"manual","bass":0,"treble":0},"dialogue_level":0,"dialogue_lift":0,"subwoofer_volume":0,"link_control":"standard","link_audio_delay":"standard","disable_flags":0,"contents_display":false,"actual_volume":{"mode":"db","value":-20.5,"unit":"dB"},"party_enable":false,"extra_bass":false,"adaptive_drc":false,"dts_dialogue_control":0,"adaptive_dsp_level":false}"#;

#[test]
fn zone_status_decodes() {
    let z = ZoneStatus::from_body(ZONE_STATUS);
    assert_eq!(z.volume, 42);
    assert!(z.enhancer);
    assert_eq!(z.power, "on");
    assert_eq!(z.max_volume, 161);
    assert_eq!(z.input, "hdmi1");
    assert_eq!(z.input_text, "HDMI1");
    assert_eq!(z.sound_program, "movie");
    assert_eq!(z.surr_decoder_type, "");
    assert_eq!(
        z.tone_control,
        ToneControl { mode: "manual".to_string(), bass: 0, treble: 0 }
    );
    assert_eq!(
        z.actual_volume,
        ActualVolume { mode: "db".to_string(), value: "-20.5".to_string(), unit: "dB".to_string() }
    );
    assert_eq!(z.link_control, "standard");
    assert!(!z.mute);
    assert!(!z.adaptive_dsp_level);
}

#[test]
fn zone_status_ignores_extra_members_and_order() {
    let body = ZONE_STATUS.replacen("{\"power\":\"on\",", "{\"response_code\":0,\"power\":\"standby\",", 1);
    let z = ZoneStatus::from_body(&body);
    assert_eq!(z.power, "standby");
    assert_eq!(z.volume, 42);
}

#[test]
fn zone_status_missing_member_gives_zero() {
    let body = ZONE_STATUS.replacen("\"volume\":42,", "", 1);
    assert_eq!(ZoneStatus::from_body(&body), ZoneStatus::default());
}

#[test]
fn zone_status_wrong_type_gives_zero() {
    let body = ZONE_STATUS.replacen("\"mute\":false", "\"mute\":\"false\"", 1);
    assert_eq!(ZoneStatus::from_body(&body), ZoneStatus::default());
    let negative = ZONE_STATUS.replacen("\"volume\":42", "\"volume\":-1", 1);
    assert_eq!(ZoneStatus::from_body(&negative), ZoneStatus::default());
    let fraction = ZONE_STATUS.replacen("\"volume\":42", "\"volume\":42.5", 1);
    assert_eq!(ZoneStatus::from_body(&fraction), ZoneStatus::default());
}

#[test]
fn u32_bounds() {
    let max = ZONE_STATUS.replacen("\"volume\":42", "\"volume\":4294967295", 1);
    assert_eq!(ZoneStatus::from_body(&max).volume, u32::MAX);
    let over = ZONE_STATUS.replacen("\"volume\":42", "\"volume\":4294967296", 1);
    assert_eq!(ZoneStatus::from_body(&over), ZoneStatus::default());
}

#[test]
fn empty_or_non_json_bodies_give_zero() {
    for body in ["", "not json", "{", "[1,2]", "null", "42", "{}"] {
        assert_eq!(ZoneStatus::from_body(body), ZoneStatus::default());
        assert_eq!(DeviceInfo::from_body(body), DeviceInfo::default());
        assert_eq!(ZoneProgramList::from_body(body), ZoneProgramList::default());
        assert_eq!(SignalInfo::from_body(body), SignalInfo::default());
    }
}

#[test]
fn zero_values() {
    let z = ZoneStatus::default();
    assert_eq!(z.power, "");
    assert_eq!(z.volume, 0);
    assert!(!z.enhancer);
    assert_eq!(z.tone_control, ToneControl { mode: String::new(), bass: 0, treble: 0 });
    assert_eq!(z.actual_volume.value, "0");
    let d = DeviceInfo::default();
    assert_eq!(d.system_version, "0");
    assert_eq!(d.api_version, "0");
    assert_eq!(d.analytics_info, AnalyticsInfo { uuid: String::new() });
    assert!(ZoneProgramList::default().sound_program_list.is_empty());
    assert_eq!(SignalInfo::default().audio.error, 0);
}

#[test]
fn program_list_keeps_order() {
    let body = r#"{"response_code":0,"sound_program_list":["munich","vienna","amsterdam","movie","2ch_stereo"]}"#;
    let l = ZoneProgramList::from_body(body);
    assert_eq!(l.sound_program_list, vec!["munich", "vienna", "amsterdam", "movie", "2ch_stereo"]);
    let mixed = r#"{"sound_program_list":["movie",3]}"#;
    assert_eq!(ZoneProgramList::from_body(mixed), ZoneProgramList::default());
    let empty = r#"{"sound_program_list":[]}"#;
    assert!(ZoneProgramList::from_body(empty).sound_program_list.is_empty());
}

#[test]
fn signal_info_decodes() {
    let body = r#"{"response_code":0,"audio":{"error":0,"format":"PCM","fs":"48 kHz","bitrate":"1536 kbps","bit":"24 bit"}}"#;
    let s = SignalInfo::from_body(body);
    assert_eq!(
        s.audio,
        AudioSignal {
            error: 0,
            format: "PCM".to_string(),
            fs: "48 kHz".to_string(),
            bitrate: "1536 kbps".to_string(),
            bit: "24 bit".to_string(),
        }
    );
    let numeric = r#"{"audio":{"error":0,"format":"PCM","fs":"48 kHz","bitrate":1536,"bit":"24 bit"}}"#;
    assert_eq!(SignalInfo::from_body(numeric), SignalInfo::default());
    let short = r#"{"audio":{"error":0,"format":"PCM","fs":"48 kHz"}}"#;
    assert_eq!(SignalInfo::from_body(short), SignalInfo::default());
}

#[test]
fn device_info_decodes() {
    let body = r#"{"response_code":0,"model_name":"RX-V685","destination":"BG","device_id":"AC44F2","system_id":"0B587073","system_version":2.87,"api_version":2,"netmodule_generation":1,"netmodule_version":"1130    ","netmodule_checksum":"5FAFA2B0","serial_number":"Y123","operation_mode":"normal","update_error_code":"00000000","net_module_num":1,"update_data_type":0,"analytics_info":{"uuid":"abc-123"}}"#;
    let d = DeviceInfo::from_body(body);
    assert_eq!(d.model_name, "RX-V685");
    assert_eq!(d.system_version, "2.87");
    assert_eq!(d.api_version, "2");
    assert_eq!(d.netmodule_generation, 1);
    assert_eq!(d.netmodule_version, "1130    ");
    assert_eq!(d.analytics_info.uuid, "abc-123");
    let no_analytics = body.replacen(",\"analytics_info\":{\"uuid\":\"abc-123\"}", "", 1);
    assert_eq!(DeviceInfo::from_body(&no_analytics), DeviceInfo::default());
}

#[test]
fn device_entry_is_a_plain_value() {
    let d = YamahaDevice { ip: IpAddress::V4([192, 168, 1, 29]), name: "Living room".to_string() };
    assert_eq!(d.clone(), d);
    assert_ne!(d.ip, IpAddress::V6([0, 0, 0, 0, 0, 0, 0, 1]));
}
