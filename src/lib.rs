//! Client library for a networked audio receiver's HTTP/JSON control interface.
//!
//! The library composes request paths and request text, extracts the body of
//! a raw HTTP response, and decodes JSON bodies into typed records, falling
//! back to each record's zero value when a body cannot be decoded.

pub mod codes;
pub mod device;
pub mod json;
pub mod records;
pub mod request;

pub use crate::codes::ResponseCode;
pub use crate::device::{IpAddress, YamahaDevice};
pub use crate::json::{Json, JsonNumber, Member};
pub use crate::records::{
    ActualVolume, AnalyticsInfo, AudioSignal, DeviceInfo, SignalInfo, ToneControl,
    ZoneProgramList, ZoneStatus,
};
pub use crate::request::{
    device_info_path, request_text, response_body, set_enhancer, set_extra_bass, set_mute,
    set_pure_direct, set_sound_program, set_volume_down, set_volume_up, set_zone_power,
    signal_info_path, zone_program_list_path, zone_status_path,
};
