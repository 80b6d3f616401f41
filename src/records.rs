//! Records decoded from the receiver's JSON answers.
//!
//! Each record is read from a JSON object member by member: every field must
//! be present with the expected type, other members are ignored. A record that
//! cannot be read is replaced by its zero value.
use vstd::prelude::*;

use crate::json::{
    as_bool, as_number_text, as_text, as_text_list, as_u32, bool_member, member, member_of,
    number_text_member, parse_json, parsed_json, text_list_member, text_member, texts, u32_member,
    Json,
};

verus! {

/// Analytics identity of the receiver.
#[derive(Debug, Clone, PartialEq)]
pub struct AnalyticsInfo {
    pub uuid: String,
}

impl AnalyticsInfo {
    /// Whether `j` is an object holding every field with the expected type.
    pub open spec fn fits(j: Json) -> bool {
        as_text(member_of(j, "uuid"@)) is Some
    }

    /// Whether each field holds the value of the member of the same name in `j`.
    pub open spec fn decoded_from(self, j: Json) -> bool {
        as_text(member_of(j, "uuid"@)) == Some(self.uuid@)
    }

    /// Whether every field holds its zero value.
    pub open spec fn is_zero(self) -> bool {
        self.uuid@.len() == 0
    }

    /// Reads the record from `j`; `None` when `j` does not fit.
    pub fn from_json(j: &Json) -> (r: Option<AnalyticsInfo>)
        ensures
            r is Some <==> Self::fits(*j),
            r matches Some(x) ==> x.decoded_from(*j),
    {
        let uuid = text_member(j, "uuid")?;
        Some(AnalyticsInfo {
            uuid,
        })
    }

}

impl Default for AnalyticsInfo {
    fn default() -> (r: Self)
        ensures
            r.is_zero(),
    {
        AnalyticsInfo {
            uuid: String::new(),
        }
    }
}

/// Tone settings of a zone.
#[derive(Debug, Clone, PartialEq)]
pub struct ToneControl {
    pub mode: String,
    pub bass: u32,
    pub treble: u32,
}

impl ToneControl {
    /// Whether `j` is an object holding every field with the expected type.
    pub open spec fn fits(j: Json) -> bool {
        &&& as_text(member_of(j, "mode"@)) is Some
        &&& as_u32(member_of(j, "bass"@)) is Some
        &&& as_u32(member_of(j, "treble"@)) is Some
    }

    /// Whether each field holds the value of the member of the same name in `j`.
    pub open spec fn decoded_from(self, j: Json) -> bool {
        &&& as_text(member_of(j, "mode"@)) == Some(self.mode@)
        &&& as_u32(member_of(j, "bass"@)) == Some(self.bass)
        &&& as_u32(member_of(j, "treble"@)) == Some(self.treble)
    }

    /// Whether every field holds its zero value.
    pub open spec fn is_zero(self) -> bool {
        &&& self.mode@.len() == 0
        &&& self.bass == 0
        &&& self.treble == 0
    }

    /// Reads the record from `j`; `None` when `j` does not fit.
    pub fn from_json(j: &Json) -> (r: Option<ToneControl>)
        ensures
            r is Some <==> Self::fits(*j),
            r matches Some(x) ==> x.decoded_from(*j),
    {
        let mode = text_member(j, "mode")?;
        let bass = u32_member(j, "bass")?;
        let treble = u32_member(j, "treble")?;
        Some(ToneControl {
            mode,
            bass,
            treble,
        })
    }

}

impl Default for ToneControl {
    fn default() -> (r: Self)
        ensures
            r.is_zero(),
    {
        ToneControl {
            mode: String::new(),
            bass: 0,
            treble: 0,
        }
    }
}

/// A zone's volume as shown on the receiver's display.
///
/// `value` is the number as JSON decimal text (`"-20.5"`); its zero value is `"0"`.
#[derive(Debug, Clone, PartialEq)]
pub struct ActualVolume {
    pub mode: String,
    pub value: String,
    pub unit: String,
}

impl ActualVolume {
    /// Whether `j` is an object holding every field with the expected type.
    pub open spec fn fits(j: Json) -> bool {
        &&& as_text(member_of(j, "mode"@)) is Some
        &&& as_number_text(member_of(j, "value"@)) is Some
        &&& as_text(member_of(j, "unit"@)) is Some
    }

    /// Whether each field holds the value of the member of the same name in `j`.
    pub open spec fn decoded_from(self, j: Json) -> bool {
        &&& as_text(member_of(j, "mode"@)) == Some(self.mode@)
        &&& as_number_text(member_of(j, "value"@)) == Some(self.value@)
        &&& as_text(member_of(j, "unit"@)) == Some(self.unit@)
    }

    /// Whether every field holds its zero value.
    pub open spec fn is_zero(self) -> bool {
        &&& self.mode@.len() == 0
        &&& self.value@ == "0"@
        &&& self.unit@.len() == 0
    }

    /// Reads the record from `j`; `None` when `j` does not fit.
    pub fn from_json(j: &Json) -> (r: Option<ActualVolume>)
        ensures
            r is Some <==> Self::fits(*j),
            r matches Some(x) ==> x.decoded_from(*j),
    {
        let mode = text_member(j, "mode")?;
        let value = number_text_member(j, "value")?;
        let unit = text_member(j, "unit")?;
        Some(ActualVolume {
            mode,
            value,
            unit,
        })
    }

}

impl Default for ActualVolume {
    fn default() -> (r: Self)
        ensures
            r.is_zero(),
    {
        ActualVolume {
            mode: String::new(),
            value: String::from_str("0"),
            unit: String::new(),
        }
    }
}

/// The input audio signal of a zone.
#[derive(Debug, Clone, PartialEq)]
pub struct AudioSignal {
    pub error: u32,
    pub format: String,
    pub fs: String,
    pub bitrate: String,
    pub bit: String,
}

impl AudioSignal {
    /// Whether `j` is an object holding every field with the expected type.
    pub open spec fn fits(j: Json) -> bool {
        &&& as_u32(member_of(j, "error"@)) is Some
        &&& as_text(member_of(j, "format"@)) is Some
        &&& as_text(member_of(j, "fs"@)) is Some
        &&& as_text(member_of(j, "bitrate"@)) is Some
        &&& as_text(member_of(j, "bit"@)) is Some
    }

    /// Whether each field holds the value of the member of the same name in `j`.
    pub open spec fn decoded_from(self, j: Json) -> bool {
        &&& as_u32(member_of(j, "error"@)) == Some(self.error)
        &&& as_text(member_of(j, "format"@)) == Some(self.format@)
        &&& as_text(member_of(j, "fs"@)) == Some(self.fs@)
        &&& as_text(member_of(j, "bitrate"@)) == Some(self.bitrate@)
        &&& as_text(member_of(j, "bit"@)) == Some(self.bit@)
    }

    /// Whether every field holds its zero value.
    pub open spec fn is_zero(self) -> bool {
        &&& self.error == 0
        &&& self.format@.len() == 0
        &&& self.fs@.len() == 0
        &&& self.bitrate@.len() == 0
        &&& self.bit@.len() == 0
    }

    /// Reads the record from `j`; `None` when `j` does not fit.
    pub fn from_json(j: &Json) -> (r: Option<AudioSignal>)
        ensures
            r is Some <==> Self::fits(*j),
            r matches Some(x) ==> x.decoded_from(*j),
    {
        let error = u32_member(j, "error")?;
        let format = text_member(j, "format")?;
        let fs = text_member(j, "fs")?;
        let bitrate = text_member(j, "bitrate")?;
        let bit = text_member(j, "bit")?;
        Some(AudioSignal {
            error,
            format,
            fs,
            bitrate,
            bit,
        })
    }

}

impl Default for AudioSignal {
    fn default() -> (r: Self)
        ensures
            r.is_zero(),
    {
        AudioSignal {
            error: 0,
            format: String::new(),
            fs: String::new(),
            bitrate: String::new(),
            bit: String::new(),
        }
    }
}

/// Input signal information of a zone.
#[derive(Debug, Clone, PartialEq)]
pub struct SignalInfo {
    pub audio: AudioSignal,
}

impl SignalInfo {
    /// Whether `j` is an object holding every field with the expected type.
    pub open spec fn fits(j: Json) -> bool {
        match member_of(j, "audio"@) {
            Some(o) => AudioSignal::fits(o),
            None => false,
        }
    }

    /// Whether each field holds the value of the member of the same name in `j`.
    pub open spec fn decoded_from(self, j: Json) -> bool {
        match member_of(j, "audio"@) {
            Some(o) => self.audio.decoded_from(o),
            None => false,
        }
    }

    /// Whether every field holds its zero value.
    pub open spec fn is_zero(self) -> bool {
        self.audio.is_zero()
    }

    /// Reads the record from `j`; `None` when `j` does not fit.
    pub fn from_json(j: &Json) -> (r: Option<SignalInfo>)
        ensures
            r is Some <==> Self::fits(*j),
            r matches Some(x) ==> x.decoded_from(*j),
    {
        let audio = AudioSignal::from_json(member(j, "audio")?)?;
        Some(SignalInfo {
            audio,
        })
    }

    /// Whether `r` is what a decoding outcome gives: the record read from the
    /// document when there is one that fits, else the zero value.
    pub open spec fn outcome(parsed: Option<Json>, r: SignalInfo) -> bool {
        match parsed {
            Some(j) => if Self::fits(j) {
                r.decoded_from(j)
            } else {
                r.is_zero()
            },
            None => r.is_zero(),
        }
    }

    /// The record read from a parsed document, or the zero value when there is
    /// no document or it does not fit.
    pub fn from_parsed(parsed: &Option<Json>) -> (r: SignalInfo)
        ensures
            Self::outcome(*parsed, r),
    {
        match parsed {
            Some(j) => match Self::from_json(j) {
                Some(x) => x,
                None => SignalInfo::default(),
            },
            None => SignalInfo::default(),
        }
    }

    /// The record that a response body holds, or the zero value when the body
    /// is empty, is not JSON, or does not fit.
    pub fn from_body(body: &str) -> (r: SignalInfo)
        ensures
            Self::outcome(parsed_json(body@), r),
            parsed_json(body@) is None ==> r.is_zero(),
            body@.len() == 0 ==> r.is_zero(),
    {
        let parsed = parse_json(body);
        Self::from_parsed(&parsed)
    }
}

impl Default for SignalInfo {
    fn default() -> (r: Self)
        ensures
            r.is_zero(),
    {
        SignalInfo {
            audio: AudioSignal::default(),
        }
    }
}

/// The sound programs a zone offers, in the order the receiver lists them.
#[derive(Debug, Clone, PartialEq)]
pub struct ZoneProgramList {
    pub sound_program_list: Vec<String>,
}

impl ZoneProgramList {
    /// Whether `j` is an object holding every field with the expected type.
    pub open spec fn fits(j: Json) -> bool {
        as_text_list(member_of(j, "sound_program_list"@)) is Some
    }

    /// Whether each field holds the value of the member of the same name in `j`.
    pub open spec fn decoded_from(self, j: Json) -> bool {
        as_text_list(member_of(j, "sound_program_list"@)) == Some(texts(self.sound_program_list@))
    }

    /// Whether every field holds its zero value.
    pub open spec fn is_zero(self) -> bool {
        self.sound_program_list@.len() == 0
    }

    /// Reads the record from `j`; `None` when `j` does not fit.
    pub fn from_json(j: &Json) -> (r: Option<ZoneProgramList>)
        ensures
            r is Some <==> Self::fits(*j),
            r matches Some(x) ==> x.decoded_from(*j),
    {
        let sound_program_list = text_list_member(j, "sound_program_list")?;
        Some(ZoneProgramList {
            sound_program_list,
        })
    }

    /// Whether `r` is what a decoding outcome gives: the record read from the
    /// document when there is one that fits, else the zero value.
    pub open spec fn outcome(parsed: Option<Json>, r: ZoneProgramList) -> bool {
        match parsed {
            Some(j) => if Self::fits(j) {
                r.decoded_from(j)
            } else {
                r.is_zero()
            },
            None => r.is_zero(),
        }
    }

    /// The record read from a parsed document, or the zero value when there is
    /// no document or it does not fit.
    pub fn from_parsed(parsed: &Option<Json>) -> (r: ZoneProgramList)
        ensures
            Self::outcome(*parsed, r),
    {
        match parsed {
            Some(j) => match Self::from_json(j) {
                Some(x) => x,
                None => ZoneProgramList::default(),
            },
            None => ZoneProgramList::default(),
        }
    }

    /// The record that a response body holds, or the zero value when the body
    /// is empty, is not JSON, or does not fit.
    pub fn from_body(body: &str) -> (r: ZoneProgramList)
        ensures
            Self::outcome(parsed_json(body@), r),
            parsed_json(body@) is None ==> r.is_zero(),
            body@.len() == 0 ==> r.is_zero(),
    {
        let parsed = parse_json(body);
        Self::from_parsed(&parsed)
    }
}

impl Default for ZoneProgramList {
    fn default() -> (r: Self)
        ensures
            r.is_zero(),
    {
        ZoneProgramList {
            sound_program_list: Vec::new(),
        }
    }
}

/// Identity and firmware attributes of the receiver.
///
/// `system_version` and `api_version` are numbers as JSON decimal text; their zero
/// value is `"0"`.
#[derive(Debug, Clone, PartialEq)]
pub struct DeviceInfo {
    pub model_name: String,
    pub destination: String,
    pub device_id: String,
    pub system_id: String,
    pub system_version: String,
    pub api_version: String,
    pub netmodule_generation: u32,
    pub netmodule_version: String,
    pub netmodule_checksum: String,
    pub serial_number: String,
    pub operation_mode: String,
    pub update_error_code: String,
    pub net_module_num: u32,
    pub update_data_type: u32,
    pub analytics_info: AnalyticsInfo,
}

impl DeviceInfo {
    /// Whether `j` is an object holding every field with the expected type.
    pub open spec fn fits(j: Json) -> bool {
        &&& as_text(member_of(j, "model_name"@)) is Some
        &&& as_text(member_of(j, "destination"@)) is Some
        &&& as_text(member_of(j, "device_id"@)) is Some
        &&& as_text(member_of(j, "system_id"@)) is Some
        &&& as_number_text(member_of(j, "system_version"@)) is Some
        &&& as_number_text(member_of(j, "api_version"@)) is Some
        &&& as_u32(member_of(j, "netmodule_generation"@)) is Some
        &&& as_text(member_of(j, "netmodule_version"@)) is Some
        &&& as_text(member_of(j, "netmodule_checksum"@)) is Some
        &&& as_text(member_of(j, "serial_number"@)) is Some
        &&& as_text(member_of(j, "operation_mode"@)) is Some
        &&& as_text(member_of(j, "update_error_code"@)) is Some
        &&& as_u32(member_of(j, "net_module_num"@)) is Some
        &&& as_u32(member_of(j, "update_data_type"@)) is Some
        &&& match member_of(j, "analytics_info"@) {
            Some(o) => AnalyticsInfo::fits(o),
            None => false,
        }
    }

    /// Whether each field holds the value of the member of the same name in `j`.
    pub open spec fn decoded_from(self, j: Json) -> bool {
        &&& as_text(member_of(j, "model_name"@)) == Some(self.model_name@)
        &&& as_text(member_of(j, "destination"@)) == Some(self.destination@)
        &&& as_text(member_of(j, "device_id"@)) == Some(self.device_id@)
        &&& as_text(member_of(j, "system_id"@)) == Some(self.system_id@)
        &&& as_number_text(member_of(j, "system_version"@)) == Some(self.system_version@)
        &&& as_number_text(member_of(j, "api_version"@)) == Some(self.api_version@)
        &&& as_u32(member_of(j, "netmodule_generation"@)) == Some(self.netmodule_generation)
        &&& as_text(member_of(j, "netmodule_version"@)) == Some(self.netmodule_version@)
        &&& as_text(member_of(j, "netmodule_checksum"@)) == Some(self.netmodule_checksum@)
        &&& as_text(member_of(j, "serial_number"@)) == Some(self.serial_number@)
        &&& as_text(member_of(j, "operation_mode"@)) == Some(self.operation_mode@)
        &&& as_text(member_of(j, "update_error_code"@)) == Some(self.update_error_code@)
        &&& as_u32(member_of(j, "net_module_num"@)) == Some(self.net_module_num)
        &&& as_u32(member_of(j, "update_data_type"@)) == Some(self.update_data_type)
        &&& match member_of(j, "analytics_info"@) {
            Some(o) => self.analytics_info.decoded_from(o),
            None => false,
        }
    }

    /// Whether every field holds its zero value.
    pub open spec fn is_zero(self) -> bool {
        &&& self.model_name@.len() == 0
        &&& self.destination@.len() == 0
        &&& self.device_id@.len() == 0
        &&& self.system_id@.len() == 0
        &&& self.system_version@ == "0"@
        &&& self.api_version@ == "0"@
        &&& self.netmodule_generation == 0
        &&& self.netmodule_version@.len() == 0
        &&& self.netmodule_checksum@.len() == 0
        &&& self.serial_number@.len() == 0
        &&& self.operation_mode@.len() == 0
        &&& self.update_error_code@.len() == 0
        &&& self.net_module_num == 0
        &&& self.update_data_type == 0
        &&& self.analytics_info.is_zero()
    }

    /// Reads the record from `j`; `None` when `j` does not fit.
    pub fn from_json(j: &Json) -> (r: Option<DeviceInfo>)
        ensures
            r is Some <==> Self::fits(*j),
            r matches Some(x) ==> x.decoded_from(*j),
    {
        let model_name = text_member(j, "model_name")?;
        let destination = text_member(j, "destination")?;
        let device_id = text_member(j, "device_id")?;
        let system_id = text_member(j, "system_id")?;
        let system_version = number_text_member(j, "system_version")?;
        let api_version = number_text_member(j, "api_version")?;
        let netmodule_generation = u32_member(j, "netmodule_generation")?;
        let netmodule_version = text_member(j, "netmodule_version")?;
        let netmodule_checksum = text_member(j, "netmodule_checksum")?;
        let serial_number = text_member(j, "serial_number")?;
        let operation_mode = text_member(j, "operation_mode")?;
        let update_error_code = text_member(j, "update_error_code")?;
        let net_module_num = u32_member(j, "net_module_num")?;
        let update_data_type = u32_member(j, "update_data_type")?;
        let analytics_info = AnalyticsInfo::from_json(member(j, "analytics_info")?)?;
        Some(DeviceInfo {
            model_name,
            destination,
            device_id,
            system_id,
            system_version,
            api_version,
            netmodule_generation,
            netmodule_version,
            netmodule_checksum,
            serial_number,
            operation_mode,
            update_error_code,
            net_module_num,
            update_data_type,
            analytics_info,
        })
    }

    /// Whether `r` is what a decoding outcome gives: the record read from the
    /// document when there is one that fits, else the zero value.
    pub open spec fn outcome(parsed: Option<Json>, r: DeviceInfo) -> bool {
        match parsed {
            Some(j) => if Self::fits(j) {
                r.decoded_from(j)
            } else {
                r.is_zero()
            },
            None => r.is_zero(),
        }
    }

    /// The record read from a parsed document, or the zero value when there is
    /// no document or it does not fit.
    pub fn from_parsed(parsed: &Option<Json>) -> (r: DeviceInfo)
        ensures
            Self::outcome(*parsed, r),
    {
        match parsed {
            Some(j) => match Self::from_json(j) {
                Some(x) => x,
                None => DeviceInfo::default(),
            },
            None => DeviceInfo::default(),
        }
    }

    /// The record that a response body holds, or the zero value when the body
    /// is empty, is not JSON, or does not fit.
    pub fn from_body(body: &str) -> (r: DeviceInfo)
        ensures
            Self::outcome(parsed_json(body@), r),
            parsed_json(body@) is None ==> r.is_zero(),
            body@.len() == 0 ==> r.is_zero(),
    {
        let parsed = parse_json(body);
        Self::from_parsed(&parsed)
    }
}

impl Default for DeviceInfo {
    fn default() -> (r: Self)
        ensures
            r.is_zero(),
    {
        DeviceInfo {
            model_name: String::new(),
            destination: String::new(),
            device_id: String::new(),
            system_id: String::new(),
            system_version: String::from_str("0"),
            api_version: String::from_str("0"),
            netmodule_generation: 0,
            netmodule_version: String::new(),
            netmodule_checksum: String::new(),
            serial_number: String::new(),
            operation_mode: String::new(),
            update_error_code: String::new(),
            net_module_num: 0,
            update_data_type: 0,
            analytics_info: AnalyticsInfo::default(),
        }
    }
}

/// The operating state of a zone.
#[derive(Debug, Clone, PartialEq)]
pub struct ZoneStatus {
    pub power: String,
    pub sleep: u32,
    pub volume: u32,
    pub mute: bool,
    pub max_volume: u32,
    pub input: String,
    pub input_text: String,
    pub distribution_enable: bool,
    pub sound_program: String,
    pub surr_decoder_type: String,
    pub pure_direct: bool,
    pub enhancer: bool,
    pub tone_control: ToneControl,
    pub dialogue_level: u32,
    pub dialogue_lift: u32,
    pub subwoofer_volume: u32,
    pub link_control: String,
    pub link_audio_delay: String,
    pub disable_flags: u32,
    pub contents_display: bool,
    pub actual_volume: ActualVolume,
    pub party_enable: bool,
    pub extra_bass: bool,
    pub adaptive_drc: bool,
    pub dts_dialogue_control: u32,
    pub adaptive_dsp_level: bool,
}

impl ZoneStatus {
    /// Whether `j` is an object holding every field with the expected type.
    pub open spec fn fits(j: Json) -> bool {
        &&& as_text(member_of(j, "power"@)) is Some
        &&& as_u32(member_of(j, "sleep"@)) is Some
        &&& as_u32(member_of(j, "volume"@)) is Some
        &&& as_bool(member_of(j, "mute"@)) is Some
        &&& as_u32(member_of(j, "max_volume"@)) is Some
        &&& as_text(member_of(j, "input"@)) is Some
        &&& as_text(member_of(j, "input_text"@)) is Some
        &&& as_bool(member_of(j, "distribution_enable"@)) is Some
        &&& as_text(member_of(j, "sound_program"@)) is Some
        &&& as_text(member_of(j, "surr_decoder_type"@)) is Some
        &&& as_bool(member_of(j, "pure_direct"@)) is Some
        &&& as_bool(member_of(j, "enhancer"@)) is Some
        &&& match member_of(j, "tone_control"@) {
            Some(o) => ToneControl::fits(o),
            None => false,
        }
        &&& as_u32(member_of(j, "dialogue_level"@)) is Some
        &&& as_u32(member_of(j, "dialogue_lift"@)) is Some
        &&& as_u32(member_of(j, "subwoofer_volume"@)) is Some
        &&& as_text(member_of(j, "link_control"@)) is Some
        &&& as_text(member_of(j, "link_audio_delay"@)) is Some
        &&& as_u32(member_of(j, "disable_flags"@)) is Some
        &&& as_bool(member_of(j, "contents_display"@)) is Some
        &&& match member_of(j, "actual_volume"@) {
            Some(o) => ActualVolume::fits(o),
            None => false,
        }
        &&& as_bool(member_of(j, "party_enable"@)) is Some
        &&& as_bool(member_of(j, "extra_bass"@)) is Some
        &&& as_bool(member_of(j, "adaptive_drc"@)) is Some
        &&& as_u32(member_of(j, "dts_dialogue_control"@)) is Some
        &&& as_bool(member_of(j, "adaptive_dsp_level"@)) is Some
    }

    /// Whether each field holds the value of the member of the same name in `j`.
    pub open spec fn decoded_from(self, j: Json) -> bool {
        &&& as_text(member_of(j, "power"@)) == Some(self.power@)
        &&& as_u32(member_of(j, "sleep"@)) == Some(self.sleep)
        &&& as_u32(member_of(j, "volume"@)) == Some(self.volume)
        &&& as_bool(member_of(j, "mute"@)) == Some(self.mute)
        &&& as_u32(member_of(j, "max_volume"@)) == Some(self.max_volume)
        &&& as_text(member_of(j, "input"@)) == Some(self.input@)
        &&& as_text(member_of(j, "input_text"@)) == Some(self.input_text@)
        &&& as_bool(member_of(j, "distribution_enable"@)) == Some(self.distribution_enable)
        &&& as_text(member_of(j, "sound_program"@)) == Some(self.sound_program@)
        &&& as_text(member_of(j, "surr_decoder_type"@)) == Some(self.surr_decoder_type@)
        &&& as_bool(member_of(j, "pure_direct"@)) == Some(self.pure_direct)
        &&& as_bool(member_of(j, "enhancer"@)) == Some(self.enhancer)
        &&& match member_of(j, "tone_control"@) {
            Some(o) => self.tone_control.decoded_from(o),
            None => false,
        }
        &&& as_u32(member_of(j, "dialogue_level"@)) == Some(self.dialogue_level)
        &&& as_u32(member_of(j, "dialogue_lift"@)) == Some(self.dialogue_lift)
        &&& as_u32(member_of(j, "subwoofer_volume"@)) == Some(self.subwoofer_volume)
        &&& as_text(member_of(j, "link_control"@)) == Some(self.link_control@)
        &&& as_text(member_of(j, "link_audio_delay"@)) == Some(self.link_audio_delay@)
        &&& as_u32(member_of(j, "disable_flags"@)) == Some(self.disable_flags)
        &&& as_bool(member_of(j, "contents_display"@)) == Some(self.contents_display)
        &&& match member_of(j, "actual_volume"@) {
            Some(o) => self.actual_volume.decoded_from(o),
            None => false,
        }
        &&& as_bool(member_of(j, "party_enable"@)) == Some(self.party_enable)
        &&& as_bool(member_of(j, "extra_bass"@)) == Some(self.extra_bass)
        &&& as_bool(member_of(j, "adaptive_drc"@)) == Some(self.adaptive_drc)
        &&& as_u32(member_of(j, "dts_dialogue_control"@)) == Some(self.dts_dialogue_control)
        &&& as_bool(member_of(j, "adaptive_dsp_level"@)) == Some(self.adaptive_dsp_level)
    }

    /// Whether every field holds its zero value.
    pub open spec fn is_zero(self) -> bool {
        &&& self.power@.len() == 0
        &&& self.sleep == 0
        &&& self.volume == 0
        &&& !self.mute
        &&& self.max_volume == 0
        &&& self.input@.len() == 0
        &&& self.input_text@.len() == 0
        &&& !self.distribution_enable
        &&& self.sound_program@.len() == 0
        &&& self.surr_decoder_type@.len() == 0
        &&& !self.pure_direct
        &&& !self.enhancer
        &&& self.tone_control.is_zero()
        &&& self.dialogue_level == 0
        &&& self.dialogue_lift == 0
        &&& self.subwoofer_volume == 0
        &&& self.link_control@.len() == 0
        &&& self.link_audio_delay@.len() == 0
        &&& self.disable_flags == 0
        &&& !self.contents_display
        &&& self.actual_volume.is_zero()
        &&& !self.party_enable
        &&& !self.extra_bass
        &&& !self.adaptive_drc
        &&& self.dts_dialogue_control == 0
        &&& !self.adaptive_dsp_level
    }

    /// Reads the record from `j`; `None` when `j` does not fit.
    pub fn from_json(j: &Json) -> (r: Option<ZoneStatus>)
        ensures
            r is Some <==> Self::fits(*j),
            r matches Some(x) ==> x.decoded_from(*j),
    {
        let power = text_member(j, "power")?;
        let sleep = u32_member(j, "sleep")?;
        let volume = u32_member(j, "volume")?;
        let mute = bool_member(j, "mute")?;
        let max_volume = u32_member(j, "max_volume")?;
        let input = text_member(j, "input")?;
        let input_text = text_member(j, "input_text")?;
        let distribution_enable = bool_member(j, "distribution_enable")?;
        let sound_program = text_member(j, "sound_program")?;
        let surr_decoder_type = text_member(j, "surr_decoder_type")?;
        let pure_direct = bool_member(j, "pure_direct")?;
        let enhancer = bool_member(j, "enhancer")?;
        let tone_control = ToneControl::from_json(member(j, "tone_control")?)?;
        let dialogue_level = u32_member(j, "dialogue_level")?;
        let dialogue_lift = u32_member(j, "dialogue_lift")?;
        let subwoofer_volume = u32_member(j, "subwoofer_volume")?;
        let link_control = text_member(j, "link_control")?;
        let link_audio_delay = text_member(j, "link_audio_delay")?;
        let disable_flags = u32_member(j, "disable_flags")?;
        let contents_display = bool_member(j, "contents_display")?;
        let actual_volume = ActualVolume::from_json(member(j, "actual_volume")?)?;
        let party_enable = bool_member(j, "party_enable")?;
        let extra_bass = bool_member(j, "extra_bass")?;
        let adaptive_drc = bool_member(j, "adaptive_drc")?;
        let dts_dialogue_control = u32_member(j, "dts_dialogue_control")?;
        let adaptive_dsp_level = bool_member(j, "adaptive_dsp_level")?;
        Some(ZoneStatus {
            power,
            sleep,
            volume,
            mute,
            max_volume,
            input,
            input_text,
            distribution_enable,
            sound_program,
            surr_decoder_type,
            pure_direct,
            enhancer,
            tone_control,
            dialogue_level,
            dialogue_lift,
            subwoofer_volume,
            link_control,
            link_audio_delay,
            disable_flags,
            contents_display,
            actual_volume,
            party_enable,
            extra_bass,
            adaptive_drc,
            dts_dialogue_control,
            adaptive_dsp_level,
        })
    }

    /// Whether `r` is what a decoding outcome gives: the record read from the
    /// document when there is one that fits, else the zero value.
    pub open spec fn outcome(parsed: Option<Json>, r: ZoneStatus) -> bool {
        match parsed {
            Some(j) => if Self::fits(j) {
                r.decoded_from(j)
            } else {
                r.is_zero()
            },
            None => r.is_zero(),
        }
    }

    /// The record read from a parsed document, or the zero value when there is
    /// no document or it does not fit.
    pub fn from_parsed(parsed: &Option<Json>) -> (r: ZoneStatus)
        ensures
            Self::outcome(*parsed, r),
    {
        match parsed {
            Some(j) => match Self::from_json(j) {
                Some(x) => x,
                None => ZoneStatus::default(),
            },
            None => ZoneStatus::default(),
        }
    }

    /// The record that a response body holds, or the zero value when the body
    /// is empty, is not JSON, or does not fit.
    pub fn from_body(body: &str) -> (r: ZoneStatus)
        ensures
            Self::outcome(parsed_json(body@), r),
            parsed_json(body@) is None ==> r.is_zero(),
            body@.len() == 0 ==> r.is_zero(),
    {
        let parsed = parse_json(body);
        Self::from_parsed(&parsed)
    }
}

impl Default for ZoneStatus {
    fn default() -> (r: Self)
        ensures
            r.is_zero(),
    {
        ZoneStatus {
            power: String::new(),
            sleep: 0,
            volume: 0,
            mute: false,
            max_volume: 0,
            input: String::new(),
            input_text: String::new(),
            distribution_enable: false,
            sound_program: String::new(),
            surr_decoder_type: String::new(),
            pure_direct: false,
            enhancer: false,
            tone_control: ToneControl::default(),
            dialogue_level: 0,
            dialogue_lift: 0,
            subwoofer_volume: 0,
            link_control: String::new(),
            link_audio_delay: String::new(),
            disable_flags: 0,
            contents_display: false,
            actual_volume: ActualVolume::default(),
            party_enable: false,
            extra_bass: false,
            adaptive_drc: false,
            dts_dialogue_control: 0,
            adaptive_dsp_level: false,
        }
    }
}

} // verus!
