//! Numeric status codes returned by the receiver's control interface.
use vstd::prelude::*;

verus! {

/// A status code reported by the receiver.
#[derive(Debug, Clone, Copy, PartialEq, Eq, Structural)]
pub enum ResponseCode {
    Successful,
    Initializing,
    InternalError,
    InvalidRequest,
    InvalidParameter,
    Guarded,
    TimeOut,
    FirmwareUpdating,
    AccessError,
    OtherErrors,
    WrongUserName,
    WrongPassword,
    AccountExpired,
    AccountDisconnected,
    AccountLimitReached,
    ServerMaintenance,
    InvalidAccount,
    LicenseError,
    ReadOnlyMode,
    MaxStations,
    AccessDenied,
    NeedSpecifyPlaylist,
    NeedCreatePlaylist,
    SimultaneousLoginsLimit,
    LinkingInProgress,
    UnlinkingInProgress,
}

/// Whether `c` is one of the codes that the control interface documents.
pub open spec fn is_documented_code(c: u32) -> bool {
    c <= 6 || (99 <= c && c <= 115) || c == 200 || c == 201
}

/// The variant that a numeric code stands for; every undocumented code stands
/// for `OtherErrors`.
pub open spec fn response_code_of(c: u32) -> ResponseCode {
    match c {
        0 => ResponseCode::Successful,
        1 => ResponseCode::Initializing,
        2 => ResponseCode::InternalError,
        3 => ResponseCode::InvalidRequest,
        4 => ResponseCode::InvalidParameter,
        5 => ResponseCode::Guarded,
        6 => ResponseCode::TimeOut,
        99 => ResponseCode::FirmwareUpdating,
        100 => ResponseCode::AccessError,
        101 => ResponseCode::OtherErrors,
        102 => ResponseCode::WrongUserName,
        103 => ResponseCode::WrongPassword,
        104 => ResponseCode::AccountExpired,
        105 => ResponseCode::AccountDisconnected,
        106 => ResponseCode::AccountLimitReached,
        107 => ResponseCode::ServerMaintenance,
        108 => ResponseCode::InvalidAccount,
        109 => ResponseCode::LicenseError,
        110 => ResponseCode::ReadOnlyMode,
        111 => ResponseCode::MaxStations,
        112 => ResponseCode::AccessDenied,
        113 => ResponseCode::NeedSpecifyPlaylist,
        114 => ResponseCode::NeedCreatePlaylist,
        115 => ResponseCode::SimultaneousLoginsLimit,
        200 => ResponseCode::LinkingInProgress,
        201 => ResponseCode::UnlinkingInProgress,
        _ => ResponseCode::OtherErrors,
    }
}

impl ResponseCode {
    /// The numeric code of a variant.
    pub open spec fn code_spec(self) -> u32 {
        match self {
            ResponseCode::Successful => 0,
            ResponseCode::Initializing => 1,
            ResponseCode::InternalError => 2,
            ResponseCode::InvalidRequest => 3,
            ResponseCode::InvalidParameter => 4,
            ResponseCode::Guarded => 5,
            ResponseCode::TimeOut => 6,
            ResponseCode::FirmwareUpdating => 99,
            ResponseCode::AccessError => 100,
            ResponseCode::OtherErrors => 101,
            ResponseCode::WrongUserName => 102,
            ResponseCode::WrongPassword => 103,
            ResponseCode::AccountExpired => 104,
            ResponseCode::AccountDisconnected => 105,
            ResponseCode::AccountLimitReached => 106,
            ResponseCode::ServerMaintenance => 107,
            ResponseCode::InvalidAccount => 108,
            ResponseCode::LicenseError => 109,
            ResponseCode::ReadOnlyMode => 110,
            ResponseCode::MaxStations => 111,
            ResponseCode::AccessDenied => 112,
            ResponseCode::NeedSpecifyPlaylist => 113,
            ResponseCode::NeedCreatePlaylist => 114,
            ResponseCode::SimultaneousLoginsLimit => 115,
            ResponseCode::LinkingInProgress => 200,
            ResponseCode::UnlinkingInProgress => 201,
        }
    }

    /// The numeric code of this variant.
    pub fn code(&self) -> (r: u32)
        ensures
            r == self.code_spec(),
            is_documented_code(r),
    {
        match self {
            ResponseCode::Successful => 0,
            ResponseCode::Initializing => 1,
            ResponseCode::InternalError => 2,
            ResponseCode::InvalidRequest => 3,
            ResponseCode::InvalidParameter => 4,
            ResponseCode::Guarded => 5,
            ResponseCode::TimeOut => 6,
            ResponseCode::FirmwareUpdating => 99,
            ResponseCode::AccessError => 100,
            ResponseCode::OtherErrors => 101,
            ResponseCode::WrongUserName => 102,
            ResponseCode::WrongPassword => 103,
            ResponseCode::AccountExpired => 104,
            ResponseCode::AccountDisconnected => 105,
            ResponseCode::AccountLimitReached => 106,
            ResponseCode::ServerMaintenance => 107,
            ResponseCode::InvalidAccount => 108,
            ResponseCode::LicenseError => 109,
            ResponseCode::ReadOnlyMode => 110,
            ResponseCode::MaxStations => 111,
            ResponseCode::AccessDenied => 112,
            ResponseCode::NeedSpecifyPlaylist => 113,
            ResponseCode::NeedCreatePlaylist => 114,
            ResponseCode::SimultaneousLoginsLimit => 115,
            ResponseCode::LinkingInProgress => 200,
            ResponseCode::UnlinkingInProgress => 201,
        }
    }

    /// The human-readable description of a variant.
    pub open spec fn description_spec(self) -> Seq<char> {
        match self {
            ResponseCode::Successful => "Successful"@,
            ResponseCode::Initializing => "Initializing"@,
            ResponseCode::InternalError => "Internal Error"@,
            ResponseCode::InvalidRequest => "Invalid Request"@,
            ResponseCode::InvalidParameter => "Invalid Parameter"@,
            ResponseCode::Guarded => "Guarded (Operation not allowed)"@,
            ResponseCode::TimeOut => "Request Timed Out"@,
            ResponseCode::FirmwareUpdating => "Firmware Updating"@,
            ResponseCode::AccessError => "Access Error"@,
            ResponseCode::OtherErrors => "Other Error"@,
            ResponseCode::WrongUserName => "Wrong Username"@,
            ResponseCode::WrongPassword => "Wrong Password"@,
            ResponseCode::AccountExpired => "Account Expired"@,
            ResponseCode::AccountDisconnected => "Account Disconnected"@,
            ResponseCode::AccountLimitReached => "Account Limit Reached"@,
            ResponseCode::ServerMaintenance => "Server Under Maintenance"@,
            ResponseCode::InvalidAccount => "Invalid Account"@,
            ResponseCode::LicenseError => "License Error"@,
            ResponseCode::ReadOnlyMode => "Read-Only Mode"@,
            ResponseCode::MaxStations => "Maximum Stations Reached"@,
            ResponseCode::AccessDenied => "Access Denied"@,
            ResponseCode::NeedSpecifyPlaylist => "Playlist Must Be Specified"@,
            ResponseCode::NeedCreatePlaylist => "Playlist Must Be Created"@,
            ResponseCode::SimultaneousLoginsLimit => "Simultaneous Logins Limit Reached"@,
            ResponseCode::LinkingInProgress => "Linking In Progress"@,
            ResponseCode::UnlinkingInProgress => "Unlinking In Progress"@,
        }
    }

    /// The human-readable description of this variant; never empty.
    pub fn description(&self) -> (r: String)
        ensures
            r@ == self.description_spec(),
            r@.len() > 0,
    {
        let s: &str = match self {
            ResponseCode::Successful => "Successful",
            ResponseCode::Initializing => "Initializing",
            ResponseCode::InternalError => "Internal Error",
            ResponseCode::InvalidRequest => "Invalid Request",
            ResponseCode::InvalidParameter => "Invalid Parameter",
            ResponseCode::Guarded => "Guarded (Operation not allowed)",
            ResponseCode::TimeOut => "Request Timed Out",
            ResponseCode::FirmwareUpdating => "Firmware Updating",
            ResponseCode::AccessError => "Access Error",
            ResponseCode::OtherErrors => "Other Error",
            ResponseCode::WrongUserName => "Wrong Username",
            ResponseCode::WrongPassword => "Wrong Password",
            ResponseCode::AccountExpired => "Account Expired",
            ResponseCode::AccountDisconnected => "Account Disconnected",
            ResponseCode::AccountLimitReached => "Account Limit Reached",
            ResponseCode::ServerMaintenance => "Server Under Maintenance",
            ResponseCode::InvalidAccount => "Invalid Account",
            ResponseCode::LicenseError => "License Error",
            ResponseCode::ReadOnlyMode => "Read-Only Mode",
            ResponseCode::MaxStations => "Maximum Stations Reached",
            ResponseCode::AccessDenied => "Access Denied",
            ResponseCode::NeedSpecifyPlaylist => "Playlist Must Be Specified",
            ResponseCode::NeedCreatePlaylist => "Playlist Must Be Created",
            ResponseCode::SimultaneousLoginsLimit => "Simultaneous Logins Limit Reached",
            ResponseCode::LinkingInProgress => "Linking In Progress",
            ResponseCode::UnlinkingInProgress => "Unlinking In Progress",
        };
        proof {
            lemma_descriptions_not_empty();
            assert(self.description_spec().len() > 0);
        }
        String::from_str(s)
    }
}

impl From<u32> for ResponseCode {
    /// Decodes a numeric code; the mapping is total, undocumented codes give
    /// `OtherErrors`.
    fn from(code: u32) -> (r: ResponseCode) {
        match code {
            0 => ResponseCode::Successful,
            1 => ResponseCode::Initializing,
            2 => ResponseCode::InternalError,
            3 => ResponseCode::InvalidRequest,
            4 => ResponseCode::InvalidParameter,
            5 => ResponseCode::Guarded,
            6 => ResponseCode::TimeOut,
            99 => ResponseCode::FirmwareUpdating,
            100 => ResponseCode::AccessError,
            101 => ResponseCode::OtherErrors,
            102 => ResponseCode::WrongUserName,
            103 => ResponseCode::WrongPassword,
            104 => ResponseCode::AccountExpired,
            105 => ResponseCode::AccountDisconnected,
            106 => ResponseCode::AccountLimitReached,
            107 => ResponseCode::ServerMaintenance,
            108 => ResponseCode::InvalidAccount,
            109 => ResponseCode::LicenseError,
            110 => ResponseCode::ReadOnlyMode,
            111 => ResponseCode::MaxStations,
            112 => ResponseCode::AccessDenied,
            113 => ResponseCode::NeedSpecifyPlaylist,
            114 => ResponseCode::NeedCreatePlaylist,
            115 => ResponseCode::SimultaneousLoginsLimit,
            200 => ResponseCode::LinkingInProgress,
            201 => ResponseCode::UnlinkingInProgress,
            _ => ResponseCode::OtherErrors,
        }
    }
}

impl vstd::std_specs::convert::FromSpecImpl<u32> for ResponseCode {
    open spec fn obeys_from_spec() -> bool {
        true
    }

    open spec fn from_spec(code: u32) -> ResponseCode {
        response_code_of(code)
    }
}

/// Every variant's description holds at least one character.
pub proof fn lemma_descriptions_not_empty()
    ensures
        forall|r: ResponseCode| #[trigger] r.description_spec().len() > 0,
{
    reveal_strlit("Successful");
    reveal_strlit("Initializing");
    reveal_strlit("Internal Error");
    reveal_strlit("Invalid Request");
    reveal_strlit("Invalid Parameter");
    reveal_strlit("Guarded (Operation not allowed)");
    reveal_strlit("Request Timed Out");
    reveal_strlit("Firmware Updating");
    reveal_strlit("Access Error");
    reveal_strlit("Other Error");
    reveal_strlit("Wrong Username");
    reveal_strlit("Wrong Password");
    reveal_strlit("Account Expired");
    reveal_strlit("Account Disconnected");
    reveal_strlit("Account Limit Reached");
    reveal_strlit("Server Under Maintenance");
    reveal_strlit("Invalid Account");
    reveal_strlit("License Error");
    reveal_strlit("Read-Only Mode");
    reveal_strlit("Maximum Stations Reached");
    reveal_strlit("Access Denied");
    reveal_strlit("Playlist Must Be Specified");
    reveal_strlit("Playlist Must Be Created");
    reveal_strlit("Simultaneous Logins Limit Reached");
    reveal_strlit("Linking In Progress");
    reveal_strlit("Unlinking In Progress");
}

/// Every documented code decodes to the variant whose code it is, and every
/// other code decodes to `OtherErrors`, whose description is not empty.
pub proof fn lemma_decode_total(c: u32)
    ensures
        is_documented_code(c) ==> response_code_of(c).code_spec() == c,
        !is_documented_code(c) ==> response_code_of(c) == ResponseCode::OtherErrors,
        response_code_of(c).description_spec().len() > 0,
{
    lemma_descriptions_not_empty();
}

/// Encoding a variant to its numeric code and decoding that code gives the
/// variant back.
pub proof fn lemma_code_round_trip(r: ResponseCode)
    ensures
        response_code_of(r.code_spec()) == r,
{
}

} // verus!
