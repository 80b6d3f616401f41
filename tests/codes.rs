use yamaha_rs::ResponseCode;

const DOCUMENTED: [(u32, ResponseCode); 26] = [
    (0, ResponseCode::Successful),
    (1, ResponseCode::Initializing),
    (2, ResponseCode::InternalError),
    (3, ResponseCode::InvalidRequest),
    (4, ResponseCode::InvalidParameter),
    (5, ResponseCode::Guarded),
    (6, ResponseCode::TimeOut),
    (99, ResponseCode::FirmwareUpdating),
    (100, ResponseCode::AccessError),
    (101, ResponseCode::OtherErrors),
    (102, ResponseCode::WrongUserName),
    (103, ResponseCode::WrongPassword),
    (104, ResponseCode::AccountExpired),
    (105, ResponseCode::AccountDisconnected),
    (106, ResponseCode::AccountLimitReached),
    (107, ResponseCode::ServerMaintenance),
    (108, ResponseCode::InvalidAccount),
    (109, ResponseCode::LicenseError),
    (110, ResponseCode::ReadOnlyMode),
    (111, ResponseCode::MaxStations),
    (112, ResponseCode::AccessDenied),
    (113, ResponseCode::NeedSpecifyPlaylist),
    (114, ResponseCode::NeedCreatePlaylist),
    (115, ResponseCode::SimultaneousLoginsLimit),
    (200, ResponseCode::LinkingInProgress),
    (201, ResponseCode::UnlinkingInProgress),
];

#[test]
fn documented_codes_decode_to_their_variants() {
    for (code, variant) in DOCUMENTED {
        assert_eq!(ResponseCode::from(code), variant);
        assert!(!variant.description().is_empty());
    }
}

#[test]
fn undocumented_codes_decode_to_other_errors() {
    for code in [7u32, 8, 50, 98, 116, 150, 199, 202, 1000, u32::MAX] {
        let r = ResponseCode::from(code);
        assert_eq!(r, ResponseCode::OtherErrors);
        assert_eq!(r.description(), "Other Error");
    }
}

#[test]
fn code_round_trip() {
    for (code, variant) in DOCUMENTED {
        assert_eq!(variant.code(), code);
        assert_eq!(ResponseCode::from(variant.code()), variant);
    }
}

#[test]
fn descriptions() {
    assert_eq!(ResponseCode::Successful.description(), "Successful");
    assert_eq!(ResponseCode::Guarded.description(), "Guarded (Operation not allowed)");
    assert_eq!(ResponseCode::TimeOut.description(), "Request Timed Out");
    assert_eq!(ResponseCode::ReadOnlyMode.description(), "Read-Only Mode");
    assert_eq!(
        ResponseCode::SimultaneousLoginsLimit.description(),
        "Simultaneous Logins Limit Reached"
    );
    assert_eq!(ResponseCode::UnlinkingInProgress.description(), "Unlinking In Progress");
}
