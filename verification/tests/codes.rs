use serial_controller::razer::{RzResult, RzStatus, RzType};

#[test]
fn result_codes_match_the_sdk_values() {
    assert_eq!(RzResult::Invalid.code(), -1);
    assert_eq!(RzResult::Success.code(), 0);
    assert_eq!(RzResult::NoMoreItems.code(), 259);
    assert_eq!(RzResult::AlreadyInitialized.code(), 1247);
    assert_eq!(RzResult::Failed.code(), 2147483647);
}

#[test]
fn result_codes_round_trip() {
    let all = [
        RzResult::Invalid,
        RzResult::Success,
        RzResult::AccessDenied,
        RzResult::InvalidHandle,
        RzResult::InvalidAccess,
        RzResult::NotSupported,
        RzResult::InvalidParameter,
        RzResult::ServiceNotExist,
        RzResult::ServiceNotActive,
        RzResult::SingleInstanceApp,
        RzResult::DeviceNotConnected,
        RzResult::RequestAborted,
        RzResult::NotAuthenticated,
        RzResult::AlreadyInitialized,
        RzResult::ResourceDisabled,
        RzResult::DeviceNotAvailable,
        RzResult::NotValidState,
        RzResult::InsufficientAccessRights,
        RzResult::NoMoreItems,
        RzResult::Failed,
    ];
    for r in all {
        assert_eq!(RzResult::from_code(r.code()), Some(r));
    }
}

#[test]
fn unknown_result_code_is_rejected() {
    assert_eq!(RzResult::from_code(42), None);
}

#[test]
fn event_kind_codes_round_trip() {
    assert_eq!(RzType::from_code(1), Some(RzType::BroadcastEffect));
    assert_eq!(RzType::from_code(2), Some(RzType::BroadcastStatus));
    assert_eq!(RzType::from_code(3), None);
    assert_eq!(RzType::BroadcastEffect.code(), 1);
    assert_eq!(RzType::BroadcastStatus.code(), 2);
}

#[test]
fn status_codes_match_the_sdk_values() {
    assert_eq!(RzStatus::Live.code(), 1);
    assert_eq!(RzStatus::NotLive.code(), 2);
}
