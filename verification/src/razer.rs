//! The result, event and status codes of the external broadcast SDK, as
//! plain enumerations with their numeric protocol values. Loading the SDK
//! and registering its callback happen outside this crate; the codes let
//! that boundary hand plain integers in and get typed values back.

use vstd::prelude::*;

verus! {

/// A result code returned by the SDK's entry points.
#[derive(Clone, Copy, PartialEq, Eq, Structural, Debug)]
pub enum RzResult {
    Invalid,
    Success,
    AccessDenied,
    InvalidHandle,
    InvalidAccess,
    NotSupported,
    InvalidParameter,
    ServiceNotExist,
    ServiceNotActive,
    SingleInstanceApp,
    DeviceNotConnected,
    RequestAborted,
    NotAuthenticated,
    AlreadyInitialized,
    ResourceDisabled,
    DeviceNotAvailable,
    NotValidState,
    InsufficientAccessRights,
    NoMoreItems,
    Failed,
}

impl RzResult {
    /// The numeric value the SDK uses for this result.
    pub open spec fn code_spec(self) -> int {
        match self {
            RzResult::Invalid => -1,
            RzResult::Success => 0,
            RzResult::AccessDenied => 5,
            RzResult::InvalidHandle => 6,
            RzResult::InvalidAccess => 12,
            RzResult::NotSupported => 50,
            RzResult::InvalidParameter => 87,
            RzResult::ServiceNotExist => 1060,
            RzResult::ServiceNotActive => 1062,
            RzResult::SingleInstanceApp => 1152,
            RzResult::DeviceNotConnected => 1167,
            RzResult::RequestAborted => 1235,
            RzResult::NotAuthenticated => 1244,
            RzResult::AlreadyInitialized => 1247,
            RzResult::ResourceDisabled => 4309,
            RzResult::DeviceNotAvailable => 4319,
            RzResult::NotValidState => 5023,
            RzResult::InsufficientAccessRights => 8344,
            RzResult::NoMoreItems => 259,
            RzResult::Failed => 2147483647,
        }
    }

    /// Whether `c` is one of the SDK's known result values.
    pub open spec fn is_known_code(c: int) -> bool {
        c == -1 || c == 0 || c == 5 || c == 6 || c == 12 || c == 50 || c == 87 || c == 1060 || c
            == 1062 || c == 1152 || c == 1167 || c == 1235 || c == 1244 || c == 1247 || c == 4309
            || c == 4319 || c == 5023 || c == 8344 || c == 259 || c == 2147483647
    }

    pub fn code(&self) -> (c: i32)
        ensures
            c == self.code_spec(),
    {
        match self {
            RzResult::Invalid => -1,
            RzResult::Success => 0,
            RzResult::AccessDenied => 5,
            RzResult::InvalidHandle => 6,
            RzResult::InvalidAccess => 12,
            RzResult::NotSupported => 50,
            RzResult::InvalidParameter => 87,
            RzResult::ServiceNotExist => 1060,
            RzResult::ServiceNotActive => 1062,
            RzResult::SingleInstanceApp => 1152,
            RzResult::DeviceNotConnected => 1167,
            RzResult::RequestAborted => 1235,
            RzResult::NotAuthenticated => 1244,
            RzResult::AlreadyInitialized => 1247,
            RzResult::ResourceDisabled => 4309,
            RzResult::DeviceNotAvailable => 4319,
            RzResult::NotValidState => 5023,
            RzResult::InsufficientAccessRights => 8344,
            RzResult::NoMoreItems => 259,
            RzResult::Failed => 2147483647,
        }
    }

    /// Read a raw SDK result value back into its enumeration, or `None` for
    /// a value the SDK does not define.
    pub fn from_code(c: i32) -> (r: Option<RzResult>)
        ensures
            match r {
                Some(x) => x.code_spec() == c as int && Self::is_known_code(c as int),
                None => !Self::is_known_code(c as int),
            },
    {
        match c {
            -1 => Some(RzResult::Invalid),
            0 => Some(RzResult::Success),
            5 => Some(RzResult::AccessDenied),
            6 => Some(RzResult::InvalidHandle),
            12 => Some(RzResult::InvalidAccess),
            50 => Some(RzResult::NotSupported),
            87 => Some(RzResult::InvalidParameter),
            1060 => Some(RzResult::ServiceNotExist),
            1062 => Some(RzResult::ServiceNotActive),
            1152 => Some(RzResult::SingleInstanceApp),
            1167 => Some(RzResult::DeviceNotConnected),
            1235 => Some(RzResult::RequestAborted),
            1244 => Some(RzResult::NotAuthenticated),
            1247 => Some(RzResult::AlreadyInitialized),
            4309 => Some(RzResult::ResourceDisabled),
            4319 => Some(RzResult::DeviceNotAvailable),
            5023 => Some(RzResult::NotValidState),
            8344 => Some(RzResult::InsufficientAccessRights),
            259 => Some(RzResult::NoMoreItems),
            2147483647 => Some(RzResult::Failed),
            _ => None,
        }
    }
}

/// The kind of an event the SDK's callback delivers: a color broadcast or a
/// liveness status change.
#[derive(Clone, Copy, PartialEq, Eq, Structural, Debug)]
pub enum RzType {
    BroadcastEffect,
    BroadcastStatus,
}

impl RzType {
    /// The numeric value the SDK uses for this event kind.
    pub open spec fn code_spec(self) -> int {
        match self {
            RzType::BroadcastEffect => 1,
            RzType::BroadcastStatus => 2,
        }
    }

    pub fn code(&self) -> (c: i32)
        ensures
            c == self.code_spec(),
    {
        match self {
            RzType::BroadcastEffect => 1,
            RzType::BroadcastStatus => 2,
        }
    }

    /// Read a raw event kind back into its enumeration, or `None` for a
    /// value the SDK does not define.
    pub fn from_code(c: i32) -> (r: Option<RzType>)
        ensures
            match r {
                Some(x) => x.code_spec() == c as int,
                None => c != 1 && c != 2,
            },
    {
        match c {
            1 => Some(RzType::BroadcastEffect),
            2 => Some(RzType::BroadcastStatus),
            _ => None,
        }
    }
}

/// The liveness a status event reports for the external source.
#[derive(Clone, Copy, PartialEq, Eq, Structural, Debug)]
pub enum RzStatus {
    Live,
    NotLive,
}

impl RzStatus {
    /// The numeric value the SDK uses for this status.
    pub open spec fn code_spec(self) -> int {
        match self {
            RzStatus::Live => 1,
            RzStatus::NotLive => 2,
        }
    }

    pub fn code(&self) -> (c: i32)
        ensures
            c == self.code_spec(),
    {
        match self {
            RzStatus::Live => 1,
            RzStatus::NotLive => 2,
        }
    }
}

} // verus!
