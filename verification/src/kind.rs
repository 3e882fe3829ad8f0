//! Classification of the numeric response-kind tag that the native client
//! attaches to each delivered record.

use vstd::prelude::*;

verus! {

/// Tag of a successful result.
pub const TAG_SUCCESS: u32 = 0;
/// Tag of an error result.
pub const TAG_ERROR: u32 = 1;
/// Tag of a record that carries no data. Delivered like any other kind,
/// with no suppression.
pub const TAG_NOP: u32 = 2;
/// Tag of an application-request record.
pub const TAG_APP_REQUEST: u32 = 3;
/// Tag of an application-notify record.
pub const TAG_APP_NOTIFY: u32 = 4;
/// Tag of a custom record.
pub const TAG_CUSTOM: u32 = 100;

/// The closed set of response kinds a delivered record can be classified as.
#[derive(Clone, Copy, Debug, PartialEq, Eq, Structural)]
pub enum ResponseKind {
    Success,
    Error,
    Custom,
    AppRequest,
    AppNotify,
    Nop,
}

/// Whether a numeric tag is one the router knows.
pub open spec fn recognized(tag: u32) -> bool {
    ||| tag == TAG_SUCCESS
    ||| tag == TAG_ERROR
    ||| tag == TAG_NOP
    ||| tag == TAG_APP_REQUEST
    ||| tag == TAG_APP_NOTIFY
    ||| tag == TAG_CUSTOM
}

/// The kind a numeric tag stands for. An unrecognized tag is normalized to
/// `Error` rather than rejected.
pub open spec fn classify_spec(tag: u32) -> ResponseKind {
    if tag == TAG_SUCCESS {
        ResponseKind::Success
    } else if tag == TAG_NOP {
        ResponseKind::Nop
    } else if tag == TAG_APP_REQUEST {
        ResponseKind::AppRequest
    } else if tag == TAG_APP_NOTIFY {
        ResponseKind::AppNotify
    } else if tag == TAG_CUSTOM {
        ResponseKind::Custom
    } else {
        ResponseKind::Error
    }
}

/// Classify a numeric tag, normalizing anything unrecognized to `Error`.
pub fn classify(tag: u32) -> (k: ResponseKind)
    ensures
        k == classify_spec(tag),
{
    if tag == TAG_SUCCESS {
        ResponseKind::Success
    } else if tag == TAG_NOP {
        ResponseKind::Nop
    } else if tag == TAG_APP_REQUEST {
        ResponseKind::AppRequest
    } else if tag == TAG_APP_NOTIFY {
        ResponseKind::AppNotify
    } else if tag == TAG_CUSTOM {
        ResponseKind::Custom
    } else {
        ResponseKind::Error
    }
}

} // verus!
