use vstd::prelude::*;
use nokhwa_bindings_macos::AVFError;
use crate::decimal::{decimal, usize_to_decimal};
use crate::error::{NokhwaError, NokhwaErrorView};
use crate::types::CaptureAPIBackend;

verus! {

/// The error type of the AVFoundation bindings
/// (`nokhwa_bindings_macos::AVFError`), declared with its variants so that
/// they can be matched on.
#[verifier::external_type_specification]
pub struct ExAVFError(AVFError);

/// How each AVFoundation error is classified.
pub open spec fn translate_avf_error(err: AVFError) -> NokhwaErrorView {
    match err {
        AVFError::InvalidType { expected, found } => NokhwaErrorView::GetPropertyError {
            property: "type of "@ + expected@,
            error: "Invalid type, found "@ + found@,
        },
        AVFError::InvalidValue { found } => NokhwaErrorView::GetPropertyError {
            property: found@,
            error: "Invalid Value"@,
        },
        AVFError::AlreadyBusy(why) => NokhwaErrorView::GeneralError("Already Busy: "@ + why@),
        AVFError::FailedToOpenDevice { index, why } => NokhwaErrorView::OpenDeviceError(
            decimal(index as nat),
            why@,
        ),
        AVFError::ConfigNotAccepted => NokhwaErrorView::SetPropertyError {
            property: "Configuration"@,
            value: "Invalid"@,
            error: "Rejected by AVFoundation"@,
        },
        AVFError::General(why) => NokhwaErrorView::GeneralError("AVFoundation Error: "@ + why@),
        AVFError::RejectedInput => NokhwaErrorView::OpenStreamError(
            "AVFoundation Input Rejection"@,
        ),
        AVFError::RejectedOutput => NokhwaErrorView::OpenStreamError(
            "AVFoundation Output Rejection"@,
        ),
        AVFError::StreamOpen(why) => NokhwaErrorView::OpenStreamError(why@),
        AVFError::ReadFrame(why) => NokhwaErrorView::ReadFrameError(why@),
        AVFError::NotSupported => NokhwaErrorView::UnsupportedOperationError(
            CaptureAPIBackend::AVFoundation,
        ),
    }
}

// A `NokhwaError` holds `String`s, which spec code cannot build from
// literals, so the result of `from` is stated through its model instead.
impl vstd::std_specs::convert::FromSpecImpl<AVFError> for NokhwaError {
    open spec fn obeys_from_spec() -> bool {
        false
    }

    open spec fn from_spec(err: AVFError) -> NokhwaError {
        arbitrary()
    }
}

fn prefixed(prefix: &str, text: &str) -> (r: String)
    ensures
        r@ == prefix@ + text@,
{
    let mut s = prefix.to_owned();
    s.append(text);
    s
}

impl From<AVFError> for NokhwaError {
    fn from(avf_error: AVFError) -> (r: NokhwaError)
        ensures
            r@ == translate_avf_error(avf_error),
    {
        match avf_error {
            AVFError::InvalidType { expected, found } => NokhwaError::GetPropertyError {
                property: prefixed("type of ", expected.as_str()),
                error: prefixed("Invalid type, found ", found.as_str()),
            },
            AVFError::InvalidValue { found } => NokhwaError::GetPropertyError {
                property: found,
                error: "Invalid Value".to_owned(),
            },
            AVFError::AlreadyBusy(why) => NokhwaError::GeneralError(
                prefixed("Already Busy: ", why.as_str()),
            ),
            AVFError::FailedToOpenDevice { index, why } => NokhwaError::OpenDeviceError(
                usize_to_decimal(index),
                why,
            ),
            AVFError::ConfigNotAccepted => NokhwaError::SetPropertyError {
                property: "Configuration".to_owned(),
                value: "Invalid".to_owned(),
                error: "Rejected by AVFoundation".to_owned(),
            },
            AVFError::General(why) => NokhwaError::GeneralError(
                prefixed("AVFoundation Error: ", why.as_str()),
            ),
            AVFError::RejectedInput => NokhwaError::OpenStreamError(
                "AVFoundation Input Rejection".to_owned(),
            ),
            AVFError::RejectedOutput => NokhwaError::OpenStreamError(
                "AVFoundation Output Rejection".to_owned(),
            ),
            AVFError::StreamOpen(why) => NokhwaError::OpenStreamError(why),
            AVFError::ReadFrame(why) => NokhwaError::ReadFrameError(why),
            AVFError::NotSupported => NokhwaError::UnsupportedOperationError(
                CaptureAPIBackend::AVFoundation,
            ),
        }
    }
}

} // verus!
