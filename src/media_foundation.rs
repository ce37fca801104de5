use vstd::prelude::*;
use nokhwa_bindings_windows::BindingError;
use crate::error::{NokhwaError, NokhwaErrorView};
use crate::types::CaptureAPIBackend;

verus! {

/// The error type of the Media Foundation bindings
/// (`nokhwa_bindings_windows::BindingError`), declared with its variants so
/// that they can be matched on.
#[verifier::external_type_specification]
pub struct ExBindingError(BindingError);

/// How each Media Foundation error is classified.
pub open spec fn translate_binding_error(err: BindingError) -> NokhwaErrorView {
    match err {
        BindingError::InitializeError(error) => NokhwaErrorView::InitializeError {
            backend: CaptureAPIBackend::MediaFoundation,
            error: error@,
        },
        BindingError::DeInitializeError(error) => NokhwaErrorView::ShutdownError {
            backend: CaptureAPIBackend::MediaFoundation,
            error: error@,
        },
        BindingError::GUIDSetError(property, value, error) => NokhwaErrorView::SetPropertyError {
            property: property@,
            value: value@,
            error: error@,
        },
        BindingError::GUIDReadError(property, error) => NokhwaErrorView::GetPropertyError {
            property: property@,
            error: error@,
        },
        BindingError::AttributeError(error) => NokhwaErrorView::StructureError {
            structure: "IMFAttribute"@,
            error: error@,
        },
        BindingError::EnumerateError(error) => NokhwaErrorView::GetPropertyError {
            property: "Devices"@,
            error: error@,
        },
        BindingError::DeviceOpenFailError(device, error) => NokhwaErrorView::OpenDeviceError(
            device@,
            error@,
        ),
        BindingError::ReadFrameError(error) => NokhwaErrorView::ReadFrameError(error@),
        BindingError::NotImplementedError => NokhwaErrorView::NotImplementedError(
            "Docs-Only MediaFoundation"@,
        ),
    }
}

// A `NokhwaError` holds `String`s, which spec code cannot build from
// literals, so the result of `from` is stated through its model instead.
impl vstd::std_specs::convert::FromSpecImpl<BindingError> for NokhwaError {
    open spec fn obeys_from_spec() -> bool {
        false
    }

    open spec fn from_spec(err: BindingError) -> NokhwaError {
        arbitrary()
    }
}

impl From<BindingError> for NokhwaError {
    fn from(err: BindingError) -> (r: NokhwaError)
        ensures
            r@ == translate_binding_error(err),
    {
        match err {
            BindingError::InitializeError(error) => NokhwaError::InitializeError {
                backend: CaptureAPIBackend::MediaFoundation,
                error,
            },
            BindingError::DeInitializeError(error) => NokhwaError::ShutdownError {
                backend: CaptureAPIBackend::MediaFoundation,
                error,
            },
            BindingError::GUIDSetError(property, value, error) => NokhwaError::SetPropertyError {
                property,
                value,
                error,
            },
            BindingError::GUIDReadError(property, error) => NokhwaError::GetPropertyError {
                property,
                error,
            },
            BindingError::AttributeError(error) => NokhwaError::StructureError {
                structure: "IMFAttribute".to_owned(),
                error,
            },
            BindingError::EnumerateError(error) => NokhwaError::GetPropertyError {
                property: "Devices".to_owned(),
                error,
            },
            BindingError::DeviceOpenFailError(device, error) => NokhwaError::OpenDeviceError(
                device,
                error,
            ),
            BindingError::ReadFrameError(error) => NokhwaError::ReadFrameError(error),
            BindingError::NotImplementedError => NokhwaError::NotImplementedError(
                "Docs-Only MediaFoundation".to_owned(),
            ),
        }
    }
}

} // verus!
