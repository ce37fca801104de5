use vstd::prelude::*;
use crate::types::{CaptureAPIBackend, FrameFormat};

verus! {

/// All errors of the library: one closed set of failure categories that every
/// capture backend's own errors are translated into.
#[derive(Debug, PartialEq, Eq)]
pub enum NokhwaError {
    /// The backend failed to initialize.
    InitializeError { backend: CaptureAPIBackend, error: String },
    /// The backend failed to shut down.
    ShutdownError { backend: CaptureAPIBackend, error: String },
    /// A failure of no other category.
    GeneralError(String),
    /// A structure that the backend needs could not be built.
    StructureError { structure: String, error: String },
    /// The device (first field) could not be opened.
    OpenDeviceError(String, String),
    /// A device property could not be read.
    GetPropertyError { property: String, error: String },
    /// A device property could not be set to the value.
    SetPropertyError { property: String, value: String, error: String },
    /// The capture stream could not be started.
    OpenStreamError(String),
    /// A frame could not be captured.
    ReadFrameError(String),
    /// A frame could not be converted from one format to another.
    ProcessFrameError { src: FrameFormat, destination: String, error: String },
    /// The capture stream could not be stopped.
    StreamShutdownError(String),
    /// The backend does not support the operation at all.
    UnsupportedOperationError(CaptureAPIBackend),
    /// The feature is not implemented.
    NotImplementedError(String),
}

/// The mathematical model of a [`NokhwaError`]: the same variant, with each
/// text as a sequence of characters.
pub enum NokhwaErrorView {
    InitializeError { backend: CaptureAPIBackend, error: Seq<char> },
    ShutdownError { backend: CaptureAPIBackend, error: Seq<char> },
    GeneralError(Seq<char>),
    StructureError { structure: Seq<char>, error: Seq<char> },
    OpenDeviceError(Seq<char>, Seq<char>),
    GetPropertyError { property: Seq<char>, error: Seq<char> },
    SetPropertyError { property: Seq<char>, value: Seq<char>, error: Seq<char> },
    OpenStreamError(Seq<char>),
    ReadFrameError(Seq<char>),
    ProcessFrameError { src: FrameFormat, destination: Seq<char>, error: Seq<char> },
    StreamShutdownError(Seq<char>),
    UnsupportedOperationError(CaptureAPIBackend),
    NotImplementedError(Seq<char>),
}

impl View for NokhwaError {
    type V = NokhwaErrorView;

    open spec fn view(&self) -> NokhwaErrorView {
        match self {
            NokhwaError::InitializeError { backend, error } => NokhwaErrorView::InitializeError {
                backend: *backend,
                error: error@,
            },
            NokhwaError::ShutdownError { backend, error } => NokhwaErrorView::ShutdownError {
                backend: *backend,
                error: error@,
            },
            NokhwaError::GeneralError(m) => NokhwaErrorView::GeneralError(m@),
            NokhwaError::StructureError { structure, error } => NokhwaErrorView::StructureError {
                structure: structure@,
                error: error@,
            },
            NokhwaError::OpenDeviceError(d, m) => NokhwaErrorView::OpenDeviceError(d@, m@),
            NokhwaError::GetPropertyError { property, error } => NokhwaErrorView::GetPropertyError {
                property: property@,
                error: error@,
            },
            NokhwaError::SetPropertyError { property, value, error } =>
                NokhwaErrorView::SetPropertyError {
                    property: property@,
                    value: value@,
                    error: error@,
                },
            NokhwaError::OpenStreamError(m) => NokhwaErrorView::OpenStreamError(m@),
            NokhwaError::ReadFrameError(m) => NokhwaErrorView::ReadFrameError(m@),
            NokhwaError::ProcessFrameError { src, destination, error } =>
                NokhwaErrorView::ProcessFrameError {
                    src: *src,
                    destination: destination@,
                    error: error@,
                },
            NokhwaError::StreamShutdownError(m) => NokhwaErrorView::StreamShutdownError(m@),
            NokhwaError::UnsupportedOperationError(b) =>
                NokhwaErrorView::UnsupportedOperationError(*b),
            NokhwaError::NotImplementedError(m) => NokhwaErrorView::NotImplementedError(m@),
        }
    }
}

impl NokhwaErrorView {
    /// The one-line message of the error: what failed, then its details.
    pub open spec fn text(self) -> Seq<char> {
        match self {
            NokhwaErrorView::InitializeError { backend, error } =>
                "Could not initialize "@ + backend.name() + ": "@ + error,
            NokhwaErrorView::ShutdownError { backend, error } =>
                "Could not shutdown "@ + backend.name() + ": "@ + error,
            NokhwaErrorView::GeneralError(m) => "Error: "@ + m,
            NokhwaErrorView::StructureError { structure, error } =>
                "Could not generate required structure "@ + structure + ": "@ + error,
            NokhwaErrorView::OpenDeviceError(d, m) => "Could not open device "@ + d + ": "@ + m,
            NokhwaErrorView::GetPropertyError { property, error } =>
                "Could not get device property "@ + property + ": "@ + error,
            NokhwaErrorView::SetPropertyError { property, value, error } =>
                "Could not set device property "@ + property + " with value "@ + value + ": "@
                    + error,
            NokhwaErrorView::OpenStreamError(m) => "Could not open device stream: "@ + m,
            NokhwaErrorView::ReadFrameError(m) => "Could not capture frame: "@ + m,
            NokhwaErrorView::ProcessFrameError { src, destination, error } =>
                "Could not process frame "@ + src.name() + " to "@ + destination + ": "@ + error,
            NokhwaErrorView::StreamShutdownError(m) => "Could not stop stream: "@ + m,
            NokhwaErrorView::UnsupportedOperationError(b) =>
                "This operation is not supported by backend "@ + b.name() + "."@,
            NokhwaErrorView::NotImplementedError(m) => "This operation is not implemented yet: "@
                + m,
        }
    }
}

impl NokhwaError {
    /// The one-line message of the error.
    pub fn to_string(&self) -> (r: String)
        ensures
            r@ == self@.text(),
    {
        match self {
            NokhwaError::InitializeError { backend, error } => {
                let mut s = "Could not initialize ".to_owned();
                s.append(backend.to_string().as_str());
                s.append(": ");
                s.append(error.as_str());
                s
            },
            NokhwaError::ShutdownError { backend, error } => {
                let mut s = "Could not shutdown ".to_owned();
                s.append(backend.to_string().as_str());
                s.append(": ");
                s.append(error.as_str());
                s
            },
            NokhwaError::GeneralError(m) => {
                let mut s = "Error: ".to_owned();
                s.append(m.as_str());
                s
            },
            NokhwaError::StructureError { structure, error } => {
                let mut s = "Could not generate required structure ".to_owned();
                s.append(structure.as_str());
                s.append(": ");
                s.append(error.as_str());
                s
            },
            NokhwaError::OpenDeviceError(d, m) => {
                let mut s = "Could not open device ".to_owned();
                s.append(d.as_str());
                s.append(": ");
                s.append(m.as_str());
                s
            },
            NokhwaError::GetPropertyError { property, error } => {
                let mut s = "Could not get device property ".to_owned();
                s.append(property.as_str());
                s.append(": ");
                s.append(error.as_str());
                s
            },
            NokhwaError::SetPropertyError { property, value, error } => {
                let mut s = "Could not set device property ".to_owned();
                s.append(property.as_str());
                s.append(" with value ");
                s.append(value.as_str());
                s.append(": ");
                s.append(error.as_str());
                s
            },
            NokhwaError::OpenStreamError(m) => {
                let mut s = "Could not open device stream: ".to_owned();
                s.append(m.as_str());
                s
            },
            NokhwaError::ReadFrameError(m) => {
                let mut s = "Could not capture frame: ".to_owned();
                s.append(m.as_str());
                s
            },
            NokhwaError::ProcessFrameError { src, destination, error } => {
                let mut s = "Could not process frame ".to_owned();
                s.append(src.to_string().as_str());
                s.append(" to ");
                s.append(destination.as_str());
                s.append(": ");
                s.append(error.as_str());
                s
            },
            NokhwaError::StreamShutdownError(m) => {
                let mut s = "Could not stop stream: ".to_owned();
                s.append(m.as_str());
                s
            },
            NokhwaError::UnsupportedOperationError(b) => {
                let mut s = "This operation is not supported by backend ".to_owned();
                s.append(b.to_string().as_str());
                s.append(".");
                s
            },
            NokhwaError::NotImplementedError(m) => {
                let mut s = "This operation is not implemented yet: ".to_owned();
                s.append(m.as_str());
                s
            },
        }
    }
}

impl Clone for NokhwaError {
    fn clone(&self) -> (r: Self)
        ensures
            r == *self,
    {
        match self {
            NokhwaError::InitializeError { backend, error } => NokhwaError::InitializeError {
                backend: *backend,
                error: error.clone(),
            },
            NokhwaError::ShutdownError { backend, error } => NokhwaError::ShutdownError {
                backend: *backend,
                error: error.clone(),
            },
            NokhwaError::GeneralError(m) => NokhwaError::GeneralError(m.clone()),
            NokhwaError::StructureError { structure, error } => NokhwaError::StructureError {
                structure: structure.clone(),
                error: error.clone(),
            },
            NokhwaError::OpenDeviceError(d, m) => NokhwaError::OpenDeviceError(d.clone(), m.clone()),
            NokhwaError::GetPropertyError { property, error } => NokhwaError::GetPropertyError {
                property: property.clone(),
                error: error.clone(),
            },
            NokhwaError::SetPropertyError { property, value, error } =>
                NokhwaError::SetPropertyError {
                    property: property.clone(),
                    value: value.clone(),
                    error: error.clone(),
                },
            NokhwaError::OpenStreamError(m) => NokhwaError::OpenStreamError(m.clone()),
            NokhwaError::ReadFrameError(m) => NokhwaError::ReadFrameError(m.clone()),
            NokhwaError::ProcessFrameError { src, destination, error } =>
                NokhwaError::ProcessFrameError {
                    src: *src,
                    destination: destination.clone(),
                    error: error.clone(),
                },
            NokhwaError::StreamShutdownError(m) => NokhwaError::StreamShutdownError(m.clone()),
            NokhwaError::UnsupportedOperationError(b) => NokhwaError::UnsupportedOperationError(*b),
            NokhwaError::NotImplementedError(m) => NokhwaError::NotImplementedError(m.clone()),
        }
    }
}

} // verus!
