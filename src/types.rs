use vstd::prelude::*;

verus! {

/// The capture backends that a camera can be driven through.
#[derive(Clone, Copy, Debug, PartialEq, Eq, Hash, Structural)]
pub enum CaptureAPIBackend {
    Auto,
    AVFoundation,
    Video4Linux,
    UniversalVideoClass,
    MediaFoundation,
    OpenCv,
    GStreamer,
    Network,
    Browser,
}

impl CaptureAPIBackend {
    /// How the backend is written in messages: the name of its variant.
    pub open spec fn name(self) -> Seq<char> {
        match self {
            CaptureAPIBackend::Auto => "Auto"@,
            CaptureAPIBackend::AVFoundation => "AVFoundation"@,
            CaptureAPIBackend::Video4Linux => "Video4Linux"@,
            CaptureAPIBackend::UniversalVideoClass => "UniversalVideoClass"@,
            CaptureAPIBackend::MediaFoundation => "MediaFoundation"@,
            CaptureAPIBackend::OpenCv => "OpenCv"@,
            CaptureAPIBackend::GStreamer => "GStreamer"@,
            CaptureAPIBackend::Network => "Network"@,
            CaptureAPIBackend::Browser => "Browser"@,
        }
    }

    /// The backend's name as text.
    pub fn to_string(&self) -> (r: String)
        ensures
            r@ == self.name(),
    {
        let s = match self {
            CaptureAPIBackend::Auto => "Auto",
            CaptureAPIBackend::AVFoundation => "AVFoundation",
            CaptureAPIBackend::Video4Linux => "Video4Linux",
            CaptureAPIBackend::UniversalVideoClass => "UniversalVideoClass",
            CaptureAPIBackend::MediaFoundation => "MediaFoundation",
            CaptureAPIBackend::OpenCv => "OpenCv",
            CaptureAPIBackend::GStreamer => "GStreamer",
            CaptureAPIBackend::Network => "Network",
            CaptureAPIBackend::Browser => "Browser",
        };
        s.to_owned()
    }
}

/// The raw and encoded pixel formats that frames arrive in.
#[derive(Clone, Copy, Debug, PartialEq, Eq, Hash, Structural)]
pub enum FrameFormat {
    MJPEG,
    YUYV,
}

impl FrameFormat {
    /// How the format is written in messages.
    pub open spec fn name(self) -> Seq<char> {
        match self {
            FrameFormat::MJPEG => "MJPEG"@,
            FrameFormat::YUYV => "YUYV"@,
        }
    }

    /// The format's name as text.
    pub fn to_string(&self) -> (r: String)
        ensures
            r@ == self.name(),
    {
        let s = match self {
            FrameFormat::MJPEG => "MJPEG",
            FrameFormat::YUYV => "YUYV",
        };
        s.to_owned()
    }
}

} // verus!
