use nokhwa::{usize_to_decimal, CaptureAPIBackend, FrameFormat, NokhwaError};
use nokhwa_bindings_macos::AVFError;
use nokhwa_bindings_windows::BindingError;

fn s(text: &str) -> String {
    text.to_string()
}

#[test]
fn media_foundation_every_case_translates() {
    let cases: Vec<(BindingError, NokhwaError)> = vec![
        (
            BindingError::InitializeError(s("no COM")),
            NokhwaError::InitializeError {
                backend: CaptureAPIBackend::MediaFoundation,
                error: s("no COM"),
            },
        ),
        (
            BindingError::DeInitializeError(s("still in use")),
            NokhwaError::ShutdownError {
                backend: CaptureAPIBackend::MediaFoundation,
                error: s("still in use"),
            },
        ),
        (
            BindingError::GUIDSetError(s("MF_MT_FRAME_SIZE"), s("640x480"), s("E_FAIL")),
            NokhwaError::SetPropertyError {
                property: s("MF_MT_FRAME_SIZE"),
                value: s("640x480"),
                error: s("E_FAIL"),
            },
        ),
        (
            BindingError::GUIDReadError(s("MF_MT_SUBTYPE"), s("E_INVALIDARG")),
            NokhwaError::GetPropertyError {
                property: s("MF_MT_SUBTYPE"),
                error: s("E_INVALIDARG"),
            },
        ),
        (
            BindingError::AttributeError(s("null")),
            NokhwaError::StructureError { structure: s("IMFAttribute"), error: s("null") },
        ),
        (
            BindingError::EnumerateError(s("none found")),
            NokhwaError::GetPropertyError { property: s("Devices"), error: s("none found") },
        ),
        (
            BindingError::DeviceOpenFailError(s("2"), s("busy")),
            NokhwaError::OpenDeviceError(s("2"), s("busy")),
        ),
        (
            BindingError::ReadFrameError(s("timeout")),
            NokhwaError::ReadFrameError(s("timeout")),
        ),
        (
            BindingError::NotImplementedError,
            NokhwaError::NotImplementedError(s("Docs-Only MediaFoundation")),
        ),
    ];
    for (native, expected) in cases {
        assert_eq!(NokhwaError::from(native), expected);
    }
}

#[test]
fn avfoundation_every_case_translates() {
    let cases: Vec<(AVFError, NokhwaError)> = vec![
        (
            AVFError::InvalidType { expected: s("CMFormatDescription"), found: s("NSNull") },
            NokhwaError::GetPropertyError {
                property: s("type of CMFormatDescription"),
                error: s("Invalid type, found NSNull"),
            },
        ),
        (
            AVFError::InvalidValue { found: s("-1 fps") },
            NokhwaError::GetPropertyError { property: s("-1 fps"), error: s("Invalid Value") },
        ),
        (
            AVFError::AlreadyBusy(s("locked by another session")),
            NokhwaError::GeneralError(s("Already Busy: locked by another session")),
        ),
        (
            AVFError::FailedToOpenDevice { index: 3, why: s("not authorized") },
            NokhwaError::OpenDeviceError(s("3"), s("not authorized")),
        ),
        (
            AVFError::ConfigNotAccepted,
            NokhwaError::SetPropertyError {
                property: s("Configuration"),
                value: s("Invalid"),
                error: s("Rejected by AVFoundation"),
            },
        ),
        (
            AVFError::General(s("unknown")),
            NokhwaError::GeneralError(s("AVFoundation Error: unknown")),
        ),
        (
            AVFError::RejectedInput,
            NokhwaError::OpenStreamError(s("AVFoundation Input Rejection")),
        ),
        (
            AVFError::RejectedOutput,
            NokhwaError::OpenStreamError(s("AVFoundation Output Rejection")),
        ),
        (AVFError::StreamOpen(s("no session")), NokhwaError::OpenStreamError(s("no session"))),
        (AVFError::ReadFrame(s("dropped")), NokhwaError::ReadFrameError(s("dropped"))),
        (
            AVFError::NotSupported,
            NokhwaError::UnsupportedOperationError(CaptureAPIBackend::AVFoundation),
        ),
    ];
    for (native, expected) in cases {
        assert_eq!(NokhwaError::from(native), expected);
    }
}

#[test]
fn device_open_keeps_device_and_message() {
    let e = NokhwaError::from(BindingError::DeviceOpenFailError(
        s("/dev/video0"),
        s("permission denied"),
    ));
    assert_eq!(e, NokhwaError::OpenDeviceError(s("/dev/video0"), s("permission denied")));
    let text = e.to_string();
    assert_eq!(text, "Could not open device /dev/video0: permission denied");
    assert!(text.contains("permission denied"));
    assert!(text.contains("/dev/video0"));
}

#[test]
fn native_texts_appear_in_messages() {
    let e = NokhwaError::from(BindingError::GUIDSetError(s("gain"), s("99"), s("out of range")));
    let text = e.to_string();
    assert_eq!(text, "Could not set device property gain with value 99: out of range");
    for part in ["gain", "99", "out of range"] {
        assert!(text.contains(part));
    }
    let e = NokhwaError::from(AVFError::InvalidType { expected: s("Int"), found: s("Str") });
    let text = e.to_string();
    assert_eq!(text, "Could not get device property type of Int: Invalid type, found Str");
    assert!(text.contains("Int"));
    assert!(text.contains("Str"));
}

#[test]
fn rendering_twice_and_cloning_agree() {
    let e = NokhwaError::ProcessFrameError {
        src: FrameFormat::YUYV,
        destination: s("RGB888"),
        error: s("odd width"),
    };
    let first = e.to_string();
    let second = e.to_string();
    assert_eq!(first, second);
    let c = e.clone();
    assert_eq!(c, e);
    assert_eq!(c.to_string(), first);
    assert_eq!(first, "Could not process frame YUYV to RGB888: odd width");
}

#[test]
fn unsupported_operation_names_only_the_backend() {
    let backends = [
        (CaptureAPIBackend::Auto, "Auto"),
        (CaptureAPIBackend::AVFoundation, "AVFoundation"),
        (CaptureAPIBackend::Video4Linux, "Video4Linux"),
        (CaptureAPIBackend::UniversalVideoClass, "UniversalVideoClass"),
        (CaptureAPIBackend::MediaFoundation, "MediaFoundation"),
        (CaptureAPIBackend::OpenCv, "OpenCv"),
        (CaptureAPIBackend::GStreamer, "GStreamer"),
        (CaptureAPIBackend::Network, "Network"),
        (CaptureAPIBackend::Browser, "Browser"),
    ];
    for (backend, name) in backends {
        assert_eq!(backend.to_string(), name);
        assert_eq!(
            NokhwaError::UnsupportedOperationError(backend).to_string(),
            format!("This operation is not supported by backend {}.", name)
        );
    }
}

#[test]
fn invalid_type_and_invalid_value_differ_in_text_only() {
    let t = NokhwaError::from(AVFError::InvalidType { expected: s("X"), found: s("Y") });
    let v = NokhwaError::from(AVFError::InvalidValue { found: s("Z") });
    match (&t, &v) {
        (
            NokhwaError::GetPropertyError { error: te, .. },
            NokhwaError::GetPropertyError { error: ve, .. },
        ) => {
            assert_eq!(te, "Invalid type, found Y");
            assert_eq!(ve, "Invalid Value");
            assert_ne!(te, ve);
        }
        _ => panic!("both must be property read failures"),
    }
}

#[test]
fn attribute_failure_scenario() {
    let e = NokhwaError::from(BindingError::AttributeError(s("out of memory")));
    assert_eq!(
        e,
        NokhwaError::StructureError { structure: s("IMFAttribute"), error: s("out of memory") }
    );
    assert_eq!(e.to_string(), "Could not generate required structure IMFAttribute: out of memory");
}

#[test]
fn every_variant_renders() {
    let cases: Vec<(NokhwaError, &str)> = vec![
        (
            NokhwaError::InitializeError { backend: CaptureAPIBackend::Video4Linux, error: s("a") },
            "Could not initialize Video4Linux: a",
        ),
        (
            NokhwaError::ShutdownError { backend: CaptureAPIBackend::GStreamer, error: s("b") },
            "Could not shutdown GStreamer: b",
        ),
        (NokhwaError::GeneralError(s("c")), "Error: c"),
        (
            NokhwaError::StructureError { structure: s("S"), error: s("d") },
            "Could not generate required structure S: d",
        ),
        (NokhwaError::OpenDeviceError(s("0"), s("e")), "Could not open device 0: e"),
        (
            NokhwaError::GetPropertyError { property: s("P"), error: s("f") },
            "Could not get device property P: f",
        ),
        (
            NokhwaError::SetPropertyError { property: s("P"), value: s("V"), error: s("g") },
            "Could not set device property P with value V: g",
        ),
        (NokhwaError::OpenStreamError(s("h")), "Could not open device stream: h"),
        (NokhwaError::ReadFrameError(s("i")), "Could not capture frame: i"),
        (
            NokhwaError::ProcessFrameError {
                src: FrameFormat::MJPEG,
                destination: s("RGB"),
                error: s("j"),
            },
            "Could not process frame MJPEG to RGB: j",
        ),
        (NokhwaError::StreamShutdownError(s("k")), "Could not stop stream: k"),
        (
            NokhwaError::UnsupportedOperationError(CaptureAPIBackend::OpenCv),
            "This operation is not supported by backend OpenCv.",
        ),
        (NokhwaError::NotImplementedError(s("l")), "This operation is not implemented yet: l"),
    ];
    for (e, text) in cases {
        assert_eq!(e.to_string(), text);
    }
}

#[test]
fn frame_format_names() {
    assert_eq!(FrameFormat::MJPEG.to_string(), "MJPEG");
    assert_eq!(FrameFormat::YUYV.to_string(), "YUYV");
}

#[test]
fn device_index_in_decimal() {
    assert_eq!(usize_to_decimal(0), "0");
    assert_eq!(usize_to_decimal(9), "9");
    assert_eq!(usize_to_decimal(10), "10");
    assert_eq!(usize_to_decimal(4096), "4096");
    assert_eq!(usize_to_decimal(usize::MAX), usize::MAX.to_string());
    let e = NokhwaError::from(AVFError::FailedToOpenDevice { index: 120, why: s("gone") });
    assert_eq!(e.to_string(), "Could not open device 120: gone");
}
