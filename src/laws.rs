use vstd::prelude::*;
use nokhwa_bindings_windows::BindingError;
use nokhwa_bindings_macos::AVFError;
use crate::avfoundation::translate_avf_error;
use crate::decimal::decimal;
use crate::error::{NokhwaError, NokhwaErrorView};
use crate::media_foundation::translate_binding_error;
use crate::types::CaptureAPIBackend;

verus! {

/// `part` occurs in `s` as a contiguous run of characters.
pub open spec fn contains_text(s: Seq<char>, part: Seq<char>) -> bool {
    exists|i: int| 0 <= i <= s.len() - part.len() && #[trigger] s.subrange(i, i + part.len()) == part
}

/// The texts that a Media Foundation error carries.
pub open spec fn binding_error_texts(err: BindingError) -> Seq<Seq<char>> {
    match err {
        BindingError::InitializeError(error) => seq![error@],
        BindingError::DeInitializeError(error) => seq![error@],
        BindingError::GUIDSetError(property, value, error) => seq![property@, value@, error@],
        BindingError::GUIDReadError(property, error) => seq![property@, error@],
        BindingError::AttributeError(error) => seq![error@],
        BindingError::EnumerateError(error) => seq![error@],
        BindingError::DeviceOpenFailError(device, error) => seq![device@, error@],
        BindingError::ReadFrameError(error) => seq![error@],
        BindingError::NotImplementedError => seq![],
    }
}

/// The texts that an AVFoundation error carries, a device index written in
/// decimal.
pub open spec fn avf_error_texts(err: AVFError) -> Seq<Seq<char>> {
    match err {
        AVFError::InvalidType { expected, found } => seq![expected@, found@],
        AVFError::InvalidValue { found } => seq![found@],
        AVFError::AlreadyBusy(why) => seq![why@],
        AVFError::FailedToOpenDevice { index, why } => seq![decimal(index as nat), why@],
        AVFError::ConfigNotAccepted => seq![],
        AVFError::General(why) => seq![why@],
        AVFError::RejectedInput => seq![],
        AVFError::RejectedOutput => seq![],
        AVFError::StreamOpen(why) => seq![why@],
        AVFError::ReadFrame(why) => seq![why@],
        AVFError::NotSupported => seq![],
    }
}

proof fn lemma_contains_middle(a: Seq<char>, b: Seq<char>, c: Seq<char>)
    ensures
        contains_text(a + b + c, b),
{
    assert((a + b + c).subrange(a.len() as int, (a.len() + b.len()) as int) =~= b);
}

proof fn lemma_contains_end(a: Seq<char>, b: Seq<char>)
    ensures
        contains_text(a + b, b),
{
    assert((a + b).subrange(a.len() as int, (a.len() + b.len()) as int) =~= b);
}

/// Every text that a Media Foundation error carries appears unchanged in the
/// message of the error that it is translated into.
pub proof fn binding_error_texts_kept(err: BindingError)
    ensures
        forall|k: int|
            0 <= k < binding_error_texts(err).len() ==> contains_text(
                translate_binding_error(err).text(),
                #[trigger] binding_error_texts(err)[k],
            ),
{
    let t = translate_binding_error(err).text();
    match err {
        BindingError::InitializeError(error) => {
            lemma_contains_end("Could not initialize "@ + "MediaFoundation"@ + ": "@, error@);
        },
        BindingError::DeInitializeError(error) => {
            lemma_contains_end("Could not shutdown "@ + "MediaFoundation"@ + ": "@, error@);
        },
        BindingError::GUIDSetError(property, value, error) => {
            let a = "Could not set device property "@;
            lemma_contains_middle(a, property@, " with value "@ + value@ + ": "@ + error@);
            assert(t =~= a + property@ + (" with value "@ + value@ + ": "@ + error@));
            lemma_contains_middle(a + property@ + " with value "@, value@, ": "@ + error@);
            assert(t =~= a + property@ + " with value "@ + value@ + (": "@ + error@));
            lemma_contains_end(a + property@ + " with value "@ + value@ + ": "@, error@);
        },
        BindingError::GUIDReadError(property, error) => {
            let a = "Could not get device property "@;
            lemma_contains_middle(a, property@, ": "@ + error@);
            assert(t =~= a + property@ + (": "@ + error@));
            lemma_contains_end(a + property@ + ": "@, error@);
        },
        BindingError::AttributeError(error) => {
            lemma_contains_end(
                "Could not generate required structure "@ + "IMFAttribute"@ + ": "@,
                error@,
            );
        },
        BindingError::EnumerateError(error) => {
            lemma_contains_end("Could not get device property "@ + "Devices"@ + ": "@, error@);
        },
        BindingError::DeviceOpenFailError(device, error) => {
            let a = "Could not open device "@;
            lemma_contains_middle(a, device@, ": "@ + error@);
            assert(t =~= a + device@ + (": "@ + error@));
            lemma_contains_end(a + device@ + ": "@, error@);
        },
        BindingError::ReadFrameError(error) => {
            lemma_contains_end("Could not capture frame: "@, error@);
        },
        BindingError::NotImplementedError => {},
    }
}

/// Every text that an AVFoundation error carries, and the device index in
/// decimal, appears unchanged in the message of the error that it is
/// translated into.
pub proof fn avf_error_texts_kept(err: AVFError)
    ensures
        forall|k: int|
            0 <= k < avf_error_texts(err).len() ==> contains_text(
                translate_avf_error(err).text(),
                #[trigger] avf_error_texts(err)[k],
            ),
{
    let t = translate_avf_error(err).text();
    match err {
        AVFError::InvalidType { expected, found } => {
            let a = "Could not get device property "@ + "type of "@;
            let c = ": "@ + ("Invalid type, found "@ + found@);
            lemma_contains_middle(a, expected@, c);
            assert(t =~= a + expected@ + c);
            let d = "Could not get device property "@ + ("type of "@ + expected@) + ": "@
                + "Invalid type, found "@;
            lemma_contains_end(d, found@);
            assert(t =~= d + found@);
        },
        AVFError::InvalidValue { found } => {
            let a = "Could not get device property "@;
            lemma_contains_middle(a, found@, ": "@ + "Invalid Value"@);
            assert(t =~= a + found@ + (": "@ + "Invalid Value"@));
        },
        AVFError::AlreadyBusy(why) => {
            lemma_contains_end("Error: "@ + "Already Busy: "@, why@);
            assert(t =~= "Error: "@ + "Already Busy: "@ + why@);
        },
        AVFError::FailedToOpenDevice { index, why } => {
            let a = "Could not open device "@;
            lemma_contains_middle(a, decimal(index as nat), ": "@ + why@);
            assert(t =~= a + decimal(index as nat) + (": "@ + why@));
            lemma_contains_end(a + decimal(index as nat) + ": "@, why@);
        },
        AVFError::General(why) => {
            lemma_contains_end("Error: "@ + "AVFoundation Error: "@, why@);
            assert(t =~= "Error: "@ + "AVFoundation Error: "@ + why@);
        },
        AVFError::StreamOpen(why) => {
            lemma_contains_end("Could not open device stream: "@, why@);
        },
        AVFError::ReadFrame(why) => {
            lemma_contains_end("Could not capture frame: "@, why@);
        },
        _ => {},
    }
}

/// Two renderings of the same error give the same text, and so does a
/// rendering of its clone: a clone has the variant and the payload of the
/// original.
pub proof fn rendering_is_stable(
    e: NokhwaError,
    c: NokhwaError,
    r1: String,
    r2: String,
    r3: String,
)
    requires
        call_ensures(NokhwaError::clone, (&e,), c),
        call_ensures(NokhwaError::to_string, (&e,), r1),
        call_ensures(NokhwaError::to_string, (&e,), r2),
        call_ensures(NokhwaError::to_string, (&c,), r3),
    ensures
        c == e,
        c@ == e@,
        r1@ == r2@,
        r3@ == r1@,
{
}

/// An unsupported operation is reported with the backend's name alone, for
/// every backend.
pub proof fn unsupported_operation_text(b: CaptureAPIBackend, r: String)
    requires
        call_ensures(
            NokhwaError::to_string,
            (&NokhwaError::UnsupportedOperationError(b),),
            r,
        ),
    ensures
        r@ == "This operation is not supported by backend "@ + b.name() + "."@,
{
}

/// A wrong type and a wrong value both become a failed property read, and
/// their messages tell them apart.
pub proof fn invalid_type_and_value_differ(expected: String, found: String, value: String)
    ensures
        translate_avf_error(AVFError::InvalidType { expected, found }) == (
        NokhwaErrorView::GetPropertyError {
            property: "type of "@ + expected@,
            error: "Invalid type, found "@ + found@,
        }),
        translate_avf_error(AVFError::InvalidValue { found: value }) == (
        NokhwaErrorView::GetPropertyError { property: value@, error: "Invalid Value"@ }),
        "Invalid type, found "@ + found@ != "Invalid Value"@,
{
    reveal_strlit("Invalid type, found ");
    reveal_strlit("Invalid Value");
    assert(("Invalid type, found "@ + found@)[8] != "Invalid Value"@[8]);
}

} // verus!
