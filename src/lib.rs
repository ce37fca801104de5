//! The error type of a cross-platform camera-capture library, and the
//! translation of each capture backend's own error type into it.

mod avfoundation;
mod decimal;
mod error;
mod laws;
mod media_foundation;
mod types;

pub use avfoundation::translate_avf_error;
pub use decimal::{decimal, digit_char, usize_to_decimal};
pub use error::{NokhwaError, NokhwaErrorView};
pub use laws::{
    avf_error_texts, avf_error_texts_kept, binding_error_texts, binding_error_texts_kept,
    contains_text, invalid_type_and_value_differ, rendering_is_stable, unsupported_operation_text,
};
pub use media_foundation::translate_binding_error;
pub use types::{CaptureAPIBackend, FrameFormat};
