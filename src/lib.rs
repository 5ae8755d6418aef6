//! Checked access to the values that an inference-server host hands to a
//! backend plugin: native error signals become structured errors, and string
//! tensors are packed and unpacked in their length-prefixed wire format.

pub mod accessor;
pub mod codec;
pub mod error;
pub mod input;
pub mod model;

pub use accessor::{next_step, Accessor, Step};
pub use codec::{decode_string, encode_string, lossy_text};
pub use error::{check_err, Error, NativeCall};
pub use input::{native_string, string_from_buffer, u64_from_buffer, InputProperties};
pub use model::model_path;
