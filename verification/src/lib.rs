//! A sandboxed JavaScript engine boundary: evaluate script text, call named
//! script functions, and marshal values between host primitives and
//! script-native values.

mod engine;
mod errors;
mod external;

pub use engine::Engine;
pub use engine::Value;
pub use errors::Error;
pub use errors::ExecDiagnostic;
pub use errors::conversion_outcome;
pub use errors::error_to_string;
pub use errors::exec_message;
pub use errors::message_of;
