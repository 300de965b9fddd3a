//! A hello pack: one synchronous entry point that an orchestration host calls
//! with a byte buffer of its own.
//!
//! The host hands over the bytes of a name. The pack checks that they are
//! strict UTF-8, composes a greeting around the decoded name, and answers
//! with an [`Invocation`]: the outcome, whose status code is the only value
//! that crosses back to the host, and the greeting line to emit, if any.
//!
//! Nothing survives a call and nothing is shared between calls: every
//! function here is a function of its arguments alone, and its contract says
//! so.
pub mod decode;
pub mod greeting;
pub mod invocation;
pub mod outcome;

pub use decode::decode_text;
pub use greeting::greeting;
pub use invocation::{greet, Invocation};
pub use outcome::{InvocationResult, STATUS_INVALID_ENCODING, STATUS_SUCCESS};
