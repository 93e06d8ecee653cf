//! Cedar policy engine for the Monty Python sandbox.
//!
//! [`PolicyEngine`] evaluates Cedar policies against the operations that sandboxed
//! code asks the host for: filesystem access, environment variables and external
//! function calls. Each operation is mapped to a Cedar action and resource, Cedar
//! is asked for a decision, and the engine's default decision settles the cases
//! that no policy decides.

pub mod cache;
pub mod cedar;
pub mod engine;
pub mod entities;
pub mod error;
pub mod schema;
pub mod options;
pub mod os_call;
pub mod request;

pub use crate::error::{ExcType, MontyException, PolicyDenied, PolicyParseError};
pub use crate::engine::{DefaultDecision, PolicyConfig, PolicyEngine};
pub use crate::os_call::{
    FileMode, GetenvArgs, MkdirCallArgs, MontyPath, OpenCallArgs, OsFunctionCall, PathBytesDataArgs,
    PathStringDataArgs, RenameCallArgs,
};
