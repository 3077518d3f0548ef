//! A builder for the Android platform's `Intent`, the object by which one
//! component asks another to act, driven through the Java native interface.
//!
//! - [`names`]: the classes, constants, methods and signatures that the host
//!   resolves by text.
//! - [`error`]: the kinds of failure, and how a call's outcome is sorted.
//! - [`jvm`]: the calls into the `jni` crate, taken on trust.
//! - [`intent`]: the request handle, its builder, and what each operation
//!   makes of a builder.
//! - [`chain`]: what holds of whole chains of operations.
pub mod chain;
pub mod error;
pub mod intent;
pub mod jvm;
pub mod names;

pub use error::{settle, FailureKind, IntentError};
pub use intent::{Intent, IntentBuilder};
pub use names::{Action, Class, Constructor, Extra, Method};
