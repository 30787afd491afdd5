//! Error contexts, error logging and panic reports.

pub mod call_stack;
pub mod contexts;
pub mod logging;
pub mod names;
pub mod panics;

pub use crate::errors::call_stack::{get_current_ctx, ErrorContext, OpenCalls};
pub use crate::errors::contexts::{
    ClientContext, ContextType, PluginContext, PtyContext, PtyWriteContext, ScreenContext,
    ServerContext,
};
pub use crate::errors::logging::{FatalError, LoggableError, SendFailure, ToAnyhow};
pub use crate::errors::panics::{handle_panic, ErrorInstruction};
