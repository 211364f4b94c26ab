//! Control surface of the i3 window manager as a set of tool calls.
//!
//! Every tool call is an independent unit of work: connect to the window
//! manager, perform exactly one native command or query, and turn the native
//! reply into textual content or an adapter-level error. The decisions of
//! such a call are made here and proved; the socket traffic itself is left to
//! the host, which performs each [`Action`] it is asked for and reports back
//! with an [`Event`].
pub mod call;
pub mod envelope;
pub mod json;
pub mod normalizer;
pub mod operation;
pub mod params;
pub mod response;
pub mod server;

pub use call::{Action, ActionView, Event, EventView, Stage, ToolCall, ToolCallView};
pub use envelope::envelope;
pub use operation::{Operation, OperationView};
pub use normalizer::{
    collect_error_texts, join, normalize, succeeded, NativeCommandResult, NativeCommandResultView,
};
pub use params::{
    ExecParams, FocusWindowParams, KillWindowParams, MoveToWorkspaceParams, RunCommandParams,
    SwitchWorkspaceParams,
};
pub use response::{AdapterError, AdapterErrorView, ErrorKind, Response, ToolResult};
pub use server::I3Server;
