//! What a tool call hands back: textual content, or an adapter-level error.
use vstd::prelude::*;

verus! {

/// Successful content of a tool call: a confirmation, a failure message that
/// embeds the native error texts, or serialized structured state.
#[derive(Clone, Debug, PartialEq, Eq)]
pub struct ToolResult {
    pub content: String,
}

impl View for ToolResult {
    type V = Seq<char>;

    open spec fn view(&self) -> Seq<char> {
        self.content@
    }
}

/// The ways in which a call can fail short of a native outcome.
#[derive(Clone, Copy, Debug, PartialEq, Eq, Structural)]
pub enum ErrorKind {
    /// The request lacks a text it cannot do without. Nothing was sent.
    InvalidParameter,
    /// No connection to the IPC endpoint could be made.
    ConnectionFailed,
    /// The command or query could not be sent, or its reply not received.
    IoFailure,
    /// The structured reply could not be turned into text.
    SerializationFailure,
}

/// An adapter-level error. It aborts the call and travels on the calling
/// protocol's error channel, never as content.
#[derive(Clone, Debug, PartialEq, Eq)]
pub struct AdapterError {
    pub kind: ErrorKind,
    pub message: String,
}

/// Mathematical model of an [`AdapterError`].
pub struct AdapterErrorView {
    pub kind: ErrorKind,
    pub message: Seq<char>,
}

impl View for AdapterError {
    type V = AdapterErrorView;

    open spec fn view(&self) -> AdapterErrorView {
        AdapterErrorView { kind: self.kind, message: self.message@ }
    }
}

/// Outcome of a finished tool call.
pub type Response = Result<ToolResult, AdapterError>;

/// Mathematical model of a [`Response`].
pub type ResponseView = Result<Seq<char>, AdapterErrorView>;

/// The model of `response`.
pub open spec fn response_view(response: Response) -> ResponseView {
    match response {
        Ok(result) => Ok(result@),
        Err(error) => Err(error@),
    }
}

impl AdapterErrorView {
    /// The error of a call whose connection attempt failed with `cause`.
    pub open spec fn connection_failed(cause: Seq<char>) -> AdapterErrorView {
        AdapterErrorView {
            kind: ErrorKind::ConnectionFailed,
            message: "Failed to connect to i3: "@ + cause,
        }
    }
}

impl AdapterError {
    /// The error of a call whose connection attempt failed with `cause`.
    pub fn connection_failed(cause: &str) -> (error: AdapterError)
        ensures
            error@ == AdapterErrorView::connection_failed(cause@),
    {
        AdapterError {
            kind: ErrorKind::ConnectionFailed,
            message: String::from_str("Failed to connect to i3: ").concat(cause),
        }
    }
}

} // verus!
