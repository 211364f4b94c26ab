//! One tool call as a machine: connect, act once, respond.
//!
//! The host owns the socket. It performs the [`Action`] the machine asks for
//! and reports what happened as an [`Event`]; the machine decides what comes
//! next. Within a call the steps are strictly sequential, and an event that
//! the call is not waiting for is turned away. A request that lacks a text
//! it cannot do without never reaches the socket: it is answered with an
//! error before a connection is asked for.
use vstd::prelude::*;

use tokio_i3ipc::reply::{Node, Workspace};

use crate::json::{
    results_json, results_to_json, tree_json, tree_to_json, workspaces_json, workspaces_to_json,
};
use crate::operation::{Operation, OperationView};
use crate::normalizer::{normalize, normalized, NativeCommandResult, NativeCommandResultView};
use crate::response::{
    response_view, AdapterError, AdapterErrorView, ErrorKind, Response, ResponseView, ToolResult,
};

verus! {

/// How far a tool call has come.
#[derive(Clone, Copy, Debug, PartialEq, Eq, Structural)]
pub enum Stage {
    /// The connection has been asked for.
    Connecting,
    /// The native command or query has been handed out; its reply is due.
    Awaiting,
    /// The response has been handed out. Nothing more happens.
    Finished,
}

/// A tool call in flight.
#[derive(Clone, Debug, PartialEq, Eq)]
pub struct ToolCall {
    pub operation: Operation,
    pub stage: Stage,
}

/// Mathematical model of a [`ToolCall`].
pub struct ToolCallView {
    pub operation: OperationView,
    pub stage: Stage,
}

impl View for ToolCall {
    type V = ToolCallView;

    open spec fn view(&self) -> ToolCallView {
        ToolCallView { operation: self.operation@, stage: self.stage }
    }
}

/// What the host reports back after performing an action.
#[derive(Debug)]
pub enum Event {
    /// The connection is up.
    Connected,
    /// The connection could not be made; the text says why.
    ConnectFailed(String),
    /// The window manager answered a command, one result per sub-command.
    CommandReplied(Vec<NativeCommandResult>),
    /// The window manager answered the workspace query.
    WorkspacesReplied(Vec<Workspace>),
    /// The window manager answered the tree query.
    TreeReplied(Node),
    /// Sending the request or receiving its reply failed; the text says why.
    IoFailed(String),
}

/// Mathematical model of an [`Event`].
pub enum EventView {
    Connected,
    ConnectFailed(Seq<char>),
    CommandReplied(Seq<NativeCommandResultView>),
    WorkspacesReplied(Seq<Workspace>),
    TreeReplied(Node),
    IoFailed(Seq<char>),
}

impl View for Event {
    type V = EventView;

    open spec fn view(&self) -> EventView {
        match self {
            Event::Connected => EventView::Connected,
            Event::ConnectFailed(cause) => EventView::ConnectFailed(cause@),
            Event::CommandReplied(results) => EventView::CommandReplied(results.deep_view()),
            Event::WorkspacesReplied(workspaces) => EventView::WorkspacesReplied(workspaces@),
            Event::TreeReplied(tree) => EventView::TreeReplied(*tree),
            Event::IoFailed(cause) => EventView::IoFailed(cause@),
        }
    }
}

/// What the machine asks the host to do next.
#[derive(Debug, PartialEq, Eq)]
pub enum Action {
    /// Open a fresh connection to the window manager.
    Connect,
    /// Submit this native command string.
    RunCommand(String),
    /// Query the workspace list.
    GetWorkspaces,
    /// Query the layout tree.
    GetTree,
    /// Release the connection and hand this response to the caller.
    Respond(Response),
}

/// Mathematical model of an [`Action`].
pub enum ActionView {
    Connect,
    RunCommand(Seq<char>),
    GetWorkspaces,
    GetTree,
    Respond(ResponseView),
}

impl View for Action {
    type V = ActionView;

    open spec fn view(&self) -> ActionView {
        match self {
            Action::Connect => ActionView::Connect,
            Action::RunCommand(command) => ActionView::RunCommand(command@),
            Action::GetWorkspaces => ActionView::GetWorkspaces,
            Action::GetTree => ActionView::GetTree,
            Action::Respond(response) => ActionView::Respond(response_view(*response)),
        }
    }
}

/// The model of the outcome of a serializer run: the text, or the cause of
/// the failure.
pub open spec fn rendered_view(rendered: Result<String, String>) -> Result<Seq<char>, Seq<char>> {
    match rendered {
        Ok(text) => Ok(text@),
        Err(cause) => Err(cause@),
    }
}

impl OperationView {
    /// The error that answers an operation which lacks its required text;
    /// none for any other operation.
    pub open spec fn rejection(self) -> Option<AdapterErrorView> {
        match self {
            OperationView::SwitchWorkspace(workspace) if workspace.len() == 0 => Some(
                AdapterErrorView {
                    kind: ErrorKind::InvalidParameter,
                    message: "Workspace must not be empty"@,
                },
            ),
            OperationView::FocusWindow(criteria) if criteria.len() == 0 => Some(
                AdapterErrorView {
                    kind: ErrorKind::InvalidParameter,
                    message: "Criteria must not be empty"@,
                },
            ),
            _ => None,
        }
    }

    /// The one native action of the operation: a query, or its command. An
    /// operation that lacks its required text has none.
    pub open spec fn native_action(self) -> Option<ActionView> {
        match self {
            OperationView::GetWorkspaces => Some(ActionView::GetWorkspaces),
            OperationView::GetTree => Some(ActionView::GetTree),
            _ => match self.command() {
                Some(command) => Some(ActionView::RunCommand(command)),
                None => None,
            },
        }
    }

    /// The error of a call whose request could not be transmitted.
    pub open spec fn io_failed(self, cause: Seq<char>) -> AdapterErrorView {
        AdapterErrorView { kind: ErrorKind::IoFailure, message: self.io_failure_prefix() + cause }
    }

    /// The error of a call whose structured reply could not be serialized.
    pub open spec fn serialization_failed(self, cause: Seq<char>) -> AdapterErrorView {
        AdapterErrorView {
            kind: ErrorKind::SerializationFailure,
            message: self.serialization_failure_prefix() + cause,
        }
    }

    /// The response to a structured reply, given what the serializer made of
    /// it: its text is returned verbatim, its failure becomes an error.
    pub open spec fn rendered_response(
        self,
        rendered: Result<Seq<char>, Seq<char>>,
    ) -> ResponseView {
        match rendered {
            Ok(text) => Ok(text),
            Err(cause) => Err(self.serialization_failed(cause)),
        }
    }
}

impl EventView {
    /// The text the serializer writes for the payload of a reply.
    pub open spec fn payload_json(self) -> Seq<char> {
        match self {
            EventView::CommandReplied(results) => results_json(results),
            EventView::WorkspacesReplied(workspaces) => workspaces_json(workspaces),
            EventView::TreeReplied(tree) => tree_json(tree),
            _ => Seq::empty(),
        }
    }
}

impl ToolCallView {
    /// The call as it begins. An operation that lacks its required text is
    /// finished before anything is sent; every other call waits for the
    /// connection it has asked for.
    pub open spec fn started(operation: OperationView) -> ToolCallView {
        ToolCallView {
            operation,
            stage: if operation.lacks_required_text() {
                Stage::Finished
            } else {
                Stage::Connecting
            },
        }
    }

    /// The action a call begins with: the rejection of an operation that
    /// lacks its required text, the request to connect for every other.
    pub open spec fn first_action(operation: OperationView) -> ActionView {
        match operation.rejection() {
            Some(error) => ActionView::Respond(Err(error)),
            None => ActionView::Connect,
        }
    }

    /// Whether `event` is one the call is waiting for: the outcome of the
    /// connection attempt while connecting; afterwards a transmission
    /// failure or the reply that answers the request of the operation. A
    /// call whose operation lacks its required text waits for nothing.
    pub open spec fn awaits(self, event: EventView) -> bool {
        !self.operation.lacks_required_text() && match self.stage {
            Stage::Connecting => event is Connected || event is ConnectFailed,
            Stage::Awaiting => match event {
                EventView::IoFailed(_) => true,
                EventView::CommandReplied(_) => self.operation.command() is Some,
                EventView::WorkspacesReplied(_) => self.operation is GetWorkspaces,
                EventView::TreeReplied(_) => self.operation is GetTree,
                _ => false,
            },
            Stage::Finished => false,
        }
    }

    /// The call after an awaited event: waiting for the reply once
    /// connected, finished after anything else.
    pub open spec fn after(self, event: EventView) -> ToolCallView {
        ToolCallView {
            operation: self.operation,
            stage: if event is Connected {
                Stage::Awaiting
            } else {
                Stage::Finished
            },
        }
    }

    /// The action that answers an awaited event.
    pub open spec fn reaction(self, event: EventView) -> ActionView {
        match event {
            EventView::Connected => self.operation.native_action()->0,
            EventView::ConnectFailed(cause) => ActionView::Respond(
                Err(AdapterErrorView::connection_failed(cause)),
            ),
            EventView::IoFailed(cause) => ActionView::Respond(
                Err(self.operation.io_failed(cause)),
            ),
            EventView::CommandReplied(results) => if self.operation.is_normalized() {
                ActionView::Respond(Ok(normalized(self.operation, results)))
            } else {
                ActionView::Respond(Ok(event.payload_json()))
            },
            _ => ActionView::Respond(Ok(event.payload_json())),
        }
    }
}

/// An operation that lacks its required text is answered at once with an
/// `InvalidParameter` error. No connection is asked for, no native command
/// exists for it, and a call of it waits for nothing at any stage: whatever
/// the host reports, nothing is sent and nothing is confirmed.
pub proof fn lemma_missing_text_is_rejected(call: ToolCallView, event: EventView)
    requires
        call.operation.lacks_required_text(),
    ensures
        call.operation is SwitchWorkspace || call.operation is FocusWindow,
        ToolCallView::started(call.operation).stage == Stage::Finished,
        ToolCallView::first_action(call.operation) matches ActionView::Respond(Err(error))
            && error.kind == ErrorKind::InvalidParameter,
        call.operation.command() is None,
        call.operation.native_action() is None,
        !call.awaits(event),
{
}

/// A connection failure ends the call with a protocol-level error, never
/// with content: every call that asked for a connection awaits the news of
/// the failed attempt, finishes on it, and responds with a
/// `ConnectionFailed` error that carries the cause. A call that did not ask
/// for one has already responded with an error.
pub proof fn lemma_connection_failure_is_error(operation: OperationView, cause: Seq<char>)
    ensures
        ({
            let call = ToolCallView::started(operation);
            let event = EventView::ConnectFailed(cause);
            if operation.lacks_required_text() {
                ToolCallView::first_action(operation) matches ActionView::Respond(Err(_))
            } else {
                &&& ToolCallView::first_action(operation) == ActionView::Connect
                &&& call.awaits(event)
                &&& call.after(event).stage == Stage::Finished
                &&& call.reaction(event) == ActionView::Respond(
                    Err(AdapterErrorView::connection_failed(cause)),
                )
                &&& AdapterErrorView::connection_failed(cause).kind
                    == ErrorKind::ConnectionFailed
            }
        }),
{
}

/// A native command failure is content, never a protocol-level error: a
/// call that has issued a command awaits the reply and, whatever the
/// sub-results report, answers it with content. For a normalized operation
/// that content is the collapsed message.
pub proof fn lemma_native_failure_is_content(
    operation: OperationView,
    results: Seq<NativeCommandResultView>,
)
    requires
        operation.command() is Some,
    ensures
        ({
            let call = ToolCallView { operation, stage: Stage::Awaiting };
            let event = EventView::CommandReplied(results);
            &&& call.awaits(event)
            &&& call.after(event).stage == Stage::Finished
            &&& call.reaction(event) matches ActionView::Respond(Ok(_))
            &&& operation.is_normalized() ==> call.reaction(event) == ActionView::Respond(
                Ok(normalized(operation, results)),
            )
        }),
{
}

/// The raw command hands back the whole reply: a call of it answers the
/// reply with the serializer's text for the full list of sub-results, in the
/// order and with the success flags and error texts the window manager
/// gave. No normalization is applied.
pub proof fn lemma_raw_command_passes_reply_through(
    command: Seq<char>,
    results: Seq<NativeCommandResultView>,
)
    ensures
        ({
            let call = ToolCallView {
                operation: OperationView::RunCommand(command),
                stage: Stage::Awaiting,
            };
            let event = EventView::CommandReplied(results);
            &&& call.awaits(event)
            &&& call.after(event).stage == Stage::Finished
            &&& call.reaction(event) == ActionView::Respond(Ok(results_json(results)))
        }),
{
}

/// A call is strictly sequential: it connects, performs one native action,
/// and responds once. An awaited event is answered with the native action
/// exactly when it is the news of the connection, and with the response
/// otherwise; after the response the call awaits nothing.
pub proof fn lemma_call_is_sequential(call: ToolCallView, event: EventView, later: EventView)
    requires
        call.awaits(event),
    ensures
        event is Connected ==> call.stage == Stage::Connecting && call.after(event).stage
            == Stage::Awaiting && call.operation.native_action() == Some(call.reaction(event)),
        !(event is Connected) ==> call.after(event).stage == Stage::Finished && call.reaction(
            event,
        ) is Respond,
        !(call.reaction(event) is Connect),
        call.after(event).stage == Stage::Finished ==> !call.after(event).awaits(later),
{
}

impl Operation {
    /// The error that answers the operation if it lacks its required text.
    pub fn rejection(&self) -> (error: Option<AdapterError>)
        ensures
            error is Some <==> self@.lacks_required_text(),
            error is Some <==> self@.rejection() is Some,
            error matches Some(e) ==> Some(e@) == self@.rejection(),
    {
        match self {
            Operation::SwitchWorkspace(params) => if params.workspace.as_str().is_empty() {
                Some(
                    AdapterError {
                        kind: ErrorKind::InvalidParameter,
                        message: String::from_str("Workspace must not be empty"),
                    },
                )
            } else {
                None
            },
            Operation::FocusWindow(params) => if params.criteria.as_str().is_empty() {
                Some(
                    AdapterError {
                        kind: ErrorKind::InvalidParameter,
                        message: String::from_str("Criteria must not be empty"),
                    },
                )
            } else {
                None
            },
            _ => None,
        }
    }

    /// The one native action of the operation, if it has one.
    pub fn native_action(&self) -> (action: Option<Action>)
        ensures
            action is Some <==> !self@.lacks_required_text(),
            action is Some <==> self@.native_action() is Some,
            action matches Some(a) ==> Some(a@) == self@.native_action(),
    {
        match self {
            Operation::GetWorkspaces => Some(Action::GetWorkspaces),
            Operation::GetTree => Some(Action::GetTree),
            _ => match self.command() {
                Some(command) => Some(Action::RunCommand(command)),
                None => None,
            },
        }
    }

    /// The error of a call whose request could not be transmitted.
    pub fn io_failed(&self, cause: &str) -> (error: AdapterError)
        ensures
            error@ == self@.io_failed(cause@),
    {
        AdapterError {
            kind: ErrorKind::IoFailure,
            message: String::from_str(self.io_failure_prefix()).concat(cause),
        }
    }

    /// The response to a structured reply, given what the serializer made of
    /// it.
    pub fn rendered_response(&self, rendered: Result<String, String>) -> (response: Response)
        ensures
            response_view(response) == self@.rendered_response(rendered_view(rendered)),
    {
        match rendered {
            Ok(text) => Ok(ToolResult { content: text }),
            Err(cause) => Err(
                AdapterError {
                    kind: ErrorKind::SerializationFailure,
                    message: String::from_str(self.serialization_failure_prefix()).concat(
                        cause.as_str(),
                    ),
                },
            ),
        }
    }
}

/// Turns the serializer's own error into its text.
fn rendering_outcome(rendered: Result<String, serde_json::Error>) -> (outcome: Result<
    String,
    String,
>)
    ensures
        rendered matches Ok(text) ==> outcome == Ok::<String, String>(text),
        rendered is Err ==> outcome is Err,
{
    match rendered {
        Ok(text) => Ok(text),
        Err(error) => Err(error.to_string()),
    }
}

impl ToolCall {
    /// Begins a call of `operation`.
    ///
    /// An operation that lacks its required text is rejected on the spot:
    /// the call is finished and responds with an `InvalidParameter` error.
    /// Every other call begins by asking for a fresh connection.
    pub fn start(operation: Operation) -> (out: (ToolCall, Action))
        ensures
            out.0@ == ToolCallView::started(operation@),
            out.1@ == ToolCallView::first_action(operation@),
            operation@.lacks_required_text() ==> out.0@.stage == Stage::Finished && (out.1@
                matches ActionView::Respond(Err(error)) && Some(error)
                == operation@.rejection()),
            !operation@.lacks_required_text() ==> out.0@.stage == Stage::Connecting && out.1@
                == ActionView::Connect,
    {
        match operation.rejection() {
            Some(error) => (
                ToolCall { operation, stage: Stage::Finished },
                Action::Respond(Err(error)),
            ),
            None => (ToolCall { operation, stage: Stage::Connecting }, Action::Connect),
        }
    }

    /// Takes the call one step further on `event`.
    ///
    /// An event the call is not waiting for is turned away with `None`.
    /// Otherwise the call moves on and names the next action.
    pub fn step(self, event: Event) -> (out: Option<(ToolCall, Action)>)
        ensures
            out is Some <==> self@.awaits(event@),
            out matches Some((next, action)) ==> next@ == self@.after(event@) && action@
                == self@.reaction(event@),
    {
        let ToolCall { operation, stage } = self;
        match stage {
            Stage::Connecting => match event {
                Event::Connected => match operation.native_action() {
                    Some(action) => Some((ToolCall { operation, stage: Stage::Awaiting }, action)),
                    None => None,
                },
                Event::ConnectFailed(cause) => if operation.lacks_required_text() {
                    None
                } else {
                    let error = AdapterError::connection_failed(cause.as_str());
                    Some((ToolCall { operation, stage: Stage::Finished }, Action::Respond(Err(error))))
                },
                _ => None,
            },
            Stage::Awaiting => {
                let response = if operation.lacks_required_text() {
                    None
                } else {
                    match event {
                        Event::IoFailed(cause) => Some(Err(operation.io_failed(cause.as_str()))),
                        Event::CommandReplied(results) => if operation.is_normalized() {
                            Some(Ok(ToolResult { content: normalize(&operation, &results) }))
                        } else {
                            match operation {
                                Operation::RunCommand(_) => {
                                    let rendered = rendering_outcome(results_to_json(&results));
                                    Some(operation.rendered_response(rendered))
                                },
                                _ => None,
                            }
                        },
                        Event::WorkspacesReplied(workspaces) => match operation {
                            Operation::GetWorkspaces => {
                                let rendered = rendering_outcome(workspaces_to_json(&workspaces));
                                Some(operation.rendered_response(rendered))
                            },
                            _ => None,
                        },
                        Event::TreeReplied(tree) => match operation {
                            Operation::GetTree => {
                                let rendered = rendering_outcome(tree_to_json(&tree));
                                Some(operation.rendered_response(rendered))
                            },
                            _ => None,
                        },
                        _ => None,
                    }
                };
                match response {
                    Some(response) => Some(
                        (ToolCall { operation, stage: Stage::Finished }, Action::Respond(response)),
                    ),
                    None => None,
                }
            },
            Stage::Finished => None,
        }
    }
}

} // verus!
