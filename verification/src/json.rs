//! Pretty-printed JSON of the structured replies, as `serde_json` writes it.
//!
//! Nothing in this module is proved. The serializer is called as it is, and
//! what it returns is given a name so that the verified code can say which
//! text it hands on. The serializer fails only where a value's own way of
//! writing itself fails or a map has a key that is not a string; the three
//! kinds of reply written here are plain records without maps, so a text
//! always comes back.
use vstd::prelude::*;

use tokio_i3ipc::reply::{Node, Success, Workspace};

use crate::normalizer::{NativeCommandResult, NativeCommandResultView};

verus! {

/// The error type of `serde_json`, carried through without looking inside.
#[verifier::external_type_specification]
#[verifier::external_body]
pub struct ExJsonError(serde_json::Error);

/// A workspace snapshot as the IPC client returns it, carried through
/// without looking inside.
#[verifier::external_type_specification]
#[verifier::external_body]
pub struct ExWorkspace(Workspace);

/// A node of the layout tree as the IPC client returns it, carried through
/// without looking inside.
#[verifier::external_type_specification]
#[verifier::external_body]
pub struct ExNode(Node);

/// The text `serde_json::to_string_pretty` writes for a list of sub-command
/// results, each an object with the fields `success` and `error`.
pub uninterp spec fn results_json(results: Seq<NativeCommandResultView>) -> Seq<char>;

/// The text `serde_json::to_string_pretty` writes for a list of workspaces.
pub uninterp spec fn workspaces_json(workspaces: Seq<Workspace>) -> Seq<char>;

/// The text `serde_json::to_string_pretty` writes for a layout tree.
pub uninterp spec fn tree_json(tree: Node) -> Seq<char>;

/// Calls `serde_json::to_string_pretty` on the results, each rebuilt as the
/// IPC client's own `Success` record. Claims that a text comes back and that
/// it is the one named [`results_json`].
#[verifier::external_body]
pub(crate) fn results_to_json(results: &Vec<NativeCommandResult>) -> (rendered: Result<
    String,
    serde_json::Error,
>)
    ensures
        rendered is Ok,
        rendered matches Ok(text) ==> text@ == results_json(results.deep_view()),
{
    let native: Vec<Success> =
        results.iter().map(|r| Success { success: r.success, error: r.error.clone() }).collect();
    serde_json::to_string_pretty(&native)
}

/// Calls `serde_json::to_string_pretty` on a list of workspaces. Claims that
/// a text comes back and that it is the one named [`workspaces_json`].
#[verifier::external_body]
pub(crate) fn workspaces_to_json(workspaces: &Vec<Workspace>) -> (rendered: Result<
    String,
    serde_json::Error,
>)
    ensures
        rendered is Ok,
        rendered matches Ok(text) ==> text@ == workspaces_json(workspaces@),
{
    serde_json::to_string_pretty(workspaces)
}

/// Calls `serde_json::to_string_pretty` on a layout tree. Claims that a text
/// comes back and that it is the one named [`tree_json`].
#[verifier::external_body]
pub(crate) fn tree_to_json(tree: &Node) -> (rendered: Result<String, serde_json::Error>)
    ensures
        rendered is Ok,
        rendered matches Ok(text) ==> text@ == tree_json(*tree),
{
    serde_json::to_string_pretty(tree)
}

} // verus!
