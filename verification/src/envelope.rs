//! The response as the calling protocol carries it.
//!
//! Content travels in a success envelope, an adapter-level error on the
//! protocol's error channel. The two envelopes are built by `rmcp`; nothing
//! is proved of what is inside them, only which of the two is built and from
//! which text.
use vstd::prelude::*;

use rmcp::model::{CallToolResult, ContentBlock};
use rmcp::ErrorData;

use crate::response::{response_view, Response, ResponseView};

verus! {

/// The tool-call result of `rmcp`, carried through without looking inside.
#[verifier::external_type_specification]
#[verifier::external_body]
pub struct ExCallToolResult(CallToolResult);

/// The protocol error of `rmcp`, carried through without looking inside.
#[verifier::external_type_specification]
#[verifier::external_body]
pub struct ExErrorData(ErrorData);

/// The envelope `CallToolResult::success` builds around a single text block
/// made by `ContentBlock::text`.
pub uninterp spec fn success_envelope(content: Seq<char>) -> CallToolResult;

/// The error `ErrorData::internal_error` builds from a message, with no
/// further data.
pub uninterp spec fn internal_error(message: Seq<char>) -> ErrorData;

/// Calls `CallToolResult::success` on the one text block that
/// `ContentBlock::text` makes of `content`. Claims that the result is the
/// value named [`success_envelope`].
#[verifier::external_body]
pub(crate) fn build_success(content: String) -> (result: CallToolResult)
    ensures
        result == success_envelope(content@),
{
    CallToolResult::success(vec![ContentBlock::text(content)])
}

/// Calls `ErrorData::internal_error` with `message` and no data. Claims that
/// the result is the value named [`internal_error`].
#[verifier::external_body]
pub(crate) fn build_internal_error(message: String) -> (error: ErrorData)
    ensures
        error == internal_error(message@),
{
    ErrorData::internal_error(message, None)
}

/// The envelope of a response: content goes into a success envelope, an
/// adapter-level error becomes a protocol error with the same message.
pub open spec fn envelope_of(response: ResponseView) -> Result<CallToolResult, ErrorData> {
    match response {
        Ok(content) => Ok(success_envelope(content)),
        Err(error) => Err(internal_error(error.message)),
    }
}

/// Puts a response into the envelope the calling protocol expects. The two
/// tiers stay apart: content never becomes a protocol error, and an
/// adapter-level error never becomes content.
pub fn envelope(response: Response) -> (out: Result<CallToolResult, ErrorData>)
    ensures
        out == envelope_of(response_view(response)),
        out is Ok <==> response is Ok,
{
    match response {
        Ok(result) => Ok(build_success(result.content)),
        Err(error) => Err(build_internal_error(error.message)),
    }
}

} // verus!
