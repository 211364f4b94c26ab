//! Native sub-command results and the fold that collapses them.
use vstd::prelude::*;

use crate::operation::{Operation, OperationView};

verus! {

/// Outcome of one sub-command of a native command string. A single command
/// string may chain several sub-commands, each reporting on its own.
#[derive(Clone, Debug, PartialEq, Eq)]
pub struct NativeCommandResult {
    pub success: bool,
    pub error: Option<String>,
}

/// Mathematical model of a [`NativeCommandResult`].
pub struct NativeCommandResultView {
    pub success: bool,
    pub error: Option<Seq<char>>,
}

impl View for NativeCommandResult {
    type V = NativeCommandResultView;

    open spec fn view(&self) -> NativeCommandResultView {
        NativeCommandResultView {
            success: self.success,
            error: match self.error {
                Some(text) => Some(text@),
                None => None,
            },
        }
    }
}

impl DeepView for NativeCommandResult {
    type V = NativeCommandResultView;

    open spec fn deep_view(&self) -> NativeCommandResultView {
        self@
    }
}

impl NativeCommandResultView {
    /// The error text this sub-result contributes to a failure message: the
    /// text of a failing sub-result, provided it is present and not empty.
    pub open spec fn reported_error(self) -> Option<Seq<char>> {
        match self.error {
            Some(text) if !self.success && text.len() > 0 => Some(text),
            _ => None,
        }
    }
}

/// A command succeeds as a whole exactly when every sub-result does; the
/// empty list succeeds.
pub open spec fn all_succeeded(results: Seq<NativeCommandResultView>) -> bool {
    forall|i: int| 0 <= i < results.len() ==> (#[trigger] results[i]).success
}

/// The reported error texts of a result list, in the order of the list.
pub open spec fn error_texts(results: Seq<NativeCommandResultView>) -> Seq<Seq<char>> {
    results.filter_map(|r: NativeCommandResultView| r.reported_error())
}

/// `texts` laid end to end with `separator` between neighbours.
pub open spec fn joined(texts: Seq<Seq<char>>, separator: Seq<char>) -> Seq<char>
    decreases texts.len(),
{
    if texts.len() == 0 {
        Seq::empty()
    } else if texts.len() == 1 {
        texts[0]
    } else {
        joined(texts.drop_last(), separator) + separator + texts.last()
    }
}

/// The single message a result list collapses into: the confirmation of the
/// operation when every sub-result succeeded, and otherwise its failure
/// prefix followed by the reported error texts, joined by a comma and a
/// space.
pub open spec fn normalized(
    operation: OperationView,
    results: Seq<NativeCommandResultView>,
) -> Seq<char> {
    if all_succeeded(results) {
        operation.confirmation()
    } else {
        operation.failure_prefix() + joined(error_texts(results), ", "@)
    }
}

/// The fold is a logical AND that starts from success: the empty list
/// succeeds, and a list with one more result succeeds exactly when the list
/// did and the new result does.
pub proof fn lemma_all_succeeded_is_and_fold(
    results: Seq<NativeCommandResultView>,
    result: NativeCommandResultView,
)
    ensures
        all_succeeded(Seq::empty()),
        all_succeeded(results.push(result)) <==> all_succeeded(results) && result.success,
{
    let extended = results.push(result);
    if all_succeeded(extended) {
        assert(extended[results.len() as int].success);
        assert forall|i: int| 0 <= i < results.len() implies (#[trigger] results[i]).success by {
            assert(extended[i].success);
        }
    }
}

/// A sub-result adds its reported error text behind those of the results
/// before it, and adds nothing when it reports none: a result that
/// succeeded, one without an error text, one whose text is empty.
pub proof fn lemma_error_texts_push(
    results: Seq<NativeCommandResultView>,
    result: NativeCommandResultView,
)
    ensures
        error_texts(Seq::empty()) == Seq::<Seq<char>>::empty(),
        error_texts(results.push(result)) == match result.reported_error() {
            Some(text) => error_texts(results).push(text),
            None => error_texts(results),
        },
{
    assert(results.push(result).drop_last() =~= results);
}

/// Joining puts the separator between neighbours only: nothing comes of an
/// empty list, a single text stands alone, and every further text follows
/// one separator.
pub proof fn lemma_joined_push(texts: Seq<Seq<char>>, text: Seq<char>, separator: Seq<char>)
    ensures
        joined(Seq::empty(), separator) == Seq::<char>::empty(),
        joined(texts.push(text), separator) == if texts.len() == 0 {
            text
        } else {
            joined(texts, separator) + separator + text
        },
{
    assert(texts.push(text).drop_last() =~= texts);
}

/// For a normalized operation the message is the confirmation exactly when
/// every sub-result succeeded: no failure message can be mistaken for a
/// confirmation.
pub proof fn lemma_confirmed_iff_all_succeeded(
    operation: OperationView,
    results: Seq<NativeCommandResultView>,
)
    requires
        operation.is_normalized(),
    ensures
        normalized(operation, results) == operation.confirmation() <==> all_succeeded(results),
{
    if !all_succeeded(results) {
        let failure = normalized(operation, results);
        let confirmation = operation.confirmation();
        reveal_strlit("Failed to switch workspace: ");
        reveal_strlit("Failed to focus window: ");
        reveal_strlit("Failed to move window: ");
        reveal_strlit("Failed to launch: ");
        reveal_strlit("Failed to kill window: ");
        reveal_strlit("Failed to toggle fullscreen: ");
        reveal_strlit("Switched to workspace '");
        reveal_strlit("Focused window matching '");
        reveal_strlit("Moved window to workspace '");
        reveal_strlit("Launched '");
        reveal_strlit("Killed focused window");
        reveal_strlit("Killed window matching '");
        reveal_strlit("Toggled fullscreen");
        assert(failure.len() >= 2 && failure[0] == 'F' && failure[1] == 'a');
        assert(confirmation.len() >= 2 && (confirmation[0] != 'F' || confirmation[1] != 'a'));
    }
}

/// Decides whether every sub-result reports success.
pub fn succeeded(results: &Vec<NativeCommandResult>) -> (ok: bool)
    ensures
        ok == all_succeeded(results.deep_view()),
        results.len() == 0 ==> ok,
{
    let mut i: usize = 0;
    while i < results.len()
        invariant
            i <= results.len(),
            forall|j: int| 0 <= j < i ==> (#[trigger] results.deep_view()[j]).success,
        decreases results.len() - i,
    {
        if !results[i].success {
            assert(!results.deep_view()[i as int].success);
            return false;
        }
        i += 1;
    }
    true
}

/// Collects the reported error texts of `results`, keeping their order.
pub fn collect_error_texts(results: &Vec<NativeCommandResult>) -> (texts: Vec<String>)
    ensures
        texts.deep_view() == error_texts(results.deep_view()),
{
    let ghost model = results.deep_view();
    let mut texts: Vec<String> = Vec::new();
    let mut i: usize = 0;
    assert(model.take(0) =~= Seq::empty());
    assert(texts.deep_view() =~= Seq::empty());
    while i < results.len()
        invariant
            i <= results.len(),
            model == results.deep_view(),
            texts.deep_view() == error_texts(model.take(i as int)),
        decreases results.len() - i,
    {
        let result = &results[i];
        let ghost before = texts.deep_view();
        proof {
            assert(model.take(i + 1) =~= model.take(i as int).push(result@));
            lemma_error_texts_push(model.take(i as int), result@);
        }
        if !result.success {
            match &result.error {
                Some(text) => {
                    if !text.as_str().is_empty() {
                        texts.push(text.clone());
                        assert(texts.deep_view() =~= before.push(text@));
                    }
                },
                None => {},
            }
        }
        i += 1;
    }
    assert(model.take(i as int) =~= model);
    texts
}

/// Joins `texts` with `separator` between neighbours.
pub fn join(texts: &Vec<String>, separator: &str) -> (line: String)
    ensures
        line@ == joined(texts.deep_view(), separator@),
{
    let ghost model = texts.deep_view();
    let mut line = String::new();
    let mut i: usize = 0;
    assert(model.take(0) =~= Seq::empty());
    while i < texts.len()
        invariant
            i <= texts.len(),
            model == texts.deep_view(),
            line@ == joined(model.take(i as int), separator@),
        decreases texts.len() - i,
    {
        proof {
            assert(model.take(i + 1) =~= model.take(i as int).push(texts[i as int]@));
            lemma_joined_push(model.take(i as int), texts[i as int]@, separator@);
        }
        if i > 0 {
            line.append(separator);
        }
        line.append(texts[i].as_str());
        i += 1;
    }
    assert(model.take(i as int) =~= model);
    line
}

/// Collapses the sub-results of one native command into a single message.
pub fn normalize(operation: &Operation, results: &Vec<NativeCommandResult>) -> (message: String)
    requires
        operation@.is_normalized(),
    ensures
        message@ == normalized(operation@, results.deep_view()),
{
    if succeeded(results) {
        operation.confirmation()
    } else {
        let texts = collect_error_texts(results);
        let details = join(&texts, ", ");
        String::from_str(operation.failure_prefix()).concat(details.as_str())
    }
}

} // verus!
