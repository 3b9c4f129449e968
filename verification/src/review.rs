//! Loading a review, walking through the changed files, and copying from a
//! review.
use crate::change_set::UiRegion;
use crate::commands::{
    refusal, refuse, settle, settled, CommandReply, DesktopCommandIntent, FileReviewRequest,
    RuntimeAnswer,
};
use crate::inspector_pane::ReviewDocument;
use crate::text::{optional_text, same_text};
use vstd::prelude::*;

verus! {

/// The review of a workspace.
#[derive(Debug, PartialEq, Eq)]
pub enum DesktopFileReviewState {
    Empty,
    Loading(FileReviewRequest),
    Failed { request: FileReviewRequest, code: String },
    Ready { request: FileReviewRequest, document: ReviewDocument },
}

impl DesktopFileReviewState {
    /// The change that a review is of, if it is of any.
    pub fn change(&self) -> (change: Option<&FileReviewRequest>)
        ensures
            change == (match *self {
                DesktopFileReviewState::Empty => None,
                DesktopFileReviewState::Loading(request) => Some(&request),
                DesktopFileReviewState::Failed { request, .. } => Some(&request),
                DesktopFileReviewState::Ready { request, .. } => Some(&request),
            }),
    {
        match self {
            DesktopFileReviewState::Empty => None,
            DesktopFileReviewState::Loading(request) => Some(request),
            DesktopFileReviewState::Failed { request, .. } => Some(request),
            DesktopFileReviewState::Ready { request, .. } => Some(request),
        }
    }
}

/// Takes the answer to a reserved request for a review: admitted, the review is
/// loading; else it stays as it is.
pub fn settle_file_review(
    review: &mut DesktopFileReviewState,
    request: FileReviewRequest,
    answer: RuntimeAnswer,
) -> (reply: CommandReply)
    ensures
        reply@ == settled(DesktopCommandIntent::FileReview { request }, ""@, answer),
        *final(review) == (if answer is Admitted {
            DesktopFileReviewState::Loading(request)
        } else {
            *old(review)
        }),
{
    let intent = DesktopCommandIntent::FileReview { request };
    let reply = settle(&intent, "", answer);
    if !reply.complete {
        if let DesktopCommandIntent::FileReview { request } = intent {
            *review = DesktopFileReviewState::Loading(request);
        }
    }
    reply
}

/// Whether two requests speak of the same change.
pub open spec fn same_change(left: FileReviewRequest, right: FileReviewRequest) -> bool {
    &&& left.operation_id@ == right.operation_id@
    &&& optional_text(left.tool_call_id) == optional_text(right.tool_call_id)
    &&& left.path@ == right.path@
}

fn is_same_change(left: &FileReviewRequest, right: &FileReviewRequest) -> (same: bool)
    ensures
        same == same_change(*left, *right),
{
    let same_call = match (&left.tool_call_id, &right.tool_call_id) {
        (Some(one), Some(other)) => same_text(one.as_str(), other.as_str()),
        (None, None) => true,
        _ => false,
    };
    same_text(left.operation_id.as_str(), right.operation_id.as_str()) && same_call && same_text(
        left.path.as_str(),
        right.path.as_str(),
    )
}

/// The place of the first listed change that is the given one, or the length of
/// the list.
pub open spec fn change_position(changes: Seq<FileReviewRequest>, current: FileReviewRequest) -> nat
    decreases changes.len(),
{
    if changes.len() == 0 {
        0
    } else if same_change(changes[0], current) {
        0
    } else {
        1 + change_position(changes.skip(1), current)
    }
}

/// The change that is reviewed next: the one behind the current one, round the
/// list, or the first where the current one is not listed.
pub open spec fn next_change(
    changes: Seq<FileReviewRequest>,
    current: Option<FileReviewRequest>,
) -> int {
    match current {
        Some(current) => if change_position(changes, current) < changes.len() {
            (change_position(changes, current) + 1) as int % changes.len() as int
        } else {
            0
        },
        None => 0,
    }
}

fn find_change(changes: &Vec<FileReviewRequest>, current: &FileReviewRequest) -> (found: Option<usize>)
    ensures
        found is Some <==> change_position(changes@, *current) < changes@.len(),
        found is Some ==> found->0 == change_position(changes@, *current),
{
    let mut index: usize = 0;
    assert(changes@.skip(0) =~= changes@);
    while index < changes.len()
        invariant
            index <= changes@.len(),
            change_position(changes@, *current) == index + change_position(
                changes@.skip(index as int),
                *current,
            ),
        decreases changes@.len() - index,
    {
        let ghost rest = changes@.skip(index as int);
        assert(rest[0] == changes@[index as int]);
        assert(rest.skip(1) =~= changes@.skip(index as int + 1));
        if is_same_change(&changes[index], current) {
            return Some(index);
        }
        index = index + 1;
    }
    None
}

/// How a review of the next file goes on.
#[derive(Debug, PartialEq, Eq)]
pub enum ReviewNextStep {
    Refuse(CommandReply),
    /// Asks for the change at that place.
    Request(usize),
}

/// Decides which file is reviewed next. There are changes only in a session.
pub fn review_next_file(
    session_open: bool,
    changes: &Vec<FileReviewRequest>,
    current: &Option<FileReviewRequest>,
) -> (step: ReviewNextStep)
    ensures
        !session_open ==> step is Refuse && step->Refuse_0@ == refusal(
            "No session is open for file review."@,
            Seq::empty(),
            true,
        ),
        session_open && changes@.len() == 0 ==> step is Refuse && step->Refuse_0@ == refusal(
            "No changed file is available for review."@,
            Seq::empty(),
            true,
        ),
        session_open && changes@.len() > 0 ==> step is Request && step->Request_0 == next_change(
            changes@,
            *current,
        ),
{
    let refresh: Vec<UiRegion> = Vec::new();
    assert(refresh@ =~= Seq::<UiRegion>::empty());
    if !session_open {
        return ReviewNextStep::Refuse(
            refuse("No session is open for file review.".to_owned(), refresh, true),
        );
    }
    let count: usize = changes.len();
    if count == 0 {
        return ReviewNextStep::Refuse(
            refuse("No changed file is available for review.".to_owned(), refresh, true),
        );
    }
    let next: usize = match current {
        Some(current) => match find_change(changes, current) {
            Some(index) => if index + 1 < count {
                proof {
                    vstd::arithmetic::div_mod::lemma_small_mod((index + 1) as nat, count as nat);
                }
                index + 1
            } else {
                proof {
                    vstd::arithmetic::div_mod::lemma_mod_self_0(count as int);
                }
                0
            },
            None => 0,
        },
        None => 0,
    };
    ReviewNextStep::Request(next)
}

proof fn lemma_position_of_distinct(changes: Seq<FileReviewRequest>, index: int)
    requires
        0 <= index < changes.len(),
        forall|i: int, j: int|
            0 <= i < j < changes.len() ==> !same_change(#[trigger] changes[i], #[trigger] changes[j]),
    ensures
        change_position(changes, changes[index]) == index,
    decreases changes.len(),
{
    if index > 0 {
        assert(!same_change(changes[0], changes[index]));
        let rest = changes.skip(1);
        assert forall|i: int, j: int| 0 <= i < j < rest.len() implies !same_change(
            #[trigger] rest[i],
            #[trigger] rest[j],
        ) by {
            assert(!same_change(changes[i + 1], changes[j + 1]));
        }
        assert(rest[index - 1] == changes[index]);
        lemma_position_of_distinct(rest, index - 1);
    }
}

/// Where no change is listed twice, the review walks through all of them in
/// their order and begins again behind the last.
pub proof fn law_review_walks_through_the_changes(changes: Seq<FileReviewRequest>, index: int)
    requires
        0 <= index < changes.len(),
        forall|i: int, j: int|
            0 <= i < j < changes.len() ==> !same_change(#[trigger] changes[i], #[trigger] changes[j]),
    ensures
        next_change(changes, None) == 0,
        next_change(changes, Some(changes[index])) == (if index + 1 < changes.len() {
            index + 1
        } else {
            0
        }),
{
    lemma_position_of_distinct(changes, index);
    if index + 1 < changes.len() {
        vstd::arithmetic::div_mod::lemma_small_mod((index + 1) as nat, changes.len());
    } else {
        vstd::arithmetic::div_mod::lemma_mod_self_0(changes.len() as int);
    }
}

/// Text for the clipboard, and whether it had to be cut.
#[derive(Debug, PartialEq, Eq)]
pub struct ClipboardExport {
    pub text: String,
    pub truncated: bool,
}

/// How a copy is confirmed.
#[derive(Debug, PartialEq, Eq)]
pub enum ClipboardFeedback {
    Notice(String),
    ConversationAnnouncement(String),
}

/// A confirmation by what it says.
pub ghost enum FeedbackView {
    Notice(Seq<char>),
    ConversationAnnouncement(Seq<char>),
}

impl View for ClipboardFeedback {
    type V = FeedbackView;

    open spec fn view(&self) -> FeedbackView {
        match *self {
            ClipboardFeedback::Notice(text) => FeedbackView::Notice(text@),
            ClipboardFeedback::ConversationAnnouncement(text) =>
                FeedbackView::ConversationAnnouncement(text@),
        }
    }
}

/// How a copy goes on.
#[derive(Debug, PartialEq, Eq)]
pub enum CopyStep {
    Ignore,
    Refuse(CommandReply),
    /// Confirms, and writes the text where there is one.
    Write { text: Option<String>, feedback: ClipboardFeedback },
}

impl CopyStep {
    /// Whether the step writes this text and confirms it so.
    pub open spec fn writes(self, text: Option<Seq<char>>, feedback: FeedbackView) -> bool {
        self is Write && optional_text(self->text) == text && self->feedback@ == feedback
    }

    /// Whether the step refuses so.
    pub open spec fn refuses(self, notice: Seq<char>, notify: bool) -> bool {
        self is Refuse && self->Refuse_0@ == refusal(notice, seq![UiRegion::Toast], notify)
    }
}

pub(crate) fn refuse_copy(notice: &str, notify: bool) -> (step: CopyStep)
    ensures
        step.refuses(notice@, notify),
{
    let refresh: Vec<UiRegion> = vec![UiRegion::Toast];
    assert(refresh@ =~= seq![UiRegion::Toast]);
    CopyStep::Refuse(refuse(notice.to_owned(), refresh, notify))
}

/// Copies the path of a review that is ready.
pub fn copy_review_path(export: Option<ClipboardExport>) -> (step: CopyStep)
    ensures
        export is None ==> step.refuses(
            "Load a changed-file review before copying its path."@,
            true,
        ),
        export is Some ==> step.writes(
            Some(export->0.text@),
            FeedbackView::Notice(
                if export->0.truncated {
                    "Bounded changed-file path copied (truncated)."@
                } else {
                    "Changed-file path copied."@
                },
            ),
        ),
{
    match export {
        Some(export) => CopyStep::Write {
            text: Some(export.text),
            feedback: ClipboardFeedback::Notice(
                if export.truncated {
                    "Bounded changed-file path copied (truncated).".to_owned()
                } else {
                    "Changed-file path copied.".to_owned()
                },
            ),
        },
        None => refuse_copy("Load a changed-file review before copying its path.", true),
    }
}

/// Copies a review that is ready.
pub fn copy_file_review(export: Option<ClipboardExport>) -> (step: CopyStep)
    ensures
        export is None ==> step.refuses("Load a changed-file review before copying it."@, true),
        export is Some ==> step.writes(
            Some(export->0.text@),
            FeedbackView::Notice(
                if export->0.truncated {
                    "Bounded file review copied (truncated at the clipboard limit)."@
                } else {
                    "File review copied."@
                },
            ),
        ),
{
    match export {
        Some(export) => CopyStep::Write {
            text: Some(export.text),
            feedback: ClipboardFeedback::Notice(
                if export.truncated {
                    "Bounded file review copied (truncated at the clipboard limit).".to_owned()
                } else {
                    "File review copied.".to_owned()
                },
            ),
        },
        None => refuse_copy("Load a changed-file review before copying it.", true),
    }
}

/// Two requests are of the same change where operation, call and path agree, and only
/// there.
pub proof fn law_changes_are_told_by_all_their_names(
    left: FileReviewRequest,
    right: FileReviewRequest,
)
    ensures
        same_change(left, left),
        left.operation_id@ != right.operation_id@ ==> !same_change(left, right),
        left.path@ != right.path@ ==> !same_change(left, right),
        left.tool_call_id is None && right.tool_call_id is Some ==> !same_change(left, right),
        left.tool_call_id is Some && right.tool_call_id is Some && left.tool_call_id->0@
            != right.tool_call_id->0@ ==> !same_change(left, right),
        left.operation_id@ == right.operation_id@ && left.path@ == right.path@
            && left.tool_call_id is None && right.tool_call_id is None ==> same_change(left, right),
        left.operation_id@ == right.operation_id@ && left.path@ == right.path@
            && left.tool_call_id is Some && right.tool_call_id is Some && left.tool_call_id->0@
            == right.tool_call_id->0@ ==> same_change(left, right),
{
}

/// A walk through the changes begins with the first one: where nothing is reviewed, and
/// where what is reviewed is no longer listed.
pub proof fn law_review_begins_with_the_first_change(
    changes: Seq<FileReviewRequest>,
    current: FileReviewRequest,
)
    requires
        forall|i: int| 0 <= i < changes.len() ==> !same_change(#[trigger] changes[i], current),
    ensures
        next_change(changes, None) == 0,
        next_change(changes, Some(current)) == 0,
    decreases changes.len(),
{
    lemma_change_absent(changes, current);
}

proof fn lemma_change_absent(changes: Seq<FileReviewRequest>, current: FileReviewRequest)
    requires
        forall|i: int| 0 <= i < changes.len() ==> !same_change(#[trigger] changes[i], current),
    ensures
        change_position(changes, current) == changes.len(),
    decreases changes.len(),
{
    if changes.len() > 0 {
        let rest = changes.skip(1);
        assert forall|i: int| 0 <= i < rest.len() implies !same_change(
            #[trigger] rest[i],
            current,
        ) by {
            assert(rest[i] == changes[i + 1]);
        }
        lemma_change_absent(rest, current);
    }
}

/// What is copied is what is written: the very text, with the very words that confirm
/// it. What is refused writes nothing and says why in the toast.
pub proof fn law_copies_write_what_they_say(
    step: CopyStep,
    text: Option<Seq<char>>,
    words: Seq<char>,
    notify: bool,
)
    ensures
        step.writes(text, FeedbackView::Notice(words)) <==> (step matches CopyStep::Write {
            text: written,
            feedback,
        } && (written is Some <==> text is Some) && (text is Some ==> written->0@ == text->0) && (
        feedback matches ClipboardFeedback::Notice(said) && said@ == words)),
        step.writes(text, FeedbackView::ConversationAnnouncement(words)) <==> (
        step matches CopyStep::Write { text: written, feedback } && (written is Some <==> text
            is Some) && (text is Some ==> written->0@ == text->0) && (
        feedback matches ClipboardFeedback::ConversationAnnouncement(said) && said@ == words)),
        step.refuses(words, notify) ==> (step matches CopyStep::Refuse(reply) && reply.notice
            is Some && reply.notice->0@ == words && reply.refresh@ == seq![UiRegion::Toast]
            && reply.notify == notify && !reply.complete && reply.rejection is None),
{
}

} // verus!
