//! What a workspace keeps besides its session: attachments, thinking level,
//! recoveries, and what the platform brings back.
use crate::change_set::{UiChangeSet, UiRegion, WorkspaceKey};
use crate::commands::{refusal, refuse, CommandReply, CommandReplyView};
use crate::conversation_header::DesktopThinkingLevel;
use crate::intent::RecoveryIdentity;
use crate::text::{join3, optional_text, same_text, texts, truncate_label, truncated};
use vstd::prelude::*;

verus! {

/// Some paths with those of others that are new, in their order.
pub open spec fn with_paths(paths: Seq<Seq<char>>, more: Seq<Seq<char>>) -> Seq<Seq<char>>
    decreases more.len(),
{
    if more.len() == 0 {
        paths
    } else {
        let before = with_paths(paths, more.drop_last());
        if before.contains(more.last()) {
            before
        } else {
            before.push(more.last())
        }
    }
}

fn contains_path(paths: &Vec<String>, path: &str) -> (found: bool)
    ensures
        found == texts(paths@).contains(path@),
{
    let mut index: usize = 0;
    while index < paths.len()
        invariant
            index <= paths@.len(),
            forall|i: int| 0 <= i < index ==> (#[trigger] paths@[i])@ != path@,
        decreases paths@.len() - index,
    {
        if same_text(paths[index].as_str(), path) {
            assert(texts(paths@)[index as int] == path@);
            return true;
        }
        index = index + 1;
    }
    assert(!texts(paths@).contains(path@)) by {
        if texts(paths@).contains(path@) {
            let at = texts(paths@).index_of(path@);
            assert(paths@[at]@ == path@);
        }
    }
    false
}

/// The attachments of a draft once some paths were picked: each path is attached
/// once.
pub fn candidate_attachments(attached: &Vec<String>, picked: &Vec<String>) -> (candidate: Vec<String>)
    ensures
        texts(candidate@) == with_paths(texts(attached@), texts(picked@)),
{
    let mut candidate: Vec<String> = Vec::new();
    let mut index: usize = 0;
    while index < attached.len()
        invariant
            index <= attached@.len(),
            candidate@.len() == index,
            forall|i: int| 0 <= i < index ==> (#[trigger] candidate@[i])@ == attached@[i]@,
        decreases attached@.len() - index,
    {
        candidate.push(attached[index].clone());
        index = index + 1;
    }
    assert(texts(candidate@) =~= texts(attached@));
    assert(texts(picked@).take(0) =~= Seq::<Seq<char>>::empty());
    index = 0;
    while index < picked.len()
        invariant
            index <= picked@.len(),
            texts(candidate@) == with_paths(texts(attached@), texts(picked@).take(index as int)),
        decreases picked@.len() - index,
    {
        let ghost longer = texts(picked@).take(index as int + 1);
        assert(longer.drop_last() =~= texts(picked@).take(index as int));
        assert(longer.last() == picked@[index as int]@);
        if !contains_path(&candidate, picked[index].as_str()) {
            let ghost before = candidate@;
            candidate.push(picked[index].clone());
            assert(texts(candidate@) =~= texts(before).push(picked@[index as int]@));
        }
        index = index + 1;
    }
    assert(texts(picked@).take(index as int) =~= texts(picked@));
    candidate
}

/// What comes of picked attachments.
#[derive(Debug, PartialEq, Eq)]
pub enum AttachmentStep {
    Unchanged,
    Rejected(String),
    Attached(Vec<String>),
}

fn same_paths(left: &Vec<String>, right: &Vec<String>) -> (same: bool)
    ensures
        same == (texts(left@) == texts(right@)),
{
    if left.len() != right.len() {
        assert(texts(left@).len() != texts(right@).len());
        return false;
    }
    let mut index: usize = 0;
    while index < left.len()
        invariant
            index <= left@.len(),
            left@.len() == right@.len(),
            forall|i: int| 0 <= i < index ==> (#[trigger] left@[i])@ == right@[i]@,
        decreases left@.len() - index,
    {
        if !same_text(left[index].as_str(), right[index].as_str()) {
            assert(texts(left@)[index as int] != texts(right@)[index as int]);
            return false;
        }
        index = index + 1;
    }
    assert(texts(left@) =~= texts(right@));
    true
}

/// What becomes of the attachments of a workspace that is there.
pub open spec fn attachments_decided(
    attached: Vec<String>,
    candidate: Vec<String>,
    validation: Result<(), String>,
) -> AttachmentStep {
    match validation {
        Err(message) => AttachmentStep::Rejected(message),
        Ok(()) => if texts(candidate@) == texts(attached@) {
            AttachmentStep::Unchanged
        } else {
            AttachmentStep::Attached(candidate)
        },
    }
}

/// Decides on a candidate for the attachments of the workspace that asked for
/// them, given whether it was found valid. Nothing changes where nothing was
/// added, nor where the workspace is gone.
pub fn add_composer_attachments(
    attached: Option<&Vec<String>>,
    candidate: Vec<String>,
    validation: Result<(), String>,
) -> (step: AttachmentStep)
    ensures
        attached is None ==> step is Unchanged,
        attached is Some ==> step == attachments_decided(*attached->0, candidate, validation),
{
    let attached = match attached {
        Some(attached) => attached,
        None => {
            return AttachmentStep::Unchanged;
        },
    };
    match validation {
        Err(message) => AttachmentStep::Rejected(message),
        Ok(()) => if same_paths(&candidate, attached) {
            AttachmentStep::Unchanged
        } else {
            AttachmentStep::Attached(candidate)
        },
    }
}

proof fn lemma_with_paths_extends(paths: Seq<Seq<char>>, more: Seq<Seq<char>>)
    ensures
        with_paths(paths, more).len() >= paths.len(),
        with_paths(paths, more).take(paths.len() as int) == paths,
    decreases more.len(),
{
    if more.len() > 0 {
        lemma_with_paths_extends(paths, more.drop_last());
        let before = with_paths(paths, more.drop_last());
        let now = with_paths(paths, more);
        assert(now.take(paths.len() as int) =~= before.take(paths.len() as int));
    } else {
        assert(paths.take(paths.len() as int) =~= paths);
    }
}

/// Picking paths keeps what was attached, in its order, attaches every picked
/// path, and attaches none twice.
pub proof fn law_attachments_are_kept_and_distinct(
    attached: Seq<Seq<char>>,
    picked: Seq<Seq<char>>,
)
    requires
        attached.no_duplicates(),
    ensures
        with_paths(attached, picked).len() >= attached.len(),
        with_paths(attached, picked).take(attached.len() as int) == attached,
        with_paths(attached, picked).no_duplicates(),
        forall|i: int|
            0 <= i < picked.len() ==> with_paths(attached, picked).contains(#[trigger] picked[i]),
    decreases picked.len(),
{
    lemma_with_paths_extends(attached, picked);
    if picked.len() > 0 {
        let earlier = picked.drop_last();
        law_attachments_are_kept_and_distinct(attached, earlier);
        let before = with_paths(attached, earlier);
        let now = with_paths(attached, picked);
        assert forall|i: int| 0 <= i < picked.len() implies now.contains(#[trigger] picked[i]) by {
            if i < earlier.len() {
                assert(earlier[i] == picked[i]);
                assert(before.contains(earlier[i]));
                let at = before.index_of(picked[i]);
                assert(now[at] == picked[i]);
            } else if before.contains(picked.last()) {
                assert(now == before);
            } else {
                assert(now.last() == picked.last());
            }
        }
        if !before.contains(picked.last()) {
            assert forall|i: int, j: int| 0 <= i < now.len() && 0 <= j < now.len() && i != j implies now[i]
                != now[j] by {
                if i < before.len() && j < before.len() {
                    assert(now[i] == before[i] && now[j] == before[j]);
                } else if i < before.len() {
                    assert(before.contains(before[i]));
                } else {
                    assert(before.contains(before[j]));
                }
            }
        }
    }
}

/// Takes the attachment at a place away, where there is one.
pub fn remove_composer_attachment(attached: &mut Vec<String>, index: usize) -> (removed: bool)
    ensures
        removed == (index < old(attached)@.len()),
        final(attached)@ == (if index < old(attached)@.len() {
            old(attached)@.remove(index as int)
        } else {
            old(attached)@
        }),
{
    if index < attached.len() {
        attached.remove(index);
        true
    } else {
        false
    }
}

/// The first place of a thinking level among those on offer, or their number.
pub open spec fn level_position(
    levels: Seq<DesktopThinkingLevel>,
    level: DesktopThinkingLevel,
) -> nat
    decreases levels.len(),
{
    if levels.len() == 0 {
        0
    } else if levels[0] == level {
        0
    } else {
        1 + level_position(levels.skip(1), level)
    }
}

fn find_level(levels: &Vec<DesktopThinkingLevel>, level: DesktopThinkingLevel) -> (at: usize)
    ensures
        at == level_position(levels@, level),
        at <= levels@.len(),
{
    let mut index: usize = 0;
    assert(levels@.skip(0) =~= levels@);
    while index < levels.len()
        invariant
            index <= levels@.len(),
            level_position(levels@, level) == index + level_position(
                levels@.skip(index as int),
                level,
            ),
        decreases levels@.len() - index,
    {
        let ghost rest = levels@.skip(index as int);
        assert(rest[0] == levels@[index as int]);
        assert(rest.skip(1) =~= levels@.skip(index as int + 1));
        if levels[index] == level {
            return index;
        }
        index = index + 1;
    }
    index
}

proof fn lemma_level_position(levels: Seq<DesktopThinkingLevel>, level: DesktopThinkingLevel)
    ensures
        level_position(levels, level) <= levels.len(),
        level_position(levels, level) < levels.len() <==> levels.contains(level),
        level_position(levels, level) < levels.len() ==> levels[level_position(
            levels,
            level,
        ) as int] == level,
    decreases levels.len(),
{
    if levels.len() > 0 && levels[0] != level {
        let rest = levels.skip(1);
        lemma_level_position(rest, level);
        if levels.contains(level) {
            let at = levels.index_of(level);
            assert(rest[at - 1] == level);
        }
        if rest.contains(level) {
            let at = rest.index_of(level);
            assert(levels[at + 1] == level);
        }
    } else if levels.len() > 0 {
        assert(levels[0] == level);
    }
}

/// What selecting a thinking level does.
#[derive(Debug, PartialEq, Eq)]
pub enum ThinkingStep {
    Ignore,
    /// The level and the hint are in force, the level is remembered for the
    /// session where there is one, and the reply announces it.
    Select {
        level: DesktopThinkingLevel,
        hint: Option<String>,
        remember: bool,
        reply: CommandReply,
    },
}

/// The announcement of a thinking level.
pub open spec fn thinking_words(session_open: bool, label: Seq<char>) -> Seq<char> {
    (if session_open {
        "This session"@
    } else {
        "The next session"@
    }) + " will use thinking "@ + label + "."@
}

/// Decides on a thinking level: it must be on offer, and another one than that
/// in force. What was hinted of the level before no longer holds.
pub fn select_thinking_level(
    levels: &Vec<DesktopThinkingLevel>,
    current: DesktopThinkingLevel,
    selection: DesktopThinkingLevel,
    session_open: bool,
    label: &str,
) -> (step: ThinkingStep)
    ensures
        !levels@.contains(selection) || selection == current ==> step is Ignore,
        levels@.contains(selection) && selection != current ==> {
            &&& step is Select
            &&& step->level == selection
            &&& step->hint is None
            &&& step->remember == session_open
            &&& step->reply@ == (CommandReplyView {
                notice: Some(thinking_words(session_open, label@)),
                complete: false,
                rejection: None,
                refresh: seq![UiRegion::Toast, UiRegion::ConversationHeader, UiRegion::Inspector],
                notify: true,
            })
        },
{
    let at: usize = find_level(levels, selection);
    proof {
        lemma_level_position(levels@, selection);
    }
    if at >= levels.len() || selection == current {
        return ThinkingStep::Ignore;
    }
    let mut notice = join3(
        if session_open {
            "This session"
        } else {
            "The next session"
        },
        " will use thinking ",
        label,
    );
    notice.append(".");
    let refresh: Vec<UiRegion> = vec![
        UiRegion::Toast,
        UiRegion::ConversationHeader,
        UiRegion::Inspector,
    ];
    assert(refresh@ =~= seq![
        UiRegion::Toast,
        UiRegion::ConversationHeader,
        UiRegion::Inspector,
    ]);
    ThinkingStep::Select {
        level: selection,
        hint: None,
        remember: session_open,
        reply: CommandReply {
            notice: Some(notice),
            complete: false,
            rejection: None,
            refresh,
            notify: true,
        },
    }
}

/// The level behind the one in force, round those on offer; the first where the
/// one in force is not on offer, none where there are none.
pub open spec fn next_level(
    levels: Seq<DesktopThinkingLevel>,
    current: DesktopThinkingLevel,
) -> Option<DesktopThinkingLevel> {
    let at = level_position(levels, current);
    if levels.len() == 0 {
        None
    } else if at + 1 < levels.len() {
        Some(levels[at as int + 1])
    } else {
        Some(levels[0])
    }
}

/// Works out the next thinking level.
pub fn cycle_thinking_selection(levels: &Vec<DesktopThinkingLevel>, current: DesktopThinkingLevel) -> (
    next: Option<DesktopThinkingLevel>)
    ensures
        next == next_level(levels@, current),
{
    let count: usize = levels.len();
    if count == 0 {
        return None;
    }
    let at: usize = find_level(levels, current);
    if at < count - 1 {
        Some(levels[at + 1])
    } else {
        Some(levels[0])
    }
}

/// Cycling walks through the levels on offer: the next of one that is listed
/// once is the one behind it, and the next of the last is the first.
pub proof fn law_thinking_levels_cycle(levels: Seq<DesktopThinkingLevel>, index: int)
    requires
        0 <= index < levels.len(),
        levels.no_duplicates(),
    ensures
        next_level(levels, levels[index]) == Some(levels[(if index + 1 < levels.len() {
            index + 1
        } else {
            0
        })]),
{
    lemma_level_position(levels, levels[index]);
    assert(levels.contains(levels[index]));
    let at = level_position(levels, levels[index]) as int;
    assert(levels[at] == levels[index]);
    assert(at == index);
}

/// How a thinking level fares when the model changes.
#[derive(Debug, PartialEq, Eq)]
pub enum ThinkingFallback {
    Keep,
    /// The level falls back; a session remembers it.
    Reset { level: DesktopThinkingLevel, hint: &'static str, remember: bool },
}

/// Decides how a thinking level fares, given what the project admits instead.
pub fn reconcile_thinking_selection(
    admitted: DesktopThinkingLevel,
    fell_back: bool,
    session_open: bool,
) -> (outcome: ThinkingFallback)
    ensures
        !fell_back ==> outcome is Keep,
        fell_back ==> {
            &&& outcome is Reset
            &&& outcome->level == admitted
            &&& outcome->hint@ == "Thinking reset to Auto for the selected model."@
            &&& outcome->remember == session_open
        },
{
    if fell_back {
        ThinkingFallback::Reset {
            level: admitted,
            hint: "Thinking reset to Auto for the selected model.",
            remember: session_open,
        }
    } else {
        ThinkingFallback::Keep
    }
}

/// A recovery as the projection lists it.
#[derive(Debug, PartialEq, Eq)]
pub struct ListedRecovery {
    pub pending: bool,
    pub authoritative: bool,
    pub identity: Option<RecoveryIdentity>,
}

/// The identity of the first recovery that is pending and authoritative.
pub open spec fn latest_identity(recoveries: Seq<ListedRecovery>) -> Option<RecoveryIdentity>
    decreases recoveries.len(),
{
    if recoveries.len() == 0 {
        None
    } else if recoveries[0].pending && recoveries[0].authoritative {
        recoveries[0].identity
    } else {
        latest_identity(recoveries.skip(1))
    }
}

/// How acting on the latest recovery goes on.
#[derive(Debug, PartialEq, Eq)]
pub enum LatestRecoveryStep {
    Refuse(CommandReply),
    Submit(RecoveryIdentity),
}

/// Finds the recovery to act on.
pub fn submit_latest_recovery(recoveries: &Vec<ListedRecovery>) -> (step: LatestRecoveryStep)
    ensures
        match latest_identity(recoveries@) {
            Some(identity) => step == LatestRecoveryStep::Submit(identity),
            None => step is Refuse && step->Refuse_0@ == refusal(
                "No authoritative pending recovery is available."@,
                seq![UiRegion::Toast],
                true,
            ),
        },
{
    let refresh: Vec<UiRegion> = vec![UiRegion::Toast];
    assert(refresh@ =~= seq![UiRegion::Toast]);
    let mut index: usize = 0;
    assert(recoveries@.skip(0) =~= recoveries@);
    while index < recoveries.len()
        invariant
            index <= recoveries@.len(),
            refresh@ == seq![UiRegion::Toast],
            latest_identity(recoveries@) == latest_identity(recoveries@.skip(index as int)),
        decreases recoveries@.len() - index,
    {
        let ghost rest = recoveries@.skip(index as int);
        assert(rest[0] == recoveries@[index as int]);
        assert(rest.skip(1) =~= recoveries@.skip(index as int + 1));
        let recovery = &recoveries[index];
        if recovery.pending && recovery.authoritative {
            if let Some(identity) = &recovery.identity {
                return LatestRecoveryStep::Submit(identity.clone());
            }
            return LatestRecoveryStep::Refuse(
                refuse(
                    "No authoritative pending recovery is available.".to_owned(),
                    refresh,
                    true,
                ),
            );
        }
        index = index + 1;
    }
    LatestRecoveryStep::Refuse(
        refuse("No authoritative pending recovery is available.".to_owned(), refresh, true),
    )
}

/// How a picker begins.
#[derive(Debug, PartialEq, Eq)]
pub enum PickerStep {
    Refuse(CommandReply),
    Pick,
}

/// Whether attachments can be picked, given why not.
pub fn choose_composer_attachments(disabled_reason: Option<String>) -> (step: PickerStep)
    ensures
        match disabled_reason {
            Some(reason) => step is Refuse && step->Refuse_0@ == refusal(
                reason@,
                seq![UiRegion::Toast],
                true,
            ),
            None => step is Pick,
        },
{
    match disabled_reason {
        Some(reason) => {
            let refresh: Vec<UiRegion> = vec![UiRegion::Toast];
            assert(refresh@ =~= seq![UiRegion::Toast]);
            PickerStep::Refuse(refuse(reason, refresh, true))
        },
        None => PickerStep::Pick,
    }
}

/// Where a new conversation will work.
#[derive(Debug, PartialEq, Eq)]
pub enum WorkspaceSelection {
    /// The scratch workspace of that name.
    Projectless(String),
    /// The directory at that path.
    Project(String),
}

/// The workspaces of a new window: home, and the session it was opened with,
/// where there is one.
#[derive(Debug, PartialEq, Eq)]
pub struct InitialWorkspaces {
    pub active: WorkspaceKey,
    pub home_notice: Option<String>,
    pub home_thinking: DesktopThinkingLevel,
    pub home_selection: WorkspaceSelection,
    pub session_notice: Option<String>,
    pub session_thinking: Option<DesktopThinkingLevel>,
}

/// Works out the workspaces of a new window. A session is active and gets the
/// notice and the thinking level that is remembered for it; home is there in any
/// case, with the default level and the scratch workspace.
pub fn initial_workspaces(
    session_id: Option<String>,
    remembered: DesktopThinkingLevel,
    notice: Option<String>,
    scratch_id: String,
) -> (start: InitialWorkspaces)
    ensures
        session_id is None ==> {
            &&& start.active is Home
            &&& start.home_notice == notice
            &&& start.session_notice is None
            &&& start.session_thinking is None
        },
        session_id is Some ==> {
            &&& start.active == WorkspaceKey::Session(session_id->0)
            &&& start.home_notice is None
            &&& start.session_notice == notice
            &&& start.session_thinking == Some(remembered)
        },
        start.home_thinking is Default,
        start.home_selection == WorkspaceSelection::Projectless(scratch_id),
{
    let home_selection = WorkspaceSelection::Projectless(scratch_id);
    match session_id {
        Some(session_id) => InitialWorkspaces {
            active: WorkspaceKey::Session(session_id),
            home_notice: None,
            home_thinking: DesktopThinkingLevel::Default,
            home_selection,
            session_notice: notice,
            session_thinking: Some(remembered),
        },
        None => InitialWorkspaces {
            active: WorkspaceKey::Home,
            home_notice: notice,
            home_thinking: DesktopThinkingLevel::Default,
            home_selection,
            session_notice: None,
            session_thinking: None,
        },
    }
}

/// Sets the project of a draft, where it can still be changed.
pub fn set_project_directory(selection: &mut WorkspaceSelection, path: String, editable: bool) -> (
    changed: bool)
    ensures
        changed == editable,
        *final(selection) == (if editable {
            WorkspaceSelection::Project(path)
        } else {
            *old(selection)
        }),
{
    if editable {
        *selection = WorkspaceSelection::Project(path);
    }
    editable
}

/// Takes the project from a draft, where it can still be changed: the draft
/// goes to the scratch workspace, and the composer shows it. Says what to
/// refresh, or nothing where nothing changed.
pub fn clear_project_directory(
    selection: &mut WorkspaceSelection,
    scratch_id: String,
    editable: bool,
) -> (refresh: Option<UiRegion>)
    ensures
        *final(selection) == (if editable {
            WorkspaceSelection::Projectless(scratch_id)
        } else {
            *old(selection)
        }),
        refresh == (if editable {
            Some(UiRegion::Composer)
        } else {
            None
        }),
{
    if !editable {
        return None;
    }
    *selection = WorkspaceSelection::Projectless(scratch_id);
    Some(UiRegion::Composer)
}

/// Whether the user is asked for a project, and how.
pub fn choose_project_directory(editable: bool) -> (picker: Option<DesktopPickerKind>)
    ensures
        picker == (if editable {
            Some(DesktopPickerKind::ProjectDirectory)
        } else {
            None
        }),
{
    if editable {
        Some(DesktopPickerKind::ProjectDirectory)
    } else {
        None
    }
}

/// What the platform asks the user for.
#[derive(Debug, Clone, Copy, PartialEq, Eq, Structural)]
pub enum DesktopPickerKind {
    Attachments,
    ProjectDirectory,
}

/// A picker as the platform shows it.
#[derive(Debug, PartialEq, Eq)]
pub struct PickerOptions {
    pub files: bool,
    pub directories: bool,
    pub multiple: bool,
    pub prompt: &'static str,
}

/// Works out the picker for a purpose.
pub fn picker_options(picker: DesktopPickerKind) -> (options: PickerOptions)
    ensures
        options.files == (picker is Attachments),
        options.directories == (picker is ProjectDirectory),
        options.multiple == (picker is Attachments),
        options.prompt@ == (match picker {
            DesktopPickerKind::Attachments => "Attach files or images"@,
            DesktopPickerKind::ProjectDirectory => "Choose a project directory"@,
        }),
{
    match picker {
        DesktopPickerKind::Attachments => PickerOptions {
            files: true,
            directories: false,
            multiple: true,
            prompt: "Attach files or images",
        },
        DesktopPickerKind::ProjectDirectory => PickerOptions {
            files: false,
            directories: true,
            multiple: false,
            prompt: "Choose a project directory",
        },
    }
}

/// What came of work that the platform did.
#[derive(Debug, PartialEq, Eq)]
pub enum PlatformOutcome<T> {
    Completed(T),
    Cancelled,
    Failed(String),
}

/// What a picker brought back.
#[derive(Debug, PartialEq, Eq)]
pub enum PickerAnswer {
    Paths(Vec<String>),
    Dismissed,
    Broken,
}

/// Decides what came of a picker.
pub fn picker_outcome(picker: DesktopPickerKind, answer: PickerAnswer) -> (outcome: PlatformOutcome<
    Vec<String>,
>)
    ensures
        match answer {
            PickerAnswer::Paths(paths) => outcome == PlatformOutcome::Completed(paths),
            PickerAnswer::Dismissed => outcome is Cancelled,
            PickerAnswer::Broken => outcome is Failed && outcome->Failed_0@ == (match picker {
                DesktopPickerKind::Attachments => "The file picker could not be opened."@,
                DesktopPickerKind::ProjectDirectory => "The directory picker could not be opened."@,
            }),
        },
{
    match answer {
        PickerAnswer::Paths(paths) => PlatformOutcome::Completed(paths),
        PickerAnswer::Dismissed => PlatformOutcome::Cancelled,
        PickerAnswer::Broken => PlatformOutcome::Failed(
            match picker {
                DesktopPickerKind::Attachments => "The file picker could not be opened.".to_owned(),
                DesktopPickerKind::ProjectDirectory =>
                    "The directory picker could not be opened.".to_owned(),
            },
        ),
    }
}

/// How storing the preferences ended.
#[derive(Debug, PartialEq, Eq)]
pub enum PreferenceWrite {
    NoWriter,
    Written,
    Superseded,
    Failed(String),
    Stopped,
}

/// Decides what came of storing the preferences: a later version makes an
/// earlier one needless.
pub fn preference_outcome(write: PreferenceWrite) -> (outcome: PlatformOutcome<()>)
    ensures
        match write {
            PreferenceWrite::NoWriter => outcome is Failed && outcome->Failed_0@
                == "Desktop preference writer is unavailable."@,
            PreferenceWrite::Written => outcome is Completed,
            PreferenceWrite::Superseded => outcome is Cancelled,
            PreferenceWrite::Failed(message) => outcome == PlatformOutcome::<()>::Failed(message),
            PreferenceWrite::Stopped => outcome is Failed && outcome->Failed_0@
                == "Desktop preference writer stopped before completion."@,
        },
{
    match write {
        PreferenceWrite::NoWriter => PlatformOutcome::Failed(
            "Desktop preference writer is unavailable.".to_owned(),
        ),
        PreferenceWrite::Written => PlatformOutcome::Completed(()),
        PreferenceWrite::Superseded => PlatformOutcome::Cancelled,
        PreferenceWrite::Failed(message) => PlatformOutcome::Failed(message),
        PreferenceWrite::Stopped => PlatformOutcome::Failed(
            "Desktop preference writer stopped before completion.".to_owned(),
        ),
    }
}

/// Decides what came of asking the runtime to synchronise again.
pub fn resync_outcome(runtime_present: bool, failure: Option<String>) -> (outcome: PlatformOutcome<()>)
    ensures
        !runtime_present ==> outcome is Failed && outcome->Failed_0@
            == "desktop runtime is stopped"@,
        runtime_present && failure is None ==> outcome is Completed,
        runtime_present && failure is Some ==> outcome == PlatformOutcome::<()>::Failed(failure->0),
{
    if !runtime_present {
        return PlatformOutcome::Failed("desktop runtime is stopped".to_owned());
    }
    match failure {
        None => PlatformOutcome::Completed(()),
        Some(message) => PlatformOutcome::Failed(message),
    }
}

/// What follows on the answer to a request to synchronise again. One that
/// failed gives its reservation back and says why; else nothing is to be done.
pub fn complete_resync_admission(failure: Option<String>) -> (reply: Option<CommandReply>)
    ensures
        failure is None ==> reply is None,
        failure is Some ==> reply is Some && reply->0@ == (CommandReplyView {
            notice: optional_text(failure),
            complete: true,
            rejection: None,
            refresh: Seq::empty(),
            notify: false,
        }),
{
    match failure {
        None => None,
        Some(message) => {
            let refresh: Vec<UiRegion> = Vec::new();
            assert(refresh@ =~= Seq::<UiRegion>::empty());
            Some(
                CommandReply {
                    notice: Some(message),
                    complete: true,
                    rejection: None,
                    refresh,
                    notify: false,
                },
            )
        },
    }
}

/// What is said once an editor was launched, or was not.
pub open spec fn editor_words(path: Seq<char>, failure: Option<Seq<char>>) -> Seq<char> {
    match failure {
        Some(message) => message,
        None => "Opened "@ + truncated(path, 48) + " in the configured editor."@,
    }
}

/// The notice of a launched editor, where the command was still its own.
pub fn complete_external_editor_launch(
    command_was_pending: bool,
    project_relative_path: &str,
    failure: Option<String>,
) -> (notice: Option<String>)
    ensures
        !command_was_pending ==> notice is None,
        command_was_pending ==> optional_text(notice) == Some(
            editor_words(project_relative_path@, optional_text(failure)),
        ),
{
    if !command_was_pending {
        return None;
    }
    match failure {
        Some(message) => Some(message),
        None => Some(
            join3(
                "Opened ",
                truncate_label(project_relative_path, 48).as_str(),
                " in the configured editor.",
            ),
        ),
    }
}

/// What the composer shows from now on, where its draft was changed behind it.
pub fn sync_composer(needs_sync: &mut bool, draft: &str) -> (value: Option<String>)
    ensures
        !*final(needs_sync),
        optional_text(value) == (if *old(needs_sync) {
            Some(draft@)
        } else {
            None
        }),
{
    if !*needs_sync {
        return None;
    }
    *needs_sync = false;
    Some(draft.to_owned())
}

/// How many updates of the runtime one frame takes.
pub const MAX_RUNTIME_UPDATES_PER_FRAME: usize = 64;

/// How many of the waiting updates a frame takes. Without a runtime none is.
pub fn updates_of_frame(runtime_present: bool, waiting: usize) -> (taken: usize)
    ensures
        taken == (if !runtime_present {
            0
        } else if waiting < MAX_RUNTIME_UPDATES_PER_FRAME {
            waiting
        } else {
            MAX_RUNTIME_UPDATES_PER_FRAME
        }),
{
    if !runtime_present {
        0
    } else if waiting < MAX_RUNTIME_UPDATES_PER_FRAME {
        waiting
    } else {
        MAX_RUNTIME_UPDATES_PER_FRAME
    }
}

/// Adds to what the updates of a frame have changed: rows that should have been
/// laid out again but could not be call for the whole window.
pub fn apply_runtime_poll(
    changes: &mut UiChangeSet,
    rows_need_refresh: bool,
    rows_refreshed: bool,
)
    ensures
        forall|region: UiRegion|
            #[trigger] final(changes).holds(region) == (old(changes).holds(region) || (
            rows_need_refresh && !rows_refreshed && region == UiRegion::Root)),
{
    if rows_need_refresh && !rows_refreshed {
        changes.insert(UiRegion::Root);
    }
}

/// Picking attaches nothing but what was attached or picked; what is new stands behind
/// the rest. Picking nothing, or only what is attached, changes nothing.
pub proof fn law_nothing_else_is_attached(
    attached: Seq<Seq<char>>,
    picked: Seq<Seq<char>>,
    path: Seq<char>,
)
    ensures
        with_paths(attached, Seq::empty()) == attached,
        with_paths(attached, picked).contains(path) <==> attached.contains(path)
            || picked.contains(path),
        with_paths(attached, picked.push(path)) == (if attached.contains(path) || picked.contains(
            path,
        ) {
            with_paths(attached, picked)
        } else {
            with_paths(attached, picked).push(path)
        }),
    decreases picked.len(),
{
    if picked.len() > 0 {
        let fewer = picked.drop_last();
        let last = picked.last();
        law_nothing_else_is_attached(attached, fewer, path);
        law_nothing_else_is_attached(attached, fewer, last);
        let before = with_paths(attached, fewer);
        let now = with_paths(attached, picked);
        if before.contains(path) {
            let i = before.index_of(path);
            assert(now[i] == path);
        }
        if now.contains(path) {
            let i = now.index_of(path);
            if i < before.len() {
                assert(before[i] == path);
            } else {
                assert(path == last);
            }
        }
        if picked.contains(path) {
            let i = picked.index_of(path);
            if i < fewer.len() {
                assert(fewer[i] == path);
            } else {
                assert(now.contains(last)) by {
                    if !before.contains(last) {
                        assert(now[before.len() as int] == last);
                    }
                }
            }
        }
        if fewer.contains(path) {
            let i = fewer.index_of(path);
            assert(picked[i] == path);
        }
        if path == last {
            assert(picked[picked.len() - 1] == path);
        }
    }
    assert(picked.push(path).drop_last() =~= picked);
}

/// Attachments that were found invalid are refused in the words of the finding, all of
/// them; valid ones are taken, and only where that changes anything.
pub proof fn law_attachments_are_taken_or_refused_together(
    attached: Vec<String>,
    candidate: Vec<String>,
    message: String,
)
    ensures
        attachments_decided(attached, candidate, Err(message)) == AttachmentStep::Rejected(message),
        texts(candidate@) == texts(attached@) ==> attachments_decided(attached, candidate, Ok(()))
            is Unchanged,
        texts(candidate@) != texts(attached@) ==> attachments_decided(attached, candidate, Ok(()))
            == AttachmentStep::Attached(candidate),
{
}

/// A level of thinking is announced for the session that it counts for.
pub proof fn law_thinking_is_announced_for_its_session(label: Seq<char>)
    ensures
        thinking_words(true, label) == "This session"@ + " will use thinking "@ + label + "."@,
        thinking_words(false, label) == "The next session"@ + " will use thinking "@ + label + "."@,
{
}

/// A level stands at the first place where it is on offer. Cycling from a level that is
/// not on offer begins with the first, and there is nothing to cycle through where none
/// is on offer.
pub proof fn law_levels_are_found_on_offer(
    levels: Seq<DesktopThinkingLevel>,
    level: DesktopThinkingLevel,
)
    ensures
        level_position(levels, level) <= levels.len(),
        level_position(levels, level) < levels.len() <==> levels.contains(level),
        levels.contains(level) ==> levels[level_position(levels, level) as int] == level,
        levels.len() == 0 ==> next_level(levels, level) is None,
        levels.len() > 0 && !levels.contains(level) ==> next_level(levels, level) == Some(
            levels[0],
        ),
        levels.len() > 0 ==> next_level(levels, level) is Some && levels.contains(
            next_level(levels, level)->0,
        ),
    decreases levels.len(),
{
    if levels.len() > 0 {
        let rest = levels.skip(1);
        law_levels_are_found_on_offer(rest, level);
        if levels.contains(level) && levels[0] != level {
            let i = levels.index_of(level);
            assert(rest[i - 1] == level);
        }
        if rest.contains(level) {
            let i = rest.index_of(level);
            assert(levels[i + 1] == level);
        }
        assert(levels.contains(levels[0]));
        let at = level_position(levels, level);
        if at + 1 < levels.len() {
            assert(levels.contains(levels[at as int + 1]));
        }
    }
}

/// The recovery that is acted on is the first that is pending and authoritative, and
/// none where there is no such one.
pub proof fn law_first_open_recovery_is_acted_on(recoveries: Seq<ListedRecovery>)
    ensures
        forall|at: int|
            #![trigger recoveries[at]]
            0 <= at < recoveries.len() && recoveries[at].pending && recoveries[at].authoritative && (
            forall|i: int|
                0 <= i < at ==> !((#[trigger] recoveries[i]).pending
                    && recoveries[i].authoritative)) ==> latest_identity(recoveries)
                == recoveries[at].identity,
        (forall|i: int|
            0 <= i < recoveries.len() ==> !((#[trigger] recoveries[i]).pending
                && recoveries[i].authoritative)) ==> latest_identity(recoveries) is None,
    decreases recoveries.len(),
{
    if recoveries.len() > 0 {
        let rest = recoveries.skip(1);
        law_first_open_recovery_is_acted_on(rest);
        assert forall|at: int|
            #![trigger recoveries[at]]
            0 <= at < recoveries.len() && recoveries[at].pending && recoveries[at].authoritative && (
            forall|i: int|
                0 <= i < at ==> !((#[trigger] recoveries[i]).pending
                    && recoveries[i].authoritative)) implies latest_identity(recoveries)
            == recoveries[at].identity by {
            if at > 0 {
                assert(!(recoveries[0].pending && recoveries[0].authoritative));
                assert(rest[at - 1] == recoveries[at]);
                assert forall|i: int| 0 <= i < at - 1 implies !((#[trigger] rest[i]).pending
                    && rest[i].authoritative) by {
                    assert(rest[i] == recoveries[i + 1]);
                }
            }
        }
        if forall|i: int|
            0 <= i < recoveries.len() ==> !((#[trigger] recoveries[i]).pending
                && recoveries[i].authoritative) {
            assert(!(recoveries[0].pending && recoveries[0].authoritative));
            assert forall|i: int| 0 <= i < rest.len() implies !((#[trigger] rest[i]).pending
                && rest[i].authoritative) by {
                assert(rest[i] == recoveries[i + 1]);
            }
        }
    }
}

/// An editor that did not open says why; one that did says with which file.
pub proof fn law_editor_launches_are_told(path: Seq<char>, message: Seq<char>)
    ensures
        editor_words(path, Some(message)) == message,
        path.len() <= 48 ==> editor_words(path, None) == "Opened "@ + path
            + " in the configured editor."@,
        path.len() > 48 ==> editor_words(path, None) == "Opened "@ + path.take(47).push('…')
            + " in the configured editor."@,
{
}

/// A frame takes 64 updates of the runtime at most.
pub proof fn law_frames_have_a_size()
    ensures
        MAX_RUNTIME_UPDATES_PER_FRAME == 64,
{
}

} // verus!
