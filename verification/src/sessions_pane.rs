//! What the sessions pane shows: session rows, skills, the empty state, and the
//! rename in progress.
use crate::catalog::{
    group_views, in_order, lemma_filter_keeps_the_order, lemma_matches_stand, session_matches,
    session_matches_query, stands_in_session, workspace_matches, workspace_matches_query,
    CatalogGroupView, CatalogStateView, DesktopSessionCatalogEntry,
    ProjectCatalogGroup, ProjectCatalogState, WorkspaceOverview,
};
use crate::controls::DesktopRowState;
use crate::text::{
    decimal, decimal_text, join2, join3, join5, lowercase, optional_text, same_text, to_lowercase,
    trim, trimmed, truncate_label, truncated,
};
use crate::theme::{
    semantic_status_color, status_color, SemanticColor, SemanticTheme, StatusFace,
};
use vstd::prelude::*;
use vstd::utf8::{encode_utf8, is_char_boundary};

verus! {

/// A point in calendar time: seconds since the Unix epoch, and nanoseconds
/// within the second.
#[derive(Debug, Clone, Copy, PartialEq, Eq, Structural)]
pub struct Timestamp {
    pub seconds: i64,
    pub nanoseconds: u32,
}

impl Timestamp {
    /// Nanoseconds since the Unix epoch.
    pub open spec fn total(self) -> int {
        self.seconds * 1_000_000_000 + self.nanoseconds
    }
}

/// The point in time that a text tells in RFC 3339 notation.
pub uninterp spec fn rfc3339_time(text: Seq<char>) -> Option<Timestamp>;

/// Calls `OffsetDateTime::parse` with `Rfc3339` and reads off its
/// `unix_timestamp` and `nanosecond`. The result depends on the text alone.
#[verifier::external_body]
fn parse_rfc3339(text: &str) -> (time: Option<Timestamp>)
    ensures
        time == rfc3339_time(text@),
{
    let format = &time::format_description::well_known::Rfc3339;
    let parsed = time::OffsetDateTime::parse(text, format).ok()?;
    Some(Timestamp { seconds: parsed.unix_timestamp(), nanoseconds: parsed.nanosecond() })
}

/// The RFC 3339 notation of a point in time in UTC, where the calendar reaches
/// it.
pub uninterp spec fn rfc3339_text(time: Timestamp) -> Option<Seq<char>>;

/// Calls `OffsetDateTime::from_unix_timestamp`, `replace_nanosecond` and
/// `format` with `Rfc3339`. The result depends on the point in time alone, and
/// `OffsetDateTime::parse` reads a text that was written back as the same point
/// in time: the notation holds every digit of the nanoseconds.
#[verifier::external_body]
fn write_rfc3339(time: Timestamp) -> (text: Option<String>)
    ensures
        optional_text(text) == rfc3339_text(time),
        text is Some ==> rfc3339_time(text->0@) == Some(time),
{
    let second = time::OffsetDateTime::from_unix_timestamp(time.seconds).ok()?;
    let moment = second.replace_nanosecond(time.nanoseconds).ok()?;
    moment.format(&time::format_description::well_known::Rfc3339).ok()
}

/// How the catalog notes a point in time; nothing where the calendar does not
/// reach it. What is noted reads back, so that its age at any time is counted
/// from the point in time itself.
pub fn observed_at(now: Timestamp) -> (text: String)
    ensures
        text@ == (match rfc3339_text(now) {
            Some(text) => text,
            None => Seq::empty(),
        }),
        rfc3339_text(now) is Some ==> rfc3339_time(text@) == Some(now),
{
    match write_rfc3339(now) {
        Some(text) => text,
        None => String::new(),
    }
}

/// Whole seconds from one point in time to a later one, none where it is
/// earlier.
pub open spec fn seconds_between(earlier: Timestamp, later: Timestamp) -> int {
    if later.total() <= earlier.total() {
        0
    } else {
        (later.total() - earlier.total()) / 1_000_000_000
    }
}

/// How long ago a session was updated, as far as that is told in words.
pub open spec fn age_words(seconds: int) -> Option<Seq<char>> {
    if seconds < 60 {
        Some("now"@)
    } else if seconds < 3_600 {
        Some(decimal((seconds / 60) as nat) + "m ago"@)
    } else if seconds < 86_400 {
        Some(decimal((seconds / 3_600) as nat) + "h ago"@)
    } else if seconds < 604_800 {
        Some(decimal((seconds / 86_400) as nat) + "d ago"@)
    } else {
        None
    }
}

/// Whether a label is the first ten bytes of a text, or all of it where a
/// character stands across that place or the text is shorter.
pub open spec fn is_date_of(label: Seq<char>, text: Seq<char>) -> bool {
    if is_char_boundary(encode_utf8(text), 10) {
        encode_utf8(label) == encode_utf8(text).subrange(0, 10)
    } else {
        label == text
    }
}

/// Whether a label tells the age of a session: in words within a week, by date
/// before, and as it was written where that is no point in time.
pub open spec fn is_session_age(
    label: Seq<char>,
    updated_at: Seq<char>,
    updated: Option<Timestamp>,
    now: Timestamp,
) -> bool {
    match updated {
        None => label == truncated(updated_at, 16),
        Some(updated) => match age_words(seconds_between(updated, now)) {
            Some(words) => label == words,
            None => is_date_of(label, updated_at),
        },
    }
}

/// Tells the age of a session whose time has been read.
pub fn session_age(updated_at: &str, updated: Option<Timestamp>, now: Timestamp) -> (label: String)
    ensures
        is_session_age(label@, updated_at@, updated, now),
{
    let updated = match updated {
        Some(updated) => updated,
        None => {
            return truncate_label(updated_at, 16);
        },
    };
    let later: i128 = now.seconds as i128 * 1_000_000_000 + now.nanoseconds as i128;
    let earlier: i128 = updated.seconds as i128 * 1_000_000_000 + updated.nanoseconds as i128;
    let seconds: u128 = if later <= earlier {
        0
    } else {
        (later - earlier) as u128 / 1_000_000_000
    };
    if seconds < 60 {
        "now".to_owned()
    } else if seconds < 3_600 {
        join2(decimal_text(seconds / 60).as_str(), "m ago")
    } else if seconds < 86_400 {
        join2(decimal_text(seconds / 3_600).as_str(), "h ago")
    } else if seconds < 604_800 {
        join2(decimal_text(seconds / 86_400).as_str(), "d ago")
    } else if updated_at.is_char_boundary(10) {
        let (date, _) = updated_at.split_at(10);
        date.to_owned()
    } else {
        updated_at.to_owned()
    }
}

/// Tells the age of a session.
pub fn relative_session_time(updated_at: &str, now: Timestamp) -> (label: String)
    ensures
        is_session_age(label@, updated_at@, rfc3339_time(updated_at@), now),
{
    session_age(updated_at, parse_rfc3339(updated_at), now)
}

/// A session never seems older at an earlier time, and one from the future
/// seems to be of now.
pub proof fn law_age_grows_with_time(updated: Timestamp, now: Timestamp, later: Timestamp)
    requires
        now.total() <= later.total(),
    ensures
        seconds_between(updated, now) <= seconds_between(updated, later),
        now.total() <= updated.total() ==> age_words(seconds_between(updated, now)) == Some("now"@),
{
}

/// The status of a session that is open.
#[derive(Debug, PartialEq, Eq)]
pub struct SessionRuntimeState {
    pub session_id: String,
    pub face: StatusFace,
}

/// The face of the first open session with an identifier.
pub open spec fn runtime_face(states: Seq<SessionRuntimeState>, session_id: Seq<char>) -> Option<
    StatusFace,
>
    decreases states.len(),
{
    if states.len() == 0 {
        None
    } else if states[0].session_id@ == session_id {
        Some(states[0].face)
    } else {
        runtime_face(states.skip(1), session_id)
    }
}

fn find_runtime_face(states: &Vec<SessionRuntimeState>, session_id: &str) -> (face: Option<
    StatusFace,
>)
    ensures
        face == runtime_face(states@, session_id@),
{
    let mut index: usize = 0;
    assert(states@.skip(0) =~= states@);
    while index < states.len()
        invariant
            index <= states@.len(),
            runtime_face(states@, session_id@) == runtime_face(
                states@.skip(index as int),
                session_id@,
            ),
        decreases states@.len() - index,
    {
        assert(states@.skip(index as int)[0] == states@[index as int]);
        if same_text(states[index].session_id.as_str(), session_id) {
            return Some(states[index].face);
        }
        assert(states@.skip(index as int).skip(1) =~= states@.skip(index + 1));
        index = index + 1;
    }
    None
}

/// What the sessions pane knows when it paints a row.
#[derive(Debug, PartialEq, Eq)]
pub struct SessionsPaneContext {
    pub active_session_id: String,
    pub active_face: StatusFace,
    pub runtime_states: Vec<SessionRuntimeState>,
    pub composer_running: bool,
    pub awaiting_prompt_start: bool,
    pub session_pending: bool,
    pub presented_as_drawer: bool,
    pub renaming_session_id: Option<String>,
}

/// What is painted of a session.
#[derive(Debug, PartialEq, Eq)]
pub struct SessionRowView {
    pub title: String,
    pub status_glyph: &'static str,
    pub status: String,
    pub status_color: SemanticColor,
    pub accessible_label: String,
    pub rename_label: String,
    pub close_label: String,
    pub state: DesktopRowState,
    pub detail: String,
    pub relative_time: String,
    pub shows_relative_time: bool,
    pub trailing_reserved: u32,
    pub renaming: bool,
}

/// The name under which a session is listed.
pub open spec fn session_title(name: Option<Seq<char>>) -> Seq<char> {
    match name {
        Some(name) => truncated(name, 24),
        None => "Untitled"@,
    }
}

/// The face of a row: the active one's for the active session, else that of the
/// open session, if it is open.
pub open spec fn row_face(context: SessionsPaneContext, session_id: Seq<char>) -> Option<
    StatusFace,
> {
    if session_id == context.active_session_id@ {
        Some(context.active_face)
    } else {
        runtime_face(context.runtime_states@, session_id)
    }
}

/// The status of a row in a word.
pub open spec fn row_status(active: bool, face: Option<StatusFace>) -> Seq<char> {
    match face {
        Some(face) => if active && face.label@ == "Idle"@ {
            "current"@
        } else {
            lowercase(face.label@)
        },
        None => "available"@,
    }
}

/// Works out what is painted of a session, whose age has been told.
pub fn session_row_view(
    session: &DesktopSessionCatalogEntry,
    context: &SessionsPaneContext,
    relative_time: String,
    theme: SemanticTheme,
) -> (view: SessionRowView)
    ensures
        ({
            let active = session.session_id@ == context.active_session_id@;
            let face = row_face(*context, session.session_id@);
            let status = row_status(active, face);
            let title = session_title(optional_text(session.name));
            &&& view.title@ == title
            &&& view.status@ == status
            &&& face is Some ==> view.status_glyph == face->0.glyph && view.status_color
                == status_color(face->0.status, theme)
            &&& face is None ==> view.status_glyph@ == "○"@ && view.status_color
                == theme.muted_text
            &&& view.accessible_label@ == title + ", "@ + status + ", updated "@ + relative_time@
            &&& view.rename_label@ == "Rename "@ + title
            &&& view.close_label@ == "Close "@ + title
            &&& view.state.selected == active
            &&& view.state.disabled == (active || context.composer_running
                || context.awaiting_prompt_start || context.session_pending)
            &&& !view.state.focus_visible
            &&& view.detail@ == (if context.presented_as_drawer {
                truncated(session.session_id@, 28) + " · "@ + status
            } else {
                truncated(session.session_id@, 14)
            })
            &&& view.relative_time == relative_time
            &&& view.shows_relative_time == context.presented_as_drawer
            &&& view.trailing_reserved == (if context.presented_as_drawer {
                60int
            } else {
                0
            })
            &&& view.renaming == (optional_text(context.renaming_session_id) == Some(
                session.session_id@,
            ))
        }),
{
    let session_id = session.session_id.as_str();
    let active = same_text(session_id, context.active_session_id.as_str());
    let face = if active {
        Some(context.active_face)
    } else {
        find_runtime_face(&context.runtime_states, session_id)
    };
    let title = match &session.name {
        Some(name) => truncate_label(name.as_str(), 24),
        None => "Untitled".to_owned(),
    };
    let status = match face {
        Some(face) => if active && same_text(face.label, "Idle") {
            "current".to_owned()
        } else {
            to_lowercase(face.label)
        },
        None => "available".to_owned(),
    };
    let detail = if context.presented_as_drawer {
        join3(truncate_label(session_id, 28).as_str(), " · ", status.as_str())
    } else {
        truncate_label(session_id, 14)
    };
    let renaming = match &context.renaming_session_id {
        Some(renaming) => same_text(renaming.as_str(), session_id),
        None => false,
    };
    SessionRowView {
        accessible_label: join5(
            title.as_str(),
            ", ",
            status.as_str(),
            ", updated ",
            relative_time.as_str(),
        ),
        rename_label: join2("Rename ", title.as_str()),
        close_label: join2("Close ", title.as_str()),
        title,
        status_glyph: match face {
            Some(face) => face.glyph,
            None => "○",
        },
        status_color: match face {
            Some(face) => semantic_status_color(face.status, theme),
            None => theme.muted_text,
        },
        status,
        state: DesktopRowState {
            selected: active,
            disabled: active || context.composer_running || context.awaiting_prompt_start
                || context.session_pending,
            focus_visible: false,
        },
        detail,
        relative_time,
        shows_relative_time: context.presented_as_drawer,
        trailing_reserved: if context.presented_as_drawer {
            60
        } else {
            0
        },
        renaming,
    }
}

/// Whether a session is listed for a lowercased query.
pub open spec fn listed_for(
    workspace: WorkspaceOverview,
    session: DesktopSessionCatalogEntry,
    query: Seq<char>,
) -> bool {
    query.len() == 0 || workspace_matches(workspace, query) || session_matches(session, query)
}

/// The sessions that the pane lists for a lowercased query, group by group.
pub open spec fn listed_sessions(groups: Seq<CatalogGroupView>, query: Seq<char>) -> Seq<
    DesktopSessionCatalogEntry,
>
    decreases groups.len(),
{
    if groups.len() == 0 {
        Seq::empty()
    } else {
        listed_sessions(groups.drop_last(), query) + groups.last().sessions.filter(
            |session: DesktopSessionCatalogEntry|
                listed_for(groups.last().workspace, session, query),
        )
    }
}

fn sessions_listed_in(group: &ProjectCatalogGroup, query: &str) -> (listed: Vec<
    DesktopSessionCatalogEntry,
>)
    ensures
        listed@ == group@.sessions.filter(
            |session: DesktopSessionCatalogEntry| listed_for(group@.workspace, session, query@),
        ),
{
    let ghost keep = |session: DesktopSessionCatalogEntry|
        listed_for(group@.workspace, session, query@);
    let all = query.is_empty() || workspace_matches_query(&group.workspace, query);
    let mut listed: Vec<DesktopSessionCatalogEntry> = Vec::new();
    let mut index: usize = 0;
    assert(group.sessions@.take(0).filter(keep) =~= listed@) by {
        reveal(Seq::filter);
    }
    while index < group.sessions.len()
        invariant
            index <= group.sessions@.len(),
            all == (query@.len() == 0 || workspace_matches(group.workspace, query@)),
            keep == (|session: DesktopSessionCatalogEntry|
                listed_for(group@.workspace, session, query@)),
            listed@ == group.sessions@.take(index as int).filter(keep),
        decreases group.sessions@.len() - index,
    {
        let session = &group.sessions[index];
        proof {
            let longer = group.sessions@.take(index + 1);
            reveal(Seq::filter);
            assert(longer.drop_last() =~= group.sessions@.take(index as int));
            assert(longer.last() == *session);
        }
        if all || session_matches_query(session, query) {
            listed.push(session.clone());
        }
        index = index + 1;
    }
    assert(group.sessions@.take(group.sessions@.len() as int) =~= group.sessions@);
    listed
}

/// Lists the sessions that match a search as it was typed.
pub fn visible_sessions(groups: &Vec<ProjectCatalogGroup>, search: &str) -> (listed: Vec<
    DesktopSessionCatalogEntry,
>)
    ensures
        listed@ == listed_sessions(group_views(groups@), lowercase(trimmed(search@))),
{
    let query = to_lowercase(trim(search).as_str());
    let ghost views = group_views(groups@);
    let mut listed: Vec<DesktopSessionCatalogEntry> = Vec::new();
    let mut index: usize = 0;
    assert(listed_sessions(views.take(0), query@) =~= listed@);
    while index < groups.len()
        invariant
            index <= groups@.len(),
            views == group_views(groups@),
            listed@ == listed_sessions(views.take(index as int), query@),
        decreases groups@.len() - index,
    {
        let mut found = sessions_listed_in(&groups[index], query.as_str());
        proof {
            assert(views.take(index + 1).drop_last() =~= views.take(index as int));
            assert(views.take(index + 1).last() == groups@[index as int]@);
        }
        listed.append(&mut found);
        index = index + 1;
    }
    assert(views.take(views.len() as int) =~= views);
    listed
}

/// What the pane says in place of sessions, where it lists none.
pub open spec fn empty_words(
    listed: nat,
    loading: bool,
    groups: nat,
    query: Seq<char>,
    state: CatalogStateView,
) -> Option<Seq<char>> {
    if listed > 0 {
        None
    } else if loading && groups == 0 {
        Some("Loading sessions…"@)
    } else if query.len() > 0 {
        Some("No sessions match “"@ + truncated(query, 24) + "”."@)
    } else {
        Some(
            match state {
                CatalogStateView::NotLoaded => "Refresh to load projects and session history."@,
                CatalogStateView::Error { message } => "Session history unavailable: "@ + truncated(
                    message,
                    72,
                ) + ". Use Refresh to retry."@,
                CatalogStateView::Stale { error: Some(message) } => "Session history is stale: "@
                    + truncated(message, 72) + ". Use Refresh to retry."@,
                _ => "No recent sessions yet. Create one to begin."@,
            },
        )
    }
}

/// Works out what the pane says where it lists no session; the query is
/// lowercased.
pub fn sessions_empty_state(
    listed: usize,
    groups: usize,
    query: &str,
    state: &ProjectCatalogState,
) -> (message: Option<String>)
    ensures
        optional_text(message) == empty_words(
            listed as nat,
            state@ is Loading,
            groups as nat,
            query@,
            state@,
        ),
{
    if listed > 0 {
        None
    } else if state.is_loading() && groups == 0 {
        Some("Loading sessions…".to_owned())
    } else if !query.is_empty() {
        Some(join3("No sessions match “", truncate_label(query, 24).as_str(), "”."))
    } else {
        Some(
            match state {
                ProjectCatalogState::NotLoaded =>
                    "Refresh to load projects and session history.".to_owned(),
                ProjectCatalogState::Error { message } => join3(
                    "Session history unavailable: ",
                    truncate_label(message.as_str(), 72).as_str(),
                    ". Use Refresh to retry.",
                ),
                ProjectCatalogState::Stale { error: Some(message) } => join3(
                    "Session history is stale: ",
                    truncate_label(message.as_str(), 72).as_str(),
                    ". Use Refresh to retry.",
                ),
                _ => "No recent sessions yet. Create one to begin.".to_owned(),
            },
        )
    }
}

/// How many skills the pane shows.
pub const MAX_SESSIONS_PANE_SKILLS: usize = 8;

/// A skill that is installed.
#[derive(Debug, PartialEq, Eq)]
pub struct SkillCommand {
    pub name: String,
    pub description: String,
}

/// What is painted of a skill.
#[derive(Debug, PartialEq, Eq)]
pub struct SkillRowView {
    pub title: String,
    pub description: String,
}

/// Title and description of a skill as they are painted.
pub open spec fn skill_words(skill: SkillCommand) -> (Seq<char>, Seq<char>) {
    ("/"@ + truncated(skill.name@, 24), truncated(skill.description@, 52))
}

/// Works out the skills that are painted: the first ones.
pub fn skill_rows(skills: &Vec<SkillCommand>) -> (rows: Vec<SkillRowView>)
    ensures
        rows@.len() == (if skills@.len() > MAX_SESSIONS_PANE_SKILLS {
            MAX_SESSIONS_PANE_SKILLS as nat
        } else {
            skills@.len()
        }),
        forall|i: int|
            0 <= i < rows@.len() ==> ((#[trigger] rows@[i]).title@, rows@[i].description@)
                == skill_words(skills@[i]),
{
    let mut rows: Vec<SkillRowView> = Vec::new();
    let mut index: usize = 0;
    while index < skills.len() && index < MAX_SESSIONS_PANE_SKILLS
        invariant
            index <= skills@.len(),
            index <= MAX_SESSIONS_PANE_SKILLS,
            rows@.len() == index,
            forall|i: int|
                0 <= i < rows@.len() ==> ((#[trigger] rows@[i]).title@, rows@[i].description@)
                    == skill_words(skills@[i]),
        decreases skills@.len() - index,
    {
        let skill = &skills[index];
        rows.push(
            SkillRowView {
                title: join2("/", truncate_label(skill.name.as_str(), 24).as_str()),
                description: truncate_label(skill.description.as_str(), 52),
            },
        );
        index = index + 1;
    }
    rows
}

/// What the pane says of the skills that are not painted.
pub fn skills_notice(count: usize) -> (notice: Option<String>)
    ensures
        optional_text(notice) == (if count == 0 {
            Some("No global skills installed."@)
        } else if count > MAX_SESSIONS_PANE_SKILLS {
            Some("+ "@ + decimal((count - MAX_SESSIONS_PANE_SKILLS) as nat) + " more global skill(s)"@)
        } else {
            None
        }),
{
    if count == 0 {
        Some("No global skills installed.".to_owned())
    } else if count > MAX_SESSIONS_PANE_SKILLS {
        Some(
            join3(
                "+ ",
                decimal_text((count - MAX_SESSIONS_PANE_SKILLS) as u128).as_str(),
                " more global skill(s)",
            ),
        )
    } else {
        None
    }
}

/// What the pane says of the sessions that are not listed.
pub fn omitted_sessions_notice(omitted: usize) -> (notice: Option<String>)
    ensures
        optional_text(notice) == (if omitted > 0 {
            Some("+ "@ + decimal(omitted as nat) + " older session(s) omitted"@)
        } else {
            None
        }),
{
    if omitted > 0 {
        Some(join3("+ ", decimal_text(omitted as u128).as_str(), " older session(s) omitted"))
    } else {
        None
    }
}

/// The overflow menu of the pane: its one item, and whether it is disabled.
pub fn refresh_menu_item(catalog_loading: bool, composer_running: bool) -> (item: (
    &'static str,
    bool,
))
    ensures
        item.0@ == (if catalog_loading {
            "Loading sessions…"@
        } else {
            "Refresh sessions"@
        }),
        item.1 == (catalog_loading || composer_running),
{
    (
        if catalog_loading {
            "Loading sessions…"
        } else {
            "Refresh sessions"
        },
        catalog_loading || composer_running,
    )
}

/// The row that opens the home workspace.
pub fn new_conversation_row(active_session_id: &str, presented_as_drawer: bool) -> (row: (
    DesktopRowState,
    Option<&'static str>,
))
    ensures
        row.0.selected == (active_session_id@.len() == 0),
        !row.0.disabled && !row.0.focus_visible,
        presented_as_drawer ==> row.1 is Some && row.1->0@ == "Start from Home"@,
        !presented_as_drawer ==> row.1 is None,
{
    (
        DesktopRowState {
            selected: active_session_id.is_empty(),
            disabled: false,
            focus_visible: false,
        },
        if presented_as_drawer {
            Some("Start from Home")
        } else {
            None
        },
    )
}

/// The session that is being renamed.
#[derive(Debug, PartialEq, Eq)]
pub struct SessionRename {
    pub session_id: Option<String>,
}

impl SessionRename {
    /// Begins to rename a session; returns what the input starts with.
    pub fn begin_rename(&mut self, session_id: String, current_name: Option<String>) -> (value:
        String)
        ensures
            final(self).session_id == Some(session_id),
            current_name is Some ==> value == current_name->0,
            current_name is None ==> value@ == Seq::<char>::empty(),
    {
        self.session_id = Some(session_id);
        match current_name {
            Some(name) => name,
            None => String::new(),
        }
    }

    /// Ends the rename; the session that gets the new name, if there is one.
    pub fn commit_rename(&mut self) -> (session_id: Option<String>)
        ensures
            final(self).session_id is None,
            session_id == old(self).session_id,
    {
        self.session_id.take()
    }

    pub fn cancel_rename(&mut self)
        ensures
            final(self).session_id is None,
    {
        self.session_id = None;
    }
}

/// The pane lists a session of the groups exactly where there is no query, or where
/// the query stands, at any position, in what the session goes by.
pub proof fn law_pane_lists_every_match(
    groups: Seq<CatalogGroupView>,
    query: Seq<char>,
    session: DesktopSessionCatalogEntry,
)
    ensures
        listed_sessions(groups, query).contains(session) <==> exists|group: int|
            0 <= group < groups.len() && (#[trigger] groups[group]).sessions.contains(session) && (
            query.len() == 0 || stands_in_session(query, session, groups[group].workspace)),
    decreases groups.len(),
{
    if groups.len() > 0 {
        let fewer = groups.drop_last();
        let last = groups.last();
        law_pane_lists_every_match(fewer, query, session);
        let keep = |session: DesktopSessionCatalogEntry| listed_for(last.workspace, session, query);
        lemma_listed(last.sessions, keep, session);
        lemma_matches_stand(query, session, last.workspace);
        let earlier = listed_sessions(fewer, query);
        let more = last.sessions.filter(keep);
        let listed = listed_sessions(groups, query);
        if listed.contains(session) {
            let i = listed.index_of(session);
            if i < earlier.len() {
                assert(earlier[i] == session);
                let at = choose|group: int|
                    0 <= group < fewer.len() && (#[trigger] fewer[group]).sessions.contains(session)
                        && (query.len() == 0 || stands_in_session(
                        query,
                        session,
                        fewer[group].workspace,
                    ));
                assert(groups[at] == fewer[at]);
            } else {
                assert(more[i - earlier.len()] == session);
                assert(groups[groups.len() - 1] == last);
            }
        }
        if exists|group: int|
            0 <= group < groups.len() && (#[trigger] groups[group]).sessions.contains(session) && (
            query.len() == 0 || stands_in_session(query, session, groups[group].workspace)) {
            let at = choose|group: int|
                0 <= group < groups.len() && (#[trigger] groups[group]).sessions.contains(session)
                    && (query.len() == 0 || stands_in_session(
                    query,
                    session,
                    groups[group].workspace,
                ));
            if at < fewer.len() {
                assert(fewer[at] == groups[at]);
                let i = earlier.index_of(session);
                assert(listed[i] == session);
            } else {
                let i = more.index_of(session);
                assert(listed[earlier.len() + i] == session);
            }
        }
    }
}

proof fn lemma_listed<A>(items: Seq<A>, keep: spec_fn(A) -> bool, item: A)
    ensures
        items.filter(keep).contains(item) <==> items.contains(item) && keep(item),
    decreases items.len(),
{
    reveal(Seq::filter);
    if items.len() > 0 {
        let fewer = items.drop_last();
        lemma_listed(fewer, keep, item);
        let kept = fewer.filter(keep);
        if items.contains(item) {
            let i = items.index_of(item);
            if i < fewer.len() {
                assert(fewer[i] == item);
            }
        }
        if fewer.contains(item) {
            let i = fewer.index_of(item);
            assert(items[i] == item);
        }
        if keep(items.last()) {
            let longer = items.filter(keep);
            if kept.contains(item) {
                let i = kept.index_of(item);
                assert(longer[i] == item);
            }
            if longer.contains(item) {
                let i = longer.index_of(item);
                if i < kept.len() {
                    assert(kept[i] == item);
                }
            }
            assert(longer[kept.len() as int] == items.last());
            if item == items.last() {
                assert(items[items.len() - 1] == item);
            }
        }
    }
}

/// Without a query the pane lists the sessions of all groups, one group after the
/// other.
pub proof fn law_pane_lists_group_after_group(
    groups: Seq<CatalogGroupView>,
    group: CatalogGroupView,
    query: Seq<char>,
)
    ensures
        in_order(
            listed_sessions(seq![group], query),
            group.sessions,
        ),
        query.len() == 0 ==> listed_sessions(groups.push(group), query) == listed_sessions(
            groups,
            query,
        ) + group.sessions,
{
    let keep = |session: DesktopSessionCatalogEntry| listed_for(group.workspace, session, query);
    assert(groups.push(group).drop_last() =~= groups);
    assert(seq![group].drop_last() =~= Seq::<CatalogGroupView>::empty());
    reveal_with_fuel(listed_sessions, 2);
    lemma_filter_keeps_the_order(group.sessions, keep);
    assert(listed_sessions(seq![group], query) =~= group.sessions.filter(keep));
    if query.len() == 0 {
        lemma_all_listed(group.sessions, keep);
    }
}

proof fn lemma_all_listed<A>(items: Seq<A>, keep: spec_fn(A) -> bool)
    requires
        forall|item: A| #[trigger] keep(item),
    ensures
        items.filter(keep) == items,
    decreases items.len(),
{
    reveal(Seq::filter);
    if items.len() > 0 {
        lemma_all_listed(items.drop_last(), keep);
        assert(keep(items.last()));
        assert(items.drop_last().push(items.last()) =~= items);
    } else {
        assert(items.filter(keep) =~= items);
    }
}

/// Ages are told in the largest whole unit: below a minute as now, then in minutes,
/// hours and days, and not at all from a week on.
pub proof fn law_ages_are_told_in_whole_units(count: int, rest: int)
    ensures
        0 <= rest < 60 ==> age_words(rest) == Some("now"@),
        1 <= count < 60 && 0 <= rest < 60 ==> age_words(60 * count + rest) == Some(
            decimal(count as nat) + "m ago"@,
        ),
        1 <= count < 24 && 0 <= rest < 3_600 ==> age_words(3_600 * count + rest) == Some(
            decimal(count as nat) + "h ago"@,
        ),
        1 <= count < 7 && 0 <= rest < 86_400 ==> age_words(86_400 * count + rest) == Some(
            decimal(count as nat) + "d ago"@,
        ),
        rest >= 604_800 ==> age_words(rest) is None,
{
}

/// The age of a session is the whole seconds since its change, and none where the
/// change lies in the future.
pub proof fn law_age_counts_whole_seconds(updated: Timestamp, now: Timestamp)
    ensures
        now.total() <= updated.total() ==> seconds_between(updated, now) == 0,
        now.total() > updated.total() ==> {
            &&& seconds_between(updated, now) * 1_000_000_000 <= now.total() - updated.total()
            &&& now.total() - updated.total() < (seconds_between(updated, now) + 1) * 1_000_000_000
        },
        now.total() == now.seconds * 1_000_000_000 + now.nanoseconds,
{
}

/// A session shows its own state: the active one that of the window, the others that
/// of their runtime, and those without one none.
pub proof fn law_rows_show_their_own_state(
    context: SessionsPaneContext,
    session_id: Seq<char>,
    index: int,
)
    requires
        0 <= index < context.runtime_states@.len(),
        forall|i: int|
            0 <= i < index ==> (#[trigger] context.runtime_states@[i]).session_id@
                != context.runtime_states@[index].session_id@,
    ensures
        row_face(context, context.active_session_id@) == Some(context.active_face),
        context.runtime_states@[index].session_id@ != context.active_session_id@ ==> row_face(
            context,
            context.runtime_states@[index].session_id@,
        ) == Some(context.runtime_states@[index].face),
        session_id != context.active_session_id@ && (forall|i: int|
            0 <= i < context.runtime_states@.len() ==> (
            #[trigger] context.runtime_states@[i]).session_id@ != session_id) ==> row_face(
            context,
            session_id,
        ) is None,
{
    lemma_face_at(context.runtime_states@, index);
    if forall|i: int|
        0 <= i < context.runtime_states@.len() ==> (
        #[trigger] context.runtime_states@[i]).session_id@ != session_id {
        lemma_no_face(context.runtime_states@, session_id);
    }
}

proof fn lemma_face_at(states: Seq<SessionRuntimeState>, index: int)
    requires
        0 <= index < states.len(),
        forall|i: int|
            0 <= i < index ==> (#[trigger] states[i]).session_id@ != states[index].session_id@,
    ensures
        runtime_face(states, states[index].session_id@) == Some(states[index].face),
    decreases index,
{
    if index > 0 {
        let rest = states.skip(1);
        assert(states[0].session_id@ != states[index].session_id@);
        assert forall|i: int| 0 <= i < index - 1 implies (#[trigger] rest[i]).session_id@
            != rest[index - 1].session_id@ by {
            assert(rest[i] == states[i + 1]);
        }
        lemma_face_at(rest, index - 1);
    }
}

proof fn lemma_no_face(states: Seq<SessionRuntimeState>, session_id: Seq<char>)
    requires
        forall|i: int| 0 <= i < states.len() ==> (#[trigger] states[i]).session_id@ != session_id,
    ensures
        runtime_face(states, session_id) is None,
    decreases states.len(),
{
    if states.len() > 0 {
        let rest = states.skip(1);
        assert forall|i: int| 0 <= i < rest.len() implies (#[trigger] rest[i]).session_id@
            != session_id by {
            assert(rest[i] == states[i + 1]);
        }
        lemma_no_face(rest, session_id);
    }
}

/// A session goes by its name, cut to what fits the row, and is untitled without one.
/// Its state is the lowercased label of its face; only the active one that idles is
/// the current one, and one without a face is available.
pub proof fn law_rows_are_worded_by_their_session(
    name: Seq<char>,
    active: bool,
    face: StatusFace,
)
    ensures
        session_title(None) == "Untitled"@,
        name.len() <= 24 ==> session_title(Some(name)) == name,
        name.len() > 24 ==> session_title(Some(name)) == name.take(23).push('…'),
        row_status(active, None) == "available"@,
        active && face.label@ == "Idle"@ ==> row_status(active, Some(face)) == "current"@,
        !(active && face.label@ == "Idle"@) ==> row_status(active, Some(face)) == lowercase(
            face.label@,
        ),
{
}

/// An empty list says why it is empty: it is loading, nothing matches, it was never
/// loaded or could not be, or there is no session yet. A list with sessions says
/// nothing.
pub proof fn law_empty_lists_say_why(groups: nat, query: Seq<char>, message: Seq<char>)
    requires
        query.len() <= 24,
        message.len() <= 72,
    ensures
        forall|listed: nat, loading: bool, state: CatalogStateView|
            listed > 0 ==> (#[trigger] empty_words(listed, loading, groups, query, state)) is None,
        forall|state: CatalogStateView|
            #[trigger] empty_words(0, true, 0, query, state) == Some("Loading sessions…"@),
        query.len() > 0 ==> forall|state: CatalogStateView|
            #[trigger] empty_words(0, false, groups, query, state) == Some(
                "No sessions match “"@ + query + "”."@,
            ),
        query.len() == 0 ==> {
            &&& empty_words(0, false, groups, query, CatalogStateView::NotLoaded) == Some(
                "Refresh to load projects and session history."@,
            )
            &&& empty_words(0, false, groups, query, CatalogStateView::Error { message }) == Some(
                "Session history unavailable: "@ + message + ". Use Refresh to retry."@,
            )
            &&& empty_words(
                0,
                false,
                groups,
                query,
                CatalogStateView::Stale { error: Some(message) },
            ) == Some("Session history is stale: "@ + message + ". Use Refresh to retry."@)
            &&& empty_words(0, false, groups, query, CatalogStateView::Ready) == Some(
                "No recent sessions yet. Create one to begin."@,
            )
        },
{
}

/// A skill is called by its name behind a slash; name and description are cut to what
/// fits the row.
pub proof fn law_skills_are_called_by_name(skill: SkillCommand)
    ensures
        skill.name@.len() <= 24 ==> skill_words(skill).0 == "/"@ + skill.name@,
        skill.name@.len() > 24 ==> skill_words(skill).0 == "/"@ + skill.name@.take(23).push('…'),
        skill.description@.len() <= 52 ==> skill_words(skill).1 == skill.description@,
        skill.description@.len() > 52 ==> skill_words(skill).1 == skill.description@.take(51).push(
            '…',
        ),
{
}

/// A session of which no state is known shows none.
pub proof fn law_unknown_sessions_show_no_state(
    states: Seq<SessionRuntimeState>,
    session_id: Seq<char>,
)
    requires
        forall|i: int| 0 <= i < states.len() ==> (#[trigger] states[i]).session_id@ != session_id,
    ensures
        runtime_face(states, session_id) is None,
    decreases states.len(),
{
    if states.len() > 0 {
        let rest = states.skip(1);
        assert forall|i: int| 0 <= i < rest.len() implies (#[trigger] rest[i]).session_id@
            != session_id by {
            assert(rest[i] == states[i + 1]);
        }
        law_unknown_sessions_show_no_state(rest, session_id);
    }
}

/// The pane lists eight skills at most.
pub proof fn law_skills_are_few()
    ensures
        MAX_SESSIONS_PANE_SKILLS == 8,
{
}

/// An age of a week and more is told by the date, which is how the time of the update
/// begins; a time that cannot be read is shown as it stands, as far as there is room.
pub proof fn law_old_sessions_show_their_date(
    label: Seq<char>,
    updated_at: Seq<char>,
    updated: Timestamp,
    now: Timestamp,
)
    ensures
        is_session_age(label, updated_at, None, now) && updated_at.len() <= 16 ==> label
            == updated_at,
        is_session_age(label, updated_at, Some(updated), now) && now.total() - updated.total()
            >= 604_800_000_000_000 && is_char_boundary(encode_utf8(updated_at), 10) ==> encode_utf8(
            label,
        ) == encode_utf8(updated_at).take(10),
        is_session_age(label, updated_at, Some(updated), now) && now.total() - updated.total()
            >= 604_800_000_000_000 && !is_char_boundary(encode_utf8(updated_at), 10) ==> label
            == updated_at,
        is_session_age(label, updated_at, Some(updated), now) && now.total() - updated.total()
            < 60_000_000_000 ==> label == "now"@,
{
}

} // verus!
