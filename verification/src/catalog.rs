//! The session catalog grouped by product workspace: loading state, search,
//! disclosure, and the local changes between two refreshes.
use crate::text::{
    contains_text, lowercase, optional_text, same_text, text_contains, to_lowercase, trim, trimmed,
};
use vstd::prelude::*;

verus! {

/// How many sessions the catalog keeps.
pub const MAX_DESKTOP_SESSION_CATALOG: usize = 128;

#[derive(Debug, Clone, Copy, PartialEq, Eq, Structural)]
pub enum WorkspaceKind {
    Project,
    Projectless,
    Legacy,
}

/// The product identity of a workspace. The path is what is displayed of it.
#[derive(Debug, PartialEq, Eq)]
pub struct WorkspaceOverview {
    pub group_id: String,
    pub kind: WorkspaceKind,
    pub display_name: String,
    pub display_path: Option<String>,
}

#[derive(Debug, Clone, Copy, PartialEq, Eq, Structural)]
pub enum WorkspaceMigrationOutcome {
    Unknown,
    NotRequired,
}

#[derive(Debug, PartialEq, Eq)]
pub struct WorkspaceMigration {
    pub outcome: WorkspaceMigrationOutcome,
    pub diagnostic: Option<String>,
}

/// One session as the catalog lists it.
#[derive(Debug, PartialEq, Eq)]
pub struct DesktopSessionCatalogEntry {
    pub session_id: String,
    pub name: Option<String>,
    pub workspace: WorkspaceOverview,
    pub workspace_migration: WorkspaceMigration,
    pub created_at: String,
    pub updated_at: String,
    pub active_leaf_id: Option<String>,
}

/// A copy of an optional string.
pub fn copy_optional(text: &Option<String>) -> (copy: Option<String>)
    ensures
        copy == *text,
{
    match text {
        Some(text) => Some(text.clone()),
        None => None,
    }
}

impl Clone for WorkspaceOverview {
    fn clone(&self) -> (copy: Self)
        ensures
            copy == *self,
    {
        WorkspaceOverview {
            group_id: self.group_id.clone(),
            kind: self.kind,
            display_name: self.display_name.clone(),
            display_path: copy_optional(&self.display_path),
        }
    }
}

impl Clone for WorkspaceMigration {
    fn clone(&self) -> (copy: Self)
        ensures
            copy == *self,
    {
        WorkspaceMigration {
            outcome: self.outcome,
            diagnostic: copy_optional(&self.diagnostic),
        }
    }
}

impl Clone for DesktopSessionCatalogEntry {
    fn clone(&self) -> (copy: Self)
        ensures
            copy == *self,
    {
        DesktopSessionCatalogEntry {
            session_id: self.session_id.clone(),
            name: copy_optional(&self.name),
            workspace: self.workspace.clone(),
            workspace_migration: self.workspace_migration.clone(),
            created_at: self.created_at.clone(),
            updated_at: self.updated_at.clone(),
            active_leaf_id: copy_optional(&self.active_leaf_id),
        }
    }
}

impl Default for DesktopSessionCatalogEntry {
    fn default() -> (entry: Self)
        ensures
            entry.session_id@ == Seq::<char>::empty(),
            entry.name is None,
            entry.workspace.group_id@ == Seq::<char>::empty(),
            entry.workspace.kind == WorkspaceKind::Legacy,
            entry.workspace.display_name@ == Seq::<char>::empty(),
            entry.workspace.display_path is None,
            entry.workspace_migration.outcome == WorkspaceMigrationOutcome::Unknown,
            entry.workspace_migration.diagnostic is None,
            entry.created_at@ == Seq::<char>::empty(),
            entry.updated_at@ == Seq::<char>::empty(),
            entry.active_leaf_id is None,
    {
        DesktopSessionCatalogEntry {
            session_id: String::new(),
            name: None,
            workspace: WorkspaceOverview {
                group_id: String::new(),
                kind: WorkspaceKind::Legacy,
                display_name: String::new(),
                display_path: None,
            },
            workspace_migration: WorkspaceMigration {
                outcome: WorkspaceMigrationOutcome::Unknown,
                diagnostic: None,
            },
            created_at: String::new(),
            updated_at: String::new(),
            active_leaf_id: None,
        }
    }
}

/// How far the catalog has been loaded.
#[derive(Debug, PartialEq, Eq)]
pub enum ProjectCatalogState {
    NotLoaded,
    Loading,
    Ready,
    Error { message: String },
    Stale { error: Option<String> },
}

/// The loading state with its texts as character sequences.
pub enum CatalogStateView {
    NotLoaded,
    Loading,
    Ready,
    Error { message: Seq<char> },
    Stale { error: Option<Seq<char>> },
}

impl View for ProjectCatalogState {
    type V = CatalogStateView;

    open spec fn view(&self) -> CatalogStateView {
        match *self {
            ProjectCatalogState::NotLoaded => CatalogStateView::NotLoaded,
            ProjectCatalogState::Loading => CatalogStateView::Loading,
            ProjectCatalogState::Ready => CatalogStateView::Ready,
            ProjectCatalogState::Error { message } => CatalogStateView::Error { message: message@ },
            ProjectCatalogState::Stale { error } => CatalogStateView::Stale {
                error: optional_text(error),
            },
        }
    }
}

impl CatalogStateView {
    /// The error that the state carries.
    pub open spec fn error(self) -> Option<Seq<char>> {
        match self {
            CatalogStateView::Error { message } => Some(message),
            CatalogStateView::Stale { error } => error,
            _ => None,
        }
    }

    /// The state after a change that was made locally: what is shown no longer
    /// is what was last listed.
    pub open spec fn after_local_change(self) -> CatalogStateView {
        match self {
            CatalogStateView::NotLoaded => CatalogStateView::Stale { error: None },
            CatalogStateView::Error { message } => CatalogStateView::Stale { error: Some(message) },
            _ => self,
        }
    }
}

impl ProjectCatalogState {
    pub fn is_loading(&self) -> (loading: bool)
        ensures
            loading == (self@ is Loading),
    {
        match self {
            ProjectCatalogState::Loading => true,
            _ => false,
        }
    }

    pub fn error_message(&self) -> (message: Option<&str>)
        ensures
            message is Some <==> self@.error() is Some,
            message is Some ==> message->0@ == self@.error()->0,
    {
        match self {
            ProjectCatalogState::Error { message } => Some(message.as_str()),
            ProjectCatalogState::Stale { error: Some(message) } => Some(message.as_str()),
            _ => None,
        }
    }
}

/// The sessions of one workspace.
#[derive(Debug, PartialEq, Eq)]
pub struct ProjectCatalogGroup {
    pub workspace: WorkspaceOverview,
    pub sessions: Vec<DesktopSessionCatalogEntry>,
    pub collapsed: bool,
}

/// A workspace group with its sessions as a sequence.
#[verifier::ext_equal]
pub struct CatalogGroupView {
    pub workspace: WorkspaceOverview,
    pub sessions: Seq<DesktopSessionCatalogEntry>,
    pub collapsed: bool,
}

impl View for ProjectCatalogGroup {
    type V = CatalogGroupView;

    open spec fn view(&self) -> CatalogGroupView {
        CatalogGroupView {
            workspace: self.workspace,
            sessions: self.sessions@,
            collapsed: self.collapsed,
        }
    }
}

/// The views of a sequence of groups.
pub open spec fn group_views(groups: Seq<ProjectCatalogGroup>) -> Seq<CatalogGroupView> {
    groups.map_values(|group: ProjectCatalogGroup| group@)
}

/// The group that a session belongs to.
pub open spec fn group_of(session: DesktopSessionCatalogEntry) -> Seq<char> {
    session.workspace.group_id@
}

/// Whether a catalog lists a session of a group.
pub open spec fn lists_group(
    catalog: Seq<DesktopSessionCatalogEntry>,
    group_id: Seq<char>,
) -> bool {
    exists|i: int| 0 <= i < catalog.len() && group_of(#[trigger] catalog[i]) == group_id
}

/// The first session of each group, in catalog order.
pub open spec fn group_heads(
    catalog: Seq<DesktopSessionCatalogEntry>,
) -> Seq<DesktopSessionCatalogEntry>
    decreases catalog.len(),
{
    if catalog.len() == 0 {
        Seq::empty()
    } else {
        let earlier = catalog.drop_last();
        if lists_group(earlier, group_of(catalog.last())) {
            group_heads(earlier)
        } else {
            group_heads(earlier).push(catalog.last())
        }
    }
}

/// The sessions of one group, in catalog order.
pub open spec fn group_members(
    catalog: Seq<DesktopSessionCatalogEntry>,
    group_id: Seq<char>,
) -> Seq<DesktopSessionCatalogEntry> {
    catalog.filter(|session: DesktopSessionCatalogEntry| group_of(session) == group_id)
}

/// One group of a catalog, known by its first session.
pub open spec fn catalog_group(
    catalog: Seq<DesktopSessionCatalogEntry>,
    collapsed: Set<Seq<char>>,
    head: DesktopSessionCatalogEntry,
) -> CatalogGroupView {
    CatalogGroupView {
        workspace: head.workspace,
        sessions: group_members(catalog, group_of(head)),
        collapsed: collapsed.contains(group_of(head)),
    }
}

/// A catalog grouped by workspace: the groups in the order in which they first
/// occur, the sessions of each in catalog order.
pub open spec fn catalog_groups(
    catalog: Seq<DesktopSessionCatalogEntry>,
    collapsed: Set<Seq<char>>,
) -> Seq<CatalogGroupView> {
    group_heads(catalog).map_values(
        |head: DesktopSessionCatalogEntry| catalog_group(catalog, collapsed, head),
    )
}

/// Whether a lowercased query stands in a text, whatever the text's case.
pub open spec fn found_in(text: Seq<char>, query: Seq<char>) -> bool {
    contains_text(lowercase(text), query)
}

/// Whether a workspace matches a lowercased query.
pub open spec fn workspace_matches(workspace: WorkspaceOverview, query: Seq<char>) -> bool {
    ||| found_in(workspace.group_id@, query)
    ||| found_in(workspace.display_name@, query)
    ||| workspace.display_path is Some && found_in(workspace.display_path->0@, query)
}

/// Whether a session matches a lowercased query.
pub open spec fn session_matches(session: DesktopSessionCatalogEntry, query: Seq<char>) -> bool {
    ||| found_in(session.session_id@, query)
    ||| session.name is Some && found_in(session.name->0@, query)
    ||| found_in(session.updated_at@, query)
}

/// What a search leaves of a group: all of it where the workspace matches,
/// otherwise the sessions that match; always disclosed.
pub open spec fn narrowed(group: CatalogGroupView, query: Seq<char>) -> CatalogGroupView {
    CatalogGroupView {
        workspace: group.workspace,
        sessions: if workspace_matches(group.workspace, query) {
            group.sessions
        } else {
            group.sessions.filter(
                |session: DesktopSessionCatalogEntry| session_matches(session, query),
            )
        },
        collapsed: false,
    }
}

/// What a search leaves of the groups: those of which something is left.
pub open spec fn searched(groups: Seq<CatalogGroupView>, query: Seq<char>) -> Seq<
    CatalogGroupView,
>
    decreases groups.len(),
{
    if groups.len() == 0 {
        Seq::empty()
    } else {
        let earlier = searched(groups.drop_last(), query);
        let last = narrowed(groups.last(), query);
        if last.sessions.len() == 0 {
            earlier
        } else {
            earlier.push(last)
        }
    }
}

/// The groups that are shown for a query as it was typed.
pub open spec fn shown_groups(groups: Seq<CatalogGroupView>, query: Seq<char>) -> Seq<
    CatalogGroupView,
> {
    let query = lowercase(trimmed(query));
    if query.len() == 0 {
        groups
    } else {
        searched(groups, query)
    }
}

pub fn workspace_matches_query(workspace: &WorkspaceOverview, normalized_query: &str) -> (yes: bool)
    ensures
        yes == workspace_matches(*workspace, normalized_query@),
{
    text_contains(to_lowercase(workspace.group_id.as_str()).as_str(), normalized_query)
        || text_contains(to_lowercase(workspace.display_name.as_str()).as_str(), normalized_query)
        || match &workspace.display_path {
        Some(path) => text_contains(to_lowercase(path.as_str()).as_str(), normalized_query),
        None => false,
    }
}

pub fn session_matches_query(session: &DesktopSessionCatalogEntry, normalized_query: &str) -> (yes:
    bool)
    ensures
        yes == session_matches(*session, normalized_query@),
{
    text_contains(to_lowercase(session.session_id.as_str()).as_str(), normalized_query)
        || match &session.name {
        Some(name) => text_contains(to_lowercase(name.as_str()).as_str(), normalized_query),
        None => false,
    } || text_contains(to_lowercase(session.updated_at.as_str()).as_str(), normalized_query)
}

/// The catalog of sessions, and which of its groups the user has collapsed.
#[derive(Debug, PartialEq, Eq)]
pub struct ProjectCatalogController {
    catalog: Vec<DesktopSessionCatalogEntry>,
    omitted: usize,
    state: ProjectCatalogState,
    has_loaded_snapshot: bool,
    collapsed_group_ids: Vec<String>,
}

/// The catalog as a mathematical value.
#[verifier::ext_equal]
pub struct ProjectCatalogView {
    pub catalog: Seq<DesktopSessionCatalogEntry>,
    pub omitted: usize,
    pub state: CatalogStateView,
    pub loaded: bool,
    pub collapsed: Set<Seq<char>>,
}

/// The set of texts in a sequence of strings.
pub open spec fn text_set(strings: Seq<String>) -> Set<Seq<char>> {
    Set::new(|text: Seq<char>| exists|i: int| 0 <= i < strings.len() && (#[trigger] strings[i])@ == text)
}

impl View for ProjectCatalogController {
    type V = ProjectCatalogView;

    closed spec fn view(&self) -> ProjectCatalogView {
        ProjectCatalogView {
            catalog: self.catalog@,
            omitted: self.omitted,
            state: self.state@,
            loaded: self.has_loaded_snapshot,
            collapsed: text_set(self.collapsed_group_ids@),
        }
    }
}

/// The position of the first session with an identifier.
pub open spec fn session_position(
    catalog: Seq<DesktopSessionCatalogEntry>,
    session_id: Seq<char>,
) -> Option<int>
    decreases catalog.len(),
{
    if catalog.len() == 0 {
        None
    } else {
        match session_position(catalog.drop_last(), session_id) {
            Some(position) => Some(position),
            None => if catalog.last().session_id@ == session_id {
                Some(catalog.len() - 1)
            } else {
                None
            },
        }
    }
}

/// A session position is a place where the session is, the first such place,
/// and it is there whenever the session is listed.
pub proof fn law_session_position_is_the_first(
    catalog: Seq<DesktopSessionCatalogEntry>,
    session_id: Seq<char>,
)
    ensures
        match session_position(catalog, session_id) {
            Some(at) => 0 <= at < catalog.len() && catalog[at].session_id@ == session_id
                && forall|i: int| 0 <= i < at ==> (#[trigger] catalog[i]).session_id@ != session_id,
            None => forall|i: int|
                0 <= i < catalog.len() ==> (#[trigger] catalog[i]).session_id@ != session_id,
        },
    decreases catalog.len(),
{
    if catalog.len() > 0 {
        let earlier = catalog.drop_last();
        law_session_position_is_the_first(earlier, session_id);
        assert forall|i: int| 0 <= i < earlier.len() implies earlier[i] == catalog[i] by {}
        if session_position(earlier, session_id) is None {
            assert forall|i: int| 0 <= i < catalog.len() - 1 implies (#[trigger]
            catalog[i]).session_id@ != session_id by {
                assert(earlier[i] == catalog[i]);
            }
        } else {
            let at = session_position(earlier, session_id)->0;
            assert forall|i: int| 0 <= i < at implies (#[trigger] catalog[i]).session_id@
                != session_id by {
                assert(earlier[i] == catalog[i]);
            }
        }
    }
}

/// Finds the first session with an identifier.
pub fn find_session(catalog: &Vec<DesktopSessionCatalogEntry>, session_id: &str) -> (position:
    Option<usize>)
    ensures
        match position {
            Some(position) => position < catalog@.len() && session_position(catalog@, session_id@)
                == Some(position as int),
            None => session_position(catalog@, session_id@) is None,
        },
{
    let mut found: Option<usize> = None;
    let mut index: usize = 0;
    while index < catalog.len()
        invariant
            index <= catalog@.len(),
            found is Some ==> found->0 < index,
            match found {
                Some(found) => session_position(catalog@.take(index as int), session_id@) == Some(
                    found as int,
                ),
                None => session_position(catalog@.take(index as int), session_id@) is None,
            },
        decreases catalog@.len() - index,
    {
        assert(catalog@.take(index + 1).drop_last() =~= catalog@.take(index as int));
        if found.is_none() && same_text(catalog[index].session_id.as_str(), session_id) {
            found = Some(index);
        }
        index = index + 1;
    }
    assert(catalog@.take(catalog@.len() as int) =~= catalog@);
    found
}

/// Where the session after the active one stands: around the end, and at the
/// front where nothing that is listed is active.
pub open spec fn next_position(
    catalog: Seq<DesktopSessionCatalogEntry>,
    active: Option<Seq<char>>,
) -> int {
    let current = match active {
        Some(active) => session_position(catalog, active),
        None => None,
    };
    match current {
        Some(current) => (current + 1) % (catalog.len() as int),
        None => 0,
    }
}

/// Finds the session after the active one.
pub fn following_session(
    catalog: &Vec<DesktopSessionCatalogEntry>,
    active_session_id: Option<&str>,
) -> (next: Option<String>)
    ensures
        next is Some <==> catalog@.len() > 0,
        next is Some ==> next->0 == catalog@[next_position(
            catalog@,
            match active_session_id {
                Some(active) => Some(active@),
                None => None,
            },
        )].session_id,
{
    if catalog.len() == 0 {
        return None;
    }
    let current: Option<usize> = match active_session_id {
        Some(active) => find_session(catalog, active),
        None => None,
    };
    let next: usize = match current {
        Some(index) => (index + 1) % catalog.len(),
        None => 0,
    };
    Some(catalog[next].session_id.clone())
}

/// Walking through the catalog comes around: from the last of several sessions
/// the next is the first, and from any other it is the one behind it.
pub proof fn law_next_session_walks_in_catalog_order(
    catalog: Seq<DesktopSessionCatalogEntry>,
    at: int,
)
    requires
        0 <= at < catalog.len(),
        session_position(catalog, catalog[at].session_id@) == Some(at),
    ensures
        next_position(catalog, Some(catalog[at].session_id@)) == (if at + 1 == catalog.len() {
            0
        } else {
            at + 1
        }),
{
    if at + 1 == catalog.len() {
        vstd::arithmetic::div_mod::lemma_mod_self_0(catalog.len() as int);
    } else {
        vstd::arithmetic::div_mod::lemma_small_mod((at + 1) as nat, catalog.len());
    }
}

proof fn lemma_lists_group_push(
    catalog: Seq<DesktopSessionCatalogEntry>,
    session: DesktopSessionCatalogEntry,
    group_id: Seq<char>,
)
    ensures
        lists_group(catalog.push(session), group_id) == (lists_group(catalog, group_id) || group_of(
            session,
        ) == group_id),
{
    let longer = catalog.push(session);
    if lists_group(catalog, group_id) {
        let i = choose|i: int| 0 <= i < catalog.len() && group_of(#[trigger] catalog[i]) == group_id;
        assert(longer[i] == catalog[i]);
    }
    if group_of(session) == group_id {
        assert(longer[catalog.len() as int] == session);
    }
    if lists_group(longer, group_id) {
        let i = choose|i: int| 0 <= i < longer.len() && group_of(#[trigger] longer[i]) == group_id;
        if i < catalog.len() {
            assert(longer[i] == catalog[i]);
        }
    }
}

/// Every group that a catalog lists has exactly one head, and the heads are
/// sessions of the catalog.
pub proof fn law_groups_are_distinct_and_complete(catalog: Seq<DesktopSessionCatalogEntry>)
    ensures
        forall|i: int, j: int|
            0 <= i < j < group_heads(catalog).len() ==> group_of(#[trigger] group_heads(catalog)[i])
                != group_of(#[trigger] group_heads(catalog)[j]),
        forall|group_id: Seq<char>|
            lists_group(group_heads(catalog), group_id) == #[trigger] lists_group(catalog, group_id),
    decreases catalog.len(),
{
    let heads = group_heads(catalog);
    if catalog.len() > 0 {
        let earlier = catalog.drop_last();
        law_groups_are_distinct_and_complete(earlier);
        assert(catalog =~= earlier.push(catalog.last()));
        let before = group_heads(earlier);
        if !lists_group(earlier, group_of(catalog.last())) {
            assert(!lists_group(before, group_of(catalog.last())));
            assert forall|i: int, j: int| 0 <= i < j < heads.len() implies group_of(
                #[trigger] heads[i],
            ) != group_of(#[trigger] heads[j]) by {
                assert(before[i] == heads[i]);
                if j < before.len() {
                    assert(before[j] == heads[j]);
                }
            }
        }
        assert forall|group_id: Seq<char>| lists_group(heads, group_id) == #[trigger] lists_group(
            catalog,
            group_id,
        ) by {
            lemma_lists_group_push(earlier, catalog.last(), group_id);
            lemma_lists_group_push(before, catalog.last(), group_id);
        }
    }
}

proof fn lemma_filter_push<A>(items: Seq<A>, item: A, keep: spec_fn(A) -> bool)
    ensures
        items.push(item).filter(keep) == (if keep(item) {
            items.filter(keep).push(item)
        } else {
            items.filter(keep)
        }),
{
    reveal(Seq::filter);
    assert(items.push(item).drop_last() =~= items);
}

proof fn lemma_filter_keeps<A>(items: Seq<A>, keep: spec_fn(A) -> bool, item: A)
    ensures
        items.filter(keep).contains(item) <==> items.contains(item) && keep(item),
    decreases items.len(),
{
    reveal(Seq::filter);
    if items.len() > 0 {
        let earlier = items.drop_last();
        lemma_filter_keeps(earlier, keep, item);
        assert(items =~= earlier.push(items.last()));
        lemma_push_contains(earlier, items.last(), item);
        lemma_push_contains(earlier.filter(keep), items.last(), item);
    }
}

proof fn lemma_push_contains<A>(items: Seq<A>, last: A, item: A)
    ensures
        items.push(last).contains(item) <==> items.contains(item) || item == last,
{
    if items.contains(item) {
        let i = choose|i: int| 0 <= i < items.len() && items[i] == item;
        assert(items.push(last)[i] == item);
    }
    if item == last {
        assert(items.push(last)[items.len() as int] == item);
    }
}

/// Every session of a catalog is listed in the group of its workspace, and a
/// group lists sessions of its own workspace only.
pub proof fn law_groups_hold_their_sessions(
    catalog: Seq<DesktopSessionCatalogEntry>,
    collapsed: Set<Seq<char>>,
    session: DesktopSessionCatalogEntry,
    group: int,
)
    requires
        0 <= group < group_heads(catalog).len(),
    ensures
        catalog_groups(catalog, collapsed)[group].sessions.contains(session) <==> catalog.contains(
            session,
        ) && group_of(session) == group_of(group_heads(catalog)[group]),
{
    let head = group_heads(catalog)[group];
    lemma_filter_keeps(
        catalog,
        |session: DesktopSessionCatalogEntry| group_of(session) == group_of(head),
        session,
    );
}

/// A search shows a group exactly where something of it matches, with all of
/// its sessions where the workspace matches and the matching ones elsewhere,
/// and always disclosed.
pub proof fn law_search_shows_what_matches(
    groups: Seq<CatalogGroupView>,
    query: Seq<char>,
    group: CatalogGroupView,
)
    ensures
        searched(groups, query).contains(group) <==> group.sessions.len() > 0 && exists|i: int|
            0 <= i < groups.len() && narrowed(#[trigger] groups[i], query) == group,
    decreases groups.len(),
{
    if groups.len() > 0 {
        let earlier = groups.drop_last();
        let last = narrowed(groups.last(), query);
        law_search_shows_what_matches(earlier, query, group);
        lemma_push_contains(searched(earlier, query), last, group);
        if exists|i: int| 0 <= i < groups.len() && narrowed(#[trigger] groups[i], query) == group {
            let i = choose|i: int|
                0 <= i < groups.len() && narrowed(#[trigger] groups[i], query) == group;
            if i < earlier.len() {
                assert(earlier[i] == groups[i]);
            }
        }
        if exists|i: int| 0 <= i < earlier.len() && narrowed(#[trigger] earlier[i], query) == group {
            let i = choose|i: int|
                0 <= i < earlier.len() && narrowed(#[trigger] earlier[i], query) == group;
            assert(groups[i] == earlier[i]);
        }
        if last == group {
            assert(groups[groups.len() - 1] == groups.last());
        }
    } else {
        assert(!searched(groups, query).contains(group));
    }
}

/// A session that a search shows matches itself, or its workspace does.
pub proof fn law_shown_sessions_match(
    group: CatalogGroupView,
    query: Seq<char>,
    session: DesktopSessionCatalogEntry,
)
    ensures
        narrowed(group, query).sessions.contains(session) <==> group.sessions.contains(session) && (
        workspace_matches(group.workspace, query) || session_matches(session, query)),
{
    lemma_filter_keeps(
        group.sessions,
        |session: DesktopSessionCatalogEntry| session_matches(session, query),
        session,
    );
}

impl ProjectCatalogView {
    /// The catalog with a session put in front.
    pub open spec fn with_created(self, entry: DesktopSessionCatalogEntry) -> ProjectCatalogView {
        let known = session_position(self.catalog, entry.session_id@);
        let others = match known {
            Some(at) => self.catalog.remove(at),
            None => self.catalog,
        };
        let listed = seq![entry] + others;
        ProjectCatalogView {
            catalog: bounded(listed),
            omitted: if known is None && listed.len() > MAX_DESKTOP_SESSION_CATALOG {
                saturated(self.omitted + 1, self.omitted)
            } else {
                self.omitted
            },
            state: self.state.after_local_change(),
            ..self
        }
    }
}

impl Default for ProjectCatalogController {
    fn default() -> (controller: Self)
        ensures
            controller@ == (ProjectCatalogView {
                catalog: Seq::empty(),
                omitted: 0,
                state: CatalogStateView::NotLoaded,
                loaded: false,
                collapsed: Set::empty(),
            }),
    {
        let controller = ProjectCatalogController {
            catalog: Vec::new(),
            omitted: 0,
            state: ProjectCatalogState::NotLoaded,
            has_loaded_snapshot: false,
            collapsed_group_ids: Vec::new(),
        };
        assert(text_set(controller.collapsed_group_ids@) =~= Set::empty());
        controller
    }
}

impl ProjectCatalogController {
    pub fn catalog(&self) -> (catalog: &[DesktopSessionCatalogEntry])
        ensures
            catalog@ == self@.catalog,
    {
        self.catalog.as_slice()
    }

    pub fn omitted(&self) -> (omitted: usize)
        ensures
            omitted == self@.omitted,
    {
        self.omitted
    }

    pub fn state(&self) -> (state: &ProjectCatalogState)
        ensures
            state@ == self@.state,
    {
        &self.state
    }

    pub fn begin_refresh(&mut self)
        ensures
            final(self)@ == (ProjectCatalogView { state: CatalogStateView::Loading, ..old(self)@ }),
    {
        self.state = ProjectCatalogState::Loading;
    }

    /// A failed refresh leaves stale sessions where any were ever shown.
    pub fn fail_refresh(&mut self, message: &str)
        ensures
            final(self)@ == (ProjectCatalogView {
                state: if old(self)@.loaded || old(self)@.catalog.len() > 0 {
                    CatalogStateView::Stale { error: Some(message@) }
                } else {
                    CatalogStateView::Error { message: message@ }
                },
                ..old(self)@
            }),
    {
        let message = message.to_owned();
        self.state =
        if self.has_loaded_snapshot || self.catalog.len() != 0 {
            ProjectCatalogState::Stale { error: Some(message) }
        } else {
            ProjectCatalogState::Error { message }
        };
    }

    /// Installs a fresh listing, bounded; what does not fit counts as omitted.
    pub fn replace_catalog(&mut self, catalog: Vec<DesktopSessionCatalogEntry>, omitted: usize)
        ensures
            final(self)@ == (ProjectCatalogView {
                catalog: if catalog@.len() <= MAX_DESKTOP_SESSION_CATALOG {
                    catalog@
                } else {
                    catalog@.take(MAX_DESKTOP_SESSION_CATALOG as int)
                },
                omitted: saturated(omitted + catalog@.len() - MAX_DESKTOP_SESSION_CATALOG, omitted),
                state: CatalogStateView::Ready,
                loaded: true,
                collapsed: old(self)@.collapsed,
            }),
    {
        let mut catalog = catalog;
        let locally_omitted: usize = catalog.len().saturating_sub(MAX_DESKTOP_SESSION_CATALOG);
        catalog.truncate(MAX_DESKTOP_SESSION_CATALOG);
        self.catalog = catalog;
        self.omitted = omitted.saturating_add(locally_omitted);
        self.has_loaded_snapshot = true;
        self.state = ProjectCatalogState::Ready;
    }

    /// All groups of the catalog.
    pub fn project_groups(&self) -> (groups: Vec<ProjectCatalogGroup>)
        ensures
            group_views(groups@) == catalog_groups(self@.catalog, self@.collapsed),
    {
        let mut groups: Vec<ProjectCatalogGroup> = Vec::new();
        let mut index: usize = 0;
        assert(group_views(groups@) =~= catalog_groups(self@.catalog.take(0), self@.collapsed));
        while index < self.catalog.len()
            invariant
                index <= self.catalog@.len(),
                group_views(groups@) == catalog_groups(
                    self@.catalog.take(index as int),
                    self@.collapsed,
                ),
            decreases self.catalog@.len() - index,
        {
            self.place_session(&mut groups, index);
            index = index + 1;
        }
        assert(self@.catalog.take(self@.catalog.len() as int) =~= self@.catalog);
        groups
    }

    /// The group with an identifier, among the groups built so far.
    fn find_group(groups: &Vec<ProjectCatalogGroup>, group_id: &str) -> (position: Option<usize>)
        ensures
            match position {
                Some(position) => position < groups@.len()
                    && groups@[position as int].workspace.group_id@ == group_id@,
                None => forall|i: int|
                    0 <= i < groups@.len() ==> (#[trigger] groups@[i]).workspace.group_id@
                        != group_id@,
            },
    {
        let mut index: usize = 0;
        while index < groups.len()
            invariant
                index <= groups@.len(),
                forall|i: int|
                    0 <= i < index ==> (#[trigger] groups@[i]).workspace.group_id@ != group_id@,
            decreases groups@.len() - index,
        {
            if same_text(groups[index].workspace.group_id.as_str(), group_id) {
                return Some(index);
            }
            index = index + 1;
        }
        None
    }

    /// Puts the session at `index` into its group, which may be a new one.
    fn place_session(&self, groups: &mut Vec<ProjectCatalogGroup>, index: usize)
        requires
            index < self@.catalog.len(),
            group_views(old(groups)@) == catalog_groups(
                self@.catalog.take(index as int),
                self@.collapsed,
            ),
        ensures
            group_views(final(groups)@) == catalog_groups(
                self@.catalog.take(index + 1),
                self@.collapsed,
            ),
    {
        let session = self.catalog[index].clone();
        let ghost earlier = self@.catalog.take(index as int);
        let ghost longer = self@.catalog.take(index + 1);
        let ghost collapsed = self@.collapsed;
        let ghost before = groups@;
        let ghost heads = group_heads(earlier);
        proof {
            assert(longer =~= earlier.push(session));
            assert(longer.drop_last() =~= earlier);
            law_groups_are_distinct_and_complete(earlier);
            assert(group_views(before).len() == before.len());
            assert(before.len() == heads.len());
            assert forall|i: int| 0 <= i < before.len() implies #[trigger] before[i]@
                == catalog_group(earlier, collapsed, heads[i]) by {
                assert(group_views(before)[i] == before[i]@);
            }
            assert forall|i: int| 0 <= i < before.len() implies (#[trigger]
            before[i]).workspace.group_id@ == group_of(heads[i]) by {
                assert(before[i]@.workspace == heads[i].workspace);
            }
        }
        match Self::find_group(groups, session.workspace.group_id.as_str()) {
            Some(position) => {
                let mut group = groups.remove(position);
                group.sessions.push(session);
                groups.insert(position, group);
                proof {
                    assert(group_of(heads[position as int]) == group_of(session));
                    assert(lists_group(heads, group_of(session)));
                    assert(group_heads(longer) == heads);
                    assert forall|i: int| 0 <= i < heads.len() implies #[trigger] groups@[i]@
                        == catalog_group(longer, collapsed, heads[i]) by {
                        let id = group_of(heads[i]);
                        lemma_filter_push(
                            earlier,
                            session,
                            |session: DesktopSessionCatalogEntry| group_of(session) == id,
                        );
                        assert(before[i]@ == catalog_group(earlier, collapsed, heads[i]));
                        if i == position {
                            assert(groups@[i]@.sessions =~= group_members(longer, id));
                        } else {
                            assert(groups@[i] == before[i]);
                            assert(group_of(heads[i]) != group_of(heads[position as int]));
                        }
                    }
                    assert(group_views(groups@) =~= catalog_groups(longer, collapsed));
                }
            },
            None => {
                let group_id = session.workspace.group_id.clone();
                let shut = self.group_is_collapsed(group_id.as_str());
                let workspace = session.workspace.clone();
                let mut sessions: Vec<DesktopSessionCatalogEntry> = Vec::new();
                sessions.push(session);
                groups.push(ProjectCatalogGroup { workspace, sessions, collapsed: shut });
                proof {
                    if lists_group(heads, group_of(session)) {
                        let i = choose|i: int|
                            0 <= i < heads.len() && group_of(#[trigger] heads[i]) == group_of(
                                session,
                            );
                        assert(before[i].workspace.group_id@ == group_of(heads[i]));
                    }
                    assert(!lists_group(earlier, group_of(session)));
                    let all = group_heads(longer);
                    assert(all == heads.push(session));
                    assert forall|i: int| 0 <= i < all.len() implies #[trigger] groups@[i]@
                        == catalog_group(longer, collapsed, all[i]) by {
                        let id = group_of(all[i]);
                        lemma_filter_push(
                            earlier,
                            session,
                            |session: DesktopSessionCatalogEntry| group_of(session) == id,
                        );
                        if i < heads.len() {
                            assert(groups@[i] == before[i]);
                            assert(before[i]@ == catalog_group(earlier, collapsed, heads[i]));
                            assert(before[i].workspace.group_id@ == group_of(heads[i]));
                        } else {
                            lemma_no_members(earlier, id);
                            assert(groups@[i]@.sessions =~= group_members(longer, id));
                        }
                    }
                    assert(group_views(groups@) =~= catalog_groups(longer, collapsed));
                }
            },
        }
    }

    /// The groups that are shown for a query as it was typed. Searching
    /// discloses what it finds and leaves the user's disclosure as it is.
    pub fn filtered_project_groups(&self, query: &str) -> (groups: Vec<ProjectCatalogGroup>)
        ensures
            group_views(groups@) == shown_groups(
                catalog_groups(self@.catalog, self@.collapsed),
                query@,
            ),
    {
        let groups = self.project_groups();
        let query = to_lowercase(trim(query).as_str());
        if query.as_str().is_empty() {
            return groups;
        }
        search_groups(&groups, query.as_str())
    }

    /// Collapses or discloses a listed group; true where that changed anything.
    pub fn set_group_collapsed(&mut self, group_id: &str, collapsed: bool) -> (changed: bool)
        ensures
            changed == (lists_group(old(self)@.catalog, group_id@)
                && old(self)@.collapsed.contains(group_id@) != collapsed),
            final(self)@ == (ProjectCatalogView {
                collapsed: if !lists_group(old(self)@.catalog, group_id@) {
                    old(self)@.collapsed
                } else if collapsed {
                    old(self)@.collapsed.insert(group_id@)
                } else {
                    old(self)@.collapsed.remove(group_id@)
                },
                ..old(self)@
            }),
    {
        if !self.has_group(group_id) {
            return false;
        }
        let was = self.group_is_collapsed(group_id);
        let ghost ids = self.collapsed_group_ids@;
        if collapsed {
            if !was {
                self.collapsed_group_ids.push(group_id.to_owned());
                proof {
                    let now = self.collapsed_group_ids@;
                    assert forall|text: Seq<char>| text_set(now).contains(text) == #[trigger] text_set(
                        ids,
                    ).insert(group_id@).contains(text) by {
                        if text_set(ids).contains(text) {
                            let i = choose|i: int|
                                0 <= i < ids.len() && (#[trigger] ids[i])@ == text;
                            assert(now[i]@ == text);
                        }
                        if text == group_id@ {
                            assert(now[ids.len() as int]@ == text);
                        }
                        if text_set(now).contains(text) {
                            let i = choose|i: int|
                                0 <= i < now.len() && (#[trigger] now[i])@ == text;
                            if i < ids.len() {
                                assert(ids[i]@ == text);
                            }
                        }
                    }
                    assert(text_set(now) =~= text_set(ids).insert(group_id@));
                }
            } else {
                assert(text_set(ids) =~= text_set(ids).insert(group_id@));
            }
        } else {
            let kept = texts_without(&self.collapsed_group_ids, group_id);
            self.collapsed_group_ids = kept;
            assert(text_set(self.collapsed_group_ids@) =~= text_set(ids).remove(group_id@));
        }
        was != collapsed
    }

    /// Renames a listed session, which becomes the most recent one.
    pub fn rename_session(
        &mut self,
        session_id: &str,
        name: Option<String>,
        updated_at: String,
    ) -> (renamed: bool)
        ensures
            renamed == (session_position(old(self)@.catalog, session_id@) is Some),
            !renamed ==> final(self)@ == old(self)@,
            renamed ==> final(self)@ == ({
                let at = session_position(old(self)@.catalog, session_id@)->0;
                ProjectCatalogView {
                    catalog: seq![
                        DesktopSessionCatalogEntry {
                            name,
                            updated_at,
                            ..old(self)@.catalog[at]
                        },
                    ] + old(self)@.catalog.remove(at),
                    state: old(self)@.state.after_local_change(),
                    ..old(self)@
                }
            }),
    {
        let position = match find_session(&self.catalog, session_id) {
            Some(position) => position,
            None => {
                return false;
            },
        };
        let ghost listed = self.catalog@;
        let mut session = self.catalog.remove(position);
        session.name = name;
        session.updated_at = updated_at;
        self.catalog.insert(0, session);
        assert(self.catalog@ =~= seq![session] + listed.remove(position as int));
        self.record_local_mutation();
        true
    }

    /// Puts a session in front, in place of an earlier listing of it. Where the
    /// catalog is full, its last session goes.
    pub fn insert_created_session(&mut self, entry: DesktopSessionCatalogEntry)
        ensures
            final(self)@ == old(self)@.with_created(entry),
    {
        let known = find_session(&self.catalog, entry.session_id.as_str());
        let replaced = known.is_some();
        if let Some(position) = known {
            self.catalog.remove(position);
        }
        let ghost others = self.catalog@;
        self.catalog.insert(0, entry);
        assert(self.catalog@ =~= seq![entry] + others);
        if self.catalog.len() > MAX_DESKTOP_SESSION_CATALOG {
            self.catalog.truncate(MAX_DESKTOP_SESSION_CATALOG);
            if !replaced {
                self.omitted = self.omitted.saturating_add(1);
            }
        }
        self.record_local_mutation();
    }

    /// Drops every listing of a session; true where there was one.
    pub fn remove_session(&mut self, session_id: &str) -> (removed: bool)
        ensures
            removed == (session_position(old(self)@.catalog, session_id@) is Some),
            final(self)@ == (ProjectCatalogView {
                catalog: without_session(old(self)@.catalog, session_id@),
                state: if removed {
                    old(self)@.state.after_local_change()
                } else {
                    old(self)@.state
                },
                ..old(self)@
            }),
    {
        let ghost before = self.catalog@;
        let removed = find_session(&self.catalog, session_id).is_some();
        if removed {
            let kept = sessions_without(&self.catalog, session_id);
            self.catalog = kept;
            self.record_local_mutation();
        } else {
            proof {
                law_session_position_is_the_first(before, session_id@);
                lemma_nothing_removed(before, session_id@);
            }
        }
        removed
    }

    /// The session after the active one, around the end.
    pub fn next_session_id(&self, active_session_id: Option<&str>) -> (next: Option<String>)
        ensures
            next is Some <==> self@.catalog.len() > 0,
            next is Some ==> next->0 == self@.catalog[next_position(
                self@.catalog,
                match active_session_id {
                    Some(active) => Some(active@),
                    None => None,
                },
            )].session_id,
    {
        following_session(&self.catalog, active_session_id)
    }

    /// Marks what is shown as changed since it was listed.
    pub fn record_local_mutation(&mut self)
        ensures
            final(self)@ == (ProjectCatalogView {
                state: old(self)@.state.after_local_change(),
                ..old(self)@
            }),
    {
        let changed = match &self.state {
            ProjectCatalogState::NotLoaded => Some(ProjectCatalogState::Stale { error: None }),
            ProjectCatalogState::Error { message } => Some(
                ProjectCatalogState::Stale { error: Some(message.clone()) },
            ),
            _ => None,
        };
        if let Some(state) = changed {
            self.state = state;
        }
    }

    /// The name of a session, as the groups list it first.
    pub fn session_name(&self, session_id: &str) -> (name: Option<String>)
        ensures
            name == name_in_groups(catalog_groups(self@.catalog, self@.collapsed), session_id@),
    {
        let groups = self.project_groups();
        let ghost views = group_views(groups@);
        assert(views.skip(0) =~= views);
        let mut index: usize = 0;
        while index < groups.len()
            invariant
                index <= groups@.len(),
                views == group_views(groups@),
                views == catalog_groups(self@.catalog, self@.collapsed),
                name_in_groups(views, session_id@) == name_in_groups(
                    views.skip(index as int),
                    session_id@,
                ),
            decreases groups@.len() - index,
        {
            let ghost rest = views.skip(index as int);
            assert(rest[0] == groups@[index as int]@);
            assert(rest.skip(1) =~= views.skip(index as int + 1));
            let group = &groups[index];
            if let Some(position) = find_session(&group.sessions, session_id) {
                return copy_optional(&group.sessions[position].name);
            }
            index = index + 1;
        }
        None
    }

    fn has_group(&self, group_id: &str) -> (listed: bool)
        ensures
            listed == lists_group(self@.catalog, group_id@),
    {
        let mut index: usize = 0;
        while index < self.catalog.len()
            invariant
                index <= self.catalog@.len(),
                forall|i: int|
                    0 <= i < index ==> group_of(#[trigger] self.catalog@[i]) != group_id@,
            decreases self.catalog@.len() - index,
        {
            if same_text(self.catalog[index].workspace.group_id.as_str(), group_id) {
                assert(group_of(self.catalog@[index as int]) == group_id@);
                return true;
            }
            index = index + 1;
        }
        false
    }

    /// Whether the user has collapsed a group.
    fn group_is_collapsed(&self, group_id: &str) -> (shut: bool)
        ensures
            shut == self@.collapsed.contains(group_id@),
    {
        let mut index: usize = 0;
        while index < self.collapsed_group_ids.len()
            invariant
                index <= self.collapsed_group_ids@.len(),
                forall|i: int|
                    0 <= i < index ==> (#[trigger] self.collapsed_group_ids@[i])@ != group_id@,
            decreases self.collapsed_group_ids@.len() - index,
        {
            if same_text(self.collapsed_group_ids[index].as_str(), group_id) {
                return true;
            }
            index = index + 1;
        }
        false
    }
}

proof fn lemma_no_members(catalog: Seq<DesktopSessionCatalogEntry>, group_id: Seq<char>)
    requires
        !lists_group(catalog, group_id),
    ensures
        group_members(catalog, group_id) == Seq::<DesktopSessionCatalogEntry>::empty(),
    decreases catalog.len(),
{
    reveal(Seq::filter);
    if catalog.len() > 0 {
        let earlier = catalog.drop_last();
        assert(catalog =~= earlier.push(catalog.last()));
        lemma_lists_group_push(earlier, catalog.last(), group_id);
        lemma_no_members(earlier, group_id);
    }
}

/// The name of the first session of that identity, walking through the groups.
pub open spec fn name_in_groups(groups: Seq<CatalogGroupView>, session_id: Seq<char>) -> Option<
    String,
>
    decreases groups.len(),
{
    if groups.len() == 0 {
        None
    } else {
        match session_position(groups[0].sessions, session_id) {
            Some(at) => groups[0].sessions[at].name,
            None => name_in_groups(groups.skip(1), session_id),
        }
    }
}

/// A listing cut to what the catalog keeps.
pub open spec fn bounded(listed: Seq<DesktopSessionCatalogEntry>) -> Seq<
    DesktopSessionCatalogEntry,
> {
    if listed.len() > MAX_DESKTOP_SESSION_CATALOG {
        listed.take(MAX_DESKTOP_SESSION_CATALOG as int)
    } else {
        listed
    }
}

/// A listing without one session.
pub open spec fn without_session(
    listed: Seq<DesktopSessionCatalogEntry>,
    session_id: Seq<char>,
) -> Seq<DesktopSessionCatalogEntry> {
    listed.filter(|session: DesktopSessionCatalogEntry| session.session_id@ != session_id)
}

proof fn lemma_nothing_removed(listed: Seq<DesktopSessionCatalogEntry>, session_id: Seq<char>)
    requires
        forall|i: int| 0 <= i < listed.len() ==> (#[trigger] listed[i]).session_id@ != session_id,
    ensures
        without_session(listed, session_id) == listed,
    decreases listed.len(),
{
    reveal(Seq::filter);
    if listed.len() > 0 {
        let earlier = listed.drop_last();
        assert forall|i: int| 0 <= i < earlier.len() implies (#[trigger] earlier[i]).session_id@
            != session_id by {
            assert(earlier[i] == listed[i]);
        }
        assert(listed[listed.len() - 1].session_id@ != session_id);
        lemma_nothing_removed(earlier, session_id);
        assert(listed =~= earlier.push(listed.last()));
    }
}

/// A removed session is no longer listed: removing it again changes nothing.
pub proof fn law_removed_session_is_gone(
    listed: Seq<DesktopSessionCatalogEntry>,
    session_id: Seq<char>,
)
    ensures
        session_position(without_session(listed, session_id), session_id) is None,
        without_session(without_session(listed, session_id), session_id) == without_session(
            listed,
            session_id,
        ),
{
    let kept = without_session(listed, session_id);
    law_session_position_is_the_first(kept, session_id);
    assert forall|i: int| 0 <= i < kept.len() implies (#[trigger] kept[i]).session_id@
        != session_id by {
        assert(kept.contains(kept[i]));
        lemma_filter_keeps(
            listed,
            |session: DesktopSessionCatalogEntry| session.session_id@ != session_id,
            kept[i],
        );
    }
    lemma_nothing_removed(kept, session_id);
}

/// A bounded catalog stays bounded when a session is created or renamed.
pub proof fn law_catalog_stays_bounded(
    listed: Seq<DesktopSessionCatalogEntry>,
    entry: DesktopSessionCatalogEntry,
    at: int,
)
    requires
        listed.len() <= MAX_DESKTOP_SESSION_CATALOG,
    ensures
        bounded(seq![entry] + listed).len() <= MAX_DESKTOP_SESSION_CATALOG,
        0 <= at < listed.len() ==> (seq![entry] + listed.remove(at)).len() == listed.len(),
{
}

fn sessions_without(listed: &Vec<DesktopSessionCatalogEntry>, session_id: &str) -> (kept: Vec<
    DesktopSessionCatalogEntry,
>)
    ensures
        kept@ == without_session(listed@, session_id@),
{
    let mut kept: Vec<DesktopSessionCatalogEntry> = Vec::new();
    let mut index: usize = 0;
    assert(without_session(listed@.take(0), session_id@) =~= kept@) by {
        reveal(Seq::filter);
    }
    while index < listed.len()
        invariant
            index <= listed@.len(),
            kept@ == without_session(listed@.take(index as int), session_id@),
        decreases listed@.len() - index,
    {
        proof {
            assert(listed@.take(index + 1) =~= listed@.take(index as int).push(
                listed@[index as int],
            ));
            lemma_filter_push(
                listed@.take(index as int),
                listed@[index as int],
                |session: DesktopSessionCatalogEntry| session.session_id@ != session_id@,
            );
        }
        if !same_text(listed[index].session_id.as_str(), session_id) {
            kept.push(listed[index].clone());
        }
        index = index + 1;
    }
    assert(listed@.take(listed@.len() as int) =~= listed@);
    kept
}

fn texts_without(strings: &Vec<String>, gone: &str) -> (kept: Vec<String>)
    ensures
        text_set(kept@) == text_set(strings@).remove(gone@),
{
    let mut kept: Vec<String> = Vec::new();
    let mut index: usize = 0;
    while index < strings.len()
        invariant
            index <= strings@.len(),
            forall|i: int|
                0 <= i < kept@.len() ==> text_set(strings@).contains((#[trigger] kept@[i])@)
                    && kept@[i]@ != gone@,
            forall|i: int|
                0 <= i < index && (#[trigger] strings@[i])@ != gone@ ==> text_set(kept@).contains(
                    strings@[i]@,
                ),
        decreases strings@.len() - index,
    {
        let ghost before = kept@;
        if !same_text(strings[index].as_str(), gone) {
            kept.push(strings[index].clone());
            proof {
                assert(text_set(strings@).contains(strings@[index as int]@));
                assert(kept@[before.len() as int]@ == strings@[index as int]@);
                assert forall|i: int| 0 <= i < index && (#[trigger] strings@[i])@
                    != gone@ implies text_set(kept@).contains(strings@[i]@) by {
                    assert(text_set(before).contains(strings@[i]@));
                    let j = choose|j: int|
                        0 <= j < before.len() && (#[trigger] before[j])@ == strings@[i]@;
                    assert(kept@[j]@ == strings@[i]@);
                }
            }
        }
        index = index + 1;
    }
    assert forall|text: Seq<char>| #[trigger] text_set(kept@).contains(text) == text_set(
        strings@,
    ).remove(gone@).contains(text) by {
        if text_set(kept@).contains(text) {
            let i = choose|i: int| 0 <= i < kept@.len() && (#[trigger] kept@[i])@ == text;
            assert(text_set(strings@).contains(kept@[i]@));
        }
        if text_set(strings@).contains(text) && text != gone@ {
            let i = choose|i: int| 0 <= i < strings@.len() && (#[trigger] strings@[i])@ == text;
            assert(text_set(kept@).contains(strings@[i]@));
        }
    }
    assert(text_set(kept@) =~= text_set(strings@).remove(gone@));
    kept
}

fn sessions_matching(sessions: &Vec<DesktopSessionCatalogEntry>, query: &str) -> (kept: Vec<
    DesktopSessionCatalogEntry,
>)
    ensures
        kept@ == sessions@.filter(
            |session: DesktopSessionCatalogEntry| session_matches(session, query@),
        ),
{
    let ghost keep = |session: DesktopSessionCatalogEntry| session_matches(session, query@);
    let mut kept: Vec<DesktopSessionCatalogEntry> = Vec::new();
    let mut index: usize = 0;
    assert(sessions@.take(0).filter(keep) =~= kept@) by {
        reveal(Seq::filter);
    }
    while index < sessions.len()
        invariant
            index <= sessions@.len(),
            keep == (|session: DesktopSessionCatalogEntry| session_matches(session, query@)),
            kept@ == sessions@.take(index as int).filter(keep),
        decreases sessions@.len() - index,
    {
        proof {
            assert(sessions@.take(index + 1) =~= sessions@.take(index as int).push(
                sessions@[index as int],
            ));
            lemma_filter_push(sessions@.take(index as int), sessions@[index as int], keep);
        }
        if session_matches_query(&sessions[index], query) {
            kept.push(sessions[index].clone());
        }
        index = index + 1;
    }
    assert(sessions@.take(sessions@.len() as int) =~= sessions@);
    kept
}

/// What a lowercased query leaves of some groups.
fn search_groups(groups: &Vec<ProjectCatalogGroup>, query: &str) -> (found: Vec<
    ProjectCatalogGroup,
>)
    ensures
        group_views(found@) == searched(group_views(groups@), query@),
{
    let mut found: Vec<ProjectCatalogGroup> = Vec::new();
    let mut index: usize = 0;
    assert(group_views(found@) =~= searched(group_views(groups@).take(0), query@));
    while index < groups.len()
        invariant
            index <= groups@.len(),
            group_views(found@) == searched(group_views(groups@).take(index as int), query@),
        decreases groups@.len() - index,
    {
        let ghost before = found@;
        let group = &groups[index];
        let sessions = if workspace_matches_query(&group.workspace, query) {
            copy_sessions(&group.sessions)
        } else {
            sessions_matching(&group.sessions, query)
        };
        proof {
            let views = group_views(groups@);
            assert(views.take(index + 1).drop_last() =~= views.take(index as int));
            assert(views.take(index + 1).last() == group@);
        }
        if sessions.len() != 0 {
            found.push(
                ProjectCatalogGroup {
                    workspace: group.workspace.clone(),
                    sessions,
                    collapsed: false,
                },
            );
            assert(group_views(found@) =~= group_views(before).push(narrowed(group@, query@)));
        }
        index = index + 1;
    }
    assert(group_views(groups@).take(groups@.len() as int) =~= group_views(groups@));
    found
}

fn copy_sessions(sessions: &Vec<DesktopSessionCatalogEntry>) -> (copy: Vec<
    DesktopSessionCatalogEntry,
>)
    ensures
        copy@ == sessions@,
{
    let mut copy: Vec<DesktopSessionCatalogEntry> = Vec::new();
    let mut index: usize = 0;
    while index < sessions.len()
        invariant
            index <= sessions@.len(),
            copy@ == sessions@.take(index as int),
        decreases sessions@.len() - index,
    {
        copy.push(sessions[index].clone());
        index = index + 1;
        assert(copy@ =~= sessions@.take(index as int));
    }
    assert(sessions@.take(sessions@.len() as int) =~= sessions@);
    copy
}

/// A count that is too large for the machine counts as the largest, and never
/// falls below the count it started from.
pub open spec fn saturated(count: int, least: usize) -> usize {
    if count <= least {
        least
    } else if count > usize::MAX {
        usize::MAX
    } else {
        count as usize
    }
}

/// Whether a query stands somewhere in a text, once the text is lowercased: at some
/// position the text goes on with the query.
pub open spec fn stands_in(query: Seq<char>, text: Seq<char>) -> bool {
    exists|at: int|
        #![trigger lowercase(text).subrange(at, at + query.len())]
        0 <= at && at + query.len() <= lowercase(text).len() && lowercase(text).subrange(
            at,
            at + query.len(),
        ) == query
}

/// Whether a query stands in what a session goes by: its id, its name or the time of
/// its last change, or the id, the name or the path of its project.
pub open spec fn stands_in_session(
    query: Seq<char>,
    session: DesktopSessionCatalogEntry,
    workspace: WorkspaceOverview,
) -> bool {
    ||| stands_in(query, session.session_id@)
    ||| session.name is Some && stands_in(query, session.name->0@)
    ||| stands_in(query, session.updated_at@)
    ||| stands_in(query, workspace.group_id@)
    ||| stands_in(query, workspace.display_name@)
    ||| workspace.display_path is Some && stands_in(query, workspace.display_path->0@)
}

proof fn lemma_found_in(text: Seq<char>, query: Seq<char>)
    ensures
        found_in(text, query) <==> stands_in(query, text),
{
    let lower = lowercase(text);
    if found_in(text, query) {
        let at = choose|at: int| crate::text::occurs_at(lower, query, at);
        assert(lower.subrange(at, at + query.len()) == query);
    }
    if stands_in(query, text) {
        let at = choose|at: int|
            #![trigger lower.subrange(at, at + query.len())]
            0 <= at && at + query.len() <= lower.len() && lower.subrange(at, at + query.len())
                == query;
        assert(crate::text::occurs_at(lower, query, at));
    }
}

/// What a session goes by is what it is found by.
pub proof fn lemma_matches_stand(
    query: Seq<char>,
    session: DesktopSessionCatalogEntry,
    workspace: WorkspaceOverview,
)
    ensures
        workspace_matches(workspace, query) || session_matches(session, query)
            <==> stands_in_session(query, session, workspace),
{
    lemma_found_in(session.session_id@, query);
    lemma_found_in(session.updated_at@, query);
    lemma_found_in(workspace.group_id@, query);
    lemma_found_in(workspace.display_name@, query);
    if session.name is Some {
        lemma_found_in(session.name->0@, query);
    }
    if workspace.display_path is Some {
        lemma_found_in(workspace.display_path->0@, query);
    }
}

/// Whether one of the groups lists a session.
pub open spec fn in_a_group(
    groups: Seq<CatalogGroupView>,
    session: DesktopSessionCatalogEntry,
) -> bool {
    exists|group: int|
        0 <= group < groups.len() && (#[trigger] groups[group]).sessions.contains(session)
}

/// A search shows a session of the catalog exactly where the lowercased query
/// stands, at any position, in what the session goes by. A query of white space
/// shows every group as it is.
pub proof fn law_search_finds_every_match(
    groups: Seq<CatalogGroupView>,
    query: Seq<char>,
    session: DesktopSessionCatalogEntry,
)
    ensures
        lowercase(trimmed(query)).len() > 0 ==> (in_a_group(shown_groups(groups, query), session)
            <==> exists|group: int|
            0 <= group < groups.len() && (#[trigger] groups[group]).sessions.contains(session)
                && stands_in_session(lowercase(trimmed(query)), session, groups[group].workspace)),
        lowercase(trimmed(query)).len() == 0 ==> shown_groups(groups, query) == groups,
{
    let needle = lowercase(trimmed(query));
    let shown = shown_groups(groups, query);
    if needle.len() > 0 {
        if in_a_group(shown, session) {
            let at = choose|at: int|
                0 <= at < shown.len() && (#[trigger] shown[at]).sessions.contains(session);
            law_search_shows_what_matches(groups, needle, shown[at]);
            assert(searched(groups, needle).contains(shown[at]));
            let from = choose|i: int|
                0 <= i < groups.len() && narrowed(#[trigger] groups[i], needle) == shown[at];
            law_shown_sessions_match(groups[from], needle, session);
            lemma_matches_stand(needle, session, groups[from].workspace);
            assert(groups[from].sessions.contains(session));
        }
        if exists|group: int|
            0 <= group < groups.len() && (#[trigger] groups[group]).sessions.contains(session)
                && stands_in_session(needle, session, groups[group].workspace) {
            let from = choose|group: int|
                0 <= group < groups.len() && (#[trigger] groups[group]).sessions.contains(session)
                    && stands_in_session(needle, session, groups[group].workspace);
            let kept = narrowed(groups[from], needle);
            lemma_matches_stand(needle, session, groups[from].workspace);
            law_shown_sessions_match(groups[from], needle, session);
            assert(kept.sessions.contains(session));
            assert(kept.sessions.len() > 0);
            law_search_shows_what_matches(groups, needle, kept);
            let at = searched(groups, needle).index_of(kept);
            assert(shown[at] == kept);
        }
    }
}

/// Every session of the catalog is shown without a query, and nothing else is: the
/// groups together list exactly the catalog.
pub proof fn law_groups_list_the_catalog(
    catalog: Seq<DesktopSessionCatalogEntry>,
    collapsed: Set<Seq<char>>,
    session: DesktopSessionCatalogEntry,
)
    ensures
        in_a_group(catalog_groups(catalog, collapsed), session) <==> catalog.contains(session),
{
    let groups = catalog_groups(catalog, collapsed);
    let heads = group_heads(catalog);
    if in_a_group(groups, session) {
        let at = choose|at: int|
            0 <= at < groups.len() && (#[trigger] groups[at]).sessions.contains(session);
        law_groups_hold_their_sessions(catalog, collapsed, session, at);
    }
    if catalog.contains(session) {
        let i = catalog.index_of(session);
        assert(group_of(catalog[i]) == group_of(session));
        assert(lists_group(catalog, group_of(session)));
        law_groups_are_distinct_and_complete(catalog);
        assert(lists_group(heads, group_of(session)));
        let at = choose|at: int|
            0 <= at < heads.len() && group_of(#[trigger] heads[at]) == group_of(session);
        law_groups_hold_their_sessions(catalog, collapsed, session, at);
        assert(groups[at].sessions.contains(session));
    }
}

/// Whether some items stand in a list in the same order, with others between them.
pub open spec fn in_order<A>(part: Seq<A>, whole: Seq<A>) -> bool
    decreases whole.len(),
{
    if part.len() == 0 {
        true
    } else if whole.len() == 0 {
        false
    } else {
        ||| part.last() == whole.last() && in_order(part.drop_last(), whole.drop_last())
        ||| in_order(part, whole.drop_last())
    }
}

/// What is kept of a list is kept in its order.
pub proof fn lemma_filter_keeps_the_order<A>(items: Seq<A>, keep: spec_fn(A) -> bool)
    ensures
        in_order(items.filter(keep), items),
    decreases items.len(),
{
    reveal(Seq::filter);
    if items.len() > 0 {
        lemma_filter_keeps_the_order(items.drop_last(), keep);
        if keep(items.last()) {
            assert(items.filter(keep).drop_last() =~= items.drop_last().filter(keep));
        }
    }
}

proof fn lemma_same_order<A>(items: Seq<A>)
    ensures
        in_order(items, items),
    decreases items.len(),
{
    if items.len() > 0 {
        lemma_same_order(items.drop_last());
    }
}

/// Groups stand in the order in which the catalog first lists them, and so do the
/// sessions of each. A group goes by the workspace of its first session, and is
/// collapsed exactly where the user collapsed it.
pub proof fn law_groups_keep_the_order_of_the_catalog(
    catalog: Seq<DesktopSessionCatalogEntry>,
    collapsed: Set<Seq<char>>,
    group: int,
)
    requires
        0 <= group < catalog_groups(catalog, collapsed).len(),
    ensures
        ({
            let shown = catalog_groups(catalog, collapsed)[group];
            &&& in_order(shown.sessions, catalog)
            &&& shown.sessions.len() > 0
            &&& shown.workspace == shown.sessions[0].workspace
            &&& shown.collapsed == collapsed.contains(shown.workspace.group_id@)
        }),
        in_order(group_heads(catalog), catalog),
    decreases catalog.len(),
{
    let head = group_heads(catalog)[group];
    lemma_filter_keeps_the_order(
        catalog,
        |session: DesktopSessionCatalogEntry| group_of(session) == group_of(head),
    );
    lemma_heads_in_order(catalog);
    lemma_head_comes_first(catalog, group);
}

proof fn lemma_heads_in_order(catalog: Seq<DesktopSessionCatalogEntry>)
    ensures
        in_order(group_heads(catalog), catalog),
    decreases catalog.len(),
{
    if catalog.len() > 0 {
        let earlier = catalog.drop_last();
        lemma_heads_in_order(earlier);
        if !lists_group(earlier, group_of(catalog.last())) {
            assert(group_heads(catalog).drop_last() =~= group_heads(earlier));
        }
    }
}

proof fn lemma_head_comes_first(catalog: Seq<DesktopSessionCatalogEntry>, group: int)
    requires
        0 <= group < group_heads(catalog).len(),
    ensures
        ({
            let head = group_heads(catalog)[group];
            let members = group_members(catalog, group_of(head));
            members.len() > 0 && members[0] == head
        }),
    decreases catalog.len(),
{
    let head = group_heads(catalog)[group];
    let id = group_of(head);
    let keep = |session: DesktopSessionCatalogEntry| group_of(session) == id;
    if catalog.len() > 0 {
        let earlier = catalog.drop_last();
        assert(catalog =~= earlier.push(catalog.last()));
        lemma_filter_push(earlier, catalog.last(), keep);
        let before = group_heads(earlier);
        if group < before.len() {
            assert(before[group] == head);
            lemma_head_comes_first(earlier, group);
        } else {
            assert(head == catalog.last());
            assert forall|session: DesktopSessionCatalogEntry| !earlier.filter(keep).contains(
                session,
            ) by {
                lemma_filter_keeps(earlier, keep, session);
                if earlier.contains(session) && keep(session) {
                    let i = earlier.index_of(session);
                    assert(group_of(earlier[i]) == id);
                }
            }
            if earlier.filter(keep).len() > 0 {
                assert(earlier.filter(keep).contains(earlier.filter(keep)[0]));
            }
        }
    }
}

/// A search keeps the order of the groups and of their sessions, shows no group
/// without a session, and discloses what it shows.
pub proof fn law_search_keeps_the_order(groups: Seq<CatalogGroupView>, query: Seq<char>)
    ensures
        forall|at: int|
            0 <= at < searched(groups, query).len() ==> {
                &&& (#[trigger] searched(groups, query)[at]).sessions.len() > 0
                &&& !searched(groups, query)[at].collapsed
                &&& exists|from: int|
                    0 <= from < groups.len() && searched(groups, query)[at].workspace
                        == (#[trigger] groups[from]).workspace && in_order(
                        searched(groups, query)[at].sessions,
                        groups[from].sessions,
                    )
            },
        in_order(
            searched(groups, query).map_values(|group: CatalogGroupView| group.workspace),
            groups.map_values(|group: CatalogGroupView| group.workspace),
        ),
    decreases groups.len(),
{
    let name = |group: CatalogGroupView| group.workspace;
    if groups.len() > 0 {
        let fewer = groups.drop_last();
        law_search_keeps_the_order(fewer, query);
        let earlier = searched(fewer, query);
        let last = narrowed(groups.last(), query);
        let shown = searched(groups, query);
        lemma_filter_keeps_the_order(
            groups.last().sessions,
            |session: DesktopSessionCatalogEntry| session_matches(session, query),
        );
        lemma_same_order(groups.last().sessions);
        assert forall|at: int| 0 <= at < shown.len() implies {
            &&& (#[trigger] shown[at]).sessions.len() > 0
            &&& !shown[at].collapsed
            &&& exists|from: int|
                0 <= from < groups.len() && shown[at].workspace == (
                #[trigger] groups[from]).workspace && in_order(
                    shown[at].sessions,
                    groups[from].sessions,
                )
        } by {
            if at < earlier.len() {
                assert(shown[at] == earlier[at]);
                let from = choose|from: int|
                    0 <= from < fewer.len() && earlier[at].workspace == (
                    #[trigger] fewer[from]).workspace && in_order(
                        earlier[at].sessions,
                        fewer[from].sessions,
                    );
                assert(groups[from] == fewer[from]);
            } else {
                assert(shown[at] == last);
                assert(groups[groups.len() - 1] == groups.last());
            }
        }
        assert(groups.map_values(name).drop_last() =~= fewer.map_values(name));
        if last.sessions.len() > 0 {
            assert(shown.map_values(name).drop_last() =~= earlier.map_values(name));
        }
    } else {
        assert(searched(groups, query).map_values(name).len() == 0);
    }
}

/// A session that was created stands first and once. The others keep their order;
/// only the last one falls out, where there is no room, and is counted then.
pub proof fn law_created_sessions_come_first(
    catalog: ProjectCatalogView,
    entry: DesktopSessionCatalogEntry,
)
    requires
        catalog.catalog.len() <= MAX_DESKTOP_SESSION_CATALOG,
        MAX_DESKTOP_SESSION_CATALOG > 0,
        forall|i: int, j: int|
            0 <= i < j < catalog.catalog.len() ==> (#[trigger] catalog.catalog[i]).session_id@ != (
            #[trigger] catalog.catalog[j]).session_id@,
    ensures
        ({
            let after = catalog.with_created(entry);
            let known = exists|i: int|
                0 <= i < catalog.catalog.len() && (#[trigger] catalog.catalog[i]).session_id@
                    == entry.session_id@;
            let full = catalog.catalog.len() == MAX_DESKTOP_SESSION_CATALOG;
            &&& after.catalog.len() > 0 && after.catalog[0] == entry
            &&& forall|i: int|
                0 < i < after.catalog.len() ==> (#[trigger] after.catalog[i]).session_id@
                    != entry.session_id@
            &&& known || full ==> after.catalog.len() == catalog.catalog.len()
            &&& !known && !full ==> after.catalog.len() == catalog.catalog.len() + 1
            &&& !known ==> forall|i: int|
                0 < i < after.catalog.len() ==> #[trigger] after.catalog[i] == catalog.catalog[i
                    - 1]
            &&& after.omitted == (if !known && full && catalog.omitted < usize::MAX {
                (catalog.omitted + 1) as usize
            } else {
                catalog.omitted
            })
            &&& after.loaded == catalog.loaded && after.collapsed == catalog.collapsed
        }),
{
    let listed = catalog.catalog;
    law_session_position_is_the_first(listed, entry.session_id@);
    let known = session_position(listed, entry.session_id@);
    let after = catalog.with_created(entry);
    if known is Some {
        let at = known->0;
        let others = listed.remove(at);
        assert forall|i: int| 0 < i < after.catalog.len() implies (
        #[trigger] after.catalog[i]).session_id@ != entry.session_id@ by {
            assert(after.catalog[i] == others[i - 1]);
            if i - 1 < at {
                assert(others[i - 1] == listed[i - 1]);
            } else {
                assert(others[i - 1] == listed[i]);
            }
        }
    } else {
        assert forall|i: int| 0 < i < after.catalog.len() implies #[trigger] after.catalog[i]
            == listed[i - 1] by {
            assert((seq![entry] + listed)[i] == listed[i - 1]);
        }
    }
}

/// A local change leaves a loaded catalog as it is, and makes stale what was never
/// loaded or failed to load. The reason of a failure is not lost.
pub proof fn law_local_changes_make_stale(state: CatalogStateView)
    ensures
        state.after_local_change().error() == state.error(),
        state is NotLoaded || state is Error ==> state.after_local_change() is Stale,
        !(state is NotLoaded || state is Error) ==> state.after_local_change() == state,
        state matches CatalogStateView::Error { message } ==> state.error() == Some(message),
        state matches CatalogStateView::Stale { error } ==> state.error() == error,
        state is NotLoaded || state is Loading || state is Ready ==> state.error() is None,
{
}

/// What is kept of a list that is too long are its first sessions.
pub proof fn law_bounded_catalog_keeps_the_first(listed: Seq<DesktopSessionCatalogEntry>)
    ensures
        listed.len() <= MAX_DESKTOP_SESSION_CATALOG ==> bounded(listed) == listed,
        listed.len() > MAX_DESKTOP_SESSION_CATALOG ==> bounded(listed).len()
            == MAX_DESKTOP_SESSION_CATALOG,
        forall|i: int| 0 <= i < bounded(listed).len() ==> #[trigger] bounded(listed)[i] == listed[i],
{
}

/// A count stays within its bounds, and is itself between them.
pub proof fn law_saturated_counts_stay_in_bounds(count: int, least: usize)
    ensures
        least <= saturated(count, least),
        least <= count <= usize::MAX ==> saturated(count, least) == count,
        count > usize::MAX ==> saturated(count, least) == usize::MAX,
        count < least ==> saturated(count, least) == least,
{
}

/// Switching goes on behind the active session, round the list. Where none of the
/// list is active it begins with the first.
pub proof fn law_switching_goes_round(
    catalog: Seq<DesktopSessionCatalogEntry>,
    active: Option<Seq<char>>,
)
    requires
        catalog.len() > 0,
    ensures
        0 <= next_position(catalog, active) < catalog.len(),
        active is None ==> next_position(catalog, active) == 0,
        active is Some && (forall|i: int|
            0 <= i < catalog.len() ==> (#[trigger] catalog[i]).session_id@ != active->0)
            ==> next_position(catalog, active) == 0,
        forall|at: int|
            #![trigger catalog[at]]
            0 <= at < catalog.len() && active == Some(catalog[at].session_id@) && (forall|i: int|
                0 <= i < at ==> (#[trigger] catalog[i]).session_id@ != catalog[at].session_id@)
                ==> next_position(catalog, active) == (if at + 1 < catalog.len() {
                at + 1
            } else {
                0
            }),
{
    if active is Some {
        law_session_position_is_the_first(catalog, active->0);
        assert forall|at: int|
            #![trigger catalog[at]]
            0 <= at < catalog.len() && active == Some(catalog[at].session_id@) && (forall|i: int|
                0 <= i < at ==> (#[trigger] catalog[i]).session_id@
                    != catalog[at].session_id@) implies next_position(catalog, active) == (if at + 1
            < catalog.len() {
            at + 1
        } else {
            0
        }) by {
            let found = session_position(catalog, active->0);
            assert(found is Some);
            let found = found->0;
            assert(catalog[found].session_id@ == catalog[at].session_id@);
            assert(found == at);
            if at + 1 < catalog.len() {
                assert((at + 1) % (catalog.len() as int) == at + 1) by (nonlinear_arith)
                    requires
                        0 <= at + 1 < catalog.len(),
                ;
            } else {
                assert((at + 1) % (catalog.len() as int) == 0) by (nonlinear_arith)
                    requires
                        at + 1 == catalog.len(),
                        catalog.len() > 0,
                ;
            }
        }
    }
}

/// A search of the catalog shows one of its sessions exactly where the query stands
/// in what the session goes by, where the sessions of a project agree on what the
/// project is called.
pub proof fn law_search_of_the_catalog(
    catalog: Seq<DesktopSessionCatalogEntry>,
    collapsed: Set<Seq<char>>,
    query: Seq<char>,
    session: DesktopSessionCatalogEntry,
)
    requires
        lowercase(trimmed(query)).len() > 0,
        forall|i: int, j: int|
            0 <= i < catalog.len() && 0 <= j < catalog.len() && group_of(#[trigger] catalog[i])
                == group_of(#[trigger] catalog[j]) ==> catalog[i].workspace == catalog[j].workspace,
    ensures
        in_a_group(shown_groups(catalog_groups(catalog, collapsed), query), session)
            <==> catalog.contains(session) && stands_in_session(
            lowercase(trimmed(query)),
            session,
            session.workspace,
        ),
{
    let groups = catalog_groups(catalog, collapsed);
    let heads = group_heads(catalog);
    law_search_finds_every_match(groups, query, session);
    law_groups_list_the_catalog(catalog, collapsed, session);
    assert forall|at: int|
        0 <= at < groups.len() && (#[trigger] groups[at]).sessions.contains(
            session,
        ) implies groups[at].workspace == session.workspace by {
        law_groups_hold_their_sessions(catalog, collapsed, session, at);
        law_groups_keep_the_order_of_the_catalog(catalog, collapsed, at);
        let first = groups[at].sessions[0];
        assert(groups[at].sessions.contains(first));
        law_groups_hold_their_sessions(catalog, collapsed, first, at);
        let i = catalog.index_of(first);
        let j = catalog.index_of(session);
        assert(group_of(catalog[i]) == group_of(catalog[j]));
    }
    if catalog.contains(session) {
        let at = choose|at: int|
            0 <= at < groups.len() && (#[trigger] groups[at]).sessions.contains(session);
        assert(groups[at].workspace == session.workspace);
    }
}

proof fn lemma_name_by_group(
    groups: Seq<CatalogGroupView>,
    session: DesktopSessionCatalogEntry,
    at: int,
)
    requires
        0 <= at < groups.len(),
        groups[at].sessions.contains(session),
        forall|group: int, other: DesktopSessionCatalogEntry|
            0 <= group < groups.len() && #[trigger] groups[group].sessions.contains(other)
                && other.session_id@ == session.session_id@ ==> other == session,
    ensures
        name_in_groups(groups, session.session_id@) == session.name,
    decreases groups.len(),
{
    let sessions = groups[0].sessions;
    law_session_position_is_the_first(sessions, session.session_id@);
    match session_position(sessions, session.session_id@) {
        Some(found) => {
            assert(groups[0].sessions.contains(sessions[found]));
        },
        None => {
            if at == 0 {
                let i = sessions.index_of(session);
                assert(sessions[i].session_id@ == session.session_id@);
            }
            let rest = groups.skip(1);
            assert forall|group: int, other: DesktopSessionCatalogEntry|
                0 <= group < rest.len() && #[trigger] rest[group].sessions.contains(other)
                    && other.session_id@ == session.session_id@ implies other == session by {
                assert(rest[group] == groups[group + 1]);
                assert(groups[group + 1].sessions.contains(other));
            }
            assert(rest[at - 1] == groups[at]);
            lemma_name_by_group(rest, session, at - 1);
        },
    }
}

/// A session goes by the name that the catalog has for it, whatever its group.
pub proof fn law_sessions_go_by_their_names(
    catalog: Seq<DesktopSessionCatalogEntry>,
    collapsed: Set<Seq<char>>,
    index: int,
)
    requires
        0 <= index < catalog.len(),
        forall|i: int, j: int|
            0 <= i < j < catalog.len() ==> (#[trigger] catalog[i]).session_id@ != (
            #[trigger] catalog[j]).session_id@,
    ensures
        name_in_groups(catalog_groups(catalog, collapsed), catalog[index].session_id@)
            == catalog[index].name,
{
    let session = catalog[index];
    let groups = catalog_groups(catalog, collapsed);
    assert(catalog.contains(session));
    law_groups_list_the_catalog(catalog, collapsed, session);
    let at = choose|at: int|
        0 <= at < groups.len() && (#[trigger] groups[at]).sessions.contains(session);
    assert forall|group: int, other: DesktopSessionCatalogEntry|
        0 <= group < groups.len() && #[trigger] groups[group].sessions.contains(other)
            && other.session_id@ == session.session_id@ implies other == session by {
        law_groups_hold_their_sessions(catalog, collapsed, other, group);
        let i = catalog.index_of(other);
        assert(catalog[i] == other);
        if i < index {
            assert(catalog[i].session_id@ != catalog[index].session_id@);
        } else if index < i {
            assert(catalog[index].session_id@ != catalog[i].session_id@);
        }
    }
    lemma_name_by_group(groups, session, at);
}

/// A catalog holds 128 sessions at most.
pub proof fn law_catalog_has_a_size()
    ensures
        MAX_DESKTOP_SESSION_CATALOG == 128,
{
}

} // verus!
