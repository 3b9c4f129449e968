//! What happens to the catalog when it is asked for, when a group is collapsed,
//! and when a session is created, confirmed for deletion, or installed as a
//! fixture.
use crate::catalog::{
    catalog_groups, lists_group, name_in_groups, CatalogStateView, DesktopSessionCatalogEntry,
    ProjectCatalogController, ProjectCatalogView, WorkspaceKind, WorkspaceMigration,
    WorkspaceMigrationOutcome, WorkspaceOverview,
};
use crate::change_set::UiRegion;
use crate::commands::{
    admission_failure, settle, settled, CommandReply, DesktopCommandIntent, RuntimeAnswer,
};
use crate::replay_plan::NativeVisualCatalogFixture;
use crate::sessions_pane::{observed_at, rfc3339_text, Timestamp};
use crate::shell::ShellCall;
use crate::text::optional_text;
use vstd::prelude::*;

verus! {

/// The catalog once it was asked for, by what the runtime said: it loads, or the
/// refresh has failed with the reason.
pub open spec fn catalog_after_request(
    catalog: ProjectCatalogView,
    answer: RuntimeAnswer,
) -> ProjectCatalogView {
    ProjectCatalogView {
        state: match admission_failure(DesktopCommandIntent::ListSessions, answer) {
            None => CatalogStateView::Loading,
            Some(message) => if catalog.loaded || catalog.catalog.len() > 0 {
                CatalogStateView::Stale { error: Some(message) }
            } else {
                CatalogStateView::Error { message }
            },
        },
        ..catalog
    }
}

/// Takes the answer to a reserved request for the catalog: the catalog loads,
/// and where the runtime did not admit the request, its refresh has failed.
pub fn settle_session_catalog(catalog: &mut ProjectCatalogController, answer: RuntimeAnswer) -> (
    reply: CommandReply)
    ensures
        reply@ == settled(DesktopCommandIntent::ListSessions, ""@, answer),
        final(catalog)@ == catalog_after_request(old(catalog)@, answer),
{
    catalog.begin_refresh();
    let reply = settle(&DesktopCommandIntent::ListSessions, "", answer);
    if reply.complete {
        if let Some(message) = &reply.notice {
            catalog.fail_refresh(message.as_str());
        }
    }
    reply
}

/// Collapses or discloses a group, and says what follows: where that changed
/// anything, the list is refreshed and the window painted again.
pub fn set_project_collapsed(
    catalog: &mut ProjectCatalogController,
    group_id: &str,
    collapsed: bool,
) -> (calls: Vec<ShellCall>)
    ensures
        calls@ == (if lists_group(old(catalog)@.catalog, group_id@)
            && old(catalog)@.collapsed.contains(group_id@) != collapsed {
            seq![ShellCall::Refresh(UiRegion::Sessions), ShellCall::Notify]
        } else {
            Seq::empty()
        }),
        final(catalog)@ == (ProjectCatalogView {
            collapsed: if !lists_group(old(catalog)@.catalog, group_id@) {
                old(catalog)@.collapsed
            } else if collapsed {
                old(catalog)@.collapsed.insert(group_id@)
            } else {
                old(catalog)@.collapsed.remove(group_id@)
            },
            ..old(catalog)@
        }),
{
    let calls: Vec<ShellCall> = if catalog.set_group_collapsed(group_id, collapsed) {
        vec![ShellCall::Refresh(UiRegion::Sessions), ShellCall::Notify]
    } else {
        Vec::new()
    };
    assert(calls@ =~= if lists_group(old(catalog)@.catalog, group_id@)
        && old(catalog)@.collapsed.contains(group_id@) != collapsed {
        seq![ShellCall::Refresh(UiRegion::Sessions), ShellCall::Notify]
    } else {
        Seq::empty()
    });
    calls
}

/// What is noted of a point in time, nothing where the calendar does not reach
/// it.
pub open spec fn noted_time(now: Timestamp) -> Seq<char> {
    match rfc3339_text(now) {
        Some(text) => text,
        None => Seq::empty(),
    }
}

/// Whether an entry stands in its workspace: one that is known needs no
/// migration, else the entry has that of an empty one.
pub open spec fn stands_in(
    entry: DesktopSessionCatalogEntry,
    workspace: Option<WorkspaceOverview>,
) -> bool {
    match workspace {
        Some(workspace) => {
            &&& entry.workspace == workspace
            &&& entry.workspace_migration.outcome == WorkspaceMigrationOutcome::NotRequired
            &&& entry.workspace_migration.diagnostic is None
        },
        None => {
            &&& entry.workspace.group_id@ == Seq::<char>::empty()
            &&& entry.workspace.kind == WorkspaceKind::Legacy
            &&& entry.workspace.display_name@ == Seq::<char>::empty()
            &&& entry.workspace.display_path is None
            &&& entry.workspace_migration.outcome == WorkspaceMigrationOutcome::Unknown
            &&& entry.workspace_migration.diagnostic is None
        },
    }
}

/// Whether an entry is that of a session just created.
pub open spec fn is_created_entry(
    entry: DesktopSessionCatalogEntry,
    session_id: String,
    workspace: Option<WorkspaceOverview>,
    now: Timestamp,
) -> bool {
    &&& entry.session_id == session_id
    &&& entry.name is None
    &&& stands_in(entry, workspace)
    &&& entry.created_at@ == noted_time(now)
    &&& entry.updated_at@ == noted_time(now)
    &&& entry.active_leaf_id is None
}

/// The entry of a session just created.
pub fn created_entry(
    session_id: String,
    workspace: Option<WorkspaceOverview>,
    now: Timestamp,
) -> (entry: DesktopSessionCatalogEntry)
    ensures
        is_created_entry(entry, session_id, workspace, now),
{
    let mut entry = DesktopSessionCatalogEntry::default();
    entry.session_id = session_id;
    if let Some(workspace) = workspace {
        entry.workspace = workspace;
        entry.workspace_migration = WorkspaceMigration {
            outcome: WorkspaceMigrationOutcome::NotRequired,
            diagnostic: None,
        };
    }
    let observed = observed_at(now);
    entry.created_at = observed.clone();
    entry.updated_at = observed;
    entry
}

/// Puts the active session in front of the catalog, where there is one.
pub fn insert_active_session_into_catalog(
    catalog: &mut ProjectCatalogController,
    session_id: Option<String>,
    workspace: Option<WorkspaceOverview>,
    now: Timestamp,
) -> (inserted: bool)
    ensures
        inserted == (session_id is Some),
        !inserted ==> final(catalog)@ == old(catalog)@,
        inserted ==> final(catalog)@.catalog.len() > 0 && is_created_entry(
            final(catalog)@.catalog[0],
            session_id->0,
            workspace,
            now,
        ),
        inserted ==> final(catalog)@ == old(catalog)@.with_created(final(catalog)@.catalog[0]),
{
    match session_id {
        Some(session_id) => {
            let entry = created_entry(session_id, workspace, now);
            catalog.insert_created_session(entry);
            true
        },
        None => false,
    }
}

/// A session that the user is asked about before it is deleted.
#[derive(Debug, PartialEq, Eq)]
pub struct SessionDeleteConfirm {
    pub session_id: String,
    pub name: Option<String>,
}

/// What the user is asked about before a session is deleted.
pub fn confirm_delete(catalog: &ProjectCatalogController, session_id: String) -> (confirm:
    SessionDeleteConfirm)
    ensures
        confirm.session_id == session_id,
        confirm.name == name_in_groups(
            catalog_groups(catalog@.catalog, catalog@.collapsed),
            session_id@,
        ),
{
    let name = catalog.session_name(session_id.as_str());
    SessionDeleteConfirm { session_id, name }
}

/// Whether an entry is the one that the visual replays list.
pub open spec fn is_fixture_entry(
    entry: DesktopSessionCatalogEntry,
    session_id: String,
    workspace: Option<WorkspaceOverview>,
) -> bool {
    &&& entry.session_id == session_id
    &&& optional_text(entry.name) == Some("Current desktop task"@)
    &&& stands_in(entry, workspace)
    &&& entry.created_at@ == "9999-12-31T23:59:59Z"@
    &&& entry.updated_at@ == "9999-12-31T23:59:59Z"@
    &&& entry.active_leaf_id is None
}

/// A catalog that nothing has happened to.
pub open spec fn untouched() -> ProjectCatalogView {
    ProjectCatalogView {
        catalog: Seq::empty(),
        omitted: 0,
        state: CatalogStateView::NotLoaded,
        loaded: false,
        collapsed: Set::empty(),
    }
}

/// Installs the catalog of a visual replay, by the transitions that the runtime
/// drives. Without a session there is nothing to list, and nothing to refresh.
/// The listed session lies in the future, so that its age always reads as now.
pub fn install_native_visual_catalog_fixture(
    catalog: &mut ProjectCatalogController,
    fixture: NativeVisualCatalogFixture,
    session_id: Option<String>,
    workspace: Option<WorkspaceOverview>,
) -> (refresh: bool)
    ensures
        refresh == !(fixture is Ready && session_id is None),
        match fixture {
            NativeVisualCatalogFixture::NotLoaded => final(catalog)@ == untouched(),
            NativeVisualCatalogFixture::Loading => final(catalog)@ == (ProjectCatalogView {
                state: CatalogStateView::Loading,
                ..untouched()
            }),
            NativeVisualCatalogFixture::Error => final(catalog)@ == (ProjectCatalogView {
                state: CatalogStateView::Error {
                    message: "The project catalog could not be loaded."@,
                },
                ..untouched()
            }),
            NativeVisualCatalogFixture::Empty => final(catalog)@ == (ProjectCatalogView {
                state: CatalogStateView::Ready,
                loaded: true,
                ..untouched()
            }),
            NativeVisualCatalogFixture::Ready => if session_id is None {
                final(catalog)@ == untouched()
            } else {
                &&& final(catalog)@ == (ProjectCatalogView {
                    catalog: final(catalog)@.catalog,
                    state: CatalogStateView::Ready,
                    loaded: true,
                    ..untouched()
                })
                &&& final(catalog)@.catalog.len() == 1
                &&& is_fixture_entry(final(catalog)@.catalog[0], session_id->0, workspace)
            },
        },
{
    *catalog = ProjectCatalogController::default();
    match fixture {
        NativeVisualCatalogFixture::NotLoaded => {},
        NativeVisualCatalogFixture::Loading => catalog.begin_refresh(),
        NativeVisualCatalogFixture::Ready => {
            let session_id = match session_id {
                Some(session_id) => session_id,
                None => {
                    return false;
                },
            };
            let mut entry = DesktopSessionCatalogEntry::default();
            entry.session_id = session_id;
            entry.name = Some("Current desktop task".to_owned());
            entry.created_at = "9999-12-31T23:59:59Z".to_owned();
            entry.updated_at = "9999-12-31T23:59:59Z".to_owned();
            if let Some(workspace) = workspace {
                entry.workspace = workspace;
                entry.workspace_migration = WorkspaceMigration {
                    outcome: WorkspaceMigrationOutcome::NotRequired,
                    diagnostic: None,
                };
            }
            let listed: Vec<DesktopSessionCatalogEntry> = vec![entry];
            catalog.replace_catalog(listed, 0);
        },
        NativeVisualCatalogFixture::Error => catalog.fail_refresh(
            "The project catalog could not be loaded.",
        ),
        NativeVisualCatalogFixture::Empty => {
            let listed: Vec<DesktopSessionCatalogEntry> = Vec::new();
            catalog.replace_catalog(listed, 0);
            assert(catalog@.catalog =~= untouched().catalog);
        },
    }
    true
}

/// A request for the catalog that was admitted makes it load. One that was not leaves
/// what is known as it is: stale where there is anything, an error where there is not,
/// and with the reason.
pub proof fn law_catalog_requests_keep_what_is_known(
    catalog: ProjectCatalogView,
    message: String,
)
    ensures
        catalog_after_request(catalog, RuntimeAnswer::Admitted).state is Loading,
        catalog.loaded || catalog.catalog.len() > 0 ==> catalog_after_request(
            catalog,
            RuntimeAnswer::Rejected(message),
        ).state == (CatalogStateView::Stale { error: Some(message@) }),
        !catalog.loaded && catalog.catalog.len() == 0 ==> catalog_after_request(
            catalog,
            RuntimeAnswer::Rejected(message),
        ).state == (CatalogStateView::Error { message: message@ }),
        catalog_after_request(catalog, RuntimeAnswer::Stopped).state.error() == Some(
            "desktop runtime is stopped"@,
        ),
        forall|answer: RuntimeAnswer|
            {
                let after = #[trigger] catalog_after_request(catalog, answer);
                after.catalog == catalog.catalog && after.omitted == catalog.omitted && after.loaded
                    == catalog.loaded && after.collapsed == catalog.collapsed
            },
{
}

/// A session that was created is listed as new: under its own name, without a title,
/// in its workspace, and of now.
pub proof fn law_created_sessions_are_new(
    entry: DesktopSessionCatalogEntry,
    session_id: String,
    workspace: WorkspaceOverview,
    now: Timestamp,
)
    ensures
        is_created_entry(entry, session_id, Some(workspace), now) ==> {
            &&& entry.session_id == session_id
            &&& entry.name is None
            &&& entry.workspace == workspace
            &&& entry.workspace_migration.outcome == WorkspaceMigrationOutcome::NotRequired
            &&& entry.workspace_migration.diagnostic is None
            &&& entry.created_at@ == entry.updated_at@
            &&& entry.active_leaf_id is None
        },
        is_created_entry(entry, session_id, None, now) ==> {
            &&& entry.session_id == session_id
            &&& entry.name is None
            &&& entry.workspace.kind is Legacy
            &&& entry.workspace.group_id@.len() == 0
            &&& entry.workspace.display_name@.len() == 0
            &&& entry.workspace.display_path is None
            &&& entry.created_at@ == entry.updated_at@
        },
        rfc3339_text(now) is Some ==> noted_time(now) == rfc3339_text(now)->0,
        rfc3339_text(now) is None ==> noted_time(now).len() == 0,
        forall|w: Option<WorkspaceOverview>| #[trigger]
            is_created_entry(entry, session_id, w, now) ==> entry.updated_at@ == noted_time(now),
{
}

/// The fixture lists the current task under its own session, at the end of time.
pub proof fn law_fixture_lists_the_current_task(
    entry: DesktopSessionCatalogEntry,
    session_id: String,
    workspace: WorkspaceOverview,
)
    ensures
        is_fixture_entry(entry, session_id, Some(workspace)) ==> {
            &&& entry.session_id == session_id
            &&& entry.name is Some && entry.name->0@ == "Current desktop task"@
            &&& entry.workspace == workspace
            &&& entry.created_at@ == "9999-12-31T23:59:59Z"@
            &&& entry.updated_at@ == "9999-12-31T23:59:59Z"@
        },
        untouched().catalog.len() == 0 && untouched().omitted == 0 && untouched().state is NotLoaded
            && !untouched().loaded && untouched().collapsed == Set::<Seq<char>>::empty(),
{
}

} // verus!
