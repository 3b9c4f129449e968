use desktop::catalog::{
    DesktopSessionCatalogEntry, ProjectCatalogController, ProjectCatalogState, WorkspaceKind,
    WorkspaceMigration, WorkspaceMigrationOutcome, WorkspaceOverview, MAX_DESKTOP_SESSION_CATALOG,
};
use desktop::clock::{Moment, Span};
use desktop::replay_plan::NativeVisualCatalogFixture;
use desktop::session_controller::{
    SessionController, SessionSwitchStep, SESSION_CATALOG_REFRESH_NANOS,
};
use desktop::session_events::{
    confirm_delete, insert_active_session_into_catalog, install_native_visual_catalog_fixture,
};
use desktop::sessions_pane::{relative_session_time, Timestamp};

fn workspace(
    group_id: &str,
    kind: WorkspaceKind,
    display_name: &str,
    display_path: Option<&str>,
) -> WorkspaceOverview {
    WorkspaceOverview {
        group_id: group_id.into(),
        kind,
        display_name: display_name.into(),
        display_path: display_path.map(str::to_owned),
    }
}

fn entry(
    session_id: &str,
    name: Option<&str>,
    updated_at: &str,
    workspace: WorkspaceOverview,
) -> DesktopSessionCatalogEntry {
    DesktopSessionCatalogEntry {
        session_id: session_id.into(),
        name: name.map(str::to_owned),
        workspace,
        workspace_migration: WorkspaceMigration {
            outcome: WorkspaceMigrationOutcome::NotRequired,
            diagnostic: None,
        },
        updated_at: updated_at.into(),
        ..Default::default()
    }
}

#[test]
fn catalog_refresh_has_one_deadline_and_keeps_recent_order() {
    let now = Moment { nanos: 7_000_000_000 };
    let mut controller = SessionController::default();
    let deadline = controller.schedule_refresh(now).unwrap();
    assert_eq!(
        deadline,
        now.plus(Span {
            nanos: SESSION_CATALOG_REFRESH_NANOS
        })
    );
    assert_eq!(controller.schedule_refresh(now), None);
    assert!(!controller.take_scheduled_refresh(deadline.plus(Span {
        nanos: 1_000_000_000
    })));
    assert!(controller.take_scheduled_refresh(deadline));

    controller.replace_catalog(
        vec![
            DesktopSessionCatalogEntry {
                session_id: "session-a".into(),
                updated_at: "2026-07-28T12:00:00Z".into(),
                ..Default::default()
            },
            DesktopSessionCatalogEntry {
                session_id: "session-b".into(),
                updated_at: "2026-07-28T11:00:00Z".into(),
                ..Default::default()
            },
        ],
        3,
    );
    assert_eq!(controller.omitted(), 3);
    assert_eq!(
        controller.next_session_id("session-a").as_deref(),
        Some("session-b")
    );
    assert_eq!(
        controller.next_session_id("missing").as_deref(),
        Some("session-a")
    );
}

#[test]
fn switching_asks_for_a_catalog_that_was_never_listed() {
    let mut controller = SessionController::default();
    assert_eq!(
        controller.switch_next_session("home"),
        SessionSwitchStep::LoadCatalog {
            notice: "Loading the session catalog…"
        }
    );
    controller.replace_catalog(
        vec![DesktopSessionCatalogEntry {
            session_id: "only".into(),
            ..Default::default()
        }],
        0,
    );
    assert_eq!(
        controller.switch_next_session("home"),
        SessionSwitchStep::Open("only".into())
    );
    match controller.switch_next_session("only") {
        SessionSwitchStep::Refuse(reply) => assert_eq!(
            reply.notice.as_deref(),
            Some("No other project session is available.")
        ),
        other => panic!("unexpected step {other:?}"),
    }
}

#[test]
fn catalog_state_distinguishes_initial_loading_error_ready_and_stale() {
    let mut controller = ProjectCatalogController::default();
    assert_eq!(controller.state(), &ProjectCatalogState::NotLoaded);
    assert!(controller.project_groups().is_empty());

    controller.begin_refresh();
    assert_eq!(controller.state(), &ProjectCatalogState::Loading);
    controller.fail_refresh("offline");
    assert_eq!(
        controller.state(),
        &ProjectCatalogState::Error {
            message: "offline".into()
        }
    );

    controller.begin_refresh();
    controller.replace_catalog(Vec::new(), 7);
    assert_eq!(controller.state(), &ProjectCatalogState::Ready);
    assert!(controller.project_groups().is_empty());
    assert_eq!(controller.omitted(), 7);

    controller.begin_refresh();
    controller.fail_refresh("timed out");
    assert_eq!(
        controller.state(),
        &ProjectCatalogState::Stale {
            error: Some("timed out".into())
        }
    );
    assert_eq!(controller.state().error_message(), Some("timed out"));

    let mut local_only = ProjectCatalogController::default();
    local_only.insert_created_session(entry(
        "local",
        None,
        "2026-07-30T12:00:00Z",
        workspace(
            "projectless:local",
            WorkspaceKind::Projectless,
            "Projectless",
            None,
        ),
    ));
    assert_eq!(
        local_only.state(),
        &ProjectCatalogState::Stale { error: None }
    );
    local_only.begin_refresh();
    local_only.fail_refresh("offline again");
    assert_eq!(
        local_only.state(),
        &ProjectCatalogState::Stale {
            error: Some("offline again".into())
        }
    );
}

#[test]
fn groups_use_product_identity_and_preserve_global_and_group_recent_order() {
    let same_name_a = workspace(
        "project:a",
        WorkspaceKind::Project,
        "repo",
        Some("/workspace/a/repo"),
    );
    let same_name_b = workspace(
        "project:b",
        WorkspaceKind::Project,
        "repo",
        Some("/workspace/b/repo"),
    );
    let projectless = workspace(
        "projectless:one",
        WorkspaceKind::Projectless,
        "Projectless",
        None,
    );
    let legacy = workspace("legacy:unscoped", WorkspaceKind::Legacy, "Legacy session", None);
    let mut controller = ProjectCatalogController::default();
    controller.replace_catalog(
        vec![
            entry("a-new", Some("A new"), "05", same_name_a.clone()),
            entry("b-only", Some("B"), "04", same_name_b),
            entry("a-old", Some("A old"), "03", same_name_a),
            entry("no-project", None, "02", projectless),
            entry("legacy", None, "01", legacy),
        ],
        0,
    );

    let groups = controller.project_groups();
    assert_eq!(
        groups
            .iter()
            .map(|group| group.workspace.group_id.as_str())
            .collect::<Vec<_>>(),
        [
            "project:a",
            "project:b",
            "projectless:one",
            "legacy:unscoped"
        ]
    );
    assert_eq!(
        groups[0].workspace.display_name,
        groups[1].workspace.display_name
    );
    assert_ne!(
        groups[0].workspace.display_path,
        groups[1].workspace.display_path
    );
    assert_eq!(
        groups[0]
            .sessions
            .iter()
            .map(|session| session.session_id.as_str())
            .collect::<Vec<_>>(),
        ["a-new", "a-old"]
    );
    assert_eq!(groups[2].workspace.kind, WorkspaceKind::Projectless);
    assert_eq!(groups[3].workspace.kind, WorkspaceKind::Legacy);
}

#[test]
fn search_matches_workspace_or_session_without_mutating_collapse_state() {
    let project = workspace(
        "project:alpha",
        WorkspaceKind::Project,
        "shared-name",
        Some("/teams/alpha/repo"),
    );
    let projectless = workspace(
        "projectless:one",
        WorkspaceKind::Projectless,
        "Projectless",
        None,
    );
    let mut controller = ProjectCatalogController::default();
    controller.replace_catalog(
        vec![
            entry("alpha-one", Some("Release plan"), "03", project.clone()),
            entry("alpha-two", Some("Bug triage"), "02", project),
            entry("scratch", Some("Draft"), "01", projectless),
        ],
        0,
    );
    assert!(controller.set_group_collapsed("project:alpha", true));
    assert!(!controller.set_group_collapsed("missing", true));

    let by_session = controller.filtered_project_groups("release");
    assert_eq!(by_session.len(), 1);
    assert_eq!(by_session[0].sessions.len(), 1);
    assert_eq!(by_session[0].sessions[0].session_id, "alpha-one");
    assert!(!by_session[0].collapsed);

    let by_path = controller.filtered_project_groups("teams/alpha");
    assert_eq!(by_path.len(), 1);
    assert_eq!(by_path[0].sessions.len(), 2);
    assert!(!by_path[0].collapsed);
    assert!(controller
        .filtered_project_groups("does-not-exist")
        .is_empty());

    assert!(controller.project_groups()[0].collapsed);
    let refreshed = controller.catalog().to_vec();
    controller.replace_catalog(Vec::new(), 0);
    assert!(controller.project_groups().is_empty());
    controller.replace_catalog(refreshed, 0);
    assert!(controller.project_groups()[0].collapsed);
}

#[test]
fn catalog_local_mutations_keep_recent_order_and_bounds() {
    let mut controller = ProjectCatalogController::default();
    let project_a = workspace("project:a", WorkspaceKind::Project, "A", Some("/a"));
    let project_b = workspace("project:b", WorkspaceKind::Project, "B", Some("/b"));
    controller.replace_catalog(
        vec![
            entry("session-a", None, "02", project_a.clone()),
            entry("session-b", None, "01", project_b.clone()),
        ],
        3,
    );
    assert_eq!(controller.omitted(), 3);
    assert_eq!(
        controller.next_session_id(Some("session-a")).as_deref(),
        Some("session-b")
    );
    assert_eq!(
        controller.next_session_id(Some("missing")).as_deref(),
        Some("session-a")
    );
    controller.insert_created_session(entry("session-c", None, "03", project_a));
    assert_eq!(controller.catalog()[0].session_id, "session-c");
    assert!(controller.rename_session("session-b", Some("Renamed recently".into()), "04".into()));
    assert_eq!(controller.catalog()[0].session_id, "session-b");
    assert_eq!(
        controller.catalog()[0].name.as_deref(),
        Some("Renamed recently")
    );
    assert_eq!(
        controller.project_groups()[0].workspace.group_id,
        "project:b"
    );
    assert!(controller.remove_session("session-b"));
    assert!(!controller.remove_session("session-b"));

    let mut bounded = ProjectCatalogController::default();
    for index in 0..=MAX_DESKTOP_SESSION_CATALOG {
        bounded.insert_created_session(entry(
            &format!("session-{index}"),
            None,
            &format!("{index:03}"),
            project_b.clone(),
        ));
    }
    assert_eq!(bounded.catalog().len(), MAX_DESKTOP_SESSION_CATALOG);
    assert_eq!(bounded.catalog()[0].session_id, "session-128");
    assert_eq!(bounded.omitted(), 1);
}

#[test]
fn search_ignores_case_and_surrounding_blanks() {
    let mut controller = ProjectCatalogController::default();
    controller.replace_catalog(
        vec![entry(
            "one",
            Some("ÄRGER im Release"),
            "01",
            workspace("g", WorkspaceKind::Project, "Repo", None),
        )],
        0,
    );
    assert_eq!(controller.filtered_project_groups("  ärger ").len(), 1);
    assert_eq!(controller.filtered_project_groups("REPO").len(), 1);
    assert!(controller.filtered_project_groups("x").is_empty());
}

#[test]
fn relative_session_time_is_stable_and_bounded() {
    // 2026-07-27T12:00:00Z
    let now = Timestamp {
        seconds: 1_785_153_600,
        nanoseconds: 0,
    };
    assert_eq!(relative_session_time("2026-07-27T11:59:45Z", now), "now");
    assert_eq!(
        relative_session_time("2026-07-27T11:35:00Z", now),
        "25m ago"
    );
    assert_eq!(relative_session_time("2026-07-27T06:00:00Z", now), "6h ago");
    assert_eq!(relative_session_time("2026-07-24T12:00:00Z", now), "3d ago");
    assert_eq!(
        relative_session_time("2026-06-01T00:00:00Z", now),
        "2026-06-01"
    );
    assert_eq!(relative_session_time("malformed", now), "malformed");
}

#[test]
fn created_session_is_listed_with_the_time_it_was_observed() {
    let mut catalog = ProjectCatalogController::default();
    let now = Timestamp {
        seconds: 1_785_153_600,
        nanoseconds: 0,
    };
    assert!(!insert_active_session_into_catalog(
        &mut catalog,
        None,
        None,
        now
    ));
    assert!(catalog.catalog().is_empty());
    assert!(insert_active_session_into_catalog(
        &mut catalog,
        Some("fresh".into()),
        Some(workspace("g", WorkspaceKind::Project, "Repo", None)),
        now
    ));
    let listed = &catalog.catalog()[0];
    assert_eq!(listed.session_id, "fresh");
    assert_eq!(listed.created_at, "2026-07-27T12:00:00Z");
    assert_eq!(listed.updated_at, "2026-07-27T12:00:00Z");
    assert_eq!(
        listed.workspace_migration.outcome,
        WorkspaceMigrationOutcome::NotRequired
    );
}

#[test]
fn deletion_is_confirmed_under_the_listed_name() {
    let mut catalog = ProjectCatalogController::default();
    catalog.replace_catalog(
        vec![entry(
            "one",
            Some("First"),
            "01",
            workspace("g", WorkspaceKind::Project, "Repo", None),
        )],
        0,
    );
    assert_eq!(
        confirm_delete(&catalog, "one".into()).name.as_deref(),
        Some("First")
    );
    assert_eq!(confirm_delete(&catalog, "two".into()).name, None);
}

#[test]
fn catalog_fixtures_drive_the_production_states() {
    let mut catalog = ProjectCatalogController::default();
    let mut install = |fixture, session: Option<&str>| {
        let refresh = install_native_visual_catalog_fixture(
            &mut catalog,
            fixture,
            session.map(str::to_owned),
            None,
        );
        let listed = catalog.catalog().len();
        let state = format!("{:?}", catalog.state());
        (refresh, listed, state)
    };
    assert_eq!(
        install(NativeVisualCatalogFixture::NotLoaded, None),
        (true, 0, "NotLoaded".into())
    );
    assert_eq!(
        install(NativeVisualCatalogFixture::Loading, None),
        (true, 0, "Loading".into())
    );
    assert_eq!(
        install(NativeVisualCatalogFixture::Ready, Some("visual")),
        (true, 1, "Ready".into())
    );
    assert_eq!(
        install(NativeVisualCatalogFixture::Ready, None),
        (false, 0, "NotLoaded".into())
    );
    assert_eq!(
        install(NativeVisualCatalogFixture::Empty, None),
        (true, 0, "Ready".into())
    );
    assert!(install(NativeVisualCatalogFixture::Error, None)
        .2
        .contains("The project catalog could not be loaded."));
}
