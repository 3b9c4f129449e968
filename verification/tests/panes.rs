use desktop::catalog::{
    DesktopSessionCatalogEntry, ProjectCatalogController, ProjectCatalogState, WorkspaceKind,
    WorkspaceOverview,
};
use desktop::change_set::{UiRegion, WorkspaceKey};
use desktop::clock::{
    minimum_duration, InputRenderLatencyProbe, Moment, Span, TelemetrySchedule, TelemetryStep,
};
use desktop::commands::{FileReviewRequest, RuntimeAnswer};
use desktop::controls::{DesktopCriticalTone, DesktopIcon};
use desktop::conversation::ConversationBlockKind;
use desktop::conversation_actions::{
    announce_conversation_copy, copy_full_message, copy_keyboard_selected_conversation,
    copy_selected_conversation, open_full_conversation_message, ConversationFullMessageView,
    KeyboardCopyStep, OpenMessageStep,
};
use desktop::conversation_header::DesktopThinkingLevel;
use desktop::conversation_row::{
    conversation_frame_view, conversation_row_view, ConversationCounts, ConversationRowBlock,
    ConversationRowPlace, ReasoningView, ToolOutputView, TruncationBar,
};
use desktop::inspector_pane::{conversation_recovery_button, DesktopRecoveryAction};
use desktop::intent::CenterSurface;
use desktop::overlay::{decision_state, full_message_state};
use desktop::replay_frames::{
    trace_line, ClickToPhoton, FrameStep, NativeFrameReplay, TraceField, INPUT_SAMPLE_FRAMES,
    SAMPLE_FRAMES, WARMUP_FRAMES,
};
use desktop::replay_plan::{drawer_fixture_refresh, replay_failure};
use desktop::review::{
    settle_file_review, ClipboardFeedback, CopyStep, DesktopFileReviewState,
};
use desktop::session_controller::{
    CatalogRefreshStep, SessionController, SESSION_CATALOG_REFRESH_NANOS,
};
use desktop::session_events::{set_project_collapsed, settle_session_catalog};
use desktop::sessions_pane::{
    new_conversation_row, observed_at, omitted_sessions_notice, refresh_menu_item,
    relative_session_time, session_age, session_row_view, sessions_empty_state, skill_rows,
    skills_notice, visible_sessions, SessionRename, SessionRuntimeState, SessionsPaneContext,
    SkillCommand, Timestamp,
};
use desktop::shell::{
    panel_refresh, show_home_workspace, surface_after, NavigationStep, ShellCall, SidePanel,
};
use desktop::theme::{
    delegation_status_color, focus_ring_color, DelegationStatus, SemanticColor, SemanticStatus,
    SemanticTheme, StatusFace,
};
use desktop::view_state::StreamingTextPhase;
use desktop::workspace::{initial_workspaces, sync_composer, WorkspaceSelection};

fn theme() -> SemanticTheme {
    let color = |rgb| SemanticColor { rgb };
    SemanticTheme {
        canvas: color(1),
        surface: color(2),
        elevated: color(3),
        border: color(4),
        divider: color(5),
        focus_ring: color(6),
        text: color(7),
        muted_text: color(8),
        subtle_text: color(9),
        accent: color(10),
        success: color(11),
        warning: color(12),
        danger: color(13),
    }
}

fn face(status: SemanticStatus, label: &'static str, glyph: &'static str) -> StatusFace {
    StatusFace {
        status,
        label,
        glyph,
    }
}

fn session(session_id: &str, name: Option<&str>, group: &str) -> DesktopSessionCatalogEntry {
    DesktopSessionCatalogEntry {
        session_id: session_id.into(),
        name: name.map(str::to_owned),
        workspace: WorkspaceOverview {
            group_id: group.into(),
            kind: WorkspaceKind::Project,
            display_name: group.into(),
            display_path: None,
        },
        updated_at: "2026-07-01T00:00:00Z".into(),
        ..Default::default()
    }
}

fn context() -> SessionsPaneContext {
    SessionsPaneContext {
        active_session_id: "active".into(),
        active_face: face(SemanticStatus::Idle, "Idle", "●"),
        runtime_states: vec![SessionRuntimeState {
            session_id: "open".into(),
            face: face(SemanticStatus::Running, "Running", "▶"),
        }],
        composer_running: false,
        awaiting_prompt_start: false,
        session_pending: false,
        presented_as_drawer: false,
        renaming_session_id: Some("open".into()),
    }
}

#[test]
fn session_rows_tell_their_status() {
    let active = session_row_view(
        &session("active", None, "repo"),
        &context(),
        "now".into(),
        theme(),
    );
    assert_eq!(active.title, "Untitled");
    assert_eq!(active.status, "current");
    assert_eq!(active.accessible_label, "Untitled, current, updated now");
    assert!(active.state.selected && active.state.disabled && !active.renaming);
    assert_eq!(active.trailing_reserved, 0);

    let open = session_row_view(
        &session("open", Some("Parser"), "repo"),
        &context(),
        "5m ago".into(),
        theme(),
    );
    assert_eq!(open.status, "running");
    assert_eq!(open.status_glyph, "▶");
    assert_eq!(open.status_color, theme().accent);
    assert_eq!(open.rename_label, "Rename Parser");
    assert_eq!(open.close_label, "Close Parser");
    assert!(!open.state.disabled && open.renaming);

    let drawer = SessionsPaneContext {
        presented_as_drawer: true,
        session_pending: true,
        ..context()
    };
    let closed = session_row_view(
        &session("closed", Some("Docs"), "repo"),
        &drawer,
        "1d ago".into(),
        theme(),
    );
    assert_eq!(closed.status, "available");
    assert_eq!(closed.status_glyph, "○");
    assert_eq!(closed.status_color, theme().muted_text);
    assert_eq!(closed.detail, "closed · available");
    assert!(closed.shows_relative_time && closed.state.disabled);
    assert_eq!(closed.trailing_reserved, 60);
}

#[test]
fn noted_times_read_back() {
    let noted = Timestamp {
        seconds: 1_752_000_000,
        nanoseconds: 120_000_001,
    };
    let text = observed_at(noted);
    assert_eq!(text, "2025-07-08T18:40:00.120000001Z");
    assert_eq!(relative_session_time(&text, noted), "now");
    let hour_later = Timestamp {
        seconds: noted.seconds + 3_600,
        ..noted
    };
    assert_eq!(relative_session_time(&text, hour_later), "1h ago");
    assert_eq!(
        observed_at(Timestamp {
            seconds: i64::MAX,
            nanoseconds: 0
        }),
        ""
    );
}

#[test]
fn ages_change_their_words_at_their_bounds() {
    let at = |seconds| Timestamp {
        seconds,
        nanoseconds: 0,
    };
    let age = |seconds| session_age("2026-07-01T00:00:00Z", Some(at(0)), at(seconds));
    assert_eq!(age(-5), "now");
    assert_eq!(age(59), "now");
    assert_eq!(age(60), "1m ago");
    assert_eq!(age(3_599), "59m ago");
    assert_eq!(age(86_399), "23h ago");
    assert_eq!(age(604_799), "6d ago");
    assert_eq!(age(604_800), "2026-07-01");
    assert_eq!(session_age("€€€€", Some(at(0)), at(604_800)), "€€€€");
}

#[test]
fn the_pane_lists_what_matches_or_says_why_not() {
    let mut catalog = ProjectCatalogController::default();
    catalog.replace_catalog(
        vec![
            session("a", Some("Parser"), "alpha"),
            session("b", Some("Docs"), "beta"),
        ],
        0,
    );
    let groups = catalog.project_groups();
    let ids = |search: &str| {
        visible_sessions(&groups, search)
            .into_iter()
            .map(|session| session.session_id)
            .collect::<Vec<_>>()
    };
    assert_eq!(ids(""), ["a", "b"]);
    assert_eq!(ids("  PARS "), ["a"]);
    assert_eq!(ids("beta"), ["b"]);
    assert!(ids("gamma").is_empty());

    let empty = |query: &str, state: &ProjectCatalogState| sessions_empty_state(0, 0, query, state);
    assert_eq!(
        sessions_empty_state(1, 1, "", &ProjectCatalogState::NotLoaded),
        None
    );
    assert_eq!(
        empty("", &ProjectCatalogState::NotLoaded).as_deref(),
        Some("Refresh to load projects and session history.")
    );
    assert_eq!(
        empty("gamma", &ProjectCatalogState::NotLoaded).as_deref(),
        Some("No sessions match “gamma”.")
    );
    assert_eq!(
        empty(
            "",
            &ProjectCatalogState::Error {
                message: "offline".into()
            }
        )
        .as_deref(),
        Some("Session history unavailable: offline. Use Refresh to retry.")
    );
    assert_eq!(
        empty(
            "",
            &ProjectCatalogState::Stale {
                error: Some("offline".into())
            }
        )
        .as_deref(),
        Some("Session history is stale: offline. Use Refresh to retry.")
    );
    assert_eq!(
        empty("", &ProjectCatalogState::Stale { error: None }).as_deref(),
        Some("No recent sessions yet. Create one to begin.")
    );
}

#[test]
fn the_pane_counts_what_it_leaves_out() {
    let skills: Vec<SkillCommand> = (0..10)
        .map(|index| SkillCommand {
            name: format!("skill-{index}"),
            description: "Reads the plan.".into(),
        })
        .collect();
    let rows = skill_rows(&skills);
    assert_eq!(rows.len(), 8);
    assert_eq!(rows[7].title, "/skill-7");
    assert_eq!(rows[0].description, "Reads the plan.");
    assert_eq!(
        skills_notice(0).as_deref(),
        Some("No global skills installed.")
    );
    assert_eq!(skills_notice(8), None);
    assert_eq!(
        skills_notice(10).as_deref(),
        Some("+ 2 more global skill(s)")
    );
    assert_eq!(omitted_sessions_notice(0), None);
    assert_eq!(
        omitted_sessions_notice(3).as_deref(),
        Some("+ 3 older session(s) omitted")
    );
    assert_eq!(refresh_menu_item(true, false), ("Loading sessions…", true));
    assert_eq!(refresh_menu_item(false, false), ("Refresh sessions", false));
    let (home, hint) = new_conversation_row("", true);
    assert!(home.selected);
    assert_eq!(hint, Some("Start from Home"));
    assert_eq!(new_conversation_row("active", false).1, None);
}

#[test]
fn a_requested_catalog_loads_or_fails() {
    let mut catalog = ProjectCatalogController::default();
    let reply = settle_session_catalog(&mut catalog, RuntimeAnswer::Admitted);
    assert!(!reply.complete && reply.notice.is_none());
    assert_eq!(catalog.state(), &ProjectCatalogState::Loading);
    let reply = settle_session_catalog(&mut catalog, RuntimeAnswer::Stopped);
    assert!(reply.complete);
    assert_eq!(
        catalog.state(),
        &ProjectCatalogState::Error {
            message: "desktop runtime is stopped".into()
        }
    );
    catalog.replace_catalog(vec![session("a", None, "alpha")], 0);
    settle_session_catalog(&mut catalog, RuntimeAnswer::Rejected("full".into()));
    assert_eq!(
        catalog.state(),
        &ProjectCatalogState::Stale {
            error: Some("full".into())
        }
    );
}

#[test]
fn only_a_changed_group_is_painted_again() {
    let mut catalog = ProjectCatalogController::default();
    catalog.replace_catalog(vec![session("a", None, "alpha")], 0);
    let painted = [ShellCall::Refresh(UiRegion::Sessions), ShellCall::Notify];
    assert_eq!(set_project_collapsed(&mut catalog, "alpha", true), painted);
    assert!(set_project_collapsed(&mut catalog, "alpha", true).is_empty());
    assert!(set_project_collapsed(&mut catalog, "beta", true).is_empty());
    assert_eq!(set_project_collapsed(&mut catalog, "alpha", false), painted);
}

#[test]
fn an_admitted_review_loads() {
    let request = |path: &str| FileReviewRequest {
        operation_id: "operation".into(),
        tool_call_id: None,
        path: path.into(),
    };
    let mut review = DesktopFileReviewState::Empty;
    assert_eq!(review.change(), None);
    let reply = settle_file_review(&mut review, request("a"), RuntimeAnswer::Stopped);
    assert_eq!(
        reply.notice.as_deref(),
        Some("desktop runtime is unavailable")
    );
    assert_eq!(review, DesktopFileReviewState::Empty);
    let reply = settle_file_review(&mut review, request("a"), RuntimeAnswer::Admitted);
    assert_eq!(
        reply.notice.as_deref(),
        Some("Loading changed-file review…")
    );
    assert_eq!(review.change(), Some(&request("a")));
    settle_file_review(&mut review, request("b"), RuntimeAnswer::Stopped);
    assert_eq!(review, DesktopFileReviewState::Loading(request("a")));
}

#[test]
fn a_new_window_holds_home_and_its_session() {
    let home = initial_workspaces(
        None,
        DesktopThinkingLevel::High,
        Some("notice".into()),
        "scratch".into(),
    );
    assert_eq!(home.active, WorkspaceKey::Home);
    assert_eq!(home.home_notice.as_deref(), Some("notice"));
    assert_eq!(home.home_thinking, DesktopThinkingLevel::Default);
    assert_eq!(home.session_thinking, None);
    let open = initial_workspaces(
        Some("a".into()),
        DesktopThinkingLevel::High,
        Some("notice".into()),
        "scratch".into(),
    );
    assert_eq!(open.active, WorkspaceKey::Session("a".into()));
    assert_eq!(open.home_notice, None);
    assert_eq!(open.session_notice.as_deref(), Some("notice"));
    assert_eq!(open.session_thinking, Some(DesktopThinkingLevel::High));
    assert_eq!(
        open.home_selection,
        WorkspaceSelection::Projectless("scratch".into())
    );
    let mut needs_sync = true;
    assert_eq!(
        sync_composer(&mut needs_sync, "draft").as_deref(),
        Some("draft")
    );
    assert_eq!(sync_composer(&mut needs_sync, "draft"), None);
}

#[test]
fn a_rename_ends_once() {
    let mut rename = SessionRename { session_id: None };
    assert_eq!(rename.begin_rename("a".into(), Some("Old".into())), "Old");
    assert_eq!(rename.commit_rename().as_deref(), Some("a"));
    assert_eq!(rename.commit_rename(), None);
    assert_eq!(rename.begin_rename("b".into(), None), "");
    rename.cancel_rename();
    assert_eq!(rename.commit_rename(), None);
}

#[test]
fn scheduled_refreshes_wait_for_idle() {
    let mut controller = SessionController::default();
    let deadline = controller
        .schedule_refresh(Moment { nanos: 1 })
        .expect("nothing was scheduled");
    assert_eq!(deadline.nanos, 1 + SESSION_CATALOG_REFRESH_NANOS);
    assert_eq!(
        controller.refresh_is_due(Moment { nanos: 7 }, false),
        CatalogRefreshStep::Superseded
    );
    assert_eq!(
        controller.refresh_is_due(deadline, true),
        CatalogRefreshStep::Reschedule
    );
    let again = controller
        .schedule_refresh(deadline)
        .expect("the first one was taken");
    assert_eq!(
        controller.refresh_is_due(again, false),
        CatalogRefreshStep::Request
    );
}

#[test]
fn telemetry_waits_for_one_timer() {
    let millis = |millis: u64| Moment {
        nanos: millis * 1_000_000,
    };
    let mut schedule = TelemetrySchedule {
        last_refresh: None,
        deadline: None,
    };
    assert_eq!(schedule.request(millis(10)), TelemetryStep::RefreshNow);
    assert_eq!(
        schedule.request(millis(60)),
        TelemetryStep::StartTimer(Span { nanos: 200_000_000 })
    );
    assert_eq!(schedule.request(millis(70)), TelemetryStep::AlreadyScheduled);
    assert!(!schedule.timer_fired(false, millis(260)));
    assert!(schedule.timer_fired(true, millis(260)));
    assert!(!schedule.timer_fired(true, millis(261)));
    assert_eq!(
        schedule.request(millis(300)),
        TelemetryStep::StartTimer(Span { nanos: 210_000_000 })
    );
    schedule.timer_failed();
    assert_eq!(schedule.deadline, None);
    let short = Some(Span { nanos: 1 });
    let long = Some(Span { nanos: 2 });
    assert_eq!(minimum_duration(short, long), short);
    assert_eq!(minimum_duration(None, long), long);
    assert_eq!(minimum_duration(long, None), long);
    assert_eq!(minimum_duration(None, None), None);
}

#[test]
fn input_latency_counts_once() {
    let mut probe = InputRenderLatencyProbe::default();
    assert_eq!(probe.observe_render_at(Moment { nanos: 5 }), None);
    probe.mark_changed_at(Moment { nanos: 10 });
    assert!(!probe.pending_is_empty());
    assert_eq!(
        probe.observe_render_at(Moment { nanos: 25 }),
        Some(Span { nanos: 15 })
    );
    assert!(probe.pending_is_empty());
}

fn block(kind: ConversationBlockKind, title: &str, text: &str, detail: &str) -> ConversationRowBlock {
    ConversationRowBlock {
        row_id: "row".into(),
        stable_id: "stable".into(),
        kind,
        title: title.into(),
        text: text.into(),
        detail: detail.into(),
        is_error: false,
        done: true,
        durable: true,
        preview_truncated: false,
        media_neutralized: false,
        image_count: 0,
        reasoning_duration: None,
    }
}

fn place(index: usize, expanded: bool) -> ConversationRowPlace {
    ConversationRowPlace {
        index,
        row_count: 2,
        previous_kind: None,
        next_kind: None,
        selected: true,
        detail_expanded: expanded,
        full_view_open: false,
        recovery_available: true,
        user_message_max_width: 640,
    }
}

#[test]
fn user_rows_are_cards_on_the_right() {
    let user = conversation_row_view(
        &block(ConversationBlockKind::User, "You", "hello world", ""),
        place(1, false),
        theme(),
    );
    assert_eq!(user.card_width, Some(11 * 8 + 48));
    assert!(user.visual.align_right && user.is_last && user.selection_rail);
    assert_eq!(user.position_in_set, 2);
    assert_eq!(user.hover_group, "conversation-card:stable");
    assert!(!user.identity_header && !user.header_title);
    assert_eq!(user.state_label, None);
    let first = conversation_row_view(
        &block(ConversationBlockKind::User, "You", "hello world", ""),
        place(0, false),
        theme(),
    );
    assert_eq!(user.bubble_inset, first.bubble_inset + 9);
}

#[test]
fn tool_rows_show_their_command_when_open() {
    let shell = |expanded| {
        conversation_row_view(
            &block(
                ConversationBlockKind::Tool,
                "Tool · bash",
                "done",
                r#"{"command":"cargo test"}"#,
            ),
            place(0, expanded),
            theme(),
        )
    };
    let closed = shell(false);
    assert_eq!(closed.tool_output, ToolOutputView::Hidden);
    assert_eq!(closed.accessible_label, "Tool · bash, completed");
    assert_eq!(closed.header_state_label, None);
    assert!(!closed.selection_rail && !closed.shows_text);
    let header = closed.tool.expect("a tool has a header");
    assert_eq!(header.disclosure, DesktopIcon::ChevronRight);
    assert!(header.expandable);
    assert_eq!(
        shell(true).tool_output,
        ToolOutputView::Shell {
            prompt: "$ cargo test".into(),
            has_output: true
        }
    );
}

#[test]
fn assistant_rows_head_their_reasoning() {
    let mut thinking = block(
        ConversationBlockKind::Assistant,
        "Assistant",
        "answer",
        "reasons",
    );
    thinking.done = false;
    thinking.preview_truncated = true;
    thinking.image_count = 2;
    let view = conversation_row_view(&thinking, place(0, false), theme());
    assert_eq!(view.reasoning, ReasoningView::Collapsed("Thinking".into()));
    assert_eq!(view.accessible_label, "Assistant, streaming");
    assert_eq!(view.truncation_bar, TruncationBar::CopyOnTheLeft);
    assert_eq!(view.expanded_state, Some(false));
    assert!(!view.copy_footer && view.shows_text && !view.shows_detail);
    assert_eq!(
        view.image_notice.as_deref(),
        Some("▧ 2 retained image attachment(s)")
    );
    thinking.done = true;
    thinking.reasoning_duration = Some("4s".into());
    let view = conversation_row_view(&thinking, place(0, true), theme());
    assert_eq!(
        view.reasoning,
        ReasoningView::Expanded("Thought for 4s".into())
    );
    let mut issue = block(ConversationBlockKind::Diagnostic, "Issue", "broken", "why");
    issue.is_error = true;
    let view = conversation_row_view(&issue, place(0, false), theme());
    assert!(view.shows_recovery && view.shows_detail);
    assert_eq!(view.header_state_label, Some("failed"));
    assert_eq!(view.reasoning, ReasoningView::Absent);
}

#[test]
fn the_conversation_counts_around_its_rows() {
    let counts = ConversationCounts {
        visible: 0,
        events: 1,
        messages: 2,
        tools: 3,
        omitted: 4,
        unseen_updates: 0,
    };
    let empty = conversation_frame_view(counts, true);
    assert_eq!(empty.empty_lines.len(), 5);
    assert_eq!(empty.empty_lines[4], "tool overlays    3");
    assert_eq!(empty.omitted_notice, None);
    assert_eq!(empty.follow_label, None);
    let paused = ConversationCounts {
        visible: 1,
        ..counts
    };
    let view = conversation_frame_view(paused, false);
    assert_eq!(view.follow_label.as_deref(), Some("Latest ↓"));
    assert_eq!(
        view.omitted_notice.as_deref(),
        Some("4 older blocks omitted by desktop retention bounds")
    );
    assert!(view.empty_lines.is_empty());
    let behind = ConversationCounts {
        unseen_updates: 7,
        ..paused
    };
    assert_eq!(
        conversation_frame_view(behind, false)
            .follow_label
            .as_deref(),
        Some("↓ 7 new")
    );
}

#[test]
fn copies_say_what_was_copied() {
    let announced = |step: CopyStep| match step {
        CopyStep::Write {
            text,
            feedback: ClipboardFeedback::ConversationAnnouncement(message),
        } => (text, message),
        other => panic!("no announcement: {other:?}"),
    };
    assert_eq!(
        copy_selected_conversation(false, Some("text".into())),
        CopyStep::Ignore
    );
    assert_eq!(
        announced(copy_selected_conversation(true, Some("text".into()))),
        (Some("text".into()), "Selected message copied.".into())
    );
    assert!(matches!(
        copy_selected_conversation(true, None),
        CopyStep::Refuse(_)
    ));
    assert_eq!(
        announced(announce_conversation_copy("Code copied.")),
        (None, "Code copied.".into())
    );
    assert_eq!(
        announced(copy_full_message("all")),
        (Some("all".into()), "Full message copied.".into())
    );
    assert_eq!(
        copy_keyboard_selected_conversation(Some("row".into())),
        KeyboardCopyStep::CopyRow("row".into())
    );
    match copy_keyboard_selected_conversation(None) {
        KeyboardCopyStep::Refuse(reply) => {
            assert_eq!(reply.refresh, [UiRegion::Toast]);
            assert!(!reply.notify);
        }
        other => panic!("nothing was selected: {other:?}"),
    }
}

#[test]
fn messages_open_while_they_are_there() {
    let message = || ConversationFullMessageView {
        block_id: "row".into(),
        title: "Assistant".into(),
        text: "all".into(),
        source_truncated: false,
    };
    assert_eq!(
        open_full_conversation_message(Some(message())),
        OpenMessageStep::Show(message())
    );
    match open_full_conversation_message(None) {
        OpenMessageStep::Refuse(reply) => assert_eq!(
            reply.notice.as_deref(),
            Some("Message is no longer available to open.")
        ),
        other => panic!("there was no message: {other:?}"),
    }
    assert_eq!(
        full_message_state(true, theme()),
        (
            "bounded source · additional content unavailable",
            theme().warning
        )
    );
    assert_eq!(full_message_state(false, theme()).1, theme().muted_text);
    assert_eq!(decision_state(true), "decision pending…");
    assert_eq!(decision_state(false), "explicit decision required");
}

#[test]
fn recoveries_are_coloured_by_their_severity() {
    let retry = conversation_recovery_button(DesktopRecoveryAction::Retry);
    assert_eq!(retry.tone, DesktopCriticalTone::Neutral);
    assert_eq!(retry.tooltip, "Retry the pending recovery");
    let abort = conversation_recovery_button(DesktopRecoveryAction::Abort);
    assert_eq!(abort.tone, DesktopCriticalTone::Dangerous);
    assert_eq!(abort.label, "Abort");
    assert_eq!(
        delegation_status_color(DelegationStatus::Rejected, theme()),
        theme().warning
    );
    assert_eq!(
        delegation_status_color(DelegationStatus::Completed, theme()),
        theme().muted_text
    );
    assert_eq!(focus_ring_color(true, theme()), theme().focus_ring);
    assert_eq!(focus_ring_color(false, theme()), theme().divider);
}

#[test]
fn navigation_sets_the_surface() {
    assert_eq!(
        surface_after(&NavigationStep::ShowSkills),
        CenterSurface::Skills
    );
    assert_eq!(
        surface_after(&NavigationStep::OpenSession("a".into())),
        CenterSurface::Primary
    );
    assert_eq!(show_home_workspace().first(), Some(&UiRegion::Sessions));
    assert_eq!(show_home_workspace().last(), Some(&UiRegion::Modal));
    assert_eq!(
        panel_refresh(SidePanel::Sessions),
        [UiRegion::Inspector, UiRegion::ConversationHeader]
    );
    assert_eq!(
        panel_refresh(SidePanel::Inspector),
        [UiRegion::ConversationHeader]
    );
    assert_eq!(drawer_fixture_refresh().last(), Some(&UiRegion::Drawer));
    assert_eq!(
        replay_failure("no display"),
        "desktop: native replay failed: no display"
    );
    assert!(!StreamingTextPhase::StreamingPlainText.shows_markdown());
    assert!(StreamingTextPhase::SettlingMarkdown.shows_markdown());
}

#[test]
fn a_replay_runs_to_its_report() {
    let mut replay = NativeFrameReplay::new(Some(1_000));
    let mut now = 0u64;
    let mut frames = 0usize;
    loop {
        now += 16_000_000;
        if replay.observe_frame_callback(Moment { nanos: now }) {
            replay.record_warmup_resident(Some(1_500));
        }
        frames += 1;
        match replay.frame_step() {
            FrameStep::Report => break,
            FrameStep::DispatchInput => replay.mark_input_dispatched(Moment { nanos: now }),
            FrameStep::NextFrame => {}
        }
    }
    assert_eq!(frames, WARMUP_FRAMES + SAMPLE_FRAMES + 1);
    assert_eq!(replay.input_dispatches, INPUT_SAMPLE_FRAMES);
    let report = replay.report(Some(1_200));
    assert_eq!(report.presented_frames, SAMPLE_FRAMES);
    assert_eq!(report.cadence_p95_micros, 16_000);
    assert_eq!(report.input_p99_micros, 16_000);
    assert_eq!(report.resident_startup_growth, 500);
    assert_eq!(report.resident_steady_growth, 0);
    assert!(report
        .line("linux")
        .starts_with("desktop_perf\tplatform=linux\tnative_presented_frames=200\t"));
}

#[test]
fn samples_are_traced_by_tabs() {
    let click = ClickToPhoton {
        bright: true,
        samples: 3,
    };
    assert_eq!(
        click.received_line("7-9"),
        "desktop_trace\tclick_to_photon_input_received\trun=7-9\tsample=3\tbright=true"
    );
    assert_eq!(
        click.rendered_line("7-9", 12),
        "desktop_trace\tclick_to_photon_post_render\trun=7-9\tsample=3\tbright=true\tinput_received_to_post_render_us=12"
    );
    assert_eq!(
        trace_line(
            "event",
            &vec![TraceField {
                name: "run",
                value: "1".into()
            }]
        ),
        "event\trun=1"
    );
}
