use desktop::actions::DesktopPaletteCommand;
use desktop::change_set::{
    initial_changes, notice_owner, refresh_views, toast_notice, RefreshStep, UiChangeSet, UiRegion,
    WorkspaceKey,
};
use desktop::commands::{
    abort_active_operation, close_session, composer_gate, create_session,
    decide_tool_authorization, draft_refused, insert_composer, is_pending, next_command_step,
    open_review_in_external_editor, open_session, recovery_call, reload_local_resources,
    request_file_review, request_session_catalog, reservation_refused, send_composer,
    session_required, settle, submit_active_control, submit_composer, submit_recovery_action,
    submit_selection, switch_next_session, CommandEvent, CommandGate, CommandReply, CommandStage,
    CommandStep, ComposerSubmissionKind, DesktopCommandIntent, DesktopRuntimeSelectionKind, FileReviewRequest,
    ModelFacts, PendingKind, RecoveryCall, RuntimeAnswer, SelectionFacts, SessionGateFacts, SwitchStep,
};
use desktop::composer_pane::ComposerRunningMode;
use desktop::conversation_header::DesktopThinkingLevel;
use desktop::inspector_pane::{DesktopRecoveryAction, InspectorSection};
use desktop::intent::{
    row_head_clicked, CenterDrawerHostEvent, CenterNavigationTarget, CenterSurface,
    ComposerPaneEvent, ConversationHeaderEvent, ConversationPaneEvent, InspectorPaneEvent,
    RecoveryIdentity, RootModalHostEvent, SessionsPaneEvent, UiIntent,
};
use desktop::overlay::ToolAuthorizationDecision;
use desktop::review::{copy_file_review, copy_review_path, review_next_file, ClipboardExport, ClipboardFeedback, CopyStep, ReviewNextStep};
use desktop::shell::{
    center_view, dispatch_ui_intent, execute_palette_command, focus_target_label,
    keyboard_decision, navigate_center, on_escape_hierarchy, on_open_command_palette,
    on_palette_confirm, on_root_action, show_project_home_workspace, toggle_panel,
    AuthorizationKey, CenterView, DesktopModalKind, EscapeFacts, FocusTarget, NavigationStep,
    PanelToggle, ProjectHomeStep, RootAction, ShellCall, ShellFacts, SidePanel,
};
use desktop::workspace::{
    add_composer_attachments, apply_runtime_poll, candidate_attachments,
    choose_composer_attachments, choose_project_directory, clear_project_directory,
    complete_external_editor_launch, complete_resync_admission, cycle_thinking_selection, picker_options, picker_outcome,
    preference_outcome, reconcile_thinking_selection, remove_composer_attachment, resync_outcome,
    select_thinking_level, set_project_directory, submit_latest_recovery, updates_of_frame,
    AttachmentStep, DesktopPickerKind, LatestRecoveryStep, ListedRecovery, PickerAnswer,
    PickerStep, PlatformOutcome, PreferenceWrite, ThinkingFallback, ThinkingStep,
    WorkspaceSelection, MAX_RUNTIME_UPDATES_PER_FRAME,
};

#[test]
fn feature_events_preserve_their_typed_payloads() {
    assert_eq!(
        UiIntent::from(&SessionsPaneEvent::Rename(
            "session-a".into(),
            "Readable name".into(),
        )),
        UiIntent::RenameSession {
            session_id: "session-a".into(),
            name: "Readable name".into(),
        }
    );
    assert_eq!(
        UiIntent::from(&ConversationHeaderEvent::SelectModel("model-a".into())),
        UiIntent::SelectModel("model-a".into())
    );
    assert_eq!(
        UiIntent::from(&ComposerPaneEvent::SetRunningMode(
            ComposerRunningMode::QueueNext,
        )),
        UiIntent::SetRunningMode(ComposerRunningMode::QueueNext)
    );
    assert_eq!(
        UiIntent::from(&ConversationPaneEvent::Select {
            block_id: "message-a".into(),
            durable: true,
        }),
        UiIntent::SelectConversation {
            block_id: "message-a".into(),
            durable: true,
        }
    );
    assert_eq!(
        UiIntent::from(&InspectorPaneEvent::SelectSection(
            InspectorSection::Runtime
        )),
        UiIntent::SelectInspectorSection(InspectorSection::Runtime)
    );
}

#[test]
fn overlay_events_normalize_to_shared_intents() {
    assert_eq!(
        UiIntent::from(&SessionsPaneEvent::Dismiss),
        UiIntent::DismissDrawer
    );
    assert_eq!(
        UiIntent::from(&InspectorPaneEvent::Close),
        UiIntent::DismissDrawer
    );
    assert_eq!(
        UiIntent::from(&CenterDrawerHostEvent::Dismiss),
        UiIntent::DismissDrawer
    );
    assert_eq!(
        UiIntent::from(&RootModalHostEvent::CopyFullMessage),
        UiIntent::CopyFullMessage
    );
}

fn facts() -> ShellFacts {
    ShellFacts {
        catalog_not_loaded: true,
        modal_blocks: false,
        session_open: true,
        full_message_open: false,
        reduced_motion: false,
        pending_deletion: Some("doomed".into()),
    }
}

#[test]
fn a_session_is_deleted_only_after_it_was_asked_for() {
    assert_eq!(
        dispatch_ui_intent(UiIntent::DeleteSession("doomed".into()), facts()),
        [
            ShellCall::AskToDelete("doomed".into()),
            ShellCall::ActivateModal(DesktopModalKind::ConfirmDeleteSession)
        ]
    );
    assert_eq!(
        dispatch_ui_intent(UiIntent::ConfirmDeleteSession, facts()),
        [
            ShellCall::ForgetDeletion,
            ShellCall::DismissModal,
            ShellCall::DeleteSession("doomed".into())
        ]
    );
    assert_eq!(
        dispatch_ui_intent(UiIntent::CancelDeleteSession, facts()),
        [ShellCall::ForgetDeletion, ShellCall::DismissModal]
    );
}

#[test]
fn searching_loads_the_catalog_once() {
    assert_eq!(
        dispatch_ui_intent(UiIntent::OpenSearch, facts())[0],
        ShellCall::RequestCatalog
    );
    let mut loaded = facts();
    loaded.catalog_not_loaded = false;
    assert_eq!(dispatch_ui_intent(UiIntent::OpenSearch, loaded).len(), 2);
}

#[test]
fn palette_commands_run_alike_by_key_and_click() {
    let clicked = dispatch_ui_intent(
        UiIntent::ExecutePalette(DesktopPaletteCommand::ToggleReducedMotion),
        facts(),
    );
    assert_eq!(
        clicked,
        on_palette_confirm(Some(DesktopPaletteCommand::ToggleReducedMotion), false)
    );
    assert_eq!(
        clicked[4],
        ShellCall::SetNotice("Reduced motion enabled; desktop transitions remain static.")
    );
    assert_eq!(
        execute_palette_command(DesktopPaletteCommand::AbortRecovery, false),
        [ShellCall::RecoverLatest(DesktopRecoveryAction::Abort)]
    );
    assert!(on_palette_confirm(None, true).is_empty());
}

#[test]
fn escape_walks_down_the_hierarchy() {
    let mut escape = EscapeFacts {
        modal: Some(DesktopModalKind::Authorization),
        update_installing: true,
        drawer_open: true,
        review_open: true,
    };
    assert!(!on_escape_hierarchy(escape).contains(&ShellCall::DismissModal));
    escape.modal = Some(DesktopModalKind::UpdateAvailable);
    assert_eq!(
        on_escape_hierarchy(escape)[0],
        ShellCall::SetNotice("The verified update is still being installed. Please wait.")
    );
    escape.update_installing = false;
    assert_eq!(
        on_escape_hierarchy(escape),
        [ShellCall::ForgetUpdate, ShellCall::DismissModal]
    );
    escape.modal = None;
    assert_eq!(on_escape_hierarchy(escape), [ShellCall::DismissDrawer]);
    escape.drawer_open = false;
    assert_eq!(on_escape_hierarchy(escape)[0], ShellCall::CloseReview);
    escape.review_open = false;
    assert_eq!(
        on_escape_hierarchy(escape),
        [ShellCall::Focus(FocusTarget::Composer)]
    );
}

#[test]
fn modals_hold_keyboard_actions_back() {
    assert!(on_root_action(RootAction::NewSession, true).is_empty());
    assert_eq!(
        on_root_action(RootAction::OpenFileSurface, false),
        [
            ShellCall::ReviewNextFile,
            ShellCall::Focus(FocusTarget::Inspector)
        ]
    );
    assert_eq!(
        on_open_command_palette(true)[0],
        ShellCall::SetNotice("Resolve authorization before opening commands.")
    );
    assert_eq!(
        keyboard_decision(AuthorizationKey::Deny),
        ToolAuthorizationDecision::Deny {
            reason: Some("denied from native desktop keyboard action".into())
        }
    );
    assert_eq!(focus_target_label(FocusTarget::CenterBody), "Center workspace");
}

#[test]
fn navigation_stays_in_the_open_session() {
    let active = Some("a".to_owned());
    assert_eq!(
        navigate_center(CenterNavigationTarget::Session("a".into()), &active),
        NavigationStep::StayInSession
    );
    assert_eq!(
        navigate_center(CenterNavigationTarget::Session("b".into()), &active),
        NavigationStep::OpenSession("b".into())
    );
    assert_eq!(
        center_view(CenterSurface::Primary, false),
        (CenterView::Home, "Home workspace")
    );
    assert_eq!(
        show_project_home_workspace("/p".into(), true, true),
        ProjectHomeStep::Show("/p".into())
    );
    assert_eq!(
        toggle_panel(SidePanel::Sessions, false, true, Some(SidePanel::Sessions)),
        PanelToggle::DismissDrawer
    );
    assert_eq!(
        toggle_panel(SidePanel::Inspector, true, true, None),
        PanelToggle::Dock { visible: false }
    );
    assert_eq!(
        row_head_clicked("b".into(), true, true, true).len(),
        2
    );
}

#[test]
fn refreshes_bring_their_hosts_along() {
    assert_eq!(
        refresh_views(&UiChangeSet::one(UiRegion::Sessions)),
        [
            RefreshStep::Sessions,
            RefreshStep::Toast,
            RefreshStep::Modal
        ]
    );
    let mut changes = UiChangeSet::one(UiRegion::InspectorTelemetry);
    assert_eq!(refresh_views(&changes), [RefreshStep::ScheduleTelemetry]);
    changes.insert(UiRegion::Inspector);
    assert_eq!(
        refresh_views(&changes),
        [RefreshStep::Inspector, RefreshStep::Toast]
    );
    assert!(!initial_changes().contains(UiRegion::Root));
    assert!(UiChangeSet::default().is_empty());
    let mut merged = UiChangeSet::one(UiRegion::Root);
    merged.merge(&changes);
    assert!(merged.contains(UiRegion::Root) && merged.contains(UiRegion::Inspector));
}

#[test]
fn notices_belong_to_their_workspace() {
    assert_eq!(notice_owner(&WorkspaceKey::Home), "workspace:home");
    let notice = toast_notice(
        &WorkspaceKey::Session("s".into()),
        &Some("hello".into()),
        3,
    )
    .unwrap();
    assert_eq!(notice.session_id, "session:s");
    assert_eq!(notice.revision, 3);
    assert_eq!(toast_notice(&WorkspaceKey::Home, &None, 3), None);
}

fn refused(gate: CommandGate) -> (String, Vec<UiRegion>, bool) {
    match gate {
        CommandGate::Refuse(reply) => (reply.notice.unwrap(), reply.refresh, reply.notify),
        other => panic!("unexpected gate {other:?}"),
    }
}

#[test]
fn drafts_with_images_need_a_model_that_takes_them() {
    let models = vec![ModelFacts {
        id: "blind".into(),
        supports_images: false,
    }];
    assert_eq!(
        refused(submit_composer(true, &models, "blind")).0,
        "Selected model does not support image attachments; the draft was retained."
    );
    assert_eq!(
        submit_composer(false, &models, "blind"),
        CommandGate::Reserve(DesktopCommandIntent::Prompt)
    );
    assert_eq!(send_composer(true), ComposerSubmissionKind::FollowUp);
    assert_eq!(insert_composer(true), ComposerSubmissionKind::Steer);
    assert_eq!(insert_composer(false), ComposerSubmissionKind::Prompt);
    assert_eq!(
        refused(submit_active_control(ComposerSubmissionKind::Prompt, false)).0,
        "Prompt submissions must use the idle composer action."
    );
    assert_eq!(
        refused(submit_active_control(ComposerSubmissionKind::Steer, true)).0,
        "Attachments cannot be added to a running operation; the draft was retained."
    );
}

#[test]
fn a_sent_draft_follows_the_running_operation() {
    let models = vec![ModelFacts {
        id: "blind".into(),
        supports_images: false,
    }];
    let send = |active: bool, attached: bool| {
        composer_gate(send_composer(active), attached, &models, "blind")
    };
    assert_eq!(
        send(true, false),
        CommandGate::Reserve(DesktopCommandIntent::FollowUp)
    );
    assert_eq!(
        send(false, false),
        CommandGate::Reserve(DesktopCommandIntent::Prompt)
    );
    assert_eq!(
        refused(send(true, true)),
        (
            "Attachments cannot be added to a running operation; the draft was retained.".into(),
            vec![UiRegion::Composer, UiRegion::Toast],
            true
        )
    );
    assert_eq!(
        refused(send(false, true)),
        (
            "Selected model does not support image attachments; the draft was retained.".into(),
            vec![UiRegion::Composer, UiRegion::Toast],
            true
        )
    );
}

#[test]
fn an_inserted_draft_steers_or_is_sent() {
    let models = vec![ModelFacts {
        id: "seeing".into(),
        supports_images: true,
    }];
    let insert = |active: bool, attached: bool| {
        composer_gate(insert_composer(active), attached, &models, "seeing")
    };
    assert_eq!(
        insert(true, false),
        CommandGate::Reserve(DesktopCommandIntent::Steer)
    );
    assert_eq!(
        refused(insert(true, true)).0,
        "Attachments cannot be added to a running operation; the draft was retained."
    );
    for attached in [false, true] {
        assert_eq!(
            insert(false, attached),
            composer_gate(send_composer(false), attached, &models, "seeing")
        );
        assert_eq!(
            insert(false, attached),
            CommandGate::Reserve(DesktopCommandIntent::Prompt)
        );
    }
}

#[test]
fn a_draft_is_taken_between_reservation_and_runtime() {
    for (intent, kind) in [
        (DesktopCommandIntent::Prompt, ComposerSubmissionKind::Prompt),
        (DesktopCommandIntent::Steer, ComposerSubmissionKind::Steer),
        (
            DesktopCommandIntent::FollowUp,
            ComposerSubmissionKind::FollowUp,
        ),
    ] {
        let step = next_command_step(&intent, CommandStage::Reserving, CommandEvent::Reserved);
        assert_eq!(step, CommandStep::TakeDraft(kind));
        assert_eq!(step.stage(), Some(CommandStage::TakingDraft));
        let step = next_command_step(
            &intent,
            CommandStage::TakingDraft,
            CommandEvent::DraftFailed("empty".into()),
        );
        assert_eq!(step, CommandStep::Finish(draft_refused("empty".into())));
        assert_eq!(step.stage(), None);
        let step = next_command_step(&intent, CommandStage::TakingDraft, CommandEvent::DraftTaken);
        assert_eq!(step, CommandStep::Submit);
        assert_eq!(step.stage(), Some(CommandStage::Submitting));
        assert_eq!(
            next_command_step(
                &intent,
                CommandStage::Submitting,
                CommandEvent::Answered {
                    recovery_label: String::new(),
                    answer: RuntimeAnswer::NoSession,
                },
            ),
            CommandStep::Finish(settle(&intent, "", RuntimeAnswer::NoSession))
        );
    }
}

#[test]
fn reviews_find_their_session_before_the_runtime() {
    let review = DesktopCommandIntent::FileReview {
        request: change("a.rs"),
    };
    let editor = DesktopCommandIntent::ExternalEditor {
        project_relative_path: "a.rs".into(),
    };
    for intent in [&review, &editor] {
        let step = next_command_step(intent, CommandStage::Reserving, CommandEvent::Reserved);
        assert_eq!(step, CommandStep::FindSession);
        assert_eq!(step.stage(), Some(CommandStage::FindingSession));
        let step = next_command_step(
            intent,
            CommandStage::FindingSession,
            CommandEvent::SessionMissing,
        );
        let CommandStep::Finish(reply) = step else {
            panic!("a missing session ends the command");
        };
        assert!(reply.complete);
        assert_eq!(reply, session_required(intent));
        assert_eq!(
            next_command_step(
                intent,
                CommandStage::FindingSession,
                CommandEvent::SessionFound
            ),
            CommandStep::Submit
        );
    }
    let answered = |answer: RuntimeAnswer| CommandEvent::Answered {
        recovery_label: String::new(),
        answer,
    };
    assert_eq!(
        next_command_step(
            &review,
            CommandStage::Submitting,
            answered(RuntimeAnswer::Admitted)
        ),
        CommandStep::SettleReview(RuntimeAnswer::Admitted)
    );
    assert_eq!(
        next_command_step(
            &DesktopCommandIntent::ListSessions,
            CommandStage::Submitting,
            answered(RuntimeAnswer::Stopped)
        ),
        CommandStep::SettleCatalog(RuntimeAnswer::Stopped)
    );
}

#[test]
fn a_command_without_draft_goes_straight_to_the_runtime() {
    let recovery = DesktopCommandIntent::Recovery {
        recovery_id: "r".into(),
        action: DesktopRecoveryAction::Retry,
    };
    assert_eq!(
        next_command_step(&recovery, CommandStage::Reserving, CommandEvent::Reserved),
        CommandStep::Submit
    );
    assert_eq!(
        next_command_step(
            &recovery,
            CommandStage::Reserving,
            CommandEvent::ReservationFailed("full".into()),
        ),
        CommandStep::Finish(reservation_refused(&recovery, "full".into()))
    );
    let CommandStep::Finish(reply) = next_command_step(
        &recovery,
        CommandStage::Submitting,
        CommandEvent::Answered {
            recovery_label: "retry".into(),
            answer: RuntimeAnswer::Admitted,
        },
    ) else {
        panic!("an answer ends the command");
    };
    assert_eq!(reply.notice.as_deref(), Some("Submitting recovery retry…"));
    assert!(!reply.complete);
}

#[test]
fn pending_commands_are_told_by_their_kind() {
    let open = DesktopCommandIntent::OpenSession {
        session_id: "s".into(),
    };
    let pending = vec![DesktopCommandIntent::ListSessions, open];
    assert!(is_pending(&pending, PendingKind::SessionList));
    assert!(is_pending(&pending, PendingKind::SessionSwitch));
    for kind in [
        PendingKind::Abort,
        PendingKind::Reload,
        PendingKind::Recovery,
        PendingKind::Selection,
        PendingKind::Authorization,
        PendingKind::FileReview,
    ] {
        assert!(!is_pending(&pending, kind));
    }
    let pending = vec![DesktopCommandIntent::Selection(
        DesktopRuntimeSelectionKind::Model,
    )];
    assert!(is_pending(&pending, PendingKind::Selection));
    assert!(!is_pending(&vec![], PendingKind::Selection));
}

#[test]
fn events_out_of_turn_move_no_command() {
    let reload = DesktopCommandIntent::Reload;
    for (stage, event) in [
        (CommandStage::Reserving, CommandEvent::DraftTaken),
        (CommandStage::TakingDraft, CommandEvent::DraftTaken),
        (
            CommandStage::TakingDraft,
            CommandEvent::DraftFailed("e".into()),
        ),
        (CommandStage::FindingSession, CommandEvent::SessionFound),
        (CommandStage::FindingSession, CommandEvent::SessionMissing),
        (CommandStage::Submitting, CommandEvent::Reserved),
    ] {
        assert_eq!(next_command_step(&reload, stage, event), CommandStep::Wait);
    }
    assert_eq!(CommandStep::Wait.stage(), None);
}

#[test]
fn commands_are_held_back_while_the_runtime_is_busy() {
    assert_eq!(
        abort_active_operation(true, Some("op".into())),
        CommandGate::Ignore
    );
    assert_eq!(
        refused(abort_active_operation(false, None)).0,
        "No active operation is available to abort."
    );
    assert_eq!(
        refused(reload_local_resources(false, true, false)).0,
        "Reload is available only while the runtime is idle."
    );
    assert_eq!(
        refused(submit_recovery_action(
            false,
            false,
            true,
            "r".into(),
            DesktopRecoveryAction::Retry
        ))
        .0,
        "Recovery actions are available only while the runtime is idle."
    );
    let selection = SelectionFacts {
        selected_model_id: "m".into(),
        session_profile_id: None,
        project_profile_id: "p".into(),
        selection_pending: false,
        operation_active: true,
        draft_submitted: false,
    };
    assert_eq!(
        submit_selection(DesktopRuntimeSelectionKind::Model, "m", &selection),
        CommandGate::Ignore
    );
    assert_eq!(
        submit_selection(DesktopRuntimeSelectionKind::SessionProfile, "p", &selection),
        CommandGate::Ignore
    );
    assert_eq!(
        refused(submit_selection(
            DesktopRuntimeSelectionKind::Model,
            "n",
            &selection
        ))
        .0,
        "Model and profile selection is available only while idle."
    );
    assert_eq!(
        decide_tool_authorization(true, "a".into(), "o".into()),
        CommandGate::Ignore
    );
    assert_eq!(request_session_catalog(true), CommandGate::Ignore);
    assert_eq!(
        recovery_call(DesktopRecoveryAction::Abort),
        RecoveryCall::ResolveAborted
    );
}

#[test]
fn sessions_open_only_while_there_is_room() {
    let gate = SessionGateFacts {
        open_sessions: 8,
        session_limit: 8,
        operation_active: false,
        draft_submitted: false,
        switch_pending: false,
    };
    assert_eq!(
        refused(create_session(gate)),
        (
            "Up to 8 sessions can stay open; close one first.".into(),
            vec![UiRegion::Sessions],
            false
        )
    );
    assert_eq!(
        open_session("s".into(), true, &None, gate),
        CommandGate::Reserve(DesktopCommandIntent::OpenSession {
            session_id: "s".into()
        })
    );
    assert_eq!(
        refused(open_session("s".into(), true, &Some("s".into()), gate)).0,
        "The requested session is already active."
    );
    assert_eq!(
        refused(close_session("s".into(), false)).0,
        "Cannot close an unavailable session."
    );
    assert_eq!(
        switch_next_session(Some("b".into()), &Some("a".into())),
        SwitchStep::Open("b".into())
    );
    assert!(matches!(
        switch_next_session(None, &None),
        SwitchStep::Refuse(_)
    ));
}

#[test]
fn answers_settle_each_command_in_its_own_words() {
    let admitted = settle(
        &DesktopCommandIntent::OpenSession {
            session_id: "session".into(),
        },
        "",
        RuntimeAnswer::Admitted,
    );
    assert_eq!(admitted.notice.as_deref(), Some("Opening session session…"));
    assert!(!admitted.complete);
    let stopped = settle(&DesktopCommandIntent::Prompt, "", RuntimeAnswer::Stopped);
    assert_eq!(
        stopped.rejection.as_deref(),
        Some("desktop runtime is stopped")
    );
    assert_eq!(stopped.notice, None);
    assert!(stopped.complete);
    let closed = settle(
        &DesktopCommandIntent::CloseSession {
            session_id: "s".into(),
        },
        "",
        RuntimeAnswer::Stopped,
    );
    assert_eq!(
        closed.notice.as_deref(),
        Some("desktop runtime is unavailable")
    );
    assert!(!closed.notify);
    let recovered = settle(
        &DesktopCommandIntent::Recovery {
            recovery_id: "r".into(),
            action: DesktopRecoveryAction::Retry,
        },
        "retry",
        RuntimeAnswer::Admitted,
    );
    assert_eq!(
        recovered.notice.as_deref(),
        Some("Submitting recovery retry…")
    );
    let listed = settle(
        &DesktopCommandIntent::ListSessions,
        "",
        RuntimeAnswer::Rejected("busy".into()),
    );
    assert_eq!(listed.refresh, [UiRegion::Toast, UiRegion::Sessions]);
    assert!(
        reservation_refused(&DesktopCommandIntent::Reload, "full".into())
            .refresh
            .contains(&UiRegion::Toast)
    );
    assert!(draft_refused("empty".into()).complete);
}

fn change(path: &str) -> FileReviewRequest {
    FileReviewRequest {
        operation_id: "op".into(),
        tool_call_id: None,
        path: path.into(),
    }
}

#[test]
fn reviews_walk_through_the_changes() {
    let changes = vec![change("a"), change("b")];
    assert_eq!(
        review_next_file(true, &changes, &None),
        ReviewNextStep::Request(0)
    );
    assert_eq!(
        review_next_file(true, &changes, &Some(change("a"))),
        ReviewNextStep::Request(1)
    );
    assert_eq!(
        review_next_file(true, &changes, &Some(change("b"))),
        ReviewNextStep::Request(0)
    );
    assert!(matches!(
        review_next_file(true, &Vec::new(), &None),
        ReviewNextStep::Refuse(_)
    ));
    assert_eq!(
        refused(request_file_review(true, change("a"))).0,
        "Another file review is already pending."
    );
    assert_eq!(
        session_required(&DesktopCommandIntent::FileReview {
            request: change("a")
        })
        .notice
        .as_deref(),
        Some("File review requires an open session.")
    );
    assert_eq!(
        refused(open_review_in_external_editor(true, true, None)).0,
        "This review has no external-editor target."
    );
    assert_eq!(
        copy_review_path(Some(ClipboardExport {
            text: "a".into(),
            truncated: true
        })),
        CopyStep::Write {
            text: Some("a".into()),
            feedback: ClipboardFeedback::Notice(
                "Bounded changed-file path copied (truncated).".into()
            ),
        }
    );
    assert!(matches!(copy_file_review(None), CopyStep::Refuse(_)));
}

#[test]
fn attachments_are_kept_once() {
    let attached = vec!["a".to_owned()];
    let candidate =
        candidate_attachments(&attached, &vec!["b".into(), "a".into(), "b".into()]);
    assert_eq!(candidate, ["a", "b"]);
    assert_eq!(
        add_composer_attachments(Some(&attached), candidate, Ok(())),
        AttachmentStep::Attached(vec!["a".into(), "b".into()])
    );
    assert_eq!(
        add_composer_attachments(Some(&attached), vec!["a".into()], Ok(())),
        AttachmentStep::Unchanged
    );
    assert_eq!(
        add_composer_attachments(Some(&attached), vec![], Err("too many".into())),
        AttachmentStep::Rejected("too many".into())
    );
    assert_eq!(
        add_composer_attachments(None, vec!["a".into()], Ok(())),
        AttachmentStep::Unchanged
    );
    assert_eq!(
        add_composer_attachments(None, vec![], Err("too many".into())),
        AttachmentStep::Unchanged
    );
    let mut attached = attached;
    assert!(!remove_composer_attachment(&mut attached, 1));
    assert!(remove_composer_attachment(&mut attached, 0));
    assert!(attached.is_empty());
    assert_eq!(choose_composer_attachments(None), PickerStep::Pick);
}

#[test]
fn thinking_levels_cycle_through_what_is_offered() {
    let levels = vec![DesktopThinkingLevel::Default, DesktopThinkingLevel::High];
    assert_eq!(
        cycle_thinking_selection(&levels, DesktopThinkingLevel::Default),
        Some(DesktopThinkingLevel::High)
    );
    assert_eq!(
        cycle_thinking_selection(&levels, DesktopThinkingLevel::High),
        Some(DesktopThinkingLevel::Default)
    );
    assert_eq!(
        cycle_thinking_selection(&levels, DesktopThinkingLevel::Low),
        Some(DesktopThinkingLevel::Default)
    );
    assert_eq!(
        cycle_thinking_selection(&Vec::new(), DesktopThinkingLevel::Low),
        None
    );
    assert_eq!(
        select_thinking_level(
            &levels,
            DesktopThinkingLevel::Default,
            DesktopThinkingLevel::High,
            false,
            "high"
        ),
        ThinkingStep::Select {
            level: DesktopThinkingLevel::High,
            hint: None,
            remember: false,
            reply: CommandReply {
                notice: Some("The next session will use thinking high.".into()),
                complete: false,
                rejection: None,
                refresh: vec![
                    UiRegion::Toast,
                    UiRegion::ConversationHeader,
                    UiRegion::Inspector
                ],
                notify: true,
            },
        }
    );
    assert_eq!(
        select_thinking_level(
            &levels,
            DesktopThinkingLevel::Default,
            DesktopThinkingLevel::Low,
            true,
            "low"
        ),
        ThinkingStep::Ignore
    );
    assert_eq!(
        reconcile_thinking_selection(DesktopThinkingLevel::Default, false, true),
        ThinkingFallback::Keep
    );
}

#[test]
fn the_first_authoritative_recovery_is_acted_on() {
    let listed = |pending, authoritative, name: Option<&str>| ListedRecovery {
        pending,
        authoritative,
        identity: name.map(|name| RecoveryIdentity {
            recovery_id: name.into(),
        }),
    };
    assert_eq!(
        submit_latest_recovery(&vec![
            listed(false, true, Some("a")),
            listed(true, true, Some("b")),
            listed(true, true, Some("c")),
        ]),
        LatestRecoveryStep::Submit(RecoveryIdentity {
            recovery_id: "b".into()
        })
    );
    assert!(matches!(
        submit_latest_recovery(&vec![listed(true, true, None), listed(true, true, Some("c"))]),
        LatestRecoveryStep::Refuse(_)
    ));
}

#[test]
fn platform_work_reports_its_outcome() {
    assert_eq!(
        picker_options(DesktopPickerKind::ProjectDirectory).prompt,
        "Choose a project directory"
    );
    assert_eq!(
        picker_outcome(DesktopPickerKind::Attachments, PickerAnswer::Broken),
        PlatformOutcome::Failed("The file picker could not be opened.".into())
    );
    assert_eq!(
        picker_outcome(DesktopPickerKind::Attachments, PickerAnswer::Dismissed),
        PlatformOutcome::Cancelled
    );
    assert_eq!(
        preference_outcome(PreferenceWrite::Superseded),
        PlatformOutcome::Cancelled
    );
    assert_eq!(
        preference_outcome(PreferenceWrite::NoWriter),
        PlatformOutcome::Failed("Desktop preference writer is unavailable.".into())
    );
    assert_eq!(
        resync_outcome(false, None),
        PlatformOutcome::Failed("desktop runtime is stopped".into())
    );
    assert_eq!(
        complete_external_editor_launch(true, "src/a.rs", None).as_deref(),
        Some("Opened src/a.rs in the configured editor.")
    );
    assert_eq!(complete_external_editor_launch(false, "src/a.rs", None), None);
    assert_eq!(updates_of_frame(true, 1_000), MAX_RUNTIME_UPDATES_PER_FRAME);
    assert_eq!(updates_of_frame(false, 5), 0);
}

#[test]
fn the_project_of_a_draft_is_set_and_cleared_while_editable() {
    let mut selection = WorkspaceSelection::Projectless("scratch".into());
    assert!(!set_project_directory(&mut selection, "/new".into(), false));
    assert_eq!(selection, WorkspaceSelection::Projectless("scratch".into()));
    assert!(set_project_directory(&mut selection, "/new".into(), true));
    assert_eq!(selection, WorkspaceSelection::Project("/new".into()));
    assert_eq!(
        clear_project_directory(&mut selection, "scratch".into(), false),
        None
    );
    assert_eq!(selection, WorkspaceSelection::Project("/new".into()));
    assert_eq!(
        clear_project_directory(&mut selection, "scratch".into(), true),
        Some(UiRegion::Composer)
    );
    assert_eq!(selection, WorkspaceSelection::Projectless("scratch".into()));
    assert_eq!(choose_project_directory(false), None);
    assert_eq!(
        choose_project_directory(true),
        Some(DesktopPickerKind::ProjectDirectory)
    );
}

#[test]
fn a_failed_resync_gives_its_reservation_back() {
    assert_eq!(complete_resync_admission(None), None);
    let reply = complete_resync_admission(Some("queue is full".into())).unwrap();
    assert_eq!(reply.notice.as_deref(), Some("queue is full"));
    assert!(reply.complete);
    assert!(reply.refresh.is_empty());
    assert!(!reply.notify);
}

#[test]
fn rows_that_were_not_laid_out_call_for_the_window() {
    let mut changes = UiChangeSet::one(UiRegion::Toast);
    apply_runtime_poll(&mut changes, true, true);
    apply_runtime_poll(&mut changes, false, false);
    assert!(!changes.contains(UiRegion::Root));
    apply_runtime_poll(&mut changes, true, false);
    assert!(changes.contains(UiRegion::Root));
    assert!(changes.contains(UiRegion::Toast));
}
