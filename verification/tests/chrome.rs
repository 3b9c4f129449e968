use desktop::actions::DesktopPaletteCommand;
use desktop::clock::{inspector_telemetry_refresh_delay, Moment, Span};
use desktop::composer_pane::{
    composer_input_step, composer_view, ComposerFacts, ComposerInputEvent, ComposerInputStep,
    ComposerRunningMode,
};
use desktop::controls::{
    DesktopControlSize, DesktopCriticalButton, DesktopCriticalTone, DesktopIcon, DesktopIconButton,
    DesktopRowState,
};
use desktop::conversation_header::{
    conversation_header_view, selector_menu, thinking_menu, ConversationHeaderSelectorOption,
    DesktopThinkingLevel, HeaderFacts, HeaderPlace,
};
use desktop::home::{status_bar_text, HomeHeroLayout};
use desktop::inspector_pane::{
    inspector_details, inspector_frame, inspector_tabs, recovery_button, ChangesFacts,
    DesktopRecoveryAction, DesktopReviewLineKind, FileReviewPanel, InspectorChangedFile,
    InspectorFacts, InspectorItem, InspectorSection, LineTone, RecoveryFacts, ReviewDocument,
    ReviewLine, RuntimeFacts, TaskFacts, UsageFacts,
};
use desktop::overlay::{
    authorization_buttons, authorization_details, overlay_layers, palette_rows,
    AuthorizationRequestView, OverlayLayer, ToolAuthorizationDecision, ToolAuthorizationScope,
};
use desktop::theme::{
    DesignRadius, DesignSpace, DesignText, SemanticColor, SemanticStatus, SemanticTheme, StatusFace,
};

fn theme() -> SemanticTheme {
    let color = |rgb| SemanticColor { rgb };
    SemanticTheme {
        canvas: color(1),
        surface: color(2),
        elevated: color(3),
        border: color(4),
        divider: color(5),
        focus_ring: color(6),
        text: color(7),
        muted_text: color(8),
        subtle_text: color(9),
        accent: color(10),
        success: color(11),
        warning: color(12),
        danger: color(13),
    }
}

#[test]
fn inspector_telemetry_refresh_is_immediate_then_throttled() {
    let start = Moment { nanos: 1_000 };
    assert_eq!(
        inspector_telemetry_refresh_delay(None, start),
        Span { nanos: 0 }
    );
    assert_eq!(
        inspector_telemetry_refresh_delay(Some(start), start.plus(Span::from_millis(50))),
        Span::from_millis(200)
    );
    assert_eq!(
        inspector_telemetry_refresh_delay(Some(start), start.plus(Span::from_millis(250))),
        Span { nanos: 0 }
    );
}

#[test]
fn control_heights_are_a_fixed_ladder() {
    assert_eq!(DesktopControlSize::Tool.pixels(), 28);
    assert_eq!(DesktopControlSize::Compact.pixels(), 32);
    assert_eq!(DesktopControlSize::Standard.pixels(), 36);
    assert_eq!(DesktopControlSize::Critical.pixels(), 40);
}

#[test]
fn every_named_icon_resolves_to_a_bundled_asset() {
    for icon in [
        DesktopIcon::PanelLeftOpen,
        DesktopIcon::PanelLeftClose,
        DesktopIcon::PanelRightOpen,
        DesktopIcon::PanelRightClose,
        DesktopIcon::Overflow,
        DesktopIcon::ChevronDown,
        DesktopIcon::ChevronUp,
        DesktopIcon::SelectorCaret,
        DesktopIcon::Copy,
        DesktopIcon::Expand,
        DesktopIcon::OpenExternal,
        DesktopIcon::Search,
        DesktopIcon::Clear,
        DesktopIcon::Close,
        DesktopIcon::Plus,
        DesktopIcon::Submit,
        DesktopIcon::Busy,
        DesktopIcon::Warning,
    ] {
        assert!(!icon.name().is_empty());
    }
}

#[test]
fn critical_tones_are_visually_distinct_from_each_other() {
    let theme = theme();
    let neutral = DesktopCriticalTone::Neutral.color(theme).value();
    let affirmative = DesktopCriticalTone::Affirmative.color(theme).value();
    let dangerous = DesktopCriticalTone::Dangerous.color(theme).value();
    assert_ne!(neutral, affirmative);
    assert_ne!(neutral, dangerous);
    assert_ne!(affirmative, dangerous);
}

#[test]
fn critical_text_actions_share_one_fixed_height() {
    let neutral = DesktopCriticalButton::new(
        "neutral",
        "Allow once",
        "Allow this operation once",
        DesktopCriticalTone::Neutral,
    );
    let dangerous = DesktopCriticalButton::new(
        "dangerous",
        "Deny",
        "Deny this operation",
        DesktopCriticalTone::Dangerous,
    )
    .disabled(true);
    assert_eq!(DesktopControlSize::Critical.pixels(), 40);
    assert_eq!(neutral.tone, DesktopCriticalTone::Neutral);
    assert_eq!(dangerous.tone, DesktopCriticalTone::Dangerous);
    assert!(!neutral.disabled);
    assert!(dangerous.disabled);
}

#[test]
fn busy_icon_button_keeps_its_box_and_stops_accepting_input() {
    let resting = DesktopIconButton::new("probe", DesktopIcon::Submit, "Send message")
        .size(DesktopControlSize::Standard);
    let busy = DesktopIconButton::new("probe", DesktopIcon::Submit, "Send message")
        .size(DesktopControlSize::Standard)
        .busy(true);
    assert_eq!(resting.size.pixels(), busy.size.pixels());
    assert_eq!(resting.icon, busy.icon);
    assert!(busy.busy);
    assert!(!resting.busy);
}

#[test]
fn row_state_defaults_to_resting_and_is_independently_settable() {
    let resting = DesktopRowState::default();
    assert!(!resting.selected);
    assert!(!resting.disabled);
    assert!(!resting.focus_visible);

    let focused_selection = DesktopRowState {
        selected: true,
        disabled: false,
        focus_visible: true,
    };
    assert!(focused_selection.selected);
    assert!(focused_selection.focus_visible);
}

#[test]
fn adapter_values_are_exactly_backed_by_public_design_tokens() {
    assert_eq!(DesignSpace::Xs.pixels(), 4);
    assert_eq!(DesignSpace::Sm.pixels(), 8);
    assert_eq!(DesignSpace::Md.pixels(), 12);
    assert_eq!(DesignSpace::Lg.pixels(), 16);
    assert_eq!(DesignSpace::Xl.pixels(), 24);
    assert_eq!(DesignRadius::Sm.pixels(), 4);
    assert_eq!(DesignRadius::Md.pixels(), 6);
    assert_eq!(DesignRadius::Lg.pixels(), 8);
    assert_eq!(DesignText::Metadata.metrics(), (12, 16));
    assert_eq!(DesignText::Body.metrics(), (14, 21));
    assert_eq!(DesignText::Title.metrics(), (16, 24));
}

#[test]
fn hero_layout_uses_all_contract_wordmark_sizes() {
    assert_eq!(HomeHeroLayout::resolve(1_300, 900).wordmark_width, 360);
    assert_eq!(HomeHeroLayout::resolve(900, 800).wordmark_width, 320);
    assert_eq!(HomeHeroLayout::resolve(700, 800).wordmark_width, 280);
}

#[test]
fn short_height_compacts_the_hero_without_growing_the_wordmark() {
    let regular = HomeHeroLayout::resolve(1_300, 900);
    let short = HomeHeroLayout::resolve(1_300, 480);
    assert_eq!(short.wordmark_width, 280);
    assert!(short.minimum_height < regular.minimum_height);
    assert_eq!(short.vertical_padding, DesignSpace::Sm);
    assert_eq!(short.headline_gap, DesignSpace::Md);
    assert_eq!(short.description_gap, DesignSpace::Sm);
}

#[test]
fn status_bar_counts_changed_files() {
    let face = StatusFace {
        status: SemanticStatus::Idle,
        label: "Idle",
        glyph: "○",
    };
    assert_eq!(status_bar_text(face, 1, false).changed_files, "1 changed file");
    assert_eq!(
        status_bar_text(face, 12, true).changed_files,
        "12 changed files"
    );
}

fn facts(section: InspectorSection) -> InspectorFacts {
    InspectorFacts {
        selected_section: section,
        changes: ChangesFacts {
            change_count: 3,
            files: vec![InspectorChangedFile {
                label: "src/a.rs".into(),
            }],
            review: FileReviewPanel::Ready(ReviewDocument {
                display_path: "src/a.rs".into(),
                mutation_kind: "edit".into(),
                total_bytes: 120,
                total_lines: 8,
                using_diff: true,
                source_truncated: false,
                rows_truncated: true,
            }),
            rows: vec![ReviewLine {
                kind: DesktopReviewLineKind::Added,
                text: "let a = 1;".into(),
            }],
            composer_running: false,
            awaiting_prompt_start: false,
            file_review_pending: true,
            external_editor_pending: false,
            external_editor_configured: false,
        },
        task: TaskFacts {
            task_state: "running".into(),
            active_operation: "op".into(),
            operation_count: 7,
            delegation_count: 12_345,
            selected_model: "model".into(),
            profile: "default".into(),
            thinking: "high".into(),
        },
        usage: UsageFacts {
            input: "1".into(),
            output: "2".into(),
            cache_read: "3".into(),
            cache_write: "4".into(),
            tokens: "5".into(),
            context: "6".into(),
            cost: "7".into(),
        },
        runtime: RuntimeFacts {
            task_state: "idle".into(),
            reduced_motion: true,
            stream_id: "s".into(),
            sequence: "9".into(),
            generation: "1".into(),
            model_count: 3,
            profile_count: 2,
            skill_count: 1,
            prompt_count: 0,
            context_count: 0,
            recovery_pending: true,
            latest_recovery: Some(RecoveryFacts {
                status: "pending".into(),
                recovery_id: "r".into(),
                operation_id: "o".into(),
                attempt_count: "2".into(),
                detail: "d".into(),
                actionable: true,
            }),
            latest_diagnostic: None,
            latest_config_diagnostic: None,
            latest_issue: Some("E1".into()),
            cwd: "/work".into(),
        },
    }
}

fn lines(items: &[InspectorItem]) -> Vec<String> {
    items
        .iter()
        .map(|item| match item {
            InspectorItem::Line { text, .. } => text.clone(),
            other => format!("{other:?}"),
        })
        .collect()
}

#[test]
fn inspector_shows_the_changes_and_their_review() {
    let items = inspector_details(&facts(InspectorSection::Changes), theme());
    assert_eq!(
        items[..2],
        [
            InspectorItem::Line {
                tone: LineTone::Section,
                text: "CHANGES".into()
            },
            InspectorItem::Line {
                tone: LineTone::Body,
                text: "changed files 3".into()
            },
        ]
    );
    assert_eq!(
        items[2],
        InspectorItem::ChangedFile {
            index: 0,
            label: "src/a.rs".into(),
            disabled: true
        }
    );
    let shown = lines(&items);
    assert_eq!(shown[3], "+ 2 more change(s) omitted");
    assert_eq!(shown[4], "REVIEW");
    assert_eq!(shown[6], "edit · 120 bytes · 8 lines · unified diff");
    assert_eq!(shown[7], "Preview bounded at desktop safety limits.");
    assert_eq!(
        items[8],
        InspectorItem::ReviewActions {
            editor_disabled: true
        }
    );
    assert_eq!(
        items[9],
        InspectorItem::ReviewRow {
            index: 0,
            marker: "+",
            color: theme().success,
            text: "let a = 1;".into()
        }
    );
    assert_eq!(items.len(), 10);
}

#[test]
fn inspector_pads_its_counts() {
    let shown = lines(&inspector_details(&facts(InspectorSection::Task), theme()));
    assert_eq!(shown[3], "operations     7");
    assert_eq!(shown[4], "delegations 12345");
    let usage = lines(&inspector_details(&facts(InspectorSection::Usage), theme()));
    assert_eq!(usage[7], "cost        7");
}

#[test]
fn inspector_offers_the_pending_recovery() {
    let items = inspector_details(&facts(InspectorSection::Runtime), theme());
    assert!(items.contains(&InspectorItem::RecoveryActions { disabled: true }));
    let shown = lines(&items);
    assert_eq!(shown[2], "motion reduced");
    assert_eq!(shown.last().unwrap(), "/work");
    assert!(shown.contains(&"code        E1".to_owned()));
    assert_eq!(
        recovery_button(DesktopRecoveryAction::MarkFailed, false).tooltip,
        "Resolve this recovery as failed"
    );
}

#[test]
fn inspector_tabs_mark_the_selected_section() {
    let tabs = inspector_tabs(InspectorSection::Usage);
    assert_eq!(
        tabs.iter().map(|tab| tab.label.as_str()).collect::<Vec<_>>(),
        ["○ Changes", "○ Task", "● Usage", "○ Runtime"]
    );
    assert_eq!(tabs[2].tooltip, "Show Usage details");
    let frame = inspector_frame(320, true, false, InspectorSection::Usage, 4, theme());
    assert_eq!(frame.label, "Task Inspector dialog");
    assert!(frame.close_button);
    assert_eq!(frame.details_label, "Usage Inspector details");
    assert_eq!(InspectorSection::default(), InspectorSection::Changes);
}

fn header(status: SemanticStatus, idle: bool, width: u32, center: u32) -> (Option<&'static str>, String, Option<&'static str>, u32) {
    let view = conversation_header_view(
        &HeaderFacts {
            idle,
            face: StatusFace {
                status,
                label: "Authorization required",
                glyph: "!",
            },
            composer_running: true,
            abort_pending: false,
            reload_pending: false,
            selector_disabled: false,
            model: "m".into(),
            profile: "p".into(),
            thinking: "t".into(),
            current_model_id: "model".into(),
            current_profile_id: "profile".into(),
            project_name: "repo".into(),
        },
        HeaderPlace {
            viewport_width: width,
            center_width: center,
            sessions_dockable: false,
            inspector_dockable: true,
            sessions_visible: true,
            context_visible: true,
            sessions_drawer_open: false,
            inspector_drawer_open: false,
            focus_shown: false,
        },
        theme(),
    );
    (
        view.status_label,
        view.model_label,
        view.title,
        view.status_slot_width,
    )
}

#[test]
fn header_shortens_with_its_room() {
    assert_eq!(
        header(SemanticStatus::Authorization, false, 899, 500),
        (Some("Auth"), "M · m".into(), None, 80)
    );
    assert_eq!(
        header(SemanticStatus::Authorization, false, 1_300, 900),
        (Some("Approval"), "Model · m".into(), Some("Current task"), 104)
    );
    assert_eq!(
        header(SemanticStatus::Idle, true, 900, 500),
        (None, "M · m".into(), Some("New task"), 104)
    );
}

#[test]
fn selectors_mark_the_option_in_force() {
    let options = (0..9)
        .map(|index| ConversationHeaderSelectorOption {
            id: format!("o{index}"),
            label: String::new(),
            selectable: index != 2,
        })
        .collect::<Vec<_>>();
    let (marks, scrollable) = selector_menu(&options, "o1");
    assert!(marks[1].checked && !marks[0].checked && marks[2].disabled);
    assert!(scrollable);
    let menu = thinking_menu(
        &vec![DesktopThinkingLevel::Default, DesktopThinkingLevel::XHigh],
        DesktopThinkingLevel::XHigh,
    );
    assert_eq!((menu[1].label, menu[1].checked), ("XHigh", true));
}

#[test]
fn composer_shows_a_rejection_before_what_it_waits_for() {
    let mut facts = ComposerFacts {
        composer_pending: true,
        composer_running: true,
        awaiting_prompt_start: false,
        authorization_pending: true,
        running_mode: ComposerRunningMode::QueueNext,
        thinking: "high".into(),
        rejection: None,
    };
    let view = composer_view(&facts, true, theme());
    assert_eq!(
        view.notice.as_deref(),
        Some("Authorization required · draft remains editable")
    );
    assert_eq!(view.submit_label, "Submit using Queue next");
    assert_eq!(view.panel_edge, theme().focus_ring);
    facts.rejection = Some("too long".into());
    let rejected = composer_view(&facts, false, theme());
    assert_eq!(rejected.notice.as_deref(), Some("too long"));
    assert_eq!(rejected.notice_color, theme().danger);
}

#[test]
fn only_the_secondary_enter_submits() {
    assert_eq!(
        composer_input_step(ComposerInputEvent::PressEnter { secondary: true }),
        ComposerInputStep::SubmitPrimary
    );
    assert_eq!(
        composer_input_step(ComposerInputEvent::PressEnter { secondary: false }),
        ComposerInputStep::Nothing
    );
}

#[test]
fn palette_rows_carry_their_shortcuts() {
    let rows = palette_rows(1, theme());
    assert_eq!(rows[0].command, DesktopPaletteCommand::NewSession);
    assert!(rows.iter().any(|row| row.label.contains("    ")));
    assert!(rows[1].selected && !rows[0].selected);
    assert_eq!(rows[1].edge, theme().focus_ring);
    assert_eq!(rows[0].position_in_set, 1);
}

#[test]
fn authorization_details_keep_their_order() {
    let details = authorization_details(&AuthorizationRequestView {
        operation_id: "op".into(),
        tool_name: "shell".into(),
        tool_call_id: "call".into(),
        risk: "ShellExecution".into(),
        scope: ToolAuthorizationScope::Shell {
            cwd: "/w".into(),
            command_fingerprint: "f".into(),
        },
        path: None,
        cwd: Some("/w".into()),
        command: Some("ls".into()),
        content_preview: None,
    });
    assert_eq!(
        details,
        [
            "operation  op",
            "tool       shell · call",
            "risk       ShellExecution",
            "scope      shell · /w · f",
            "cwd        /w",
            "command\nls",
        ]
    );
    let buttons = authorization_buttons(true);
    assert!(buttons.iter().all(|button| button.disabled));
    assert_eq!(
        buttons[0].decision,
        ToolAuthorizationDecision::Deny {
            reason: Some("denied from native desktop".into())
        }
    );
}

#[test]
fn authorization_lies_on_top() {
    assert_eq!(
        overlay_layers(true, false, true, false, true),
        [
            OverlayLayer::NarrowInspector,
            OverlayLayer::CommandPalette,
            OverlayLayer::Authorization
        ]
    );
}
