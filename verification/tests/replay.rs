use desktop::change_set::UiRegion;
use desktop::clock::Moment;
use desktop::conversation::ConversationBlockKind;
use desktop::conversation_header::DesktopThinkingLevel;
use desktop::replay_fixture::{
    hydrated_snapshot, install_native_visual_non_reasoning_fixture, performance_projection,
    visual_projection, ProfileName, ProfileSource, ReplayTranscript, TranscriptItem, VisualEvent,
};
use desktop::replay_frames::{percentile, ClickStep, ClickToPhoton, NativeFrameReplay};
use desktop::replay_plan::{
    open_replay, open_requested, NativeVisualCatalogFixture, NativeVisualDrawerFixture, ReplayPlan,
    ReplayStart,
};
use desktop::replay_spec::{
    flag_enabled, request_from_values, request_with_brand, BrandMode, NativeReplayRequest,
    VisualReplayLayout, VisualReplaySpec, VisualReplayState,
};
use desktop::startup::{
    preference_notice, startup_error_message, window_options, DesktopRuntimeStartError,
    PreferenceRecovery, Startup, StartupAction, StartupEvent, WindowGeometry,
};

fn review_profile() -> ProfileName {
    ProfileName {
        id: "review".into(),
        display_name: "Review".into(),
    }
}

const MAX_TRANSCRIPT_BLOCKS: usize = 512;
const SAMPLE_FRAMES: usize = 200;
const INPUT_SAMPLE_FRAMES: usize = 50;

#[test]
fn startup_errors_do_not_expose_secret_bodies() {
    const SECRET: &str = "desktop-secret-canary";
    let startup = startup_error_message(&DesktopRuntimeStartError::Initialization {
        code: "provider_initialization".into(),
        message: format!("provider token={SECRET}"),
    });
    assert!(!startup.contains(SECRET));
    assert!(startup.contains("provider_initialization"));
}

#[test]
fn startup_reports_what_went_wrong() {
    assert_eq!(
        preference_notice(Some(PreferenceRecovery::Oversized { bytes: 70_000 })).as_deref(),
        Some("Preferences were oversized (70000 bytes); bounded defaults are active.")
    );
    assert_eq!(
        preference_notice(Some(PreferenceRecovery::UnsupportedSchema { found: 9 })).as_deref(),
        Some("Preference schema 9 is unsupported; bounded defaults are active.")
    );
    assert_eq!(preference_notice(None), None);
    assert_eq!(
        startup_error_message(&DesktopRuntimeStartError::InitializationChannelClosed),
        "desktop runtime initialization channel closed"
    );
}

#[test]
fn startup_walks_to_the_window() {
    let mut start = Startup::new(true, Some("session".into()));
    assert_eq!(
        start.advance(StartupEvent::PreferencesLoaded {
            recovery: None,
            scratch_missing: true
        }),
        StartupAction::ResolveScratch
    );
    assert_eq!(
        start.advance(StartupEvent::ScratchResolved),
        StartupAction::InitializeWorkspace { projectless: true }
    );
    assert_eq!(
        start.advance(StartupEvent::WorkspaceReady),
        StartupAction::SpawnWriter
    );
    assert_eq!(
        start.advance(StartupEvent::WriterReady),
        StartupAction::SpawnRuntime {
            store_preferences: true
        }
    );
    assert_eq!(
        start.advance(StartupEvent::RuntimeSpawned),
        StartupAction::PollRuntime
    );
    assert_eq!(
        start.advance(StartupEvent::RuntimePending),
        StartupAction::WaitAndPoll
    );
    assert_eq!(
        start.advance(StartupEvent::RuntimeReady),
        StartupAction::OpenSession
    );
    assert_eq!(
        start.advance(StartupEvent::SessionFailed {
            message: "gone".into()
        }),
        StartupAction::OpenWindow
    );
    assert_eq!(start.notice.as_deref(), Some("gone"));
    assert!(!start.projected);
    assert_eq!(
        start.advance(StartupEvent::WindowOpened),
        StartupAction::RequestCatalog
    );
}

#[test]
fn startup_stops_where_no_workspace_can_be_had() {
    let mut start = Startup::new(false, None);
    start.advance(StartupEvent::PreferencesFailed {
        error: "io".into(),
        scratch_missing: true,
    });
    assert_eq!(
        start.notice.as_deref(),
        Some("Preferences could not be loaded: io")
    );
    assert_eq!(
        start.advance(StartupEvent::ScratchFailed {
            error: "denied".into()
        }),
        StartupAction::ShowFailure {
            message: "scratch workspace initialization failed: denied".into()
        }
    );
    let geometry = WindowGeometry {
        x: -10,
        y: 5,
        width: 1_000,
        height: 700,
        maximized: true,
    };
    let window = window_options(geometry);
    assert_eq!(window.geometry, geometry);
    assert_eq!((window.minimum_width, window.minimum_height), (640, 480));
}

#[test]
fn native_replay_fixture_is_deterministic_and_full_scale() {
    let snapshot = performance_projection(MAX_TRANSCRIPT_BLOCKS, review_profile());
    let projection = snapshot.transcript;
    assert_eq!(projection.items.len(), MAX_TRANSCRIPT_BLOCKS);
    assert_eq!(projection.session_id, "desktop-native-performance");
    assert_eq!(
        snapshot.session.session.session_id,
        "desktop-native-performance"
    );
    let payload = "native frame replay 中文 🙂 ".repeat(8);
    assert_eq!(
        projection.items[41],
        TranscriptItem::User {
            text: format!("message 41: {payload}")
        }
    );
}

#[test]
fn native_replay_percentile_uses_nearest_rank() {
    let mut samples = (1..=200).rev().collect::<Vec<u128>>();
    assert_eq!(percentile(&mut samples, 95), 190);
    assert_eq!(percentile(&mut samples, 99), 198);
}

#[test]
fn percentiles_round_their_rank_up() {
    let mut samples = vec![30, 10, 20];
    assert_eq!(percentile(&mut samples, 1), 10);
    assert_eq!(percentile(&mut samples, 33), 10);
    assert_eq!(percentile(&mut samples, 34), 20);
    assert_eq!(percentile(&mut samples, 67), 30);
    assert_eq!(percentile(&mut samples, 100), 30);
    assert_eq!(samples, vec![10, 20, 30]);
    let mut samples: Vec<u128> = (1..=100).rev().collect();
    assert_eq!(percentile(&mut samples, 50), 50);
    assert_eq!(percentile(&mut samples, 100), 100);
    let mut samples = vec![7];
    assert_eq!(percentile(&mut samples, 1), 7);
}

#[test]
fn native_replay_pairs_input_with_the_next_post_render_callback() {
    let mut replay = NativeFrameReplay::new(None);
    for callback in 0..300u64 {
        let now = Moment {
            nanos: callback * 8_000_000,
        };
        replay.observe_frame_callback(now);
        if replay.should_dispatch_input() {
            replay.mark_input_dispatched(now);
        }
        if replay.complete() {
            break;
        }
    }

    assert!(replay.complete());
    assert_eq!(replay.cadence_samples.len(), SAMPLE_FRAMES);
    assert_eq!(replay.input_dispatches, INPUT_SAMPLE_FRAMES);
    assert_eq!(
        replay.input_post_render_samples,
        vec![8_000; INPUT_SAMPLE_FRAMES]
    );
    let report = replay.report(Some(9));
    assert!(!report.resident_supported);
    assert!(report
        .line("linux")
        .starts_with("desktop_perf\tplatform=linux\tnative_presented_frames=200\tnative_frame_cadence_p95_us=8000\t"));
}

#[test]
fn native_replay_request_parser_rejects_conflicts_and_unknown_layouts() {
    assert_eq!(
        request_from_values(false, false, Some("medium")),
        Ok(Some(NativeReplayRequest::Visual(VisualReplaySpec {
            layout: VisualReplayLayout::Medium,
            state: VisualReplayState::Standard,
        })))
    );
    assert_eq!(
        request_from_values(false, true, None),
        Ok(Some(NativeReplayRequest::ClickToPhoton))
    );
    assert!(request_from_values(true, false, Some("wide")).is_err());
    assert!(request_from_values(true, true, None).is_err());
    assert!(request_from_values(false, true, Some("wide")).is_err());
    assert!(request_from_values(false, false, Some("compact")).is_err());
    assert_eq!(
        request_from_values(false, false, Some("wide-authorization")),
        Ok(Some(NativeReplayRequest::Visual(VisualReplaySpec {
            layout: VisualReplayLayout::Wide,
            state: VisualReplayState::Authorization,
        })))
    );
    assert_eq!(
        request_from_values(false, false, Some("narrow-idle")),
        Ok(Some(NativeReplayRequest::Visual(VisualReplaySpec {
            layout: VisualReplayLayout::Narrow,
            state: VisualReplayState::Idle,
        })))
    );
}

#[test]
fn brands_are_asked_for_alone() {
    assert_eq!(
        request_with_brand(false, false, None, Some(Ok(BrandMode { id: 2 }))),
        Ok(Some(NativeReplayRequest::Brand(BrandMode { id: 2 })))
    );
    assert!(request_with_brand(true, false, None, Some(Ok(BrandMode { id: 2 }))).is_err());
    assert_eq!(
        request_with_brand(false, false, None, Some(Err("unknown".into()))),
        Err("unknown".into())
    );
    assert!(flag_enabled("TRUE") && flag_enabled("1") && !flag_enabled("yes"));
}

#[test]
fn visual_replay_layouts_have_stable_viewports() {
    assert_eq!(VisualReplayLayout::Wide.viewport(), (1_300, 900));
    assert_eq!(VisualReplayLayout::Medium.viewport(), (900, 800));
    assert_eq!(VisualReplayLayout::Narrow.viewport(), (700, 800));
    assert_eq!(
        visual_projection(VisualReplayState::Standard, review_profile())
            .snapshot
            .transcript
            .items
            .len(),
        5
    );
    let standard = visual_projection(VisualReplayState::Standard, review_profile());
    let blocks = &standard.snapshot.transcript.items;
    assert!(blocks
        .iter()
        .any(|block| block.block_kind() == ConversationBlockKind::User));
    assert!(blocks.iter().any(|block| matches!(
        block,
        TranscriptItem::Assistant { thinking, .. } if !thinking.is_empty()
    )));
    assert!(blocks.iter().any(|block| matches!(
        block,
        TranscriptItem::Tool { result: Some(_), is_error: false, .. }
    )));
    assert!(blocks
        .iter()
        .any(|block| matches!(block, TranscriptItem::Tool { is_error: true, .. })));
    assert!(blocks
        .iter()
        .any(|block| block.block_kind() == ConversationBlockKind::Diagnostic));
    let running = |events: &[desktop::replay_fixture::VisualProductEvent]| {
        events
            .iter()
            .filter(|event| matches!(event.event, VisualEvent::ToolStarted { .. }))
            .count()
    };
    assert_eq!(running(&standard.events), 1);
    let projection = visual_projection(VisualReplayState::Authorization, review_profile());
    assert_eq!(running(&projection.events), 1);
    let session = &projection.snapshot.session;
    assert_eq!(session.changes.len(), 2);
    assert_eq!(session.pending_authorizations.len(), 1);
    assert!(standard.snapshot.session.pending_authorizations.is_empty());
}

#[test]
fn replay_keys_read_back() {
    for state in [
        VisualReplayState::Standard,
        VisualReplayState::ThinkingNonReasoning,
        VisualReplayState::CatalogEmpty,
    ] {
        let spec = VisualReplaySpec {
            layout: VisualReplayLayout::Narrow,
            state,
        };
        assert_eq!(VisualReplaySpec::parse(&spec.key()), Ok(spec));
    }
}

fn scene(state: VisualReplayState) -> desktop::replay_plan::ReplayScene {
    let spec = VisualReplaySpec {
        layout: VisualReplayLayout::Medium,
        state,
    };
    match open_replay(NativeReplayRequest::Visual(spec), "") {
        ReplayPlan::Scene(scene) => scene,
        other => panic!("unexpected plan {other:?}"),
    }
}

#[test]
fn visual_replays_set_their_scene() {
    let standard = scene(VisualReplayState::Standard);
    assert_eq!(standard.window.title, "evo-desktop-visual-medium");
    assert_eq!((standard.window.width, standard.window.height), (900, 800));
    assert_eq!(standard.drawer, Some(NativeVisualDrawerFixture::Sessions));
    assert_eq!(standard.catalog, Some(NativeVisualCatalogFixture::Ready));
    assert!(standard.selects_row && standard.notice.is_some());
    assert_eq!(standard.global_skills.len(), 1);
    assert_eq!(standard.global_skills[0].command, "/review-plan");
    assert!(standard.global_skills[0].model_invocable);
    let menu = scene(VisualReplayState::ModelMenu);
    assert_eq!(menu.click, Some((610, 821)));
    assert!(menu.at_home && menu.drawer.is_none());
    assert_eq!(scene(VisualReplayState::KeyboardFocus).keystroke, Some("tab"));
    assert!(scene(VisualReplayState::CatalogLoading).reduced_motion);
    assert_eq!(
        scene(VisualReplayState::HomeProject).home_project,
        Some("/workspace/evo")
    );
    match open_replay(NativeReplayRequest::Brand(BrandMode { id: 0 }), "dark") {
        ReplayPlan::Brand(window) => assert_eq!(window.title, "evo-brand-visual-dark"),
        other => panic!("unexpected plan {other:?}"),
    }
    assert_eq!(
        open_requested(Err("conflict".into())),
        ReplayStart::Quit {
            line: "desktop: native replay configuration failed: conflict".into()
        }
    );
    assert_eq!(open_requested(Ok(None)), ReplayStart::Ordinary);
}

#[test]
fn the_non_reasoning_fixture_selects_one_model() {
    let mut snapshot = performance_projection(0, review_profile());
    let (level, refresh) = install_native_visual_non_reasoning_fixture(&mut snapshot.project);
    assert_eq!(level, DesktopThinkingLevel::High);
    assert_eq!(refresh, [UiRegion::ConversationHeader, UiRegion::Composer]);
    assert_eq!(snapshot.project.selected_model_id, "review-fixture");
    let selected: Vec<bool> = snapshot
        .project
        .models
        .iter()
        .map(|model| model.selected)
        .collect();
    assert_eq!(selected, [false, true, false]);
}

#[test]
fn a_snapshot_goes_by_the_session_it_was_asked_for() {
    let snapshot = hydrated_snapshot(
        "alpha".into(),
        ReplayTranscript {
            session_id: "beta".into(),
            items: Vec::new(),
        },
        review_profile(),
    );
    assert_eq!(snapshot.session.session.session_id, "alpha");
    assert_eq!(snapshot.transcript.session_id, "beta");
    assert!(snapshot.transcript.items.is_empty());
    assert_eq!(snapshot.session.active_operation, None);
    let models = &snapshot.project.models;
    let selected: Vec<bool> = models.iter().map(|model| model.selected).collect();
    assert_eq!(selected, [true, false, false]);
    assert_eq!(models[0].id, snapshot.project.selected_model_id);
    assert_eq!(models[0].id, "performance-fixture");
    assert_eq!(models[0].thinking_capability.explicit_levels.len(), 5);
    assert!(models[0].thinking_capability.can_disable);
    assert!(!models[1].thinking_capability.supported);
    assert_eq!(models[2].id, "image-fixture");
    let profiles = &snapshot.project.profiles;
    assert_eq!(profiles.len(), 2);
    assert_eq!(profiles[0].name.id, "default");
    assert_eq!(profiles[0].source, ProfileSource::BuiltIn);
    assert_eq!(profiles[1].name, review_profile());
    assert_eq!(profiles[1].model_id, Some("review-fixture"));
}

#[test]
fn click_to_photon_flips_on_fresh_spaces() {
    let mut click = ClickToPhoton {
        bright: false,
        samples: 0,
    };
    assert_eq!(click.on_key_down("space", true), ClickStep::Ignore);
    assert_eq!(click.on_key_down("space", false), ClickStep::Sample);
    assert_eq!((click.bright, click.samples), (true, 1));
    assert_eq!(click.background(), 0xffffff);
    assert_eq!(click.on_key_down("escape", false), ClickStep::Quit);
}
