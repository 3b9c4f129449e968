//! How the desktop starts: its steps, its notices and its failures.
use crate::text::{decimal, decimal_text, join2, join3, optional_text, truncate_label, truncated};
use vstd::prelude::*;

verus! {

/// What was wrong with the stored preferences.
#[derive(Debug, Clone, Copy, PartialEq, Eq, Structural)]
pub enum PreferenceRecovery {
    CorruptJson,
    UnsupportedSchema { found: u64 },
    Oversized { bytes: u64 },
}

/// The notice on stored preferences that could not be used.
pub open spec fn recovery_notice(recovery: Option<PreferenceRecovery>) -> Option<Seq<char>> {
    match recovery {
        None => None,
        Some(PreferenceRecovery::CorruptJson) => Some(
            "Preferences were corrupt; bounded defaults are active."@,
        ),
        Some(PreferenceRecovery::UnsupportedSchema { found }) => Some(
            "Preference schema "@ + decimal(found as nat)
                + " is unsupported; bounded defaults are active."@,
        ),
        Some(PreferenceRecovery::Oversized { bytes }) => Some(
            "Preferences were oversized ("@ + decimal(bytes as nat)
                + " bytes); bounded defaults are active."@,
        ),
    }
}

pub fn preference_notice(recovery: Option<PreferenceRecovery>) -> (notice: Option<String>)
    ensures
        optional_text(notice) == recovery_notice(recovery),
{
    match recovery {
        None => None,
        Some(PreferenceRecovery::CorruptJson) => Some(
            "Preferences were corrupt; bounded defaults are active.".to_owned(),
        ),
        Some(PreferenceRecovery::UnsupportedSchema { found }) => Some(
            join3(
                "Preference schema ",
                decimal_text(found as u128).as_str(),
                " is unsupported; bounded defaults are active.",
            ),
        ),
        Some(PreferenceRecovery::Oversized { bytes }) => Some(
            join3(
                "Preferences were oversized (",
                decimal_text(bytes as u128).as_str(),
                " bytes); bounded defaults are active.",
            ),
        ),
    }
}

/// Why the runtime did not start.
#[derive(Debug, PartialEq, Eq)]
pub enum DesktopRuntimeStartError {
    Spawn(String),
    Initialization { code: String, message: String },
    InitializationChannelClosed,
    InitializationThreadPanicked,
}

/// What the user is told of a runtime that did not start.
pub open spec fn start_failure_words(error: DesktopRuntimeStartError) -> Seq<char> {
    match error {
        DesktopRuntimeStartError::Spawn(_) => "failed to start desktop runtime thread"@,
        DesktopRuntimeStartError::Initialization { code, .. } =>
            "desktop runtime initialization failed ("@ + truncated(code@, 28) + ")"@,
        DesktopRuntimeStartError::InitializationChannelClosed =>
            "desktop runtime initialization channel closed"@,
        DesktopRuntimeStartError::InitializationThreadPanicked =>
            "desktop runtime initialization thread panicked"@,
    }
}

pub fn startup_error_message(error: &DesktopRuntimeStartError) -> (message: String)
    ensures
        message@ == start_failure_words(*error),
{
    match error {
        DesktopRuntimeStartError::Spawn(_) => "failed to start desktop runtime thread".to_owned(),
        DesktopRuntimeStartError::Initialization { code, .. } => join3(
            "desktop runtime initialization failed (",
            truncate_label(code.as_str(), 28).as_str(),
            ")",
        ),
        DesktopRuntimeStartError::InitializationChannelClosed =>
            "desktop runtime initialization channel closed".to_owned(),
        DesktopRuntimeStartError::InitializationThreadPanicked =>
            "desktop runtime initialization thread panicked".to_owned(),
    }
}

/// What the user is told of a failed start does not depend on the body of the
/// error: two errors that differ only there read the same.
pub proof fn law_start_failures_do_not_expose_bodies(
    code: String,
    message: String,
    other: String,
)
    ensures
        start_failure_words(DesktopRuntimeStartError::Initialization { code, message })
            == start_failure_words(
            DesktopRuntimeStartError::Initialization { code, message: other },
        ),
        start_failure_words(DesktopRuntimeStartError::Spawn(message)) == start_failure_words(
            DesktopRuntimeStartError::Spawn(other),
        ),
{
}

/// The window as the preferences keep it.
#[derive(Debug, Clone, Copy, PartialEq, Eq, Structural)]
pub struct WindowGeometry {
    pub x: i32,
    pub y: i32,
    pub width: u32,
    pub height: u32,
    pub maximized: bool,
}

/// The window as it is asked for.
#[derive(Debug, Clone, Copy, PartialEq, Eq)]
pub struct WindowRequest {
    pub geometry: WindowGeometry,
    pub minimum_width: u32,
    pub minimum_height: u32,
    pub app_id: &'static str,
}

pub fn window_options(geometry: WindowGeometry) -> (request: WindowRequest)
    ensures
        request.geometry == geometry,
        request.minimum_width == 640,
        request.minimum_height == 480,
        request.app_id@ == "evo.desktop"@,
{
    WindowRequest { geometry, minimum_width: 640, minimum_height: 480, app_id: "evo.desktop" }
}

/// Where the start stands.
#[derive(Debug, Clone, Copy, PartialEq, Eq, Structural)]
pub enum StartupStage {
    LoadPreferences,
    ResolveScratch,
    InitializeWorkspace,
    SpawnWriter,
    SpawnRuntime,
    AwaitRuntime,
    OpenSession,
    ProjectSession,
    OpenWindow,
    Done,
}

/// The start of the desktop: where it stands, what it will tell, and what it was
/// asked for.
#[derive(Debug, PartialEq, Eq)]
pub struct Startup {
    pub stage: StartupStage,
    pub notice: Option<String>,
    pub projectless: bool,
    pub scratch_was_missing: bool,
    pub session_id: Option<String>,
    pub projected: bool,
}

/// What came of the step that a stage asks for.
#[derive(Debug, PartialEq, Eq)]
pub enum StartupEvent {
    PreferencesLoaded { recovery: Option<PreferenceRecovery>, scratch_missing: bool },
    /// The defaults are in force.
    PreferencesFailed { error: String, scratch_missing: bool },
    ScratchResolved,
    ScratchFailed { error: String },
    WorkspaceReady,
    WorkspaceFailed { error: String },
    WriterReady,
    WriterFailed { error: String },
    RuntimeSpawned,
    RuntimeReady,
    RuntimePending,
    RuntimeFailed { cause: DesktopRuntimeStartError },
    SessionOpened,
    SessionFailed { message: String },
    SessionProjected,
    ProjectionFailed { message: String },
    WindowOpened,
    WindowFailed { error: String },
}

/// What the start does next.
#[derive(Debug, PartialEq, Eq)]
pub enum StartupAction {
    ResolveScratch,
    InitializeWorkspace { projectless: bool },
    SpawnWriter,
    /// Spawns the runtime; before that it stores the scratch workspace that was
    /// just made, where there is someone to store it.
    SpawnRuntime { store_preferences: bool },
    PollRuntime,
    WaitAndPoll,
    OpenSession,
    ProjectSession,
    OpenWindow,
    RequestCatalog,
    /// Opens a window that shows the failure, and stops.
    ShowFailure { message: String },
    /// Writes a line of trace, and stops.
    Report { line: String },
}

/// An action by what it says.
pub ghost enum StartupActionView {
    ResolveScratch,
    InitializeWorkspace { projectless: bool },
    SpawnWriter,
    SpawnRuntime { store_preferences: bool },
    PollRuntime,
    WaitAndPoll,
    OpenSession,
    ProjectSession,
    OpenWindow,
    RequestCatalog,
    ShowFailure { message: Seq<char> },
    Report { line: Seq<char> },
}

impl View for StartupAction {
    type V = StartupActionView;

    open spec fn view(&self) -> StartupActionView {
        match *self {
            StartupAction::ResolveScratch => StartupActionView::ResolveScratch,
            StartupAction::InitializeWorkspace { projectless } =>
                StartupActionView::InitializeWorkspace { projectless },
            StartupAction::SpawnWriter => StartupActionView::SpawnWriter,
            StartupAction::SpawnRuntime { store_preferences } => StartupActionView::SpawnRuntime {
                store_preferences,
            },
            StartupAction::PollRuntime => StartupActionView::PollRuntime,
            StartupAction::WaitAndPoll => StartupActionView::WaitAndPoll,
            StartupAction::OpenSession => StartupActionView::OpenSession,
            StartupAction::ProjectSession => StartupActionView::ProjectSession,
            StartupAction::OpenWindow => StartupActionView::OpenWindow,
            StartupAction::RequestCatalog => StartupActionView::RequestCatalog,
            StartupAction::ShowFailure { message } => StartupActionView::ShowFailure {
                message: message@,
            },
            StartupAction::Report { line } => StartupActionView::Report { line: line@ },
        }
    }
}

/// A start by what it holds.
pub ghost struct StartupView {
    pub stage: StartupStage,
    pub notice: Option<Seq<char>>,
    pub projectless: bool,
    pub scratch_was_missing: bool,
    pub session_id: Option<Seq<char>>,
    pub projected: bool,
}

impl View for Startup {
    type V = StartupView;

    open spec fn view(&self) -> StartupView {
        StartupView {
            stage: self.stage,
            notice: optional_text(self.notice),
            projectless: self.projectless,
            scratch_was_missing: self.scratch_was_missing,
            session_id: optional_text(self.session_id),
            projected: self.projected,
        }
    }
}

/// Whether an event can come at a stage.
pub open spec fn fits(stage: StartupStage, event: StartupEvent) -> bool {
    match stage {
        StartupStage::LoadPreferences => event is PreferencesLoaded || event is PreferencesFailed,
        StartupStage::ResolveScratch => event is ScratchResolved || event is ScratchFailed,
        StartupStage::InitializeWorkspace => event is WorkspaceReady || event is WorkspaceFailed,
        StartupStage::SpawnWriter => event is WriterReady || event is WriterFailed,
        StartupStage::SpawnRuntime => event is RuntimeSpawned || event is RuntimeFailed,
        StartupStage::AwaitRuntime => event is RuntimeReady || event is RuntimePending
            || event is RuntimeFailed,
        StartupStage::OpenSession => event is SessionOpened || event is SessionFailed,
        StartupStage::ProjectSession => event is SessionProjected || event is ProjectionFailed,
        StartupStage::OpenWindow => event is WindowOpened || event is WindowFailed,
        StartupStage::Done => false,
    }
}

/// A start that has stopped with a failure on the screen.
pub open spec fn stopped(start: StartupView, message: Seq<char>) -> (StartupView, StartupActionView) {
    (
        StartupView { stage: StartupStage::Done, ..start },
        StartupActionView::ShowFailure { message },
    )
}

/// The start after an event, and what it does next.
pub open spec fn startup_after(start: StartupView, event: StartupEvent) -> (
    StartupView,
    StartupActionView,
) {
    match event {
        StartupEvent::PreferencesLoaded { recovery, scratch_missing } => (
            StartupView {
                stage: StartupStage::ResolveScratch,
                notice: recovery_notice(recovery),
                scratch_was_missing: scratch_missing,
                ..start
            },
            StartupActionView::ResolveScratch,
        ),
        StartupEvent::PreferencesFailed { error, scratch_missing } => (
            StartupView {
                stage: StartupStage::ResolveScratch,
                notice: Some("Preferences could not be loaded: "@ + error@),
                scratch_was_missing: scratch_missing,
                ..start
            },
            StartupActionView::ResolveScratch,
        ),
        StartupEvent::ScratchResolved => (
            StartupView { stage: StartupStage::InitializeWorkspace, ..start },
            StartupActionView::InitializeWorkspace { projectless: start.projectless },
        ),
        StartupEvent::ScratchFailed { error } => stopped(
            start,
            "scratch workspace initialization failed: "@ + error@,
        ),
        StartupEvent::WorkspaceReady => (
            StartupView { stage: StartupStage::SpawnWriter, ..start },
            StartupActionView::SpawnWriter,
        ),
        StartupEvent::WorkspaceFailed { error } => stopped(
            start,
            "workspace initialization failed: "@ + error@,
        ),
        StartupEvent::WriterReady => (
            StartupView { stage: StartupStage::SpawnRuntime, ..start },
            StartupActionView::SpawnRuntime { store_preferences: start.scratch_was_missing },
        ),
        StartupEvent::WriterFailed { error } => (
            StartupView {
                stage: StartupStage::SpawnRuntime,
                notice: Some("Preference writer unavailable: "@ + error@),
                ..start
            },
            StartupActionView::SpawnRuntime { store_preferences: false },
        ),
        StartupEvent::RuntimeSpawned => (
            StartupView { stage: StartupStage::AwaitRuntime, ..start },
            StartupActionView::PollRuntime,
        ),
        StartupEvent::RuntimePending => (start, StartupActionView::WaitAndPoll),
        StartupEvent::RuntimeFailed { cause } => stopped(start, start_failure_words(cause)),
        StartupEvent::RuntimeReady => if start.session_id is Some {
            (
                StartupView { stage: StartupStage::OpenSession, ..start },
                StartupActionView::OpenSession,
            )
        } else {
            (
                StartupView { stage: StartupStage::OpenWindow, ..start },
                StartupActionView::OpenWindow,
            )
        },
        StartupEvent::SessionOpened => (
            StartupView { stage: StartupStage::ProjectSession, ..start },
            StartupActionView::ProjectSession,
        ),
        StartupEvent::SessionFailed { message } => (
            StartupView { stage: StartupStage::OpenWindow, notice: Some(message@), ..start },
            StartupActionView::OpenWindow,
        ),
        StartupEvent::SessionProjected => (
            StartupView { stage: StartupStage::OpenWindow, projected: true, ..start },
            StartupActionView::OpenWindow,
        ),
        StartupEvent::ProjectionFailed { message } => stopped(
            start,
            "projection initialization failed: "@ + message@,
        ),
        StartupEvent::WindowOpened => (
            StartupView { stage: StartupStage::Done, ..start },
            StartupActionView::RequestCatalog,
        ),
        StartupEvent::WindowFailed { error } => (
            StartupView { stage: StartupStage::Done, ..start },
            StartupActionView::Report {
                line: "desktop: failed to open native window: "@ + error@,
            },
        ),
    }
}

impl Startup {
    pub fn new(projectless: bool, session_id: Option<String>) -> (start: Self)
        ensures
            start@ == (StartupView {
                stage: StartupStage::LoadPreferences,
                notice: None,
                projectless,
                scratch_was_missing: false,
                session_id: optional_text(session_id),
                projected: false,
            }),
            start.session_id == session_id,
    {
        Startup {
            stage: StartupStage::LoadPreferences,
            notice: None,
            projectless,
            scratch_was_missing: false,
            session_id,
            projected: false,
        }
    }

    fn fail(&mut self, message: String) -> (action: StartupAction)
        ensures
            (final(self)@, action@) == stopped(old(self)@, message@),
            final(self).session_id == old(self).session_id,
    {
        self.stage = StartupStage::Done;
        StartupAction::ShowFailure { message }
    }

    /// Takes what came of a step, and says what is done next.
    pub fn advance(&mut self, event: StartupEvent) -> (action: StartupAction)
        requires
            fits(old(self).stage, event),
        ensures
            (final(self)@, action@) == startup_after(old(self)@, event),
            final(self).session_id == old(self).session_id,
    {
        match event {
            StartupEvent::PreferencesLoaded { recovery, scratch_missing } => {
                self.stage = StartupStage::ResolveScratch;
                self.notice = preference_notice(recovery);
                self.scratch_was_missing = scratch_missing;
                StartupAction::ResolveScratch
            },
            StartupEvent::PreferencesFailed { error, scratch_missing } => {
                self.stage = StartupStage::ResolveScratch;
                self.notice = Some(join2("Preferences could not be loaded: ", error.as_str()));
                self.scratch_was_missing = scratch_missing;
                StartupAction::ResolveScratch
            },
            StartupEvent::ScratchResolved => {
                self.stage = StartupStage::InitializeWorkspace;
                StartupAction::InitializeWorkspace { projectless: self.projectless }
            },
            StartupEvent::ScratchFailed { error } => self.fail(
                join2("scratch workspace initialization failed: ", error.as_str()),
            ),
            StartupEvent::WorkspaceReady => {
                self.stage = StartupStage::SpawnWriter;
                StartupAction::SpawnWriter
            },
            StartupEvent::WorkspaceFailed { error } => self.fail(
                join2("workspace initialization failed: ", error.as_str()),
            ),
            StartupEvent::WriterReady => {
                self.stage = StartupStage::SpawnRuntime;
                StartupAction::SpawnRuntime { store_preferences: self.scratch_was_missing }
            },
            StartupEvent::WriterFailed { error } => {
                self.stage = StartupStage::SpawnRuntime;
                self.notice = Some(join2("Preference writer unavailable: ", error.as_str()));
                StartupAction::SpawnRuntime { store_preferences: false }
            },
            StartupEvent::RuntimeSpawned => {
                self.stage = StartupStage::AwaitRuntime;
                StartupAction::PollRuntime
            },
            StartupEvent::RuntimePending => StartupAction::WaitAndPoll,
            StartupEvent::RuntimeFailed { cause } => self.fail(startup_error_message(&cause)),
            StartupEvent::RuntimeReady => if self.session_id.is_some() {
                self.stage = StartupStage::OpenSession;
                StartupAction::OpenSession
            } else {
                self.stage = StartupStage::OpenWindow;
                StartupAction::OpenWindow
            },
            StartupEvent::SessionOpened => {
                self.stage = StartupStage::ProjectSession;
                StartupAction::ProjectSession
            },
            StartupEvent::SessionFailed { message } => {
                self.stage = StartupStage::OpenWindow;
                self.notice = Some(message);
                StartupAction::OpenWindow
            },
            StartupEvent::SessionProjected => {
                self.stage = StartupStage::OpenWindow;
                self.projected = true;
                StartupAction::OpenWindow
            },
            StartupEvent::ProjectionFailed { message } => self.fail(
                join2("projection initialization failed: ", message.as_str()),
            ),
            StartupEvent::WindowOpened => {
                self.stage = StartupStage::Done;
                StartupAction::RequestCatalog
            },
            StartupEvent::WindowFailed { error } => {
                self.stage = StartupStage::Done;
                StartupAction::Report {
                    line: join2("desktop: failed to open native window: ", error.as_str()),
                }
            },
        }
    }
}

/// How far a stage is from the end.
pub open spec fn steps_left(stage: StartupStage) -> nat {
    match stage {
        StartupStage::LoadPreferences => 9,
        StartupStage::ResolveScratch => 8,
        StartupStage::InitializeWorkspace => 7,
        StartupStage::SpawnWriter => 6,
        StartupStage::SpawnRuntime => 5,
        StartupStage::AwaitRuntime => 4,
        StartupStage::OpenSession => 3,
        StartupStage::ProjectSession => 2,
        StartupStage::OpenWindow => 1,
        StartupStage::Done => 0,
    }
}

/// Every event brings the start nearer to its end, except for a runtime that is
/// not ready yet.
pub proof fn law_startup_moves_on(start: StartupView, event: StartupEvent)
    requires
        fits(start.stage, event),
        !(event is RuntimePending),
    ensures
        steps_left(startup_after(start, event).0.stage) < steps_left(start.stage),
{
}

/// A session that could not be opened does not keep the window from opening:
/// the desktop starts at home and says why.
pub proof fn law_failed_session_opens_home(start: StartupView, message: String)
    ensures
        startup_after(start, StartupEvent::SessionFailed { message }).1
            == StartupActionView::OpenWindow,
        startup_after(start, StartupEvent::SessionFailed { message }).0.notice == Some(message@),
        startup_after(start, StartupEvent::SessionFailed { message }).0.projected
            == start.projected,
{
}

/// A failed start says what failed and why, and is over; a window that cannot open is
/// reported, for there is nowhere to show it.
pub proof fn law_failed_starts_say_what_failed(start: StartupView, error: String)
    ensures
        startup_after(start, StartupEvent::ScratchFailed { error }).1
            == (StartupActionView::ShowFailure {
            message: "scratch workspace initialization failed: "@ + error@,
        }),
        startup_after(start, StartupEvent::WorkspaceFailed { error }).1
            == (StartupActionView::ShowFailure {
            message: "workspace initialization failed: "@ + error@,
        }),
        startup_after(start, StartupEvent::ProjectionFailed { message: error }).1
            == (StartupActionView::ShowFailure {
            message: "projection initialization failed: "@ + error@,
        }),
        startup_after(start, StartupEvent::WindowFailed { error }).1 == (StartupActionView::Report {
            line: "desktop: failed to open native window: "@ + error@,
        }),
        startup_after(start, StartupEvent::ScratchFailed { error }).0.stage is Done,
        startup_after(start, StartupEvent::WorkspaceFailed { error }).0.stage is Done,
        startup_after(start, StartupEvent::ProjectionFailed { message: error }).0.stage is Done,
        startup_after(start, StartupEvent::WindowFailed { error }).0.stage is Done,
{
}

/// A runtime that does not start is told by the kind of its failure.
pub proof fn law_runtime_failures_are_told_by_kind(
    start: StartupView,
    cause: DesktopRuntimeStartError,
)
    ensures
        ({
            let after = startup_after(start, StartupEvent::RuntimeFailed { cause });
            &&& after.0.stage is Done
            &&& after.1 == (StartupActionView::ShowFailure { message: start_failure_words(cause) })
            &&& cause is Spawn ==> start_failure_words(cause)
                == "failed to start desktop runtime thread"@
            &&& cause is InitializationChannelClosed ==> start_failure_words(cause)
                == "desktop runtime initialization channel closed"@
            &&& cause is InitializationThreadPanicked ==> start_failure_words(cause)
                == "desktop runtime initialization thread panicked"@
            &&& cause matches DesktopRuntimeStartError::Initialization { code, .. } ==> (
            code@.len() <= 28 ==> start_failure_words(cause)
                == "desktop runtime initialization failed ("@ + code@ + ")"@)
        }),
{
}

/// A start goes on step by step: each success leads to the next step, a runtime that is
/// not ready is asked again, and the catalog is asked for once the window is open.
pub proof fn law_starts_go_step_by_step(start: StartupView)
    ensures
        startup_after(start, StartupEvent::ScratchResolved) == (
            StartupView { stage: StartupStage::InitializeWorkspace, ..start },
            StartupActionView::InitializeWorkspace { projectless: start.projectless },
        ),
        startup_after(start, StartupEvent::WorkspaceReady) == (
            StartupView { stage: StartupStage::SpawnWriter, ..start },
            StartupActionView::SpawnWriter,
        ),
        startup_after(start, StartupEvent::RuntimeSpawned) == (
            StartupView { stage: StartupStage::AwaitRuntime, ..start },
            StartupActionView::PollRuntime,
        ),
        startup_after(start, StartupEvent::RuntimePending) == (
            start,
            StartupActionView::WaitAndPoll,
        ),
        startup_after(start, StartupEvent::SessionOpened) == (
            StartupView { stage: StartupStage::ProjectSession, ..start },
            StartupActionView::ProjectSession,
        ),
        startup_after(start, StartupEvent::WindowOpened) == (
            StartupView { stage: StartupStage::Done, ..start },
            StartupActionView::RequestCatalog,
        ),
{
}

/// A session is opened exactly where one was asked for; a window opens without one, and
/// with the reason where it could not be opened. Only a projected session shows.
pub proof fn law_starts_open_the_session_that_was_asked_for(start: StartupView, message: String)
    ensures
        startup_after(start, StartupEvent::RuntimeReady).1 is OpenSession <==> start.session_id
            is Some,
        startup_after(start, StartupEvent::RuntimeReady).1 is OpenWindow <==> start.session_id
            is None,
        startup_after(start, StartupEvent::SessionFailed { message }) == (
            StartupView { stage: StartupStage::OpenWindow, notice: Some(message@), ..start },
            StartupActionView::OpenWindow,
        ),
        startup_after(start, StartupEvent::SessionProjected) == (
            StartupView { stage: StartupStage::OpenWindow, projected: true, ..start },
            StartupActionView::OpenWindow,
        ),
{
}

/// Preferences are stored at the start only where they named no scratch workspace and
/// can be written. What was wrong with them is told.
pub proof fn law_starts_mend_the_preferences(
    start: StartupView,
    recovery: Option<PreferenceRecovery>,
    scratch_missing: bool,
    error: String,
)
    ensures
        startup_after(start, StartupEvent::WriterReady).1 == (StartupActionView::SpawnRuntime {
            store_preferences: start.scratch_was_missing,
        }),
        startup_after(start, StartupEvent::WriterFailed { error }).1
            == (StartupActionView::SpawnRuntime { store_preferences: false }),
        startup_after(start, StartupEvent::WriterFailed { error }).0.notice == Some(
            "Preference writer unavailable: "@ + error@,
        ),
        startup_after(start, StartupEvent::WriterReady).0.notice == start.notice,
        startup_after(
            start,
            StartupEvent::PreferencesLoaded { recovery, scratch_missing },
        ).0.scratch_was_missing == scratch_missing,
        startup_after(
            start,
            StartupEvent::PreferencesLoaded { recovery, scratch_missing },
        ).0.notice is Some <==> recovery is Some,
        startup_after(
            start,
            StartupEvent::PreferencesFailed { error, scratch_missing },
        ).0.notice == Some("Preferences could not be loaded: "@ + error@),
        startup_after(
            start,
            StartupEvent::PreferencesFailed { error, scratch_missing },
        ).0.scratch_was_missing == scratch_missing,
{
}

/// What was wrong with the preferences is told with the number that was found.
pub proof fn law_preference_trouble_is_told()
    ensures
        recovery_notice(None) is None,
        recovery_notice(Some(PreferenceRecovery::CorruptJson)) == Some(
            "Preferences were corrupt; bounded defaults are active."@,
        ),
        forall|recovery: PreferenceRecovery|
            recovery matches PreferenceRecovery::UnsupportedSchema { found } ==> #[trigger]
            recovery_notice(Some(recovery)) == Some(
                "Preference schema "@ + decimal(found as nat)
                    + " is unsupported; bounded defaults are active."@,
            ),
        forall|recovery: PreferenceRecovery|
            recovery matches PreferenceRecovery::Oversized { bytes } ==> #[trigger] recovery_notice(
                Some(recovery),
            ) == Some(
                "Preferences were oversized ("@ + decimal(bytes as nat)
                    + " bytes); bounded defaults are active."@,
            ),
{
}

/// A stage waits for the outcome of its own step, and a finished start for nothing.
pub proof fn law_stages_wait_for_their_own_outcome(stage: StartupStage, event: StartupEvent)
    ensures
        fits(stage, event) <==> match event {
            StartupEvent::PreferencesLoaded { .. } => stage is LoadPreferences,
            StartupEvent::PreferencesFailed { .. } => stage is LoadPreferences,
            StartupEvent::ScratchResolved => stage is ResolveScratch,
            StartupEvent::ScratchFailed { .. } => stage is ResolveScratch,
            StartupEvent::WorkspaceReady => stage is InitializeWorkspace,
            StartupEvent::WorkspaceFailed { .. } => stage is InitializeWorkspace,
            StartupEvent::WriterReady => stage is SpawnWriter,
            StartupEvent::WriterFailed { .. } => stage is SpawnWriter,
            StartupEvent::RuntimeSpawned => stage is SpawnRuntime,
            StartupEvent::RuntimePending => stage is AwaitRuntime,
            StartupEvent::RuntimeReady => stage is AwaitRuntime,
            StartupEvent::RuntimeFailed { .. } => stage is SpawnRuntime || stage is AwaitRuntime,
            StartupEvent::SessionOpened => stage is OpenSession,
            StartupEvent::SessionFailed { .. } => stage is OpenSession,
            StartupEvent::SessionProjected => stage is ProjectSession,
            StartupEvent::ProjectionFailed { .. } => stage is ProjectSession,
            StartupEvent::WindowOpened => stage is OpenWindow,
            StartupEvent::WindowFailed { .. } => stage is OpenWindow,
        },
{
}

} // verus!
