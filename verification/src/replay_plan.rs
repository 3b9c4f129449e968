//! What a replay opens: its window, its fixture and its input.
use crate::change_set::UiRegion;
use crate::replay_spec::{NativeReplayRequest, VisualReplaySpec, VisualReplayState};
use crate::text::join2;
use vstd::prelude::*;

verus! {

/// A window of fixed geometry.
#[derive(Debug, PartialEq, Eq)]
pub struct ReplayWindow {
    pub x: u32,
    pub y: u32,
    pub width: u32,
    pub height: u32,
    pub minimum_width: u32,
    pub minimum_height: u32,
    pub app_id: &'static str,
    pub title: String,
}

impl ReplayWindow {
    /// Whether the window has this size, least size, identity and title. All
    /// of them stand at the same place.
    pub open spec fn stands(
        self,
        size: (u32, u32),
        minimum: (u32, u32),
        app_id: Seq<char>,
        title: Seq<char>,
    ) -> bool {
        &&& self.x == 40
        &&& self.y == 40
        &&& (self.width, self.height) == size
        &&& (self.minimum_width, self.minimum_height) == minimum
        &&& self.app_id@ == app_id
        &&& self.title@ == title
    }
}

fn replay_window(
    size: (u32, u32),
    minimum: (u32, u32),
    app_id: &'static str,
    title: String,
) -> (window: ReplayWindow)
    ensures
        window.stands(size, minimum, app_id@, title@),
{
    ReplayWindow {
        x: 40,
        y: 40,
        width: size.0,
        height: size.1,
        minimum_width: minimum.0,
        minimum_height: minimum.1,
        app_id,
        title,
    }
}

/// The state of the session catalog that a visual replay shows.
#[derive(Debug, Clone, Copy, PartialEq, Eq, Structural)]
pub enum NativeVisualCatalogFixture {
    NotLoaded,
    Loading,
    Ready,
    Error,
    Empty,
}

/// The drawer that a visual replay opens.
#[derive(Debug, Clone, Copy, PartialEq, Eq, Structural)]
pub enum NativeVisualDrawerFixture {
    Sessions,
    Inspector,
}

/// A skill that is installed for every project.
#[derive(Debug, Clone, Copy, PartialEq, Eq)]
pub struct GlobalSkill {
    pub name: &'static str,
    pub command: &'static str,
    pub description: &'static str,
    pub model_invocable: bool,
}

/// Whether these are the skills of the replays: one, which models can invoke.
pub open spec fn are_replay_skills(skills: Seq<GlobalSkill>) -> bool {
    &&& skills.len() == 1
    &&& skills[0].name@ == "review-plan"@
    &&& skills[0].command@ == "/review-plan"@
    &&& skills[0].description@ == "Review an implementation plan before coding."@
    &&& skills[0].model_invocable
}

fn replay_skills() -> (skills: Vec<GlobalSkill>)
    ensures
        are_replay_skills(skills@),
{
    vec![
        GlobalSkill {
            name: "review-plan",
            command: "/review-plan",
            description: "Review an implementation plan before coding.",
            model_invocable: true,
        },
    ]
}

/// What a replay of the window sets up.
#[derive(Debug, PartialEq, Eq)]
pub struct ReplayScene {
    pub window: ReplayWindow,
    pub visual: Option<VisualReplayState>,
    pub measures_frames: bool,
    pub at_home: bool,
    pub reduced_motion: bool,
    pub notice: Option<&'static str>,
    pub selects_row: bool,
    pub keystroke: Option<&'static str>,
    pub click: Option<(u32, u32)>,
    pub catalog: Option<NativeVisualCatalogFixture>,
    pub drawer: Option<NativeVisualDrawerFixture>,
    pub non_reasoning: bool,
    pub home_project: Option<&'static str>,
    pub global_skills: Vec<GlobalSkill>,
}

/// What a replay opens.
#[derive(Debug, PartialEq, Eq)]
pub enum ReplayPlan {
    ClickToPhoton(ReplayWindow),
    Brand(ReplayWindow),
    Scene(ReplayScene),
}

/// The catalog of a visual state.
pub open spec fn catalog_of(state: VisualReplayState) -> NativeVisualCatalogFixture {
    match state {
        VisualReplayState::Standard => NativeVisualCatalogFixture::Ready,
        VisualReplayState::Authorization => NativeVisualCatalogFixture::Ready,
        VisualReplayState::ReducedMotion => NativeVisualCatalogFixture::Ready,
        VisualReplayState::KeyboardFocus => NativeVisualCatalogFixture::Ready,
        VisualReplayState::InspectorDrawer => NativeVisualCatalogFixture::Ready,
        VisualReplayState::CatalogLoading => NativeVisualCatalogFixture::Loading,
        VisualReplayState::CatalogError => NativeVisualCatalogFixture::Error,
        VisualReplayState::CatalogEmpty => NativeVisualCatalogFixture::Empty,
        _ => NativeVisualCatalogFixture::NotLoaded,
    }
}

/// The drawer of a visual state: those with a session have one open.
pub open spec fn drawer_of(state: VisualReplayState) -> Option<NativeVisualDrawerFixture> {
    match state {
        VisualReplayState::InspectorDrawer => Some(NativeVisualDrawerFixture::Inspector),
        VisualReplayState::Standard => Some(NativeVisualDrawerFixture::Sessions),
        VisualReplayState::Authorization => Some(NativeVisualDrawerFixture::Sessions),
        VisualReplayState::ReducedMotion => Some(NativeVisualDrawerFixture::Sessions),
        VisualReplayState::KeyboardFocus => Some(NativeVisualDrawerFixture::Sessions),
        _ => None,
    }
}

/// The project that a visual state has chosen at home.
pub open spec fn home_project_of(state: VisualReplayState) -> Option<Seq<char>> {
    match state {
        VisualReplayState::HomeProject => Some("/workspace/evo"@),
        VisualReplayState::HomeLongProject => Some(
            "/workspace/clients/acme/platform/apps/desktop/a-very-long-multi-project-workspace-name"@,
        ),
        _ => None,
    }
}

/// Where a visual state clicks.
pub open spec fn click_of(state: VisualReplayState) -> Option<(u32, u32)> {
    match state {
        VisualReplayState::ModelMenu => Some((610, 821)),
        VisualReplayState::ThinkingMenu => Some((700, 821)),
        _ => None,
    }
}

/// A text that may be missing, as its characters.
pub open spec fn optional_words(text: Option<&'static str>) -> Option<Seq<char>> {
    match text {
        Some(text) => Some(text@),
        None => None,
    }
}

/// Whether a scene is that of a visual replay.
pub open spec fn is_visual_scene(scene: ReplayScene, spec: VisualReplaySpec) -> bool {
    let state = spec.state;
    &&& scene.window.stands(
        spec.layout.spec_viewport(),
        (640, 480),
        "evo.desktop.native-perf"@,
        "evo-desktop-visual-"@ + spec.spec_key(),
    )
    &&& scene.visual == Some(state)
    &&& !scene.measures_frames
    &&& scene.at_home == state.spec_uses_home()
    &&& scene.reduced_motion == (state is ReducedMotion || state is CatalogLoading)
    &&& optional_words(scene.notice) == (if state is Standard {
        Some("Desktop notification paths now appear as transient toasts."@)
    } else {
        None
    })
    &&& scene.selects_row == (state is Standard || state is ReducedMotion || state is KeyboardFocus)
    &&& optional_words(scene.keystroke) == (if state is KeyboardFocus {
        Some("tab"@)
    } else {
        None
    })
    &&& scene.click == click_of(state)
    &&& scene.catalog == Some(catalog_of(state))
    &&& scene.drawer == drawer_of(state)
    &&& scene.non_reasoning == (state is ThinkingNonReasoning)
    &&& optional_words(scene.home_project) == home_project_of(state)
    &&& are_replay_skills(scene.global_skills@)
}

fn visual_scene(spec: VisualReplaySpec) -> (scene: ReplayScene)
    ensures
        is_visual_scene(scene, spec),
{
    let state = spec.state;
    let window = replay_window(
        spec.layout.viewport(),
        (640, 480),
        "evo.desktop.native-perf",
        join2("evo-desktop-visual-", spec.key().as_str()),
    );
    let catalog = match state {
        VisualReplayState::Standard
        | VisualReplayState::Authorization
        | VisualReplayState::ReducedMotion
        | VisualReplayState::KeyboardFocus
        | VisualReplayState::InspectorDrawer => NativeVisualCatalogFixture::Ready,
        VisualReplayState::CatalogLoading => NativeVisualCatalogFixture::Loading,
        VisualReplayState::CatalogError => NativeVisualCatalogFixture::Error,
        VisualReplayState::CatalogEmpty => NativeVisualCatalogFixture::Empty,
        _ => NativeVisualCatalogFixture::NotLoaded,
    };
    let drawer = match state {
        VisualReplayState::InspectorDrawer => Some(NativeVisualDrawerFixture::Inspector),
        VisualReplayState::Standard
        | VisualReplayState::Authorization
        | VisualReplayState::ReducedMotion
        | VisualReplayState::KeyboardFocus => Some(NativeVisualDrawerFixture::Sessions),
        _ => None,
    };
    let home_project = match state {
        VisualReplayState::HomeProject => Some("/workspace/evo"),
        VisualReplayState::HomeLongProject => Some(
            "/workspace/clients/acme/platform/apps/desktop/a-very-long-multi-project-workspace-name",
        ),
        _ => None,
    };
    ReplayScene {
        window,
        visual: Some(state),
        measures_frames: false,
        at_home: state.uses_home(),
        reduced_motion: state == VisualReplayState::ReducedMotion || state
            == VisualReplayState::CatalogLoading,
        notice: if state == VisualReplayState::Standard {
            Some("Desktop notification paths now appear as transient toasts.")
        } else {
            None
        },
        selects_row: state == VisualReplayState::Standard || state
            == VisualReplayState::ReducedMotion || state == VisualReplayState::KeyboardFocus,
        keystroke: if state == VisualReplayState::KeyboardFocus {
            Some("tab")
        } else {
            None
        },
        click: match state {
            VisualReplayState::ModelMenu => Some((610, 821)),
            VisualReplayState::ThinkingMenu => Some((700, 821)),
            _ => None,
        },
        catalog: Some(catalog),
        drawer,
        non_reasoning: state == VisualReplayState::ThinkingNonReasoning,
        home_project,
        global_skills: replay_skills(),
    }
}

/// Whether a scene is that of the performance replay: a session at full scale,
/// with nothing but frames and input.
pub open spec fn is_performance_scene(scene: ReplayScene) -> bool {
    &&& scene.window.stands(
        (1_300, 900),
        (640, 480),
        "evo.desktop.native-perf"@,
        "evo · native performance replay"@,
    )
    &&& scene.visual is None
    &&& scene.measures_frames
    &&& !scene.at_home
    &&& !scene.reduced_motion
    &&& scene.notice is None
    &&& !scene.selects_row
    &&& scene.keystroke is None
    &&& scene.click is None
    &&& scene.catalog is None
    &&& scene.drawer is None
    &&& !scene.non_reasoning
    &&& scene.home_project is None
    &&& are_replay_skills(scene.global_skills@)
}

/// Works out what a replay opens. The key names the brand fixture.
pub fn open_replay(request: NativeReplayRequest, brand_key: &str) -> (plan: ReplayPlan)
    ensures
        match request {
            NativeReplayRequest::ClickToPhoton => plan is ClickToPhoton
                && plan->ClickToPhoton_0.stands(
                (1_000, 700),
                (640, 480),
                "evo.desktop.click-to-photon"@,
                "evo · click-to-photon measurement · Space toggles · Esc exits"@,
            ),
            NativeReplayRequest::Brand(_) => plan is Brand && plan->Brand_0.stands(
                (900, 700),
                (900, 700),
                "evo.desktop.brand-fixture"@,
                "evo-brand-visual-"@ + brand_key@,
            ),
            NativeReplayRequest::Performance => plan is Scene && is_performance_scene(
                plan->Scene_0,
            ),
            NativeReplayRequest::Visual(spec) => plan is Scene && is_visual_scene(
                plan->Scene_0,
                spec,
            ),
        },
{
    match request {
        NativeReplayRequest::ClickToPhoton => ReplayPlan::ClickToPhoton(
            replay_window(
                (1_000, 700),
                (640, 480),
                "evo.desktop.click-to-photon",
                "evo · click-to-photon measurement · Space toggles · Esc exits".to_owned(),
            ),
        ),
        NativeReplayRequest::Brand(_) => ReplayPlan::Brand(
            replay_window(
                (900, 700),
                (900, 700),
                "evo.desktop.brand-fixture",
                join2("evo-brand-visual-", brand_key),
            ),
        ),
        NativeReplayRequest::Performance => ReplayPlan::Scene(
            ReplayScene {
                window: replay_window(
                    (1_300, 900),
                    (640, 480),
                    "evo.desktop.native-perf",
                    "evo · native performance replay".to_owned(),
                ),
                visual: None,
                measures_frames: true,
                at_home: false,
                reduced_motion: false,
                notice: None,
                selects_row: false,
                keystroke: None,
                click: None,
                catalog: None,
                drawer: None,
                non_reasoning: false,
                home_project: None,
                global_skills: replay_skills(),
            },
        ),
        NativeReplayRequest::Visual(spec) => ReplayPlan::Scene(visual_scene(spec)),
    }
}

/// A visual replay at home shows neither a drawer nor a row: both belong to a
/// session.
pub proof fn law_home_replays_show_no_session(scene: ReplayScene, spec: VisualReplaySpec)
    requires
        is_visual_scene(scene, spec),
        scene.at_home,
    ensures
        scene.drawer is None,
        !scene.selects_row,
        !(scene.catalog == Some(NativeVisualCatalogFixture::Ready)),
{
}

/// What a drawer fixture refreshes, one region after the other.
pub fn drawer_fixture_refresh() -> (refresh: Vec<UiRegion>)
    ensures
        refresh@ == seq![
            UiRegion::Sessions,
            UiRegion::Inspector,
            UiRegion::ConversationHeader,
            UiRegion::Drawer,
        ],
{
    let refresh: Vec<UiRegion> = vec![
        UiRegion::Sessions,
        UiRegion::Inspector,
        UiRegion::ConversationHeader,
        UiRegion::Drawer,
    ];
    assert(refresh@ =~= seq![
        UiRegion::Sessions,
        UiRegion::Inspector,
        UiRegion::ConversationHeader,
        UiRegion::Drawer,
    ]);
    refresh
}

/// How the request for a replay goes on.
#[derive(Debug, PartialEq, Eq)]
pub enum ReplayStart {
    /// There is none: the desktop starts as usual.
    Ordinary,
    Open(NativeReplayRequest),
    /// Writes the line and quits.
    Quit { line: String },
}

/// Decides on the request for a replay.
pub fn open_requested(request: Result<Option<NativeReplayRequest>, String>) -> (start: ReplayStart)
    ensures
        match request {
            Ok(None) => start is Ordinary,
            Ok(Some(request)) => start == ReplayStart::Open(request),
            Err(error) => start is Quit && start->line@
                == "desktop: native replay configuration failed: "@ + error@,
        },
{
    match request {
        Ok(None) => ReplayStart::Ordinary,
        Ok(Some(request)) => ReplayStart::Open(request),
        Err(error) => ReplayStart::Quit {
            line: join2("desktop: native replay configuration failed: ", error.as_str()),
        },
    }
}

/// The line for a replay that could not be opened.
pub fn replay_failure(error: &str) -> (line: String)
    ensures
        line@ == "desktop: native replay failed: "@ + error@,
{
    join2("desktop: native replay failed: ", error)
}

/// A visual replay shows what its state is about, and only that.
pub proof fn law_visual_replays_show_their_state(scene: ReplayScene, spec: VisualReplaySpec)
    requires
        is_visual_scene(scene, spec),
    ensures
        scene.visual == Some(spec.state),
        !scene.measures_frames,
        scene.at_home == spec.state.spec_uses_home(),
        scene.reduced_motion <==> spec.state is ReducedMotion || spec.state is CatalogLoading,
        scene.selects_row <==> spec.state is Standard || spec.state is ReducedMotion
            || spec.state is KeyboardFocus,
        scene.keystroke is Some <==> spec.state is KeyboardFocus,
        scene.keystroke is Some ==> scene.keystroke->0@ == "tab"@,
        scene.notice is Some <==> spec.state is Standard,
        scene.notice is Some ==> scene.notice->0@
            == "Desktop notification paths now appear as transient toasts."@,
        scene.non_reasoning <==> spec.state is ThinkingNonReasoning,
        (scene.window.width, scene.window.height) == spec.layout.spec_viewport(),
        scene.window.minimum_width == 640 && scene.window.minimum_height == 480,
        scene.window.x == 40 && scene.window.y == 40,
        scene.window.title@ == "evo-desktop-visual-"@ + spec.spec_key(),
        scene.window.app_id@ == "evo.desktop.native-perf"@,
{
}

/// A catalog is shown as the state of the replay asks: loading, failed or empty where
/// that is its subject, filled in a session, and untouched at home.
pub proof fn law_replay_catalogs_are_of_their_state(state: VisualReplayState)
    ensures
        catalog_of(state) is Loading <==> state is CatalogLoading,
        catalog_of(state) is Error <==> state is CatalogError,
        catalog_of(state) is Empty <==> state is CatalogEmpty,
        catalog_of(state) is Ready <==> !state.spec_uses_home(),
        catalog_of(state) is NotLoaded <==> state.spec_uses_home() && !(state is CatalogLoading)
            && !(state is CatalogError) && !(state is CatalogEmpty),
        drawer_of(state) is Some <==> !state.spec_uses_home(),
        drawer_of(state) == Some(NativeVisualDrawerFixture::Inspector) <==> state
            is InspectorDrawer,
        click_of(state) is Some <==> state is ModelMenu || state is ThinkingMenu,
        state is ModelMenu ==> click_of(state) == Some((610u32, 821u32)),
        state is ThinkingMenu ==> click_of(state) == Some((700u32, 821u32)),
        home_project_of(state) is Some <==> state is HomeProject || state is HomeLongProject,
        state is HomeProject ==> home_project_of(state) == Some("/workspace/evo"@),
        state is HomeLongProject ==> home_project_of(state) == Some(
            "/workspace/clients/acme/platform/apps/desktop/a-very-long-multi-project-workspace-name"@,
        ),
{
}

/// The performance replay measures frames of a plain session, and shows nothing that a
/// visual replay would.
pub proof fn law_performance_replay_is_plain(scene: ReplayScene)
    requires
        is_performance_scene(scene),
    ensures
        scene.measures_frames && !scene.at_home && !scene.reduced_motion && !scene.selects_row
            && !scene.non_reasoning,
        scene.visual is None && scene.notice is None && scene.keystroke is None && scene.click
            is None && scene.catalog is None && scene.drawer is None && scene.home_project is None,
        scene.window.width == 1_300 && scene.window.height == 900,
        scene.window.title@ == "evo · native performance replay"@,
        scene.global_skills@.len() == 1 && scene.global_skills@[0].command@ == "/review-plan"@,
{
}

} // verus!
