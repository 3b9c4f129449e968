//! Replay requests: which deterministic fixture is asked for, and its key.
use crate::text::{
    characters, ends_with, join2, same_text, strip_suffix,
};
use vstd::prelude::*;

verus! {

#[derive(Debug, Clone, Copy, PartialEq, Eq, Structural)]
pub enum VisualReplayLayout {
    Wide,
    Medium,
    Narrow,
}

#[derive(Debug, Clone, Copy, PartialEq, Eq, Structural)]
pub enum VisualReplayState {
    Standard,
    Idle,
    Authorization,
    ReducedMotion,
    KeyboardFocus,
    InspectorDrawer,
    ModelMenu,
    ThinkingMenu,
    ThinkingNonReasoning,
    HomeProject,
    HomeLongProject,
    CatalogLoading,
    CatalogError,
    CatalogEmpty,
}

#[derive(Debug, Clone, Copy, PartialEq, Eq, Structural)]
pub struct VisualReplaySpec {
    pub layout: VisualReplayLayout,
    pub state: VisualReplayState,
}

/// A brand fixture, by the number that the brand module gives it.
#[derive(Debug, Clone, Copy, PartialEq, Eq, Structural)]
pub struct BrandMode {
    pub id: u32,
}

#[derive(Debug, Clone, Copy, PartialEq, Eq, Structural)]
pub enum NativeReplayRequest {
    Performance,
    Visual(VisualReplaySpec),
    Brand(BrandMode),
    ClickToPhoton,
}

impl VisualReplayLayout {
    pub open spec fn spec_key(self) -> Seq<char> {
        match self {
            VisualReplayLayout::Wide => "wide"@,
            VisualReplayLayout::Medium => "medium"@,
            VisualReplayLayout::Narrow => "narrow"@,
        }
    }

    pub fn key(self) -> (key: &'static str)
        ensures
            key@ == self.spec_key(),
    {
        match self {
            VisualReplayLayout::Wide => "wide",
            VisualReplayLayout::Medium => "medium",
            VisualReplayLayout::Narrow => "narrow",
        }
    }

    pub open spec fn spec_viewport(self) -> (u32, u32) {
        match self {
            VisualReplayLayout::Wide => (1_300, 900),
            VisualReplayLayout::Medium => (900, 800),
            VisualReplayLayout::Narrow => (700, 800),
        }
    }

    /// Width and height of the window in pixels.
    pub fn viewport(self) -> (size: (u32, u32))
        ensures
            size == self.spec_viewport(),
    {
        match self {
            VisualReplayLayout::Wide => (1_300, 900),
            VisualReplayLayout::Medium => (900, 800),
            VisualReplayLayout::Narrow => (700, 800),
        }
    }

    /// The layout with a key, or the message that names what was asked for.
    pub fn parse(value: &str) -> (layout: Result<Self, String>)
        ensures
            match layout {
                Ok(layout) => value@ == layout.spec_key(),
                Err(message) => message@ == unknown_layout(value@)
                    && forall|layout: VisualReplayLayout| value@ != #[trigger] layout.spec_key(),
            },
    {
        if same_text(value, "wide") {
            Ok(VisualReplayLayout::Wide)
        } else if same_text(value, "medium") {
            Ok(VisualReplayLayout::Medium)
        } else if same_text(value, "narrow") {
            Ok(VisualReplayLayout::Narrow)
        } else {
            Err(
                join2(
                    "EVO_DESKTOP_NATIVE_VISUAL_REPLAY must be wide, medium, or narrow; got ",
                    value,
                ),
            )
        }
    }
}

/// The message for a layout that does not exist.
pub open spec fn unknown_layout(value: Seq<char>) -> Seq<char> {
    "EVO_DESKTOP_NATIVE_VISUAL_REPLAY must be wide, medium, or narrow; got "@ + value
}

impl VisualReplayState {
    /// What a key carries behind its layout for this state.
    pub open spec fn spec_suffix(self) -> Seq<char> {
        match self {
            VisualReplayState::Standard => Seq::empty(),
            VisualReplayState::Idle => "-idle"@,
            VisualReplayState::Authorization => "-authorization"@,
            VisualReplayState::ReducedMotion => "-reduced-motion"@,
            VisualReplayState::KeyboardFocus => "-keyboard-focus"@,
            VisualReplayState::InspectorDrawer => "-inspector"@,
            VisualReplayState::ModelMenu => "-model-menu"@,
            VisualReplayState::ThinkingMenu => "-thinking-menu"@,
            VisualReplayState::ThinkingNonReasoning => "-thinking-non-reasoning"@,
            VisualReplayState::HomeProject => "-home-project"@,
            VisualReplayState::HomeLongProject => "-home-long-project"@,
            VisualReplayState::CatalogLoading => "-catalog-loading"@,
            VisualReplayState::CatalogError => "-catalog-error"@,
            VisualReplayState::CatalogEmpty => "-catalog-empty"@,
        }
    }

    pub fn suffix(self) -> (suffix: &'static str)
        ensures
            suffix@ == self.spec_suffix(),
    {
        proof {
            reveal_strlit("");
            assert(""@ =~= Seq::empty());
        }
        match self {
            VisualReplayState::Standard => "",
            VisualReplayState::Idle => "-idle",
            VisualReplayState::Authorization => "-authorization",
            VisualReplayState::ReducedMotion => "-reduced-motion",
            VisualReplayState::KeyboardFocus => "-keyboard-focus",
            VisualReplayState::InspectorDrawer => "-inspector",
            VisualReplayState::ModelMenu => "-model-menu",
            VisualReplayState::ThinkingMenu => "-thinking-menu",
            VisualReplayState::ThinkingNonReasoning => "-thinking-non-reasoning",
            VisualReplayState::HomeProject => "-home-project",
            VisualReplayState::HomeLongProject => "-home-long-project",
            VisualReplayState::CatalogLoading => "-catalog-loading",
            VisualReplayState::CatalogError => "-catalog-error",
            VisualReplayState::CatalogEmpty => "-catalog-empty",
        }
    }

    /// Whether the fixture shows the home workspace.
    pub open spec fn spec_uses_home(self) -> bool {
        !(self is Standard || self is Authorization || self is ReducedMotion
            || self is KeyboardFocus || self is InspectorDrawer)
    }

    pub fn uses_home(self) -> (home: bool)
        ensures
            home == self.spec_uses_home(),
    {
        match self {
            VisualReplayState::Idle
            | VisualReplayState::ModelMenu
            | VisualReplayState::ThinkingMenu
            | VisualReplayState::ThinkingNonReasoning
            | VisualReplayState::HomeProject
            | VisualReplayState::HomeLongProject
            | VisualReplayState::CatalogLoading
            | VisualReplayState::CatalogError
            | VisualReplayState::CatalogEmpty => true,
            _ => false,
        }
    }
}

/// Whether a value carries the suffix of a state: the standard state where it
/// carries no other.
pub open spec fn carries(value: Seq<char>, state: VisualReplayState) -> bool {
    ends_with(value, state.spec_suffix()) && (state is Standard ==> forall|
        other: VisualReplayState,
    |
        other !is Standard ==> !ends_with(value, #[trigger] other.spec_suffix()))
}

impl VisualReplaySpec {
    pub open spec fn spec_key(self) -> Seq<char> {
        self.layout.spec_key() + self.state.spec_suffix()
    }

    pub fn key(self) -> (key: String)
        ensures
            key@ == self.spec_key(),
    {
        join2(self.layout.key(), self.state.suffix())
    }

    /// The state whose suffix a key carries, with what stands before it.
    fn split(value: &str) -> (parts: (&str, VisualReplayState))
        ensures
            ({
                let (rest, state) = parts;
                &&& carries(value@, state)
                &&& rest@ == value@.take(value@.len() - state.spec_suffix().len())
            }),
    {
        if let Some(rest) = strip_suffix(value, "-idle") {
            return (rest, VisualReplayState::Idle);
        }
        if let Some(rest) = strip_suffix(value, "-authorization") {
            return (rest, VisualReplayState::Authorization);
        }
        if let Some(rest) = strip_suffix(value, "-reduced-motion") {
            return (rest, VisualReplayState::ReducedMotion);
        }
        if let Some(rest) = strip_suffix(value, "-keyboard-focus") {
            return (rest, VisualReplayState::KeyboardFocus);
        }
        if let Some(rest) = strip_suffix(value, "-inspector") {
            return (rest, VisualReplayState::InspectorDrawer);
        }
        if let Some(rest) = strip_suffix(value, "-model-menu") {
            return (rest, VisualReplayState::ModelMenu);
        }
        if let Some(rest) = strip_suffix(value, "-thinking-menu") {
            return (rest, VisualReplayState::ThinkingMenu);
        }
        if let Some(rest) = strip_suffix(value, "-thinking-non-reasoning") {
            return (rest, VisualReplayState::ThinkingNonReasoning);
        }
        if let Some(rest) = strip_suffix(value, "-home-project") {
            return (rest, VisualReplayState::HomeProject);
        }
        if let Some(rest) = strip_suffix(value, "-home-long-project") {
            return (rest, VisualReplayState::HomeLongProject);
        }
        if let Some(rest) = strip_suffix(value, "-catalog-loading") {
            return (rest, VisualReplayState::CatalogLoading);
        }
        if let Some(rest) = strip_suffix(value, "-catalog-error") {
            return (rest, VisualReplayState::CatalogError);
        }
        if let Some(rest) = strip_suffix(value, "-catalog-empty") {
            return (rest, VisualReplayState::CatalogEmpty);
        }
        assert(value@.take(value@.len() as int) =~= value@);
        assert(value@.skip(value@.len() as int) =~= Seq::<char>::empty());
        (value, VisualReplayState::Standard)
    }

    /// The fixture with a key. What is no key is refused with a message that
    /// names what stands in place of the layout.
    pub fn parse(value: &str) -> (spec: Result<Self, String>)
        ensures
            match spec {
                Ok(spec) => value@ == spec.spec_key(),
                Err(message) => refused_key(value@, message@),
            },
    {
        let (rest, state) = Self::split(value);
        let ghost cut = value@.len() - state.spec_suffix().len();
        assert(value@ =~= value@.take(cut) + value@.skip(cut));
        match VisualReplayLayout::parse(rest) {
            Ok(layout) => Ok(VisualReplaySpec { layout, state }),
            Err(message) => {
                proof {
                    assert forall|spec: VisualReplaySpec| value@
                        != #[trigger] spec.spec_key() by {
                        if value@ == spec.spec_key() {
                            lemma_key_tail(spec);
                            if state !is Standard {
                                lemma_suffix_tail(value@, state);
                            } else if spec.state !is Standard {
                                assert(ends_with(value@, spec.state.spec_suffix())) by {
                                    assert(value@.skip(
                                        value@.len() - spec.state.spec_suffix().len(),
                                    ) =~= spec.state.spec_suffix());
                                }
                            }
                            assert(state == spec.state);
                            assert(rest@ =~= spec.layout.spec_key());
                        }
                    }
                }
                Err(message)
            },
        }
    }
}

/// The character that stands `back` places before the end.
spec fn tail_char(value: Seq<char>, back: int) -> char {
    value[value.len() - back]
}

/// The state that the last characters of a key tell.
spec fn tail_state(value: Seq<char>) -> VisualReplayState {
    let last = tail_char(value, 1);
    if last == 'e' && value.len() > 4 {
        VisualReplayState::Idle
    } else if last == 'n' {
        if tail_char(value, 5) == 'a' {
            VisualReplayState::Authorization
        } else {
            VisualReplayState::ReducedMotion
        }
    } else if last == 's' {
        VisualReplayState::KeyboardFocus
    } else if last == 'r' {
        if tail_char(value, 3) == 't' {
            VisualReplayState::InspectorDrawer
        } else {
            VisualReplayState::CatalogError
        }
    } else if last == 'u' {
        if tail_char(value, 6) == 'l' {
            VisualReplayState::ModelMenu
        } else {
            VisualReplayState::ThinkingMenu
        }
    } else if last == 'g' {
        if tail_char(value, 4) == 'n' {
            VisualReplayState::ThinkingNonReasoning
        } else {
            VisualReplayState::CatalogLoading
        }
    } else if last == 't' {
        if tail_char(value, 9) == 'e' {
            VisualReplayState::HomeProject
        } else {
            VisualReplayState::HomeLongProject
        }
    } else if last == 'y' {
        VisualReplayState::CatalogEmpty
    } else {
        VisualReplayState::Standard
    }
}

proof fn lemma_suffix_tail(value: Seq<char>, state: VisualReplayState)
    requires
        state !is Standard,
        ends_with(value, state.spec_suffix()),
    ensures
        tail_state(value) == state,
{
    reveal_strlit("-idle");
    reveal_strlit("-authorization");
    reveal_strlit("-reduced-motion");
    reveal_strlit("-keyboard-focus");
    reveal_strlit("-inspector");
    reveal_strlit("-model-menu");
    reveal_strlit("-thinking-menu");
    reveal_strlit("-thinking-non-reasoning");
    reveal_strlit("-home-project");
    reveal_strlit("-home-long-project");
    reveal_strlit("-catalog-loading");
    reveal_strlit("-catalog-error");
    reveal_strlit("-catalog-empty");
    let suffix = state.spec_suffix();
    assert forall|back: int| 1 <= back <= suffix.len() implies #[trigger] tail_char(value, back)
        == suffix[suffix.len() - back] by {
        assert(value.skip(value.len() - suffix.len())[suffix.len() - back] == tail_char(
            value,
            back,
        ));
    }
}

proof fn lemma_key_tail(spec: VisualReplaySpec)
    ensures
        tail_state(spec.spec_key()) == spec.state,
        ends_with(spec.spec_key(), spec.state.spec_suffix()),
{
    let key = spec.spec_key();
    assert(key.skip(key.len() - spec.state.spec_suffix().len()) =~= spec.state.spec_suffix());
    reveal_strlit("wide");
    reveal_strlit("medium");
    reveal_strlit("narrow");
    if spec.state is Standard {
        assert(key =~= spec.layout.spec_key());
        assert(tail_char(key, 1) == spec.layout.spec_key()[spec.layout.spec_key().len() - 1]);
    } else {
        lemma_suffix_tail(key, spec.state);
    }
}

/// A value carries one state only.
pub proof fn law_one_state_is_carried(
    value: Seq<char>,
    first: VisualReplayState,
    second: VisualReplayState,
)
    requires
        carries(value, first),
        carries(value, second),
    ensures
        first == second,
{
    if first !is Standard {
        lemma_suffix_tail(value, first);
    }
    if second !is Standard {
        lemma_suffix_tail(value, second);
    }
    if first is Standard && second !is Standard {
        assert(ends_with(value, second.spec_suffix()));
    }
}

/// No two fixtures have one key: reading a key back gives the fixture that
/// wrote it.
pub proof fn law_replay_keys_read_back(written: VisualReplaySpec, read: VisualReplaySpec)
    requires
        written.spec_key() == read.spec_key(),
    ensures
        written == read,
{
    lemma_key_tail(written);
    lemma_key_tail(read);
    let cut = written.spec_key().len() - written.state.spec_suffix().len();
    assert(written.spec_key().take(cut) =~= written.layout.spec_key());
    assert(read.spec_key().take(cut) =~= read.layout.spec_key());
    reveal_strlit("wide");
    reveal_strlit("medium");
    reveal_strlit("narrow");
    assert(written.layout.spec_key()[0] == read.layout.spec_key()[0]);
}

/// The lowercase form of an ASCII letter; any other character itself.
pub open spec fn ascii_lower(ch: char) -> char {
    if 'A' <= ch <= 'Z' {
        (ch as int + 32) as char
    } else {
        ch
    }
}

/// Whether two texts are equal up to the case of ASCII letters.
pub open spec fn same_ignoring_case(left: Seq<char>, right: Seq<char>) -> bool {
    left.len() == right.len() && forall|i: int|
        0 <= i < left.len() ==> ascii_lower(#[trigger] left[i]) == ascii_lower(right[i])
}

/// Whether an environment value switches something on.
pub open spec fn switched_on(value: Seq<char>) -> bool {
    value == "1"@ || same_ignoring_case(value, "true"@)
}

/// Reads an environment switch: `1`, or `true` in any case.
pub fn flag_enabled(value: &str) -> (on: bool)
    ensures
        on == switched_on(value@),
{
    if same_text(value, "1") {
        return true;
    }
    let chars = characters(value);
    proof {
        reveal_strlit("true");
    }
    let on = chars.len() == 4 && (chars[0] == 't' || chars[0] == 'T') && (chars[1] == 'r'
        || chars[1] == 'R') && (chars[2] == 'u' || chars[2] == 'U') && (chars[3] == 'e'
        || chars[3] == 'E');
    proof {
        let word = "true"@;
        if same_ignoring_case(value@, word) {
            assert(ascii_lower(value@[0]) == ascii_lower(word[0]));
            assert(ascii_lower(value@[1]) == ascii_lower(word[1]));
            assert(ascii_lower(value@[2]) == ascii_lower(word[2]));
            assert(ascii_lower(value@[3]) == ascii_lower(word[3]));
        }
        if on {
            assert forall|i: int| 0 <= i < value@.len() implies ascii_lower(#[trigger] value@[i])
                == ascii_lower(word[i]) by {}
        }
    }
    on
}

/// How many replays are asked for at once.
pub open spec fn requested_count(
    performance: bool,
    click_to_photon: bool,
    visual: bool,
    brand: bool,
) -> int {
    (if performance { 1int } else { 0 }) + (if click_to_photon { 1int } else { 0 }) + (if visual {
        1int
    } else {
        0
    }) + (if brand { 1int } else { 0 })
}

/// What the environment asks for: at most one replay, and one that exists.
pub fn request_from_values(performance: bool, click_to_photon: bool, visual: Option<&str>) -> (
request: Result<Option<NativeReplayRequest>, String>)
    ensures
        match request {
            Err(message) => {
                ||| requested_count(performance, click_to_photon, visual is Some, false) > 1
                    && message@
                    == "EVO_DESKTOP_NATIVE_PERF_REPLAY, EVO_DESKTOP_CLICK_TO_PHOTON_REPLAY, and EVO_DESKTOP_NATIVE_VISUAL_REPLAY are mutually exclusive"@
                ||| requested_count(performance, click_to_photon, visual is Some, false) == 1
                    && visual is Some && refused_key(visual->0@, message@)
            },
            Ok(request) => requested_count(performance, click_to_photon, visual is Some, false) <= 1
                && granted(request, performance, click_to_photon, visual, None),
        },
{
    if (performance && click_to_photon) || (performance && visual.is_some()) || (click_to_photon
        && visual.is_some()) {
        return Err(
            "EVO_DESKTOP_NATIVE_PERF_REPLAY, EVO_DESKTOP_CLICK_TO_PHOTON_REPLAY, and EVO_DESKTOP_NATIVE_VISUAL_REPLAY are mutually exclusive".to_owned(),
        );
    }
    single_request(performance, click_to_photon, visual, None)
}

/// A message that refuses a key.
pub open spec fn refused_key(value: Seq<char>, message: Seq<char>) -> bool {
    (forall|spec: VisualReplaySpec| value != #[trigger] spec.spec_key()) && exists|
        state: VisualReplayState,
    |
        #[trigger] carries(value, state) && message == unknown_layout(
            value.take(value.len() - state.spec_suffix().len()),
        )
}

/// Whether a request is the one that was asked for.
pub open spec fn granted(
    request: Option<NativeReplayRequest>,
    performance: bool,
    click_to_photon: bool,
    visual: Option<&str>,
    brand: Option<BrandMode>,
) -> bool {
    if performance {
        request == Some(NativeReplayRequest::Performance)
    } else if click_to_photon {
        request == Some(NativeReplayRequest::ClickToPhoton)
    } else if brand is Some {
        request == Some(NativeReplayRequest::Brand(brand->0))
    } else if visual is Some {
        request matches Some(NativeReplayRequest::Visual(spec)) && spec.spec_key() == visual->0@
    } else {
        request is None
    }
}

fn single_request(
    performance: bool,
    click_to_photon: bool,
    visual: Option<&str>,
    brand: Option<BrandMode>,
) -> (request: Result<Option<NativeReplayRequest>, String>)
    ensures
        match request {
            Err(message) => !performance && !click_to_photon && brand is None && visual is Some
                && refused_key(visual->0@, message@),
            Ok(request) => granted(request, performance, click_to_photon, visual, brand),
        },
{
    if performance {
        return Ok(Some(NativeReplayRequest::Performance));
    }
    if click_to_photon {
        return Ok(Some(NativeReplayRequest::ClickToPhoton));
    }
    if let Some(mode) = brand {
        return Ok(Some(NativeReplayRequest::Brand(mode)));
    }
    match visual {
        Some(value) => match VisualReplaySpec::parse(value) {
            Ok(spec) => Ok(Some(NativeReplayRequest::Visual(spec))),
            Err(message) => Err(message),
        },
        None => Ok(None),
    }
}

/// The same with a brand fixture, whose mode the brand module has read.
pub fn request_with_brand(
    performance: bool,
    click_to_photon: bool,
    visual: Option<&str>,
    brand: Option<Result<BrandMode, String>>,
) -> (request: Result<Option<NativeReplayRequest>, String>)
    ensures
        ({
            let count = requested_count(
                performance,
                click_to_photon,
                visual is Some,
                brand is Some,
            );
            match request {
                Err(message) => {
                    ||| count > 1 && message@
                        == "EVO_DESKTOP_NATIVE_PERF_REPLAY, EVO_DESKTOP_CLICK_TO_PHOTON_REPLAY, EVO_DESKTOP_NATIVE_VISUAL_REPLAY, and EVO_DESKTOP_BRAND_VISUAL_REPLAY are mutually exclusive"@
                    ||| count == 1 && visual is Some && refused_key(visual->0@, message@)
                    ||| count == 1 && (brand matches Some(Err(reason)) && reason == message)
                },
                Ok(request) => count <= 1 && !(brand matches Some(Err(_))) && granted(
                    request,
                    performance,
                    click_to_photon,
                    visual,
                    match brand {
                        Some(Ok(mode)) => Some(mode),
                        _ => None,
                    },
                ),
            }
        }),
{
    let conflict = (performance && (click_to_photon || visual.is_some() || brand.is_some())) || (
    click_to_photon && (visual.is_some() || brand.is_some())) || (visual.is_some()
        && brand.is_some());
    if conflict {
        return Err(
            "EVO_DESKTOP_NATIVE_PERF_REPLAY, EVO_DESKTOP_CLICK_TO_PHOTON_REPLAY, EVO_DESKTOP_NATIVE_VISUAL_REPLAY, and EVO_DESKTOP_BRAND_VISUAL_REPLAY are mutually exclusive".to_owned(),
        );
    }
    match brand {
        Some(Ok(mode)) => single_request(performance, click_to_photon, visual, Some(mode)),
        Some(Err(message)) => Err(message),
        None => single_request(performance, click_to_photon, visual, None),
    }
}

/// A flag is on where it is one, or true in any case of its letters, and off otherwise.
pub proof fn law_flags_are_read(value: Seq<char>)
    ensures
        switched_on(value) <==> value == seq!['1'] || (value.len() == 4 && (value[0] == 't'
            || value[0] == 'T') && (value[1] == 'r' || value[1] == 'R') && (value[2] == 'u'
            || value[2] == 'U') && (value[3] == 'e' || value[3] == 'E')),
{
    reveal_strlit("1");
    reveal_strlit("true");
    assert("1"@ =~= seq!['1']);
    let word = "true"@;
    assert(word.len() == 4 && word[0] == 't' && word[1] == 'r' && word[2] == 'u' && word[3] == 'e');
    assert(forall|ch: char| #[trigger] ascii_lower(ch) == 't' <==> ch == 't' || ch == 'T');
    assert(forall|ch: char| #[trigger] ascii_lower(ch) == 'r' <==> ch == 'r' || ch == 'R');
    assert(forall|ch: char| #[trigger] ascii_lower(ch) == 'u' <==> ch == 'u' || ch == 'U');
    assert(forall|ch: char| #[trigger] ascii_lower(ch) == 'e' <==> ch == 'e' || ch == 'E');
    assert(ascii_lower('t') == 't' && ascii_lower('r') == 'r' && ascii_lower('u') == 'u'
        && ascii_lower('e') == 'e');
    if same_ignoring_case(value, word) {
        assert(ascii_lower(value[0]) == ascii_lower(word[0]));
        assert(ascii_lower(value[1]) == ascii_lower(word[1]));
        assert(ascii_lower(value[2]) == ascii_lower(word[2]));
        assert(ascii_lower(value[3]) == ascii_lower(word[3]));
    }
}

/// Replays run at home where they are about home, menus, thinking or the catalog, and in
/// a session otherwise. Narrower layouts are narrower.
pub proof fn law_replays_have_their_place(state: VisualReplayState)
    ensures
        state.spec_uses_home() <==> state is Idle || state is ModelMenu || state is ThinkingMenu
            || state is ThinkingNonReasoning || state is HomeProject || state is HomeLongProject
            || state is CatalogLoading || state is CatalogError || state is CatalogEmpty,
        VisualReplayLayout::Wide.spec_viewport() == (1_300u32, 900u32),
        VisualReplayLayout::Medium.spec_viewport() == (900u32, 800u32),
        VisualReplayLayout::Narrow.spec_viewport() == (700u32, 800u32),
        VisualReplayLayout::Wide.spec_key() == "wide"@,
        VisualReplayLayout::Medium.spec_key() == "medium"@,
        VisualReplayLayout::Narrow.spec_key() == "narrow"@,
{
}

/// A replay goes by its layout and then its state.
pub proof fn law_replays_go_by_layout_and_state(spec: VisualReplaySpec)
    ensures
        spec.spec_key() == spec.layout.spec_key() + spec.state.spec_suffix(),
        spec.state is Standard ==> spec.spec_key() == spec.layout.spec_key(),
        !(spec.state is Standard) ==> spec.state.spec_suffix().len() > 1
            && spec.state.spec_suffix()[0] == '-',
{
    assert(spec.layout.spec_key() + Seq::<char>::empty() =~= spec.layout.spec_key());
    reveal_strlit("-idle");
    reveal_strlit("-authorization");
    reveal_strlit("-reduced-motion");
    reveal_strlit("-keyboard-focus");
    reveal_strlit("-inspector");
    reveal_strlit("-model-menu");
    reveal_strlit("-thinking-menu");
    reveal_strlit("-thinking-non-reasoning");
    reveal_strlit("-home-project");
    reveal_strlit("-home-long-project");
    reveal_strlit("-catalog-loading");
    reveal_strlit("-catalog-error");
    reveal_strlit("-catalog-empty");
}

/// What is granted is what was asked for, one at a time: nothing where nothing was, and
/// the visual replay of the key that was given.
pub proof fn law_granted_replays_were_asked_for(
    request: Option<NativeReplayRequest>,
    performance: bool,
    click_to_photon: bool,
    visual: Option<&str>,
    brand: Option<BrandMode>,
)
    requires
        granted(request, performance, click_to_photon, visual, brand),
        requested_count(performance, click_to_photon, visual is Some, brand is Some) <= 1,
    ensures
        request == Some(NativeReplayRequest::Performance) <==> performance,
        request == Some(NativeReplayRequest::ClickToPhoton) <==> click_to_photon,
        request matches Some(NativeReplayRequest::Brand(mode)) ==> brand == Some(mode),
        brand is Some ==> request == Some(NativeReplayRequest::Brand(brand->0)),
        request matches Some(NativeReplayRequest::Visual(spec)) ==> visual is Some
            && spec.spec_key() == visual->0@,
        visual is Some ==> request matches Some(NativeReplayRequest::Visual(_)),
        request is None <==> !performance && !click_to_photon && visual is None && brand is None,
{
}

/// Every replay that was asked for counts once.
pub proof fn law_requests_are_counted(a: bool, b: bool, c: bool, d: bool)
    ensures
        requested_count(false, false, false, false) == 0,
        requested_count(true, b, c, d) == requested_count(false, b, c, d) + 1,
        requested_count(a, true, c, d) == requested_count(a, false, c, d) + 1,
        requested_count(a, b, true, d) == requested_count(a, b, false, d) + 1,
        requested_count(a, b, c, true) == requested_count(a, b, c, false) + 1,
{
}

} // verus!
