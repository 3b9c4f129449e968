//! What the header above the center shows.
use crate::controls::DesktopIcon;
use crate::text::{join2, same_text};
use crate::theme::{
    conversation_focus_accent, DesignSpace, SemanticColor, SemanticStatus, SemanticTheme, StatusFace,
};
use vstd::prelude::*;

verus! {

/// The width of the slot for the runtime status.
pub const HEADER_RUNTIME_STATUS_SLOT_WIDTH: u32 = 104;

pub const HEADER_RUNTIME_STATUS_COMPACT_SLOT_WIDTH: u32 = 80;

pub fn header_runtime_status_slot_width(viewport_width: u32) -> (width: u32)
    ensures
        width == (if viewport_width < 900 {
            HEADER_RUNTIME_STATUS_COMPACT_SLOT_WIDTH
        } else {
            HEADER_RUNTIME_STATUS_SLOT_WIDTH
        }),
{
    if viewport_width < 900 {
        HEADER_RUNTIME_STATUS_COMPACT_SLOT_WIDTH
    } else {
        HEADER_RUNTIME_STATUS_SLOT_WIDTH
    }
}

/// The words for a status: short ones where authorization is asked for.
pub open spec fn status_words(face: StatusFace, compact: bool) -> Seq<char> {
    if face.status is Authorization {
        if compact {
            "Auth"@
        } else {
            "Approval"@
        }
    } else {
        face.label@
    }
}

pub fn header_runtime_status_label(face: StatusFace, compact: bool) -> (label: &'static str)
    ensures
        label@ == status_words(face, compact),
{
    match face.status {
        SemanticStatus::Authorization => if compact {
            "Auth"
        } else {
            "Approval"
        },
        _ => face.label,
    }
}

#[derive(Debug, Clone, Copy, PartialEq, Eq, Structural)]
pub enum DesktopThinkingLevel {
    Default,
    Off,
    Minimal,
    Low,
    Medium,
    High,
    XHigh,
}

impl DesktopThinkingLevel {
    pub open spec fn spec_menu_label(self) -> Seq<char> {
        match self {
            DesktopThinkingLevel::Default => "Default"@,
            DesktopThinkingLevel::Off => "Off"@,
            DesktopThinkingLevel::Minimal => "Minimal"@,
            DesktopThinkingLevel::Low => "Low"@,
            DesktopThinkingLevel::Medium => "Medium"@,
            DesktopThinkingLevel::High => "High"@,
            DesktopThinkingLevel::XHigh => "XHigh"@,
        }
    }

    pub fn menu_label(self) -> (label: &'static str)
        ensures
            label@ == self.spec_menu_label(),
    {
        match self {
            DesktopThinkingLevel::Default => "Default",
            DesktopThinkingLevel::Off => "Off",
            DesktopThinkingLevel::Minimal => "Minimal",
            DesktopThinkingLevel::Low => "Low",
            DesktopThinkingLevel::Medium => "Medium",
            DesktopThinkingLevel::High => "High",
            DesktopThinkingLevel::XHigh => "XHigh",
        }
    }
}

/// The layout that the header stands in: the width of the window and of the
/// center, and which panels could be docked.
#[derive(Debug, Clone, Copy, PartialEq, Eq, Structural)]
pub struct HeaderPlace {
    pub viewport_width: u32,
    pub center_width: u32,
    pub sessions_dockable: bool,
    pub inspector_dockable: bool,
    pub sessions_visible: bool,
    pub context_visible: bool,
    pub sessions_drawer_open: bool,
    pub inspector_drawer_open: bool,
    pub focus_shown: bool,
}

/// What the header tells of the task.
#[derive(Debug, PartialEq, Eq)]
pub struct HeaderFacts {
    pub idle: bool,
    pub face: StatusFace,
    pub composer_running: bool,
    pub abort_pending: bool,
    pub reload_pending: bool,
    pub selector_disabled: bool,
    pub model: String,
    pub profile: String,
    pub thinking: String,
    pub current_model_id: String,
    pub current_profile_id: String,
    pub project_name: String,
}

/// What is painted of the header.
#[derive(Debug, PartialEq, Eq)]
pub struct HeaderView {
    pub sessions_open: bool,
    pub sessions_icon: DesktopIcon,
    pub sessions_tooltip: &'static str,
    pub inspector_open: bool,
    pub inspector_icon: DesktopIcon,
    pub inspector_tooltip: &'static str,
    pub edge: SemanticColor,
    pub title: Option<&'static str>,
    pub subtitle: String,
    pub title_color: SemanticColor,
    pub action_gap: DesignSpace,
    pub status_slot_width: u32,
    pub status_label: Option<&'static str>,
    pub status_accessible_label: &'static str,
    pub status_glyph: &'static str,
    pub model_label: String,
    pub profile_label: String,
    pub thinking_label: String,
    pub model_accessible_label: String,
    pub profile_accessible_label: String,
    pub thinking_accessible_label: String,
    pub selector_disabled: bool,
    pub abort_label: Option<&'static str>,
    pub abort_disabled: bool,
    pub reload_label: &'static str,
    pub reload_disabled: bool,
}

/// Whether there is room for full labels.
pub open spec fn expanded(place: HeaderPlace, idle: bool) -> bool {
    place.center_width >= 900 || (idle && place.viewport_width >= 1_100)
}

/// Works out what is painted of the header.
pub fn conversation_header_view(
    facts: &HeaderFacts,
    place: HeaderPlace,
    theme: SemanticTheme,
) -> (view: HeaderView)
    ensures
        view.edge == (if place.focus_shown {
            theme.accent
        } else {
            theme.divider
        }),
        view.subtitle@ == facts.project_name@,
        view.title_color == (if place.focus_shown {
            theme.accent
        } else {
            theme.text
        }),
        view.status_accessible_label == facts.face.label,
        view.status_glyph == facts.face.glyph,
        view.reload_disabled == facts.selector_disabled,
        view.sessions_open == (if place.sessions_dockable {
            place.sessions_visible
        } else {
            place.sessions_drawer_open
        }),
        view.sessions_icon == (if view.sessions_open {
            DesktopIcon::PanelLeftClose
        } else {
            DesktopIcon::PanelLeftOpen
        }),
        view.sessions_tooltip@ == (if view.sessions_open {
            "Hide Sessions panel"@
        } else {
            "Show Sessions panel"@
        }),
        view.inspector_open == (if place.inspector_dockable {
            place.context_visible
        } else {
            place.inspector_drawer_open
        }),
        view.inspector_icon == (if view.inspector_open {
            DesktopIcon::PanelRightClose
        } else {
            DesktopIcon::PanelRightOpen
        }),
        view.inspector_tooltip@ == (if view.inspector_open {
            "Hide Inspector panel · Ctrl/Cmd+\\"@
        } else {
            "Show Inspector panel · Ctrl/Cmd+\\"@
        }),
        view.title is Some <==> expanded(place, facts.idle) || (facts.idle && place.viewport_width
            >= 900),
        view.title is Some ==> view.title->0@ == (if facts.idle {
            "New task"@
        } else {
            "Current task"@
        }),
        view.action_gap == (if place.viewport_width < 900 {
            DesignSpace::Xs
        } else {
            DesignSpace::Sm
        }),
        view.status_slot_width == (if place.viewport_width < 900 {
            80int
        } else {
            104
        }),
        view.status_label is Some <==> !(facts.face.status is Idle),
        view.status_label is Some ==> view.status_label->0@ == status_words(
            facts.face,
            place.viewport_width < 900,
        ),
        view.model_label@ == (if expanded(place, facts.idle) {
            "Model · "@
        } else {
            "M · "@
        }) + facts.model@,
        view.profile_label@ == (if expanded(place, facts.idle) {
            "Profile · "@
        } else {
            "P · "@
        }) + facts.profile@,
        view.thinking_label@ == (if expanded(place, facts.idle) {
            "Thinking · "@
        } else {
            "T · "@
        }) + facts.thinking@,
        view.model_accessible_label@ == "Select model; current "@ + facts.current_model_id@,
        view.profile_accessible_label@ == "Select session profile; current "@
            + facts.current_profile_id@,
        view.thinking_accessible_label@ == "Select session thinking level; current "@
            + facts.thinking@,
        view.selector_disabled == facts.selector_disabled,
        view.abort_label is Some <==> facts.composer_running,
        view.abort_label is Some ==> view.abort_label->0@ == (if facts.abort_pending {
            "Aborting…"@
        } else {
            "Abort"@
        }),
        view.abort_disabled == facts.abort_pending,
        view.reload_label@ == (if facts.reload_pending {
            "Reloading local resources…"@
        } else {
            "Reload local resources"@
        }),
{
    let sessions_open = if place.sessions_dockable {
        place.sessions_visible
    } else {
        place.sessions_drawer_open
    };
    let inspector_open = if place.inspector_dockable {
        place.context_visible
    } else {
        place.inspector_drawer_open
    };
    let wide = place.center_width >= 900 || (facts.idle && place.viewport_width >= 1_100);
    let compact = place.viewport_width < 900;
    let titled = wide || (facts.idle && place.viewport_width >= 900);
    HeaderView {
        sessions_open,
        sessions_icon: if sessions_open {
            DesktopIcon::PanelLeftClose
        } else {
            DesktopIcon::PanelLeftOpen
        },
        sessions_tooltip: if sessions_open {
            "Hide Sessions panel"
        } else {
            "Show Sessions panel"
        },
        inspector_open,
        inspector_icon: if inspector_open {
            DesktopIcon::PanelRightClose
        } else {
            DesktopIcon::PanelRightOpen
        },
        inspector_tooltip: if inspector_open {
            "Hide Inspector panel · Ctrl/Cmd+\\"
        } else {
            "Show Inspector panel · Ctrl/Cmd+\\"
        },
        edge: conversation_focus_accent(place.focus_shown, theme),
        subtitle: facts.project_name.clone(),
        title_color: if place.focus_shown {
            theme.accent
        } else {
            theme.text
        },
        title: if titled {
            if facts.idle {
                Some("New task")
            } else {
                Some("Current task")
            }
        } else {
            None
        },
        action_gap: if compact {
            DesignSpace::Xs
        } else {
            DesignSpace::Sm
        },
        status_slot_width: header_runtime_status_slot_width(place.viewport_width),
        status_accessible_label: facts.face.label,
        status_glyph: facts.face.glyph,
        status_label: if facts.face.status == SemanticStatus::Idle {
            None
        } else {
            Some(header_runtime_status_label(facts.face, compact))
        },
        model_label: join2(
            if wide {
                "Model · "
            } else {
                "M · "
            },
            facts.model.as_str(),
        ),
        profile_label: join2(
            if wide {
                "Profile · "
            } else {
                "P · "
            },
            facts.profile.as_str(),
        ),
        thinking_label: join2(
            if wide {
                "Thinking · "
            } else {
                "T · "
            },
            facts.thinking.as_str(),
        ),
        model_accessible_label: join2("Select model; current ", facts.current_model_id.as_str()),
        profile_accessible_label: join2(
            "Select session profile; current ",
            facts.current_profile_id.as_str(),
        ),
        thinking_accessible_label: join2(
            "Select session thinking level; current ",
            facts.thinking.as_str(),
        ),
        selector_disabled: facts.selector_disabled,
        abort_label: if facts.composer_running {
            if facts.abort_pending {
                Some("Aborting…")
            } else {
                Some("Abort")
            }
        } else {
            None
        },
        abort_disabled: facts.abort_pending,
        reload_label: if facts.reload_pending {
            "Reloading local resources…"
        } else {
            "Reload local resources"
        },
        reload_disabled: facts.selector_disabled,
    }
}

/// An option of a selector.
#[derive(Debug, PartialEq, Eq)]
pub struct ConversationHeaderSelectorOption {
    pub id: String,
    pub label: String,
    pub selectable: bool,
}

/// What is painted of an option.
#[derive(Debug, Clone, Copy, PartialEq, Eq, Structural)]
pub struct OptionMarks {
    pub checked: bool,
    pub disabled: bool,
}

/// Works out the marks of the options of a selector, and whether its menu
/// scrolls.
pub fn selector_menu(options: &Vec<ConversationHeaderSelectorOption>, current_id: &str) -> (menu: (
    Vec<OptionMarks>,
    bool,
))
    ensures
        menu.0@.len() == options@.len(),
        forall|i: int|
            0 <= i < options@.len() ==> #[trigger] menu.0@[i] == (OptionMarks {
                checked: options@[i].id@ == current_id@,
                disabled: !options@[i].selectable,
            }),
        menu.1 == (options@.len() > 8),
{
    let mut marks: Vec<OptionMarks> = Vec::new();
    let mut index: usize = 0;
    while index < options.len()
        invariant
            index <= options@.len(),
            marks@.len() == index,
            forall|i: int|
                0 <= i < index ==> #[trigger] marks@[i] == (OptionMarks {
                    checked: options@[i].id@ == current_id@,
                    disabled: !options@[i].selectable,
                }),
        decreases options@.len() - index,
    {
        let option = &options[index];
        marks.push(
            OptionMarks {
                checked: same_text(option.id.as_str(), current_id),
                disabled: !option.selectable,
            },
        );
        index = index + 1;
    }
    (marks, options.len() > 8)
}

/// An entry of the menu of thinking levels.
#[derive(Debug, PartialEq, Eq)]
pub struct ThinkingItem {
    pub level: DesktopThinkingLevel,
    pub label: &'static str,
    pub checked: bool,
}

/// Works out the menu of the given thinking levels, in their order.
pub fn thinking_menu(levels: &Vec<DesktopThinkingLevel>, selection: DesktopThinkingLevel) -> (menu:
    Vec<ThinkingItem>)
    ensures
        menu@.len() == levels@.len(),
        forall|i: int|
            0 <= i < levels@.len() ==> (#[trigger] menu@[i]).level == levels@[i]
                && menu@[i].label@ == levels@[i].spec_menu_label() && menu@[i].checked == (
            levels@[i] == selection),
{
    let mut menu: Vec<ThinkingItem> = Vec::new();
    let mut index: usize = 0;
    while index < levels.len()
        invariant
            index <= levels@.len(),
            menu@.len() == index,
            forall|i: int|
                0 <= i < index ==> (#[trigger] menu@[i]).level == levels@[i] && menu@[i].label@
                    == levels@[i].spec_menu_label() && menu@[i].checked == (levels@[i]
                    == selection),
        decreases levels@.len() - index,
    {
        let level = levels[index];
        menu.push(ThinkingItem { level, label: level.menu_label(), checked: level == selection });
        index = index + 1;
    }
    menu
}

/// A state is labelled by its own words; only a request for authorization has shorter
/// ones, and the shortest where there is little room.
pub proof fn law_states_are_labelled(face: StatusFace)
    ensures
        !(face.status is Authorization) ==> status_words(face, true) == face.label@ && status_words(
            face,
            false,
        ) == face.label@,
        face.status is Authorization ==> status_words(face, true) == "Auth"@ && status_words(
            face,
            false,
        ) == "Approval"@,
{
}

/// Full labels need a wide center, or a wide window round an idle one.
pub proof fn law_full_labels_need_room(place: HeaderPlace)
    ensures
        place.center_width >= 900 ==> expanded(place, true) && expanded(place, false),
        place.center_width < 900 ==> !expanded(place, false),
        place.center_width < 900 ==> (expanded(place, true) <==> place.viewport_width >= 1_100),
{
}

/// Levels of thinking are labelled by their names, and none like another.
pub proof fn law_levels_are_labelled_by_name(level: DesktopThinkingLevel)
    ensures
        level.spec_menu_label() == (match level {
            DesktopThinkingLevel::Default => "Default"@,
            DesktopThinkingLevel::Off => "Off"@,
            DesktopThinkingLevel::Minimal => "Minimal"@,
            DesktopThinkingLevel::Low => "Low"@,
            DesktopThinkingLevel::Medium => "Medium"@,
            DesktopThinkingLevel::High => "High"@,
            DesktopThinkingLevel::XHigh => "XHigh"@,
        }),
{
}

/// The status has more room in a wide window than in a narrow one.
pub proof fn law_status_slots_have_their_widths()
    ensures
        HEADER_RUNTIME_STATUS_SLOT_WIDTH == 104,
        HEADER_RUNTIME_STATUS_COMPACT_SLOT_WIDTH == 80,
{
}

} // verus!
