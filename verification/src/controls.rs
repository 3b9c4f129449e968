//! Shared control semantics: weight tells consequence, and a control keeps its
//! height whatever its state.
use crate::theme::{SemanticColor, SemanticTheme};
use vstd::prelude::*;

verus! {

/// The icons that panes name by intent.
#[derive(Debug, Clone, Copy, PartialEq, Eq, Structural)]
pub enum DesktopIcon {
    PanelLeftOpen,
    PanelLeftClose,
    PanelRightOpen,
    PanelRightClose,
    Overflow,
    ChevronDown,
    ChevronRight,
    ChevronUp,
    SelectorCaret,
    Copy,
    Expand,
    OpenExternal,
    Search,
    Clear,
    Close,
    Plus,
    Submit,
    Busy,
    Warning,
}

impl DesktopIcon {
    /// The bundled asset that draws the icon.
    pub open spec fn spec_name(self) -> Seq<char> {
        match self {
            DesktopIcon::PanelLeftOpen => "PanelLeftOpen"@,
            DesktopIcon::PanelLeftClose => "PanelLeftClose"@,
            DesktopIcon::PanelRightOpen => "PanelRightOpen"@,
            DesktopIcon::PanelRightClose => "PanelRightClose"@,
            DesktopIcon::Overflow => "Ellipsis"@,
            DesktopIcon::ChevronDown => "ChevronDown"@,
            DesktopIcon::ChevronRight => "ChevronRight"@,
            DesktopIcon::ChevronUp => "ChevronUp"@,
            DesktopIcon::SelectorCaret => "ChevronsUpDown"@,
            DesktopIcon::Copy => "Copy"@,
            DesktopIcon::Expand => "Maximize"@,
            DesktopIcon::OpenExternal => "ExternalLink"@,
            DesktopIcon::Search => "Search"@,
            DesktopIcon::Clear => "CircleX"@,
            DesktopIcon::Close => "Close"@,
            DesktopIcon::Plus => "Plus"@,
            DesktopIcon::Submit => "ArrowUp"@,
            DesktopIcon::Busy => "LoaderCircle"@,
            DesktopIcon::Warning => "TriangleAlert"@,
        }
    }

    pub fn name(self) -> (name: &'static str)
        ensures
            name@ == self.spec_name(),
    {
        match self {
            DesktopIcon::PanelLeftOpen => "PanelLeftOpen",
            DesktopIcon::PanelLeftClose => "PanelLeftClose",
            DesktopIcon::PanelRightOpen => "PanelRightOpen",
            DesktopIcon::PanelRightClose => "PanelRightClose",
            DesktopIcon::Overflow => "Ellipsis",
            DesktopIcon::ChevronDown => "ChevronDown",
            DesktopIcon::ChevronRight => "ChevronRight",
            DesktopIcon::ChevronUp => "ChevronUp",
            DesktopIcon::SelectorCaret => "ChevronsUpDown",
            DesktopIcon::Copy => "Copy",
            DesktopIcon::Expand => "Maximize",
            DesktopIcon::OpenExternal => "ExternalLink",
            DesktopIcon::Search => "Search",
            DesktopIcon::Clear => "CircleX",
            DesktopIcon::Close => "Close",
            DesktopIcon::Plus => "Plus",
            DesktopIcon::Submit => "ArrowUp",
            DesktopIcon::Busy => "LoaderCircle",
            DesktopIcon::Warning => "TriangleAlert",
        }
    }
}

/// Fixed control heights.
#[derive(Debug, Clone, Copy, PartialEq, Eq, Structural)]
pub enum DesktopControlSize {
    Tool,
    Compact,
    Standard,
    Critical,
}

impl DesktopControlSize {
    pub open spec fn spec_pixels(self) -> u32 {
        match self {
            DesktopControlSize::Tool => 28,
            DesktopControlSize::Compact => 32,
            DesktopControlSize::Standard => 36,
            DesktopControlSize::Critical => 40,
        }
    }

    pub fn pixels(self) -> (pixels: u32)
        ensures
            pixels == self.spec_pixels(),
    {
        match self {
            DesktopControlSize::Tool => 28,
            DesktopControlSize::Compact => 32,
            DesktopControlSize::Standard => 36,
            DesktopControlSize::Critical => 40,
        }
    }
}

/// How severe a critical action is.
#[derive(Debug, Clone, Copy, PartialEq, Eq, Structural)]
pub enum DesktopCriticalTone {
    Neutral,
    Affirmative,
    Dangerous,
}

impl DesktopCriticalTone {
    pub open spec fn spec_color(self, theme: SemanticTheme) -> SemanticColor {
        match self {
            DesktopCriticalTone::Neutral => theme.muted_text,
            DesktopCriticalTone::Affirmative => theme.accent,
            DesktopCriticalTone::Dangerous => theme.danger,
        }
    }

    pub fn color(self, theme: SemanticTheme) -> (color: SemanticColor)
        ensures
            color == self.spec_color(theme),
    {
        match self {
            DesktopCriticalTone::Neutral => theme.muted_text,
            DesktopCriticalTone::Affirmative => theme.accent,
            DesktopCriticalTone::Dangerous => theme.danger,
        }
    }

    pub open spec fn spec_style(self) -> ButtonStyle {
        match self {
            DesktopCriticalTone::Neutral => ButtonStyle::Outline,
            DesktopCriticalTone::Affirmative => ButtonStyle::Primary,
            DesktopCriticalTone::Dangerous => ButtonStyle::Danger,
        }
    }
}

/// Two critical tones look the same only where they are the same, in every
/// theme that tells its muted, accent and danger colours apart.
pub proof fn law_critical_tones_are_distinct(
    theme: SemanticTheme,
    first: DesktopCriticalTone,
    second: DesktopCriticalTone,
)
    requires
        theme.muted_text != theme.accent,
        theme.muted_text != theme.danger,
        theme.accent != theme.danger,
    ensures
        first.spec_color(theme) == second.spec_color(theme) ==> first == second,
        first.spec_style() == second.spec_style() ==> first == second,
{
}

/// Where a control sits on the weight ladder.
#[derive(Debug, Clone, Copy, PartialEq, Eq, Structural)]
pub enum DesktopControlWeight {
    Tool,
    Selector,
    Primary,
    Critical(DesktopCriticalTone),
}

impl DesktopControlWeight {
    /// Of the critical tones an icon alone shows only danger.
    pub open spec fn spec_icon_style(self) -> ButtonStyle {
        match self {
            DesktopControlWeight::Tool => ButtonStyle::Borderless,
            DesktopControlWeight::Selector => ButtonStyle::Borderless,
            DesktopControlWeight::Primary => ButtonStyle::Primary,
            DesktopControlWeight::Critical(DesktopCriticalTone::Dangerous) => ButtonStyle::Danger,
            DesktopControlWeight::Critical(_) => ButtonStyle::Outline,
        }
    }
}

#[derive(Debug, Clone, Copy, PartialEq, Eq, Structural)]
pub enum ButtonStyle {
    Borderless,
    Outline,
    Primary,
    Danger,
}

/// What is painted of a button.
#[derive(Debug, PartialEq, Eq)]
pub struct ButtonFace {
    pub id: String,
    pub label: Option<String>,
    pub icon: Option<DesktopIcon>,
    pub tooltip: String,
    pub style: ButtonStyle,
    pub selected: bool,
    pub disabled: bool,
    pub loading: bool,
    pub caret: bool,
    pub width: Option<u32>,
    pub height: u32,
}

/// A text-labelled action with a consequence.
#[derive(Debug, PartialEq, Eq)]
pub struct DesktopCriticalButton {
    pub id: String,
    pub label: String,
    pub accessible_label: String,
    pub tone: DesktopCriticalTone,
    pub disabled: bool,
}

impl DesktopCriticalButton {
    pub fn new(id: &str, label: &str, accessible_label: &str, tone: DesktopCriticalTone) -> (button:
        Self)
        ensures
            button.id@ == id@,
            button.label@ == label@,
            button.accessible_label@ == accessible_label@,
            button.tone == tone,
            !button.disabled,
    {
        DesktopCriticalButton {
            id: id.to_owned(),
            label: label.to_owned(),
            accessible_label: accessible_label.to_owned(),
            tone,
            disabled: false,
        }
    }

    pub fn disabled(self, disabled: bool) -> (button: Self)
        ensures
            button == (DesktopCriticalButton { disabled, ..self }),
    {
        DesktopCriticalButton { disabled, ..self }
    }

    /// Every critical button has one height and keeps its label.
    pub fn build(self) -> (face: ButtonFace)
        ensures
            face == (ButtonFace {
                id: self.id,
                label: Some(self.label),
                icon: None,
                tooltip: self.accessible_label,
                style: self.tone.spec_style(),
                selected: false,
                disabled: self.disabled,
                loading: false,
                caret: false,
                width: None,
                height: DesktopControlSize::Critical.spec_pixels(),
            }),
    {
        ButtonFace {
            id: self.id,
            label: Some(self.label),
            icon: None,
            tooltip: self.accessible_label,
            style: match self.tone {
                DesktopCriticalTone::Neutral => ButtonStyle::Outline,
                DesktopCriticalTone::Affirmative => ButtonStyle::Primary,
                DesktopCriticalTone::Dangerous => ButtonStyle::Danger,
            },
            selected: false,
            disabled: self.disabled,
            loading: false,
            caret: false,
            width: None,
            height: DesktopControlSize::Critical.pixels(),
        }
    }
}

/// An icon-only control, which cannot be had without a spoken label.
#[derive(Debug, PartialEq, Eq)]
pub struct DesktopIconButton {
    pub id: String,
    pub icon: DesktopIcon,
    pub accessible_label: String,
    pub size: DesktopControlSize,
    pub weight: DesktopControlWeight,
    pub selected: bool,
    pub disabled: bool,
    pub busy: bool,
}

impl DesktopIconButton {
    pub fn new(id: &str, icon: DesktopIcon, accessible_label: &str) -> (button: Self)
        ensures
            button.id@ == id@,
            button.icon == icon,
            button.accessible_label@ == accessible_label@,
            button.size == DesktopControlSize::Compact,
            button.weight == DesktopControlWeight::Tool,
            !button.selected,
            !button.disabled,
            !button.busy,
    {
        DesktopIconButton {
            id: id.to_owned(),
            icon,
            accessible_label: accessible_label.to_owned(),
            size: DesktopControlSize::Compact,
            weight: DesktopControlWeight::Tool,
            selected: false,
            disabled: false,
            busy: false,
        }
    }

    pub fn size(self, size: DesktopControlSize) -> (button: Self)
        ensures
            button == (DesktopIconButton { size, ..self }),
    {
        DesktopIconButton { size, ..self }
    }

    pub fn weight(self, weight: DesktopControlWeight) -> (button: Self)
        ensures
            button == (DesktopIconButton { weight, ..self }),
    {
        DesktopIconButton { weight, ..self }
    }

    pub fn selected(self, selected: bool) -> (button: Self)
        ensures
            button == (DesktopIconButton { selected, ..self }),
    {
        DesktopIconButton { selected, ..self }
    }

    pub fn disabled(self, disabled: bool) -> (button: Self)
        ensures
            button == (DesktopIconButton { disabled, ..self }),
    {
        DesktopIconButton { disabled, ..self }
    }

    pub fn busy(self, busy: bool) -> (button: Self)
        ensures
            button == (DesktopIconButton { busy, ..self }),
    {
        DesktopIconButton { busy, ..self }
    }

    pub open spec fn face(self) -> ButtonFace {
        ButtonFace {
            id: self.id,
            label: None,
            icon: Some(if self.busy { DesktopIcon::Busy } else { self.icon }),
            tooltip: self.accessible_label,
            style: self.weight.spec_icon_style(),
            selected: self.selected,
            disabled: self.disabled || self.busy,
            loading: self.busy,
            caret: false,
            width: Some(self.size.spec_pixels()),
            height: self.size.spec_pixels(),
        }
    }

    pub fn build(self) -> (face: ButtonFace)
        ensures
            face == self.face(),
    {
        let side: u32 = self.size.pixels();
        ButtonFace {
            id: self.id,
            label: None,
            icon: Some(
                if self.busy {
                    DesktopIcon::Busy
                } else {
                    self.icon
                },
            ),
            tooltip: self.accessible_label,
            style: match self.weight {
                DesktopControlWeight::Tool | DesktopControlWeight::Selector => ButtonStyle::Borderless,
                DesktopControlWeight::Primary => ButtonStyle::Primary,
                DesktopControlWeight::Critical(DesktopCriticalTone::Dangerous) =>
                    ButtonStyle::Danger,
                DesktopControlWeight::Critical(_) => ButtonStyle::Outline,
            },
            selected: self.selected,
            disabled: self.disabled || self.busy,
            loading: self.busy,
            caret: false,
            width: Some(side),
            height: side,
        }
    }
}

/// A busy icon button keeps its box and stops accepting input.
pub proof fn law_busy_button_keeps_its_box(button: DesktopIconButton)
    ensures
        ({
            let busy = DesktopIconButton { busy: true, ..button };
            &&& busy.face().width == button.face().width
            &&& busy.face().height == button.face().height
            &&& busy.face().disabled
        }),
{
}

/// A value that the user can change.
#[derive(Debug, PartialEq, Eq)]
pub struct DesktopSelector {
    pub id: String,
    pub value: String,
    pub accessible_label: String,
    pub size: DesktopControlSize,
    pub disabled: bool,
}

impl DesktopSelector {
    pub fn new(id: &str, value: &str, accessible_label: &str) -> (selector: Self)
        ensures
            selector.id@ == id@,
            selector.value@ == value@,
            selector.accessible_label@ == accessible_label@,
            selector.size == DesktopControlSize::Compact,
            !selector.disabled,
    {
        DesktopSelector {
            id: id.to_owned(),
            value: value.to_owned(),
            accessible_label: accessible_label.to_owned(),
            size: DesktopControlSize::Compact,
            disabled: false,
        }
    }

    pub fn size(self, size: DesktopControlSize) -> (selector: Self)
        ensures
            selector == (DesktopSelector { size, ..self }),
    {
        DesktopSelector { size, ..self }
    }

    pub fn disabled(self, disabled: bool) -> (selector: Self)
        ensures
            selector == (DesktopSelector { disabled, ..self }),
    {
        DesktopSelector { disabled, ..self }
    }

    pub fn build(self) -> (face: ButtonFace)
        ensures
            face == (ButtonFace {
                id: self.id,
                label: Some(self.value),
                icon: None,
                tooltip: self.accessible_label,
                style: ButtonStyle::Borderless,
                selected: false,
                disabled: self.disabled,
                loading: false,
                caret: true,
                width: None,
                height: self.size.spec_pixels(),
            }),
    {
        ButtonFace {
            id: self.id,
            label: Some(self.value),
            icon: None,
            tooltip: self.accessible_label,
            style: ButtonStyle::Borderless,
            selected: false,
            disabled: self.disabled,
            loading: false,
            caret: true,
            width: None,
            height: self.size.pixels(),
        }
    }
}

/// The visual state of an action row.
#[derive(Debug, Clone, Copy, PartialEq, Eq, Structural)]
pub struct DesktopRowState {
    pub selected: bool,
    pub disabled: bool,
    pub focus_visible: bool,
}

impl Default for DesktopRowState {
    fn default() -> (state: Self)
        ensures
            !state.selected,
            !state.disabled,
            !state.focus_visible,
    {
        DesktopRowState { selected: false, disabled: false, focus_visible: false }
    }
}

/// A full-width row that is itself the action surface. Its leading and trailing
/// elements are attached where it is painted; the trailing width is reserved
/// here.
#[derive(Debug, PartialEq, Eq)]
pub struct DesktopActionRow {
    pub id: String,
    pub accessible_label: String,
    pub state: DesktopRowState,
    pub size: DesktopControlSize,
    pub title: String,
    pub detail: Option<String>,
    pub trailing_reserved: u32,
}

/// What is painted of an action row.
#[derive(Debug, PartialEq, Eq)]
pub struct RowFace {
    pub id: String,
    pub title: String,
    pub detail: Option<String>,
    pub tooltip: String,
    pub selected: bool,
    pub disabled: bool,
    pub height: u32,
    pub rail_height: u32,
    pub rail: Option<SemanticColor>,
    pub border: Option<SemanticColor>,
    pub text: SemanticColor,
    pub detail_text: SemanticColor,
    pub trailing_reserved: u32,
}

impl DesktopActionRow {
    pub fn new(id: &str, title: &str, accessible_label: &str) -> (row: Self)
        ensures
            row.id@ == id@,
            row.title@ == title@,
            row.accessible_label@ == accessible_label@,
            !row.state.selected && !row.state.disabled && !row.state.focus_visible,
            row.size == DesktopControlSize::Standard,
            row.detail is None,
            row.trailing_reserved == 0,
    {
        DesktopActionRow {
            id: id.to_owned(),
            accessible_label: accessible_label.to_owned(),
            state: DesktopRowState::default(),
            size: DesktopControlSize::Standard,
            title: title.to_owned(),
            detail: None,
            trailing_reserved: 0,
        }
    }

    pub fn state(self, state: DesktopRowState) -> (row: Self)
        ensures
            row == (DesktopActionRow { state, ..self }),
    {
        DesktopActionRow { state, ..self }
    }

    pub fn size(self, size: DesktopControlSize) -> (row: Self)
        ensures
            row == (DesktopActionRow { size, ..self }),
    {
        DesktopActionRow { size, ..self }
    }

    pub fn detail(self, detail: String) -> (row: Self)
        ensures
            row == (DesktopActionRow { detail: Some(detail), ..self }),
    {
        DesktopActionRow { detail: Some(detail), ..self }
    }

    pub fn trailing(self, trailing_reserved: u32) -> (row: Self)
        ensures
            row == (DesktopActionRow { trailing_reserved, ..self }),
    {
        DesktopActionRow { trailing_reserved, ..self }
    }

    pub open spec fn face(self, theme: SemanticTheme) -> RowFace {
        RowFace {
            id: self.id,
            title: self.title,
            detail: self.detail,
            tooltip: self.accessible_label,
            selected: self.state.selected,
            disabled: self.state.disabled,
            height: self.size.spec_pixels(),
            rail_height: (self.size.spec_pixels() / 2) as u32,
            rail: if self.state.selected { Some(theme.accent) } else { None },
            border: if self.state.focus_visible { Some(theme.focus_ring) } else { None },
            text: if self.state.disabled { theme.subtle_text } else { theme.text },
            detail_text: theme.muted_text,
            trailing_reserved: self.trailing_reserved,
        }
    }

    pub fn build(self, theme: SemanticTheme) -> (face: RowFace)
        ensures
            face == self.face(theme),
    {
        let height: u32 = self.size.pixels();
        RowFace {
            id: self.id,
            title: self.title,
            detail: self.detail,
            tooltip: self.accessible_label,
            selected: self.state.selected,
            disabled: self.state.disabled,
            height,
            rail_height: height / 2,
            rail: if self.state.selected {
                Some(theme.accent)
            } else {
                None
            },
            border: if self.state.focus_visible {
                Some(theme.focus_ring)
            } else {
                None
            },
            text: if self.state.disabled {
                theme.subtle_text
            } else {
                theme.text
            },
            detail_text: theme.muted_text,
            trailing_reserved: self.trailing_reserved,
        }
    }
}

/// The state of a row never changes its geometry.
pub proof fn law_row_state_keeps_the_geometry(
    row: DesktopActionRow,
    state: DesktopRowState,
    theme: SemanticTheme,
)
    ensures
        ({
            let other = DesktopActionRow { state, ..row };
            &&& other.face(theme).height == row.face(theme).height
            &&& other.face(theme).rail_height == row.face(theme).rail_height
            &&& other.face(theme).trailing_reserved == row.face(theme).trailing_reserved
        }),
{
}

/// A button that is busy cannot be pressed and shows that it works; else it shows its
/// own icon, and can be pressed unless it is disabled.
pub proof fn law_busy_buttons_show_that_they_work(button: DesktopIconButton)
    ensures
        ({
            let face = button.face();
            &&& face.loading == button.busy
            &&& button.busy ==> face.icon == Some(DesktopIcon::Busy) && face.disabled
            &&& !button.busy ==> face.icon == Some(button.icon) && face.disabled == button.disabled
            &&& face.selected == button.selected
            &&& face.tooltip == button.accessible_label
            &&& face.id == button.id
            &&& face.width == Some(face.height)
            &&& !face.caret && face.label is None
        }),
{
}

/// A row shows its state and nothing else of it: a rail where it is selected, a ring
/// where it has the focus, and faint words where it is disabled.
pub proof fn law_rows_show_their_state(row: DesktopActionRow, theme: SemanticTheme)
    ensures
        ({
            let face = row.face(theme);
            &&& face.rail is Some <==> row.state.selected
            &&& row.state.selected ==> face.rail == Some(theme.accent)
            &&& face.border is Some <==> row.state.focus_visible
            &&& row.state.focus_visible ==> face.border == Some(theme.focus_ring)
            &&& face.text == (if row.state.disabled { theme.subtle_text } else { theme.text })
            &&& face.title == row.title && face.detail == row.detail && face.tooltip
                == row.accessible_label && face.id == row.id
            &&& face.selected == row.state.selected && face.disabled == row.state.disabled
            &&& face.rail_height * 2 == face.height
            &&& face.trailing_reserved == row.trailing_reserved
            &&& face.detail_text == theme.muted_text
        }),
{
    assert(row.size.spec_pixels() % 2 == 0);
}

/// Controls grow with their weight in the window.
pub proof fn law_controls_grow_with_their_size()
    ensures
        DesktopControlSize::Tool.spec_pixels() == 28,
        DesktopControlSize::Compact.spec_pixels() == 32,
        DesktopControlSize::Standard.spec_pixels() == 36,
        DesktopControlSize::Critical.spec_pixels() == 40,
{
}

/// What is dangerous looks dangerous, and nothing else does.
pub proof fn law_danger_looks_dangerous(tone: DesktopCriticalTone, theme: SemanticTheme)
    ensures
        tone is Dangerous ==> tone.spec_color(theme) == theme.danger,
        tone is Affirmative ==> tone.spec_color(theme) == theme.accent,
        tone is Neutral ==> tone.spec_color(theme) == theme.muted_text,
        DesktopControlWeight::Critical(tone).spec_icon_style() is Danger <==> tone is Dangerous,
        DesktopControlWeight::Primary.spec_icon_style() is Primary,
        DesktopControlWeight::Tool.spec_icon_style() is Borderless,
        DesktopControlWeight::Selector.spec_icon_style() is Borderless,
{
}

/// Each icon is drawn under its own name.
pub proof fn law_icons_go_by_their_names(icon: DesktopIcon)
    ensures
        icon is PanelLeftOpen ==> icon.spec_name() == "PanelLeftOpen"@,
        icon is PanelLeftClose ==> icon.spec_name() == "PanelLeftClose"@,
        icon is PanelRightOpen ==> icon.spec_name() == "PanelRightOpen"@,
        icon is PanelRightClose ==> icon.spec_name() == "PanelRightClose"@,
        icon is Overflow ==> icon.spec_name() == "Ellipsis"@,
        icon is ChevronDown ==> icon.spec_name() == "ChevronDown"@,
        icon is ChevronRight ==> icon.spec_name() == "ChevronRight"@,
        icon is ChevronUp ==> icon.spec_name() == "ChevronUp"@,
        icon is SelectorCaret ==> icon.spec_name() == "ChevronsUpDown"@,
        icon is Copy ==> icon.spec_name() == "Copy"@,
        icon is Expand ==> icon.spec_name() == "Maximize"@,
        icon is OpenExternal ==> icon.spec_name() == "ExternalLink"@,
        icon is Search ==> icon.spec_name() == "Search"@,
        icon is Clear ==> icon.spec_name() == "CircleX"@,
        icon is Close ==> icon.spec_name() == "Close"@,
        icon is Plus ==> icon.spec_name() == "Plus"@,
        icon is Submit ==> icon.spec_name() == "ArrowUp"@,
        icon is Busy ==> icon.spec_name() == "LoaderCircle"@,
        icon is Warning ==> icon.spec_name() == "TriangleAlert"@,
{
}

/// A critical button is filled by its tone, and only a dangerous one as danger.
pub proof fn law_critical_buttons_are_filled_by_tone(tone: DesktopCriticalTone)
    ensures
        tone.spec_style() is Outline <==> tone is Neutral,
        tone.spec_style() is Primary <==> tone is Affirmative,
        tone.spec_style() is Danger <==> tone is Dangerous,
{
}

} // verus!
