//! Semantic colours, statuses and the design tokens of the desktop.
use vstd::prelude::*;

verus! {

/// A colour as `0xRRGGBB`.
#[derive(Debug, Clone, Copy, PartialEq, Eq, Structural)]
pub struct SemanticColor {
    pub rgb: u32,
}

impl SemanticColor {
    pub fn value(self) -> (rgb: u32)
        ensures
            rgb == self.rgb,
    {
        self.rgb
    }
}

/// The colours of a theme, by what they mean.
#[derive(Debug, Clone, Copy, PartialEq, Eq, Structural)]
pub struct SemanticTheme {
    pub canvas: SemanticColor,
    pub surface: SemanticColor,
    pub elevated: SemanticColor,
    pub border: SemanticColor,
    pub divider: SemanticColor,
    pub focus_ring: SemanticColor,
    pub text: SemanticColor,
    pub muted_text: SemanticColor,
    pub subtle_text: SemanticColor,
    pub accent: SemanticColor,
    pub success: SemanticColor,
    pub warning: SemanticColor,
    pub danger: SemanticColor,
}

#[derive(Debug, Clone, Copy, PartialEq, Eq, Structural)]
pub enum SemanticStatus {
    Idle,
    Running,
    Warning,
    Authorization,
    Error,
}

/// How a status is shown: its name and its sign.
#[derive(Debug, Clone, Copy, PartialEq, Eq)]
pub struct StatusFace {
    pub status: SemanticStatus,
    pub label: &'static str,
    pub glyph: &'static str,
}

#[derive(Debug, Clone, Copy, PartialEq, Eq, Structural)]
pub enum DelegationStatus {
    Requested,
    Running,
    Completed,
    Failed,
    Rejected,
    Cancelled,
    ConfirmationRequired,
    Unknown,
}

/// The colour of a status.
pub open spec fn status_color(status: SemanticStatus, theme: SemanticTheme) -> SemanticColor {
    match status {
        SemanticStatus::Idle => theme.muted_text,
        SemanticStatus::Running => theme.accent,
        SemanticStatus::Warning => theme.warning,
        SemanticStatus::Authorization => theme.warning,
        SemanticStatus::Error => theme.danger,
    }
}

pub fn semantic_status_color(status: SemanticStatus, theme: SemanticTheme) -> (color: SemanticColor)
    ensures
        color == status_color(status, theme),
{
    match status {
        SemanticStatus::Idle => theme.muted_text,
        SemanticStatus::Running => theme.accent,
        SemanticStatus::Warning | SemanticStatus::Authorization => theme.warning,
        SemanticStatus::Error => theme.danger,
    }
}

pub fn delegation_status_color(status: DelegationStatus, theme: SemanticTheme) -> (color:
    SemanticColor)
    ensures
        color == (match status {
            DelegationStatus::Running => theme.accent,
            DelegationStatus::Failed => theme.danger,
            DelegationStatus::Rejected => theme.warning,
            DelegationStatus::Cancelled => theme.warning,
            DelegationStatus::ConfirmationRequired => theme.warning,
            _ => theme.muted_text,
        }),
{
    match status {
        DelegationStatus::Requested | DelegationStatus::Completed | DelegationStatus::Unknown =>
            theme.muted_text,
        DelegationStatus::Running => theme.accent,
        DelegationStatus::Failed => theme.danger,
        DelegationStatus::Rejected
        | DelegationStatus::Cancelled
        | DelegationStatus::ConfirmationRequired => theme.warning,
    }
}

pub fn conversation_focus_accent(focused: bool, theme: SemanticTheme) -> (color: SemanticColor)
    ensures
        color == (if focused {
            theme.accent
        } else {
            theme.divider
        }),
{
    if focused {
        theme.accent
    } else {
        theme.divider
    }
}

/// The border of a surface: a ring where the keyboard's focus is shown on it.
pub open spec fn ring_color(focused: bool, theme: SemanticTheme) -> SemanticColor {
    if focused {
        theme.focus_ring
    } else {
        theme.divider
    }
}

pub fn focus_ring_color(focused: bool, theme: SemanticTheme) -> (color: SemanticColor)
    ensures
        color == ring_color(focused, theme),
{
    if focused {
        theme.focus_ring
    } else {
        theme.divider
    }
}

#[derive(Debug, Clone, Copy, PartialEq, Eq, Structural)]
pub enum DesignSpace {
    Xs,
    Sm,
    Md,
    Lg,
    Xl,
}

impl DesignSpace {
    pub open spec fn spec_pixels(self) -> u32 {
        match self {
            DesignSpace::Xs => 4,
            DesignSpace::Sm => 8,
            DesignSpace::Md => 12,
            DesignSpace::Lg => 16,
            DesignSpace::Xl => 24,
        }
    }

    pub fn pixels(self) -> (pixels: u32)
        ensures
            pixels == self.spec_pixels(),
    {
        match self {
            DesignSpace::Xs => 4,
            DesignSpace::Sm => 8,
            DesignSpace::Md => 12,
            DesignSpace::Lg => 16,
            DesignSpace::Xl => 24,
        }
    }
}

#[derive(Debug, Clone, Copy, PartialEq, Eq, Structural)]
pub enum DesignRadius {
    Sm,
    Md,
    Lg,
}

impl DesignRadius {
    pub fn pixels(self) -> (pixels: u32)
        ensures
            pixels == (match self {
                DesignRadius::Sm => 4u32,
                DesignRadius::Md => 6u32,
                DesignRadius::Lg => 8u32,
            }),
    {
        match self {
            DesignRadius::Sm => 4,
            DesignRadius::Md => 6,
            DesignRadius::Lg => 8,
        }
    }
}

#[derive(Debug, Clone, Copy, PartialEq, Eq, Structural)]
pub enum DesignText {
    Metadata,
    Body,
    Title,
}

impl DesignText {
    /// Font size and line height.
    pub fn metrics(self) -> (metrics: (u32, u32))
        ensures
            metrics == (match self {
                DesignText::Metadata => (12u32, 16u32),
                DesignText::Body => (14u32, 21u32),
                DesignText::Title => (16u32, 24u32),
            }),
    {
        match self {
            DesignText::Metadata => (12, 16),
            DesignText::Body => (14, 21),
            DesignText::Title => (16, 24),
        }
    }
}

/// A state has the color of its urgency: what failed that of danger, what waits for the
/// user that of a warning, what runs the accent, and what idles no stress.
pub proof fn law_states_have_the_color_of_their_urgency(theme: SemanticTheme, focused: bool)
    ensures
        status_color(SemanticStatus::Error, theme) == theme.danger,
        status_color(SemanticStatus::Warning, theme) == theme.warning,
        status_color(SemanticStatus::Authorization, theme) == theme.warning,
        status_color(SemanticStatus::Running, theme) == theme.accent,
        status_color(SemanticStatus::Idle, theme) == theme.muted_text,
        focused ==> ring_color(focused, theme) == theme.focus_ring,
        !focused ==> ring_color(focused, theme) == theme.divider,
{
}

/// Spaces grow from step to step.
pub proof fn law_spaces_grow()
    ensures
        0 < DesignSpace::Xs.spec_pixels() < DesignSpace::Sm.spec_pixels()
            < DesignSpace::Md.spec_pixels() < DesignSpace::Lg.spec_pixels()
            < DesignSpace::Xl.spec_pixels(),
        DesignSpace::Sm.spec_pixels() == 2 * DesignSpace::Xs.spec_pixels(),
        DesignSpace::Lg.spec_pixels() == 2 * DesignSpace::Sm.spec_pixels(),
        DesignSpace::Xl.spec_pixels() == 2 * DesignSpace::Md.spec_pixels(),
        DesignSpace::Md.spec_pixels() == 3 * DesignSpace::Xs.spec_pixels(),
        DesignSpace::Xs.spec_pixels() == 4,
{
}

} // verus!
