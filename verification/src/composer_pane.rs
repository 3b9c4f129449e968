//! What the composer shows, and what a key press in it means.
use crate::text::{join2, optional_text};
use crate::theme::{SemanticColor, SemanticTheme};
use vstd::prelude::*;

verus! {

/// How a draft enters an operation that is running.
#[derive(Debug, Clone, Copy, PartialEq, Eq, Structural)]
pub enum ComposerRunningMode {
    SteerNow,
    QueueNext,
}

impl ComposerRunningMode {
    pub open spec fn spec_label(self) -> Seq<char> {
        match self {
            ComposerRunningMode::SteerNow => "Steer now"@,
            ComposerRunningMode::QueueNext => "Queue next"@,
        }
    }

    pub fn label(self) -> (label: &'static str)
        ensures
            label@ == self.spec_label(),
    {
        match self {
            ComposerRunningMode::SteerNow => "Steer now",
            ComposerRunningMode::QueueNext => "Queue next",
        }
    }
}

/// The state of the composer.
#[derive(Debug, PartialEq, Eq)]
pub struct ComposerFacts {
    pub composer_pending: bool,
    pub composer_running: bool,
    pub awaiting_prompt_start: bool,
    pub authorization_pending: bool,
    pub running_mode: ComposerRunningMode,
    pub thinking: String,
    pub rejection: Option<String>,
}

/// What is painted of the composer.
#[derive(Debug, PartialEq, Eq)]
pub struct ComposerView {
    pub disabled: bool,
    pub description: &'static str,
    pub notice: Option<String>,
    pub notice_color: SemanticColor,
    pub panel_edge: SemanticColor,
    pub surface_edge: SemanticColor,
    pub thinking_label: String,
    pub running_mode_selector: Option<&'static str>,
    pub mode_selector_disabled: bool,
    pub submit_label: String,
    pub submit_busy: bool,
}

/// What the composer is waiting for, if anything: for the operation to start,
/// then for an authorization, then for the submission.
pub open spec fn state_notice(facts: ComposerFacts) -> Option<Seq<char>> {
    if facts.awaiting_prompt_start {
        Some("Waiting for the operation to start…"@)
    } else if facts.authorization_pending {
        Some("Authorization required · draft remains editable"@)
    } else if facts.composer_pending {
        Some("Submitting draft…"@)
    } else {
        None
    }
}

/// Works out what is painted of the composer.
pub fn composer_view(facts: &ComposerFacts, focus_shown: bool, theme: SemanticTheme) -> (view:
    ComposerView)
    ensures
        view.panel_edge == (if focus_shown {
            theme.focus_ring
        } else {
            theme.divider
        }),
        view.surface_edge == (if focus_shown {
            theme.focus_ring
        } else {
            theme.border
        }),
        view.disabled == (facts.composer_pending || facts.awaiting_prompt_start),
        view.description@ == (match state_notice(*facts) {
            Some(notice) => notice,
            None => "Describe the coding change, then send the message."@,
        }),
        optional_text(view.notice) == (if facts.rejection is Some {
            optional_text(facts.rejection)
        } else {
            state_notice(*facts)
        }),
        view.notice_color == (if facts.rejection is Some {
            theme.danger
        } else {
            theme.muted_text
        }),
        view.thinking_label@ == "T "@ + facts.thinking@,
        view.running_mode_selector is Some <==> facts.composer_running,
        view.running_mode_selector is Some ==> view.running_mode_selector->0@
            == facts.running_mode.spec_label(),
        view.mode_selector_disabled == facts.composer_pending,
        view.submit_label@ == (if facts.composer_running {
            "Submit using "@ + facts.running_mode.spec_label()
        } else {
            "Send the composer draft · Ctrl/Cmd+Enter"@
        }),
        view.submit_busy == (facts.composer_pending || facts.awaiting_prompt_start),
{
    let waiting = if facts.awaiting_prompt_start {
        Some("Waiting for the operation to start…")
    } else if facts.authorization_pending {
        Some("Authorization required · draft remains editable")
    } else if facts.composer_pending {
        Some("Submitting draft…")
    } else {
        None
    };
    let disabled = facts.composer_pending || facts.awaiting_prompt_start;
    let mode = facts.running_mode.label();
    ComposerView {
        disabled,
        description: match waiting {
            Some(notice) => notice,
            None => "Describe the coding change, then send the message.",
        },
        notice: match &facts.rejection {
            Some(rejection) => Some(rejection.clone()),
            None => match waiting {
                Some(notice) => Some(notice.to_owned()),
                None => None,
            },
        },
        notice_color: if facts.rejection.is_some() {
            theme.danger
        } else {
            theme.muted_text
        },
        panel_edge: if focus_shown {
            theme.focus_ring
        } else {
            theme.divider
        },
        surface_edge: if focus_shown {
            theme.focus_ring
        } else {
            theme.border
        },
        thinking_label: join2("T ", facts.thinking.as_str()),
        running_mode_selector: if facts.composer_running {
            Some(mode)
        } else {
            None
        },
        mode_selector_disabled: facts.composer_pending,
        submit_label: if facts.composer_running {
            join2("Submit using ", mode)
        } else {
            "Send the composer draft · Ctrl/Cmd+Enter".to_owned()
        },
        submit_busy: disabled,
    }
}

/// What the text field of the composer reports.
#[derive(Debug, PartialEq, Eq)]
pub enum ComposerInputEvent {
    Change { value: String },
    Focus,
    Blur,
    PressEnter { secondary: bool },
}

/// What the composer does about it.
#[derive(Debug, PartialEq, Eq)]
pub enum ComposerInputStep {
    /// Starts to measure, hands the draft on and repaints.
    Edited { value: String },
    Focused,
    SubmitPrimary,
    Repaint,
    Nothing,
}

/// Decides on a report of the text field. Only the secondary enter key
/// submits, the plain one belongs to the text.
pub fn composer_input_step(event: ComposerInputEvent) -> (step: ComposerInputStep)
    ensures
        step == input_step(event),
        step == (match event {
            ComposerInputEvent::Change { value } => ComposerInputStep::Edited { value },
            ComposerInputEvent::Focus => ComposerInputStep::Focused,
            ComposerInputEvent::Blur => ComposerInputStep::Repaint,
            ComposerInputEvent::PressEnter { secondary } => if secondary {
                ComposerInputStep::SubmitPrimary
            } else {
                ComposerInputStep::Nothing
            },
        }),
{
    match event {
        ComposerInputEvent::Change { value } => ComposerInputStep::Edited { value },
        ComposerInputEvent::Focus => ComposerInputStep::Focused,
        ComposerInputEvent::Blur => ComposerInputStep::Repaint,
        ComposerInputEvent::PressEnter { secondary } => if secondary {
            ComposerInputStep::SubmitPrimary
        } else {
            ComposerInputStep::Nothing
        },
    }
}

/// The composer says what it waits for, the most urgent first, and nothing where it
/// waits for nothing.
pub proof fn law_composer_says_what_it_waits_for(facts: ComposerFacts)
    ensures
        state_notice(facts) == Some("Waiting for the operation to start…"@)
            <== facts.awaiting_prompt_start,
        !facts.awaiting_prompt_start && facts.authorization_pending ==> state_notice(facts) == Some(
            "Authorization required · draft remains editable"@,
        ),
        !facts.awaiting_prompt_start && !facts.authorization_pending && facts.composer_pending
            ==> state_notice(facts) == Some("Submitting draft…"@),
        state_notice(facts) is None <==> !facts.awaiting_prompt_start
            && !facts.authorization_pending && !facts.composer_pending,
        ComposerRunningMode::SteerNow.spec_label() == "Steer now"@,
        ComposerRunningMode::QueueNext.spec_label() == "Queue next"@,
{
}

/// What an event of the input leads to.
pub open spec fn input_step(event: ComposerInputEvent) -> ComposerInputStep {
    match event {
        ComposerInputEvent::Change { value } => ComposerInputStep::Edited { value },
        ComposerInputEvent::Focus => ComposerInputStep::Focused,
        ComposerInputEvent::Blur => ComposerInputStep::Repaint,
        ComposerInputEvent::PressEnter { secondary } => if secondary {
            ComposerInputStep::SubmitPrimary
        } else {
            ComposerInputStep::Nothing
        },
    }
}

/// What is typed is kept as it is, and a draft goes out only where enter is pressed with
/// the secondary key.
pub proof fn law_input_goes_out_when_asked(event: ComposerInputEvent)
    ensures
        ({
            let step = input_step(event);
            &&& step is SubmitPrimary <==> event is PressEnter && event->secondary
            &&& step is Edited <==> event is Change
            &&& event is Change ==> step->value == event->value
            &&& step is Focused <==> event is Focus
            &&& step is Repaint <==> event is Blur
        }),
{
}

} // verus!
