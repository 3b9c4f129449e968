//! What the overlays show: the palette, authorization requests and full
//! messages.
use crate::actions::{palette_entries, palette_table, DesktopPaletteCommand};
use crate::text::{join2, join3, optional_text, texts};
use crate::theme::{SemanticColor, SemanticTheme};
use vstd::prelude::*;

verus! {

/// A row of the open palette.
#[derive(Debug, PartialEq, Eq)]
pub struct PaletteRowView {
    pub command: DesktopPaletteCommand,
    pub label: String,
    pub semantic_label: &'static str,
    pub selected: bool,
    pub edge: SemanticColor,
    pub position_in_set: usize,
    pub size_of_set: usize,
}

/// The label of a palette row: its shortcut behind its name.
pub open spec fn palette_label(label: Seq<char>, shortcut: Option<&'static str>) -> Seq<char> {
    match shortcut {
        Some(shortcut) => label + "    "@ + shortcut@,
        None => label,
    }
}

/// Works out the rows of the palette.
pub fn palette_rows(selected: usize, theme: SemanticTheme) -> (rows: Vec<PaletteRowView>)
    ensures
        rows@.len() == palette_table().len(),
        forall|i: int|
            0 <= i < rows@.len() ==> {
                let entry = palette_table()[i];
                &&& (#[trigger] rows@[i]).command == entry.command
                &&& rows@[i].label@ == palette_label(entry.label@, entry.shortcut)
                &&& rows@[i].semantic_label == entry.semantic_label
                &&& rows@[i].selected == (selected == i)
                &&& rows@[i].edge == (if selected == i {
                    theme.focus_ring
                } else {
                    theme.border
                })
                &&& rows@[i].position_in_set == i + 1
                &&& rows@[i].size_of_set == palette_table().len()
            },
{
    let entries = palette_entries();
    let mut rows: Vec<PaletteRowView> = Vec::new();
    let mut index: usize = 0;
    while index < entries.len()
        invariant
            index <= entries@.len(),
            entries@ == palette_table(),
            rows@.len() == index,
            forall|i: int|
                0 <= i < rows@.len() ==> {
                    let entry = palette_table()[i];
                    &&& (#[trigger] rows@[i]).command == entry.command
                    &&& rows@[i].label@ == palette_label(entry.label@, entry.shortcut)
                    &&& rows@[i].semantic_label == entry.semantic_label
                    &&& rows@[i].selected == (selected == i)
                    &&& rows@[i].edge == (if selected == i {
                    theme.focus_ring
                } else {
                    theme.border
                })
                &&& rows@[i].position_in_set == i + 1
                    &&& rows@[i].size_of_set == palette_table().len()
                },
        decreases entries@.len() - index,
    {
        let entry = entries[index];
        rows.push(
            PaletteRowView {
                command: entry.command,
                label: match entry.shortcut {
                    Some(shortcut) => join3(entry.label, "    ", shortcut),
                    None => entry.label.to_owned(),
                },
                semantic_label: entry.semantic_label,
                selected: selected == index,
                edge: if selected == index {
                    theme.focus_ring
                } else {
                    theme.border
                },
                position_in_set: index + 1,
                size_of_set: entries.len(),
            },
        );
        index = index + 1;
    }
    rows
}

/// What a tool asks to be authorized for.
#[derive(Debug, PartialEq, Eq)]
pub enum ToolAuthorizationScope {
    Path { path: String },
    FilesystemTarget { path: String, target_fingerprint: String },
    Shell { cwd: String, command_fingerprint: String },
    ToolArguments { fingerprint: String },
}

/// The scope of an authorization in words.
pub open spec fn scope_words(scope: ToolAuthorizationScope) -> Seq<char> {
    match scope {
        ToolAuthorizationScope::Path { path } => "path · "@ + path@,
        ToolAuthorizationScope::FilesystemTarget { path, target_fingerprint } =>
            "filesystem target · "@ + path@ + " · "@ + target_fingerprint@,
        ToolAuthorizationScope::Shell { cwd, command_fingerprint } => "shell · "@ + cwd@ + " · "@
            + command_fingerprint@,
        ToolAuthorizationScope::ToolArguments { fingerprint } => "tool arguments · "@
            + fingerprint@,
    }
}

pub fn authorization_scope_text(scope: &ToolAuthorizationScope) -> (text: String)
    ensures
        text@ == scope_words(*scope),
{
    match scope {
        ToolAuthorizationScope::Path { path } => join2("path · ", path.as_str()),
        ToolAuthorizationScope::FilesystemTarget { path, target_fingerprint } => {
            let mut text = join3("filesystem target · ", path.as_str(), " · ");
            text.append(target_fingerprint.as_str());
            text
        },
        ToolAuthorizationScope::Shell { cwd, command_fingerprint } => {
            let mut text = join3("shell · ", cwd.as_str(), " · ");
            text.append(command_fingerprint.as_str());
            text
        },
        ToolAuthorizationScope::ToolArguments { fingerprint } => join2(
            "tool arguments · ",
            fingerprint.as_str(),
        ),
    }
}

/// A request for authorization, with the name of its risk.
#[derive(Debug, PartialEq, Eq)]
pub struct AuthorizationRequestView {
    pub operation_id: String,
    pub tool_name: String,
    pub tool_call_id: String,
    pub risk: String,
    pub scope: ToolAuthorizationScope,
    pub path: Option<String>,
    pub cwd: Option<String>,
    pub command: Option<String>,
    pub content_preview: Option<String>,
}

/// One more detail, where it is there.
pub open spec fn with_detail(
    details: Seq<Seq<char>>,
    head: Seq<char>,
    value: Option<String>,
) -> Seq<Seq<char>> {
    match value {
        Some(value) => details.push(head + value@),
        None => details,
    }
}

/// The details of a request, in their order.
pub open spec fn authorization_details_words(request: AuthorizationRequestView) -> Seq<Seq<char>> {
    let always = seq![
        "operation  "@ + request.operation_id@,
        "tool       "@ + request.tool_name@ + " · "@ + request.tool_call_id@,
        "risk       "@ + request.risk@,
        "scope      "@ + scope_words(request.scope),
    ];
    with_detail(
        with_detail(
            with_detail(
                with_detail(always, "path       "@, request.path),
                "cwd        "@,
                request.cwd,
            ),
            "command\n"@,
            request.command,
        ),
        "content preview\n"@,
        request.content_preview,
    )
}

fn add_detail(details: &mut Vec<String>, head: &str, value: &Option<String>)
    ensures
        texts(final(details)@) == with_detail(texts(old(details)@), head@, *value),
{
    let ghost before = details@;
    if let Some(value) = value {
        details.push(join2(head, value.as_str()));
        assert(texts(details@) =~= texts(before).push(head@ + value@));
    }
}

pub fn authorization_details(request: &AuthorizationRequestView) -> (details: Vec<String>)
    ensures
        texts(details@) == authorization_details_words(*request),
{
    let mut details: Vec<String> = Vec::new();
    details.push(join2("operation  ", request.operation_id.as_str()));
    let mut tool = join3("tool       ", request.tool_name.as_str(), " · ");
    tool.append(request.tool_call_id.as_str());
    details.push(tool);
    details.push(join2("risk       ", request.risk.as_str()));
    details.push(join2("scope      ", authorization_scope_text(&request.scope).as_str()));
    assert(texts(details@) =~= seq![
        "operation  "@ + request.operation_id@,
        "tool       "@ + request.tool_name@ + " · "@ + request.tool_call_id@,
        "risk       "@ + request.risk@,
        "scope      "@ + scope_words(request.scope),
    ]);
    add_detail(&mut details, "path       ", &request.path);
    add_detail(&mut details, "cwd        ", &request.cwd);
    add_detail(&mut details, "command\n", &request.command);
    add_detail(&mut details, "content preview\n", &request.content_preview);
    details
}

/// What is said next to the title of an authorization request.
pub fn decision_state(decision_pending: bool) -> (text: &'static str)
    ensures
        text@ == (if decision_pending {
            "decision pending…"@
        } else {
            "explicit decision required"@
        }),
{
    if decision_pending {
        "decision pending…"
    } else {
        "explicit decision required"
    }
}

/// What is said of the source of a full message, and in which colour.
pub fn full_message_state(source_truncated: bool, theme: SemanticTheme) -> (state: (
    &'static str,
    SemanticColor,
))
    ensures
        state.1 == (if source_truncated {
            theme.warning
        } else {
            theme.muted_text
        }),
        state.0@ == (if source_truncated {
            "bounded source · additional content unavailable"@
        } else {
            "complete bounded source"@
        }),
{
    if source_truncated {
        ("bounded source · additional content unavailable", theme.warning)
    } else {
        ("complete bounded source", theme.muted_text)
    }
}

/// An answer to a request for authorization.
#[derive(Debug, PartialEq, Eq)]
pub enum ToolAuthorizationDecision {
    Deny { reason: Option<String> },
    AllowOnce,
    AllowForOperation,
}

/// An answer by what it says.
pub ghost enum DecisionView {
    Deny { reason: Option<Seq<char>> },
    AllowOnce,
    AllowForOperation,
}

impl View for ToolAuthorizationDecision {
    type V = DecisionView;

    open spec fn view(&self) -> DecisionView {
        match *self {
            ToolAuthorizationDecision::Deny { reason } => DecisionView::Deny {
                reason: optional_text(reason),
            },
            ToolAuthorizationDecision::AllowOnce => DecisionView::AllowOnce,
            ToolAuthorizationDecision::AllowForOperation => DecisionView::AllowForOperation,
        }
    }
}

/// A button that answers a request.
#[derive(Debug, PartialEq, Eq)]
pub struct AuthorizationButton {
    pub label: &'static str,
    pub tooltip: &'static str,
    pub decision: ToolAuthorizationDecision,
    pub disabled: bool,
}

/// The answer that denies a request from the desktop.
pub open spec fn desktop_denial() -> DecisionView {
    DecisionView::Deny { reason: Some("denied from native desktop"@) }
}

/// Works out the buttons below a request: none of them answers while a
/// decision is pending.
pub fn authorization_buttons(decision_pending: bool) -> (buttons: Vec<AuthorizationButton>)
    ensures
        buttons@.len() == 3,
        buttons@[0].label@ == "1 · Deny"@,
        buttons@[0].tooltip@ == "Deny this authorization request · 1"@,
        buttons@[0].decision@ == desktop_denial(),
        buttons@[1].label@ == "2 · Allow once"@,
        buttons@[1].tooltip@ == "Allow this exact request once · 2"@,
        buttons@[1].decision@ == DecisionView::AllowOnce,
        buttons@[2].label@ == "3 · Allow for operation"@,
        buttons@[2].tooltip@ == "Allow this scope for the current operation · 3"@,
        buttons@[2].decision@ == DecisionView::AllowForOperation,
        forall|i: int| 0 <= i < 3 ==> (#[trigger] buttons@[i]).disabled == decision_pending,
{
    let mut buttons: Vec<AuthorizationButton> = Vec::new();
    buttons.push(
        AuthorizationButton {
            label: "1 · Deny",
            tooltip: "Deny this authorization request · 1",
            decision: ToolAuthorizationDecision::Deny {
                reason: Some("denied from native desktop".to_owned()),
            },
            disabled: decision_pending,
        },
    );
    buttons.push(
        AuthorizationButton {
            label: "2 · Allow once",
            tooltip: "Allow this exact request once · 2",
            decision: ToolAuthorizationDecision::AllowOnce,
            disabled: decision_pending,
        },
    );
    buttons.push(
        AuthorizationButton {
            label: "3 · Allow for operation",
            tooltip: "Allow this scope for the current operation · 3",
            decision: ToolAuthorizationDecision::AllowForOperation,
            disabled: decision_pending,
        },
    );
    buttons
}

/// The overlays, from the lowest to the highest.
#[derive(Debug, Clone, Copy, PartialEq, Eq, Structural)]
pub enum OverlayLayer {
    NarrowInspector,
    NarrowSessions,
    CommandPalette,
    FullMessage,
    Authorization,
}

/// The layers that are open, in the order in which they are painted.
pub open spec fn open_layers(
    narrow_inspector: bool,
    narrow_sessions: bool,
    palette: bool,
    full_message: bool,
    authorization: bool,
) -> Seq<OverlayLayer> {
    (if narrow_inspector { seq![OverlayLayer::NarrowInspector] } else { Seq::empty() }) + (
    if narrow_sessions { seq![OverlayLayer::NarrowSessions] } else { Seq::empty() }) + (
    if palette { seq![OverlayLayer::CommandPalette] } else { Seq::empty() }) + (
    if full_message { seq![OverlayLayer::FullMessage] } else { Seq::empty() }) + (
    if authorization { seq![OverlayLayer::Authorization] } else { Seq::empty() })
}

pub fn overlay_layers(
    narrow_inspector: bool,
    narrow_sessions: bool,
    palette: bool,
    full_message: bool,
    authorization: bool,
) -> (layers: Vec<OverlayLayer>)
    ensures
        layers@ == open_layers(
            narrow_inspector,
            narrow_sessions,
            palette,
            full_message,
            authorization,
        ),
{
    let mut layers: Vec<OverlayLayer> = Vec::new();
    if narrow_inspector {
        layers.push(OverlayLayer::NarrowInspector);
    }
    if narrow_sessions {
        layers.push(OverlayLayer::NarrowSessions);
    }
    if palette {
        layers.push(OverlayLayer::CommandPalette);
    }
    if full_message {
        layers.push(OverlayLayer::FullMessage);
    }
    if authorization {
        layers.push(OverlayLayer::Authorization);
    }
    assert(layers@ =~= open_layers(
        narrow_inspector,
        narrow_sessions,
        palette,
        full_message,
        authorization,
    ));
    layers
}

/// An authorization request is painted above everything else.
pub proof fn law_authorization_is_topmost(
    narrow_inspector: bool,
    narrow_sessions: bool,
    palette: bool,
    full_message: bool,
)
    ensures
        open_layers(narrow_inspector, narrow_sessions, palette, full_message, true).last()
            is Authorization,
{
}

/// A layer lies over the window exactly where it is open, and the layers lie over each
/// other in one order, the authorization on top.
pub proof fn law_layers_lie_in_one_order(
    narrow_inspector: bool,
    narrow_sessions: bool,
    palette: bool,
    full_message: bool,
    authorization: bool,
)
    ensures
        ({
            let layers = open_layers(
                narrow_inspector,
                narrow_sessions,
                palette,
                full_message,
                authorization,
            );
            &&& layers.contains(OverlayLayer::NarrowInspector) <==> narrow_inspector
            &&& layers.contains(OverlayLayer::NarrowSessions) <==> narrow_sessions
            &&& layers.contains(OverlayLayer::CommandPalette) <==> palette
            &&& layers.contains(OverlayLayer::FullMessage) <==> full_message
            &&& layers.contains(OverlayLayer::Authorization) <==> authorization
            &&& forall|i: int, j: int|
                0 <= i < j < layers.len() ==> height(#[trigger] layers[i]) < height(
                    #[trigger] layers[j],
                )
        }),
{
    let layers = open_layers(
        narrow_inspector,
        narrow_sessions,
        palette,
        full_message,
        authorization,
    );
    lemma_layer(layers, OverlayLayer::NarrowInspector);
    lemma_layer(layers, OverlayLayer::NarrowSessions);
    lemma_layer(layers, OverlayLayer::CommandPalette);
    lemma_layer(layers, OverlayLayer::FullMessage);
    lemma_layer(layers, OverlayLayer::Authorization);
}

/// How high a layer lies.
pub open spec fn height(layer: OverlayLayer) -> int {
    match layer {
        OverlayLayer::NarrowInspector => 0,
        OverlayLayer::NarrowSessions => 1,
        OverlayLayer::CommandPalette => 2,
        OverlayLayer::FullMessage => 3,
        OverlayLayer::Authorization => 4,
    }
}

proof fn lemma_layer(layers: Seq<OverlayLayer>, layer: OverlayLayer)
    requires
        layers.len() <= 5,
    ensures
        layers.contains(layer) <==> {
            ||| layers.len() > 0 && layers[0] == layer
            ||| layers.len() > 1 && layers[1] == layer
            ||| layers.len() > 2 && layers[2] == layer
            ||| layers.len() > 3 && layers[3] == layer
            ||| layers.len() > 4 && layers[4] == layer
        },
{
}

/// A request for authorization shows all that it asks for: operation, tool, risk and
/// scope always, and path, directory, command and content where it has them, in this
/// order and word for word.
pub proof fn law_requests_show_all_they_ask_for(request: AuthorizationRequestView)
    ensures
        ({
            let shown = authorization_details_words(request);
            let path = if request.path is Some { 1int } else { 0 };
            let cwd = if request.cwd is Some { 1int } else { 0 };
            let command = if request.command is Some { 1int } else { 0 };
            let content = if request.content_preview is Some { 1int } else { 0 };
            &&& shown.len() == 4 + path + cwd + command + content
            &&& shown[0] == "operation  "@ + request.operation_id@
            &&& shown[1] == "tool       "@ + request.tool_name@ + " · "@ + request.tool_call_id@
            &&& shown[2] == "risk       "@ + request.risk@
            &&& shown[3] == "scope      "@ + scope_words(request.scope)
            &&& request.path is Some ==> shown[4] == "path       "@ + request.path->0@
            &&& request.cwd is Some ==> shown[4 + path] == "cwd        "@ + request.cwd->0@
            &&& request.command is Some ==> shown[4 + path + cwd] == "command\n"@
                + request.command->0@
            &&& request.content_preview is Some ==> shown[4 + path + cwd + command]
                == "content preview\n"@ + request.content_preview->0@
        }),
{
}

/// The scope of a request is told by its kind and all of its parts.
pub proof fn law_scopes_are_told_in_full(first: String, second: String)
    ensures
        scope_words(ToolAuthorizationScope::Path { path: first }) == "path · "@ + first@,
        scope_words(
            ToolAuthorizationScope::FilesystemTarget { path: first, target_fingerprint: second },
        ) == "filesystem target · "@ + first@ + " · "@ + second@,
        scope_words(ToolAuthorizationScope::Shell { cwd: first, command_fingerprint: second })
            == "shell · "@ + first@ + " · "@ + second@,
        scope_words(ToolAuthorizationScope::ToolArguments { fingerprint: first })
            == "tool arguments · "@ + first@,
{
}

/// A denial of the window denies, and says where it came from. A row of the palette
/// shows its shortcut where it has one.
pub proof fn law_denials_and_shortcuts_are_shown(label: Seq<char>, shortcut: &'static str)
    ensures
        desktop_denial() == (DecisionView::Deny { reason: Some("denied from native desktop"@) }),
        palette_label(label, Some(shortcut)) == label + "    "@ + shortcut@,
        palette_label(label, None) == label,
{
}

/// A decision is what it says: the kinds do not stand for each other, and a denial
/// keeps its reason.
pub proof fn law_decisions_are_what_they_say(decision: ToolAuthorizationDecision)
    ensures
        decision@ is AllowOnce <==> decision is AllowOnce,
        decision@ is AllowForOperation <==> decision is AllowForOperation,
        decision@ is Deny <==> decision is Deny,
        decision matches ToolAuthorizationDecision::Deny { reason: Some(reason) } ==> decision@
            == (DecisionView::Deny { reason: Some(reason@) }),
{
}

} // verus!
