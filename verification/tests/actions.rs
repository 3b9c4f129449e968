use desktop::actions::{
    bind_keys, palette_entries, root_bindings, DesktopAction, DesktopCommandPalette,
    DesktopPaletteCommand, KeyContext, PALETTE_ENTRY_COUNT,
};
use desktop::text::trim;
use std::collections::HashSet;

#[test]
fn palette_routes_unique_typed_commands_with_semantic_labels() {
    let entries = palette_entries();
    let commands = entries
        .iter()
        .map(|entry| entry.command)
        .collect::<HashSet<_>>();
    assert_eq!(commands.len(), entries.len());
    assert!(entries.iter().all(|entry| {
        !entry.label.trim().is_empty() && !entry.semantic_label.trim().is_empty()
    }));
}

#[test]
fn white_space_is_trimmed_and_nothing_else() {
    let spaces = [
        '\u{9}', '\u{a}', '\u{b}', '\u{c}', '\u{d}', '\u{20}', '\u{85}', '\u{a0}', '\u{1680}',
        '\u{2000}', '\u{2001}', '\u{2002}', '\u{2003}', '\u{2004}', '\u{2005}', '\u{2006}',
        '\u{2007}', '\u{2008}', '\u{2009}', '\u{200a}', '\u{2028}', '\u{2029}', '\u{202f}',
        '\u{205f}', '\u{3000}',
    ];
    for ch in '\0'..=char::MAX {
        assert_eq!(
            trim(&ch.to_string()).is_empty(),
            spaces.contains(&ch),
            "{ch:?}"
        );
    }
    assert_eq!(trim("\u{3000} New session\t"), "New session");
}

#[test]
fn palette_selection_wraps_and_resets_on_open() {
    let mut palette = DesktopCommandPalette::default();
    palette.open();
    assert_eq!(palette.selected(), 0);
    assert_eq!(
        palette.selected_command(),
        Some(DesktopPaletteCommand::NewSession)
    );

    palette.move_selection(true);
    assert_eq!(palette.selected(), palette_entries().len() - 1);
    palette.move_selection(false);
    assert_eq!(palette.selected(), 0);

    palette.close();
    assert_eq!(palette.selected_command(), None);
    palette.open();
    assert_eq!(palette.selected(), 0);
}

#[test]
fn root_key_bindings_have_no_contextual_conflicts() {
    let bindings = root_bindings();
    let unique = bindings
        .iter()
        .map(|binding| (binding.keystroke, binding.context))
        .collect::<HashSet<_>>();
    assert_eq!(unique.len(), bindings.len());
}

#[test]
fn platform_equivalent_shortcuts_are_paired() {
    let root = root_bindings();
    let bindings = root
        .iter()
        .map(|binding| binding.keystroke)
        .collect::<HashSet<_>>();
    for key in ["k", "p", "n", "l", "enter", "escape", "\\"] {
        assert!(bindings.contains(format!("ctrl-{key}").as_str()));
        assert!(bindings.contains(format!("cmd-{key}").as_str()));
    }
    assert!(bindings.contains("ctrl-tab"));
    assert!(bindings.contains("ctrl-shift-tab"));
    assert!(bindings.contains("cmd-tab"));
    assert!(bindings.contains("cmd-shift-tab"));
    assert!(!bindings.contains("tab"));
    assert!(!bindings.contains("shift-tab"));
}

#[test]
fn root_bindings_are_the_twenty_that_apply_everywhere() {
    let root = root_bindings();
    assert_eq!(root.len(), 20);
    assert_eq!(root[0].keystroke, "ctrl-k");
    assert_eq!(root[19].keystroke, "cmd-shift-tab");
    assert!(root.iter().all(|binding| binding.context == "PiDesktop"));
}

#[test]
fn every_binding_is_unique_in_its_context() {
    let all = bind_keys();
    assert_eq!(all.len(), 43);
    let unique = all
        .iter()
        .map(|row| (row.keystroke, row.context.name()))
        .collect::<HashSet<_>>();
    assert_eq!(unique.len(), all.len());
    assert!(all.iter().any(|row| {
        row.keystroke == "3"
            && row.action == DesktopAction::AuthorizationAllowForOperation
            && row.context == KeyContext::Authorization
    }));
}

#[test]
fn palette_moves_undo_each_other_and_stop_when_closed() {
    let mut palette = DesktopCommandPalette::default();
    palette.move_selection(false);
    assert_eq!(palette.selected(), 0);
    palette.open();
    for step in 0..PALETTE_ENTRY_COUNT {
        assert_eq!(palette.selected(), step);
        palette.move_selection(false);
        palette.move_selection(true);
        assert_eq!(palette.selected(), step);
        palette.move_selection(false);
    }
    assert_eq!(palette.selected(), 0);
    palette.move_selection(true);
    assert_eq!(
        palette.selected_command(),
        Some(DesktopPaletteCommand::ToggleReducedMotion)
    );
    palette.close();
    assert!(!palette.is_open());
    assert_eq!(palette.selected(), PALETTE_ENTRY_COUNT - 1);
}
