use desktop::change_set::UiRegion;
use desktop::controls::DesktopIcon;
use desktop::conversation::{
    conversation_copy_footer_visible, conversation_identity_header_visible, message_block_id,
    tool_block_id, upsert_indexed_item, ConversationBlockKind, MessageOverlay,
};
use desktop::conversation_actions::{
    conversation_full_message_view, copy_conversation_row, copy_tool_details,
    keyboard_toggles_details, select_adjacent_conversation, AdjacentStep, CommittedBlock,
    LiveMessage, LiveTool, MessageSources, RenderedRow, ScrollStrategy,
};
use desktop::conversation_row::user_message_width;
use desktop::intent::RowMeasurement;
use desktop::markdown_pool::{MarkdownFeed, MarkdownPool, MAX_MARKDOWN_PARSE_STATES};
use desktop::review::{ClipboardFeedback, CopyStep};
use desktop::tool_details::{
    edit_diff_text, tool_detail_copy_text, tool_disclosure_icon, tool_name_from_title, tool_summary,
};
use desktop::view_state::{
    align_scroll_to_bottom, markdown_trace_line, reconcile_projection,
    reconcile_session_view_state, row_target_height, scroll_adjustment, submit_row_measurement,
    BottomAlignment, ConversationRefresh, KeptView, MeasurementStep, ProjectionDelta,
    RowHeightRule, ScrollAdjustment, SessionViews, ShownRow, StreamingTextPhase,
    MAX_SESSION_VIEW_STATES,
};

const USER_MESSAGE_MAX_WIDTH: u32 = 720;

#[test]
fn user_message_width_wraps_content_and_caps_long_lines() {
    assert!(user_message_width("Short prompt", USER_MESSAGE_MAX_WIDTH) < 320);
    assert!(
        user_message_width("中文提示", USER_MESSAGE_MAX_WIDTH)
            >= user_message_width("test", USER_MESSAGE_MAX_WIDTH)
    );
    assert_eq!(
        user_message_width(&"long wrapping prompt ".repeat(200), USER_MESSAGE_MAX_WIDTH),
        USER_MESSAGE_MAX_WIDTH
    );
}

#[test]
fn wide_characters_take_two_columns() {
    assert!(
        user_message_width("中文提示中文提示", USER_MESSAGE_MAX_WIDTH)
            > user_message_width("testtest", USER_MESSAGE_MAX_WIDTH)
    );
}

#[test]
fn tool_titles_and_summaries_use_structured_arguments() {
    assert_eq!(tool_name_from_title("Tool · bash · 320 ms"), "bash");
    assert_eq!(
        tool_summary("bash", r#"{"command":"git status --short"}"#, ""),
        "git status --short"
    );
    assert_eq!(
        tool_summary(
            "read",
            r#"{"path":"src/main.rs","offset":40,"limit":80}"#,
            ""
        ),
        "src/main.rs [40,80]"
    );
    assert_eq!(
        tool_summary(
            "edit",
            r#"{"path":"src/main.rs","oldText":"one\ntwo","newText":"three\nfour\nfive"}"#,
            ""
        ),
        "src/main.rs +3 -2"
    );
}

#[test]
fn edit_text_has_the_lines_that_its_summary_counts() {
    let arguments = r#"{"path":"a.rs","edits":[{"oldText":"one\r\n\ntwo\r\r\n","newText":"- three"},{"oldText":"","newText":"four\nfive\n"}],"oldText":"six","newText":"+ seven"}"#;
    assert_eq!(tool_summary("edit", arguments, ""), "a.rs +4 -4");
    let text = edit_diff_text(arguments, "");
    let starting = |sign: &str| text.lines().filter(|line| line.starts_with(sign)).count();
    assert_eq!((starting("+ "), starting("- ")), (4, 4));
    assert_eq!(text.lines().count(), 8);
    let order: Vec<&str> = text.lines().map(|line| &line[..1]).collect();
    assert_eq!(order, ["-", "-", "-", "+", "+", "+", "-", "+"]);
    assert_eq!(edit_diff_text("no arguments", "none either"), "");
    assert_eq!(tool_summary("edit", "no arguments", "none either"), "");
}

#[test]
fn tool_detail_copy_matches_the_expanded_shell_and_edit_views() {
    assert_eq!(
        tool_detail_copy_text(
            "Tool · shell · 1.2 s",
            r#"{"command":"git status"}"#,
            "M src/main.rs\n"
        ),
        "$ git status\nM src/main.rs\n"
    );
    let edit = r#"{"path":"src/main.rs","oldText":"old one\nold two","newText":"new one"}"#;
    assert_eq!(edit_diff_text(edit, ""), "- old one\n- old two\n+ new one");
    assert_eq!(
        tool_detail_copy_text("Tool · edit · 90 ms", edit, "done"),
        "- old one\n- old two\n+ new one"
    );
}

#[test]
fn identity_headers_hide_for_user_and_continue_across_a_tool_row() {
    assert!(!conversation_identity_header_visible(
        ConversationBlockKind::User,
        Some(ConversationBlockKind::Assistant)
    ));
    assert!(!conversation_identity_header_visible(
        ConversationBlockKind::Assistant,
        Some(ConversationBlockKind::Tool)
    ));
    assert!(conversation_identity_header_visible(
        ConversationBlockKind::Assistant,
        Some(ConversationBlockKind::User)
    ));
    assert!(conversation_identity_header_visible(
        ConversationBlockKind::Tool,
        Some(ConversationBlockKind::Assistant)
    ));
}

#[test]
fn assistant_copy_waits_until_the_tool_group_finishes() {
    assert!(!conversation_copy_footer_visible(
        ConversationBlockKind::Assistant,
        Some(ConversationBlockKind::Tool)
    ));
    assert!(conversation_copy_footer_visible(
        ConversationBlockKind::Assistant,
        None
    ));
    assert!(!conversation_copy_footer_visible(
        ConversationBlockKind::Tool,
        Some(ConversationBlockKind::Assistant)
    ));
}

#[test]
fn tool_disclosure_rotates_down_when_expanded() {
    assert_eq!(tool_disclosure_icon(false), DesktopIcon::ChevronRight);
    assert_eq!(tool_disclosure_icon(true), DesktopIcon::ChevronDown);
}

/// Brings a document to a text as the pool says.
fn apply(document: &mut String, feed: MarkdownFeed, text: &str) {
    match feed {
        MarkdownFeed::Keep => {}
        MarkdownFeed::Append(suffix) => document.push_str(&suffix),
        MarkdownFeed::Replace | MarkdownFeed::Create => *document = text.to_owned(),
    }
}

#[test]
fn streamed_chunks_and_a_single_parse_reach_the_same_document() {
    let chunks = [
        "# Heading\n\nfirst paragraph with **bold**\n\n",
        "- alpha\n- beta\n\n",
        "```rust\nfn main() {}\n```\n\n",
        "closing paragraph\n",
    ];
    let full: String = chunks.concat();
    let mut pool = MarkdownPool::new();
    let mut accumulated = String::new();
    let mut streamed = String::new();
    for (index, chunk) in chunks.iter().enumerate() {
        accumulated.push_str(chunk);
        let feed = pool.feed("transcript-markdown:row:settling", &accumulated);
        if index == 0 {
            assert_eq!(feed, MarkdownFeed::Create);
        } else {
            assert_eq!(feed, MarkdownFeed::Append((*chunk).to_owned()));
        }
        apply(&mut streamed, feed, &accumulated);
    }
    let mut oneshot = String::new();
    let feed = pool.feed("transcript-markdown:other:settling", &full);
    apply(&mut oneshot, feed, &full);
    assert_eq!(streamed, oneshot);
    assert_eq!(pool.states.len(), 2);
    assert_eq!(
        pool.feed("transcript-markdown:row:settling", &full),
        MarkdownFeed::Keep
    );
}

#[test]
fn a_rewritten_row_replaces_its_document_in_place() {
    let mut pool = MarkdownPool::new();
    let key = "transcript-markdown:rewound:settling";
    let long = "paragraph\n\n".repeat(12);
    assert_eq!(pool.feed(key, &long), MarkdownFeed::Create);
    assert_eq!(pool.feed(key, "paragraph\n"), MarkdownFeed::Replace);
    assert_eq!(pool.states.len(), 1);
}

#[test]
fn the_parse_state_pool_stays_bounded() {
    let mut pool = MarkdownPool::new();
    for index in 0..(MAX_MARKDOWN_PARSE_STATES * 3) {
        pool.begin_frame();
        pool.feed(&format!("transcript-markdown:row-{index}:settling"), "body");
    }
    let dropped = pool.evict_markdown_states();
    assert_eq!(pool.states.len(), MAX_MARKDOWN_PARSE_STATES);
    assert_eq!(dropped.len(), MAX_MARKDOWN_PARSE_STATES * 2);
}

#[test]
fn block_names_follow_the_message_and_the_tool() {
    let mut message = MessageOverlay {
        message_id: None,
        operation_id: "op".into(),
        turn_id: "turn".into(),
    };
    assert_eq!(message_block_id(&message), "assistant:op:turn");
    message.message_id = Some("m".into());
    assert_eq!(message_block_id(&message), "assistant:m");
    assert_eq!(tool_block_id("call"), "tool:call");
}

#[test]
fn an_upserted_item_moves_to_its_place() {
    let mut items = vec!["a", "b", "c"];
    assert_eq!(upsert_indexed_item(&mut items, Some(0), 2, "A"), 1);
    assert_eq!(items, ["b", "A", "c"]);
    assert_eq!(upsert_indexed_item(&mut items, Some(1), 1, "B"), 1);
    assert_eq!(items, ["b", "B", "c"]);
    assert_eq!(upsert_indexed_item(&mut items, None, 9, "z"), 3);
    assert_eq!(items, ["b", "B", "c", "z"]);
}

fn sources() -> MessageSources {
    MessageSources {
        blocks: vec![CommittedBlock {
            block_id: "committed".into(),
            title: "You".into(),
            copy_text: "hello".into(),
            text: "hello".into(),
            detail: String::new(),
            truncated: false,
        }],
        messages: vec![LiveMessage {
            overlay: MessageOverlay {
                message_id: Some("live".into()),
                operation_id: "op".into(),
                turn_id: "turn".into(),
            },
            text: "text".into(),
            thinking: "thought".into(),
            truncated: false,
        }],
        tools: vec![LiveTool {
            tool_call_id: "call".into(),
            name: "edit".into(),
            detail: "done".into(),
            arguments: String::new(),
            truncated: true,
        }],
        rows: vec![RenderedRow {
            row_id: "shown".into(),
            title: "Diagnostic".into(),
            text: "lost".into(),
            detail: "why".into(),
            preview_truncated: true,
        }],
    }
}

#[test]
fn full_messages_come_from_the_best_source() {
    let sources = sources();
    let committed = conversation_full_message_view(true, &sources, "committed", 1_000).unwrap();
    assert_eq!(
        (committed.title.as_str(), committed.text.as_str()),
        ("You", "hello")
    );
    assert!(!committed.source_truncated);
    assert!(
        conversation_full_message_view(true, &sources, "committed", 4)
            .unwrap()
            .source_truncated
    );
    let live = conversation_full_message_view(true, &sources, "assistant:live", 1_000).unwrap();
    assert_eq!(live.title, "Assistant · live");
    assert_eq!(live.text, "text\nthought");
    let tool = conversation_full_message_view(true, &sources, "tool:call", 1_000).unwrap();
    assert_eq!(tool.title, "Tool · edit");
    assert!(tool.source_truncated);
    let shown = conversation_full_message_view(true, &sources, "shown", 1_000).unwrap();
    assert_eq!(shown.text, "lost\nwhy");
    assert_eq!(
        conversation_full_message_view(true, &sources, "gone", 1_000),
        None
    );
    assert_eq!(
        conversation_full_message_view(false, &sources, "committed", 1_000),
        None
    );
}

#[test]
fn copies_are_refused_once_the_message_is_gone() {
    match copy_conversation_row(None) {
        CopyStep::Refuse(reply) => assert_eq!(
            reply.notice.as_deref(),
            Some("Message is no longer available to copy.")
        ),
        other => panic!("unexpected step {other:?}"),
    }
    let sources = sources();
    assert_eq!(
        copy_tool_details(&sources.rows, "shown"),
        CopyStep::Write {
            text: Some("lost".into()),
            feedback: ClipboardFeedback::ConversationAnnouncement("Tool details copied.".into()),
        }
    );
    assert!(keyboard_toggles_details(
        &sources.rows,
        &Some("shown".into())
    ));
    assert!(!keyboard_toggles_details(&sources.rows, &None));
}

#[test]
fn selection_moves_only_where_there_are_rows() {
    assert_eq!(
        select_adjacent_conversation(false, 3, 0, true),
        AdjacentStep::Ignore
    );
    assert!(matches!(
        select_adjacent_conversation(true, 0, 0, true),
        AdjacentStep::Refuse(_)
    ));
    assert_eq!(
        select_adjacent_conversation(true, 3, 2, false),
        AdjacentStep::Select {
            index: 2,
            scroll: ScrollStrategy::Bottom,
            refresh: vec![UiRegion::Conversation, UiRegion::ConversationHeader],
        }
    );
}

fn views() -> SessionViews<u32, u32> {
    SessionViews {
        viewport: 5,
        expanded_details: vec!["row".into()],
        pending_scroll_restore: None,
        kept: Vec::new(),
    }
}

#[test]
fn returning_to_a_session_restores_its_view() {
    let (away, switched) = reconcile_session_view_state(views(), "a".into(), "b", 40, 8, 0);
    assert!(switched);
    assert_eq!((away.viewport, away.pending_scroll_restore), (8, Some(0)));
    assert!(away.expanded_details.is_empty());
    let kept = away.kept;
    let away = SessionViews {
        viewport: 99,
        expanded_details: vec!["opened meanwhile".into()],
        pending_scroll_restore: None,
        kept,
    };
    let (back, switched) = reconcile_session_view_state(away, "b".into(), "a", 7, 8, 0);
    assert!(switched);
    assert_eq!((back.viewport, back.pending_scroll_restore), (5, Some(40)));
    assert_eq!(back.expanded_details, ["row"]);
    assert_eq!(back.kept.len(), 1);
    assert_eq!(back.kept[0].session_id, "b");
    assert_eq!((back.kept[0].viewport, back.kept[0].scroll_top), (99, 7));
    let (same, switched) = reconcile_session_view_state(back, "a".into(), "a", 1, 8, 0);
    assert!(!switched);
    assert_eq!(same.viewport, 5);
}

#[test]
fn kept_views_do_not_outgrow_their_limit() {
    let mut views = views();
    for index in 0..(MAX_SESSION_VIEW_STATES + 20) {
        let (next, _) = reconcile_session_view_state(
            views,
            format!("s{index}"),
            &format!("s{}", index + 1),
            0,
            8,
            0,
        );
        views = next;
    }
    assert_eq!(views.kept.len(), MAX_SESSION_VIEW_STATES);
    let oldest: &KeptView<u32, u32> = &views.kept[0];
    assert_eq!(oldest.session_id, "s20");
}

#[test]
fn measurements_count_only_for_the_row_as_measured() {
    let rows = vec![ShownRow {
        item_key: "key".into(),
        row_id: "row".into(),
        source_revision: 3,
        width_bucket: 640,
        text_phase: StreamingTextPhase::FinalMarkdown,
        durable: true,
    }];
    let mut measurement = RowMeasurement {
        item_key: "key".into(),
        source_revision: 3,
        width_bucket: 640,
        text_phase: StreamingTextPhase::FinalMarkdown,
        details_expanded: true,
        sample: 1,
    };
    let expanded = vec!["row".to_owned()];
    assert_eq!(
        submit_row_measurement(&rows, &expanded, &measurement),
        MeasurementStep::Accept {
            index: 0,
            durable: true
        }
    );
    assert_eq!(
        submit_row_measurement(&rows, &Vec::new(), &measurement),
        MeasurementStep::Stale
    );
    measurement.source_revision = 2;
    assert_eq!(
        submit_row_measurement(&rows, &expanded, &measurement),
        MeasurementStep::Stale
    );
    measurement.item_key = "other".into();
    assert_eq!(
        submit_row_measurement(&rows, &expanded, &measurement),
        MeasurementStep::Unmounted
    );
}

#[test]
fn heights_and_scroll_follow_the_row() {
    assert_eq!(
        row_target_height(ConversationBlockKind::Assistant, false, true, true),
        RowHeightRule::CollapsedText
    );
    assert_eq!(
        row_target_height(ConversationBlockKind::Tool, false, true, false),
        RowHeightRule::CollapsedEmpty
    );
    assert_eq!(
        row_target_height(ConversationBlockKind::Tool, true, true, true),
        RowHeightRule::Estimated
    );
    assert_eq!(
        scroll_adjustment(true, false),
        ScrollAdjustment::KeepAnchor
    );
    assert_eq!(align_scroll_to_bottom(0, true, 0), BottomAlignment::Top);
    assert_eq!(
        align_scroll_to_bottom(4, true, 4),
        BottomAlignment::ByHeights
    );
    assert_eq!(
        align_scroll_to_bottom(4, true, 3),
        BottomAlignment::ToRow(3)
    );
}

#[test]
fn a_completed_prompt_settles_the_draft() {
    let plan = reconcile_projection(true, None, true, false, true);
    assert!(plan.settles_submission && plan.composer_needs_sync);
    assert_eq!(plan.refresh, ConversationRefresh::Hydration);
    let running = reconcile_projection(true, None, true, true, true);
    assert!(!running.settles_submission);
    let delta = reconcile_projection(
        false,
        Some(ProjectionDelta {
            conversation: false,
            tools: true,
        }),
        true,
        false,
        true,
    );
    assert_eq!(delta.refresh, ConversationRefresh::Content);
    assert!(!delta.composer_needs_sync);
}

#[test]
fn markdown_traces_name_their_phase() {
    assert_eq!(
        markdown_trace_line("transcript:final:1", 12, 345),
        "desktop_trace\tmarkdown_parse_complete\tstate_key=transcript:final:1\tphase=final\tbytes=12\tmarkdown_parse_to_layout_us=345"
    );
    assert!(markdown_trace_line("x", 0, 0).contains("\tphase=settling\t"));
}
