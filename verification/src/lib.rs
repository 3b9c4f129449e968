//! Decision logic of the native desktop shell.
//!
//! Every rule that decides what the desktop shows, which command it admits and
//! how its catalogs, panes and replays evolve is a function of plain values
//! here, with a contract. Painting, windows and the runtime stay outside.
pub mod actions;
pub mod catalog;
pub mod change_set;
pub mod clock;
pub mod commands;
pub mod composer_pane;
pub mod controls;
pub mod conversation;
pub mod conversation_actions;
pub mod conversation_header;
pub mod conversation_row;
pub mod home;
pub mod inspector_pane;
pub mod intent;
pub mod markdown_pool;
pub mod overlay;
pub mod replay_fixture;
pub mod replay_frames;
pub mod replay_plan;
pub mod replay_spec;
pub mod review;
pub mod session_controller;
pub mod session_events;
pub mod sessions_pane;
pub mod shell;
pub mod startup;
pub mod text;
pub mod theme;
pub mod tool_details;
pub mod view_state;
pub mod workspace;
