//! Verified interaction core of the phasma terminal interface: key and action
//! models, overlays, tab navigation and the tabs' settings, layout decisions,
//! widget state machines, the configuration browser (listing, reading and
//! showing TOML files), bounded histories, and the decisions of the
//! application's event loop.

pub mod keys;
pub mod layout;
pub mod guard;
pub mod help;
pub mod text;
pub mod float_text;
pub mod action;
pub mod command_palette;
pub mod export_menu;
pub mod plt_bridge;
pub mod tabs;
pub mod widgets;
pub mod status_bar;
pub mod app;
pub mod components;
pub mod cli;
pub mod config_files;
pub mod history;
