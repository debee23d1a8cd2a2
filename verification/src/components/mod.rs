//! The three-tab workflow view: preparation, run and exit.

pub mod prep_tab;
pub mod run_tab;
pub mod exit_tab;
pub mod tab_view;
