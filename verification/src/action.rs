use vstd::prelude::*;

verus! {

/// What the simulation reported in an update, as far as the interface's
/// decisions read it: the step number, why the run ended (when it did), and
/// the messages it logged since the last update.
#[derive(Debug, Clone, PartialEq, Eq)]
pub struct SimStatus {
    pub step: u64,
    pub exit_reason: Option<String>,
    pub log_messages: Vec<String>,
}

impl SimStatus {
    /// Whether the run has ended.
    pub open spec fn exited(self) -> bool {
        self.exit_reason is Some
    }

    /// Whether the run has ended.
    pub fn has_exited(&self) -> (b: bool)
        ensures
            b == self.exited(),
    {
        self.exit_reason.is_some()
    }
}

/// A message on the interface's action channel.
#[derive(Debug, Clone, PartialEq, Eq)]
pub enum Action {
    Tick,
    Render,
    Resize(u16, u16),
    Suspend,
    Resume,
    Quit,
    ClearScreen,
    Error(String),
    Help,
    // Tab navigation
    TabNext,
    TabPrev,
    SelectTab(usize),
    // Config
    ConfigLoaded(String),
    // Simulation control
    SimStart,
    SimPause,
    SimResume,
    SimStop,
    SimRestart,
    SimUpdate(SimStatus),
    StatusMsg(String),
    // Scrubbing (time navigation)
    ScrubBackward,
    ScrubForward,
    ScrubToLive,
    ScrubJumpBackward,
    ScrubJumpForward,
    ScrubToStart,
    ScrubToEnd,
    // Visualization
    VizCycleColormap,
    VizToggleLog,
    VizCycleProjection,
    // Export
    ExportMenuOpen,
    ExportMenuClose,
    // Help
    HelpToggle,
    // Theme
    ThemeCycle,
}

} // verus!
