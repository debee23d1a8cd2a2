//! The command line: its options, and the version string it reports.

use vstd::prelude::*;
use vstd::string::*;

verus! {

/// The command line's options.
#[derive(Debug, Clone)]
pub struct Cli {
    /// Path to a simulation configuration file (TOML format).
    pub config: Option<String>,
    /// Start the simulation immediately after loading the config.
    pub run: bool,
    /// Headless batch mode — run without TUI, save output to disk.
    pub batch: bool,
    /// Replay recorded snapshots from a batch output directory in the TUI.
    pub playback: Option<String>,
    /// Side-by-side TUI comparison of two simulation output directories.
    pub compare: Option<Vec<String>>,
    /// Parameter sweep over a Cartesian product of parameter values.
    pub sweep: Option<String>,
    /// Convergence study at increasing spatial resolutions.
    pub convergence: Option<String>,
    /// Regression test against a reference batch output directory.
    pub regression_test: Option<String>,
    /// Monitor a running batch job's output directory.
    pub monitor: Option<String>,
    /// Like `monitor`, always showing the latest snapshot.
    pub tail: Option<String>,
    /// Launch the guided first-run wizard.
    pub wizard: bool,
    /// Save the loaded config as a named preset.
    pub save_preset: Option<String>,
    /// Generate a Markdown comparison report across batch output directories.
    pub batch_compare: Option<Vec<String>>,
    /// Output file path for the batch comparison report.
    pub report: Option<String>,
    /// Generate a man page (roff format) and print it to stdout.
    pub generate_man: bool,
}

/// The short version string: the package version, the git description when
/// there is a non-empty one, and the build date ("unknown" without one).
pub open spec fn short_version_spec(ver: Seq<char>, git: Option<Seq<char>>, date: Option<Seq<char>>) -> Seq<char> {
    let g = match git {
        Some(g) => g,
        None => Seq::empty(),
    };
    let d = match date {
        Some(d) => d,
        None => "unknown"@,
    };
    if g.len() == 0 {
        ver + " ("@ + d + ")"@
    } else {
        ver + "-"@ + g + " ("@ + d + ")"@
    }
}

/// The short version string, from the package version and the git
/// description and build date recorded at build time (when they were).
pub fn short_version(ver: &str, git: Option<&str>, date: Option<&str>) -> (s: String)
    ensures
        s@ == short_version_spec(ver@, match git { Some(g) => Some(g@), None => None }, match date { Some(d) => Some(d@), None => None }),
{
    let d: &str = match date {
        Some(d) => d,
        None => "unknown",
    };
    let git_text: &str = match git {
        Some(g) => g,
        None => "",
    };
    proof {
        reveal_strlit("");
    }
    if git_text.unicode_len() == 0 {
        String::from_str(ver).concat(" (").concat(d).concat(")")
    } else {
        String::from_str(ver).concat("-").concat(git_text).concat(" (").concat(d).concat(")")
    }
}

/// The long version text: the short version, then the authors and the
/// configuration and data directories, each on a line of its own after a
/// blank line.
pub open spec fn long_version_spec(short: Seq<char>, author: Seq<char>, config_dir: Seq<char>, data_dir: Seq<char>) -> Seq<char> {
    short + "\n\nAuthors: "@ + author + "\n\nConfig directory: "@ + config_dir + "\nData directory: "@ + data_dir
}

/// The long version text, from the short version, the package's authors and
/// the directories the interface reads its configuration and data from.
pub fn long_version(short: &str, author: &str, config_dir: &str, data_dir: &str) -> (s: String)
    ensures
        s@ == long_version_spec(short@, author@, config_dir@, data_dir@),
{
    String::from_str(short)
        .concat("\n\nAuthors: ")
        .concat(author)
        .concat("\n\nConfig directory: ")
        .concat(config_dir)
        .concat("\nData directory: ")
        .concat(data_dir)
}

} // verus!
