//! Records of one benchmark run's profile output, as the benchmarking
//! harness stores and reads them: the measured differences between two runs,
//! the per-process information of a profiling tool run, and where and in
//! which format the summary file is written.

use vstd::prelude::*;

pub mod builder;

verus! {

/// Error of a builder that is completed while a required field is missing.
#[derive(Debug, Clone)]
pub struct ConversionError(pub String);

/// The difference between the metrics of two benchmark runs.
#[derive(Debug, Clone)]
pub struct Diffs {
    /// The percentage of the difference between two metrics, serialized as
    /// a string to preserve infinity values.
    pub diff_pct: String,
    /// The factor of the difference between two metrics, serialized as a
    /// string to preserve infinity values.
    pub factor: String,
}

impl Diffs {
    /// Start composing a [`Diffs`] record field by field.
    pub fn builder() -> (r: builder::Diffs)
        ensures
            r.diff_pct is Err,
            r.factor is Err,
    {
        builder::Diffs::default()
    }
}

/// Details of one profiling tool run: the executed command, its process ids
/// and, for tools that produce them, the part and thread of the run.
#[derive(Debug, Clone)]
pub struct ProfileInfo {
    /// The executed command extracted from the tool output.
    pub command: String,
    /// More details, for example from the logging output of the tool run.
    pub details: Option<String>,
    /// The parent pid of this process.
    pub parent_pid: Option<i32>,
    /// The part of this tool run.
    pub part: Option<u64>,
    /// The path to the file from the tool run.
    pub path: String,
    /// The pid of this process.
    pub pid: i32,
    /// The thread of this tool run.
    pub thread: Option<u32>,
}

impl ProfileInfo {
    /// Start composing a [`ProfileInfo`] record field by field.
    pub fn builder() -> (r: builder::ProfileInfo)
        ensures
            r.command is Err,
            r.details == Ok::<Option<String>, String>(None),
            r.parent_pid == Ok::<Option<i32>, String>(None),
            r.part == Ok::<Option<u64>, String>(None),
            r.path is Err,
            r.pid is Err,
            r.thread == Ok::<Option<u32>, String>(None),
    {
        builder::ProfileInfo::default()
    }
}

/// The format of the summary file.
#[derive(Debug, Clone, Copy, PartialEq, Eq, Structural)]
pub enum SummaryFormat {
    /// The format in a space optimal json representation without newlines.
    Json,
    /// The format in pretty printed json.
    PrettyJson,
}

/// Where and in which format the summary file is written.
#[derive(Debug, Clone)]
pub struct SummaryOutput {
    /// The format of the summary file.
    pub format: SummaryFormat,
    /// The path to the summary file.
    pub path: String,
}

impl SummaryOutput {
    /// Start composing a [`SummaryOutput`] record field by field.
    pub fn builder() -> (r: builder::SummaryOutput)
        ensures
            r.format is Err,
            r.path is Err,
    {
        builder::SummaryOutput::default()
    }
}

} // verus!
