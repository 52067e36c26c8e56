//! Builders composing the summary records field by field.
//!
//! Each field starts out as an `Err` naming the missing value (or as an
//! `Ok` default where the record allows absence); setting it replaces the
//! slot with `Ok`. Completing a builder succeeds once every required field
//! has been set, and otherwise reports the first missing field.

use vstd::prelude::*;

use crate::summary::ConversionError;
use crate::summary::SummaryFormat;

verus! {

/// A field-by-field composer for [`Diffs`](crate::summary::Diffs).
#[derive(Debug)]
pub struct Diffs {
    pub diff_pct: Result<String, String>,
    pub factor: Result<String, String>,
}

impl Default for Diffs {
    fn default() -> (r: Self)
        ensures
            r.diff_pct matches Err(m) && m@ == "no value supplied for diff_pct"@,
            r.factor matches Err(m) && m@ == "no value supplied for factor"@,
    {
        Self {
            diff_pct: Err(String::from_str("no value supplied for diff_pct")),
            factor: Err(String::from_str("no value supplied for factor")),
        }
    }
}

impl Diffs {
    /// Supply the percentage difference.
    pub fn diff_pct(self, value: String) -> (r: Self)
        ensures
            r.diff_pct == Ok::<String, String>(value),
            r.factor == self.factor,
    {
        let mut this = self;
        this.diff_pct = Ok(value);
        this
    }

    /// Supply the factor of the difference.
    pub fn factor(self, value: String) -> (r: Self)
        ensures
            r.factor == Ok::<String, String>(value),
            r.diff_pct == self.diff_pct,
    {
        let mut this = self;
        this.factor = Ok(value);
        this
    }
}

/// What completing a [`Diffs`] builder yields.
pub open spec fn diffs_complete_spec(value: Diffs) -> Result<
    crate::summary::Diffs,
    ConversionError,
> {
    if value.diff_pct is Err {
        Err(ConversionError(value.diff_pct->Err_0))
    } else if value.factor is Err {
        Err(ConversionError(value.factor->Err_0))
    } else {
        Ok(
            crate::summary::Diffs {
                diff_pct: value.diff_pct->Ok_0,
                factor: value.factor->Ok_0,
            },
        )
    }
}

impl TryFrom<Diffs> for crate::summary::Diffs {
    type Error = ConversionError;

    fn try_from(value: Diffs) -> (r: Result<Self, ConversionError>) {
        let diff_pct = match value.diff_pct {
            Ok(diff_pct) => diff_pct,
            Err(message) => {
                return Err(ConversionError(message));
            },
        };
        let factor = match value.factor {
            Ok(factor) => factor,
            Err(message) => {
                return Err(ConversionError(message));
            },
        };
        Ok(Self { diff_pct, factor })
    }
}

impl vstd::std_specs::convert::TryFromSpecImpl<Diffs> for crate::summary::Diffs {
    open spec fn obeys_try_from_spec() -> bool {
        true
    }

    open spec fn try_from_spec(value: Diffs) -> Result<Self, ConversionError> {
        diffs_complete_spec(value)
    }
}

/// A field-by-field composer for [`ProfileInfo`](crate::summary::ProfileInfo).
#[derive(Debug)]
pub struct ProfileInfo {
    pub command: Result<String, String>,
    pub details: Result<Option<String>, String>,
    pub parent_pid: Result<Option<i32>, String>,
    pub part: Result<Option<u64>, String>,
    pub path: Result<String, String>,
    pub pid: Result<i32, String>,
    pub thread: Result<Option<u32>, String>,
}

impl Default for ProfileInfo {
    fn default() -> (r: Self)
        ensures
            r.command matches Err(m) && m@ == "no value supplied for command"@,
            r.details == Ok::<Option<String>, String>(None),
            r.parent_pid == Ok::<Option<i32>, String>(None),
            r.part == Ok::<Option<u64>, String>(None),
            r.path matches Err(m) && m@ == "no value supplied for path"@,
            r.pid matches Err(m) && m@ == "no value supplied for pid"@,
            r.thread == Ok::<Option<u32>, String>(None),
    {
        Self {
            command: Err(String::from_str("no value supplied for command")),
            details: Ok(None),
            parent_pid: Ok(None),
            part: Ok(None),
            path: Err(String::from_str("no value supplied for path")),
            pid: Err(String::from_str("no value supplied for pid")),
            thread: Ok(None),
        }
    }
}

impl ProfileInfo {
    /// Supply the executed command.
    pub fn command(self, value: String) -> (r: Self)
        ensures
            r == (ProfileInfo { command: Ok(value), ..self }),
    {
        let mut this = self;
        this.command = Ok(value);
        this
    }

    /// Supply the details of the tool run.
    pub fn details(self, value: Option<String>) -> (r: Self)
        ensures
            r == (ProfileInfo { details: Ok(value), ..self }),
    {
        let mut this = self;
        this.details = Ok(value);
        this
    }

    /// Supply the parent pid.
    pub fn parent_pid(self, value: Option<i32>) -> (r: Self)
        ensures
            r == (ProfileInfo { parent_pid: Ok(value), ..self }),
    {
        let mut this = self;
        this.parent_pid = Ok(value);
        this
    }

    /// Supply the part of the tool run.
    pub fn part(self, value: Option<u64>) -> (r: Self)
        ensures
            r == (ProfileInfo { part: Ok(value), ..self }),
    {
        let mut this = self;
        this.part = Ok(value);
        this
    }

    /// Supply the path to the file from the tool run.
    pub fn path(self, value: String) -> (r: Self)
        ensures
            r == (ProfileInfo { path: Ok(value), ..self }),
    {
        let mut this = self;
        this.path = Ok(value);
        this
    }

    /// Supply the pid of the process.
    pub fn pid(self, value: i32) -> (r: Self)
        ensures
            r == (ProfileInfo { pid: Ok(value), ..self }),
    {
        let mut this = self;
        this.pid = Ok(value);
        this
    }

    /// Supply the thread of the tool run.
    pub fn thread(self, value: Option<u32>) -> (r: Self)
        ensures
            r == (ProfileInfo { thread: Ok(value), ..self }),
    {
        let mut this = self;
        this.thread = Ok(value);
        this
    }
}

/// What completing a [`ProfileInfo`] builder yields.
pub open spec fn profile_info_complete_spec(value: ProfileInfo) -> Result<
    crate::summary::ProfileInfo,
    ConversionError,
> {
    if value.command is Err {
        Err(ConversionError(value.command->Err_0))
    } else if value.details is Err {
        Err(ConversionError(value.details->Err_0))
    } else if value.parent_pid is Err {
        Err(ConversionError(value.parent_pid->Err_0))
    } else if value.part is Err {
        Err(ConversionError(value.part->Err_0))
    } else if value.path is Err {
        Err(ConversionError(value.path->Err_0))
    } else if value.pid is Err {
        Err(ConversionError(value.pid->Err_0))
    } else if value.thread is Err {
        Err(ConversionError(value.thread->Err_0))
    } else {
        Ok(
            crate::summary::ProfileInfo {
                command: value.command->Ok_0,
                details: value.details->Ok_0,
                parent_pid: value.parent_pid->Ok_0,
                part: value.part->Ok_0,
                path: value.path->Ok_0,
                pid: value.pid->Ok_0,
                thread: value.thread->Ok_0,
            },
        )
    }
}

impl TryFrom<ProfileInfo> for crate::summary::ProfileInfo {
    type Error = ConversionError;

    fn try_from(value: ProfileInfo) -> (r: Result<Self, ConversionError>) {
        let command = match value.command {
            Ok(command) => command,
            Err(message) => {
                return Err(ConversionError(message));
            },
        };
        let details = match value.details {
            Ok(details) => details,
            Err(message) => {
                return Err(ConversionError(message));
            },
        };
        let parent_pid = match value.parent_pid {
            Ok(parent_pid) => parent_pid,
            Err(message) => {
                return Err(ConversionError(message));
            },
        };
        let part = match value.part {
            Ok(part) => part,
            Err(message) => {
                return Err(ConversionError(message));
            },
        };
        let path = match value.path {
            Ok(path) => path,
            Err(message) => {
                return Err(ConversionError(message));
            },
        };
        let pid = match value.pid {
            Ok(pid) => pid,
            Err(message) => {
                return Err(ConversionError(message));
            },
        };
        let thread = match value.thread {
            Ok(thread) => thread,
            Err(message) => {
                return Err(ConversionError(message));
            },
        };
        Ok(Self { command, details, parent_pid, part, path, pid, thread })
    }
}

impl vstd::std_specs::convert::TryFromSpecImpl<ProfileInfo> for crate::summary::ProfileInfo {
    open spec fn obeys_try_from_spec() -> bool {
        true
    }

    open spec fn try_from_spec(value: ProfileInfo) -> Result<Self, ConversionError> {
        profile_info_complete_spec(value)
    }
}

/// A field-by-field composer for [`SummaryOutput`](crate::summary::SummaryOutput).
#[derive(Debug)]
pub struct SummaryOutput {
    pub format: Result<SummaryFormat, String>,
    pub path: Result<String, String>,
}

impl Default for SummaryOutput {
    fn default() -> (r: Self)
        ensures
            r.format matches Err(m) && m@ == "no value supplied for format"@,
            r.path matches Err(m) && m@ == "no value supplied for path"@,
    {
        Self {
            format: Err(String::from_str("no value supplied for format")),
            path: Err(String::from_str("no value supplied for path")),
        }
    }
}

impl SummaryOutput {
    /// Supply the format of the summary file.
    pub fn format(self, value: SummaryFormat) -> (r: Self)
        ensures
            r.format == Ok::<SummaryFormat, String>(value),
            r.path == self.path,
    {
        let mut this = self;
        this.format = Ok(value);
        this
    }

    /// Supply the path of the summary file.
    pub fn path(self, value: String) -> (r: Self)
        ensures
            r.path == Ok::<String, String>(value),
            r.format == self.format,
    {
        let mut this = self;
        this.path = Ok(value);
        this
    }
}

/// What completing a [`SummaryOutput`] builder yields.
pub open spec fn summary_output_complete_spec(value: SummaryOutput) -> Result<
    crate::summary::SummaryOutput,
    ConversionError,
> {
    if value.format is Err {
        Err(ConversionError(value.format->Err_0))
    } else if value.path is Err {
        Err(ConversionError(value.path->Err_0))
    } else {
        Ok(
            crate::summary::SummaryOutput {
                format: value.format->Ok_0,
                path: value.path->Ok_0,
            },
        )
    }
}

impl TryFrom<SummaryOutput> for crate::summary::SummaryOutput {
    type Error = ConversionError;

    fn try_from(value: SummaryOutput) -> (r: Result<Self, ConversionError>) {
        let format = match value.format {
            Ok(format) => format,
            Err(message) => {
                return Err(ConversionError(message));
            },
        };
        let path = match value.path {
            Ok(path) => path,
            Err(message) => {
                return Err(ConversionError(message));
            },
        };
        Ok(Self { format, path })
    }
}

impl vstd::std_specs::convert::TryFromSpecImpl<SummaryOutput> for crate::summary::SummaryOutput {
    open spec fn obeys_try_from_spec() -> bool {
        true
    }

    open spec fn try_from_spec(value: SummaryOutput) -> Result<Self, ConversionError> {
        summary_output_complete_spec(value)
    }
}

} // verus!
