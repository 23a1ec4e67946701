//! The logging of the node and the control plane: the counters of lost records and
//! failed exports, the settings read from the environment, and how the log file is
//! rotated when it grows too large.
use vstd::prelude::*;

use crate::git::parse_usize_spec;
use crate::text::{concat2, decimal, parse_u64, parse_u64_spec, push_str, str_eq, string_from, u64_to_string};

verus! {

/// How many log records were lost and how many span exports failed.
pub struct LogCounters {
    pub dropped: u64,
    pub export_failures: u64,
}

impl LogCounters {
    pub fn new() -> (r: Self)
        ensures
            r.dropped == 0 && r.export_failures == 0,
    {
        LogCounters { dropped: 0, export_failures: 0 }
    }

    /// Counts one lost record; the count wraps around as an atomic counter does.
    pub fn record_dropped(&mut self)
        ensures
            final(self).dropped == (old(self).dropped + 1) % 0x1_0000_0000_0000_0000,
            final(self).export_failures == old(self).export_failures,
    {
        self.dropped = self.dropped.wrapping_add(1);
    }

    /// Counts one failed export; the count wraps around as an atomic counter does.
    pub fn record_export_failure(&mut self)
        ensures
            final(self).export_failures == (old(self).export_failures + 1) % 0x1_0000_0000_0000_0000,
            final(self).dropped == old(self).dropped,
    {
        self.export_failures = self.export_failures.wrapping_add(1);
    }
}

/// The number of log records lost so far.
pub fn dropped_log_records(counters: &LogCounters) -> (n: u64)
    ensures
        n == counters.dropped,
{
    counters.dropped
}

/// The number of span exports that failed so far.
pub fn otlp_export_failures(counters: &LogCounters) -> (n: u64)
    ensures
        n == counters.export_failures,
{
    counters.export_failures
}

/// The largest log file before rotation, in bytes, when not configured.
pub const DEFAULT_LOG_MAX_BYTES: u64 = 10485760;

/// How many log files are kept, the current one included, when not configured.
pub const DEFAULT_LOG_MAX_FILES: usize = 5;

/// How many records may wait for the writer, when not configured.
pub const DEFAULT_LOG_CHANNEL_CAPACITY: usize = 8192;

/// An unsigned setting: its value when it parses, else `fallback`.
pub fn env_u64(value: Option<&str>, fallback: u64) -> (r: u64)
    ensures
        r == match value {
            Some(v) => match parse_u64_spec(v@) {
                Some(n) => n,
                None => fallback,
            },
            None => fallback,
        },
{
    match value {
        Some(v) => match parse_u64(v) {
            Some(n) => n,
            None => fallback,
        },
        None => fallback,
    }
}

/// A size setting: its value when it parses as a `usize`, else `fallback`.
pub fn env_usize(value: Option<&str>, fallback: usize) -> (r: usize)
    ensures
        r == match value {
            Some(v) => match parse_usize_spec(v@) {
                Some(n) => n,
                None => fallback,
            },
            None => fallback,
        },
{
    match value {
        Some(v) => match parse_u64(v) {
            Some(n) => if (n as u128) <= (usize::MAX as u128) {
                n as usize
            } else {
                fallback
            },
            None => fallback,
        },
        None => fallback,
    }
}

/// The settings of the log writer.
pub struct LogSettings {
    pub max_bytes: u64,
    pub max_files: usize,
    pub capacity: usize,
}

/// The log writer's settings from their variables: defaults for what does not parse,
/// and at least one file and one waiting record.
pub fn log_settings(max_bytes: Option<&str>, max_files: Option<&str>, capacity: Option<&str>) -> (r:
    LogSettings)
    ensures
        r.max_bytes == match max_bytes {
            Some(v) => match parse_u64_spec(v@) {
                Some(n) => n,
                None => DEFAULT_LOG_MAX_BYTES,
            },
            None => DEFAULT_LOG_MAX_BYTES,
        },
        r.max_files == max_one(
            match max_files {
                Some(v) => match parse_usize_spec(v@) {
                    Some(n) => n,
                    None => DEFAULT_LOG_MAX_FILES,
                },
                None => DEFAULT_LOG_MAX_FILES,
            },
        ),
        r.capacity == max_one(
            match capacity {
                Some(v) => match parse_usize_spec(v@) {
                    Some(n) => n,
                    None => DEFAULT_LOG_CHANNEL_CAPACITY,
                },
                None => DEFAULT_LOG_CHANNEL_CAPACITY,
            },
        ),
{
    let files = env_usize(max_files, DEFAULT_LOG_MAX_FILES);
    let cap = env_usize(capacity, DEFAULT_LOG_CHANNEL_CAPACITY);
    LogSettings {
        max_bytes: env_u64(max_bytes, DEFAULT_LOG_MAX_BYTES),
        max_files: if files < 1 {
            1
        } else {
            files
        },
        capacity: if cap < 1 {
            1
        } else {
            cap
        },
    }
}

pub open spec fn max_one(n: usize) -> usize {
    if n < 1 {
        1
    } else {
        n
    }
}

/// Span export is on when its flag says so (`1`, `true`, `yes`, `on`) or an exporter
/// endpoint is set.
pub fn otlp_enabled(flag: Option<&str>, endpoint_set: bool) -> (b: bool)
    ensures
        b == (match flag {
            Some(v) => v@ == "1"@ || v@ == "true"@ || v@ == "yes"@ || v@ == "on"@,
            None => false,
        } || endpoint_set),
{
    let on = match flag {
        Some(v) => str_eq(v, "1") || str_eq(v, "true") || str_eq(v, "yes") || str_eq(v, "on"),
        None => false,
    };
    on || endpoint_set
}

/// `size + len`, or the largest `u64` when that overflows.
pub open spec fn saturating(size: u64, len: u64) -> u64 {
    if size + len > u64::MAX {
        u64::MAX
    } else {
        (size + len) as u64
    }
}

/// A record of `len` bytes is written to a new file when the current one holds `size`
/// bytes and would pass the bound; a bound of zero means none.
pub fn needs_rotation(size: u64, record_len: u64, max_bytes: u64) -> (b: bool)
    ensures
        b == (max_bytes > 0 && saturating(size, record_len) > max_bytes),
{
    max_bytes > 0 && size.saturating_add(record_len) > max_bytes
}

/// The size of the log file after a record of `len` bytes was written to it.
pub fn size_after_write(size: u64, record_len: u64) -> (r: u64)
    ensures
        r == saturating(size, record_len),
{
    size.saturating_add(record_len)
}

/// The path of the log file rotated to place `index`.
pub open spec fn rotated_path_spec(path: Seq<char>, index: nat) -> Seq<char> {
    path + "."@ + decimal(index)
}

pub fn rotated_path(path: &str, index: usize) -> (r: String)
    ensures
        r@ == rotated_path_spec(path@, index as nat),
{
    assert(index as u64 == index);
    let mut r = concat2(path, ".");
    push_str(&mut r, u64_to_string(index as u64).as_str());
    r
}

/// The placeholder path in the error of a writer thread that could not start.
pub fn log_path_for_thread_error() -> (r: String)
    ensures
        r@ == "<log-writer-thread>"@,
{
    string_from("<log-writer-thread>")
}

/// One step of a rotation: remove a file, or rename one, each only when it exists.
pub enum RotationStep {
    RemoveIfExists(String),
    RenameIfExists { from: String, to: String },
}

pub enum StepView {
    Remove(Seq<char>),
    Rename(Seq<char>, Seq<char>),
}

impl View for RotationStep {
    type V = StepView;

    open spec fn view(&self) -> StepView {
        match self {
            RotationStep::RemoveIfExists(p) => StepView::Remove(p@),
            RotationStep::RenameIfExists { from, to } => StepView::Rename(from@, to@),
        }
    }
}

/// The renames that shift the rotated files from place `k` down to place 1 up by one.
pub open spec fn shift_steps(path: Seq<char>, k: nat) -> Seq<StepView>
    decreases k,
{
    if k == 0 {
        seq![]
    } else {
        seq![StepView::Rename(rotated_path_spec(path, k), rotated_path_spec(path, k + 1))]
            + shift_steps(path, (k - 1) as nat)
    }
}

/// How the log files are rotated when `max_files` are kept: with one file, the current
/// one is removed; else the oldest rotated file is removed, the others move up one place
/// each, newest last, and the current file becomes the first rotated one.
pub open spec fn rotation_plan(path: Seq<char>, max_files: nat) -> Seq<StepView> {
    if max_files <= 1 {
        seq![StepView::Remove(path)]
    } else {
        seq![StepView::Remove(rotated_path_spec(path, (max_files - 1) as nat))] + shift_steps(
            path,
            (max_files - 2) as nat,
        ) + seq![StepView::Rename(path, rotated_path_spec(path, 1))]
    }
}

pub open spec fn steps_view(s: Seq<RotationStep>) -> Seq<StepView> {
    s.map_values(|x: RotationStep| x@)
}

pub fn rotation_steps(path: &str, max_files: usize) -> (r: Vec<RotationStep>)
    ensures
        steps_view(r@) == rotation_plan(path@, max_files as nat),
{
    let mut r: Vec<RotationStep> = Vec::new();
    if max_files <= 1 {
        r.push(RotationStep::RemoveIfExists(string_from(path)));
        assert(steps_view(r@) =~= rotation_plan(path@, max_files as nat));
        return r;
    }
    r.push(RotationStep::RemoveIfExists(rotated_path(path, max_files - 1)));
    let ghost head = steps_view(r@);
    assert(head =~= seq![StepView::Remove(rotated_path_spec(path@, (max_files - 1) as nat))]);
    let mut index: usize = max_files - 2;
    while index > 0
        invariant
            index <= max_files - 2,
            max_files >= 2,
            steps_view(r@) + shift_steps(path@, index as nat) == head + shift_steps(
                path@,
                (max_files - 2) as nat,
            ),
        decreases index,
    {
        let ghost before = steps_view(r@);
        let from = rotated_path(path, index);
        let to = rotated_path(path, index + 1);
        r.push(RotationStep::RenameIfExists { from, to });
        assert(steps_view(r@) =~= before.push(
            StepView::Rename(rotated_path_spec(path@, index as nat), rotated_path_spec(path@, index as nat + 1)),
        ));
        assert(shift_steps(path@, index as nat) =~= seq![
            StepView::Rename(rotated_path_spec(path@, index as nat), rotated_path_spec(path@, index as nat + 1)),
        ] + shift_steps(path@, (index - 1) as nat));
        assert(steps_view(r@) + shift_steps(path@, (index - 1) as nat) =~= before + shift_steps(
            path@,
            index as nat,
        ));
        index -= 1;
    }
    assert(shift_steps(path@, 0) =~= seq![]);
    let ghost before = steps_view(r@);
    r.push(RotationStep::RenameIfExists { from: string_from(path), to: rotated_path(path, 1) });
    assert(steps_view(r@) =~= before.push(StepView::Rename(path@, rotated_path_spec(path@, 1))));
    assert(before =~= head + shift_steps(path@, (max_files - 2) as nat));
    assert(steps_view(r@) =~= rotation_plan(path@, max_files as nat));
    r
}


/// Why file logging could not start.
pub enum LoggingError {
    CreateDirectory { path: String },
    OpenFile { path: String },
    SubscriberInit,
}

pub open spec fn logging_error_message(e: LoggingError) -> Seq<char> {
    match e {
        LoggingError::CreateDirectory { path } => "failed to create log directory `"@ + path@ + "`"@,
        LoggingError::OpenFile { path } => "failed to open log file `"@ + path@ + "`"@,
        LoggingError::SubscriberInit => "failed to initialize tracing subscriber"@,
    }
}

impl LoggingError {
    /// The message the error is shown with.
    pub fn message(&self) -> (r: String)
        ensures
            r@ == logging_error_message(*self),
    {
        match self {
            LoggingError::CreateDirectory { path } => crate::text::concat3(
                "failed to create log directory `",
                path.as_str(),
                "`",
            ),
            LoggingError::OpenFile { path } => crate::text::concat3("failed to open log file `", path.as_str(), "`"),
            LoggingError::SubscriberInit => string_from("failed to initialize tracing subscriber"),
        }
    }
}

} // verus!
