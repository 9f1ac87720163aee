use crate::config::{LoggingConfig, OptimizationConfig};
use crate::outcome::{FileOutcome, OutcomeKind};
use crate::report::BatchReport;
use crate::text::{decimal, push_decimal, texts};
use crate::workers::{resolve_worker_count, resolved_workers};
use vstd::prelude::*;
use vstd::string::StringExecFns;

verus! {

/// The unit in which a byte count is shown.
#[derive(Clone, Copy, Debug, PartialEq, Eq, Structural)]
pub enum SizeUnit {
    Bytes,
    Kilobytes,
    Megabytes,
    Gigabytes,
}

/// The unit in which a duration is shown.
#[derive(Clone, Copy, Debug, PartialEq, Eq, Structural)]
pub enum TimeUnit {
    Seconds,
    Minutes,
    Hours,
}

/// The unit of a byte count: it changes at each power of 1024.
pub open spec fn size_unit_of(bytes: nat) -> SizeUnit {
    if bytes < 1024 {
        SizeUnit::Bytes
    } else if bytes < 1024 * 1024 {
        SizeUnit::Kilobytes
    } else if bytes < 1024 * 1024 * 1024 {
        SizeUnit::Megabytes
    } else {
        SizeUnit::Gigabytes
    }
}

/// The unit of a duration given in nanoseconds: seconds below a minute,
/// minutes below an hour, else hours.
pub open spec fn time_unit_of(nanos: nat) -> TimeUnit {
    if nanos < 60 * 1_000_000_000 {
        TimeUnit::Seconds
    } else if nanos < 3600 * 1_000_000_000 {
        TimeUnit::Minutes
    } else {
        TimeUnit::Hours
    }
}

impl SizeUnit {
    /// The number of bytes in one unit.
    pub open spec fn spec_bytes(self) -> u64 {
        match self {
            SizeUnit::Bytes => 1,
            SizeUnit::Kilobytes => 1024,
            SizeUnit::Megabytes => 1_048_576,
            SizeUnit::Gigabytes => 1_073_741_824,
        }
    }

    /// What follows the figure.
    pub open spec fn suffix(self) -> Seq<char> {
        match self {
            SizeUnit::Bytes => " B"@,
            SizeUnit::Kilobytes => " KB"@,
            SizeUnit::Megabytes => " MB"@,
            SizeUnit::Gigabytes => " GB"@,
        }
    }

    /// The number of bytes in one unit.
    pub fn bytes(self) -> (bytes: u64)
        ensures
            bytes == self.spec_bytes(),
    {
        match self {
            SizeUnit::Bytes => 1,
            SizeUnit::Kilobytes => 1024,
            SizeUnit::Megabytes => 1_048_576,
            SizeUnit::Gigabytes => 1_073_741_824,
        }
    }
}

impl TimeUnit {
    /// The number of seconds in one unit.
    pub open spec fn spec_seconds(self) -> u64 {
        match self {
            TimeUnit::Seconds => 1,
            TimeUnit::Minutes => 60,
            TimeUnit::Hours => 3600,
        }
    }

    /// The letter that follows the figure.
    pub open spec fn suffix(self) -> Seq<char> {
        match self {
            TimeUnit::Seconds => "s"@,
            TimeUnit::Minutes => "m"@,
            TimeUnit::Hours => "h"@,
        }
    }

    /// The number of seconds in one unit.
    pub fn seconds(self) -> (seconds: u64)
        ensures
            seconds == self.spec_seconds(),
    {
        match self {
            TimeUnit::Seconds => 1,
            TimeUnit::Minutes => 60,
            TimeUnit::Hours => 3600,
        }
    }
}

/// Chooses the unit in which a byte count is shown.
pub fn size_unit(bytes: u128) -> (unit: SizeUnit)
    ensures
        unit == size_unit_of(bytes as nat),
{
    if bytes < 1024 {
        SizeUnit::Bytes
    } else if bytes < 1024 * 1024 {
        SizeUnit::Kilobytes
    } else if bytes < 1024 * 1024 * 1024 {
        SizeUnit::Megabytes
    } else {
        SizeUnit::Gigabytes
    }
}

/// Chooses the unit in which a duration, given in nanoseconds, is shown.
pub fn time_unit(nanos: u128) -> (unit: TimeUnit)
    ensures
        unit == time_unit_of(nanos as nat),
{
    if nanos < 60 * 1_000_000_000 {
        TimeUnit::Seconds
    } else if nanos < 3600 * 1_000_000_000 {
        TimeUnit::Minutes
    } else {
        TimeUnit::Hours
    }
}

/// A byte count for display. Below 1024 it is the count itself; from there
/// on it is `scaled`, the count in its unit as the caller has written it,
/// followed by the unit.
pub open spec fn file_size_text(bytes: nat, scaled: Seq<char>) -> Seq<char> {
    if size_unit_of(bytes) == SizeUnit::Bytes {
        decimal(bytes) + " B"@
    } else {
        scaled + size_unit_of(bytes).suffix()
    }
}

/// A duration for display: `scaled`, the duration in its unit as the caller
/// has written it, followed by the unit's letter.
pub open spec fn time_text(nanos: nat, scaled: Seq<char>) -> Seq<char> {
    scaled + time_unit_of(nanos).suffix()
}

/// Formats a byte count for display. `scaled` is the count divided by
/// `size_unit(bytes).bytes()`, written by the caller; it is not read for a
/// count below 1024.
pub fn format_file_size(bytes: u128, scaled: &str) -> (text: String)
    ensures
        text@ == file_size_text(bytes as nat, scaled@),
{
    match size_unit(bytes) {
        SizeUnit::Bytes => {
            let mut text = String::new();
            push_decimal(&mut text, bytes);
            text.append(" B");
            assert(text@ =~= decimal(bytes as nat) + " B"@);
            text
        },
        SizeUnit::Kilobytes => String::from_str(scaled).concat(" KB"),
        SizeUnit::Megabytes => String::from_str(scaled).concat(" MB"),
        SizeUnit::Gigabytes => String::from_str(scaled).concat(" GB"),
    }
}

/// Formats a duration, given in nanoseconds, for display. `scaled` is the
/// duration divided by `time_unit(nanos).seconds()` seconds, written by the
/// caller.
pub fn format_time(nanos: u128, scaled: &str) -> (text: String)
    ensures
        text@ == time_text(nanos as nat, scaled@),
{
    match time_unit(nanos) {
        TimeUnit::Seconds => String::from_str(scaled).concat("s"),
        TimeUnit::Minutes => String::from_str(scaled).concat("m"),
        TimeUnit::Hours => String::from_str(scaled).concat("h"),
    }
}

/// How a size changed: whether it grew, by how many bytes it moved, and the
/// size that a percentage of the change is taken of. That size is absent
/// where it is zero: the percentage is then zero by definition and nothing is
/// divided.
#[derive(Clone, Copy, Debug, PartialEq, Eq, Structural)]
pub struct SizeChange {
    pub grew: bool,
    pub amount: u128,
    pub share_of: Option<u128>,
}

/// The change from one size to another.
pub open spec fn size_change_of(original: u128, new: u128) -> SizeChange {
    SizeChange {
        grew: new > original,
        amount: if new > original {
            (new - original) as u128
        } else {
            (original - new) as u128
        },
        share_of: if original == 0 {
            None
        } else {
            Some(original)
        },
    }
}

/// Measures the change from one size to another.
pub fn size_change(original: u128, new: u128) -> (change: SizeChange)
    ensures
        change == size_change_of(original, new),
        original == 0 ==> change.share_of.is_none(),
        change.share_of matches Some(whole) ==> whole > 0,
{
    SizeChange {
        grew: new > original,
        amount: if new > original {
            new - original
        } else {
            original - new
        },
        share_of: if original == 0 {
            None
        } else {
            Some(original)
        },
    }
}

/// The figures of a report that the caller has written: each is a number
/// with its decimal places and without a unit.
#[derive(Clone, Debug)]
pub struct ReportFigures {
    /// The elapsed time in the unit of `time_unit`.
    pub elapsed: String,
    /// The reduction in percent of the original total.
    pub reduction_percent: String,
    /// The bytes saved, in megabytes.
    pub saved_megabytes: String,
    /// The total size afterwards in the unit of `size_unit`.
    pub final_size: String,
    /// The total size before in the unit of `size_unit`.
    pub original_size: String,
    /// Files per second.
    pub speed: String,
}

/// The line that frames the summary.
pub open spec fn separator_text() -> Seq<char> {
    "=================================================="@
}

/// The line that gives the time of the run.
pub open spec fn completed_text(report: BatchReport, figures: ReportFigures) -> Seq<char> {
    "\u{2705} Completed in "@ + time_text(report.elapsed_nanos as nat, figures.elapsed@)
}

/// The line that gives the number of files.
pub open spec fn processed_text(report: BatchReport) -> Seq<char> {
    "\u{1F4CA} Processed: "@ + decimal(report.tally.file_count as nat) + " files"@
}

/// The line that gives the count of each kind of outcome.
pub open spec fn results_text(report: BatchReport) -> Seq<char> {
    "\u{1F4C8} Results: "@ + decimal(report.tally.improved as nat) + " reduced, "@ + decimal(
        report.tally.unchanged as nat,
    ) + " unchanged, "@ + decimal(report.tally.increased as nat) + " increased, "@ + decimal(
        report.tally.failed as nat,
    ) + " failed"@
}

/// The line that gives the reduction in percent and in megabytes.
pub open spec fn reduction_text(figures: ReportFigures) -> Seq<char> {
    "\u{1F4BE} Reduction: "@ + figures.reduction_percent@ + "% ("@ + figures.saved_megabytes@
        + " MB saved)"@
}

/// The line that gives the total size after and before.
pub open spec fn sizes_text(report: BatchReport, figures: ReportFigures) -> Seq<char> {
    "\u{1F4E6} Final size: "@ + file_size_text(
        report.tally.total_new as nat,
        figures.final_size@,
    ) + " (was "@ + file_size_text(report.tally.total_original as nat, figures.original_size@)
        + ")"@
}

/// The line that gives the throughput.
pub open spec fn throughput_text(figures: ReportFigures) -> Seq<char> {
    "\u{26A1} Speed: "@ + figures.speed@ + " files/sec"@
}

/// The lines shown for a report. The summary flag switches the summary on
/// and off, the size flag the line of sizes inside it; neither flag acts on
/// the other's lines.
pub open spec fn report_lines(
    report: BatchReport,
    logging: LoggingConfig,
    figures: ReportFigures,
) -> Seq<Seq<char>> {
    (if logging.show_summary {
        seq![
            separator_text(),
            completed_text(report, figures),
            processed_text(report),
            results_text(report),
            reduction_text(figures),
        ]
    } else {
        Seq::empty()
    }) + (if logging.show_file_sizes {
        seq![sizes_text(report, figures)]
    } else {
        Seq::empty()
    }) + (if logging.show_summary {
        seq![throughput_text(figures), separator_text()]
    } else {
        Seq::empty()
    })
}

/// Formats the line that gives the time of the run.
fn completed_line(report: &BatchReport, figures: &ReportFigures) -> (line: String)
    ensures
        line@ == completed_text(*report, *figures),
{
    let mut line = String::from_str("\u{2705} Completed in ");
    line.append(format_time(report.elapsed_nanos, figures.elapsed.as_str()).as_str());
    line
}

/// Formats the line that gives the number of files.
fn processed_line(report: &BatchReport) -> (line: String)
    ensures
        line@ == processed_text(*report),
{
    let mut line = String::from_str("\u{1F4CA} Processed: ");
    push_decimal(&mut line, report.tally.file_count as u128);
    line.append(" files");
    line
}

/// Formats the line that gives the count of each kind of outcome.
fn results_line(report: &BatchReport) -> (line: String)
    ensures
        line@ == results_text(*report),
{
    let mut line = String::from_str("\u{1F4C8} Results: ");
    push_decimal(&mut line, report.tally.improved as u128);
    line.append(" reduced, ");
    push_decimal(&mut line, report.tally.unchanged as u128);
    line.append(" unchanged, ");
    push_decimal(&mut line, report.tally.increased as u128);
    line.append(" increased, ");
    push_decimal(&mut line, report.tally.failed as u128);
    line.append(" failed");
    line
}

/// Formats the line that gives the reduction in percent and in megabytes.
fn reduction_line(figures: &ReportFigures) -> (line: String)
    ensures
        line@ == reduction_text(*figures),
{
    let mut line = String::from_str("\u{1F4BE} Reduction: ");
    line.append(figures.reduction_percent.as_str());
    line.append("% (");
    line.append(figures.saved_megabytes.as_str());
    line.append(" MB saved)");
    line
}

/// Formats the line that gives the total size after and before.
fn sizes_line(report: &BatchReport, figures: &ReportFigures) -> (line: String)
    ensures
        line@ == sizes_text(*report, *figures),
{
    let mut line = String::from_str("\u{1F4E6} Final size: ");
    line.append(format_file_size(report.tally.total_new, figures.final_size.as_str()).as_str());
    line.append(" (was ");
    line.append(
        format_file_size(report.tally.total_original, figures.original_size.as_str()).as_str(),
    );
    line.append(")");
    line
}

/// Formats the line that gives the throughput.
fn throughput_line(figures: &ReportFigures) -> (line: String)
    ensures
        line@ == throughput_text(*figures),
{
    let mut line = String::from_str("\u{26A1} Speed: ");
    line.append(figures.speed.as_str());
    line.append(" files/sec");
    line
}

/// Formats a report as display lines, as far as the flags ask for them. The
/// figures with decimal places come from the caller; the units, the counts
/// and the layout are decided here.
pub fn format_report(
    report: &BatchReport,
    logging: &LoggingConfig,
    figures: &ReportFigures,
) -> (lines: Vec<String>)
    ensures
        texts(lines@) == report_lines(*report, *logging, *figures),
{
    let mut lines: Vec<String> = Vec::new();
    if logging.show_summary {
        lines.push(String::from_str("=================================================="));
        lines.push(completed_line(report, figures));
        lines.push(processed_line(report));
        lines.push(results_line(report));
        lines.push(reduction_line(figures));
    }
    if logging.show_file_sizes {
        lines.push(sizes_line(report, figures));
    }
    if logging.show_summary {
        lines.push(throughput_line(figures));
        lines.push(String::from_str("=================================================="));
    }
    assert(texts(lines@) =~= report_lines(*report, *logging, *figures));
    lines
}

/// The line that tells what became of one file. `percent` is the change in
/// percent of the original size as the caller has written it.
pub open spec fn outcome_text(
    name: Seq<char>,
    outcome: FileOutcome,
    percent: Seq<char>,
    failure: Seq<char>,
) -> Seq<char> {
    let moved = size_change_of(outcome.original_size as u128, outcome.new_size as u128).amount;
    match outcome.kind {
        OutcomeKind::Improved => name + " - reduced by "@ + percent + "% ("@ + decimal(
            moved as nat,
        ) + " bytes)"@,
        OutcomeKind::Unchanged => name + " - no size change"@,
        OutcomeKind::Increased => name + " - increased by "@ + percent + "% ("@ + decimal(
            moved as nat,
        ) + " bytes)"@,
        OutcomeKind::Failed => name + ": "@ + failure,
    }
}

/// Formats the line that tells what became of one file. `percent` is shown
/// for a file that shrank or grew, `failure`, the codec's message, for one
/// that failed.
pub fn describe_outcome(
    name: &str,
    outcome: &FileOutcome,
    percent: &str,
    failure: &str,
) -> (line: String)
    ensures
        line@ == outcome_text(name@, *outcome, percent@, failure@),
{
    let mut line = String::from_str(name);
    let change = size_change(outcome.original_size as u128, outcome.new_size as u128);
    match outcome.kind {
        OutcomeKind::Improved | OutcomeKind::Increased => {
            if outcome.kind == OutcomeKind::Improved {
                line.append(" - reduced by ");
            } else {
                line.append(" - increased by ");
            }
            line.append(percent);
            line.append("% (");
            push_decimal(&mut line, change.amount);
            line.append(" bytes)");
        },
        OutcomeKind::Unchanged => {
            line.append(" - no size change");
        },
        OutcomeKind::Failed => {
            line.append(": ");
            line.append(failure);
        },
    }
    line
}

/// A flag as text.
pub open spec fn flag_text(flag: bool) -> Seq<char> {
    if flag {
        "true"@
    } else {
        "false"@
    }
}

/// The lines that show the settings a run works with; the worker count is
/// the one that the run will use.
pub open spec fn config_summary_texts(
    config: OptimizationConfig,
    available: Option<usize>,
) -> Seq<Seq<char>> {
    seq![
        "compression level: "@ + decimal(config.compression.level as nat),
        "max workers: "@ + decimal(
            resolved_workers(config.compression.max_workers, available) as nat,
        ),
        "strip metadata: "@ + flag_text(config.compression.strip_metadata),
        "deflate method: "@ + config.advanced.deflate_method@,
        "show progress: "@ + flag_text(config.logging.show_progress),
    ]
}

/// Appends a flag as text.
fn push_flag(out: &mut String, flag: bool)
    ensures
        final(out)@ == old(out)@ + flag_text(flag),
{
    if flag {
        out.append("true");
    } else {
        out.append("false");
    }
}

/// Formats the lines that show the settings a run works with. `available`
/// is the parallelism that the platform reports, if it reports any.
pub fn config_summary(config: &OptimizationConfig, available: Option<usize>) -> (lines: Vec<
    String,
>)
    ensures
        texts(lines@) == config_summary_texts(*config, available),
{
    let mut lines: Vec<String> = Vec::new();
    let mut level = String::from_str("compression level: ");
    push_decimal(&mut level, config.compression.level as u128);
    lines.push(level);
    let mut workers = String::from_str("max workers: ");
    push_decimal(
        &mut workers,
        resolve_worker_count(config.compression.max_workers, available) as u128,
    );
    lines.push(workers);
    let mut strip = String::from_str("strip metadata: ");
    push_flag(&mut strip, config.compression.strip_metadata);
    lines.push(strip);
    let mut method = String::from_str("deflate method: ");
    method.append(config.advanced.deflate_method.as_str());
    lines.push(method);
    let mut progress = String::from_str("show progress: ");
    push_flag(&mut progress, config.logging.show_progress);
    lines.push(progress);
    assert(texts(lines@) =~= config_summary_texts(*config, available));
    lines
}

} // verus!
