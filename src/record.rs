//! Rendering of the run header and of each cycle's record, for the log
//! file, the console and the graph.

use vstd::prelude::*;
use crate::classify::{Category, ProbeOutcome, category_of, classify};
use crate::colour::{rgb, rgb_of};
use crate::settings::{Palette, Settings};
use crate::text::{decimal, push_decimal};
use crate::timestamp::Timestamp;

verus! {

/// The marker of a category in a record line.
pub open spec fn marker(category: Category) -> Seq<char> {
    match category {
        Category::Fail => "F"@,
        Category::Upper => "U"@,
        Category::Pass => "P"@,
    }
}

/// The record line of one cycle: `[stamp]:  <M>  address - RTTms` for a
/// reply, `[stamp]:  <F>  reason` for a failure, each ending the line.
pub open spec fn line_of(stamp: Seq<char>, outcome: ProbeOutcome, category: Category) -> Seq<char> {
    match outcome {
        ProbeOutcome::Success { round_trip_ms, address } => "["@ + stamp + "]:  <"@ + marker(
            category,
        ) + ">  "@ + address@ + " - "@ + decimal(round_trip_ms as nat) + "ms\n"@,
        ProbeOutcome::Failure { reason } => "["@ + stamp + "]:  <F>  "@ + reason@ + "\n"@,
    }
}

/// The console colour of a category: the palette's failure and
/// upper-bound colours, and none (plain text) for a pass.
pub open spec fn console_colour_of(category: Category, palette: Palette) -> Option<(u8, u8, u8)> {
    match category {
        Category::Fail => Some(rgb_of(palette.fail)),
        Category::Upper => Some(rgb_of(palette.upper)),
        Category::Pass => None,
    }
}

/// One classified sample handed to the graph: time since the run started,
/// category, and the round trip where there was a reply.
#[derive(Clone, Copy, Debug, PartialEq, Eq, Structural)]
pub struct GraphSample {
    pub elapsed_ms: i64,
    pub category: Category,
    pub round_trip_ms: Option<u32>,
}

/// A line for the console: the record line and the colour to show it in.
pub struct ConsoleLine {
    pub text: String,
    pub colour: Option<(u8, u8, u8)>,
}

/// What one cycle leaves: its category, the plain line for the log file,
/// the styled line for the console and the sample for the graph.
pub struct Record {
    pub category: Category,
    pub log_line: String,
    pub console: ConsoleLine,
    pub sample: GraphSample,
}

/// The round trip of an outcome, where there was a reply.
pub open spec fn round_trip_of(outcome: ProbeOutcome) -> Option<u32> {
    match outcome {
        ProbeOutcome::Success { round_trip_ms, .. } => Some(round_trip_ms),
        ProbeOutcome::Failure { .. } => None,
    }
}

impl Record {
    /// This is the record of `outcome`, probed at `now` under `settings`.
    pub open spec fn describes(self, outcome: ProbeOutcome, now: Timestamp, settings: Settings) -> bool {
        let category = category_of(outcome, settings.upper_bound_ms);
        &&& self.category == category
        &&& self.log_line@ == line_of(now.stamp(), outcome, category)
        &&& self.console.text@ == self.log_line@
        &&& self.console.colour == console_colour_of(category, settings.palette)
        &&& self.sample == GraphSample {
            elapsed_ms: (now.epoch_ms - settings.start.epoch_ms) as i64,
            category,
            round_trip_ms: round_trip_of(outcome),
        }
    }
}

/// The record line of one cycle.
pub fn record_line(stamp: &str, outcome: &ProbeOutcome, category: Category) -> (r: String)
    ensures
        r@ == line_of(stamp@, *outcome, category),
{
    let mut s = String::from_str("[");
    s.append(stamp);
    match outcome {
        ProbeOutcome::Success { round_trip_ms, address } => {
            s.append("]:  <");
            s.append(
                match category {
                    Category::Fail => "F",
                    Category::Upper => "U",
                    Category::Pass => "P",
                },
            );
            s.append(">  ");
            s.append(address.as_str());
            s.append(" - ");
            push_decimal(&mut s, *round_trip_ms as u64);
            s.append("ms\n");
        },
        ProbeOutcome::Failure { reason } => {
            s.append("]:  <F>  ");
            s.append(reason.as_str());
            s.append("\n");
        },
    }
    s
}

/// The console colour of a category.
pub fn console_colour(category: Category, palette: &Palette) -> (r: Option<(u8, u8, u8)>)
    ensures
        r == console_colour_of(category, *palette),
{
    match category {
        Category::Fail => Some(rgb(palette.fail)),
        Category::Upper => Some(rgb(palette.upper)),
        Category::Pass => None,
    }
}

/// Classifies `outcome`, probed at `now`, and renders its record: the log
/// line and the console line carry the same text, the console line only
/// adds a colour.
pub fn render_record(outcome: &ProbeOutcome, now: &Timestamp, settings: &Settings) -> (r: Record)
    requires
        now.wf(),
        settings.wf(),
    ensures
        r.describes(*outcome, *now, *settings),
        r.console.text@ == r.log_line@,
{
    let category = classify(outcome, settings.upper_bound_ms);
    let stamp = now.text();
    let log_line = record_line(stamp.as_str(), outcome, category);
    let text = record_line(stamp.as_str(), outcome, category);
    let round_trip_ms = match outcome {
        ProbeOutcome::Success { round_trip_ms, .. } => Some(*round_trip_ms),
        ProbeOutcome::Failure { .. } => None,
    };
    Record {
        category,
        log_line,
        console: ConsoleLine { text, colour: console_colour(category, &settings.palette) },
        sample: GraphSample {
            elapsed_ms: now.millis_since(&settings.start),
            category,
            round_trip_ms,
        },
    }
}

/// The run header: a title, then the start stamp, the destination, the
/// probe period in whole seconds and the timeout in milliseconds, ending
/// with a blank line.
pub open spec fn header_of(settings: Settings) -> Seq<char> {
    "-=-  Ping Graph  -=-\n"@ + "-=>  Started:  "@ + settings.start.stamp() + "\n"@
        + "-=>  Address:  "@ + settings.destination@ + "\n"@ + "-=>  Period:  "@ + decimal(
        settings.probe_interval_ms as nat / 1000,
    ) + "s\n"@ + "-=>  Timeout:  "@ + decimal(settings.probe_timeout_ms as nat) + "ms\n\n"@
}

/// The run header written to the log before the first cycle.
pub fn header(settings: &Settings) -> (r: String)
    requires
        settings.wf(),
    ensures
        r@ == header_of(*settings),
{
    let mut s = String::from_str("-=-  Ping Graph  -=-\n");
    s.append("-=>  Started:  ");
    let stamp = settings.start.text();
    s.append(stamp.as_str());
    s.append("\n");
    s.append("-=>  Address:  ");
    s.append(settings.destination.as_str());
    s.append("\n");
    s.append("-=>  Period:  ");
    push_decimal(&mut s, settings.probe_interval_ms / 1000);
    s.append("s\n");
    s.append("-=>  Timeout:  ");
    push_decimal(&mut s, settings.probe_timeout_ms);
    s.append("ms\n\n");
    s
}

/// The directory that holds the log files.
pub open spec fn log_directory_of() -> Seq<char> {
    "./data"@
}

/// The directory that holds the log files.
pub fn log_directory() -> (r: &'static str)
    ensures
        r@ == log_directory_of(),
{
    "./data"
}

/// The log file of a run started at `start`: one per run, named after the
/// start stamp.
pub open spec fn log_path_of(start: Timestamp) -> Seq<char> {
    log_directory_of() + "/pingResults-"@ + start.stamp() + ".csv"@
}

/// The log file of a run started at `start`.
pub fn log_path(start: &Timestamp) -> (r: String)
    requires
        start.wf(),
    ensures
        r@ == log_path_of(*start),
{
    let mut s = String::from_str(log_directory());
    s.append("/pingResults-");
    let stamp = start.text();
    s.append(stamp.as_str());
    s.append(".csv");
    s
}

} // verus!
