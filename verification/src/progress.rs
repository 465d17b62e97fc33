//! Progress snapshots, and the grammar that reads one from a line of the
//! flashing tool's output.

use vstd::prelude::*;
use vstd::string::*;
use crate::pattern::{capture_group, captured_group};
use crate::text::{
    copy_optional_text, decimal_value, is_small_decimal, optional_text, parse_decimal, same_text,
};

verus! {

/// One phase of a job's progress.
#[derive(Clone, Copy, Debug, PartialEq, Eq, Structural)]
pub enum Stage {
    Preparing,
    Downloading,
    Flashing,
    Verifying,
    Complete,
    Error,
    Cancelled,
}

/// The name under which a stage is published.
pub open spec fn stage_name(stage: Stage) -> Seq<char> {
    match stage {
        Stage::Preparing => "preparing"@,
        Stage::Downloading => "downloading"@,
        Stage::Flashing => "flashing"@,
        Stage::Verifying => "verifying"@,
        Stage::Complete => "complete"@,
        Stage::Error => "error"@,
        Stage::Cancelled => "cancelled"@,
    }
}

/// True for the stages after which a job changes no more.
pub open spec fn is_terminal(stage: Stage) -> bool {
    stage == Stage::Complete || stage == Stage::Error || stage == Stage::Cancelled
}

/// True for the three stages that the tool's output reports.
pub open spec fn is_reported(stage: Stage) -> bool {
    stage == Stage::Downloading || stage == Stage::Flashing || stage == Stage::Verifying
}

/// The stage that is published under a name, if the name is that of a stage.
pub open spec fn stage_named(name: Seq<char>) -> Option<Stage> {
    if name == "preparing"@ {
        Some(Stage::Preparing)
    } else if name == "downloading"@ {
        Some(Stage::Downloading)
    } else if name == "flashing"@ {
        Some(Stage::Flashing)
    } else if name == "verifying"@ {
        Some(Stage::Verifying)
    } else if name == "complete"@ {
        Some(Stage::Complete)
    } else if name == "error"@ {
        Some(Stage::Error)
    } else if name == "cancelled"@ {
        Some(Stage::Cancelled)
    } else {
        None
    }
}

/// Each stage is found again under its own name.
pub proof fn lemma_stage_name_round_trip(stage: Stage)
    ensures
        stage_named(stage_name(stage)) == Some(stage),
{
    reveal_strlit("preparing");
    reveal_strlit("downloading");
    reveal_strlit("flashing");
    reveal_strlit("verifying");
    reveal_strlit("complete");
    reveal_strlit("error");
    reveal_strlit("cancelled");
    assert("preparing"@[0] == 'p' && "downloading"@[0] == 'd' && "flashing"@[0] == 'f');
    assert("verifying"@[0] == 'v' && "complete"@[0] == 'c' && "error"@[0] == 'e');
    assert("cancelled"@[0] == 'c' && "cancelled"@.len() == 9 && "complete"@.len() == 8);
}

impl Stage {
    /// The stage that is published under `name`, if there is one.
    pub fn from_name(name: &str) -> (r: Option<Stage>)
        ensures
            r == stage_named(name@),
    {
        if same_text(name, "preparing") {
            Some(Stage::Preparing)
        } else if same_text(name, "downloading") {
            Some(Stage::Downloading)
        } else if same_text(name, "flashing") {
            Some(Stage::Flashing)
        } else if same_text(name, "verifying") {
            Some(Stage::Verifying)
        } else if same_text(name, "complete") {
            Some(Stage::Complete)
        } else if same_text(name, "error") {
            Some(Stage::Error)
        } else if same_text(name, "cancelled") {
            Some(Stage::Cancelled)
        } else {
            None
        }
    }

    /// The name under which the stage is published.
    pub fn name(&self) -> (r: String)
        ensures
            r@ == stage_name(*self),
    {
        match self {
            Stage::Preparing => "preparing".to_owned(),
            Stage::Downloading => "downloading".to_owned(),
            Stage::Flashing => "flashing".to_owned(),
            Stage::Verifying => "verifying".to_owned(),
            Stage::Complete => "complete".to_owned(),
            Stage::Error => "error".to_owned(),
            Stage::Cancelled => "cancelled".to_owned(),
        }
    }

    /// True for the stages after which a job changes no more.
    pub fn is_terminal(&self) -> (r: bool)
        ensures
            r == is_terminal(*self),
    {
        match self {
            Stage::Complete | Stage::Error | Stage::Cancelled => true,
            _ => false,
        }
    }
}

/// A point in time: whole seconds since the start of 1970 in UTC, and the
/// nanoseconds past that second.
#[derive(Clone, Copy, Debug, PartialEq, Eq, Structural)]
pub struct Timestamp {
    pub seconds: i64,
    pub nanoseconds: u32,
}

/// The state of a job at one moment. The percentage is held in tenths of a
/// percent, so that 126 stands for 12.6 %.
#[derive(Debug, PartialEq, Eq)]
pub struct FlashProgress {
    pub stage: Stage,
    pub progress_tenths: u64,
    pub message: String,
    pub details: Option<String>,
    pub start_time: Option<Timestamp>,
    pub estimated_time_remaining: Option<u64>,
}

/// What a snapshot says, as plain values.
pub struct FlashProgressView {
    pub stage: Stage,
    pub progress_tenths: u64,
    pub message: Seq<char>,
    pub details: Option<Seq<char>>,
    pub start_time: Option<Timestamp>,
    pub estimated_time_remaining: Option<u64>,
}

impl View for FlashProgress {
    type V = FlashProgressView;

    open spec fn view(&self) -> FlashProgressView {
        FlashProgressView {
            stage: self.stage,
            progress_tenths: self.progress_tenths,
            message: self.message@,
            details: optional_text(self.details),
            start_time: self.start_time,
            estimated_time_remaining: self.estimated_time_remaining,
        }
    }
}

impl Clone for FlashProgress {
    fn clone(&self) -> (r: Self)
        ensures
            r == *self,
    {
        FlashProgress {
            stage: self.stage,
            progress_tenths: self.progress_tenths,
            message: self.message.clone(),
            details: copy_optional_text(&self.details),
            start_time: self.start_time,
            estimated_time_remaining: self.estimated_time_remaining,
        }
    }
}

/// What a snapshot that may be absent says, as plain values.
pub open spec fn optional_progress(p: Option<FlashProgress>) -> Option<FlashProgressView> {
    match p {
        Some(s) => Some(s@),
        None => None,
    }
}

/// Where a reported stage begins on the global scale, in tenths of a percent.
pub open spec fn stage_base(stage: Stage) -> nat {
    match stage {
        Stage::Flashing => 300,
        Stage::Verifying => 900,
        _ => 0,
    }
}

/// How many tenths of a global percent one percent of a reported stage is worth.
pub open spec fn stage_weight(stage: Stage) -> nat {
    match stage {
        Stage::Downloading => 3,
        Stage::Flashing => 6,
        Stage::Verifying => 1,
        _ => 0,
    }
}

/// The half seconds that one remaining percent of a reported stage is taken to last.
pub open spec fn stage_half_seconds(stage: Stage) -> nat {
    match stage {
        Stage::Downloading => 4,
        Stage::Flashing => 3,
        Stage::Verifying => 1,
        _ => 0,
    }
}

/// The global progress, in tenths of a percent, at `percent` of a reported stage.
pub open spec fn global_tenths(stage: Stage, percent: nat) -> nat {
    stage_base(stage) + stage_weight(stage) * percent
}

/// The advisory number of seconds left in a reported stage at `percent` of it,
/// at the constant rate assumed for the stage, rounded down; nothing is left
/// from 100 % on.
pub open spec fn remaining_seconds(stage: Stage, percent: nat) -> nat {
    if percent >= 100 {
        0
    } else {
        (((100 - percent) * stage_half_seconds(stage)) / 2) as nat
    }
}

/// The snapshot that a line reporting `percent` of `stage` gives.
pub open spec fn reading(stage: Stage, line: Seq<char>, percent: nat) -> FlashProgressView {
    FlashProgressView {
        stage,
        progress_tenths: global_tenths(stage, percent) as u64,
        message: line,
        details: None,
        start_time: None,
        estimated_time_remaining: Some(remaining_seconds(stage, percent) as u64),
    }
}

/// What one pattern contributes: a reading where the pattern captured a run
/// of ASCII digits whose value fits in 32 bits, nothing otherwise.
pub open spec fn stage_reading(stage: Stage, line: Seq<char>, captured: Option<Seq<char>>) -> Option<
    FlashProgressView,
> {
    match captured {
        Some(digits) => if is_small_decimal(digits) {
            Some(reading(stage, line, decimal_value(digits)))
        } else {
            None
        },
        None => None,
    }
}

/// The snapshot read from a line, given what each of the three patterns
/// captured in it. The patterns are honoured in the order download, flash,
/// verify: the first that gives a reading decides.
pub open spec fn parsed_progress(
    line: Seq<char>,
    download: Option<Seq<char>>,
    flash: Option<Seq<char>>,
    verify: Option<Seq<char>>,
) -> Option<FlashProgressView> {
    if stage_reading(Stage::Downloading, line, download).is_some() {
        stage_reading(Stage::Downloading, line, download)
    } else if stage_reading(Stage::Flashing, line, flash).is_some() {
        stage_reading(Stage::Flashing, line, flash)
    } else {
        stage_reading(Stage::Verifying, line, verify)
    }
}

/// The pattern of a line that reports the download.
pub open spec fn download_pattern() -> Seq<char> {
    "Downloading.*?(\\d+)%"@
}

/// The pattern of a line that reports the flashing.
pub open spec fn flash_pattern() -> Seq<char> {
    "Flashing.*?(\\d+)%"@
}

/// The pattern of a line that reports the verification.
pub open spec fn verify_pattern() -> Seq<char> {
    "Verifying.*?(\\d+)%"@
}

/// The reading that one pattern contributes for a reported stage.
pub fn progress_for_stage(stage: Stage, line: &str, captured: &Option<String>) -> (r: Option<
    FlashProgress,
>)
    requires
        is_reported(stage),
    ensures
        optional_progress(r) == stage_reading(stage, line@, optional_text(*captured)),
{
    let digits = match captured {
        Some(d) => d,
        None => {
            return None;
        },
    };
    let percent: u32 = match parse_decimal(digits.as_str()) {
        Some(p) => p,
        None => {
            return None;
        },
    };
    let wide: u64 = percent as u64;
    let (tenths, half_seconds): (u64, u64) = match stage {
        Stage::Downloading => (3 * wide, 4),
        Stage::Flashing => (300 + 6 * wide, 3),
        _ => (900 + wide, 1),
    };
    let remaining: u64 = if wide >= 100 {
        0
    } else {
        ((100 - wide) * half_seconds) / 2
    };
    Some(
        FlashProgress {
            stage,
            progress_tenths: tenths,
            message: line.to_owned(),
            details: None,
            start_time: None,
            estimated_time_remaining: Some(remaining),
        },
    )
}

/// The snapshot read from a line, given what each of the three patterns
/// captured in it.
pub fn progress_from_captures(
    line: &str,
    download: &Option<String>,
    flash: &Option<String>,
    verify: &Option<String>,
) -> (r: Option<FlashProgress>)
    ensures
        optional_progress(r) == parsed_progress(
            line@,
            optional_text(*download),
            optional_text(*flash),
            optional_text(*verify),
        ),
{
    let first = progress_for_stage(Stage::Downloading, line, download);
    if first.is_some() {
        return first;
    }
    let second = progress_for_stage(Stage::Flashing, line, flash);
    if second.is_some() {
        return second;
    }
    progress_for_stage(Stage::Verifying, line, verify)
}

/// The snapshot that a line of the tool's output reads as: what the three
/// patterns capture in it decides.
pub open spec fn line_reading(line: Seq<char>) -> Option<FlashProgressView> {
    parsed_progress(
        line,
        captured_group(download_pattern(), line, 1),
        captured_group(flash_pattern(), line, 1),
        captured_group(verify_pattern(), line, 1),
    )
}

/// Reads a snapshot from one line of the tool's output, or nothing where the
/// line reports no progress.
pub fn parse_flash_output(line: &str) -> (r: Option<FlashProgress>)
    ensures
        optional_progress(r) == line_reading(line@),
{
    let download = capture_group("Downloading.*?(\\d+)%", line, 1);
    let flash = capture_group("Flashing.*?(\\d+)%", line, 1);
    let verify = capture_group("Verifying.*?(\\d+)%", line, 1);
    progress_from_captures(line, &download, &flash, &verify)
}

/// A line in which the download pattern captures a run of digits reads as
/// the downloading stage, at three tenths of a percent for each percent that
/// the digits write, whatever the other two patterns capture.
pub proof fn lemma_download_law(line: Seq<char>, digits: Seq<char>)
    requires
        captured_group(download_pattern(), line, 1) == Some(digits),
        is_small_decimal(digits),
    ensures
        line_reading(line) == Some(reading(Stage::Downloading, line, decimal_value(digits))),
        line_reading(line).unwrap().stage == Stage::Downloading,
        line_reading(line).unwrap().progress_tenths == 3 * decimal_value(digits),
{
}

/// A line that gives no download reading and in which the flash pattern
/// captures a run of digits reads as the flashing stage, at 30 % plus six
/// tenths of a percent for each percent that the digits write.
pub proof fn lemma_flash_law(line: Seq<char>, digits: Seq<char>)
    requires
        stage_reading(
            Stage::Downloading,
            line,
            captured_group(download_pattern(), line, 1),
        ).is_none(),
        captured_group(flash_pattern(), line, 1) == Some(digits),
        is_small_decimal(digits),
    ensures
        line_reading(line) == Some(reading(Stage::Flashing, line, decimal_value(digits))),
        line_reading(line).unwrap().stage == Stage::Flashing,
        line_reading(line).unwrap().progress_tenths == 300 + 6 * decimal_value(digits),
{
}

/// A line that gives no download and no flash reading and in which the verify
/// pattern captures a run of digits reads as the verifying stage, at 90 % plus
/// one tenth of a percent for each percent that the digits write.
pub proof fn lemma_verify_law(line: Seq<char>, digits: Seq<char>)
    requires
        stage_reading(
            Stage::Downloading,
            line,
            captured_group(download_pattern(), line, 1),
        ).is_none(),
        stage_reading(Stage::Flashing, line, captured_group(flash_pattern(), line, 1)).is_none(),
        captured_group(verify_pattern(), line, 1) == Some(digits),
        is_small_decimal(digits),
    ensures
        line_reading(line) == Some(reading(Stage::Verifying, line, decimal_value(digits))),
        line_reading(line).unwrap().stage == Stage::Verifying,
        line_reading(line).unwrap().progress_tenths == 900 + decimal_value(digits),
{
}

/// A line in which none of the three patterns captures anything reads as nothing.
pub proof fn lemma_no_match_no_reading(line: Seq<char>)
    requires
        captured_group(download_pattern(), line, 1).is_none(),
        captured_group(flash_pattern(), line, 1).is_none(),
        captured_group(verify_pattern(), line, 1).is_none(),
    ensures
        line_reading(line).is_none(),
{
}

/// Whatever the three patterns capture in a line, what the line reads as is
/// not a terminal stage.
pub proof fn lemma_parsed_stage_not_terminal(
    line: Seq<char>,
    download: Option<Seq<char>>,
    flash: Option<Seq<char>>,
    verify: Option<Seq<char>>,
)
    ensures
        parsed_progress(line, download, flash, verify) matches Some(p) ==> !is_terminal(p.stage)
            && is_reported(p.stage) && p.message == line,
{
}

/// Whatever a line reads as is one of the three reported stages, never a
/// terminal one, and up to 100 % of a stage it stays within the stage's share
/// of the global scale.
pub proof fn lemma_reading_in_range(stage: Stage, line: Seq<char>, captured: Option<Seq<char>>)
    requires
        is_reported(stage),
    ensures
        stage_reading(stage, line, captured) matches Some(p) ==> p.stage == stage && !is_terminal(
            p.stage,
        ) && (decimal_value(captured.unwrap()) <= 100 ==> stage_base(stage) <= p.progress_tenths
            <= stage_base(stage) + 100 * stage_weight(stage) && p.progress_tenths <= 1000),
{
    if let Some(digits) = captured {
        let percent = decimal_value(digits);
        if stage == Stage::Downloading {
            assert(global_tenths(stage, percent) == 3 * percent);
        } else if stage == Stage::Flashing {
            assert(global_tenths(stage, percent) == 300 + 6 * percent);
        } else {
            assert(global_tenths(stage, percent) == 900 + percent);
        }
    }
}

} // verus!
