//! What is known of the host: its memory and disk, the container tooling, and
//! the firmware release it runs.

use vstd::prelude::*;
use vstd::string::*;
use crate::pattern::{capture_group, captured_group};
use crate::text::{
    find_char_from, find_line_start, index_from, lemma_index_from, lemma_line_start, line_start,
    optional_text,
};

verus! {

/// What is known of the host.
#[derive(Debug, PartialEq, Eq)]
pub struct SystemInfo {
    pub os: String,
    pub architecture: String,
    pub total_memory: u64,
    pub available_space: u64,
    pub docker_installed: bool,
    pub nvidia_docker_installed: bool,
    pub jetpack_version: Option<String>,
}

/// What a `SystemInfo` says, as plain values.
pub struct SystemInfoView {
    pub os: Seq<char>,
    pub architecture: Seq<char>,
    pub total_memory: u64,
    pub available_space: u64,
    pub docker_installed: bool,
    pub nvidia_docker_installed: bool,
    pub jetpack_version: Option<Seq<char>>,
}

impl View for SystemInfo {
    type V = SystemInfoView;

    open spec fn view(&self) -> SystemInfoView {
        SystemInfoView {
            os: self.os@,
            architecture: self.architecture@,
            total_memory: self.total_memory,
            available_space: self.available_space,
            docker_installed: self.docker_installed,
            nvidia_docker_installed: self.nvidia_docker_installed,
            jetpack_version: optional_text(self.jetpack_version),
        }
    }
}

/// What was read from the host: the memory in KiB, the free disk space as
/// the host counts it, whether the two container programs answered, and the
/// text of the firmware release file where it could be read.
#[derive(Debug, PartialEq, Eq)]
pub struct SystemReadings {
    pub os: String,
    pub architecture: String,
    pub total_memory_kib: u64,
    pub free_disk: u64,
    pub docker_installed: bool,
    pub nvidia_docker_installed: bool,
    pub release_file: Option<String>,
}

/// The pattern of the line that names the firmware release.
pub open spec fn release_pattern() -> Seq<char> {
    "R(\\d+)\\s*,\\s*REVISION:\\s*([\\d.]+)"@
}

/// The first line of `contents` that holds the letter `R`, without its line
/// ending; nothing where no line holds one. Lines end at a line feed, and a
/// carriage return just before the line feed belongs to the line ending.
pub open spec fn release_line(contents: Seq<char>) -> Option<Seq<char>> {
    let at = index_from(contents, 'R', 0);
    if at >= contents.len() {
        None
    } else {
        let start = line_start(contents, at);
        let feed = index_from(contents, '\n', at);
        let end = if feed < contents.len() && contents[feed - 1] == '\r' {
            feed - 1
        } else {
            feed
        };
        Some(contents.subrange(start, end))
    }
}

/// The name of a firmware release with the major number `major` and the
/// revision `revision`; nothing where either is missing.
pub open spec fn release_name(major: Option<Seq<char>>, revision: Option<Seq<char>>) -> Option<
    Seq<char>,
> {
    match (major, revision) {
        (Some(m), Some(r)) => Some("L4T "@ + m + "."@ + r),
        _ => None,
    }
}

/// The firmware release that the text of a release file names: the release
/// pattern is searched in the first line that holds the letter `R`.
pub open spec fn jetpack_version_of(contents: Seq<char>) -> Option<Seq<char>> {
    match release_line(contents) {
        Some(line) => release_name(
            captured_group(release_pattern(), line, 1),
            captured_group(release_pattern(), line, 2),
        ),
        None => None,
    }
}

/// The first line of `contents` that holds the letter `R`, without its line ending.
pub fn find_release_line(contents: &str) -> (r: Option<&str>)
    ensures
        match r {
            Some(line) => release_line(contents@) == Some(line@),
            None => release_line(contents@).is_none(),
        },
{
    let n: usize = contents.unicode_len();
    let at = find_char_from(contents, 'R', 0);
    proof {
        lemma_index_from(contents@, 'R', 0);
    }
    if at >= n {
        return None;
    }
    let start = find_line_start(contents, at);
    let feed = find_char_from(contents, '\n', at);
    proof {
        lemma_line_start(contents@, at as int);
        lemma_index_from(contents@, '\n', at as int);
    }
    let end: usize = if feed < n && contents.get_char(feed - 1) == '\r' {
        feed - 1
    } else {
        feed
    };
    Some(contents.substring_char(start, end))
}

/// The name of a firmware release, given its major number and its revision.
pub fn release_name_from(major: &Option<String>, revision: &Option<String>) -> (r: Option<String>)
    ensures
        optional_text(r) == release_name(optional_text(*major), optional_text(*revision)),
{
    match (major, revision) {
        (Some(m), Some(v)) => {
            let mut out = "L4T ".to_owned();
            out.append(m.as_str());
            out.append(".");
            out.append(v.as_str());
            Some(out)
        },
        _ => None,
    }
}

/// The firmware release that the text of a release file names, if it names one.
pub fn detect_jetpack_version(contents: &str) -> (r: Option<String>)
    ensures
        optional_text(r) == jetpack_version_of(contents@),
{
    match find_release_line(contents) {
        Some(line) => {
            let major = capture_group("R(\\d+)\\s*,\\s*REVISION:\\s*([\\d.]+)", line, 1);
            let revision = capture_group("R(\\d+)\\s*,\\s*REVISION:\\s*([\\d.]+)", line, 2);
            release_name_from(&major, &revision)
        },
        None => None,
    }
}

/// The firmware release that a release file names, where the file was read.
pub open spec fn optional_jetpack_version(release_file: Option<Seq<char>>) -> Option<Seq<char>> {
    match release_file {
        Some(contents) => jetpack_version_of(contents),
        None => None,
    }
}

/// What is known of the host, given the readings: the memory is counted in
/// bytes, at 1024 to the KiB.
pub open spec fn system_info_of(readings: SystemReadings) -> SystemInfoView {
    SystemInfoView {
        os: readings.os@,
        architecture: readings.architecture@,
        total_memory: (readings.total_memory_kib * 1024) as u64,
        available_space: readings.free_disk,
        docker_installed: readings.docker_installed,
        nvidia_docker_installed: readings.nvidia_docker_installed,
        jetpack_version: optional_jetpack_version(optional_text(readings.release_file)),
    }
}

/// Puts together what is known of the host from what was read.
pub fn get_system_info(readings: SystemReadings) -> (info: SystemInfo)
    requires
        readings.total_memory_kib * 1024 <= u64::MAX,
    ensures
        info@ == system_info_of(readings),
{
    let jetpack_version = match &readings.release_file {
        Some(contents) => detect_jetpack_version(contents.as_str()),
        None => None,
    };
    SystemInfo {
        os: readings.os,
        architecture: readings.architecture,
        total_memory: readings.total_memory_kib * 1024,
        available_space: readings.free_disk,
        docker_installed: readings.docker_installed,
        nvidia_docker_installed: readings.nvidia_docker_installed,
        jetpack_version,
    }
}

/// The text of the device table: the bundled copy where it could be read,
/// else the copy under the current directory, else the one under the parent
/// directory; where none could be read, the failure names the reason for
/// which the last one could not.
pub open spec fn csv_data_of(
    bundled: Option<Seq<char>>,
    here: Option<Seq<char>>,
    parent: Result<Seq<char>, Seq<char>>,
) -> Result<Seq<char>, Seq<char>> {
    match bundled {
        Some(text) => Ok(text),
        None => match here {
            Some(text) => Ok(text),
            None => match parent {
                Ok(text) => Ok(text),
                Err(reason) => Err("Could not load device configuration data: "@ + reason),
            },
        },
    }
}

/// The characters of a text or of a failure's reason.
pub open spec fn text_result(r: Result<String, String>) -> Result<Seq<char>, Seq<char>> {
    match r {
        Ok(text) => Ok(text@),
        Err(reason) => Err(reason@),
    }
}

/// Chooses the text of the device table among the copies that were tried.
pub fn load_csv_data(bundled: Option<String>, here: Option<String>, parent: Result<String, String>) -> (r:
    Result<String, String>)
    ensures
        text_result(r) == csv_data_of(optional_text(bundled), optional_text(here), text_result(parent)),
{
    match bundled {
        Some(text) => Ok(text),
        None => match here {
            Some(text) => Ok(text),
            None => match parent {
                Ok(text) => Ok(text),
                Err(reason) => {
                    let mut message = "Could not load device configuration data: ".to_owned();
                    message.append(reason.as_str());
                    Err(message)
                },
            },
        },
    }
}

} // verus!
