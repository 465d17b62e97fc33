//! The life of one flashing job: how it is submitted, how the tool is found
//! and invoked, and what each event of the running tool does to the registry.

use vstd::prelude::*;
use vstd::string::*;
use crate::pattern::captured_group;
use crate::progress::{
    download_pattern, flash_pattern, is_terminal, lemma_parsed_stage_not_terminal, line_reading,
    optional_progress, parse_flash_output, verify_pattern, FlashProgress, FlashProgressView,
    Stage, Timestamp,
};
use crate::registry::{
    handles_are_live, lookup, update_flash_progress, with_handle, with_snapshot, without_handle,
    AppState, AppStateView,
};
use crate::text::{optional_text, push_signed_decimal, signed_decimal_text, texts};

verus! {

/// What is to be flashed, and for whom.
#[derive(Debug, PartialEq, Eq)]
pub struct FlashCommand {
    pub product: String,
    pub device_module: String,
    pub jetpack_version: String,
    pub storage_device: String,
    pub keep_files: bool,
    pub user_name: String,
}

/// What a `FlashCommand` says, as plain values.
pub struct FlashCommandView {
    pub product: Seq<char>,
    pub device_module: Seq<char>,
    pub jetpack_version: Seq<char>,
    pub storage_device: Seq<char>,
    pub keep_files: bool,
    pub user_name: Seq<char>,
}

impl View for FlashCommand {
    type V = FlashCommandView;

    open spec fn view(&self) -> FlashCommandView {
        FlashCommandView {
            product: self.product@,
            device_module: self.device_module@,
            jetpack_version: self.jetpack_version@,
            storage_device: self.storage_device@,
            keep_files: self.keep_files,
            user_name: self.user_name@,
        }
    }
}

impl Clone for FlashCommand {
    fn clone(&self) -> (r: Self)
        ensures
            r == *self,
    {
        FlashCommand {
            product: self.product.clone(),
            device_module: self.device_module.clone(),
            jetpack_version: self.jetpack_version.clone(),
            storage_device: self.storage_device.clone(),
            keep_files: self.keep_files,
            user_name: self.user_name.clone(),
        }
    }
}

/// Why a job ended in failure.
#[derive(Clone, Copy, Debug, PartialEq, Eq, Structural)]
pub enum JobError {
    /// The flashing tool was found in none of the places searched.
    ToolNotFound,
    /// The tool's process could not be started.
    SpawnFailed,
    /// The process handle was gone when the output ended.
    ProcessNotFound,
    /// Waiting for the process to exit failed.
    WaitFailed,
    /// The tool ran and reported failure with this exit code.
    NonZeroExit(i32),
    /// A snapshot could not be published.
    PublishFailed,
}

/// The text that describes a failure.
pub open spec fn job_error_message(error: JobError) -> Seq<char> {
    match error {
        JobError::ToolNotFound => "flash_cordatus.sh script not found"@,
        JobError::SpawnFailed => "Failed to start flash process"@,
        JobError::ProcessNotFound => "Flash process not found"@,
        JobError::WaitFailed => "Flash process failed"@,
        JobError::NonZeroExit(code) => "Flash process exited with error code: "@
            + signed_decimal_text(code as int),
        JobError::PublishFailed => "Failed to emit progress update"@,
    }
}

impl JobError {
    /// The text that describes the failure.
    pub fn message(&self) -> (r: String)
        ensures
            r@ == job_error_message(*self),
    {
        match self {
            JobError::ToolNotFound => "flash_cordatus.sh script not found".to_owned(),
            JobError::SpawnFailed => "Failed to start flash process".to_owned(),
            JobError::ProcessNotFound => "Flash process not found".to_owned(),
            JobError::WaitFailed => "Flash process failed".to_owned(),
            JobError::NonZeroExit(code) => {
                let mut out = "Flash process exited with error code: ".to_owned();
                push_signed_decimal(&mut out, *code);
                out
            },
            JobError::PublishFailed => "Failed to emit progress update".to_owned(),
        }
    }
}

/// The snapshot of a job that was just submitted.
pub open spec fn preparing_view(now: Timestamp) -> FlashProgressView {
    FlashProgressView {
        stage: Stage::Preparing,
        progress_tenths: 0,
        message: "Preparing flash process..."@,
        details: None,
        start_time: Some(now),
        estimated_time_remaining: None,
    }
}

/// The placeholder snapshot published before the tool's output is read:
/// downloading at 10 %, with 300 seconds taken to be left.
pub open spec fn downloading_view(command: FlashCommandView) -> FlashProgressView {
    FlashProgressView {
        stage: Stage::Downloading,
        progress_tenths: 100,
        message: "Downloading JetPack files..."@,
        details: Some("Downloading "@ + command.jetpack_version + " for "@ + command.device_module),
        start_time: None,
        estimated_time_remaining: Some(300),
    }
}

/// The snapshot of a job that ended in success.
pub open spec fn complete_view() -> FlashProgressView {
    FlashProgressView {
        stage: Stage::Complete,
        progress_tenths: 1000,
        message: "Flash process completed successfully!"@,
        details: Some("Device is ready to use"@),
        start_time: None,
        estimated_time_remaining: None,
    }
}

/// The snapshot of a job that ended in failure, with the failure's text as detail.
pub open spec fn error_view(detail: Seq<char>) -> FlashProgressView {
    FlashProgressView {
        stage: Stage::Error,
        progress_tenths: 0,
        message: "Flash process failed"@,
        details: Some(detail),
        start_time: None,
        estimated_time_remaining: None,
    }
}

/// The snapshot of a job that was just submitted at the time `now`.
pub fn preparing_snapshot(now: Timestamp) -> (p: FlashProgress)
    ensures
        p@ == preparing_view(now),
{
    FlashProgress {
        stage: Stage::Preparing,
        progress_tenths: 0,
        message: "Preparing flash process...".to_owned(),
        details: None,
        start_time: Some(now),
        estimated_time_remaining: None,
    }
}

/// The placeholder snapshot published before the tool's output is read.
pub fn downloading_snapshot(command: &FlashCommand) -> (p: FlashProgress)
    ensures
        p@ == downloading_view(command@),
{
    let mut details = "Downloading ".to_owned();
    details.append(command.jetpack_version.as_str());
    details.append(" for ");
    details.append(command.device_module.as_str());
    FlashProgress {
        stage: Stage::Downloading,
        progress_tenths: 100,
        message: "Downloading JetPack files...".to_owned(),
        details: Some(details),
        start_time: None,
        estimated_time_remaining: Some(300),
    }
}

/// The snapshot of a job that ended in success.
pub fn complete_snapshot() -> (p: FlashProgress)
    ensures
        p@ == complete_view(),
{
    FlashProgress {
        stage: Stage::Complete,
        progress_tenths: 1000,
        message: "Flash process completed successfully!".to_owned(),
        details: Some("Device is ready to use".to_owned()),
        start_time: None,
        estimated_time_remaining: None,
    }
}

/// The snapshot of a job that ended in failure.
pub fn error_snapshot(error: JobError) -> (p: FlashProgress)
    ensures
        p@ == error_view(job_error_message(error)),
{
    FlashProgress {
        stage: Stage::Error,
        progress_tenths: 0,
        message: "Flash process failed".to_owned(),
        details: Some(error.message()),
        start_time: None,
        estimated_time_remaining: None,
    }
}

/// How the tool is to be started.
#[derive(Debug, PartialEq, Eq)]
pub struct FlashInvocation {
    pub program: String,
    pub arguments: Vec<String>,
    pub working_directory: String,
}

/// The word that the tool reads for the flag of keeping intermediate files.
pub open spec fn flag_text(flag: bool) -> Seq<char> {
    if flag {
        "true"@
    } else {
        "false"@
    }
}

/// The arguments of the invocation: the tool's path, then the fields of the
/// command in the order in which the tool reads them.
pub open spec fn invocation_arguments(script_path: Seq<char>, command: FlashCommandView) -> Seq<
    Seq<char>,
> {
    seq![
        script_path,
        command.product,
        command.device_module,
        command.jetpack_version,
        command.storage_device,
        flag_text(command.keep_files),
        command.user_name,
    ]
}

/// Builds the invocation of the tool at `script_path` for `command`, to be
/// run by the shell in `working_directory`.
pub fn build_invocation(script_path: &str, working_directory: &str, command: &FlashCommand) -> (r:
    FlashInvocation)
    ensures
        r.program@ == "bash"@,
        texts(r.arguments@) == invocation_arguments(script_path@, command@),
        r.working_directory@ == working_directory@,
{
    let mut arguments: Vec<String> = Vec::new();
    arguments.push(script_path.to_owned());
    arguments.push(command.product.clone());
    arguments.push(command.device_module.clone());
    arguments.push(command.jetpack_version.clone());
    arguments.push(command.storage_device.clone());
    if command.keep_files {
        arguments.push("true".to_owned());
    } else {
        arguments.push("false".to_owned());
    }
    arguments.push(command.user_name.clone());
    proof {
        assert(texts(arguments@) =~= invocation_arguments(script_path@, command@));
    }
    FlashInvocation {
        program: "bash".to_owned(),
        arguments,
        working_directory: working_directory.to_owned(),
    }
}

/// Where the tool is taken from: the copy beside the running binary where
/// there is one, else the copy in the current directory, else the one in the
/// parent directory.
pub open spec fn script_path_of(bundled: Option<Seq<char>>, here: bool, parent: bool) -> Result<
    Seq<char>,
    JobError,
> {
    match bundled {
        Some(path) => Ok(path),
        None => if here {
            Ok("./flash_cordatus.sh"@)
        } else if parent {
            Ok("../flash_cordatus.sh"@)
        } else {
            Err(JobError::ToolNotFound)
        },
    }
}

/// The characters of a path or of the failure to find one.
pub open spec fn path_result(r: Result<String, JobError>) -> Result<Seq<char>, JobError> {
    match r {
        Ok(path) => Ok(path@),
        Err(e) => Err(e),
    }
}

/// Chooses the path of the flashing tool. `bundled` is the path of the copy
/// beside the running binary, if that copy exists; `here` and `parent` say
/// whether a copy exists in the current and in the parent directory.
pub fn get_script_path(bundled: Option<String>, here: bool, parent: bool) -> (r: Result<
    String,
    JobError,
>)
    ensures
        path_result(r) == script_path_of(optional_text(bundled), here, parent),
{
    match bundled {
        Some(path) => Ok(path),
        None => {
            if here {
                Ok("./flash_cordatus.sh".to_owned())
            } else if parent {
                Ok("../flash_cordatus.sh".to_owned())
            } else {
                Err(JobError::ToolNotFound)
            }
        },
    }
}

/// The directory in which the tool runs: the current directory where it
/// holds the device table, else the parent directory where that one does,
/// else the directory of the running binary, else the parent directory.
pub open spec fn working_directory_of(here: bool, parent: bool, binary_directory: Option<Seq<char>>) -> Seq<
    char,
> {
    if here {
        "."@
    } else if parent {
        ".."@
    } else {
        match binary_directory {
            Some(directory) => directory,
            None => ".."@,
        }
    }
}

/// Chooses the directory in which the tool runs. `here` and `parent` say
/// whether the device table exists under the current and under the parent
/// directory; `binary_directory` is the directory of the running binary, if
/// it is known.
pub fn get_working_directory(here: bool, parent: bool, binary_directory: Option<String>) -> (r:
    String)
    ensures
        r@ == working_directory_of(here, parent, optional_text(binary_directory)),
{
    if here {
        ".".to_owned()
    } else if parent {
        "..".to_owned()
    } else {
        match binary_directory {
            Some(directory) => directory,
            None => "..".to_owned(),
        }
    }
}

/// Makes a job id with `uuid::Uuid::new_v4` and writes it with the `Display`
/// of `Uuid`. The id is drawn at random, so nothing is claimed of it. The
/// outside function does not return where the system has no randomness to give.
#[verifier::external_body]
fn new_job_id() -> (id: String) {
    uuid::Uuid::new_v4().to_string()
}

/// Reads the clock with `chrono::Utc::now` and takes the time apart with
/// `DateTime::timestamp` and `DateTime::timestamp_subsec_nanos`. Nothing is
/// claimed of the time read. The outside function does not return where the
/// system clock stands before 1970.
#[verifier::external_body]
fn current_time() -> (now: Timestamp) {
    let now = chrono::Utc::now();
    Timestamp { seconds: now.timestamp(), nanoseconds: now.timestamp_subsec_nanos() }
}

/// Enters a job under `flash_id` with the snapshot of a job submitted at `now`.
pub fn begin_job<H>(state: &mut AppState<H>, flash_id: &str, now: Timestamp)
    ensures
        final(state)@ == with_snapshot(old(state)@, flash_id@, preparing_view(now)),
{
    update_flash_progress(state, flash_id, preparing_snapshot(now));
}

/// Submits a job: draws a fresh id, enters the job under it with the
/// snapshot of a job submitted now, and returns the id. The job's process is
/// not started here.
pub fn start_flash_process<H>(state: &mut AppState<H>) -> (flash_id: String)
    ensures
        exists|now: Timestamp|
            final(state)@ == with_snapshot(old(state)@, flash_id@, #[trigger] preparing_view(now)),
{
    let flash_id = new_job_id();
    let now = current_time();
    begin_job(state, flash_id.as_str(), now);
    flash_id
}

/// Entering a job under an id that the registry does not hold gives that id
/// the snapshot of a submitted job and leaves every snapshot that was there,
/// every handle and every device as it was.
pub proof fn lemma_fresh_submission<H>(v: AppStateView<H>, id: Seq<char>, now: Timestamp)
    requires
        !v.snapshots.contains_key(id),
    ensures
        lookup(with_snapshot(v, id, preparing_view(now)).snapshots, id) == Some(preparing_view(now)),
        forall|other: Seq<char>| #[trigger]
            v.snapshots.contains_key(other) ==> lookup(
                with_snapshot(v, id, preparing_view(now)).snapshots,
                other,
            ) == Some(v.snapshots[other]),
        with_snapshot(v, id, preparing_view(now)).handles == v.handles,
        with_snapshot(v, id, preparing_view(now)).devices == v.devices,
{
}

/// How the tool's process ended: whether it reported success, and its exit
/// code where it has one.
#[derive(Clone, Copy, Debug, PartialEq, Eq, Structural)]
pub struct ExitReport {
    pub success: bool,
    pub code: Option<i32>,
}

/// What happened to a running job.
#[derive(Debug, PartialEq, Eq)]
pub enum FlashEvent<H> {
    /// The job's task has started.
    Started,
    /// The tool's process was started, with this handle.
    Spawned(H),
    /// The tool wrote this line.
    OutputLine(String),
    /// The tool's output ended, or could no longer be read.
    OutputEnded,
    /// The tool's process ended.
    Exited(ExitReport),
    /// The job cannot go on.
    Failed(JobError),
}

/// What is to be done next for a running job.
#[derive(Debug, PartialEq, Eq)]
pub enum FlashAction<H> {
    /// Publish this snapshot and go on.
    Publish(FlashProgress),
    /// Go on; there is nothing to publish.
    Proceed,
    /// Wait for the process with this handle to end.
    AwaitExit(H),
    /// Publish this snapshot; the job has ended in success.
    Conclude(FlashProgress),
    /// The job has ended in failure. The handle, where there is one, is the
    /// one that the registry still held.
    Abandon(Option<H>),
}

/// What an action says, as plain values.
pub enum FlashActionView<H> {
    Publish(FlashProgressView),
    Proceed,
    AwaitExit(H),
    Conclude(FlashProgressView),
    Abandon(Option<H>),
}

impl<H> View for FlashAction<H> {
    type V = FlashActionView<H>;

    open spec fn view(&self) -> FlashActionView<H> {
        match *self {
            FlashAction::Publish(p) => FlashActionView::Publish(p@),
            FlashAction::Proceed => FlashActionView::Proceed,
            FlashAction::AwaitExit(h) => FlashActionView::AwaitExit(h),
            FlashAction::Conclude(p) => FlashActionView::Conclude(p@),
            FlashAction::Abandon(h) => FlashActionView::Abandon(h),
        }
    }
}

/// The failure that an unsuccessful exit stands for: the exit code, or -1
/// where the process has none.
pub open spec fn exit_failure(report: ExitReport) -> JobError {
    JobError::NonZeroExit(
        match report.code {
            Some(code) => code,
            None => -1i32,
        },
    )
}

/// The registry after job `id` failed with `error`: the job's snapshot is the
/// error snapshot, and no handle is left of it.
pub open spec fn failed<H>(v: AppStateView<H>, id: Seq<char>, error: JobError) -> AppStateView<H> {
    without_handle(with_snapshot(v, id, error_view(job_error_message(error))), id)
}

/// The registry after job `id` ended in success: the job's snapshot is the
/// complete snapshot, and no handle is left of it.
pub open spec fn completed<H>(v: AppStateView<H>, id: Seq<char>) -> AppStateView<H> {
    without_handle(with_snapshot(v, id, complete_view()), id)
}

/// The registry after a line was read for job `id`: a reading replaces the
/// job's snapshot, and a line that reads as nothing changes nothing.
pub open spec fn state_after_reading<H>(
    v: AppStateView<H>,
    id: Seq<char>,
    reading: Option<FlashProgressView>,
) -> AppStateView<H> {
    match reading {
        Some(p) => with_snapshot(v, id, p),
        None => v,
    }
}

/// What is done after a line was read: a reading is published.
pub open spec fn action_after_reading<H>(reading: Option<FlashProgressView>) -> FlashActionView<H> {
    match reading {
        Some(p) => FlashActionView::Publish(p),
        None => FlashActionView::Proceed,
    }
}

/// The registry after `event` happened to job `id`.
pub open spec fn state_after<H>(
    v: AppStateView<H>,
    command: FlashCommandView,
    id: Seq<char>,
    event: FlashEvent<H>,
) -> AppStateView<H> {
    match event {
        FlashEvent::Started => with_snapshot(v, id, downloading_view(command)),
        FlashEvent::Spawned(handle) => with_handle(v, id, handle),
        FlashEvent::OutputLine(line) => state_after_reading(v, id, line_reading(line@)),
        FlashEvent::OutputEnded => if v.handles.contains_key(id) {
            without_handle(v, id)
        } else {
            failed(v, id, JobError::ProcessNotFound)
        },
        FlashEvent::Exited(report) => if report.success {
            completed(v, id)
        } else {
            failed(v, id, exit_failure(report))
        },
        FlashEvent::Failed(error) => failed(v, id, error),
    }
}

/// What is to be done after `event` happened to job `id`.
pub open spec fn action_after<H>(
    v: AppStateView<H>,
    command: FlashCommandView,
    id: Seq<char>,
    event: FlashEvent<H>,
) -> FlashActionView<H> {
    match event {
        FlashEvent::Started => FlashActionView::Publish(downloading_view(command)),
        FlashEvent::Spawned(handle) => FlashActionView::Proceed,
        FlashEvent::OutputLine(line) => action_after_reading(line_reading(line@)),
        FlashEvent::OutputEnded => if v.handles.contains_key(id) {
            FlashActionView::AwaitExit(v.handles[id])
        } else {
            FlashActionView::Abandon(None)
        },
        FlashEvent::Exited(report) => if report.success {
            FlashActionView::Conclude(complete_view())
        } else {
            FlashActionView::Abandon(lookup(v.handles, id))
        },
        FlashEvent::Failed(error) => FlashActionView::Abandon(lookup(v.handles, id)),
    }
}

/// Records what a line of the tool's output read as: a reading replaces the
/// snapshot of job `flash_id` and is to be published; where the line read as
/// nothing, the registry is left as it is.
pub fn apply_reading<H>(state: &mut AppState<H>, flash_id: &str, reading: Option<FlashProgress>) -> (action:
    FlashAction<H>)
    ensures
        final(state)@ == state_after_reading(old(state)@, flash_id@, optional_progress(reading)),
        action@ == action_after_reading::<H>(optional_progress(reading)),
{
    match reading {
        Some(progress) => {
            let published = progress.clone();
            update_flash_progress(state, flash_id, progress);
            FlashAction::Publish(published)
        },
        None => FlashAction::Proceed,
    }
}

/// Ends job `flash_id` in failure: its snapshot becomes the error snapshot
/// with the failure's text, and the handle that the registry still held, if
/// any, is taken out and returned.
pub fn fail_job<H>(state: &mut AppState<H>, flash_id: &str, error: JobError) -> (handle: Option<H>)
    ensures
        final(state)@ == failed(old(state)@, flash_id@, error),
        handle == lookup(old(state)@.handles, flash_id@),
{
    update_flash_progress(state, flash_id, error_snapshot(error));
    state.take_handle(flash_id)
}

/// Ends job `flash_id` in success: its snapshot becomes the complete
/// snapshot, which is returned for publication, and no handle is left of it.
pub fn complete_job<H>(state: &mut AppState<H>, flash_id: &str) -> (published: FlashProgress)
    ensures
        final(state)@ == completed(old(state)@, flash_id@),
        published@ == complete_view(),
{
    update_flash_progress(state, flash_id, complete_snapshot());
    let _ = state.take_handle(flash_id);
    complete_snapshot()
}

/// Takes one event of the job `flash_id`, changes the registry accordingly
/// and says what is to be done next.
///
/// At the start the placeholder snapshot is entered and published. A process
/// handle is registered as soon as it exists. Each line of output is read,
/// and a reading replaces the snapshot. When the output ends, the handle is
/// taken out to be waited for; if it is gone, the job fails. An exit in
/// success completes the job; any other exit, and any failure reported,
/// ends it with the error snapshot.
pub fn execute_flash_step<H>(
    state: &mut AppState<H>,
    command: &FlashCommand,
    flash_id: &str,
    event: FlashEvent<H>,
) -> (action: FlashAction<H>)
    ensures
        final(state)@ == state_after(old(state)@, command@, flash_id@, event),
        action@ == action_after(old(state)@, command@, flash_id@, event),
{
    match event {
        FlashEvent::Started => {
            update_flash_progress(state, flash_id, downloading_snapshot(command));
            FlashAction::Publish(downloading_snapshot(command))
        },
        FlashEvent::Spawned(handle) => {
            state.insert_handle(flash_id, handle);
            FlashAction::Proceed
        },
        FlashEvent::OutputLine(line) => {
            let reading = parse_flash_output(line.as_str());
            apply_reading(state, flash_id, reading)
        },
        FlashEvent::OutputEnded => {
            match state.take_handle(flash_id) {
                Some(handle) => FlashAction::AwaitExit(handle),
                None => {
                    let _ = fail_job(state, flash_id, JobError::ProcessNotFound);
                    proof {
                        assert(old(state)@.handles.remove(flash_id@) =~= old(state)@.handles);
                    }
                    FlashAction::Abandon(None)
                },
            }
        },
        FlashEvent::Exited(report) => {
            if report.success {
                FlashAction::Conclude(complete_job(state, flash_id))
            } else {
                let code: i32 = match report.code {
                    Some(code) => code,
                    None => -1,
                };
                FlashAction::Abandon(fail_job(state, flash_id, JobError::NonZeroExit(code)))
            }
        },
        FlashEvent::Failed(error) => FlashAction::Abandon(fail_job(state, flash_id, error)),
    }
}

/// A line in which none of the three patterns captures anything changes
/// nothing in the registry, and nothing is published for it.
pub proof fn lemma_unmatched_line_changes_nothing<H>(
    v: AppStateView<H>,
    command: FlashCommandView,
    id: Seq<char>,
    line: String,
)
    requires
        captured_group(download_pattern(), line@, 1).is_none(),
        captured_group(flash_pattern(), line@, 1).is_none(),
        captured_group(verify_pattern(), line@, 1).is_none(),
    ensures
        line_reading(line@).is_none(),
        state_after(v, command, id, FlashEvent::OutputLine(line)) == v,
        action_after(v, command, id, FlashEvent::<H>::OutputLine(line)) == FlashActionView::<
            H,
        >::Proceed,
{
}

/// An event of one job leaves the snapshot and the handle of every other job,
/// and the devices, as they were.
pub proof fn lemma_step_leaves_other_jobs<H>(
    v: AppStateView<H>,
    command: FlashCommandView,
    id: Seq<char>,
    event: FlashEvent<H>,
    other: Seq<char>,
)
    requires
        other != id,
    ensures
        lookup(state_after(v, command, id, event).snapshots, other) == lookup(v.snapshots, other),
        lookup(state_after(v, command, id, event).handles, other) == lookup(v.handles, other),
        state_after(v, command, id, event).devices == v.devices,
{
}

/// After an event that ends a job, the registry holds no handle of it, and
/// its snapshot is terminal.
pub proof fn lemma_ended_job_has_no_handle<H>(
    v: AppStateView<H>,
    command: FlashCommandView,
    id: Seq<char>,
    event: FlashEvent<H>,
)
    requires
        event is Exited || event is Failed || (event is OutputEnded && !v.handles.contains_key(id)),
    ensures
        !state_after(v, command, id, event).handles.contains_key(id),
        state_after(v, command, id, event).snapshots.contains_key(id),
        is_terminal(state_after(v, command, id, event).snapshots[id].stage),
{
}

/// No event leaves a handle behind for a job whose snapshot is terminal,
/// provided that a process is only registered for a job that has not ended.
pub proof fn lemma_step_keeps_handles_live<H>(
    v: AppStateView<H>,
    command: FlashCommandView,
    id: Seq<char>,
    event: FlashEvent<H>,
)
    requires
        handles_are_live(v),
        event is Spawned && v.snapshots.contains_key(id) ==> !is_terminal(v.snapshots[id].stage),
    ensures
        handles_are_live(state_after(v, command, id, event)),
{
    let after = state_after(v, command, id, event);
    if let FlashEvent::OutputLine(line) = event {
        lemma_parsed_stage_not_terminal(
            line@,
            captured_group(download_pattern(), line@, 1),
            captured_group(flash_pattern(), line@, 1),
            captured_group(verify_pattern(), line@, 1),
        );
    }
    assert forall|k: Seq<char>|
        after.handles.contains_key(k) && #[trigger] after.snapshots.contains_key(
            k,
        ) implies !is_terminal(after.snapshots[k].stage) by {
        if k != id {
            assert(v.handles.contains_key(k));
            assert(v.snapshots.contains_key(k));
        } else if after.snapshots[k] == v.snapshots[k] && v.snapshots.contains_key(k) {
            if v.handles.contains_key(k) {
                assert(!is_terminal(v.snapshots[k].stage));
            }
        }
    }
}

} // verus!
