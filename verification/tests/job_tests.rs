use jetson_flash::job::{
    begin_job, build_invocation, complete_job, error_snapshot, execute_flash_step, fail_job,
    get_script_path, get_working_directory, start_flash_process, ExitReport, FlashAction,
    FlashCommand, FlashEvent, JobError,
};
use jetson_flash::keyed::KeyedStore;
use jetson_flash::progress::{FlashProgress, Stage, Timestamp};
use jetson_flash::registry::{
    cancel_flash_process, get_flash_progress, update_flash_progress, AppState,
};

fn request() -> FlashCommand {
    FlashCommand {
        product: "Jetson".to_string(),
        device_module: "Orin Nano".to_string(),
        jetpack_version: "36.4.4".to_string(),
        storage_device: "nvme".to_string(),
        keep_files: false,
        user_name: "alice".to_string(),
    }
}

fn line(text: &str) -> FlashEvent<u32> {
    FlashEvent::OutputLine(text.to_string())
}

#[test]
fn a_job_runs_from_submission_to_completion() {
    let mut state: AppState<u32> = AppState::new();
    let command = request();
    let id = start_flash_process(&mut state);
    let first = get_flash_progress(&id, &state).unwrap();
    assert_eq!(first.stage, Stage::Preparing);
    assert_eq!(first.progress_tenths, 0);
    assert_eq!(first.message, "Preparing flash process...");
    assert_eq!(first.details, None);
    assert!(first.start_time.is_some());
    assert_eq!(first.estimated_time_remaining, None);

    let action = execute_flash_step(&mut state, &command, &id, FlashEvent::Started);
    let placeholder = FlashProgress {
        stage: Stage::Downloading,
        progress_tenths: 100,
        message: "Downloading JetPack files...".to_string(),
        details: Some("Downloading 36.4.4 for Orin Nano".to_string()),
        start_time: None,
        estimated_time_remaining: Some(300),
    };
    assert_eq!(action, FlashAction::Publish(placeholder.clone()));
    assert_eq!(get_flash_progress(&id, &state), Some(placeholder));

    let action = execute_flash_step(&mut state, &command, &id, FlashEvent::Spawned(77));
    assert_eq!(action, FlashAction::Proceed);
    assert_eq!(state.active_flashes.get(&id), Some(&77));

    let action = execute_flash_step(&mut state, &command, &id, line("Downloading package (42%)"));
    let snapshot = get_flash_progress(&id, &state).unwrap();
    assert_eq!(action, FlashAction::Publish(snapshot.clone()));
    assert_eq!(snapshot.stage, Stage::Downloading);
    assert_eq!(snapshot.progress_tenths, 126);
    assert_eq!(snapshot.message, "Downloading package (42%)");

    let action = execute_flash_step(&mut state, &command, &id, line("Flashing partition (50%)"));
    let snapshot = get_flash_progress(&id, &state).unwrap();
    assert_eq!(action, FlashAction::Publish(snapshot.clone()));
    assert_eq!(snapshot.stage, Stage::Flashing);
    assert_eq!(snapshot.progress_tenths, 600);

    let action = execute_flash_step(&mut state, &command, &id, FlashEvent::OutputEnded);
    assert_eq!(action, FlashAction::AwaitExit(77));
    assert!(!state.active_flashes.contains_key(&id));
    assert_eq!(get_flash_progress(&id, &state).unwrap().stage, Stage::Flashing);

    let exit = FlashEvent::Exited(ExitReport { success: true, code: Some(0) });
    let action = execute_flash_step(&mut state, &command, &id, exit);
    let last = FlashProgress {
        stage: Stage::Complete,
        progress_tenths: 1000,
        message: "Flash process completed successfully!".to_string(),
        details: Some("Device is ready to use".to_string()),
        start_time: None,
        estimated_time_remaining: None,
    };
    assert_eq!(action, FlashAction::Conclude(last.clone()));
    assert_eq!(get_flash_progress(&id, &state), Some(last));
    assert!(!state.active_flashes.contains_key(&id));
}

#[test]
fn a_failing_exit_ends_in_the_error_snapshot() {
    let mut state: AppState<u32> = AppState::new();
    let command = request();
    let id = start_flash_process(&mut state);
    execute_flash_step(&mut state, &command, &id, FlashEvent::Started);
    execute_flash_step(&mut state, &command, &id, FlashEvent::Spawned(5));
    execute_flash_step(&mut state, &command, &id, line("Flashing partition (50%)"));
    assert_eq!(
        execute_flash_step(&mut state, &command, &id, FlashEvent::OutputEnded),
        FlashAction::AwaitExit(5)
    );
    let exit = FlashEvent::Exited(ExitReport { success: false, code: Some(1) });
    assert_eq!(execute_flash_step(&mut state, &command, &id, exit), FlashAction::Abandon(None));
    let last = get_flash_progress(&id, &state).unwrap();
    assert_eq!(last.stage, Stage::Error);
    assert_eq!(last.progress_tenths, 0);
    assert_eq!(last.message, "Flash process failed");
    assert_eq!(last.details, Some("Flash process exited with error code: 1".to_string()));
    assert!(last.details.unwrap().contains("1"));
    assert_eq!(last.start_time, None);
    assert_eq!(last.estimated_time_remaining, None);
}

#[test]
fn an_exit_without_a_code_counts_as_minus_one() {
    let mut state: AppState<u32> = AppState::new();
    let exit = FlashEvent::Exited(ExitReport { success: false, code: None });
    assert_eq!(execute_flash_step(&mut state, &request(), "j", exit), FlashAction::Abandon(None));
    assert_eq!(
        get_flash_progress("j", &state).unwrap().details,
        Some("Flash process exited with error code: -1".to_string())
    );
}

#[test]
fn cancelling_while_flashing_removes_handle_and_snapshot() {
    let mut state: AppState<u32> = AppState::new();
    let command = request();
    let id = start_flash_process(&mut state);
    execute_flash_step(&mut state, &command, &id, FlashEvent::Started);
    execute_flash_step(&mut state, &command, &id, FlashEvent::Spawned(9));
    execute_flash_step(&mut state, &command, &id, line("Flashing partition (50%)"));
    assert_eq!(get_flash_progress(&id, &state).unwrap().stage, Stage::Flashing);
    assert_eq!(cancel_flash_process(&id, &mut state), Some(9));
    assert_eq!(get_flash_progress(&id, &state), None);
    assert!(!state.active_flashes.contains_key(&id));
    assert_eq!(state.flash_progress.len(), 0);
}

#[test]
fn cancelling_twice_is_the_same_as_once() {
    let mut state: AppState<u32> = AppState::new();
    let id = start_flash_process(&mut state);
    state.insert_handle(&id, 3);
    assert_eq!(cancel_flash_process(&id, &mut state), Some(3));
    assert_eq!(cancel_flash_process(&id, &mut state), None);
    assert_eq!(get_flash_progress(&id, &state), None);
    assert_eq!(state.flash_progress.len(), 0);
    assert_eq!(state.active_flashes.len(), 0);
}

#[test]
fn an_unknown_job_has_no_snapshot_and_cancels_to_nothing() {
    let mut state: AppState<u32> = AppState::new();
    let id = start_flash_process(&mut state);
    state.insert_handle(&id, 3);
    assert_eq!(get_flash_progress("never-submitted", &state), None);
    assert_eq!(cancel_flash_process("never-submitted", &mut state), None);
    assert_eq!(state.flash_progress.len(), 1);
    assert_eq!(state.active_flashes.len(), 1);
    assert_eq!(state.active_flashes.get(&id), Some(&3));
    assert_eq!(get_flash_progress(&id, &state).unwrap().stage, Stage::Preparing);
}

#[test]
fn submitted_jobs_get_different_ids() {
    let mut state: AppState<u32> = AppState::new();
    let mut ids: Vec<String> = Vec::new();
    for _ in 0..50 {
        let id = start_flash_process(&mut state);
        assert_eq!(id.len(), 36);
        assert!(!ids.contains(&id));
        ids.push(id);
    }
    assert_eq!(state.flash_progress.len(), 50);
}

#[test]
fn an_unmatched_line_changes_nothing() {
    let mut state: AppState<u32> = AppState::new();
    let command = request();
    begin_job(&mut state, "job", Timestamp { seconds: 1_700_000_000, nanoseconds: 5 });
    execute_flash_step(&mut state, &command, "job", line("Flashing 10%"));
    let before = get_flash_progress("job", &state);
    let action = execute_flash_step(&mut state, &command, "job", line("writing the bootloader"));
    assert_eq!(action, FlashAction::Proceed);
    assert_eq!(get_flash_progress("job", &state), before);
    assert_eq!(state.flash_progress.len(), 1);
}

#[test]
fn a_line_of_one_job_leaves_the_others() {
    let mut state: AppState<u32> = AppState::new();
    let command = request();
    let now = Timestamp { seconds: 10, nanoseconds: 0 };
    begin_job(&mut state, "a", now);
    begin_job(&mut state, "b", now);
    execute_flash_step(&mut state, &command, "a", line("Verifying 50%"));
    assert_eq!(get_flash_progress("a", &state).unwrap().progress_tenths, 950);
    let other = get_flash_progress("b", &state).unwrap();
    assert_eq!(other.stage, Stage::Preparing);
    assert_eq!(other.start_time, Some(now));
}

#[test]
fn output_ending_without_a_handle_fails_the_job() {
    let mut state: AppState<u32> = AppState::new();
    let action = execute_flash_step(&mut state, &request(), "j", FlashEvent::OutputEnded);
    assert_eq!(action, FlashAction::Abandon(None));
    let last = get_flash_progress("j", &state).unwrap();
    assert_eq!(last.stage, Stage::Error);
    assert_eq!(last.details, Some("Flash process not found".to_string()));
}

#[test]
fn a_reported_failure_releases_the_handle() {
    let mut state: AppState<u32> = AppState::new();
    let command = request();
    execute_flash_step(&mut state, &command, "j", FlashEvent::Spawned(4));
    let failure = FlashEvent::Failed(JobError::PublishFailed);
    assert_eq!(
        execute_flash_step(&mut state, &command, "j", failure),
        FlashAction::Abandon(Some(4))
    );
    assert!(!state.active_flashes.contains_key("j"));
    assert_eq!(get_flash_progress("j", &state), Some(error_snapshot(JobError::PublishFailed)));
    assert_eq!(fail_job(&mut state, "k", JobError::ToolNotFound), None);
    assert_eq!(
        get_flash_progress("k", &state).unwrap().details,
        Some("flash_cordatus.sh script not found".to_string())
    );
}

#[test]
fn completing_a_job_drops_a_handle_that_is_left() {
    let mut state: AppState<u32> = AppState::new();
    state.insert_handle("j", 8);
    let published = complete_job(&mut state, "j");
    assert_eq!(published.stage, Stage::Complete);
    assert_eq!(published.progress_tenths, 1000);
    assert!(!state.active_flashes.contains_key("j"));
    assert_eq!(get_flash_progress("j", &state), Some(published));
}

#[test]
fn failure_texts() {
    assert_eq!(JobError::ToolNotFound.message(), "flash_cordatus.sh script not found");
    assert_eq!(JobError::SpawnFailed.message(), "Failed to start flash process");
    assert_eq!(JobError::ProcessNotFound.message(), "Flash process not found");
    assert_eq!(JobError::WaitFailed.message(), "Flash process failed");
    assert_eq!(JobError::PublishFailed.message(), "Failed to emit progress update");
    assert_eq!(JobError::NonZeroExit(0).message(), "Flash process exited with error code: 0");
    assert_eq!(JobError::NonZeroExit(7).message(), "Flash process exited with error code: 7");
    assert_eq!(JobError::NonZeroExit(137).message(), "Flash process exited with error code: 137");
    assert_eq!(JobError::NonZeroExit(-1).message(), "Flash process exited with error code: -1");
    assert_eq!(
        JobError::NonZeroExit(i32::MAX).message(),
        "Flash process exited with error code: 2147483647"
    );
    assert_eq!(
        JobError::NonZeroExit(i32::MIN).message(),
        "Flash process exited with error code: -2147483648"
    );
}

#[test]
fn the_tool_reads_its_arguments_in_a_fixed_order() {
    let invocation = build_invocation("./flash_cordatus.sh", "..", &request());
    assert_eq!(invocation.program, "bash");
    assert_eq!(
        invocation.arguments,
        vec!["./flash_cordatus.sh", "Jetson", "Orin Nano", "36.4.4", "nvme", "false", "alice"]
    );
    assert_eq!(invocation.working_directory, "..");
    let mut keeping = request();
    keeping.keep_files = true;
    assert_eq!(build_invocation("s", ".", &keeping).arguments[5], "true");
}

#[test]
fn the_tool_is_searched_in_a_fixed_order() {
    let bundled = Some("/opt/cfu/flash_cordatus.sh".to_string());
    assert_eq!(
        get_script_path(bundled, true, true),
        Ok("/opt/cfu/flash_cordatus.sh".to_string())
    );
    assert_eq!(get_script_path(None, true, true), Ok("./flash_cordatus.sh".to_string()));
    assert_eq!(get_script_path(None, false, true), Ok("../flash_cordatus.sh".to_string()));
    assert_eq!(get_script_path(None, false, false), Err(JobError::ToolNotFound));
}

#[test]
fn the_working_directory_is_searched_in_a_fixed_order() {
    let binary = Some("/opt/cfu".to_string());
    assert_eq!(get_working_directory(true, true, binary.clone()), ".");
    assert_eq!(get_working_directory(false, true, binary.clone()), "..");
    assert_eq!(get_working_directory(false, false, binary), "/opt/cfu");
    assert_eq!(get_working_directory(false, false, None), "..");
}

#[test]
fn a_snapshot_is_replaced_as_a_whole() {
    let mut state: AppState<u32> = AppState::new();
    begin_job(&mut state, "j", Timestamp { seconds: 1, nanoseconds: 2 });
    let next = FlashProgress {
        stage: Stage::Verifying,
        progress_tenths: 950,
        message: "m".to_string(),
        details: None,
        start_time: None,
        estimated_time_remaining: Some(25),
    };
    update_flash_progress(&mut state, "j", next.clone());
    assert_eq!(get_flash_progress("j", &state), Some(next));
    state.remove_snapshot("j");
    assert_eq!(get_flash_progress("j", &state), None);
}

#[test]
fn taking_a_handle_twice_finds_nothing_the_second_time() {
    let mut state: AppState<String> = AppState::default();
    state.insert_handle("j", "first".to_string());
    state.insert_handle("j", "second".to_string());
    assert_eq!(state.take_handle("j"), Some("second".to_string()));
    assert_eq!(state.take_handle("j"), None);
    assert_eq!(state.take_handle("other"), None);
}

#[test]
fn the_store_keeps_one_value_per_key() {
    let mut store: KeyedStore<u32> = KeyedStore::new();
    assert_eq!(store.len(), 0);
    assert_eq!(store.get("a"), None);
    store.insert("a".to_string(), 1);
    store.insert("b".to_string(), 2);
    store.insert("a".to_string(), 3);
    assert_eq!(store.len(), 2);
    assert_eq!(store.get("a"), Some(&3));
    assert_eq!(store.get("b"), Some(&2));
    assert!(store.contains_key("b"));
    assert!(!store.contains_key("c"));
    assert_eq!(store.remove("a"), Some(3));
    assert_eq!(store.remove("a"), None);
    assert_eq!(store.get("b"), Some(&2));
    assert_eq!(store.len(), 1);
    store.clear();
    assert_eq!(store.len(), 0);
    assert_eq!(store.get("b"), None);
}
