use jetson_flash::progress::{
    parse_flash_output, progress_for_stage, progress_from_captures, FlashProgress, Stage,
};
use jetson_flash::text::{parse_decimal, same_text};

fn reading(stage: Stage, tenths: u64, line: &str, remaining: u64) -> FlashProgress {
    FlashProgress {
        stage,
        progress_tenths: tenths,
        message: line.to_string(),
        details: None,
        start_time: None,
        estimated_time_remaining: Some(remaining),
    }
}

#[test]
fn download_line_maps_to_three_tenths() {
    let line = "Downloading package (42%)";
    assert_eq!(parse_flash_output(line), Some(reading(Stage::Downloading, 126, line, 116)));
}

#[test]
fn flash_line_maps_to_thirty_plus_six_tenths() {
    let line = "Flashing partition (50%)";
    assert_eq!(parse_flash_output(line), Some(reading(Stage::Flashing, 600, line, 75)));
}

#[test]
fn verify_line_maps_to_ninety_plus_one_tenth() {
    let line = "Verifying image 30%";
    assert_eq!(parse_flash_output(line), Some(reading(Stage::Verifying, 930, line, 35)));
}

#[test]
fn stage_bounds_at_zero_and_hundred() {
    assert_eq!(parse_flash_output("Downloading 0%").unwrap().progress_tenths, 0);
    assert_eq!(parse_flash_output("Downloading 100%").unwrap().progress_tenths, 300);
    assert_eq!(parse_flash_output("Flashing 0%").unwrap().progress_tenths, 300);
    assert_eq!(parse_flash_output("Flashing 100%").unwrap().progress_tenths, 900);
    assert_eq!(parse_flash_output("Verifying 0%").unwrap().progress_tenths, 900);
    assert_eq!(parse_flash_output("Verifying 100%").unwrap().progress_tenths, 1000);
}

#[test]
fn remaining_time_per_stage() {
    assert_eq!(parse_flash_output("Downloading 0%").unwrap().estimated_time_remaining, Some(200));
    assert_eq!(parse_flash_output("Flashing 1%").unwrap().estimated_time_remaining, Some(148));
    assert_eq!(parse_flash_output("Verifying 1%").unwrap().estimated_time_remaining, Some(49));
    assert_eq!(parse_flash_output("Verifying 100%").unwrap().estimated_time_remaining, Some(0));
    assert_eq!(parse_flash_output("Flashing 250%").unwrap().estimated_time_remaining, Some(0));
}

#[test]
fn percent_above_hundred_is_not_clamped() {
    let line = "Flashing 250%";
    assert_eq!(parse_flash_output(line), Some(reading(Stage::Flashing, 1800, line, 0)));
}

#[test]
fn unmatched_line_reads_as_nothing() {
    assert_eq!(parse_flash_output("Preparing the board"), None);
    assert_eq!(parse_flash_output(""), None);
    assert_eq!(parse_flash_output("Downloading without a number"), None);
    assert_eq!(parse_flash_output("downloading 10%"), None);
    assert_eq!(parse_flash_output("42%"), None);
}

#[test]
fn download_wins_over_flash_and_verify() {
    let line = "Downloading 10% Flashing 20% Verifying 30%";
    assert_eq!(parse_flash_output(line).unwrap().stage, Stage::Downloading);
    assert_eq!(parse_flash_output(line).unwrap().progress_tenths, 30);
    let line = "Verifying 30% Flashing 20%";
    assert_eq!(parse_flash_output(line).unwrap().stage, Stage::Flashing);
    assert_eq!(parse_flash_output(line).unwrap().progress_tenths, 420);
}

#[test]
fn the_first_digits_before_a_percent_sign_count() {
    assert_eq!(parse_flash_output("Downloading 12 files 34%").unwrap().progress_tenths, 102);
    assert_eq!(parse_flash_output("Downloading 5% then 80%").unwrap().progress_tenths, 15);
    assert_eq!(parse_flash_output("Downloading007%").unwrap().progress_tenths, 21);
}

#[test]
fn a_number_too_large_gives_way_to_the_next_pattern() {
    assert_eq!(parse_flash_output("Downloading 99999999999%"), None);
    let line = "Downloading 99999999999% Flashing 5%";
    assert_eq!(parse_flash_output(line), Some(reading(Stage::Flashing, 330, line, 142)));
    assert_eq!(parse_flash_output("Downloading 4294967295%").unwrap().progress_tenths, 12884901885);
    assert_eq!(parse_flash_output("Downloading 4294967296%"), None);
}

#[test]
fn digits_outside_ascii_give_no_reading() {
    assert_eq!(parse_flash_output("Flashing \u{0663}%"), None);
}

#[test]
fn captures_decide_in_order() {
    let some = |s: &str| Some(s.to_string());
    assert_eq!(
        progress_from_captures("l", &some("7"), &some("8"), &some("9")),
        Some(reading(Stage::Downloading, 21, "l", 186))
    );
    assert_eq!(
        progress_from_captures("l", &None, &some("8"), &some("9")),
        Some(reading(Stage::Flashing, 348, "l", 138))
    );
    assert_eq!(
        progress_from_captures("l", &None, &None, &some("9")),
        Some(reading(Stage::Verifying, 909, "l", 45))
    );
    assert_eq!(
        progress_from_captures("l", &some("x"), &some(""), &some("9")),
        Some(reading(Stage::Verifying, 909, "l", 45))
    );
    assert_eq!(progress_from_captures("l", &None, &None, &None), None);
}

#[test]
fn one_pattern_for_one_stage() {
    assert_eq!(
        progress_for_stage(Stage::Flashing, "x", &Some("10".to_string())),
        Some(reading(Stage::Flashing, 360, "x", 135))
    );
    assert_eq!(progress_for_stage(Stage::Flashing, "x", &Some("1o".to_string())), None);
    assert_eq!(progress_for_stage(Stage::Flashing, "x", &None), None);
}

#[test]
fn decimal_reading() {
    assert_eq!(parse_decimal("0"), Some(0));
    assert_eq!(parse_decimal("42"), Some(42));
    assert_eq!(parse_decimal("0042"), Some(42));
    assert_eq!(parse_decimal("4294967295"), Some(4294967295));
    assert_eq!(parse_decimal("4294967296"), None);
    assert_eq!(parse_decimal("00000000000000000000007"), Some(7));
    assert_eq!(parse_decimal(""), None);
    assert_eq!(parse_decimal("+1"), None);
    assert_eq!(parse_decimal("-1"), None);
    assert_eq!(parse_decimal("1 "), None);
    assert_eq!(parse_decimal("1.5"), None);
}

#[test]
fn text_comparison() {
    assert!(same_text("Orin NX", "Orin NX"));
    assert!(!same_text("Orin NX", "Orin Nx"));
    assert!(!same_text("Orin", "Orin "));
    assert!(same_text("", ""));
}

#[test]
fn stage_names() {
    assert_eq!(Stage::Preparing.name(), "preparing");
    assert_eq!(Stage::Downloading.name(), "downloading");
    assert_eq!(Stage::Flashing.name(), "flashing");
    assert_eq!(Stage::Verifying.name(), "verifying");
    assert_eq!(Stage::Complete.name(), "complete");
    assert_eq!(Stage::Error.name(), "error");
    assert_eq!(Stage::Cancelled.name(), "cancelled");
    assert!(Stage::Complete.is_terminal());
    assert!(Stage::Error.is_terminal());
    assert!(Stage::Cancelled.is_terminal());
    assert!(!Stage::Preparing.is_terminal());
    assert!(!Stage::Flashing.is_terminal());
}

#[test]
fn stages_are_found_under_their_names() {
    let all = [
        Stage::Preparing,
        Stage::Downloading,
        Stage::Flashing,
        Stage::Verifying,
        Stage::Complete,
        Stage::Error,
        Stage::Cancelled,
    ];
    for stage in all {
        assert_eq!(Stage::from_name(&stage.name()), Some(stage));
    }
    assert_eq!(Stage::from_name("Flashing"), None);
    assert_eq!(Stage::from_name(""), None);
    assert_eq!(Stage::from_name("done"), None);
}
