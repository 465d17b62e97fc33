use jetson_flash::containers::{container_reference, list_available_containers, pull_container};
use jetson_flash::system::{
    detect_jetpack_version, find_release_line, get_system_info, load_csv_data, release_name_from,
    SystemReadings,
};

#[test]
fn the_release_is_read_from_the_release_line() {
    assert_eq!(detect_jetpack_version("# R36 , REVISION: 4.3"), Some("L4T 36.4.3".to_string()));
    assert_eq!(
        detect_jetpack_version("first\n# R35,REVISION:  5.0, GCID: 1\nR36 , REVISION: 4.3\n"),
        Some("L4T 35.5.0".to_string())
    );
    assert_eq!(detect_jetpack_version("# R36 , REVISION: 4.3\r\nnext"), Some("L4T 36.4.3".to_string()));
}

#[test]
fn only_the_first_line_with_the_letter_counts() {
    assert_eq!(detect_jetpack_version("README\nR36 , REVISION: 4.3\n"), None);
    assert_eq!(detect_jetpack_version("# R36 (release), REVISION: 4.3"), None);
    assert_eq!(detect_jetpack_version("no release here"), None);
    assert_eq!(detect_jetpack_version(""), None);
}

#[test]
fn release_lines() {
    assert_eq!(find_release_line("abc\nxRy\nR"), Some("xRy"));
    assert_eq!(find_release_line("abc\nxRy\r\nR"), Some("xRy"));
    assert_eq!(find_release_line("abc\nxRy\r"), Some("xRy\r"));
    assert_eq!(find_release_line("R"), Some("R"));
    assert_eq!(find_release_line("\u{00e9}\u{00e9}\nR1\n"), Some("R1"));
    assert_eq!(find_release_line("abc\n\n"), None);
    assert_eq!(find_release_line(""), None);
}

#[test]
fn release_names() {
    let some = |s: &str| Some(s.to_string());
    assert_eq!(release_name_from(&some("36"), &some("4.3")), some("L4T 36.4.3"));
    assert_eq!(release_name_from(&some("36"), &None), None);
    assert_eq!(release_name_from(&None, &some("4.3")), None);
}

#[test]
fn memory_is_counted_in_bytes() {
    let readings = SystemReadings {
        os: "linux".to_string(),
        architecture: "aarch64".to_string(),
        total_memory_kib: 8_000_000,
        free_disk: 123_456,
        docker_installed: true,
        nvidia_docker_installed: false,
        release_file: Some("# R36 , REVISION: 4.3\n".to_string()),
    };
    let info = get_system_info(readings);
    assert_eq!(info.os, "linux");
    assert_eq!(info.architecture, "aarch64");
    assert_eq!(info.total_memory, 8_192_000_000);
    assert_eq!(info.available_space, 123_456);
    assert!(info.docker_installed);
    assert!(!info.nvidia_docker_installed);
    assert_eq!(info.jetpack_version, Some("L4T 36.4.3".to_string()));
}

#[test]
fn a_host_without_a_release_file_has_no_release() {
    let readings = SystemReadings {
        os: "linux".to_string(),
        architecture: "x86_64".to_string(),
        total_memory_kib: 0,
        free_disk: 0,
        docker_installed: false,
        nvidia_docker_installed: false,
        release_file: None,
    };
    let info = get_system_info(readings);
    assert_eq!(info.total_memory, 0);
    assert_eq!(info.jetpack_version, None);
}

#[test]
fn the_device_table_is_taken_from_the_first_copy_read() {
    let some = |s: &str| Some(s.to_string());
    assert_eq!(load_csv_data(some("a"), some("b"), Ok("c".to_string())), Ok("a".to_string()));
    assert_eq!(load_csv_data(None, some("b"), Ok("c".to_string())), Ok("b".to_string()));
    assert_eq!(load_csv_data(None, None, Ok("c".to_string())), Ok("c".to_string()));
    assert_eq!(
        load_csv_data(None, None, Err("No such file".to_string())),
        Err("Could not load device configuration data: No such file".to_string())
    );
}

#[test]
fn three_images_are_on_offer() {
    let images = list_available_containers();
    assert_eq!(images.len(), 3);
    assert_eq!(images[0].name, "l4t-pytorch");
    assert_eq!(images[0].tag, "r36.2.0");
    assert_eq!(images[0].category, "ML");
    assert_eq!(images[0].description, "PyTorch with CUDA support for L4T");
    assert_eq!(images[0].size, "2.1 GB");
    assert_eq!(images[0].supported_devices, vec!["AGX Orin", "Orin NX", "Orin Nano"]);
    assert_eq!(images[1].name, "text-generation-webui");
    assert_eq!(images[1].tag, "latest");
    assert_eq!(images[1].category, "LLM");
    assert_eq!(images[1].size, "8.5 GB");
    assert_eq!(images[1].supported_devices, vec!["AGX Orin", "Orin NX"]);
    assert_eq!(images[2].name, "nanollm");
    assert_eq!(images[2].description, "Optimized LLM inference for Jetson");
    assert_eq!(images[2].size, "3.2 GB");
    assert_eq!(images[2].supported_devices, vec!["AGX Orin", "Orin NX", "Orin Nano"]);
    assert!(images.iter().all(|image| !image.is_installed));
}

#[test]
fn pulling_gives_the_output_or_the_errors() {
    assert_eq!(container_reference("nanollm", "latest"), "nanollm:latest");
    assert_eq!(container_reference("", ""), ":");
    assert_eq!(pull_container(true, "out".to_string(), "err".to_string()), Ok("out".to_string()));
    assert_eq!(pull_container(false, "out".to_string(), "err".to_string()), Err("err".to_string()));
}
