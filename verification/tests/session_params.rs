use tsar::session::{recorder_args, standard_device_name, SessionConfig, WARMUP_DELAY_SECS};

#[test]
fn warmup_is_twenty_seconds() {
    assert_eq!(WARMUP_DELAY_SECS, 20);
}

#[test]
fn device_registers_under_the_fixed_name() {
    assert_eq!(standard_device_name(), String::from("_comp_"));
}

#[test]
fn recorder_is_launched_with_the_fixed_parameter_set() {
    let config = SessionConfig {
        device_name: String::from("_comp_"),
        cache_dir: String::from("/tmp/cache"),
        output_path: String::from("/tmp/work/raw_file.ogg"),
    };
    let args = recorder_args(&config);
    let expected: Vec<String> = [
        "--name",
        "_comp_",
        "--bitrate",
        "320",
        "--system-cache",
        "/tmp/cache",
        "--device-type",
        "computer",
        "--initial-volume",
        "100",
        "--disable-audio-cache",
        "--disable-gapless",
        "--backend",
        "pipe",
        "--passthrough",
        "--autoplay",
        "off",
        "--format",
        "S24",
        "--dither",
        "none",
        "--device",
        "/tmp/work/raw_file.ogg",
    ]
    .iter()
    .map(|s| String::from(*s))
    .collect();
    assert_eq!(args, expected);
}

#[test]
fn recorder_args_carry_the_configured_paths() {
    let config = SessionConfig {
        device_name: String::from("studio"),
        cache_dir: String::from("/var/cache/tsar"),
        output_path: String::from("/out/capture.ogg"),
    };
    let args = recorder_args(&config);
    assert_eq!(args[1], String::from("studio"));
    assert_eq!(args[5], String::from("/var/cache/tsar"));
    assert_eq!(args[22], String::from("/out/capture.ogg"));
}
