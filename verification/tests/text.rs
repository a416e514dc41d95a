use safe_vex::fs::split_listing;
use safe_vex::log::Log;
use safe_vex::report::{push_decimal, push_event, render_line};
use safe_vex::toolchain::{choose_sysroot, get_args};

fn decimal(n: u64) -> String {
    let mut out = String::new();
    push_decimal(&mut out, n);
    out
}

#[test]
fn decimal_notation() {
    assert_eq!(decimal(0), "0");
    assert_eq!(decimal(7), "7");
    assert_eq!(decimal(10), "10");
    assert_eq!(decimal(109), "109");
    assert_eq!(decimal(1234567890), "1234567890");
    assert_eq!(decimal(u64::MAX), "18446744073709551615");
    for n in [1u64, 9, 11, 99, 100, 101, 65535, 4294967296] {
        assert_eq!(decimal(n), n.to_string());
    }
}

#[test]
fn decimal_is_appended() {
    let mut out = "tick ".to_string();
    push_decimal(&mut out, 42);
    assert_eq!(out, "tick 42");
}

#[test]
fn event_texts() {
    let table = [
        (Log::MotorConnect(3), "motor 3 connected"),
        (Log::MotorDisconnect(20), "motor 20 disconnected"),
        (Log::MotorConnect(255), "motor 255 connected"),
        (Log::ControllerDisconnect, "controller disconnected"),
        (Log::ControllerConnect, "controller connected"),
        (Log::Autonomous, "autonomous"),
        (Log::OpControl, "opcontrol"),
        (Log::Disabled, "disabled"),
        (Log::Nothing, "idle"),
        (Log::Other("battery at 12 %".to_string()), "battery at 12 %"),
        (Log::Other(String::new()), ""),
    ];
    for (event, text) in table {
        let mut out = String::new();
        push_event(&mut out, &event);
        assert_eq!(out, text);
    }
}

#[test]
fn report_lines() {
    assert_eq!(render_line(0, &Log::OpControl, 1), "[0 ms] opcontrol x1");
    assert_eq!(render_line(1500, &Log::MotorDisconnect(7), 255), "[1500 ms] motor 7 disconnected x255");
    assert_eq!(
        render_line(u64::MAX, &Log::Other("späť".to_string()), 2),
        "[18446744073709551615 ms] späť x2"
    );
}

fn names(buffer: &[u8]) -> Option<Vec<String>> {
    split_listing(buffer)
        .map(|entries| entries.into_iter().map(|entry| String::from_utf8(entry).unwrap()).collect())
}

#[test]
fn listing_is_split_at_line_feeds() {
    assert_eq!(
        names(b"a.txt\nlog.csv\nrun\0"),
        Some(vec!["a.txt".to_string(), "log.csv".to_string(), "run".to_string()])
    );
}

#[test]
fn listing_ends_at_the_first_zero() {
    assert_eq!(names(b"one\ntwo\0three\nfour\0"), Some(vec!["one".to_string(), "two".to_string()]));
    let mut buffer = [0u8; 1024];
    buffer[..3].copy_from_slice(b"x\ny");
    assert_eq!(names(&buffer), Some(vec!["x".to_string(), "y".to_string()]));
}

#[test]
fn listing_keeps_empty_entries() {
    assert_eq!(names(b"\0"), Some(vec![String::new()]));
    assert_eq!(names(b"a\n\0"), Some(vec!["a".to_string(), String::new()]));
    assert_eq!(names(b"\n\nb\0"), Some(vec![String::new(), String::new(), "b".to_string()]));
}

#[test]
fn listing_needs_an_end() {
    assert_eq!(names(b""), None);
    assert_eq!(names(b"a\nb"), None);
}

#[test]
fn listing_agrees_with_the_split_of_std() {
    for text in ["", "a", "a\nb", "\n", "first\n\nthird\n", "no newline at all"] {
        let mut buffer = text.as_bytes().to_vec();
        buffer.push(0);
        let expected: Vec<String> = text.split("\n").map(|piece| piece.to_string()).collect();
        assert_eq!(names(&buffer), Some(expected));
    }
}

#[test]
fn compiler_arguments() {
    assert_eq!(
        get_args("out/pros/include", "/usr/lib/arm-none-eabi"),
        vec![
            "-Iout/pros/include".to_string(),
            "-isystem".to_string(),
            "/usr/lib/arm-none-eabi/include".to_string(),
            "-cxx-isystem".to_string(),
            "/usr/lib/arm-none-eabi/include/c++".to_string(),
        ]
    );
    assert_eq!(get_args("", ""), vec!["-I", "-isystem", "/include", "-cxx-isystem", "/include/c++"]);
}

#[test]
fn sysroot_is_what_the_compiler_printed() {
    assert_eq!(choose_sysroot("/opt/arm", false, false), Some("/opt/arm".to_string()));
    assert_eq!(choose_sysroot("/opt/arm", true, true), Some("/opt/arm".to_string()));
}

#[test]
fn sysroot_falls_back_to_the_first_directory_that_exists() {
    assert_eq!(choose_sysroot("", true, false), Some("/usr/lib/arm-none-eabi".to_string()));
    assert_eq!(choose_sysroot("", true, true), Some("/usr/lib/arm-none-eabi".to_string()));
    assert_eq!(choose_sysroot("", false, true), Some("/usr/arm-none-eabi".to_string()));
}

#[test]
fn sysroot_may_not_be_found() {
    assert_eq!(choose_sysroot("", false, false), None);
}
