use minicontainer::devices::{device_table, environment, DeviceSpec};
use minicontainer::text::{parse_pid, push_int, push_nat};

#[test]
fn parse_pid_reads_decimal_i32() {
    assert_eq!(parse_pid("123"), Some(123));
    assert_eq!(parse_pid("-5"), Some(-5));
    assert_eq!(parse_pid("+7"), Some(7));
    assert_eq!(parse_pid("007"), Some(7));
    assert_eq!(parse_pid("2147483647"), Some(i32::MAX));
    assert_eq!(parse_pid("-2147483648"), Some(i32::MIN));
}

#[test]
fn parse_pid_rejects_other_text() {
    assert_eq!(parse_pid(""), None);
    assert_eq!(parse_pid("-"), None);
    assert_eq!(parse_pid("+"), None);
    assert_eq!(parse_pid("12a"), None);
    assert_eq!(parse_pid(" 12"), None);
    assert_eq!(parse_pid("2147483648"), None);
    assert_eq!(parse_pid("-2147483649"), None);
    assert_eq!(parse_pid("99999999999999999999"), None);
}

#[test]
fn parse_pid_agrees_with_std() {
    for s in ["0", "-0", "+0", "42", "-42", "1e3", "--1", "4294967296", "३"] {
        assert_eq!(parse_pid(s), s.parse::<i32>().ok(), "{}", s);
    }
}

#[test]
fn decimal_text_matches_display() {
    for n in [0i32, 7, 10, 1200, -1, -3, i32::MAX, i32::MIN] {
        let mut s = String::from("/proc/");
        push_int(&mut s, n);
        assert_eq!(s, format!("/proc/{}", n));
    }
    let mut s = String::new();
    push_nat(&mut s, 4294967295);
    assert_eq!(s, "4294967295");
}

#[test]
fn device_table_has_four_devices() {
    let expected = vec![
        DeviceSpec { path: "/dev/null".to_string(), major: 1, minor: 3 },
        DeviceSpec { path: "/dev/zero".to_string(), major: 1, minor: 5 },
        DeviceSpec { path: "/dev/random".to_string(), major: 1, minor: 8 },
        DeviceSpec { path: "/dev/urandom".to_string(), major: 1, minor: 9 },
    ];
    assert_eq!(device_table(), expected);
}

#[test]
fn environment_is_path_and_term() {
    assert_eq!(
        environment(),
        vec![
            ("PATH".to_string(), "/sbin:/bin/:/usr/bin/:/usr/sbin".to_string()),
            ("TERM".to_string(), "xterm-256color".to_string()),
        ]
    );
}
