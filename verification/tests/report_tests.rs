use igotchu::report::{build_report, format_memory, format_uptime, shell_basename, HostFacts};

fn facts_all_absent() -> HostFacts {
    HostFacts {
        username: None,
        os_name: None,
        kernel_version: None,
        uptime_seconds: 0,
        shell_path: None,
        used_memory_bytes: 0,
        total_memory_bytes: 0,
    }
}

#[test]
fn uptime_one_hour_one_minute() {
    assert_eq!(format_uptime(3661), "1h 1m");
}

#[test]
fn uptime_zero() {
    assert_eq!(format_uptime(0), "0h 0m");
}

#[test]
fn uptime_just_under_a_day() {
    assert_eq!(format_uptime(86399), "23h 59m");
}

#[test]
fn uptime_many_days() {
    assert_eq!(format_uptime(90 * 3600 + 59 * 60 + 59), "90h 59m");
}

#[test]
fn shell_basename_full_path() {
    assert_eq!(shell_basename("/usr/bin/zsh"), "zsh");
}

#[test]
fn shell_basename_empty() {
    assert_eq!(shell_basename(""), "unknown");
}

#[test]
fn shell_basename_no_slash() {
    assert_eq!(shell_basename("zsh"), "zsh");
}

#[test]
fn shell_basename_trailing_slash() {
    assert_eq!(shell_basename("/usr/bin/"), "");
}

#[test]
fn memory_exact_gigabytes() {
    assert_eq!(
        format_memory(2_147_483_648, 8_589_934_592),
        "Memory: 2048 MB / 8192 MB"
    );
}

#[test]
fn memory_truncates_not_rounds() {
    // 1 MB minus one byte truncates to 0; 2 MB minus one byte truncates to 1.
    assert_eq!(format_memory(1_048_575, 2_097_151), "Memory: 0 MB / 1 MB");
}

#[test]
fn report_all_fallbacks() {
    let report = build_report(&facts_all_absent());
    assert_eq!(report.lines.len(), 6);
    assert_eq!(report.lines[0], "unknown");
    assert_eq!(report.lines[1], "OS: Unknown");
    assert_eq!(report.lines[2], "Kernel: Unknown");
    assert_eq!(report.lines[3], "Uptime: 0h 0m");
    assert_eq!(report.lines[4], "Shell: unknown");
    assert_eq!(report.lines[5], "Memory: 0 MB / 0 MB");
}

#[test]
fn report_all_present() {
    let facts = HostFacts {
        username: Some(String::from("ada")),
        os_name: Some(String::from("Arch Linux")),
        kernel_version: Some(String::from("6.1.0")),
        uptime_seconds: 3661,
        shell_path: Some(String::from("/usr/bin/zsh")),
        used_memory_bytes: 2_147_483_648,
        total_memory_bytes: 8_589_934_592,
    };
    let report = build_report(&facts);
    assert_eq!(report.lines[0], "ada");
    assert_eq!(report.lines[1], "OS: Arch Linux");
    assert_eq!(report.lines[2], "Kernel: 6.1.0");
    assert_eq!(report.lines[3], "Uptime: 1h 1m");
    assert_eq!(report.lines[4], "Shell: zsh");
    assert_eq!(report.lines[5], "Memory: 2048 MB / 8192 MB");
}

#[test]
fn report_shell_without_slash() {
    let mut facts = facts_all_absent();
    facts.shell_path = Some(String::from("fish"));
    let report = build_report(&facts);
    assert_eq!(report.lines[4], "Shell: fish");
}
