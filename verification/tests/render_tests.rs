use igotchu::render::{logo_lines, render};
use igotchu::report::{build_report, DisplayReport, HostFacts};

fn sample_facts() -> HostFacts {
    HostFacts {
        username: Some(String::from("ada")),
        os_name: Some(String::from("Arch Linux")),
        kernel_version: Some(String::from("6.1.0")),
        uptime_seconds: 3661,
        shell_path: Some(String::from("/usr/bin/zsh")),
        used_memory_bytes: 2_147_483_648,
        total_memory_bytes: 8_589_934_592,
    }
}

#[test]
fn logo_has_sixteen_lines() {
    let logo = logo_lines();
    assert_eq!(logo.len(), 16);
    assert_eq!(logo[0], "IIIIIIIIII             GGGGGGGGGGGGG");
    assert_eq!(logo[15], "IIIIIIIIII             GGGGGG   GGGG");
}

#[test]
fn render_sixteen_lines_with_info() {
    let report = build_report(&sample_facts());
    let out = render(&report);
    assert_eq!(out.len(), 16);
    let logo = logo_lines();
    for i in 0..6 {
        let expected = format!("{}  {}", logo[i], report.lines[i]);
        assert_eq!(out[i], expected);
    }
    for i in 6..16 {
        let expected = format!("{}  ", logo[i]);
        assert_eq!(out[i], expected);
    }
}

#[test]
fn render_first_line_exact() {
    let report = build_report(&sample_facts());
    let out = render(&report);
    assert_eq!(out[0], "IIIIIIIIII             GGGGGGGGGGGGG  ada");
}

#[test]
fn render_sixteen_lines_for_empty_report() {
    let report = DisplayReport { lines: Vec::new() };
    let out = render(&report);
    assert_eq!(out.len(), 16);
    let logo = logo_lines();
    for i in 0..16 {
        let expected = format!("{}  ", logo[i]);
        assert_eq!(out[i], expected);
    }
}

#[test]
fn render_sixteen_lines_for_long_report() {
    let lines: Vec<String> = (0..20).map(|i| format!("line {}", i)).collect();
    let report = DisplayReport { lines };
    let out = render(&report);
    assert_eq!(out.len(), 16);
    let logo = logo_lines();
    for i in 0..16 {
        let expected = format!("{}  line {}", logo[i], i);
        assert_eq!(out[i], expected);
    }
}

#[test]
fn output_is_identical_across_runs() {
    let first = render(&build_report(&sample_facts()));
    let second = render(&build_report(&sample_facts()));
    assert_eq!(first, second);
}
