//! General properties of the report and the renderer.

use vstd::prelude::*;
use crate::render::rendered;
use crate::report::{report_lines, HostFacts};

verus! {

/// The characters of an optional string, with absence kept.
pub open spec fn opt_chars(o: Option<String>) -> Option<Seq<char>> {
    match o {
        Some(s) => Some(s@),
        None => None,
    }
}

/// Every display line whose source is absent is exactly its documented
/// fallback, and the two lines that always have a source show zero as zero.
pub proof fn lemma_fallback_lines(f: HostFacts)
    ensures
        f.username is None ==> report_lines(f)[0] == "unknown"@,
        f.os_name is None ==> report_lines(f)[1] == "OS: Unknown"@,
        f.kernel_version is None ==> report_lines(f)[2] == "Kernel: Unknown"@,
        f.uptime_seconds == 0 ==> report_lines(f)[3] == "Uptime: 0h 0m"@,
        f.shell_path is None ==> report_lines(f)[4] == "Shell: unknown"@,
        f.used_memory_bytes == 0 && f.total_memory_bytes == 0 ==> report_lines(f)[5]
            == "Memory: 0 MB / 0 MB"@,
{
    reveal_strlit("unknown");
    reveal_strlit("Unknown");
    reveal_strlit("OS: ");
    reveal_strlit("OS: Unknown");
    reveal_strlit("Kernel: ");
    reveal_strlit("Kernel: Unknown");
    reveal_strlit("Uptime: ");
    reveal_strlit("h ");
    reveal_strlit("m");
    reveal_strlit("0");
    reveal_strlit("Uptime: 0h 0m");
    reveal_strlit("Shell: ");
    reveal_strlit("Shell: unknown");
    reveal_strlit("Memory: ");
    reveal_strlit(" MB / ");
    reveal_strlit(" MB");
    reveal_strlit("Memory: 0 MB / 0 MB");
    if f.username is None {
        assert(report_lines(f)[0] =~= "unknown"@);
    }
    if f.os_name is None {
        assert(report_lines(f)[1] =~= "OS: Unknown"@);
    }
    if f.kernel_version is None {
        assert(report_lines(f)[2] =~= "Kernel: Unknown"@);
    }
    if f.uptime_seconds == 0 {
        assert(report_lines(f)[3] =~= "Uptime: 0h 0m"@);
    }
    if f.shell_path is None {
        assert(report_lines(f)[4] =~= "Shell: unknown"@);
    }
    if f.used_memory_bytes == 0 && f.total_memory_bytes == 0 {
        assert(report_lines(f)[5] =~= "Memory: 0 MB / 0 MB"@);
    }
}

/// Two runs over host facts with the same character content produce the same
/// report lines and the same sixteen rendered lines: with identical
/// environment and host state the output is identical.
pub proof fn lemma_render_deterministic(f1: HostFacts, f2: HostFacts)
    requires
        opt_chars(f1.username) == opt_chars(f2.username),
        opt_chars(f1.os_name) == opt_chars(f2.os_name),
        opt_chars(f1.kernel_version) == opt_chars(f2.kernel_version),
        f1.uptime_seconds == f2.uptime_seconds,
        opt_chars(f1.shell_path) == opt_chars(f2.shell_path),
        f1.used_memory_bytes == f2.used_memory_bytes,
        f1.total_memory_bytes == f2.total_memory_bytes,
    ensures
        report_lines(f1) == report_lines(f2),
        rendered(report_lines(f1)) == rendered(report_lines(f2)),
{
    assert(report_lines(f1) =~~= report_lines(f2));
}

} // verus!
