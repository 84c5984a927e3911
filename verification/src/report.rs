//! The six display lines built from the host facts.
//!
//! Every query result is handed in as a plain value; a missing value has a
//! documented fallback, so building the report cannot fail.

use vstd::prelude::*;
use vstd::string::*;
use crate::digits::{dec_digits, u64_to_string};

verus! {

/// The host facts that the surrounding program gathers before the report is
/// built: environment values and the answers of the system-facts provider.
/// A `None` stands for a value that could not be read.
pub struct HostFacts {
    pub username: Option<String>,
    pub os_name: Option<String>,
    pub kernel_version: Option<String>,
    pub uptime_seconds: u64,
    pub shell_path: Option<String>,
    pub used_memory_bytes: u64,
    pub total_memory_bytes: u64,
}

/// The characters of `o`, or `fallback` when `o` is absent.
pub open spec fn text_or(o: Option<String>, fallback: Seq<char>) -> Seq<char> {
    match o {
        Some(s) => s@,
        None => fallback,
    }
}

/// `"<H>h <M>m"` where H is `seconds` divided by 3600 and M is the remainder
/// divided by 60, both truncating.
pub open spec fn uptime_text(seconds: u64) -> Seq<char> {
    dec_digits((seconds / 3600) as nat) + "h "@ + dec_digits(((seconds % 3600) / 60) as nat)
        + "m"@
}

/// The maximal suffix of `s` that holds no `'/'`: the final path segment,
/// empty when `s` ends in `'/'`.
pub open spec fn tail_segment(s: Seq<char>) -> Seq<char>
    decreases s.len(),
{
    if s.len() == 0 {
        Seq::empty()
    } else if s.last() == '/' {
        Seq::empty()
    } else {
        tail_segment(s.drop_last()).push(s.last())
    }
}

/// The shell name shown for the path `path`: its final segment, or
/// `"unknown"` when the path is empty.
pub open spec fn shell_name(path: Seq<char>) -> Seq<char> {
    if path.len() == 0 {
        "unknown"@
    } else {
        tail_segment(path)
    }
}

/// `"Memory: <used> MB / <total> MB"`, each operand converted from bytes to
/// megabytes by two successive truncating divisions by 1024.
pub open spec fn memory_text(used_bytes: u64, total_bytes: u64) -> Seq<char> {
    "Memory: "@ + dec_digits(((used_bytes / 1024) / 1024) as nat) + " MB / "@
        + dec_digits(((total_bytes / 1024) / 1024) as nat) + " MB"@
}

/// The six display lines, in order: username, OS, kernel, uptime, shell,
/// memory. Each absent source is replaced by its documented fallback.
pub open spec fn report_lines(f: HostFacts) -> Seq<Seq<char>> {
    seq![
        text_or(f.username, "unknown"@),
        "OS: "@ + text_or(f.os_name, "Unknown"@),
        "Kernel: "@ + text_or(f.kernel_version, "Unknown"@),
        "Uptime: "@ + uptime_text(f.uptime_seconds),
        "Shell: "@ + shell_name(text_or(f.shell_path, Seq::empty())),
        memory_text(f.used_memory_bytes, f.total_memory_bytes),
    ]
}

/// Renders an uptime of `seconds` whole seconds as `"<H>h <M>m"`.
pub fn format_uptime(seconds: u64) -> (r: String)
    ensures
        r@ == uptime_text(seconds),
{
    let hours: u64 = seconds / 3600;
    let minutes: u64 = (seconds % 3600) / 60;
    let mut s = u64_to_string(hours);
    s.append("h ");
    let m = u64_to_string(minutes);
    s.append(m.as_str());
    s.append("m");
    proof {
        assert(s@ =~= uptime_text(seconds));
    }
    s
}

/// `tail_segment` of a sequence is the subrange that starts right after the
/// last `'/'` (at `cut == 0` when there is none).
proof fn lemma_tail_segment_subrange(s: Seq<char>, cut: int)
    requires
        0 <= cut <= s.len(),
        forall|j: int| cut <= j < s.len() ==> s[j] != '/',
        cut == 0 || s[cut - 1] == '/',
    ensures
        tail_segment(s) == s.subrange(cut, s.len() as int),
    decreases s.len(),
{
    if s.len() == 0 {
        assert(tail_segment(s) =~= s.subrange(cut, s.len() as int));
    } else if s.last() == '/' {
        assert(cut == s.len());
        assert(tail_segment(s) =~= s.subrange(cut, s.len() as int));
    } else {
        assert(cut < s.len());
        let shorter = s.drop_last();
        lemma_tail_segment_subrange(shorter, cut);
        assert(tail_segment(s) =~= s.subrange(cut, s.len() as int));
    }
}

/// Extracts the final path segment of `path` (the part after the last `'/'`,
/// the whole string when there is none), or `"unknown"` for an empty path.
pub fn shell_basename(path: &str) -> (r: String)
    ensures
        r@ == shell_name(path@),
{
    let len: usize = path.unicode_len();
    if len == 0 {
        return String::from_str("unknown");
    }
    let mut cut: usize = len;
    let mut found: bool = false;
    while cut > 0 && !found
        invariant
            cut <= len,
            len == path@.len(),
            forall|j: int| cut <= j < len ==> path@[j] != '/',
            found ==> 1 <= cut && path@[cut - 1] == '/',
        decreases cut + (if found { 0int } else { 1int }),
    {
        if path.get_char(cut - 1) == '/' {
            found = true;
        } else {
            cut = cut - 1;
        }
    }
    proof {
        lemma_tail_segment_subrange(path@, cut as int);
    }
    let tail: &str = path.substring_char(cut, len);
    String::from_str(tail)
}

/// Renders the memory line from the raw byte counts.
pub fn format_memory(used_bytes: u64, total_bytes: u64) -> (r: String)
    ensures
        r@ == memory_text(used_bytes, total_bytes),
{
    let mut s = String::from_str("Memory: ");
    let used = u64_to_string(used_bytes / 1024 / 1024);
    s.append(used.as_str());
    s.append(" MB / ");
    let total = u64_to_string(total_bytes / 1024 / 1024);
    s.append(total.as_str());
    s.append(" MB");
    proof {
        assert(s@ =~= memory_text(used_bytes, total_bytes));
    }
    s
}

/// The finished report: the six display lines, in order.
pub struct DisplayReport {
    pub lines: Vec<String>,
}

/// Builds the six-line report from the host facts, substituting the
/// documented fallback for every absent value. It never fails.
pub fn build_report(facts: &HostFacts) -> (r: DisplayReport)
    ensures
        r.lines.deep_view() == report_lines(*facts),
        r.lines@.len() == 6,
{
    let mut lines: Vec<String> = Vec::new();
    let user = match &facts.username {
        Some(u) => u.clone(),
        None => String::from_str("unknown"),
    };
    lines.push(user);
    let mut os = String::from_str("OS: ");
    match &facts.os_name {
        Some(n) => os.append(n.as_str()),
        None => os.append("Unknown"),
    };
    lines.push(os);
    let mut kernel = String::from_str("Kernel: ");
    match &facts.kernel_version {
        Some(v) => kernel.append(v.as_str()),
        None => kernel.append("Unknown"),
    };
    lines.push(kernel);
    let mut uptime = String::from_str("Uptime: ");
    let formatted = format_uptime(facts.uptime_seconds);
    uptime.append(formatted.as_str());
    lines.push(uptime);
    let mut shell = String::from_str("Shell: ");
    let base = match &facts.shell_path {
        Some(p) => shell_basename(p.as_str()),
        None => shell_basename(""),
    };
    proof {
        reveal_strlit("");
    }
    shell.append(base.as_str());
    lines.push(shell);
    lines.push(format_memory(facts.used_memory_bytes, facts.total_memory_bytes));
    let r = DisplayReport { lines };
    proof {
        assert(r.lines.deep_view() =~~= report_lines(*facts));
    }
    r
}

} // verus!
