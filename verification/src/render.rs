//! Interleaving the fixed logo with the report lines.

use vstd::prelude::*;
use vstd::string::*;
use crate::report::DisplayReport;

verus! {

/// The fixed sixteen-line ASCII-art logo, in order.
pub open spec fn logo_text() -> Seq<Seq<char>> {
    seq![
        "IIIIIIIIII             GGGGGGGGGGGGG"@,
        "I::::::::I          GGG::::::::::::G"@,
        "I::::::::I        GG:::::::::::::::G"@,
        "II::::::II       G:::::GGGGGGGG::::G"@,
        "  I::::I        G:::::G       GGGGGG"@,
        "  I::::I       G:::::G              "@,
        "  I::::I       G:::::G              "@,
        "  I::::I       G:::::G    GGGGGGGGGG"@,
        "  I::::I       G:::::G    G::::::::G"@,
        "  I::::I       G:::::G    GGGGG::::G"@,
        "  I::::I       G:::::G        G::::G"@,
        "  I::::I        G:::::G       G::::G"@,
        "II::::::II       G:::::GGGGGGGG::::G"@,
        "I::::::::I        GG:::::::::::::::G"@,
        "I::::::::I          GGG::::::GGG:::G"@,
        "IIIIIIIIII             GGGGGG   GGGG"@,
    ]
}

/// The sixteen logo lines as owned strings.
pub fn logo_lines() -> (v: Vec<String>)
    ensures
        v.deep_view() == logo_text(),
        v@.len() == 16,
{
    let mut v: Vec<String> = Vec::new();
    v.push(String::from_str("IIIIIIIIII             GGGGGGGGGGGGG"));
    v.push(String::from_str("I::::::::I          GGG::::::::::::G"));
    v.push(String::from_str("I::::::::I        GG:::::::::::::::G"));
    v.push(String::from_str("II::::::II       G:::::GGGGGGGG::::G"));
    v.push(String::from_str("  I::::I        G:::::G       GGGGGG"));
    v.push(String::from_str("  I::::I       G:::::G              "));
    v.push(String::from_str("  I::::I       G:::::G              "));
    v.push(String::from_str("  I::::I       G:::::G    GGGGGGGGGG"));
    v.push(String::from_str("  I::::I       G:::::G    G::::::::G"));
    v.push(String::from_str("  I::::I       G:::::G    GGGGG::::G"));
    v.push(String::from_str("  I::::I       G:::::G        G::::G"));
    v.push(String::from_str("  I::::I        G:::::G       G::::G"));
    v.push(String::from_str("II::::::II       G:::::GGGGGGGG::::G"));
    v.push(String::from_str("I::::::::I        GG:::::::::::::::G"));
    v.push(String::from_str("I::::::::I          GGG::::::GGG:::G"));
    v.push(String::from_str("IIIIIIIIII             GGGGGG   GGGG"));
    proof {
        assert(v.deep_view() =~~= logo_text());
    }
    v
}

/// The sixteen output lines for the given report lines: line `i` is the
/// `i`-th logo line, two spaces, and the `i`-th report line where one exists.
pub open spec fn rendered(info: Seq<Seq<char>>) -> Seq<Seq<char>> {
    Seq::new(
        16,
        |i: int|
            logo_text()[i] + "  "@ + (if i < info.len() {
                info[i]
            } else {
                Seq::empty()
            }),
    )
}

/// Produces the sixteen output lines: always the logo line and two spaces,
/// with the paired report line appended while one exists. The count is
/// sixteen whatever the length of the report.
pub fn render(report: &DisplayReport) -> (out: Vec<String>)
    ensures
        out.deep_view() == rendered(report.lines.deep_view()),
        out@.len() == 16,
{
    let logo = logo_lines();
    let mut out: Vec<String> = Vec::new();
    let mut i: usize = 0;
    while i < 16
        invariant
            i <= 16,
            logo.deep_view() == logo_text(),
            logo@.len() == 16,
            out@.len() == i,
            forall|j: int|
                0 <= j < i ==> out@[j]@ == rendered(report.lines.deep_view())[j],
        decreases 16 - i,
    {
        let mut line = String::from_str(logo[i].as_str());
        line.append("  ");
        if i < report.lines.len() {
            line.append(report.lines[i].as_str());
        }
        proof {
            assert(line@ =~= rendered(report.lines.deep_view())[i as int]);
        }
        out.push(line);
        i = i + 1;
    }
    proof {
        assert(forall|j: int|
            0 <= j < 16 ==> out.deep_view()[j] == out@[j]@);
        assert(out.deep_view() =~~= rendered(report.lines.deep_view()));
    }
    out
}

} // verus!
