//! Rendering of the status line: decimal numbers, the probe duration, the
//! padded label text, and the one line printed per iteration, each pinned
//! to an exact character sequence.

use crate::status::Label;
use vstd::prelude::*;

verus! {

/// The character for one decimal digit.
pub open spec fn decimal_digit(d: nat) -> char {
    if d == 0 {
        '0'
    } else if d == 1 {
        '1'
    } else if d == 2 {
        '2'
    } else if d == 3 {
        '3'
    } else if d == 4 {
        '4'
    } else if d == 5 {
        '5'
    } else if d == 6 {
        '6'
    } else if d == 7 {
        '7'
    } else if d == 8 {
        '8'
    } else {
        '9'
    }
}

/// The decimal rendering of a number, most significant digit first, with
/// no leading zeros (zero itself renders as the single digit `0`).
pub open spec fn decimal_of(n: nat) -> Seq<char>
    decreases n,
{
    if n < 10 {
        seq![decimal_digit(n)]
    } else {
        decimal_of(n / 10) + seq![decimal_digit(n % 10)]
    }
}

/// Append the character of one decimal digit.
fn append_digit(d: u64, out: &mut String)
    requires
        d < 10,
    ensures
        final (out)@ == old(out)@ + seq![decimal_digit(d as nat)],
{
    proof {
        reveal_strlit("0");
        reveal_strlit("1");
        reveal_strlit("2");
        reveal_strlit("3");
        reveal_strlit("4");
        reveal_strlit("5");
        reveal_strlit("6");
        reveal_strlit("7");
        reveal_strlit("8");
        reveal_strlit("9");
    }
    if d == 0 {
        out.append("0");
    } else if d == 1 {
        out.append("1");
    } else if d == 2 {
        out.append("2");
    } else if d == 3 {
        out.append("3");
    } else if d == 4 {
        out.append("4");
    } else if d == 5 {
        out.append("5");
    } else if d == 6 {
        out.append("6");
    } else if d == 7 {
        out.append("7");
    } else if d == 8 {
        out.append("8");
    } else {
        out.append("9");
    }
    assert(out@ =~= old(out)@ + seq![decimal_digit(d as nat)]);
}

/// Append the decimal rendering of a number.
fn push_decimal(n: u64, out: &mut String)
    ensures
        final (out)@ == old(out)@ + decimal_of(n as nat),
    decreases n,
{
    if n >= 10 {
        push_decimal(n / 10, out);
    }
    append_digit(n % 10, out);
    assert(out@ =~= old(out)@ + decimal_of(n as nat));
}

/// The decimal rendering of a number as an owned string.
pub fn decimal_string(n: u64) -> (s: String)
    ensures
        s@ == decimal_of(n as nat),
{
    let mut s = String::new();
    push_decimal(n, &mut s);
    assert(s@ =~= decimal_of(n as nat));
    s
}

/// The probe duration rendered as whole milliseconds with a unit suffix.
pub open spec fn duration_text_spec(elapsed_ms: u64) -> Seq<char> {
    decimal_of(elapsed_ms as nat) + "ms"@
}

/// Render the probe duration.
pub fn duration_text(elapsed_ms: u64) -> (s: String)
    ensures
        s@ == duration_text_spec(elapsed_ms),
{
    let mut s = decimal_string(elapsed_ms);
    s.append("ms");
    s
}

/// The label text, padded to a fixed width so the columns line up.
pub open spec fn label_text_spec(label: Label) -> Seq<char> {
    match label {
        Label::Up => "UP       "@,
        Label::Unhealthy => "UNHEALTHY"@,
        Label::Down => "DOWN     "@,
    }
}

/// Render the label as its padded text.
pub fn label_text(label: Label) -> (s: String)
    ensures
        s@ == label_text_spec(label),
{
    match label {
        Label::Up => String::from_str("UP       "),
        Label::Unhealthy => String::from_str("UNHEALTHY"),
        Label::Down => String::from_str("DOWN     "),
    }
}

/// The one line printed per iteration: the padded label, the timestamp,
/// the URL path, the outcome description and the probe duration.
pub open spec fn status_line_spec(
    label: Label,
    timestamp: Seq<char>,
    path: Seq<char>,
    description: Seq<char>,
    elapsed_ms: u64,
) -> Seq<char> {
    label_text_spec(label) + " "@ + timestamp + " "@ + path + ": "@ + description + " ("@
        + duration_text_spec(elapsed_ms) + ")"@
}

/// Assemble the status line for one iteration.
pub fn format_status_line(
    label: Label,
    timestamp: &str,
    path: &str,
    description: &str,
    elapsed_ms: u64,
) -> (s: String)
    ensures
        s@ == status_line_spec(label, timestamp@, path@, description@, elapsed_ms),
{
    let mut s = label_text(label);
    s.append(" ");
    s.append(timestamp);
    s.append(" ");
    s.append(path);
    s.append(": ");
    s.append(description);
    s.append(" (");
    let elapsed = duration_text(elapsed_ms);
    s.append(elapsed.as_str());
    s.append(")");
    assert(s@ =~= status_line_spec(label, timestamp@, path@, description@, elapsed_ms));
    s
}

} // verus!
