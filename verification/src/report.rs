//! The reporter's formatting: elapsed microseconds rendered as decimal
//! digits with grouping separators, and the two labelled lines of the
//! final comparison.

use vstd::prelude::*;
use vstd::string::StringExecFns;

verus! {

/// The decimal digit character for a value below ten.
pub open spec fn digit_char(d: int) -> char {
    if d == 0 {
        '0'
    } else if d == 1 {
        '1'
    } else if d == 2 {
        '2'
    } else if d == 3 {
        '3'
    } else if d == 4 {
        '4'
    } else if d == 5 {
        '5'
    } else if d == 6 {
        '6'
    } else if d == 7 {
        '7'
    } else if d == 8 {
        '8'
    } else {
        '9'
    }
}

/// The decimal digits of `n`, most significant first, with no leading
/// zeros (a single '0' for zero itself).
pub open spec fn decimal_digits(n: nat) -> Seq<char>
    decreases n,
{
    if n < 10 {
        seq![digit_char(n as int)]
    } else {
        decimal_digits(n / 10) + seq![digit_char((n % 10) as int)]
    }
}

/// `digits` with a ',' inserted between three-digit groups counted from
/// the right.
pub open spec fn grouped(digits: Seq<char>) -> Seq<char>
    decreases digits.len(),
{
    if digits.len() <= 3 {
        digits
    } else {
        grouped(digits.take(digits.len() - 3)) + seq![','] + digits.skip(digits.len() - 3)
    }
}

/// How an elapsed-microseconds value is printed under an English
/// locale: its decimal digits, thousands-grouped with ','.
pub open spec fn formatted_en(n: nat) -> Seq<char> {
    grouped(decimal_digits(n))
}

/// Relies on num_format's `ToFormattedString` with the `en` locale
/// (separator ",", standard grouping): the decimal digits of `n` with
/// "," between three-digit groups counted from the right.
#[verifier::external_body]
fn to_formatted_string_en(n: u128) -> (r: String)
    ensures
        r@ == formatted_en(n as nat),
{
    num_format::ToFormattedString::to_formatted_string(&n, &num_format::Locale::en)
}

/// The reporter's conversion step: an elapsed-microseconds value as a
/// human-readable, thousands-grouped decimal string.
pub fn format_elapsed_micros(micros: u128) -> (r: String)
    ensures
        r@ == formatted_en(micros as nat),
{
    to_formatted_string_en(micros)
}

/// One timing line of the final report: the fixed label followed by
/// the grouped elapsed-microseconds value.
pub fn render_timing_line(label: &str, micros: u128) -> (r: String)
    ensures
        r@ == label@ + formatted_en(micros as nat),
{
    let mut line = label.to_owned();
    let num = format_elapsed_micros(micros);
    line.append(num.as_str());
    line
}

/// The two-line comparison printed at the end of a run, one line per
/// strategy, each with its elapsed microseconds grouped for reading.
pub fn render_report(sync_micros: u128, async_micros: u128) -> (lines: (String, String))
    ensures
        lines.0@ == "    synchronous sims: "@ + formatted_en(sync_micros as nat),
        lines.1@ == "   asynchronous sims: "@ + formatted_en(async_micros as nat),
{
    let sync_line = render_timing_line("    synchronous sims: ", sync_micros);
    let async_line = render_timing_line("   asynchronous sims: ", async_micros);
    (sync_line, async_line)
}

} // verus!
