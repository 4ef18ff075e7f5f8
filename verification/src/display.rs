//! The on-screen text of the bloom editor: a stateless projection of the
//! current parameter values onto a display string, rebuilt from scratch
//! every tick with no hidden state.
//!
//! The numerals are rendered by verified code; only the two `String`
//! mutators the rendering leans on are taken on trust from std.

use vstd::prelude::*;
use crate::bloom::{BloomParameters, CompositeMode};

verus! {

/// Relies on `String::push`: appends exactly the one given character.
pub assume_specification[ String::push ](s: &mut String, ch: char)
    ensures
        final(s)@ == old(s)@.push(ch),
;

/// Relies on `String::push_str`: appends exactly the given string slice.
pub assume_specification[ String::push_str ](s: &mut String, string: &str)
    ensures
        final(s)@ == old(s)@ + string@,
;

/// The decimal digit characters.
pub open spec fn digit_char(d: int) -> char {
    if d == 0 {
        '0'
    } else if d == 1 {
        '1'
    } else if d == 2 {
        '2'
    } else if d == 3 {
        '3'
    } else if d == 4 {
        '4'
    } else if d == 5 {
        '5'
    } else if d == 6 {
        '6'
    } else if d == 7 {
        '7'
    } else if d == 8 {
        '8'
    } else {
        '9'
    }
}

/// The usual decimal numeral of a non-negative value: most significant
/// digit first, no leading zeroes (a lone zero for zero).
pub open spec fn dec_rep(n: int) -> Seq<char>
    decreases n,
{
    if n < 10 {
        seq![digit_char(n)]
    } else {
        dec_rep(n / 10).push(digit_char(n % 10))
    }
}

/// The low `width` decimal digits of a non-negative value, zero padded to
/// exactly `width` characters.
pub open spec fn padded_rep(n: int, width: nat) -> Seq<char>
    decreases width,
{
    if width == 0 {
        Seq::empty()
    } else {
        padded_rep(n / 10, (width - 1) as nat).push(digit_char(n % 10))
    }
}

/// Decimal rendering of a non-negative micro-unit value: the integer
/// part, a point, and exactly six fractional digits.
pub open spec fn micro_rep(v: int) -> Seq<char> {
    dec_rep(v / 1_000_000).push('.') + padded_rep(v % 1_000_000, 6)
}

/// The display name of a composite mode.
pub open spec fn mode_rep(m: CompositeMode) -> Seq<char> {
    match m {
        CompositeMode::EnergyConserving => "energy-conserving"@,
        CompositeMode::Additive => "additive"@,
    }
}

/// One line of the summary: a label, a rendered value, a newline.
pub open spec fn line_rep(label: Seq<char>, value: Seq<char>) -> Seq<char> {
    label + value + seq!['\n']
}

/// The full text the editor shows: one labelled line per field, derived
/// from the current field values alone.
pub open spec fn spec_summary(p: BloomParameters) -> Seq<char> {
    line_rep("intensity: "@, micro_rep(p.intensity as int)) + line_rep(
        "low_frequency_boost: "@,
        micro_rep(p.low_frequency_boost as int),
    ) + line_rep(
        "low_frequency_boost_curvature: "@,
        micro_rep(p.low_frequency_boost_curvature as int),
    ) + line_rep("high_pass_frequency: "@, micro_rep(p.high_pass_frequency as int)) + line_rep(
        "composite_mode: "@,
        mode_rep(p.composite_mode),
    ) + line_rep("prefilter_threshold: "@, micro_rep(p.prefilter_threshold as int)) + line_rep(
        "prefilter_threshold_softness: "@,
        micro_rep(p.prefilter_threshold_softness as int),
    )
}

/// The character of one decimal digit.
fn digit_of(d: i64) -> (c: char)
    requires
        0 <= d < 10,
    ensures
        c == digit_char(d as int),
{
    if d == 0 {
        '0'
    } else if d == 1 {
        '1'
    } else if d == 2 {
        '2'
    } else if d == 3 {
        '3'
    } else if d == 4 {
        '4'
    } else if d == 5 {
        '5'
    } else if d == 6 {
        '6'
    } else if d == 7 {
        '7'
    } else if d == 8 {
        '8'
    } else {
        '9'
    }
}

/// Append the decimal numeral of a non-negative value.
fn push_dec(out: &mut String, n: i64)
    requires
        0 <= n,
    ensures
        final(out)@ == old(out)@ + dec_rep(n as int),
    decreases n,
{
    if n < 10 {
        out.push(digit_of(n));
        assert(out@ =~= old(out)@ + dec_rep(n as int));
    } else {
        push_dec(out, n / 10);
        out.push(digit_of(n % 10));
        assert(out@ =~= old(out)@ + dec_rep(n as int));
    }
}

/// Append the low `width` digits of a non-negative value, zero padded.
fn push_padded(out: &mut String, n: i64, width: u32)
    requires
        0 <= n,
    ensures
        final(out)@ == old(out)@ + padded_rep(n as int, width as nat),
    decreases width,
{
    if width > 0 {
        push_padded(out, n / 10, width - 1);
        out.push(digit_of(n % 10));
        assert(out@ =~= old(out)@ + padded_rep(n as int, width as nat));
    } else {
        assert(out@ =~= old(out)@ + padded_rep(n as int, 0));
    }
}

/// Append the decimal rendering of a non-negative micro-unit value.
fn push_micro(out: &mut String, v: i64)
    requires
        0 <= v,
    ensures
        final(out)@ == old(out)@ + micro_rep(v as int),
{
    push_dec(out, v / 1_000_000);
    out.push('.');
    push_padded(out, v % 1_000_000, 6);
    assert(out@ =~= old(out)@ + micro_rep(v as int));
}

/// Append one labelled line.
fn push_line(out: &mut String, label: &str, v: i64)
    requires
        0 <= v,
    ensures
        final(out)@ == old(out)@ + line_rep(label@, micro_rep(v as int)),
{
    out.push_str(label);
    push_micro(out, v);
    out.push('\n');
    assert(out@ =~= old(out)@ + line_rep(label@, micro_rep(v as int)));
}

/// Rebuild the editor's on-screen text from the current field values:
/// a pure projection of the parameter record, one line per field.
pub fn summary(p: &BloomParameters) -> (r: String)
    requires
        p.wf(),
    ensures
        r@ == spec_summary(*p),
{
    let mut out = String::new();
    push_line(&mut out, "intensity: ", p.intensity);
    push_line(&mut out, "low_frequency_boost: ", p.low_frequency_boost);
    push_line(&mut out, "low_frequency_boost_curvature: ", p.low_frequency_boost_curvature);
    push_line(&mut out, "high_pass_frequency: ", p.high_pass_frequency);
    out.push_str("composite_mode: ");
    match p.composite_mode {
        CompositeMode::EnergyConserving => out.push_str("energy-conserving"),
        CompositeMode::Additive => out.push_str("additive"),
    }
    out.push('\n');
    push_line(&mut out, "prefilter_threshold: ", p.prefilter_threshold);
    push_line(&mut out, "prefilter_threshold_softness: ", p.prefilter_threshold_softness);
    assert(out@ =~= spec_summary(*p));
    out
}

} // verus!
