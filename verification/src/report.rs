//! The machine-readable result lines. Timings are rendered exactly as
//! fractional seconds with nine decimal digits, the memory delta as a plain
//! decimal; the "query" line joins its four fields with commas.

use vstd::prelude::*;
use vstd::string::StringExecFns;

verus! {

/// The decimal digit characters.
pub open spec fn is_digit_char(c: char) -> bool {
    '0' <= c && c <= '9'
}

/// The character for one digit value.
pub open spec fn digit_char(d: nat) -> char {
    if d == 0 {
        '0'
    } else if d == 1 {
        '1'
    } else if d == 2 {
        '2'
    } else if d == 3 {
        '3'
    } else if d == 4 {
        '4'
    } else if d == 5 {
        '5'
    } else if d == 6 {
        '6'
    } else if d == 7 {
        '7'
    } else if d == 8 {
        '8'
    } else {
        '9'
    }
}

/// The usual decimal rendering of a number, no leading zeroes (except for the
/// number zero itself).
pub open spec fn dec_rep(n: nat) -> Seq<char>
    decreases n,
{
    if n < 10 {
        seq![digit_char(n)]
    } else {
        dec_rep(n / 10) + seq![digit_char(n % 10)]
    }
}

/// The decimal rendering of a number in exactly `w` digits, zero-padded on
/// the left (truncating high digits if the number needs more than `w`).
pub open spec fn dec_pad(n: nat, w: nat) -> Seq<char>
    decreases w,
{
    if w == 0 {
        Seq::<char>::empty()
    } else {
        dec_pad(n / 10, (w - 1) as nat) + seq![digit_char(n % 10)]
    }
}

/// A nanosecond duration rendered as fractional seconds: the whole seconds,
/// a point, then exactly nine decimal digits.
pub open spec fn seconds_rep(ns: u64) -> Seq<char> {
    dec_rep((ns / 1_000_000_000) as nat) + seq!['.'] + dec_pad((ns % 1_000_000_000) as nat, 9)
}

/// The single field of the "parse" task's result line.
pub open spec fn parse_line_rep(parse_ns: u64) -> Seq<char> {
    seconds_rep(parse_ns)
}

/// The four comma-joined fields of the "query" task's result line: parse
/// time, load memory delta in kB, time to the first match, time to the
/// remaining matches.
pub open spec fn query_line_rep(parse_ns: u64, mem_kb: u64, first_ns: u64, rest_ns: u64) -> Seq<
    char,
> {
    seconds_rep(parse_ns) + seq![','] + dec_rep(mem_kb as nat) + seq![','] + seconds_rep(first_ns)
        + seq![','] + seconds_rep(rest_ns)
}

/// Append the character of one digit value.
fn push_digit(s: &mut String, d: u64)
    requires
        d < 10,
    ensures
        final(s)@ == old(s)@ + seq![digit_char(d as nat)],
{
    let piece: &str = if d == 0 {
        "0"
    } else if d == 1 {
        "1"
    } else if d == 2 {
        "2"
    } else if d == 3 {
        "3"
    } else if d == 4 {
        "4"
    } else if d == 5 {
        "5"
    } else if d == 6 {
        "6"
    } else if d == 7 {
        "7"
    } else if d == 8 {
        "8"
    } else {
        "9"
    };
    proof {
        reveal_strlit("0");
        reveal_strlit("1");
        reveal_strlit("2");
        reveal_strlit("3");
        reveal_strlit("4");
        reveal_strlit("5");
        reveal_strlit("6");
        reveal_strlit("7");
        reveal_strlit("8");
        reveal_strlit("9");
        assert(piece@ =~= seq![digit_char(d as nat)]);
    }
    s.append(piece);
}

/// Append the decimal rendering of `n`.
fn append_dec(s: &mut String, n: u64)
    ensures
        final(s)@ == old(s)@ + dec_rep(n as nat),
    decreases n,
{
    if n < 10 {
        push_digit(s, n);
    } else {
        append_dec(s, n / 10);
        push_digit(s, n % 10);
        proof {
            assert(final(s)@ =~= old(s)@ + dec_rep(n as nat));
        }
    }
}

/// Append the `w`-digit zero-padded decimal rendering of `n`.
fn append_dec_pad(s: &mut String, n: u64, w: u64)
    ensures
        final(s)@ == old(s)@ + dec_pad(n as nat, w as nat),
    decreases w,
{
    if w > 0 {
        append_dec_pad(s, n / 10, w - 1);
        push_digit(s, n % 10);
        proof {
            assert(final(s)@ =~= old(s)@ + dec_pad(n as nat, w as nat));
        }
    } else {
        proof {
            assert(final(s)@ =~= old(s)@ + dec_pad(n as nat, 0));
        }
    }
}

/// Append a nanosecond duration as fractional seconds.
fn append_seconds(s: &mut String, ns: u64)
    ensures
        final(s)@ == old(s)@ + seconds_rep(ns),
{
    append_dec(s, ns / 1_000_000_000);
    proof {
        reveal_strlit(".");
        assert("."@ =~= seq!['.']);
    }
    s.append(".");
    append_dec_pad(s, ns % 1_000_000_000, 9);
    proof {
        assert(final(s)@ =~= old(s)@ + seconds_rep(ns));
    }
}

/// The "parse" task's whole result line: one field, the parse time in
/// fractional seconds.
pub fn parse_result_line(parse_ns: u64) -> (line: String)
    ensures
        line@ == parse_line_rep(parse_ns),
{
    let mut line = String::new();
    append_seconds(&mut line, parse_ns);
    proof {
        assert(line@ =~= parse_line_rep(parse_ns));
    }
    line
}

/// The "query" task's whole result line: four comma-joined fields.
pub fn query_result_line(parse_ns: u64, mem_kb: u64, first_ns: u64, rest_ns: u64) -> (line: String)
    ensures
        line@ == query_line_rep(parse_ns, mem_kb, first_ns, rest_ns),
{
    proof {
        reveal_strlit(",");
        assert(","@ =~= seq![',']);
    }
    let mut line = String::new();
    append_seconds(&mut line, parse_ns);
    line.append(",");
    append_dec(&mut line, mem_kb);
    line.append(",");
    append_seconds(&mut line, first_ns);
    line.append(",");
    append_seconds(&mut line, rest_ns);
    proof {
        assert(line@ =~= query_line_rep(parse_ns, mem_kb, first_ns, rest_ns));
    }
    line
}

/// A non-empty run of digits and points, as every field of a result line is;
/// in particular it holds no comma.
pub open spec fn numeric_field(s: Seq<char>) -> bool {
    s.len() > 0 && (forall|i: int| 0 <= i < s.len() ==> is_digit_char(s[i]) || s[i] == '.')
}

/// Every decimal rendering is a non-empty run of digits.
pub proof fn lemma_dec_rep_digits(n: nat)
    ensures
        dec_rep(n).len() > 0,
        forall|i: int| 0 <= i < dec_rep(n).len() ==> is_digit_char(dec_rep(n)[i]),
    decreases n,
{
    if n >= 10 {
        lemma_dec_rep_digits(n / 10);
    }
}

/// Every padded rendering is exactly `w` digits.
pub proof fn lemma_dec_pad_digits(n: nat, w: nat)
    ensures
        dec_pad(n, w).len() == w,
        forall|i: int| 0 <= i < w ==> is_digit_char(dec_pad(n, w)[i]),
    decreases w,
{
    if w > 0 {
        lemma_dec_pad_digits(n / 10, (w - 1) as nat);
    }
}

/// Every seconds rendering is a numeric field.
pub proof fn lemma_seconds_numeric(ns: u64)
    ensures
        numeric_field(seconds_rep(ns)),
{
    lemma_dec_rep_digits((ns / 1_000_000_000) as nat);
    lemma_dec_pad_digits((ns % 1_000_000_000) as nat, 9);
}

/// A numeric field holds no comma, so joining fields with commas is
/// unambiguous.
pub proof fn lemma_numeric_field_no_comma(s: Seq<char>)
    requires
        numeric_field(s),
    ensures
        forall|i: int| 0 <= i < s.len() ==> s[i] != ',',
{
}

/// The "query" result line is the comma-join of exactly four fields, each a
/// non-empty run of digits and points, so none holds a comma: a CSV reader
/// sees exactly four numeric columns.
pub proof fn lemma_query_line_fields(parse_ns: u64, mem_kb: u64, first_ns: u64, rest_ns: u64)
    ensures
        query_line_rep(parse_ns, mem_kb, first_ns, rest_ns) == seconds_rep(parse_ns) + seq![',']
            + dec_rep(mem_kb as nat) + seq![','] + seconds_rep(first_ns) + seq![',']
            + seconds_rep(rest_ns),
        numeric_field(seconds_rep(parse_ns)),
        numeric_field(dec_rep(mem_kb as nat)),
        numeric_field(seconds_rep(first_ns)),
        numeric_field(seconds_rep(rest_ns)),
{
    lemma_seconds_numeric(parse_ns);
    lemma_seconds_numeric(first_ns);
    lemma_seconds_numeric(rest_ns);
    lemma_dec_rep_digits(mem_kb as nat);
}

} // verus!
