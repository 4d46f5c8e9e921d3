//! The pages of the web front end, as text.

use vstd::prelude::*;
use vstd::std_specs::iter::IteratorSpec;
use vstd::string::StrSliceExecFns;
use vstd::string::StringExecFns;
use chrono::{TimeZone, Utc};
use crate::text::{
    chars_of, decimal, decimal_text, has_prefix, number_text, push_char, range_equals,
    signed_decimal, signed_decimal_text, string_of, trim_bounds, trimmed,
};

pub mod about;
pub mod admin;
pub mod admin_enhanced;
pub mod admin_nodes_enchanced;
pub mod branches;
pub mod clone_page;
pub mod commit_view;
pub mod commits;
pub mod create_repo;
pub mod dashboard;
pub mod dashboard_enhanced;
pub mod docs;
pub mod explore;
pub mod files;
pub mod index;
pub mod layout;
pub mod login;
pub mod pinned;
pub mod profile;
pub mod repo;
pub mod repo_enhanced;
pub mod search;
pub mod signup;
pub mod starred;
pub mod tags;

verus! {

/// What `html_escape` writes for one character.
pub open spec fn escaped_char(c: char) -> Seq<char> {
    if c == '&' {
        "&amp;"@
    } else if c == '<' {
        "&lt;"@
    } else if c == '>' {
        "&gt;"@
    } else if c == '"' {
        "&quot;"@
    } else {
        seq![c]
    }
}

/// `text` with each of `& < > "` replaced by its entity.
pub open spec fn escaped(text: Seq<char>) -> Seq<char>
    decreases text.len(),
{
    if text.len() == 0 {
        Seq::empty()
    } else {
        escaped(text.drop_last()) + escaped_char(text.last())
    }
}

/// Escapes text for a page: each of `& < > "` is replaced by its entity.
pub fn html_escape(s: &str) -> (html: String)
    ensures
        html@ == escaped(s@),
{
    let mut html = String::new();
    for c in it: s.chars()
        invariant
            it.seq() == s@,
            html@ == escaped(s@.take(it.index())),
    {
        if c == '&' {
            html.append("&amp;");
        } else if c == '<' {
            html.append("&lt;");
        } else if c == '>' {
            html.append("&gt;");
        } else if c == '"' {
            html.append("&quot;");
        } else {
            push_char(&mut html, c);
        }
        assert(s@.take(it.index() + 1).drop_last() == s@.take(it.index()));
    }
    assert(s@.take(s@.len() as int) == s@);
    html
}

/// The text of an optional field, or `default` where the field is
/// empty.
pub open spec fn text_or(value: Option<Seq<char>>, default: Seq<char>) -> Seq<char> {
    match value {
        Some(text) => text,
        None => default,
    }
}

/// The text of an optional field, or `default`.
pub fn field_or(value: &Option<String>, default: &str) -> (text: String)
    ensures
        text@ == text_or(
            match *value {
                Some(t) => Some(t@),
                None => None,
            },
            default@,
        ),
{
    match value {
        Some(text) => text.clone(),
        None => String::from_str(default),
    }
}

/// The first `count` characters of `text`, or all of it where it is
/// shorter.
pub open spec fn head(text: Seq<char>, count: nat) -> Seq<char> {
    if text.len() <= count {
        text
    } else {
        text.take(count as int)
    }
}

/// The first `count` characters of `text`.
pub fn short_text(text: &str, count: usize) -> (short: String)
    ensures
        short@ == head(text@, count as nat),
{
    let chars = chars_of(text);
    if chars.len() <= count {
        assert(chars@.subrange(0, chars@.len() as int) == chars@);
        string_of(&chars, 0, chars.len())
    } else {
        string_of(&chars, 0, count)
    }
}

/// `a` divided by the positive `b`, rounded towards zero.
pub open spec fn quotient(a: int, b: int) -> int {
    if a >= 0 {
        a / b
    } else {
        -((-a) / b)
    }
}

/// `amount` divided by `unit` and rounded towards zero, in decimal.
pub fn in_units(amount: i64, unit: i64) -> (text: String)
    requires
        unit > 0,
    ensures
        text@ == signed_decimal(quotient(amount as int, unit as int)),
{
    let value = if amount >= 0 {
        amount / unit
    } else {
        let magnitude = (-(amount as i128)) / (unit as i128);
        (-magnitude) as i64
    };
    signed_decimal_text(value)
}

/// A count in decimal.
pub fn count_text(count: usize) -> (text: String)
    ensures
        text@ == decimal(count as nat),
{
    decimal_text(count as u64)
}

/// How pages write a day.
pub const DATE_FORMAT: &'static str = "%Y-%m-%d";

/// How pages write a day and a minute of it.
pub const MINUTE_FORMAT: &'static str = "%Y-%m-%d %H:%M";

/// How pages write a day and a second of it.
pub const SECOND_FORMAT: &'static str = "%Y-%m-%d %H:%M:%S";

/// `pattern` is one of the three forms in which pages write a time.
pub open spec fn time_format(pattern: Seq<char>) -> bool {
    pattern == DATE_FORMAT@ || pattern == MINUTE_FORMAT@ || pattern == SECOND_FORMAT@
}

/// The time `timestamp` seconds after the beginning of 1970, in UTC, as
/// the crate `chrono` writes it in the form `pattern`; `None` where the
/// calendar of `chrono` does not reach that time.
pub uninterp spec fn utc_formatted(timestamp: i64, pattern: Seq<char>) -> Option<Seq<char>>;

/// Writes a time in UTC.
///
/// Makes the time with `chrono::TimeZone::timestamp_opt` of `chrono::Utc`
/// and writes it with `DateTime::format`; a number of seconds that
/// `chrono` takes for no time gives `None`. The text depends on the two
/// arguments alone: no clock and no time zone of the machine enters. Only
/// the three forms of this module are handed in, each of which `chrono`
/// can write for every time.
#[verifier::external_body]
fn format_utc(timestamp: i64, pattern: &str) -> (text: Option<String>)
    requires
        time_format(pattern@),
    ensures
        utc_formatted(timestamp, pattern@) == match text {
            Some(written) => Some(written@),
            None => None,
        },
{
    match Utc.timestamp_opt(timestamp, 0).single() {
        Some(time) => Some(time.format(pattern).to_string()),
        None => None,
    }
}

/// A time as a page shows it: written in the form `pattern`, or as the
/// bare number of seconds where the calendar does not reach it.
pub open spec fn shown_time(timestamp: i64, pattern: Seq<char>) -> Seq<char> {
    match utc_formatted(timestamp, pattern) {
        Some(written) => written,
        None => signed_decimal(timestamp as int),
    }
}

/// The day of a time, as pages show it.
pub open spec fn date_of(timestamp: i64) -> Seq<char> {
    shown_time(timestamp, DATE_FORMAT@)
}

/// The day and the minute of a time, as pages show them.
pub open spec fn day_and_minute(timestamp: i64) -> Seq<char> {
    shown_time(timestamp, MINUTE_FORMAT@)
}

/// The day and the second of a time, as pages show them.
pub open spec fn day_and_second(timestamp: i64) -> Seq<char> {
    shown_time(timestamp, SECOND_FORMAT@)
}

/// Writes a time as a page shows it.
fn time_text(timestamp: i64, pattern: &str) -> (text: String)
    requires
        time_format(pattern@),
    ensures
        text@ == shown_time(timestamp, pattern@),
{
    match format_utc(timestamp, pattern) {
        Some(written) => written,
        None => signed_decimal_text(timestamp),
    }
}

/// The day of a time: year, month and day in UTC, as in `2024-03-09`.
pub fn date_text(timestamp: i64) -> (text: String)
    ensures
        text@ == date_of(timestamp),
{
    time_text(timestamp, DATE_FORMAT)
}

/// The day and the minute of a time in UTC, as in `2024-03-09 17:05`.
pub fn minute_text(timestamp: i64) -> (text: String)
    ensures
        text@ == day_and_minute(timestamp),
{
    time_text(timestamp, MINUTE_FORMAT)
}

/// The day and the second of a time in UTC, as in `2024-03-09 17:05:59`.
pub fn datetime_text(timestamp: i64) -> (text: String)
    ensures
        text@ == day_and_second(timestamp),
{
    time_text(timestamp, SECOND_FORMAT)
}

/// `amount` in tenths of `unit`, rounded to the nearest tenth and, where
/// two are as near, to the even one.
pub open spec fn tenths(amount: nat, unit: nat) -> nat {
    let whole = (amount * 10) / unit;
    let rest = (amount * 10) % unit;
    if rest * 2 > unit || (rest * 2 == unit && whole % 2 == 1) {
        whole + 1
    } else {
        whole
    }
}

/// A number of tenths with one digit behind the point.
pub open spec fn one_decimal(count: nat) -> Seq<char> {
    decimal(count / 10) + seq!['.'] + decimal(count % 10)
}

/// The size of a file as a listing shows it: in bytes below a kibibyte,
/// in kibibytes with one decimal below a mebibyte, in mebibytes with one
/// decimal from there on.
pub open spec fn size_of(bytes: nat) -> Seq<char> {
    if bytes < 1024 {
        decimal(bytes) + " B"@
    } else if bytes < 1024 * 1024 {
        one_decimal(tenths(bytes, 1024)) + " KB"@
    } else {
        one_decimal(tenths(bytes, 1048576)) + " MB"@
    }
}

fn one_decimal_text(amount: u128, unit: u128) -> (text: String)
    requires
        unit == 1024 || unit == 1048576,
        amount <= 0xffff_ffff_ffff_ffff,
    ensures
        text@ == one_decimal(tenths(amount as nat, unit as nat)),
{
    let whole = (amount * 10) / unit;
    let rest = (amount * 10) % unit;
    let count = if rest * 2 > unit || (rest * 2 == unit && whole % 2 == 1) {
        whole + 1
    } else {
        whole
    };
    let mut text = number_text(count / 10, 10);
    push_char(&mut text, '.');
    let last = number_text(count % 10, 10);
    text.append(last.as_str());
    text
}

/// Writes the size of a file as a listing shows it.
pub fn format_size(bytes: usize) -> (text: String)
    ensures
        text@ == size_of(bytes as nat),
{
    if bytes < 1024 {
        let mut text = decimal_text(bytes as u64);
        text.append(" B");
        text
    } else if bytes < 1024 * 1024 {
        let mut text = one_decimal_text(bytes as u128, 1024);
        text.append(" KB");
        text
    } else {
        let mut text = one_decimal_text(bytes as u128, 1048576);
        text.append(" MB");
        text
    }
}

/// `text` without every `mark` that it begins with.
pub open spec fn without_marks(text: Seq<char>, mark: Seq<char>) -> Seq<char>
    decreases text.len(),
{
    if mark.len() > 0 && has_prefix(text, mark) {
        without_marks(text.skip(mark.len() as int), mark)
    } else {
        text
    }
}

/// The name of a branch on a line of the list of branches: the line
/// without the white space around it, without the marks `* ` of the
/// current branch before it, and without the white space behind those.
pub open spec fn branch_name_of(line: Seq<char>) -> Seq<char> {
    trimmed(without_marks(trimmed(line), "* "@))
}

/// Whether a line of the list of branches stands for the current
/// branch: its first character that is no white space is a `*`.
pub open spec fn marks_current(line: Seq<char>) -> bool {
    trimmed(line).len() > 0 && trimmed(line)[0] == '*'
}

/// Reads a line of the list of branches: the name of the branch, and
/// whether it is the current one.
pub fn read_branch_line(line: &str) -> (branch: (String, bool))
    ensures
        branch.0@ == branch_name_of(line@),
        branch.1 == marks_current(line@),
{
    let chars = chars_of(line);
    let mark = chars_of("* ");
    proof {
        reveal_strlit("* ");
        assert(chars@.subrange(0, chars@.len() as int) == chars@);
    }
    let (from, to) = trim_bounds(&chars, 0, chars.len());
    let ghost clean = chars@.subrange(from as int, to as int);
    let current = from < to && chars[from] == '*';
    let mut start = from;
    assert(clean.skip(0) == clean);
    while to - start >= 2 && range_equals(&chars, start, start + 2, &mark)
        invariant
            from <= start <= to <= chars@.len(),
            mark@ == "* "@,
            mark@.len() == 2,
            clean == chars@.subrange(from as int, to as int),
            without_marks(clean, mark@) == without_marks(clean.skip(start - from), mark@),
        decreases to - start,
    {
        proof {
            let rest = clean.skip(start - from);
            assert(rest.subrange(0, 2) == chars@.subrange(start as int, start + 2));
            assert(rest.skip(2) == clean.skip(start + 2 - from));
        }
        start += 2;
    }
    proof {
        let rest = clean.skip(start - from);
        assert(rest == chars@.subrange(start as int, to as int));
        if rest.len() >= 2 {
            assert(rest.subrange(0, 2) == chars@.subrange(start as int, start + 2));
        }
        assert(without_marks(rest, mark@) == rest);
    }
    let (name_from, name_to) = trim_bounds(&chars, start, to);
    (string_of(&chars, name_from, name_to), current)
}

} // verus!
