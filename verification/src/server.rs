//! The backend's two request handlers, reduced to their decisions.
//!
//! The log handler coerces the submitted age text to an integer exactly as
//! `str::parse::<i32>` does (storing no age when that fails), plans the row
//! to insert, and builds the HTTP reply from the insert's outcome.  The time
//! handler formats the wall-clock time as zero-padded `HH:MM:SS` text.  The
//! insert itself and the HTTP transport live outside this crate.

use vstd::prelude::*;
use chrono::Timelike;
use crate::record::FormRecord;
use crate::wire::{hex_char, hex_char_digit, json_string, push_char, push_json_string};

verus! {

// ----------------------------------------------------------------------
// Age coercion: exactly `str::parse::<i32>`.
// ----------------------------------------------------------------------

/// Distance of `c` from the digit character `'0'`.
pub open spec fn digit_val(c: char) -> int {
    c as int - '0' as int
}

/// `c` is a decimal digit character.
pub open spec fn is_digit_char(c: char) -> bool {
    0 <= digit_val(c) && digit_val(c) <= 9
}

/// Every character of `s` is a decimal digit.
pub open spec fn all_digits(s: Seq<char>) -> bool {
    forall|i: int| 0 <= i < s.len() ==> is_digit_char(#[trigger] s[i])
}

/// The base-10 value of a sequence of digit characters.
pub open spec fn digits_val(s: Seq<char>) -> int
    decreases s.len(),
{
    if s.len() == 0 {
        0
    } else {
        digits_val(s.drop_last()) * 10 + digit_val(s.last())
    }
}

/// The digit part of an optionally signed numeral: everything after the
/// leading `+` or `-`, if there is one.
pub open spec fn literal_digits(s: Seq<char>) -> Seq<char> {
    if s.len() > 0 && (s[0] == '+' || s[0] == '-') {
        s.drop_first()
    } else {
        s
    }
}

/// The numeral carries a leading minus sign.
pub open spec fn literal_negative(s: Seq<char>) -> bool {
    s.len() > 0 && s[0] == '-'
}

/// `s` is an optionally signed, non-empty, all-digit decimal numeral: the
/// texts `str::parse` accepts, range aside.
pub open spec fn is_int_literal(s: Seq<char>) -> bool {
    literal_digits(s).len() > 0 && all_digits(literal_digits(s))
}

/// The mathematical value of an int literal.
pub open spec fn literal_val(s: Seq<char>) -> int {
    if literal_negative(s) {
        -digits_val(literal_digits(s))
    } else {
        digits_val(literal_digits(s))
    }
}

/// Exactly what `str::parse::<i32>` returns on `s`: the value of an
/// optionally signed decimal numeral when it fits in `i32`, nothing
/// otherwise.
pub open spec fn spec_parse_i32(s: Seq<char>) -> Option<i32> {
    if is_int_literal(s) && -2147483648 <= literal_val(s) <= 2147483647 {
        Some(literal_val(s) as i32)
    } else {
        None
    }
}

proof fn lemma_digits_val_nonneg(s: Seq<char>)
    requires
        all_digits(s),
    ensures
        digits_val(s) >= 0,
    decreases s.len(),
{
    if s.len() > 0 {
        assert forall|i: int| 0 <= i < s.drop_last().len() implies is_digit_char(
            #[trigger] s.drop_last()[i],
        ) by {
            assert(s.drop_last()[i] == s[i]);
        }
        lemma_digits_val_nonneg(s.drop_last());
    }
}

/// Appending digits never shrinks the value: the value of a digit string is
/// at least the value of any of its prefixes.
proof fn lemma_digits_val_prefix(s: Seq<char>, j: int)
    requires
        all_digits(s),
        0 <= j <= s.len(),
    ensures
        digits_val(s.take(j)) <= digits_val(s),
    decreases s.len() - j,
{
    if j == s.len() {
        assert(s.take(j) =~= s);
    } else {
        lemma_digits_val_prefix(s, j + 1);
        let shorter = s.take(j);
        let longer = s.take(j + 1);
        assert(longer.drop_last() =~= shorter);
        assert(longer.last() == s[j]);
        assert forall|i: int| 0 <= i < shorter.len() implies is_digit_char(
            #[trigger] shorter[i],
        ) by {
            assert(shorter[i] == s[i]);
        }
        lemma_digits_val_nonneg(shorter);
        assert(digits_val(longer) == digits_val(shorter) * 10 + digit_val(s[j]));
    }
}

/// The backend's coercion policy for the submitted age text: parse it as
/// `str::parse::<i32>` would; a text that does not parse is coerced to
/// nothing (stored as a null age), never rejected.
pub fn coerce_age(s: &str) -> (r: Option<i32>)
    ensures
        r == spec_parse_i32(s@),
{
    let len = s.unicode_len();
    if len == 0 {
        return None;
    }
    let first = s.get_char(0);
    let negative = first == '-';
    let signed = negative || first == '+';
    let start: usize = if signed {
        1
    } else {
        0
    };
    let ghost d = literal_digits(s@);
    proof {
        if signed {
            assert(d =~= s@.subrange(1, len as int));
        } else {
            assert(d =~= s@.subrange(0, len as int));
        }
    }
    if start == len {
        // a bare sign: no digits at all
        proof {
            assert(d.len() == 0);
        }
        return None;
    }
    let mut i: usize = start;
    let mut mag: u64 = 0;
    while i < len
        invariant
            start <= i <= len,
            len == s@.len(),
            start == if signed { 1int } else { 0int },
            d == literal_digits(s@),
            d == s@.subrange(start as int, len as int),
            all_digits(d.take(i - start)),
            mag == digits_val(d.take(i - start)),
            mag <= 0x8000_0000,
        decreases len - i,
    {
        let c = s.get_char(i);
        let code = c as u32;
        proof {
            assert(d[i - start] == s@[i as int]);
        }
        if code < 0x30 || code > 0x39 {
            proof {
                assert(!is_digit_char(d[i - start]));
                assert(!all_digits(d));
            }
            return None;
        }
        let dv: u64 = (code - 0x30) as u64;
        mag = mag * 10 + dv;
        proof {
            let shorter = d.take(i - start);
            let longer = d.take(i + 1 - start);
            assert(longer.drop_last() =~= shorter);
            assert(longer.last() == d[i - start]);
            assert(digit_val(c) == dv);
            assert(digits_val(longer) == digits_val(shorter) * 10 + digit_val(c));
            assert forall|k: int| 0 <= k < longer.len() implies is_digit_char(
                #[trigger] longer[k],
            ) by {
                if k < shorter.len() {
                    assert(longer[k] == shorter[k]);
                } else {
                    assert(longer[k] == d[i - start]);
                }
            }
        }
        if mag > 0x8000_0000 {
            // too large in magnitude for any `i32`, whatever the sign and
            // whatever follows: more digits only grow the value
            proof {
                if all_digits(d) {
                    lemma_digits_val_prefix(d, i + 1 - start);
                    assert(digits_val(d) >= mag);
                }
            }
            return None;
        }
        i = i + 1;
    }
    proof {
        assert(d.take(len - start) =~= d);
        assert(mag == digits_val(d));
        assert(is_int_literal(s@));
    }
    if negative {
        let v: i64 = -(mag as i64);
        proof {
            assert(literal_val(s@) == v as int);
            assert(-2147483648 <= v <= 2147483647);
        }
        Some(v as i32)
    } else {
        if mag > 0x7FFF_FFFF {
            // 2147483648 without a minus sign: just past `i32::MAX`
            proof {
                assert(literal_val(s@) == mag as int);
            }
            None
        } else {
            proof {
                assert(literal_val(s@) == mag as int);
            }
            Some(mag as i32)
        }
    }
}

// ----------------------------------------------------------------------
// The log handler's persistence planning and reply.
// ----------------------------------------------------------------------

/// The row the log handler asks the store to insert: the submitted name and
/// the coerced age.  `id` and `created_at` are assigned by the store itself.
pub struct LogRow {
    pub name: String,
    pub age: Option<i32>,
}

/// The row planned for a submission, as (name, coerced age).
pub open spec fn spec_planned_row(name: Seq<char>, age: Seq<char>) -> (Seq<char>, Option<i32>) {
    (name, spec_parse_i32(age))
}

/// The log handler's validation/coercion step: the name is kept as
/// submitted, the age text is coerced best-effort.
pub fn plan_log_row(record: &FormRecord) -> (row: LogRow)
    ensures
        (row.name@, row.age) == spec_planned_row(record.name@, record.age@),
{
    LogRow { name: record.name.clone(), age: coerce_age(record.age.as_str()) }
}

/// A submission whose age text is a decimal numeral in `i32` range is
/// planned as a row carrying that very name and that parsed integer age.
pub proof fn lemma_numeric_age_row(name: Seq<char>, age: Seq<char>)
    requires
        is_int_literal(age),
        -2147483648 <= literal_val(age) <= 2147483647,
    ensures
        spec_planned_row(name, age) == (name, Some(literal_val(age) as i32)),
{
}

/// A submission whose age text is not a numeral (or does not fit in `i32`)
/// is planned as a row carrying the name and no age at all — coercion
/// failure is downgraded, never rejected.
pub proof fn lemma_nonnumeric_age_null(name: Seq<char>, age: Seq<char>)
    requires
        !is_int_literal(age) || literal_val(age) < -2147483648 || literal_val(age) > 2147483647,
    ensures
        spec_planned_row(name, age) == (name, Option::<i32>::None),
{
}

/// An HTTP reply of one of the two handlers: a status code and a text body.
pub struct HttpReply {
    pub status: u16,
    pub body: String,
}

/// What the store reported back for one insert.
pub enum InsertOutcome {
    /// The row was persisted.
    Inserted,
    /// The insert failed (connection error, constraint violation), with a
    /// human-readable description.
    Failed { description: String },
}

/// The persistence-failure body: a JSON object with the description under
/// the `"error"` key.
pub open spec fn error_body_text(message: Seq<char>) -> Seq<char> {
    seq!['{', '"', 'e', 'r', 'r', 'o', 'r', '"', ':'] + json_string(message) + seq!['}']
}

/// Build the `{"error":...}` body for a persistence failure.
pub fn error_body(message: &str) -> (b: String)
    ensures
        b@ == error_body_text(message@),
{
    let mut out = String::new();
    push_char(&mut out, '{');
    push_char(&mut out, '"');
    push_char(&mut out, 'e');
    push_char(&mut out, 'r');
    push_char(&mut out, 'r');
    push_char(&mut out, 'o');
    push_char(&mut out, 'r');
    push_char(&mut out, '"');
    push_char(&mut out, ':');
    push_json_string(&mut out, message);
    push_char(&mut out, '}');
    proof {
        assert(out@ =~= error_body_text(message@));
    }
    out
}

/// The log handler's reply: 200 with an empty acknowledgement body when the
/// insert went through, 500 with the structured `{"error":...}` body when it
/// failed.  Persistence failure is the only path that produces that body.
pub fn log_reply(outcome: &InsertOutcome) -> (r: HttpReply)
    ensures
        match outcome {
            InsertOutcome::Inserted => r.status == 200 && r.body@ == Seq::<char>::empty(),
            InsertOutcome::Failed { description } => r.status == 500 && r.body@
                == error_body_text(description@),
        },
{
    match outcome {
        InsertOutcome::Inserted => HttpReply { status: 200, body: String::new() },
        InsertOutcome::Failed { description } => HttpReply {
            status: 500,
            body: error_body(description.as_str()),
        },
    }
}

// ----------------------------------------------------------------------
// The time handler.
// ----------------------------------------------------------------------

/// Two zero-padded decimal digits for a value below 100.
pub open spec fn spec_two_digits(n: int) -> Seq<char> {
    seq![hex_char(n / 10), hex_char(n % 10)]
}

/// The 24-hour clock text `HH:MM:SS` for the given time of day.
pub open spec fn spec_hms(h: int, m: int, s: int) -> Seq<char> {
    spec_two_digits(h) + seq![':'] + spec_two_digits(m) + seq![':'] + spec_two_digits(s)
}

/// `t` matches the clock pattern: two digits, a colon, two digits, a colon,
/// two digits.
pub open spec fn is_clock_text(t: Seq<char>) -> bool {
    &&& t.len() == 8
    &&& is_digit_char(t[0])
    &&& is_digit_char(t[1])
    &&& t[2] == ':'
    &&& is_digit_char(t[3])
    &&& is_digit_char(t[4])
    &&& t[5] == ':'
    &&& is_digit_char(t[6])
    &&& is_digit_char(t[7])
}

/// Every time of day formats to text matching the clock pattern.
pub proof fn lemma_hms_matches_clock_pattern(h: int, m: int, s: int)
    requires
        0 <= h < 24,
        0 <= m < 60,
        0 <= s < 60,
    ensures
        is_clock_text(spec_hms(h, m, s)),
{
    let t = spec_hms(h, m, s);
    assert(t[0] == hex_char(h / 10));
    assert(t[1] == hex_char(h % 10));
    assert(t[2] == ':');
    assert(t[3] == hex_char(m / 10));
    assert(t[4] == hex_char(m % 10));
    assert(t[5] == ':');
    assert(t[6] == hex_char(s / 10));
    assert(t[7] == hex_char(s % 10));
}

/// Append the two zero-padded digits of `n`.
fn push_two_digits(out: &mut String, n: u8)
    requires
        n < 100,
    ensures
        final(out)@ == old(out)@ + spec_two_digits(n as int),
{
    push_char(out, hex_char_digit(n / 10));
    push_char(out, hex_char_digit(n % 10));
    proof {
        assert(out@ =~= old(out)@ + spec_two_digits(n as int));
    }
}

/// Format a time of day as zero-padded 24-hour `HH:MM:SS` text.
pub fn format_hms(h: u8, m: u8, s: u8) -> (r: String)
    requires
        h < 24,
        m < 60,
        s < 60,
    ensures
        r@ == spec_hms(h as int, m as int, s as int),
        is_clock_text(r@),
{
    let mut out = String::new();
    push_two_digits(&mut out, h);
    push_char(&mut out, ':');
    push_two_digits(&mut out, m);
    push_char(&mut out, ':');
    push_two_digits(&mut out, s);
    proof {
        assert(out@ =~= spec_hms(h as int, m as int, s as int));
        lemma_hms_matches_clock_pattern(h as int, m as int, s as int);
    }
    out
}

/// Relies on `chrono::Local::now` and chrono's `Timelike` accessors: the
/// hour is 0 to 23, the minute and the second 0 to 59.  The value itself
/// depends on the wall clock, so nothing more is promised of it.
#[verifier::external_body]
fn now_hms() -> (t: (u8, u8, u8))
    ensures
        t.0 < 24,
        t.1 < 60,
        t.2 < 60,
{
    let now = chrono::Local::now();
    (now.hour() as u8, now.minute() as u8, now.second() as u8)
}

/// The time handler: read the wall clock and answer 200 with the current
/// local time as `HH:MM:SS` text.  Whatever the clock says, the body matches
/// the clock pattern.
pub fn time_reply() -> (r: HttpReply)
    ensures
        r.status == 200,
        is_clock_text(r.body@),
{
    let (h, m, s) = now_hms();
    HttpReply { status: 200, body: format_hms(h, m, s) }
}

// ----------------------------------------------------------------------
// The persistence store's statements.
// ----------------------------------------------------------------------

/// The idempotent bootstrap of the log table: create-if-absent, never
/// destructive.
pub fn schema_sql() -> (r: &'static str)
    ensures
        r@
            == "CREATE TABLE IF NOT EXISTS user_logs (id SERIAL PRIMARY KEY, name TEXT NOT NULL, age INTEGER, created_at TIMESTAMPTZ DEFAULT NOW());"@,
{
    "CREATE TABLE IF NOT EXISTS user_logs (id SERIAL PRIMARY KEY, name TEXT NOT NULL, age INTEGER, created_at TIMESTAMPTZ DEFAULT NOW());"
}

/// The insert the log handler runs, with the name and the coerced age as
/// its two placeholders; `id` and `created_at` are left to the store.
pub fn insert_sql() -> (r: &'static str)
    ensures
        r@ == "INSERT INTO user_logs (name, age) VALUES ($1, $2)"@,
{
    "INSERT INTO user_logs (name, age) VALUES ($1, $2)"
}

} // verus!
