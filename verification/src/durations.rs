//! Spans of time as whole seconds and nanoseconds, and the durations that
//! scripts give as text such as `"1s"` or `"30m"`.

use vstd::prelude::*;

use crate::text::chars_of;

verus! {

/// A span of time: whole seconds and the nanoseconds beyond them.
#[derive(Clone, Copy, Debug, PartialEq, Eq, Hash)]
pub struct TimeSpan {
    secs: u64,
    nanos: u32,
}

impl TimeSpan {
    #[verifier::type_invariant]
    spec fn inv(&self) -> bool {
        self.nanos < 1_000_000_000
    }

    /// The length of this span in nanoseconds.
    pub closed spec fn total_nanos(&self) -> int {
        self.secs * 1_000_000_000 + self.nanos
    }

    /// The whole seconds.
    pub closed spec fn secs_spec(&self) -> u64 {
        self.secs
    }

    /// The nanoseconds beyond the whole seconds.
    pub closed spec fn nanos_spec(&self) -> u32 {
        self.nanos
    }

    /// The span of `secs` seconds and `nanos` nanoseconds, carrying whole
    /// seconds out of the nanoseconds.
    pub fn new(secs: u64, nanos: u32) -> (r: Option<Self>)
        ensures
            r is Some <==> secs + nanos / 1_000_000_000 <= u64::MAX,
            r matches Some(t) ==> t.total_nanos() == secs * 1_000_000_000 + nanos,
    {
        let extra = (nanos / 1_000_000_000) as u64;
        if secs > u64::MAX - extra {
            return None;
        }
        Some(TimeSpan { secs: secs + extra, nanos: nanos % 1_000_000_000 })
    }

    /// The span of `millis` milliseconds.
    pub fn from_millis(millis: u64) -> (r: Self)
        ensures
            r.total_nanos() == millis * 1_000_000,
    {
        TimeSpan { secs: millis / 1000, nanos: ((millis % 1000) * 1_000_000) as u32 }
    }

    /// The whole seconds.
    pub fn secs(&self) -> (s: u64)
        ensures
            s == self.secs_spec(),
    {
        self.secs
    }

    /// The nanoseconds beyond the whole seconds.
    pub fn subsec_nanos(&self) -> (n: u32)
        ensures
            n == self.nanos_spec(),
            n < 1_000_000_000,
    {
        proof {
            use_type_invariant(self);
        }
        self.nanos
    }

    /// Whether the span is empty.
    pub fn is_zero(&self) -> (b: bool)
        ensures
            b == (self.total_nanos() == 0),
    {
        self.secs == 0 && self.nanos == 0
    }
}

/// Whether a character is an ASCII digit.
pub open spec fn is_ascii_digit(c: char) -> bool {
    '0' <= c && c <= '9'
}

/// Whether a character ends a run of digits for `humantime`: an ASCII
/// letter, `µ` or the decimal point.
pub open spec fn ends_number(c: char) -> bool {
    ('a' <= c && c <= 'z') || ('A' <= c && c <= 'Z') || c == 'µ' || c == '.'
}

/// Reading `s` in digit groups: a group starts at a digit and runs to the
/// next character that ends a number, its value being its digits read in
/// order. Gives the sum of one more than the value of each closed group,
/// and the value of the open group (`-1` when none is open).
pub open spec fn group_scan(s: Seq<char>) -> (int, int)
    decreases s.len(),
{
    if s.len() == 0 {
        (0, -1)
    } else {
        let (t, cur) = group_scan(s.drop_last());
        let c = s.last();
        if is_ascii_digit(c) {
            (t, if cur < 0 { 0 } else { cur } * 10 + (c as int - 48))
        } else if ends_number(c) {
            if cur >= 0 { (t + cur + 1, -1) } else { (t, -1) }
        } else {
            (t, cur)
        }
    }
}

/// The sum, over the digit groups of a text, of one more than each group's
/// value. Every number `humantime` reads, whole part or fraction, has its
/// digits within one group, so it is at most that group's value.
pub open spec fn digit_groups_total(s: Seq<char>) -> int {
    let (t, cur) = group_scan(s);
    if cur >= 0 { t + cur + 1 } else { t }
}

/// The largest total of digit groups that a duration text may have: below
/// it, `humantime` adds up fewer than `u64::MAX` seconds (each group brings
/// at most one more than its value times the 31_557_600 seconds of a year,
/// and 62 seconds of carried nanoseconds).
pub const DIGITS_LIMIT: u64 = 500_000_000_000;

/// The total of the digit groups of a text, or `DIGITS_LIMIT + 1` when it
/// is larger.
fn digit_groups_capped(text: &str) -> (n: u64)
    ensures
        n == if digit_groups_total(text@) <= DIGITS_LIMIT { digit_groups_total(text@) } else {
            DIGITS_LIMIT + 1
        },
{
    let cap: u64 = DIGITS_LIMIT + 1;
    let v = chars_of(text);
    let mut total: u64 = 0;
    let mut cur: u64 = 0;
    let mut open = false;
    let mut i: usize = 0;
    while i < v.len()
        invariant
            i <= v.len(),
            v@ == text@,
            cap == DIGITS_LIMIT + 1,
            ({
                let (t, c) = group_scan(v@.subrange(0, i as int));
                &&& t >= 0
                &&& total == if t < cap { t } else { cap as int }
                &&& open == (c >= 0)
                &&& open ==> cur == if c < cap { c } else { cap as int }
            }),
        decreases v.len() - i,
    {
        let c = v[i];
        proof {
            assert(v@.subrange(0, i + 1).drop_last() =~= v@.subrange(0, i as int));
            assert(v@.subrange(0, i + 1).last() == c);
        }
        if '0' <= c && c <= '9' {
            let d = (c as u32 - 48u32) as u64;
            let base: u64 = if open { cur } else { 0 };
            cur = if base >= cap { cap } else {
                let x = base * 10 + d;
                if x >= cap { cap } else { x }
            };
            open = true;
        } else if ('a' <= c && c <= 'z') || ('A' <= c && c <= 'Z') || c == 'µ' || c == '.' {
            if open {
                let x = total + cur + 1;
                total = if x >= cap { cap } else { x };
                open = false;
            }
        }
        i = i + 1;
    }
    assert(v@.subrange(0, v.len() as int) =~= v@);
    if open {
        let x = total + cur + 1;
        if x >= cap { cap } else { x }
    } else {
        total
    }
}

/// What `humantime::parse_duration` gives for a text: the seconds and
/// nanoseconds of the duration, or the text of its error.
pub uninterp spec fn humantime_parse(text: Seq<char>) -> Result<(u64, u32), Seq<char>>;

/// `humantime::parse_duration`. Claims: the result is the named parse of
/// the text, and a parsed duration has fewer than a billion nanoseconds
/// beyond its seconds (as every `std::time::Duration` has). The crate
/// panics when its seconds reach `u64::MAX` with a billion nanoseconds left
/// to carry; a text whose digit groups stay within `DIGITS_LIMIT` never
/// brings the seconds that far.
#[verifier::external_body]
fn parse_duration(text: &str) -> (r: Result<(u64, u32), String>)
    requires
        digit_groups_total(text@) <= DIGITS_LIMIT,
    ensures
        match (r, humantime_parse(text@)) {
            (Ok(v), Ok(w)) => v == w && v.1 < 1_000_000_000,
            (Err(m), Err(n)) => m@ == n,
            _ => false,
        },
{
    match humantime::parse_duration(text) {
        Ok(d) => Ok((d.as_secs(), d.subsec_nanos())),
        Err(e) => Err(e.to_string()),
    }
}

/// The reason given for a duration text with numbers too large, in the
/// words `humantime` uses for an overflowing number.
pub open spec fn too_large_reason() -> Seq<char> {
    "number is too large or cannot be represented without a lack of precision (values below 1ns are not supported)"@
}

/// A duration given by a script.
#[derive(Clone, Copy, Debug, PartialEq, Eq)]
pub struct JsDuration(pub TimeSpan);

/// `Failed to parse duration 'text': reason`.
pub open spec fn duration_error_text(text: Seq<char>, reason: Seq<char>) -> Seq<char> {
    "Failed to parse duration '"@ + text + "': "@ + reason
}

impl JsDuration {
    /// The duration a script gives as text, such as `"10m"`, read by
    /// `humantime`; the error names the text and the reason. A text whose
    /// numbers add up past what `humantime` is kept to (`DIGITS_LIMIT`) is refused as too large.
    pub fn parse(text: &str) -> (r: Result<JsDuration, String>)
        ensures
            digit_groups_total(text@) <= DIGITS_LIMIT ==> match humantime_parse(text@) {
                Ok(v) => r matches Ok(d) && d.0.secs_spec() == v.0 && d.0.nanos_spec() == v.1,
                Err(reason) => r matches Err(m) && m@ == duration_error_text(text@, reason),
            },
            digit_groups_total(text@) > DIGITS_LIMIT ==> (r matches Err(m) && m@ == duration_error_text(
                text@,
                too_large_reason(),
            )),
    {
        if digit_groups_capped(text) > DIGITS_LIMIT {
            let mut m = String::from_str("Failed to parse duration '");
            m.append(text);
            m.append("': ");
            m.append("number is too large or cannot be represented without a lack of precision (values below 1ns are not supported)");
            proof {
                reveal_strlit("Failed to parse duration '");
                reveal_strlit("': ");
                reveal_strlit("number is too large or cannot be represented without a lack of precision (values below 1ns are not supported)");
            }
            assert(m@ =~= duration_error_text(text@, too_large_reason()));
            return Err(m);
        }
        match parse_duration(text) {
            Ok((secs, nanos)) => {
                let span = TimeSpan { secs, nanos };
                Ok(JsDuration(span))
            },
            Err(reason) => {
                let mut m = String::from_str("Failed to parse duration '");
                m.append(text);
                m.append("': ");
                m.append(reason.as_str());
                Err(m)
            },
        }
    }
}

} // verus!
