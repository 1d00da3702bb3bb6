//! Names under which script classes and enums are registered, and small
//! values handed between the script runtime and the host.

use convert_case::Casing;
use vstd::prelude::*;

use crate::text::{append_decimal, decimal};

verus! {

/// `Expected at least {min} arguments, but {provided} were provided`.
pub open spec fn arg_count_text(min: nat, provided: nat) -> Seq<char> {
    "Expected at least "@ + decimal(min) + " arguments, but "@ + decimal(provided) + " were provided"@
}

/// The error a script call with `provided` arguments meets when it needs at
/// least `min` of them: none when there are enough.
pub fn arg_count_error(min: usize, provided: usize) -> (r: Option<String>)
    ensures
        provided >= min ==> r is None,
        provided < min ==> (r matches Some(m) && m@ == arg_count_text(min as nat, provided as nat)),
{
    if provided >= min {
        return None;
    }
    let mut m = String::from_str("Expected at least ");
    append_decimal(&mut m, min as u64);
    m.append(" arguments, but ");
    append_decimal(&mut m, provided as u64);
    m.append(" were provided");
    proof {
        reveal_strlit("Expected at least ");
        reveal_strlit(" arguments, but ");
        reveal_strlit(" were provided");
    }
    assert(m@ =~= arg_count_text(min as nat, provided as nat));
    Some(m)
}

/// `s` without a leading `Js`, when it has one.
pub open spec fn without_js(s: Seq<char>) -> Seq<char> {
    if s.len() >= 2 && s[0] == 'J' && s[1] == 's' {
        s.subrange(2, s.len() as int)
    } else {
        s
    }
}

/// The position just after the last `::` of `s`, or 0.
pub open spec fn last_segment_start(s: Seq<char>, i: int) -> int
    decreases i,
{
    if i < 2 {
        0
    } else if s[i - 2] == ':' && s[i - 1] == ':' {
        i
    } else {
        last_segment_start(s, i - 1)
    }
}

/// The name an enum is registered under: the last segment of its type's
/// path, without a leading `Js`.
pub open spec fn enum_name(path: Seq<char>) -> Seq<char> {
    without_js(path.subrange(last_segment_start(path, path.len() as int), path.len() as int))
}

/// The characters `lo..` of `s`, as a string.
fn chars_from(s: &str, lo: usize) -> (r: String)
    requires
        lo <= s@.len(),
    ensures
        r@ == s@.subrange(lo as int, s@.len() as int),
{
    let n = s.unicode_len();
    let mut r = String::new();
    let mut i = lo;
    while i < n
        invariant
            n == s@.len(),
            lo <= i <= n,
            r@ == s@.subrange(lo as int, i as int),
        decreases n - i,
    {
        crate::text::push_char(&mut r, s.get_char(i));
        i = i + 1;
        assert(r@ =~= s@.subrange(lo as int, i as int));
    }
    r
}

/// The name an enum is registered under, from the full path of its type:
/// the last segment, without a leading `Js`.
pub fn enum_registration_name(path: &str) -> (r: String)
    ensures
        r@ == enum_name(path@),
{
    let n = path.unicode_len();
    let mut i = n;
    while i >= 2 && !(path.get_char(i - 2) == ':' && path.get_char(i - 1) == ':')
        invariant
            n == path@.len(),
            i <= n,
            last_segment_start(path@, n as int) == last_segment_start(path@, i as int),
        decreases i,
    {
        i = i - 1;
    }
    let start = if i < 2 {
        0
    } else {
        i
    };
    let segment = chars_from(path, start);
    let m = segment.as_str().unicode_len();
    if m >= 2 && segment.as_str().get_char(0) == 'J' && segment.as_str().get_char(1) == 's' {
        let r = chars_from(segment.as_str(), 2);
        r
    } else {
        segment
    }
}

/// What `convert_case` makes of a text in camel case.
pub uninterp spec fn camel_case(s: Seq<char>) -> Seq<char>;

/// `Casing::to_case(s, Case::Camel)`. Claims only that the result is the
/// named camel-case form of `s`.
#[verifier::external_body]
fn to_camel_case(s: &str) -> (r: String)
    ensures
        r@ == camel_case(s@),
{
    s.to_case(convert_case::Case::Camel)
}

/// The name a singleton class is registered under: its class name without
/// a leading `Js`, in camel case.
pub fn singleton_registration_name(class_name: &str) -> (r: String)
    ensures
        r@ == camel_case(without_js(class_name@)),
{
    let n = class_name.unicode_len();
    if n >= 2 && class_name.get_char(0) == 'J' && class_name.get_char(1) == 's' {
        let rest = chars_from(class_name, 2);
        to_camel_case(rest.as_str())
    } else {
        to_camel_case(class_name)
    }
}

/// A body whose size is known in advance.
#[derive(Debug)]
pub struct SizedBody<B> {
    /// The body.
    pub inner: B,
    /// Its size in bytes.
    pub size: u64,
}

impl<B> SizedBody<B> {
    /// A body of `size` bytes.
    pub fn new(inner: B, size: u64) -> (r: Self)
        ensures
            r.inner == inner,
            r.size == size,
    {
        SizedBody { inner, size }
    }

    /// The exact size of the body, in bytes.
    pub fn exact_size(&self) -> (s: u64)
        ensures
            s == self.size,
    {
        self.size
    }
}

/// A decoded audio stream that cannot be played.
#[derive(Clone, Copy, Debug, PartialEq, Eq, Structural)]
pub enum SourceFormatError {
    /// The stream reports a sample rate of zero.
    SampleRate,
    /// The stream reports no channel.
    Channels,
}

/// Checks the format an audio stream reports: a non-zero sample rate, then
/// at least one channel.
pub fn validate_source_format(sample_rate: u32, channels: u16) -> (r: Result<(), SourceFormatError>)
    ensures
        sample_rate == 0 ==> r == Err::<(), SourceFormatError>(SourceFormatError::SampleRate),
        sample_rate != 0 && channels == 0 ==> r == Err::<(), SourceFormatError>(
            SourceFormatError::Channels,
        ),
        sample_rate != 0 && channels != 0 ==> r is Ok,
{
    if sample_rate == 0 {
        return Err(SourceFormatError::SampleRate);
    }
    if channels == 0 {
        return Err(SourceFormatError::Channels);
    }
    Ok(())
}

impl SourceFormatError {
    /// The message of this error.
    pub fn message(&self) -> (m: String)
        ensures
            m@ == match *self {
                SourceFormatError::SampleRate => "audio stream reports invalid sample rate: 0"@,
                SourceFormatError::Channels => "audio stream reports invalid channel count: 0"@,
            },
    {
        match self {
            SourceFormatError::SampleRate => String::from_str("audio stream reports invalid sample rate: 0"),
            SourceFormatError::Channels => String::from_str("audio stream reports invalid channel count: 0"),
        }
    }
}

} // verus!
