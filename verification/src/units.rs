//! Values tagged with a unit, optional values, and cleaned-up hardware
//! description strings.

use core::marker::PhantomData;

use vstd::prelude::*;
use vstd::std_specs::convert::FromSpecImpl;

use crate::text::{trim_text, trimmed_string};

verus! {

/// A value of type `T` tagged with the unit `Tag`.
#[derive(Debug)]
pub struct Unit<T, Tag>(pub T, pub PhantomData<Tag>);

/// An optional value, shown as `<NONE>` when absent.
#[derive(Debug)]
pub struct OptionalUnit<T>(pub Option<T>);

/// Tag of temperatures in degrees Celsius.
#[derive(Debug)]
pub struct DegreesCelsiusTag;

/// Tag of byte counts.
#[derive(Debug)]
pub struct ByteCountTag;

/// A number of bytes.
pub type ByteCount = Unit<u64, ByteCountTag>;

/// An optional number of bytes.
pub type OptionalByteCount = OptionalUnit<ByteCount>;

/// An optional description string.
pub type OptionalString = OptionalUnit<String>;

impl<T, Tag> From<T> for Unit<T, Tag> {
    fn from(value: T) -> (r: Self) {
        Unit(value, PhantomData)
    }
}

impl<T, Tag> FromSpecImpl<T> for Unit<T, Tag> {
    open spec fn obeys_from_spec() -> bool {
        true
    }

    open spec fn from_spec(v: T) -> Self {
        Unit(v, PhantomData)
    }
}

impl<T> OptionalUnit<T> {
    /// The absent value.
    pub fn none() -> (r: Self)
        ensures
            r.0 is None,
    {
        OptionalUnit(None)
    }

    /// The value, if present.
    pub fn value(&self) -> (r: &Option<T>)
        ensures
            *r == self.0,
    {
        &self.0
    }
}

/// The text that `humansize` renders for a number of bytes with binary
/// (KiB, MiB, ...) units.
pub uninterp spec fn binary_size_text(bytes: u64) -> Seq<char>;

/// Formats a byte count with `humansize::format_size` and binary units.
#[verifier::external_body]
fn format_binary_size(bytes: u64) -> (s: String)
    ensures
        s@ == binary_size_text(bytes),
{
    humansize::format_size(bytes, humansize::BINARY)
}

impl From<u32> for ByteCount {
    fn from(value: u32) -> (r: Self) {
        Unit(value as u64, PhantomData)
    }
}

impl FromSpecImpl<u32> for ByteCount {
    open spec fn obeys_from_spec() -> bool {
        true
    }

    open spec fn from_spec(v: u32) -> Self {
        Unit(v as u64, PhantomData)
    }
}

impl ByteCount {
    /// The byte count in human-readable binary units, such as `1 KiB`.
    pub fn display_text(&self) -> (s: String)
        ensures
            s@ == binary_size_text(self.0),
    {
        format_binary_size(self.0)
    }
}

impl OptionalByteCount {
    /// The text shown for the byte count: as `ByteCount::display_text`
    /// renders it, or `<NONE>` when absent.
    pub fn display_text(&self) -> (r: String)
        ensures
            r@ == match self.0 {
                Some(b) => binary_size_text(b.0),
                None => "<NONE>"@,
            },
    {
        match &self.0 {
            Some(b) => b.display_text(),
            None => String::from_str("<NONE>"),
        }
    }
}

impl From<Option<u32>> for OptionalByteCount {
    fn from(value: Option<u32>) -> (r: Self) {
        match value {
            Some(v) => OptionalUnit(Some(Unit(v as u64, PhantomData))),
            None => OptionalUnit(None),
        }
    }
}

impl FromSpecImpl<Option<u32>> for OptionalByteCount {
    open spec fn obeys_from_spec() -> bool {
        true
    }

    open spec fn from_spec(v: Option<u32>) -> Self {
        match v {
            Some(v) => OptionalUnit(Some(Unit(v as u64, PhantomData))),
            None => OptionalUnit(None),
        }
    }
}

/// Placeholder texts that firmware writes where a description is missing.
pub open spec fn is_placeholder(s: Seq<char>) -> bool {
    ||| s == "Default string"@
    ||| s == "To be filled by O.E.M."@
    ||| s == "System Product Name"@
    ||| s == "Not Specified"@
}

/// What an optional description keeps of `value`: the trimmed text, unless
/// it is empty or a firmware placeholder.
pub open spec fn cleaned_description(value: Option<Seq<char>>) -> Option<Seq<char>> {
    match value {
        None => None,
        Some(s) => {
            let t = trim_text(s);
            if t.len() == 0 || is_placeholder(t) {
                None
            } else {
                Some(t)
            }
        },
    }
}

/// The text of an optional string slice.
pub open spec fn str_text(value: Option<&str>) -> Option<Seq<char>> {
    match value {
        Some(v) => Some(v@),
        None => None,
    }
}

/// The text of an optional string.
pub open spec fn string_text(value: Option<String>) -> Option<Seq<char>> {
    match value {
        Some(v) => Some(v@),
        None => None,
    }
}

/// Whether a string holds the same text as a string slice.
fn same_text(a: &String, b: &str) -> (r: bool)
    ensures
        r == (a@ == b@),
{
    let sb = String::from_str(b);
    *a == sb
}

impl OptionalString {
    /// Builds a description from an optional text: the text is trimmed, and
    /// an empty text or a firmware placeholder counts as absent.
    pub fn from_text(value: Option<&str>) -> (r: Self)
        ensures
            r.0 matches Some(s) ==> cleaned_description(str_text(value)) == Some(s@),
            r.0 is None ==> cleaned_description(str_text(value)) is None,
    {
        match value {
            None => OptionalUnit(None),
            Some(v) => {
                let t = trimmed_string(v);
                let placeholder = same_text(&t, "Default string") || same_text(
                    &t,
                    "To be filled by O.E.M.",
                ) || same_text(&t, "System Product Name") || same_text(&t, "Not Specified");
                if placeholder || t.as_str().unicode_len() == 0 {
                    OptionalUnit(None)
                } else {
                    OptionalUnit(Some(t))
                }
            },
        }
    }
}

impl OptionalString {
    /// The text shown for the description: the text itself, or `<NONE>`
    /// when absent.
    pub fn display_text(&self) -> (r: String)
        ensures
            r@ == match self.0 {
                Some(v) => v@,
                None => "<NONE>"@,
            },
    {
        match &self.0 {
            Some(v) => v.clone(),
            None => String::from_str("<NONE>"),
        }
    }

    /// Builds a description from an optional owned text, as `from_text` does.
    pub fn from_string(value: Option<String>) -> (r: Self)
        ensures
            r.0 matches Some(s) ==> cleaned_description(string_text(value)) == Some(s@),
            r.0 is None ==> cleaned_description(string_text(value)) is None,
    {
        match &value {
            Some(v) => Self::from_text(Some(v.as_str())),
            None => Self::from_text(None),
        }
    }
}

} // verus!
