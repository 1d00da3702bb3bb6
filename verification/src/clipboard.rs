//! What the clipboard functions decide: which clipboard to use, when a
//! wait for a change may start, and whether the content changed.

use vstd::prelude::*;

use crate::durations::TimeSpan;

verus! {

/// Which clipboard to use.
#[derive(Clone, Copy, Debug, PartialEq, Eq, Structural)]
pub enum ClipboardMode {
    /// The usual clipboard.
    Clipboard,
    /// The primary selection (Linux).
    Selection,
}

impl Default for ClipboardMode {
    fn default() -> (r: Self)
        ensures
            r == ClipboardMode::Clipboard,
    {
        ClipboardMode::Clipboard
    }
}

/// The clipboard to use when none is named: the usual one.
pub fn mode_or_default(mode: Option<ClipboardMode>) -> (r: ClipboardMode)
    ensures
        r == match mode {
            Some(m) => m,
            None => ClipboardMode::Clipboard,
        },
{
    match mode {
        Some(m) => m,
        None => ClipboardMode::Clipboard,
    }
}

/// The clipboard holds nothing of the asked format, or nothing at all.
#[derive(Clone, Copy, Debug, PartialEq, Eq, Structural)]
pub struct ContentNotAvailable;

impl ContentNotAvailable {
    /// The message of this error.
    pub fn message(&self) -> (m: String)
        ensures
            m@ == "content not available (incorrect format or empty clipboard)"@,
    {
        String::from_str("content not available (incorrect format or empty clipboard)")
    }
}

/// Options of waiting for the clipboard to change.
#[derive(Clone, Copy, Debug, PartialEq, Eq)]
pub struct WaitForChangedOptions {
    /// The clipboard to watch; the usual one when absent.
    pub mode: Option<ClipboardMode>,
    /// How long to sleep between two looks.
    pub interval: TimeSpan,
}

impl Default for WaitForChangedOptions {
    fn default() -> (r: Self)
        ensures
            r.mode is None,
            r.interval.total_nanos() == 200_000_000,
    {
        WaitForChangedOptions { mode: None, interval: TimeSpan::from_millis(200) }
    }
}

/// Why a wait for a clipboard change cannot start.
#[derive(Clone, Copy, Debug, PartialEq, Eq, Structural)]
pub enum WaitError {
    /// The interval between two looks is zero.
    ZeroInterval,
}

/// Checks the options of a wait: the interval must not be zero.
pub fn check_wait_options(options: &WaitForChangedOptions) -> (r: Result<(), WaitError>)
    ensures
        r is Err <==> options.interval.total_nanos() == 0,
        r matches Err(e) ==> e == WaitError::ZeroInterval,
{
    if options.interval.is_zero() {
        Err(WaitError::ZeroInterval)
    } else {
        Ok(())
    }
}

/// What the clipboard held at one look: a digest of its content, or
/// nothing.
#[derive(Clone, Copy, Debug, PartialEq, Eq, Structural)]
pub enum ClipboardSnapshot {
    /// A digest of the content.
    Hash(u64),
    /// Nothing.
    Empty,
}

/// Whether the clipboard changed between two looks.
pub fn snapshot_changed(initial: ClipboardSnapshot, current: ClipboardSnapshot) -> (b: bool)
    ensures
        b == (initial != current),
{
    match (initial, current) {
        (ClipboardSnapshot::Hash(a), ClipboardSnapshot::Hash(b)) => a != b,
        (ClipboardSnapshot::Empty, ClipboardSnapshot::Empty) => false,
        _ => true,
    }
}

} // verus!
