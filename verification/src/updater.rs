//! The decisions of the update checker: when to check, how long to wait,
//! what to keep of an answer, which display server runs, and the query sent.

use vstd::prelude::*;

verus! {

/// One day, in nanoseconds.
pub const NANOS_PER_DAY: i128 = 86_400_000_000_000;

/// One hour, in nanoseconds.
pub const NANOS_PER_HOUR: i128 = 3_600_000_000_000;

/// What the checker does next.
#[derive(Clone, Copy, Debug, PartialEq, Eq, Structural)]
pub enum UpdaterStep {
    /// Ask the update server now.
    Check,
    /// Sleep this many nanoseconds before looking again.
    Wait(i128),
}

/// The step at time `now` (in nanoseconds), given when the next check is
/// due: check when it is due or unknown, else wait until it is due.
pub open spec fn step_spec(now: int, next_check: Option<i128>) -> UpdaterStep {
    match next_check {
        Some(due) => if due <= now {
            UpdaterStep::Check
        } else {
            UpdaterStep::Wait((due - now) as i128)
        },
        None => UpdaterStep::Check,
    }
}

/// The step at time `now`, given when the next check is due.
pub fn next_step(now: i128, next_check: Option<i128>) -> (s: UpdaterStep)
    requires
        next_check matches Some(due) ==> due - now <= i128::MAX,
    ensures
        s == step_spec(now as int, next_check),
{
    match next_check {
        Some(due) => if due <= now {
            UpdaterStep::Check
        } else {
            UpdaterStep::Wait(due - now)
        },
        None => UpdaterStep::Check,
    }
}

/// How long to wait after a check: twenty-four days after an answer, one
/// hour after a failure.
pub open spec fn retry_delay_spec(succeeded: bool) -> int {
    if succeeded {
        24 * NANOS_PER_DAY
    } else {
        NANOS_PER_HOUR as int
    }
}

/// How long to wait after a check that succeeded or failed.
pub fn retry_delay(succeeded: bool) -> (d: i128)
    ensures
        d == retry_delay_spec(succeeded),
        d > 0,
{
    if succeeded {
        24 * NANOS_PER_DAY
    } else {
        NANOS_PER_HOUR
    }
}

/// When the next check is due after a check at `now`.
pub fn next_check_after(now: i128, succeeded: bool) -> (due: i128)
    requires
        now + retry_delay_spec(succeeded) <= i128::MAX,
    ensures
        due == now + retry_delay_spec(succeeded),
        due > now,
{
    now + retry_delay(succeeded)
}

/// The version to remember from an answer: its information, when it says an
/// update is available and gives it.
pub fn version_to_store<T>(update_available: bool, info: Option<T>) -> (r: Option<T>)
    ensures
        r == (if update_available {
            info
        } else {
            None
        }),
{
    if update_available {
        info
    } else {
        None
    }
}

/// The kind of display server of a Linux session.
#[derive(Clone, Copy, Debug, PartialEq, Eq, Structural)]
pub enum LinuxDisplay {
    /// An X11 session.
    X11,
    /// X11 clients on a Wayland session.
    XWayland,
    /// A Wayland session.
    Wayland,
}

/// The display server named by the session type, else guessed from which
/// display variables are set: Wayland's first.
pub open spec fn detect_spec(session_type: Option<Seq<char>>, wayland_display: bool, display: bool) -> Option<LinuxDisplay> {
    if session_type == Some("wayland"@) {
        Some(LinuxDisplay::Wayland)
    } else if session_type == Some("x11"@) {
        Some(LinuxDisplay::X11)
    } else if wayland_display {
        Some(LinuxDisplay::XWayland)
    } else if display {
        Some(LinuxDisplay::X11)
    } else {
        None
    }
}

/// The display server, from `XDG_SESSION_TYPE` and whether
/// `WAYLAND_DISPLAY` and `DISPLAY` are set.
pub fn detect_display(session_type: Option<String>, wayland_display: bool, display: bool) -> (r: Option<LinuxDisplay>)
    ensures
        r == detect_spec(
            match session_type {
                Some(s) => Some(s@),
                None => None,
            },
            wayland_display,
            display,
        ),
{
    let wayland = String::from_str("wayland");
    let x11 = String::from_str("x11");
    proof {
        reveal_strlit("wayland");
        reveal_strlit("x11");
    }
    assert(wayland@ =~= "wayland"@);
    assert(x11@ =~= "x11"@);
    match session_type {
        Some(s) => {
            if s == wayland {
                return Some(LinuxDisplay::Wayland);
            }
            if s == x11 {
                return Some(LinuxDisplay::X11);
            }
        },
        None => {},
    }
    if wayland_display {
        Some(LinuxDisplay::XWayland)
    } else if display {
        Some(LinuxDisplay::X11)
    } else {
        None
    }
}

/// The name of a display server in lower case.
pub open spec fn display_name(d: LinuxDisplay) -> Seq<char> {
    match d {
        LinuxDisplay::X11 => "x11"@,
        LinuxDisplay::XWayland => "xwayland"@,
        LinuxDisplay::Wayland => "wayland"@,
    }
}

impl LinuxDisplay {
    /// The name of this display server in lower case.
    pub fn to_name(&self) -> (s: String)
        ensures
            s@ == display_name(*self),
    {
        match self {
            LinuxDisplay::X11 => {
                proof {
                    reveal_strlit("x11");
                }
                String::from_str("x11")
            },
            LinuxDisplay::XWayland => {
                proof {
                    reveal_strlit("xwayland");
                }
                String::from_str("xwayland")
            },
            LinuxDisplay::Wayland => {
                proof {
                    reveal_strlit("wayland");
                }
                String::from_str("wayland")
            },
        }
    }
}

/// What the update query says of the machine and the application.
#[derive(Debug)]
pub struct QueryFacts {
    /// The application's name.
    pub app: String,
    /// The telemetry identifier, when telemetry is on.
    pub client_id: Option<String>,
    /// The release channel.
    pub app_channel: String,
    /// The application's version.
    pub app_version: String,
    /// The operating system's name.
    pub os_name: String,
    /// The distribution's identifier.
    pub os_distribution: String,
    /// The operating system's version, when known.
    pub os_version: Option<String>,
    /// The processor architecture.
    pub os_arch: String,
    /// The system locale, when known.
    pub os_locale: Option<String>,
    /// The display server, when known.
    pub os_display: Option<LinuxDisplay>,
}

/// The optional entry `key=value`.
pub open spec fn optional_entry(key: Seq<char>, value: Option<String>) -> Seq<(Seq<char>, Seq<char>)> {
    match value {
        Some(v) => seq![(key, v@)],
        None => Seq::empty(),
    }
}

/// The query of an update check, in order: the application, the telemetry
/// identifier if any, channel, version, the system's name, distribution,
/// version if known, architecture, locale (`en` when unknown), display if
/// known, then `unknown` distribution and `en` locale for the application.
pub open spec fn query_spec(f: QueryFacts) -> Seq<(Seq<char>, Seq<char>)> {
    seq![("app"@, f.app@)] + optional_entry(
        "client_id"@,
        f.client_id,
    ) + seq![
        ("app_channel"@, f.app_channel@),
        ("app_version"@, f.app_version@),
        ("os_name"@, f.os_name@),
        ("os_distribution"@, f.os_distribution@),
    ] + optional_entry("os_version"@, f.os_version) + seq![
        ("os_arch"@, f.os_arch@),
        (
            "os_locale"@,
            match f.os_locale {
                Some(l) => l@,
                None => "en"@,
            },
        ),
    ] + match f.os_display {
        Some(d) => seq![("os_display"@, display_name(d))],
        None => Seq::empty(),
    } + seq![
        (
            "app_distribution"@,
            "unknown"@,
        ),
        ("app_locale"@, "en"@),
    ]
}

/// The keys and values of a query, as texts.
pub open spec fn query_texts(q: Seq<(String, String)>) -> Seq<(Seq<char>, Seq<char>)> {
    q.map_values(|e: (String, String)| (e.0@, e.1@))
}

/// Appends the entry `key=value`.
fn push_entry(q: &mut Vec<(String, String)>, key: &str, value: String)
    ensures
        query_texts(final(q)@) == query_texts(old(q)@).push((key@, value@)),
{
    q.push((String::from_str(key), value));
    assert(query_texts(final(q)@) =~= query_texts(old(q)@).push((key@, value@)));
}

/// The query of an update check.
pub fn update_query(facts: QueryFacts) -> (q: Vec<(String, String)>)
    ensures
        query_texts(q@) == query_spec(facts),
{
    let ghost f = facts;
    let mut q: Vec<(String, String)> = Vec::new();
    let QueryFacts {
        app,
        client_id,
        app_channel,
        app_version,
        os_name,
        os_distribution,
        os_version,
        os_arch,
        os_locale,
        os_display,
    } = facts;
    proof {
        reveal_strlit("app");
        reveal_strlit("client_id");
        reveal_strlit("app_channel");
        reveal_strlit("app_version");
        reveal_strlit("os_name");
        reveal_strlit("os_distribution");
        reveal_strlit("os_version");
        reveal_strlit("os_arch");
        reveal_strlit("os_locale");
        reveal_strlit("en");
        reveal_strlit("os_display");
        reveal_strlit("app_distribution");
        reveal_strlit("unknown");
        reveal_strlit("app_locale");
    }
    push_entry(&mut q, "app", app);
    let ghost p1 = seq![("app"@, f.app@)];
    assert(query_texts(q@) =~= p1);
    match client_id {
        Some(id) => push_entry(&mut q, "client_id", id),
        None => {},
    }
    let ghost p2 = p1 + optional_entry("client_id"@, f.client_id);
    assert(query_texts(q@) =~= p2);
    push_entry(&mut q, "app_channel", app_channel);
    push_entry(&mut q, "app_version", app_version);
    push_entry(&mut q, "os_name", os_name);
    push_entry(&mut q, "os_distribution", os_distribution);
    let ghost p3 = p2 + seq![
        ("app_channel"@, f.app_channel@),
        ("app_version"@, f.app_version@),
        ("os_name"@, f.os_name@),
        ("os_distribution"@, f.os_distribution@),
    ];
    assert(query_texts(q@) =~= p3);
    match os_version {
        Some(v) => push_entry(&mut q, "os_version", v),
        None => {},
    }
    let ghost p4 = p3 + optional_entry("os_version"@, f.os_version);
    assert(query_texts(q@) =~= p4);
    push_entry(&mut q, "os_arch", os_arch);
    let locale = match os_locale {
        Some(l) => l,
        None => String::from_str("en"),
    };
    push_entry(&mut q, "os_locale", locale);
    let ghost p5 = p4 + seq![
        ("os_arch"@, f.os_arch@),
        (
            "os_locale"@,
            match f.os_locale {
                Some(l) => l@,
                None => "en"@,
            },
        ),
    ];
    assert(query_texts(q@) =~= p5);
    match os_display {
        Some(d) => push_entry(&mut q, "os_display", d.to_name()),
        None => {},
    }
    let ghost p6 = p5 + match f.os_display {
        Some(d) => seq![("os_display"@, display_name(d))],
        None => Seq::empty(),
    };
    assert(query_texts(q@) =~= p6);
    push_entry(&mut q, "app_distribution", String::from_str("unknown"));
    push_entry(&mut q, "app_locale", String::from_str("en"));
    assert(query_texts(q@) =~= query_spec(f));
    q
}

} // verus!
