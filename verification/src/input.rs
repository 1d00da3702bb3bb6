//! Directions of input events, errors of the input backends, and process
//! identifiers.

use vstd::prelude::*;
use vstd::std_specs::convert::{FromSpecImpl, TryFromSpecImpl};

verus! {

/// Whether a key or button goes down or up.
#[derive(Clone, Copy, Debug, PartialEq, Eq, Structural)]
pub enum Direction {
    /// Pressed down.
    Press,
    /// Released.
    Release,
}

impl Direction {
    /// Whether this is a press.
    pub fn is_press(&self) -> (b: bool)
        ensures
            b == (*self == Direction::Press),
    {
        match self {
            Direction::Press => true,
            Direction::Release => false,
        }
    }

    /// Whether this is a release.
    pub fn is_release(&self) -> (b: bool)
        ensures
            b == (*self == Direction::Release),
    {
        match self {
            Direction::Press => false,
            Direction::Release => true,
        }
    }
}

/// Whether a recorded mouse button went down or up.
#[derive(Clone, Copy, Debug, PartialEq, Eq, Structural)]
pub enum ButtonDirection {
    /// Went down.
    Pressed,
    /// Went up.
    Released,
}

/// A failure of the X11 connection.
#[derive(Clone, Debug, PartialEq, Eq)]
pub enum X11Error {
    /// Connecting failed, with the reason.
    ConnectError(String),
    /// The connection failed, with the reason.
    ConnectionError(String),
    /// The server answered with an error, with the reason.
    ReplyError(String),
}

/// The message of an X11 failure.
pub open spec fn x11_error_text(e: X11Error) -> Seq<char> {
    match e {
        X11Error::ConnectError(s) => "Connecting to the X11 server failed: "@ + s@,
        X11Error::ConnectionError(s) => "Connection to the X11 server failed: "@ + s@,
        X11Error::ReplyError(s) => "X11 reply error: "@ + s@,
    }
}

/// `prefix` followed by `s`.
fn prefixed(prefix: &str, s: &String) -> (r: String)
    ensures
        r@ == prefix@ + s@,
{
    let mut r = String::from_str(prefix);
    r.append(s.as_str());
    r
}

impl X11Error {
    /// The message of this failure.
    pub fn message(&self) -> (m: String)
        ensures
            m@ == x11_error_text(*self),
    {
        match self {
            X11Error::ConnectError(s) => prefixed("Connecting to the X11 server failed: ", s),
            X11Error::ConnectionError(s) => prefixed("Connection to the X11 server failed: ", s),
            X11Error::ReplyError(s) => prefixed("X11 reply error: ", s),
        }
    }
}

/// A failure of the mouse.
#[derive(Clone, Debug, PartialEq, Eq)]
pub enum MouseError {
    /// Connecting to the X11 server failed, with the reason.
    ConnectError(String),
    /// The connection to the X11 server failed, with the reason.
    ConnectionError(String),
    /// The X11 server answered with an error, with the reason.
    ReplyError(String),
    /// No master pointer device was found.
    NoMasterPointerDevice,
    /// Something unexpected happened, with the reason.
    Unexpected(String),
    /// Opening the input backend failed, with the reason.
    EnigoNewConnError(String),
    /// Sending input failed, with the reason.
    EnigoInputError(String),
    /// A parameter is invalid, with the reason.
    ParameterError(String),
}

/// The message of a mouse failure.
pub open spec fn mouse_error_text(e: MouseError) -> Seq<char> {
    match e {
        MouseError::ConnectError(s) => "Connecting to the X11 server failed: "@ + s@,
        MouseError::ConnectionError(s) => "Connection to the X11 server failed: "@ + s@,
        MouseError::ReplyError(s) => "X11 reply error: "@ + s@,
        MouseError::NoMasterPointerDevice => "Could not find master pointer device"@,
        MouseError::Unexpected(s) => "Unexpected error: "@ + s@,
        MouseError::EnigoNewConnError(s) => "Enigo new connection error: "@ + s@,
        MouseError::EnigoInputError(s) => "Enigo input error: "@ + s@,
        MouseError::ParameterError(s) => s@,
    }
}

impl MouseError {
    /// The message of this failure.
    pub fn message(&self) -> (m: String)
        ensures
            m@ == mouse_error_text(*self),
    {
        match self {
            MouseError::ConnectError(s) => prefixed("Connecting to the X11 server failed: ", s),
            MouseError::ConnectionError(s) => prefixed("Connection to the X11 server failed: ", s),
            MouseError::ReplyError(s) => prefixed("X11 reply error: ", s),
            MouseError::NoMasterPointerDevice => String::from_str("Could not find master pointer device"),
            MouseError::Unexpected(s) => prefixed("Unexpected error: ", s),
            MouseError::EnigoNewConnError(s) => prefixed("Enigo new connection error: ", s),
            MouseError::EnigoInputError(s) => prefixed("Enigo input error: ", s),
            MouseError::ParameterError(s) => s.clone(),
        }
    }
}

impl From<X11Error> for MouseError {
    fn from(value: X11Error) -> (r: MouseError) {
        match value {
            X11Error::ConnectError(s) => MouseError::ConnectError(s),
            X11Error::ConnectionError(s) => MouseError::ConnectionError(s),
            X11Error::ReplyError(s) => MouseError::ReplyError(s),
        }
    }
}

impl FromSpecImpl<X11Error> for MouseError {
    open spec fn obeys_from_spec() -> bool {
        true
    }

    open spec fn from_spec(v: X11Error) -> MouseError {
        match v {
            X11Error::ConnectError(s) => MouseError::ConnectError(s),
            X11Error::ConnectionError(s) => MouseError::ConnectionError(s),
            X11Error::ReplyError(s) => MouseError::ReplyError(s),
        }
    }
}

/// A failure of the input backend, with the backend's message.
#[derive(Clone, Debug, PartialEq, Eq)]
pub enum EnigoError {
    /// Sending input failed.
    InputError(String),
    /// Opening the backend failed.
    NewConError(String),
}

/// The message of an input backend failure: the backend's message and a
/// line feed.
pub open spec fn enigo_error_text(e: EnigoError) -> Seq<char> {
    match e {
        EnigoError::InputError(s) => s@.push('\n'),
        EnigoError::NewConError(s) => s@.push('\n'),
    }
}

impl EnigoError {
    /// The message of this failure.
    pub fn message(&self) -> (m: String)
        ensures
            m@ == enigo_error_text(*self),
    {
        let s = match self {
            EnigoError::InputError(s) => s,
            EnigoError::NewConError(s) => s,
        };
        let mut m = s.clone();
        m.append("\n");
        proof {
            reveal_strlit("\n");
        }
        assert(m@ =~= enigo_error_text(*self));
        m
    }
}

/// A process identifier, never zero.
#[derive(Clone, Copy, Debug, PartialEq, Eq, Hash)]
pub struct Pid {
    value: u32,
}

/// Why a number is not a process identifier.
#[derive(Clone, Copy, Debug, PartialEq, Eq, Structural)]
pub enum PidError {
    /// Process identifiers are never zero.
    Zero,
    /// Process identifiers are never negative; the number given.
    Negative(i32),
    /// The identifier does not fit an `i32`; the identifier.
    TooLarge(u32),
}

impl Pid {
    #[verifier::type_invariant]
    spec fn inv(&self) -> bool {
        self.value != 0
    }

    /// The number of this process identifier.
    pub closed spec fn number(&self) -> u32 {
        self.value
    }

    /// The number of this process identifier, never zero.
    pub fn get(&self) -> (v: u32)
        ensures
            v == self.number(),
            v != 0,
    {
        proof {
            use_type_invariant(self);
        }
        self.value
    }
}

impl TryFrom<u32> for Pid {
    type Error = PidError;

    fn try_from(value: u32) -> (r: Result<Pid, PidError>)
        ensures
            r is Ok <==> value != 0,
            r matches Ok(p) ==> p.number() == value,
            r matches Err(e) ==> e == PidError::Zero,
    {
        if value == 0 {
            Err(PidError::Zero)
        } else {
            Ok(Pid { value })
        }
    }
}

impl TryFromSpecImpl<u32> for Pid {
    open spec fn obeys_try_from_spec() -> bool {
        true
    }

    closed spec fn try_from_spec(v: u32) -> Result<Pid, PidError> {
        if v == 0 {
            Err(PidError::Zero)
        } else {
            Ok(Pid { value: v })
        }
    }
}

impl TryFrom<i32> for Pid {
    type Error = PidError;

    fn try_from(value: i32) -> (r: Result<Pid, PidError>)
        ensures
            r is Ok <==> value > 0,
            r matches Ok(p) ==> p.number() == value,
            value < 0 ==> r == Err::<Pid, PidError>(PidError::Negative(value)),
            value == 0 ==> r == Err::<Pid, PidError>(PidError::Zero),
    {
        if value < 0 {
            Err(PidError::Negative(value))
        } else if value == 0 {
            Err(PidError::Zero)
        } else {
            Ok(Pid { value: value as u32 })
        }
    }
}

impl TryFromSpecImpl<i32> for Pid {
    open spec fn obeys_try_from_spec() -> bool {
        true
    }

    closed spec fn try_from_spec(v: i32) -> Result<Pid, PidError> {
        if v < 0 {
            Err(PidError::Negative(v))
        } else if v == 0 {
            Err(PidError::Zero)
        } else {
            Ok(Pid { value: v as u32 })
        }
    }
}

impl From<Pid> for u32 {
    fn from(value: Pid) -> (r: u32)
        ensures
            r == value.number(),
    {
        value.value
    }
}

impl FromSpecImpl<Pid> for u32 {
    open spec fn obeys_from_spec() -> bool {
        true
    }

    closed spec fn from_spec(v: Pid) -> u32 {
        v.value
    }
}

impl TryFrom<Pid> for i32 {
    type Error = PidError;

    fn try_from(value: Pid) -> (r: Result<i32, PidError>)
        ensures
            r is Ok <==> value.number() <= i32::MAX,
            r matches Ok(v) ==> v == value.number(),
            r matches Err(e) ==> e == PidError::TooLarge(value.number()),
    {
        if value.value > i32::MAX as u32 {
            Err(PidError::TooLarge(value.value))
        } else {
            Ok(value.value as i32)
        }
    }
}

impl TryFromSpecImpl<Pid> for i32 {
    open spec fn obeys_try_from_spec() -> bool {
        true
    }

    closed spec fn try_from_spec(v: Pid) -> Result<i32, PidError> {
        if v.value > i32::MAX {
            Err(PidError::TooLarge(v.value))
        } else {
            Ok(v.value as i32)
        }
    }
}

/// The message of an invalid process identifier.
pub open spec fn pid_error_text(e: PidError) -> Seq<char> {
    match e {
        PidError::Zero => "process ID has to be non-zero"@,
        PidError::Negative(v) => "process ID cannot be negative: "@ + crate::text::signed_decimal(v as int),
        PidError::TooLarge(v) => "process ID does not fit a signed 32-bit integer: "@ + crate::text::decimal(v as nat),
    }
}

impl PidError {
    /// The message of this error.
    pub fn message(&self) -> (m: String)
        ensures
            m@ == pid_error_text(*self),
    {
        match self {
            PidError::Zero => String::from_str("process ID has to be non-zero"),
            PidError::Negative(v) => {
                let mut m = String::from_str("process ID cannot be negative: ");
                crate::text::append_signed_decimal(&mut m, *v as i64);
                m
            },
            PidError::TooLarge(v) => {
                let mut m = String::from_str("process ID does not fit a signed 32-bit integer: ");
                crate::text::append_decimal(&mut m, *v as u64);
                m
            },
        }
    }
}

} // verus!
