//! The lock kind and the access mode, and their text form.
//!
//! The text form carries a lock configuration across a process boundary,
//! for instance in a child process's environment.
use vstd::prelude::*;
use vstd::string::StringExecFns;

verus! {

/// Whether acquiring a lock may suspend the caller.
#[derive(Clone, Copy, Debug, PartialEq, Eq, Structural)]
pub enum LockKind {
    /// Return at once, with an error when the lock is held elsewhere.
    NonBlocking,
    /// Wait until the lock is granted.
    Blocking,
}

/// What the lock is taken for.
#[derive(Clone, Copy, Debug, PartialEq, Eq, Structural)]
pub enum AccessMode {
    /// A shared lock: any number of readers may hold it at once.
    Read,
    /// An exclusive lock: one writer at a time.
    Write,
}

/// A text that is not the encoding of any value; it holds a message that
/// names the rejected input.
#[derive(Clone, Debug, PartialEq, Eq)]
pub struct ParseError(pub String);

/// The text form of a lock kind.
pub open spec fn kind_text(kind: LockKind) -> Seq<char> {
    match kind {
        LockKind::NonBlocking => "nowait"@,
        LockKind::Blocking => "wait"@,
    }
}

/// The lock kind that a text encodes, if any.
pub open spec fn kind_of_text(s: Seq<char>) -> Option<LockKind> {
    if s == "nowait"@ {
        Some(LockKind::NonBlocking)
    } else if s == "wait"@ {
        Some(LockKind::Blocking)
    } else {
        None
    }
}

/// The text form of an access mode.
pub open spec fn mode_text(mode: AccessMode) -> Seq<char> {
    match mode {
        AccessMode::Read => "read"@,
        AccessMode::Write => "write"@,
    }
}

/// The access mode that a text encodes, if any.
pub open spec fn mode_of_text(s: Seq<char>) -> Option<AccessMode> {
    if s == "read"@ {
        Some(AccessMode::Read)
    } else if s == "write"@ {
        Some(AccessMode::Write)
    } else {
        None
    }
}

/// The message of the error for a text that is no lock kind.
pub open spec fn unknown_kind_message(s: Seq<char>) -> Seq<char> {
    "Unknown LockKind: "@ + s
}

/// The message of the error for a text that is no access mode.
pub open spec fn unknown_mode_message(s: Seq<char>) -> Seq<char> {
    "Unknown AccessMode: "@ + s
}

/// Whether two texts hold the same characters.
fn same_text(a: &str, b: &str) -> (r: bool)
    ensures
        r == (a@ == b@),
{
    a.to_owned() == b.to_owned()
}

/// The message for a rejected input: `prefix` followed by the input.
fn rejection(prefix: &str, input: &str) -> (r: ParseError)
    ensures
        r.0@ == prefix@ + input@,
{
    let mut message = String::from_str(prefix);
    message.append(input);
    ParseError(message)
}

impl LockKind {
    /// The text form: `"nowait"` or `"wait"`.
    pub fn as_str(&self) -> (r: &'static str)
        ensures
            r@ == kind_text(*self),
    {
        match self {
            LockKind::NonBlocking => "nowait",
            LockKind::Blocking => "wait",
        }
    }

    /// Reads the text form; any other text is rejected with a message that
    /// names it.
    pub fn from_str(input: &str) -> (r: Result<LockKind, ParseError>)
        ensures
            kind_of_text(input@) is Some ==> r == Ok::<LockKind, ParseError>(
                kind_of_text(input@)->Some_0,
            ),
            kind_of_text(input@) is None ==> r is Err && r->Err_0.0@ == unknown_kind_message(
                input@,
            ),
    {
        if same_text(input, "nowait") {
            Ok(LockKind::NonBlocking)
        } else if same_text(input, "wait") {
            Ok(LockKind::Blocking)
        } else {
            Err(rejection("Unknown LockKind: ", input))
        }
    }

    /// Whether a request of this kind waits for the lock.
    pub fn is_blocking(&self) -> (r: bool)
        ensures
            r == (*self == LockKind::Blocking),
    {
        match self {
            LockKind::NonBlocking => false,
            LockKind::Blocking => true,
        }
    }
}

impl AccessMode {
    /// The text form: `"read"` or `"write"`.
    pub fn as_str(&self) -> (r: &'static str)
        ensures
            r@ == mode_text(*self),
    {
        match self {
            AccessMode::Read => "read",
            AccessMode::Write => "write",
        }
    }

    /// Reads the text form; any other text is rejected with a message that
    /// names it.
    pub fn from_str(input: &str) -> (r: Result<AccessMode, ParseError>)
        ensures
            mode_of_text(input@) is Some ==> r == Ok::<AccessMode, ParseError>(
                mode_of_text(input@)->Some_0,
            ),
            mode_of_text(input@) is None ==> r is Err && r->Err_0.0@ == unknown_mode_message(
                input@,
            ),
    {
        if same_text(input, "read") {
            Ok(AccessMode::Read)
        } else if same_text(input, "write") {
            Ok(AccessMode::Write)
        } else {
            Err(rejection("Unknown AccessMode: ", input))
        }
    }

    /// Whether a lock in this mode is shared with other readers.
    pub fn is_read(&self) -> (r: bool)
        ensures
            r == (*self == AccessMode::Read),
    {
        match self {
            AccessMode::Read => true,
            AccessMode::Write => false,
        }
    }

    /// Whether a lock in this mode excludes every other holder.
    pub fn is_exclusive(&self) -> (r: bool)
        ensures
            r == (*self == AccessMode::Write),
    {
        match self {
            AccessMode::Read => false,
            AccessMode::Write => true,
        }
    }
}

impl ParseError {
    /// The message, which names the rejected input.
    pub fn message(&self) -> (r: &str)
        ensures
            r@ == self.0@,
    {
        self.0.as_str()
    }
}

impl AsRef<str> for LockKind {
    fn as_ref(&self) -> &str {
        self.as_str()
    }
}

impl AsRef<str> for AccessMode {
    fn as_ref(&self) -> &str {
        self.as_str()
    }
}

impl std::str::FromStr for LockKind {
    type Err = ParseError;

    fn from_str(input: &str) -> Result<LockKind, ParseError> {
        LockKind::from_str(input)
    }
}

impl std::str::FromStr for AccessMode {
    type Err = ParseError;

    fn from_str(input: &str) -> Result<AccessMode, ParseError> {
        AccessMode::from_str(input)
    }
}

/// Decoding the text form of a lock kind gives that lock kind back.
pub proof fn lemma_kind_round_trip(kind: LockKind)
    ensures
        kind_of_text(kind_text(kind)) == Some(kind),
{
    reveal_strlit("nowait");
    reveal_strlit("wait");
    assert("nowait"@.len() != "wait"@.len());
}

/// Decoding the text form of an access mode gives that access mode back.
pub proof fn lemma_mode_round_trip(mode: AccessMode)
    ensures
        mode_of_text(mode_text(mode)) == Some(mode),
{
    reveal_strlit("read");
    reveal_strlit("write");
    assert("read"@.len() != "write"@.len());
}

/// A text decodes to a lock kind exactly when it is that kind's text form;
/// every other text is rejected.
pub proof fn lemma_kind_text_exact(s: Seq<char>)
    ensures
        kind_of_text(s) is Some ==> kind_text(kind_of_text(s)->Some_0) == s,
        kind_of_text(s) is None <==> (s != kind_text(LockKind::NonBlocking) && s != kind_text(
            LockKind::Blocking,
        )),
{
}

/// A text decodes to an access mode exactly when it is that mode's text
/// form; every other text is rejected.
pub proof fn lemma_mode_text_exact(s: Seq<char>)
    ensures
        mode_of_text(s) is Some ==> mode_text(mode_of_text(s)->Some_0) == s,
        mode_of_text(s) is None <==> (s != mode_text(AccessMode::Read) && s != mode_text(
            AccessMode::Write,
        )),
{
}

} // verus!
