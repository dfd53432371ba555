//! Failure kinds, diagnostic texts and the integer status convention.

use vstd::prelude::*;
use vstd::string::*;

verus! {

/// Why an operation failed.
#[derive(Clone, Copy, Debug, PartialEq, Eq, Structural)]
pub enum ErrorKind {
    /// An absent handle or argument: the call was refused before any work.
    PreconditionViolation,
    /// The system could not allocate a session.
    Allocation,
    /// The process could not be created.
    Spawn,
    /// The controller could not yield another stream.
    Clone,
    /// The controller's writer was handed out before.
    AlreadyTaken,
    /// A read, a write or a resize failed on the conduit.
    Io,
    /// Waiting on or polling the child failed.
    Wait,
    /// The termination request could not be delivered.
    Kill,
    /// The operation ended abnormally inside the boundary.
    InternalFault,
}

/// The operations of the boundary, as an abnormal end names them.
#[derive(Clone, Copy, Debug, PartialEq, Eq, Structural)]
pub enum Operation {
    OpenAndSpawn,
    GetReader,
    GetWriter,
    Read,
    Write,
    Resize,
    ChildWait,
    ChildKill,
    ChildIsAlive,
    ChildTryWait,
}

impl Operation {
    /// The name under which the operation is reported.
    pub open spec fn name(self) -> Seq<char> {
        match self {
            Operation::OpenAndSpawn => "pty_open_and_spawn"@,
            Operation::GetReader => "pty_get_reader"@,
            Operation::GetWriter => "pty_get_writer"@,
            Operation::Read => "pty_read"@,
            Operation::Write => "pty_write"@,
            Operation::Resize => "pty_resize"@,
            Operation::ChildWait => "pty_child_wait"@,
            Operation::ChildKill => "pty_child_kill"@,
            Operation::ChildIsAlive => "pty_child_is_alive"@,
            Operation::ChildTryWait => "pty_child_try_wait"@,
        }
    }

    /// The operation's name as a string.
    pub fn label(self) -> (s: &'static str)
        ensures
            s@ == self.name(),
            !has_nul(s@),
    {
        proof {
            reveal_strlit("pty_open_and_spawn");
            reveal_strlit("pty_get_reader");
            reveal_strlit("pty_get_writer");
            reveal_strlit("pty_read");
            reveal_strlit("pty_write");
            reveal_strlit("pty_resize");
            reveal_strlit("pty_child_wait");
            reveal_strlit("pty_child_kill");
            reveal_strlit("pty_child_is_alive");
            reveal_strlit("pty_child_try_wait");
        }
        match self {
            Operation::OpenAndSpawn => "pty_open_and_spawn",
            Operation::GetReader => "pty_get_reader",
            Operation::GetWriter => "pty_get_writer",
            Operation::Read => "pty_read",
            Operation::Write => "pty_write",
            Operation::Resize => "pty_resize",
            Operation::ChildWait => "pty_child_wait",
            Operation::ChildKill => "pty_child_kill",
            Operation::ChildIsAlive => "pty_child_is_alive",
            Operation::ChildTryWait => "pty_child_try_wait",
        }
    }
}

/// Whether `text` holds a NUL character.
pub open spec fn has_nul(text: Seq<char>) -> bool {
    exists|i: int| 0 <= i < text.len() && text[i] == '\0'
}

/// The text that stands for `raw` in a diagnostic: `raw` itself, or
/// `fallback` where `raw` could not end in a single NUL terminator.
pub open spec fn sanitized(raw: Seq<char>, fallback: Seq<char>) -> Seq<char> {
    if has_nul(raw) {
        fallback
    } else {
        raw
    }
}

/// Decides whether a string holds a NUL character.
pub fn contains_nul(s: &str) -> (found: bool)
    ensures
        found == has_nul(s@),
{
    let mut found = false;
    for c in it: s.chars()
        invariant
            it.seq() == s@,
            found == exists|i: int| 0 <= i < it.index() && s@[i] == '\0',
    {
        if c == '\0' {
            found = true;
        }
    }
    found
}

/// A diagnostic text that can end in a single NUL terminator: it holds no NUL
/// character of its own.
#[derive(Debug)]
pub struct ErrorMessage {
    text: String,
}

impl View for ErrorMessage {
    type V = Seq<char>;

    closed spec fn view(&self) -> Seq<char> {
        self.text@
    }
}

impl ErrorMessage {
    #[verifier::type_invariant]
    spec fn terminates_once(self) -> bool {
        !has_nul(self.text@)
    }

    /// Keeps `raw` as the diagnostic, or `fallback` where `raw` holds a NUL.
    pub fn new(raw: String, fallback: ErrorMessage) -> (m: ErrorMessage)
        ensures
            m@ == sanitized(raw@, fallback@),
            !has_nul(m@),
    {
        proof {
            use_type_invariant(&fallback);
        }
        if contains_nul(raw.as_str()) {
            fallback
        } else {
            ErrorMessage { text: raw }
        }
    }

    /// The text, borrowed.
    pub fn as_str(&self) -> (s: &str)
        ensures
            s@ == self@,
            !has_nul(s@),
    {
        proof {
            use_type_invariant(self);
        }
        self.text.as_str()
    }

    /// The text, owned.
    pub fn into_string(self) -> (s: String)
        ensures
            s@ == self@,
            !has_nul(s@),
    {
        proof {
            use_type_invariant(&self);
        }
        self.text
    }
}

/// The text used where a failure's own text is not known.
pub open spec fn unknown_text() -> Seq<char> {
    "Unknown error"@
}

/// The text used where a session could not be opened.
pub open spec fn open_text() -> Seq<char> {
    "Failed to open PTY"@
}

/// The text used where a process could not be created.
pub open spec fn spawn_text() -> Seq<char> {
    "Failed to spawn command"@
}

/// The text reported for an absent program or result slot.
pub open spec fn absent_text() -> Seq<char> {
    "Null pointer provided"@
}

/// The text reported where a controller's writer was handed out before.
pub open spec fn taken_text() -> Seq<char> {
    "cannot take writer more than once"@
}

/// The text that opens the diagnostic of an abnormal end.
pub open spec fn fault_prefix() -> Seq<char> {
    "internal fault in "@
}

/// A concatenation holds a NUL only where one of its parts does.
pub proof fn lemma_has_nul_concat(a: Seq<char>, b: Seq<char>)
    ensures
        has_nul(a + b) == (has_nul(a) || has_nul(b)),
{
    if has_nul(a + b) {
        let i = choose|i: int| 0 <= i < (a + b).len() && (a + b)[i] == '\0';
        if i < a.len() {
            assert(a[i] == '\0');
        } else {
            assert(b[i - a.len()] == '\0');
        }
    }
    if has_nul(a) {
        let i = choose|i: int| 0 <= i < a.len() && a[i] == '\0';
        assert((a + b)[i] == '\0');
    }
    if has_nul(b) {
        let i = choose|i: int| 0 <= i < b.len() && b[i] == '\0';
        assert((a + b)[a.len() + i] == '\0');
    }
}

impl ErrorMessage {
    /// The diagnostic [`unknown_text`].
    pub fn unknown() -> (m: ErrorMessage)
        ensures
            m@ == unknown_text(),
    {
        proof {
            reveal_strlit("Unknown error");
        }
        let text = "Unknown error".to_owned();
        assert(!has_nul(text@));
        ErrorMessage { text }
    }

    /// The diagnostic [`open_text`].
    pub fn open_failed() -> (m: ErrorMessage)
        ensures
            m@ == open_text(),
    {
        proof {
            reveal_strlit("Failed to open PTY");
        }
        let text = "Failed to open PTY".to_owned();
        assert(!has_nul(text@));
        ErrorMessage { text }
    }

    /// The diagnostic [`spawn_text`].
    pub fn spawn_failed() -> (m: ErrorMessage)
        ensures
            m@ == spawn_text(),
    {
        proof {
            reveal_strlit("Failed to spawn command");
        }
        let text = "Failed to spawn command".to_owned();
        assert(!has_nul(text@));
        ErrorMessage { text }
    }

    /// The diagnostic [`absent_text`].
    pub fn absent() -> (m: ErrorMessage)
        ensures
            m@ == absent_text(),
    {
        proof {
            reveal_strlit("Null pointer provided");
        }
        let text = "Null pointer provided".to_owned();
        assert(!has_nul(text@));
        ErrorMessage { text }
    }

    /// The diagnostic [`taken_text`].
    pub fn writer_taken() -> (m: ErrorMessage)
        ensures
            m@ == taken_text(),
    {
        proof {
            reveal_strlit("cannot take writer more than once");
        }
        let text = "cannot take writer more than once".to_owned();
        assert(!has_nul(text@));
        ErrorMessage { text }
    }

    /// The diagnostic of an abnormal end inside `op`: [`fault_prefix`]
    /// followed by the operation's name.
    pub fn fault(op: Operation) -> (m: ErrorMessage)
        ensures
            m@ == fault_prefix() + op.name(),
    {
        proof {
            reveal_strlit("internal fault in ");
        }
        let mut text = "internal fault in ".to_owned();
        let name = op.label();
        proof {
            lemma_has_nul_concat(text@, name@);
        }
        text.append(name);
        ErrorMessage { text }
    }
}

/// A failed operation: its kind, and a diagnostic where there is one.
#[derive(Debug)]
pub struct Failure {
    pub kind: ErrorKind,
    pub message: Option<ErrorMessage>,
}

/// A failure as a plain value.
pub struct FailureView {
    pub kind: ErrorKind,
    pub message: Option<Seq<char>>,
}

impl View for Failure {
    type V = FailureView;

    open spec fn view(&self) -> FailureView {
        FailureView {
            kind: self.kind,
            message: match self.message {
                Some(m) => Some(m@),
                None => None,
            },
        }
    }
}

impl Failure {
    /// The refusal of a call on an absent handle: no work, no diagnostic.
    pub fn refused() -> (f: Failure)
        ensures
            f@ == refusal(),
    {
        Failure { kind: ErrorKind::PreconditionViolation, message: None }
    }

    /// The refusal of a call that lacks its program or a result slot.
    pub fn absent_argument() -> (f: Failure)
        ensures
            f@ == absence(),
    {
        Failure { kind: ErrorKind::PreconditionViolation, message: Some(ErrorMessage::absent()) }
    }

    /// A failure of `kind` that the underlying primitive described as `raw`.
    pub fn reported(kind: ErrorKind, raw: String, fallback: ErrorMessage) -> (f: Failure)
        ensures
            f@ == (FailureView { kind, message: Some(sanitized(raw@, fallback@)) }),
    {
        Failure { kind, message: Some(ErrorMessage::new(raw, fallback)) }
    }

    /// A failure of `kind` without a diagnostic.
    pub fn silent(kind: ErrorKind) -> (f: Failure)
        ensures
            f@ == (FailureView { kind, message: None }),
    {
        Failure { kind, message: None }
    }

    /// The refusal to hand out a controller's writer a second time.
    pub fn already_taken() -> (f: Failure)
        ensures
            f@ == taken_failure(),
    {
        Failure { kind: ErrorKind::AlreadyTaken, message: Some(ErrorMessage::writer_taken()) }
    }

    /// The failure that stands for an abnormal end inside `op`.
    pub fn internal_fault(op: Operation) -> (f: Failure)
        ensures
            f@ == (FailureView {
                kind: ErrorKind::InternalFault,
                message: Some(fault_prefix() + op.name()),
            }),
    {
        Failure { kind: ErrorKind::InternalFault, message: Some(ErrorMessage::fault(op)) }
    }
}

/// The status of an operation that succeeded.
pub const STATUS_OK: i32 = 0;

/// The status of an operation that failed.
pub const STATUS_FAILED: i32 = -1;

/// The status of a poll that found the process still running.
pub const STATUS_RUNNING: i32 = 1;

/// The status that stands for `outcome`: zero for success, negative for
/// failure.
pub open spec fn spec_status_code<T>(outcome: Result<T, Failure>) -> int {
    if outcome is Ok {
        0
    } else {
        -1
    }
}

/// The integer status of an outcome.
pub fn status_code<T>(outcome: &Result<T, Failure>) -> (code: i32)
    ensures
        code == spec_status_code(*outcome),
{
    match outcome {
        Ok(_) => STATUS_OK,
        Err(_) => STATUS_FAILED,
    }
}

/// The count that stands for a transfer: the bytes moved, or -1 for failure.
pub open spec fn spec_transfer_code(outcome: Result<usize, Failure>) -> int {
    match outcome {
        Ok(n) => n as int,
        Err(_) => -1,
    }
}

/// The signed count of a transfer.
pub fn transfer_code(outcome: &Result<usize, Failure>) -> (code: isize)
    requires
        outcome matches Ok(n) ==> n <= isize::MAX,
    ensures
        code == spec_transfer_code(*outcome),
{
    match outcome {
        Ok(n) => *n as isize,
        Err(_) => -1,
    }
}

/// The refusal of a call on an absent handle, as a plain value.
pub open spec fn refusal() -> FailureView {
    FailureView { kind: ErrorKind::PreconditionViolation, message: None }
}

/// The refusal of a call that lacks its program, as a plain value.
pub open spec fn absence() -> FailureView {
    FailureView { kind: ErrorKind::PreconditionViolation, message: Some(absent_text()) }
}

/// The refusal to hand out a writer a second time, as a plain value.
pub open spec fn taken_failure() -> FailureView {
    FailureView { kind: ErrorKind::AlreadyTaken, message: Some(taken_text()) }
}

/// A failure as the caller sees it, the value of a success left as it is.
pub open spec fn outcome_view<T>(outcome: Result<T, Failure>) -> Result<T, FailureView> {
    match outcome {
        Ok(v) => Ok(v),
        Err(f) => Err(f@),
    }
}

/// Whether `outcome` is the failure `f`.
pub open spec fn fails_with<T>(outcome: Result<T, Failure>, f: FailureView) -> bool {
    match outcome {
        Ok(_) => false,
        Err(g) => g@ == f,
    }
}

/// What a primitive answered, its error as a text.
pub open spec fn reply_view<T>(reply: Result<T, String>) -> Result<T, Seq<char>> {
    match reply {
        Ok(v) => Ok(v),
        Err(text) => Err(text@),
    }
}

/// The failure of `kind` that stands for an error text of a primitive.
pub open spec fn reported_view(kind: ErrorKind, raw: Seq<char>, fallback: Seq<char>) -> FailureView {
    FailureView { kind, message: Some(sanitized(raw, fallback)) }
}

/// Whether `f` is a failure of `kind` that stands for some error text.
pub open spec fn reports(f: FailureView, kind: ErrorKind, fallback: Seq<char>) -> bool {
    exists|raw: Seq<char>| f == reported_view(kind, raw, fallback)
}

/// The outcome that stands for a primitive's answer: its value, or the
/// failure of `kind` that carries its error text.
pub open spec fn settled<T>(reply: Result<T, Seq<char>>, kind: ErrorKind, fallback: Seq<char>) -> Result<
    T,
    FailureView,
> {
    match reply {
        Ok(v) => Ok(v),
        Err(raw) => Err(reported_view(kind, raw, fallback)),
    }
}

/// Turns a primitive's answer into an outcome.
pub fn settle<T>(reply: Result<T, String>, kind: ErrorKind, fallback: ErrorMessage) -> (outcome:
    Result<T, Failure>)
    ensures
        outcome_view(outcome) == settled(reply_view(reply), kind, fallback@),
        outcome matches Err(f) ==> reports(f@, kind, fallback@),
{
    match reply {
        Ok(v) => Ok(v),
        Err(raw) => {
            let f = Failure::reported(kind, raw, fallback);
            assert(f@ == reported_view(kind, raw@, fallback@));
            Err(f)
        },
    }
}

} // verus!
