//! The agent session: an append-only list of messages, a step counter and a
//! status, updated by building a new value from the old one.

use crate::text::{chars_of, has_prefix, push_str, replace, replaced, same_text, starts_with,
    string_of, texts};
use vstd::prelude::*;

verus! {

/// Where a session stands in its life.
#[derive(Debug, Clone, PartialEq)]
pub enum SessionStatus {
    Idle,
    Thinking,
    AwaitingObservation,
    Completed,
    Error(String),
}

/// The mathematical value of a [`SessionStatus`].
pub enum StatusV {
    Idle,
    Thinking,
    AwaitingObservation,
    Completed,
    Error(Seq<char>),
}

impl View for SessionStatus {
    type V = StatusV;

    open spec fn view(&self) -> StatusV {
        match self {
            SessionStatus::Idle => StatusV::Idle,
            SessionStatus::Thinking => StatusV::Thinking,
            SessionStatus::AwaitingObservation => StatusV::AwaitingObservation,
            SessionStatus::Completed => StatusV::Completed,
            SessionStatus::Error(text) => StatusV::Error(text@),
        }
    }
}

/// One conversation between the runtime and the reasoner.
#[derive(Debug, Clone)]
pub struct AgentSession {
    pub id: String,
    pub messages: Vec<String>,
    pub depth: usize,
    pub status: SessionStatus,
}

/// The mathematical value of an [`AgentSession`].
pub struct SessionV {
    pub id: Seq<char>,
    pub messages: Seq<Seq<char>>,
    pub depth: nat,
    pub status: StatusV,
}

impl View for AgentSession {
    type V = SessionV;

    open spec fn view(&self) -> SessionV {
        SessionV {
            id: self.id@,
            messages: texts(self.messages@),
            depth: self.depth as nat,
            status: self.status@,
        }
    }
}

/// `uuid::Uuid::new_v4` and its `to_string`: a fresh random identifier in the
/// hyphenated form, which is 36 characters long. Nothing else holds of every
/// outcome. `new_v4` panics where the system's random source fails.
#[verifier::external_body]
pub(crate) fn fresh_id() -> (id: String)
    ensures
        id@.len() == 36,
{
    uuid::Uuid::new_v4().to_string()
}

/// What the `Debug` form of a text is: the text in double quotes, with the
/// characters escaped that `str`'s `Debug` escapes.
pub uninterp spec fn debug_text(text: Seq<char>) -> Seq<char>;

/// `format!("{:?}", text)` on a `str`. The result depends on the characters
/// of the text alone.
#[verifier::external_body]
pub(crate) fn debug_of(text: &str) -> (out: String)
    ensures
        out@ == debug_text(text@),
{
    format!("{:?}", text)
}

/// The label under which a status is stored.
pub open spec fn label_of(status: StatusV) -> Seq<char> {
    match status {
        StatusV::Idle => "Idle"@,
        StatusV::Thinking => "Thinking"@,
        StatusV::AwaitingObservation => "AwaitingObservation"@,
        StatusV::Completed => "Completed"@,
        StatusV::Error(text) => "Error("@ + debug_text(text) + ")"@,
    }
}

/// The status that a stored label stands for. A label that begins with
/// `Error` gives an error whose text is the label without `Error("` and
/// `")`; a label that is none of the known ones gives `Idle`.
pub open spec fn status_of(label: Seq<char>) -> StatusV {
    if label == "Thinking"@ {
        StatusV::Thinking
    } else if label == "AwaitingObservation"@ {
        StatusV::AwaitingObservation
    } else if label == "Completed"@ {
        StatusV::Completed
    } else if has_prefix(label, "Error"@) {
        StatusV::Error(replaced(replaced(label, "Error(\""@, ""@), "\")"@, ""@))
    } else {
        StatusV::Idle
    }
}

impl SessionStatus {
    /// The label under which this status is stored.
    pub fn label(&self) -> (out: String)
        ensures
            out@ == label_of(self@),
    {
        match self {
            SessionStatus::Idle => string_of(&chars_of("Idle")),
            SessionStatus::Thinking => string_of(&chars_of("Thinking")),
            SessionStatus::AwaitingObservation => string_of(&chars_of("AwaitingObservation")),
            SessionStatus::Completed => string_of(&chars_of("Completed")),
            SessionStatus::Error(text) => {
                let mut buf = chars_of("Error(");
                let quoted = debug_of(text.as_str());
                push_str(&mut buf, quoted.as_str());
                push_str(&mut buf, ")");
                string_of(&buf)
            },
        }
    }

    /// The status that a stored label stands for.
    pub fn from_label(label: &str) -> (out: SessionStatus)
        ensures
            out@ == status_of(label@),
    {
        let l = chars_of(label);
        if same_text(&l, &chars_of("Thinking")) {
            SessionStatus::Thinking
        } else if same_text(&l, &chars_of("AwaitingObservation")) {
            SessionStatus::AwaitingObservation
        } else if same_text(&l, &chars_of("Completed")) {
            SessionStatus::Completed
        } else if starts_with(&l, &chars_of("Error")) {
            let empty: Vec<char> = Vec::new();
            let a = replace(&l, &chars_of("Error(\""), &empty);
            let b = replace(&a, &chars_of("\")"), &empty);
            proof {
                reveal_strlit("");
                assert(empty@ =~= ""@);
            }
            SessionStatus::Error(string_of(&b))
        } else {
            SessionStatus::Idle
        }
    }

    /// Whether a session with this status is over.
    pub fn is_terminal(&self) -> (b: bool)
        ensures
            b == (self@ is Completed || self@ is Error),
    {
        match self {
            SessionStatus::Completed => true,
            SessionStatus::Error(_) => true,
            _ => false,
        }
    }
}

impl AgentSession {
    /// A new idle session at depth 0 whose only message is the prompt, under
    /// a fresh identifier.
    pub fn new(initial_prompt: String) -> (s: Self)
        ensures
            s@.messages == seq![initial_prompt@],
            s@.depth == 0,
            s@.status == StatusV::Idle,
            s@.id.len() == 36,
    {
        let mut messages: Vec<String> = Vec::new();
        messages.push(initial_prompt);
        assert(texts(messages@) =~= seq![initial_prompt@]);
        AgentSession { id: fresh_id(), messages, depth: 0, status: SessionStatus::Idle }
    }

    /// The session with `msg` appended to its messages.
    pub fn with_message(self, msg: String) -> (s: Self)
        ensures
            s@ == (SessionV { messages: self@.messages.push(msg@), ..self@ }),
    {
        let mut s = self;
        s.messages.push(msg);
        assert(texts(s.messages@) =~= self@.messages.push(msg@));
        s
    }

    /// The session one step deeper.
    pub fn with_depth_increment(self) -> (s: Self)
        requires
            self.depth < usize::MAX,
        ensures
            s@ == (SessionV { depth: self@.depth + 1, ..self@ }),
    {
        let mut s = self;
        s.depth = s.depth + 1;
        s
    }

    /// The session with its status replaced.
    pub fn with_status(self, status: SessionStatus) -> (s: Self)
        ensures
            s@ == (SessionV { status: status@, ..self@ }),
    {
        let mut s = self;
        s.status = status;
        s
    }
}

} // verus!
