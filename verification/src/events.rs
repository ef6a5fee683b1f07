//! Impulses come in from outside; directives are what the runtime makes of
//! them.

use crate::json::{object1, object2, text_array, Json, JsonV};
use crate::text::{copy_str, str_eq, texts};
use vstd::prelude::*;

verus! {

/// An event admitted to the runtime.
#[derive(Debug, Clone, PartialEq)]
pub enum Impulse {
    InitiateSession(String),
    ThinkStep(String),
    Observation(String, String),
    FileSystemEvent(Vec<String>),
    SwarmSignal(u64, String),
    BootstrapSkills,
    JanitorWakeup,
    SystemInterrupt,
    Error(String),
}

/// The mathematical value of an [`Impulse`].
pub enum ImpulseV {
    InitiateSession(Seq<char>),
    ThinkStep(Seq<char>),
    Observation(Seq<char>, Seq<char>),
    FileSystemEvent(Seq<Seq<char>>),
    SwarmSignal(u64, Seq<char>),
    BootstrapSkills,
    JanitorWakeup,
    SystemInterrupt,
    Error(Seq<char>),
}

impl View for Impulse {
    type V = ImpulseV;

    open spec fn view(&self) -> ImpulseV {
        match self {
            Impulse::InitiateSession(prompt) => ImpulseV::InitiateSession(prompt@),
            Impulse::ThinkStep(id) => ImpulseV::ThinkStep(id@),
            Impulse::Observation(id, text) => ImpulseV::Observation(id@, text@),
            Impulse::FileSystemEvent(paths) => ImpulseV::FileSystemEvent(texts(paths@)),
            Impulse::SwarmSignal(worker, status) => ImpulseV::SwarmSignal(*worker, status@),
            Impulse::BootstrapSkills => ImpulseV::BootstrapSkills,
            Impulse::JanitorWakeup => ImpulseV::JanitorWakeup,
            Impulse::SystemInterrupt => ImpulseV::SystemInterrupt,
            Impulse::Error(message) => ImpulseV::Error(message@),
        }
    }
}

/// A typed request with its payload, routed by its type name.
#[derive(Debug, Clone, PartialEq)]
pub struct Directive {
    pub kind: String,
    pub payload: Json,
}

/// The mathematical value of a [`Directive`].
pub struct DirectiveV {
    pub kind: Seq<char>,
    pub payload: JsonV,
}

impl View for Directive {
    type V = DirectiveV;

    open spec fn view(&self) -> DirectiveV {
        DirectiveV { kind: self.kind@, payload: self.payload@ }
    }
}

/// The values of a list of directives.
pub open spec fn directive_views(list: Seq<Directive>) -> Seq<DirectiveV> {
    list.map_values(|d: Directive| d@)
}

impl Directive {
    pub fn new(kind: &str, payload: Json) -> (out: Self)
        ensures
            out@ == (DirectiveV { kind: kind@, payload: payload@ }),
    {
        Directive { kind: copy_str(kind), payload }
    }

    /// Whether this directive asks the loop to stop.
    pub fn is_shutdown(&self) -> (b: bool)
        ensures
            b == (self@.kind == "shutdown"@),
    {
        str_eq(self.kind.as_str(), "shutdown")
    }
}

/// The directives that an impulse becomes. The three session impulses give
/// one directive each; a file system event gives one batch with all its
/// paths; a worker's signal gives none.
pub open spec fn directives_of(impulse: ImpulseV) -> Seq<DirectiveV> {
    match impulse {
        ImpulseV::InitiateSession(prompt) => seq![
            DirectiveV {
                kind: "initiate_session"@,
                payload: object1("input"@, JsonV::Text(prompt)),
            },
        ],
        ImpulseV::ThinkStep(id) => seq![
            DirectiveV { kind: "think"@, payload: object1("session_id"@, JsonV::Text(id)) },
        ],
        ImpulseV::Observation(id, text) => seq![
            DirectiveV {
                kind: "observe"@,
                payload: object2(
                    "observation"@,
                    JsonV::Text(text),
                    "session_id"@,
                    JsonV::Text(id),
                ),
            },
        ],
        ImpulseV::FileSystemEvent(paths) => seq![
            DirectiveV { kind: "fs_batch"@, payload: object1("paths"@, text_array(paths)) },
        ],
        ImpulseV::SwarmSignal(_, _) => seq![],
        ImpulseV::BootstrapSkills => seq![
            DirectiveV { kind: "bootstrap_skills"@, payload: JsonV::Object(Seq::empty()) },
        ],
        ImpulseV::JanitorWakeup => seq![
            DirectiveV { kind: "maintenance"@, payload: JsonV::Object(Seq::empty()) },
        ],
        ImpulseV::SystemInterrupt => seq![
            DirectiveV { kind: "shutdown"@, payload: JsonV::Object(Seq::empty()) },
        ],
        ImpulseV::Error(message) => seq![
            DirectiveV { kind: "error"@, payload: object1("message"@, JsonV::Text(message)) },
        ],
    }
}

fn one(kind: &str, payload: Json) -> (out: Vec<Directive>)
    ensures
        directive_views(out@) == seq![DirectiveV { kind: kind@, payload: payload@ }],
{
    let mut out: Vec<Directive> = Vec::new();
    out.push(Directive::new(kind, payload));
    assert(directive_views(out@) =~= seq![
        DirectiveV { kind: kind@, payload: payload@ },
    ]);
    out
}

/// Turns an impulse into its directives, in order.
pub fn route_impulse(impulse: Impulse) -> (out: Vec<Directive>)
    ensures
        directive_views(out@) == directives_of(impulse@),
{
    match impulse {
        Impulse::InitiateSession(prompt) => one(
            "initiate_session",
            Json::object_of("input", Json::Text(prompt)),
        ),
        Impulse::ThinkStep(id) => one("think", Json::object_of("session_id", Json::Text(id))),
        Impulse::Observation(id, text) => one(
            "observe",
            Json::object_of2("observation", Json::Text(text), "session_id", Json::Text(id)),
        ),
        Impulse::FileSystemEvent(paths) => one(
            "fs_batch",
            Json::object_of("paths", Json::strings(&paths)),
        ),
        Impulse::SwarmSignal(_, _) => {
            let out: Vec<Directive> = Vec::new();
            assert(directive_views(out@) =~= Seq::<DirectiveV>::empty());
            out
        },
        Impulse::BootstrapSkills => one("bootstrap_skills", Json::empty_object()),
        Impulse::JanitorWakeup => one("maintenance", Json::empty_object()),
        Impulse::SystemInterrupt => one("shutdown", Json::empty_object()),
        Impulse::Error(message) => one("error", Json::object_of("message", Json::Text(message))),
    }
}

/// Whether a list of directives holds one that asks the loop to stop.
pub open spec fn asks_shutdown(list: Seq<DirectiveV>) -> bool {
    exists|i: int| 0 <= i < list.len() && (#[trigger] list[i]).kind == "shutdown"@
}

/// Whether the loop stops once these directives are handled.
pub fn should_shutdown(list: &Vec<Directive>) -> (b: bool)
    ensures
        b == asks_shutdown(directive_views(list@)),
{
    let mut i: usize = 0;
    while i < list.len()
        invariant
            i <= list.len(),
            forall|k: int|
                0 <= k < i ==> (#[trigger] directive_views(list@)[k]).kind != "shutdown"@,
        decreases list.len() - i,
    {
        if list[i].is_shutdown() {
            assert(directive_views(list@)[i as int].kind == "shutdown"@);
            return true;
        }
        i += 1;
    }
    false
}

/// An event outside the runtime, as a plain value.
#[derive(Debug, Clone)]
pub enum ImpulseValue {
    UserInput(String),
    FileChange(String),
    SystemSignal(String),
}

/// A decided action, as a plain value.
#[derive(Debug, Clone)]
pub enum ActionValue {
    Think(String),
    Index(String),
    Notify(String),
}

} // verus!
