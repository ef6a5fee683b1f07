//! The directive bus: a registry of handlers by directive name, the record
//! that every dispatch leaves in the event log, and what each of the
//! runtime's own handlers does with its payload.

use crate::events::{Directive, DirectiveV};
use crate::json::{field, object1, text_or_empty, values, Json, JsonV};
use crate::text::{chars_of, copy_str, push_str, str_eq, string_of, texts};
use vstd::prelude::*;

verus! {

/// The table that a list of registrations stands for: each name maps to the
/// handler registered last under it.
pub open spec fn table<H>(entries: Seq<(String, H)>) -> Map<Seq<char>, H>
    decreases entries.len(),
{
    if entries.len() == 0 {
        Map::empty()
    } else {
        table(entries.drop_last()).insert(entries.last().0@, entries.last().1)
    }
}

/// A registry of handlers, by the name of the directive they handle.
pub struct DirectiveBus<H> {
    handlers: Vec<(String, H)>,
}

/// Why a dispatch found nothing to call.
#[derive(Debug, Clone, PartialEq)]
pub enum BusError {
    NoHandler { name: String },
}

impl BusError {
    /// The text of the error.
    pub fn message(&self) -> (out: String)
        ensures
            out@ == "No handler registered for directive: "@ + self->name@,
    {
        match self {
            BusError::NoHandler { name } => {
                let mut buf = chars_of("No handler registered for directive: ");
                push_str(&mut buf, name.as_str());
                string_of(&buf)
            },
        }
    }
}

impl<H> View for DirectiveBus<H> {
    type V = Map<Seq<char>, H>;

    closed spec fn view(&self) -> Map<Seq<char>, H> {
        table(self.handlers@)
    }
}

impl<H> DirectiveBus<H> {
    /// A bus without handlers.
    pub fn new() -> (bus: Self)
        ensures
            bus@ == Map::<Seq<char>, H>::empty(),
    {
        DirectiveBus { handlers: Vec::new() }
    }

    /// Registers `handler` under `name`, in place of what was there.
    pub fn register(&mut self, name: &str, handler: H)
        ensures
            final(self)@ == old(self)@.insert(name@, handler),
    {
        let ghost before = self.handlers@;
        self.handlers.push((copy_str(name), handler));
        assert(self.handlers@.drop_last() =~= before);
    }

    /// The handler registered under `name`.
    pub fn dispatch(&self, name: &str) -> (out: Result<&H, BusError>)
        ensures
            match out {
                Ok(h) => self@.contains_key(name@) && *h == self@[name@],
                Err(e) => !self@.contains_key(name@) && e->name@ == name@,
            },
    {
        let mut i: usize = self.handlers.len();
        assert(self.handlers@.take(i as int) =~= self.handlers@);
        while i > 0
            invariant
                i <= self.handlers.len(),
                self@.contains_key(name@) == table(self.handlers@.take(i as int)).contains_key(
                    name@,
                ),
                self@.contains_key(name@) ==> self@[name@] == table(
                    self.handlers@.take(i as int),
                )[name@],
            decreases i,
        {
            i -= 1;
            assert(self.handlers@.take(i + 1).drop_last() =~= self.handlers@.take(i as int));
            assert(self.handlers@.take(i + 1).last() == self.handlers@[i as int]);
            if str_eq(self.handlers[i].0.as_str(), name) {
                return Ok(&self.handlers[i].1);
            }
        }
        Err(BusError::NoHandler { name: copy_str(name) })
    }
}

/// What is to be appended to the event log: the operation and its data.
#[derive(Debug, Clone, PartialEq)]
pub struct EventDraft {
    pub op: String,
    pub data: Json,
}

/// The mathematical value of an [`EventDraft`].
pub struct RecordV {
    pub op: Seq<char>,
    pub data: JsonV,
}

impl View for EventDraft {
    type V = RecordV;

    open spec fn view(&self) -> RecordV {
        RecordV { op: self.op@, data: self.data@ }
    }
}

/// The values of a list of records.
pub open spec fn record_views(list: Seq<EventDraft>) -> Seq<RecordV> {
    list.map_values(|r: EventDraft| r@)
}

/// The record of the dispatch of a directive: `EXEC:` and the directive's
/// name, with the payload as data.
pub open spec fn exec_record(d: DirectiveV) -> RecordV {
    RecordV { op: "EXEC:"@ + d.kind, data: d.payload }
}

/// The record of a failed dispatch: `ERROR:` and the directive's name, with
/// the error's text as data.
pub open spec fn error_record(d: DirectiveV, message: Seq<char>) -> RecordV {
    RecordV { op: "ERROR:"@ + d.kind, data: object1("error"@, JsonV::Text(message)) }
}

/// The record of a dispatch and the handler to call.
pub struct Interpretation<'a, H> {
    /// The record to append before the handler is called.
    pub record: EventDraft,
    /// The handler to call after that, or why there is none.
    pub handler: Result<&'a H, BusError>,
}

/// Looks up the handler of a directive and writes the record of the
/// dispatch: `EXEC:` and the directive's name, with the payload as data. The
/// record comes first, whether or not a handler is found.
pub fn interpret<'a, H>(bus: &'a DirectiveBus<H>, directive: &Directive) -> (out: Interpretation<
    'a,
    H,
>)
    ensures
        out.record@ == exec_record(directive@),
        match out.handler {
            Ok(h) => bus@.contains_key(directive@.kind) && *h == bus@[directive@.kind],
            Err(e) => !bus@.contains_key(directive@.kind) && e->name@ == directive@.kind,
        },
{
    let mut op = chars_of("EXEC:");
    push_str(&mut op, directive.kind.as_str());
    Interpretation {
        record: EventDraft { op: string_of(&op), data: directive.payload.duplicate() },
        handler: bus.dispatch(directive.kind.as_str()),
    }
}

/// The record that follows a dispatch: none where it succeeded; where it
/// failed, `ERROR:` and the directive's name, with the error's text as data.
pub fn conclude(directive: &Directive, outcome: &Result<(), String>) -> (out: Option<EventDraft>)
    ensures
        match (outcome, out) {
            (Ok(_), None) => true,
            (Err(message), Some(record)) => record@ == error_record(directive@, message@),
            _ => false,
        },
{
    match outcome {
        Ok(_) => None,
        Err(message) => {
            let mut op = chars_of("ERROR:");
            push_str(&mut op, directive.kind.as_str());
            Some(
                EventDraft {
                    op: string_of(&op),
                    data: Json::object_of("error", Json::Text(message.clone())),
                },
            )
        },
    }
}

/// What a dispatch adds to the event log, given how it ended: the record of
/// the dispatch, and behind it the record of the failure if it failed.
pub open spec fn dispatch_records(d: DirectiveV, outcome: Result<(), Seq<char>>) -> Seq<RecordV> {
    match outcome {
        Ok(_) => seq![exec_record(d)],
        Err(message) => seq![exec_record(d), error_record(d, message)],
    }
}

/// The value of the outcome of a dispatch.
pub open spec fn outcome_view(outcome: Result<(), String>) -> Result<(), Seq<char>> {
    match outcome {
        Ok(_) => Ok(()),
        Err(message) => Err(message@),
    }
}

/// Dispatches a directive to its handler and keeps the event log: the
/// record of the dispatch is appended first; then the handler is called,
/// with the payload and with the log as it stands, so that a handler can
/// only ever run once its dispatch is on record; and where the handler
/// fails, or there is none, the record of the failure is appended.
pub fn run_directive<H, F>(
    bus: &DirectiveBus<H>,
    directive: &Directive,
    log: &mut Vec<EventDraft>,
    call: F,
) -> (out: Result<(), String>) where F: FnOnce(&H, &Json, &Vec<EventDraft>) -> Result<(), String>
    requires
        forall|h: &H, payload: &Json, seen: &Vec<EventDraft>|
            seen@.len() > 0 && seen@.last()@ == exec_record(directive@) ==> call.requires(
                (h, payload, seen),
            ),
    ensures
        record_views(final(log)@) == record_views(old(log)@) + dispatch_records(
            directive@,
            outcome_view(out),
        ),
        !bus@.contains_key(directive@.kind) ==> outcome_view(out) == Err::<(), Seq<char>>(
            "No handler registered for directive: "@ + directive@.kind,
        ),
        bus@.contains_key(directive@.kind) ==> exists|seen: &Vec<EventDraft>|
            record_views(seen@) == record_views(old(log)@).push(exec_record(directive@))
                && call.ensures((&bus@[directive@.kind], &directive.payload, seen), out),
{
    let ghost before = record_views(log@);
    let plan = interpret(bus, directive);
    log.push(plan.record);
    assert(record_views(log@) =~= before.push(exec_record(directive@)));
    let outcome = match plan.handler {
        Ok(handler) => call(handler, &directive.payload, &*log),
        Err(e) => Err(e.message()),
    };
    match conclude(directive, &outcome) {
        Some(record) => {
            log.push(record);
            assert(record_views(log@) =~= before + dispatch_records(
                directive@,
                outcome_view(outcome),
            ));
        },
        None => {
            assert(record_views(log@) =~= before + dispatch_records(
                directive@,
                outcome_view(outcome),
            ));
        },
    }
    outcome
}

/// The runtime's own handlers.
#[derive(Debug, Clone, Copy, PartialEq, Eq)]
pub enum CoreHandler {
    InitiateSession,
    Think,
    Observe,
    IngestFile,
    FsBatch,
    BootstrapSkills,
    Shutdown,
}

/// The table of the runtime's own handlers.
pub open spec fn core_table() -> Map<Seq<char>, CoreHandler> {
    Map::empty().insert("initiate_session"@, CoreHandler::InitiateSession).insert(
        "think"@,
        CoreHandler::Think,
    ).insert("observe"@, CoreHandler::Observe).insert("ingest_file"@, CoreHandler::IngestFile).insert(
        "fs_batch"@,
        CoreHandler::FsBatch,
    ).insert("bootstrap_skills"@, CoreHandler::BootstrapSkills).insert(
        "shutdown"@,
        CoreHandler::Shutdown,
    )
}

/// Registers the runtime's own handlers under their names.
pub fn register_core_handlers(bus: &mut DirectiveBus<CoreHandler>)
    ensures
        old(bus)@ == Map::<Seq<char>, CoreHandler>::empty() ==> final(bus)@ == core_table(),
        final(bus)@ == old(bus)@.insert("initiate_session"@, CoreHandler::InitiateSession).insert(
            "think"@,
            CoreHandler::Think,
        ).insert("observe"@, CoreHandler::Observe).insert(
            "ingest_file"@,
            CoreHandler::IngestFile,
        ).insert("fs_batch"@, CoreHandler::FsBatch).insert(
            "bootstrap_skills"@,
            CoreHandler::BootstrapSkills,
        ).insert("shutdown"@, CoreHandler::Shutdown),
{
    bus.register("initiate_session", CoreHandler::InitiateSession);
    bus.register("think", CoreHandler::Think);
    bus.register("observe", CoreHandler::Observe);
    bus.register("ingest_file", CoreHandler::IngestFile);
    bus.register("fs_batch", CoreHandler::FsBatch);
    bus.register("bootstrap_skills", CoreHandler::BootstrapSkills);
    bus.register("shutdown", CoreHandler::Shutdown);
}

/// What a handler sets in motion.
#[derive(Debug, Clone, PartialEq)]
pub enum HandlerPlan {
    /// Create a session with this prompt, then step it.
    StartSession { input: String },
    /// Step this session.
    Step { session_id: String },
    /// Add the observation to this session if it exists, then step it.
    Observe { session_id: String, observation: String },
    /// Ingest these files.
    Ingest { paths: Vec<String> },
    /// Load the built-in skills.
    LoadSkills,
    /// Nothing beyond the record of the dispatch.
    Nothing,
}

/// The mathematical value of a [`HandlerPlan`].
pub enum PlanV {
    StartSession { input: Seq<char> },
    Step { session_id: Seq<char> },
    Observe { session_id: Seq<char>, observation: Seq<char> },
    Ingest { paths: Seq<Seq<char>> },
    LoadSkills,
    Nothing,
}

impl View for HandlerPlan {
    type V = PlanV;

    open spec fn view(&self) -> PlanV {
        match self {
            HandlerPlan::StartSession { input } => PlanV::StartSession { input: input@ },
            HandlerPlan::Step { session_id } => PlanV::Step { session_id: session_id@ },
            HandlerPlan::Observe { session_id, observation } => PlanV::Observe {
                session_id: session_id@,
                observation: observation@,
            },
            HandlerPlan::Ingest { paths } => PlanV::Ingest { paths: texts(paths@) },
            HandlerPlan::LoadSkills => PlanV::LoadSkills,
            HandlerPlan::Nothing => PlanV::Nothing,
        }
    }
}

/// The texts among the items from index `i` on, in order; items that are no
/// strings are passed over.
pub open spec fn text_items_from(items: Seq<JsonV>, i: int) -> Seq<Seq<char>>
    decreases items.len() - i,
{
    if i < 0 || i >= items.len() {
        seq![]
    } else {
        match items[i] {
            JsonV::Text(t) => seq![t] + text_items_from(items, i + 1),
            _ => text_items_from(items, i + 1),
        }
    }
}

/// The paths that a payload lists under `paths`; none where that member is
/// missing or no array.
pub open spec fn paths_of(payload: JsonV) -> Seq<Seq<char>> {
    match field(payload, "paths"@) {
        Some(JsonV::Array(items)) => text_items_from(items, 0),
        _ => seq![],
    }
}

/// What each handler does with a payload. A missing or ill-typed text counts
/// as the empty text; a batch without paths does nothing.
pub open spec fn plan_of(handler: CoreHandler, payload: JsonV) -> PlanV {
    match handler {
        CoreHandler::InitiateSession => PlanV::StartSession {
            input: text_or_empty(payload, "input"@),
        },
        CoreHandler::Think => PlanV::Step { session_id: text_or_empty(payload, "session_id"@) },
        CoreHandler::Observe => PlanV::Observe {
            session_id: text_or_empty(payload, "session_id"@),
            observation: text_or_empty(payload, "observation"@),
        },
        CoreHandler::IngestFile => PlanV::Ingest { paths: seq![text_or_empty(payload, "path"@)] },
        CoreHandler::FsBatch => if paths_of(payload).len() > 0 {
            PlanV::Ingest { paths: paths_of(payload) }
        } else {
            PlanV::Nothing
        },
        CoreHandler::BootstrapSkills => PlanV::LoadSkills,
        CoreHandler::Shutdown => PlanV::Nothing,
    }
}

fn text_member(payload: &Json, key: &str) -> (out: String)
    ensures
        out@ == text_or_empty(payload@, key@),
{
    match payload.text_at(key) {
        Some(t) => t.clone(),
        None => String::new(),
    }
}

fn payload_paths(payload: &Json) -> (out: Vec<String>)
    ensures
        texts(out@) == paths_of(payload@),
{
    let mut out: Vec<String> = Vec::new();
    assert(texts(out@) =~= Seq::<Seq<char>>::empty());
    let items = match payload.get("paths") {
        Some(list) => match list.as_items() {
            Some(items) => items,
            None => {
                return out;
            },
        },
        None => {
            return out;
        },
    };
    let ghost all = values(items@);
    let mut i: usize = 0;
    assert(texts(out@) + text_items_from(all, 0) =~= text_items_from(all, 0));
    while i < items.len()
        invariant
            i <= items.len(),
            all == values(items@),
            text_items_from(all, 0) == texts(out@) + text_items_from(all, i as int),
        decreases items.len() - i,
    {
        assert(all[i as int] == items@[i as int]@);
        match items[i].as_text() {
            Some(t) => {
                let ghost before = texts(out@);
                out.push(t.clone());
                assert(texts(out@) =~= before.push(t@));
                assert(before + (seq![t@] + text_items_from(all, i + 1)) =~= before.push(t@)
                    + text_items_from(all, i + 1));
            },
            None => {},
        }
        i += 1;
    }
    assert(texts(out@) + Seq::<Seq<char>>::empty() =~= texts(out@));
    out
}

/// What a handler of the runtime does with a payload.
pub fn plan_handler(handler: CoreHandler, payload: &Json) -> (out: HandlerPlan)
    ensures
        out@ == plan_of(handler, payload@),
{
    match handler {
        CoreHandler::InitiateSession => HandlerPlan::StartSession {
            input: text_member(payload, "input"),
        },
        CoreHandler::Think => HandlerPlan::Step { session_id: text_member(payload, "session_id") },
        CoreHandler::Observe => HandlerPlan::Observe {
            session_id: text_member(payload, "session_id"),
            observation: text_member(payload, "observation"),
        },
        CoreHandler::IngestFile => {
            let mut paths: Vec<String> = Vec::new();
            let path = text_member(payload, "path");
            paths.push(path);
            assert(texts(paths@) =~= seq![path@]);
            HandlerPlan::Ingest { paths }
        },
        CoreHandler::FsBatch => {
            let paths = payload_paths(payload);
            if paths.len() > 0 {
                HandlerPlan::Ingest { paths }
            } else {
                HandlerPlan::Nothing
            }
        },
        CoreHandler::BootstrapSkills => HandlerPlan::LoadSkills,
        CoreHandler::Shutdown => HandlerPlan::Nothing,
    }
}

} // verus!
