//! One step of a session: whether it may run, what is put to the reasoner,
//! and how the response and the outcome of each action change the session.
//! The caller talks to the reasoner and does the outside work of the actions.

use crate::action::{ActionV, AgentAction};
use crate::session::{AgentSession, SessionStatus, SessionV, StatusV};
use crate::text::{chars_of, decimal, push_decimal, push_signed_decimal, push_str, signed_decimal,
    string_of, texts};
use vstd::prelude::*;

verus! {

/// The note on the knowledge graph that the first request of a session
/// carries.
pub const SCHEMA_HINT: &'static str =
    "\n\n## KNOWLEDGE GRAPH SCHEMA (Datalog Ready)\nNodes: `nodes { id => content, type, path, embedding }`\nEdges: `edges { parent => child }`\n";

/// The texts from index `i` on, each but the first of all with `sep` before
/// it.
pub open spec fn joined_from(list: Seq<Seq<char>>, sep: Seq<char>, i: int) -> Seq<char>
    decreases list.len() - i,
{
    if i < 0 || i >= list.len() {
        seq![]
    } else if i == 0 {
        list[i] + joined_from(list, sep, i + 1)
    } else {
        sep + list[i] + joined_from(list, sep, i + 1)
    }
}

/// The texts with `sep` between them.
pub open spec fn joined_texts(list: Seq<Seq<char>>, sep: Seq<char>) -> Seq<char> {
    joined_from(list, sep, 0)
}

/// The texts of `list` with `sep` between them.
pub fn join_texts(list: &Vec<String>, sep: &str) -> (out: String)
    ensures
        out@ == joined_texts(texts(list@), sep@),
{
    let mut buf: Vec<char> = Vec::new();
    let mut i: usize = 0;
    let ghost all = texts(list@);
    assert(buf@ + joined_from(all, sep@, 0) =~= joined_from(all, sep@, 0));
    while i < list.len()
        invariant
            i <= list.len(),
            all == texts(list@),
            joined_texts(all, sep@) == buf@ + joined_from(all, sep@, i as int),
        decreases list.len() - i,
    {
        let ghost before = buf@;
        assert(all[i as int] == list@[i as int]@);
        if i > 0 {
            push_str(&mut buf, sep);
        }
        push_str(&mut buf, list[i].as_str());
        assert(before + joined_from(all, sep@, i as int) =~= buf@ + joined_from(
            all,
            sep@,
            i + 1,
        ));
        i += 1;
    }
    assert(buf@ + Seq::<char>::empty() =~= buf@);
    string_of(&buf)
}

/// Whether a session may be stepped: it exists, it is not over, and it is
/// less deep than the cap.
pub open spec fn may_step(session: Option<SessionV>, max_loops: nat) -> bool {
    match session {
        Some(s) => s.depth < max_loops && !(s.status is Completed) && !(s.status is Error),
        None => false,
    }
}

/// What is put to the reasoner: the messages so far, a blank line between
/// them; on the first step also the tool definitions, if there are any, and
/// the note on the knowledge graph.
pub open spec fn prompt_of(session: SessionV, tool_defs: Seq<char>) -> Seq<char> {
    let context = joined_texts(session.messages, "\n\n"@);
    if session.depth == 0 {
        if tool_defs.len() > 0 {
            context + "\n\n"@ + tool_defs + SCHEMA_HINT@
        } else {
            context + SCHEMA_HINT@
        }
    } else {
        context
    }
}

/// Whether a step runs, and with what request.
#[derive(Debug, Clone, PartialEq)]
pub enum StepDecision {
    Skip,
    Think { prompt: String },
}

/// Decides whether the session is stepped. A step never runs on a session
/// that is missing, over, or as deep as the cap.
pub fn plan_step(session: Option<&AgentSession>, max_loops: usize, tool_defs: &str) -> (out:
    StepDecision)
    ensures
        match out {
            StepDecision::Skip => !may_step(
                match session {
                    Some(s) => Some(s@),
                    None => None,
                },
                max_loops as nat,
            ),
            StepDecision::Think { prompt } => session matches Some(s) && may_step(
                Some(s@),
                max_loops as nat,
            ) && prompt@ == prompt_of(s@, tool_defs@),
        },
{
    let s = match session {
        Some(s) => s,
        None => {
            return StepDecision::Skip;
        },
    };
    if s.depth >= max_loops || s.status.is_terminal() {
        return StepDecision::Skip;
    }
    let context = join_texts(&s.messages, "\n\n");
    let mut buf = chars_of(context.as_str());
    if s.depth == 0 {
        if !tool_defs.is_empty() {
            push_str(&mut buf, "\n\n");
            push_str(&mut buf, tool_defs);
        }
        push_str(&mut buf, SCHEMA_HINT);
    }
    StepDecision::Think { prompt: string_of(&buf) }
}

/// The message that records the reasoner's response at a depth.
pub open spec fn response_message(depth: nat, response: Seq<char>) -> Seq<char> {
    "**Sly (Step "@ + decimal(depth) + "):**\n"@ + response
}

/// The session after the reasoner has answered: the response is appended as
/// a message and the session is one step deeper.
pub open spec fn answered(session: SessionV, response: Seq<char>) -> SessionV {
    SessionV {
        messages: session.messages.push(response_message(session.depth, response)),
        depth: session.depth + 1,
        ..session
    }
}

/// Records the reasoner's response in the session.
pub fn record_response(session: AgentSession, response: &str) -> (out: AgentSession)
    requires
        session.depth < usize::MAX,
    ensures
        out@ == answered(session@, response@),
{
    let mut buf = chars_of("**Sly (Step ");
    push_decimal(&mut buf, session.depth as u64);
    push_str(&mut buf, "):**\n");
    push_str(&mut buf, response);
    session.with_message(string_of(&buf)).with_depth_increment()
}

/// What follows the reasoner's outcome: where the reasoner answered, the
/// response is recorded and the step goes on with the session one deeper;
/// where it failed, the step ends and the session stays as it was, no deeper
/// and with no message more. A session at the greatest depth that the
/// machine can count can take no step, and stays as it was too.
pub fn after_reasoner(session: AgentSession, outcome: &Result<String, String>) -> (out: Option<
    AgentSession,
>)
    ensures
        match out {
            Some(next) => outcome matches Ok(response) && session.depth < usize::MAX && next@
                == answered(session@, response@),
            None => outcome is Err || session.depth == usize::MAX,
        },
{
    match outcome {
        Ok(response) => {
            if session.depth == usize::MAX {
                None
            } else {
                Some(record_response(session, response.as_str()))
            }
        },
        Err(_) => None,
    }
}

/// What a shell command left behind: its exit code, if it had one, and what
/// it wrote.
#[derive(Debug, Clone, PartialEq)]
pub struct ShellOutput {
    pub code: Option<i32>,
    pub stdout: String,
    pub stderr: String,
}

/// The report of a shell command; a command without exit code reports -1.
pub open spec fn shell_report_text(code: Option<i32>, stdout: Seq<char>, stderr: Seq<char>) -> Seq<
    char,
> {
    "Exit Code: "@ + signed_decimal(
        match code {
            Some(c) => c as int,
            None => -1,
        },
    ) + "\nSTDOUT:\n"@ + stdout + "\nSTDERR:\n"@ + stderr
}

/// The report of a shell command.
pub fn shell_report(output: &ShellOutput) -> (out: String)
    ensures
        out@ == shell_report_text(output.code, output.stdout@, output.stderr@),
{
    let mut buf = chars_of("Exit Code: ");
    let code: i64 = match output.code {
        Some(c) => c as i64,
        None => -1,
    };
    push_signed_decimal(&mut buf, code);
    push_str(&mut buf, "\nSTDOUT:\n");
    push_str(&mut buf, output.stdout.as_str());
    push_str(&mut buf, "\nSTDERR:\n");
    push_str(&mut buf, output.stderr.as_str());
    string_of(&buf)
}

/// The outside work that an action needs before it can be observed.
#[derive(Debug, Clone, PartialEq)]
pub enum ActionWork {
    /// Call the tool with the arguments.
    CallTool,
    /// Write the file through the overlay.
    WriteFile,
    /// Run the command in a shell.
    ExecShell,
    /// Commit the overlay.
    CommitOverlay,
    /// Nothing: the action is observed as it is.
    Nothing,
}

/// The outside work of each kind of action.
pub open spec fn work_of(action: ActionV) -> ActionWork {
    match action {
        ActionV::CallTool { .. } => ActionWork::CallTool,
        ActionV::WriteFile { .. } => ActionWork::WriteFile,
        ActionV::ExecShell { .. } => ActionWork::ExecShell,
        ActionV::CommitOverlay { .. } => ActionWork::CommitOverlay,
        _ => ActionWork::Nothing,
    }
}

/// The outside work that an action needs.
pub fn required_work(action: &AgentAction) -> (out: ActionWork)
    ensures
        out == work_of(action@),
{
    match action {
        AgentAction::CallTool { .. } => ActionWork::CallTool,
        AgentAction::WriteFile { .. } => ActionWork::WriteFile,
        AgentAction::ExecShell { .. } => ActionWork::ExecShell,
        AgentAction::CommitOverlay { .. } => ActionWork::CommitOverlay,
        _ => ActionWork::Nothing,
    }
}

/// The value of an outcome: the text that the work gave, or the text of its
/// error.
pub open spec fn outcome_view(outcome: Result<String, String>) -> Result<Seq<char>, Seq<char>> {
    match outcome {
        Ok(text) => Ok(text@),
        Err(text) => Err(text@),
    }
}

/// The observation that an action leaves in the session, given the outcome
/// of its outside work. An answer leaves none. An action without outside
/// work ignores the outcome.
pub open spec fn observation_of(action: ActionV, outcome: Result<Seq<char>, Seq<char>>) -> Option<
    Seq<char>,
> {
    match action {
        ActionV::CallTool { tool_name, .. } => match outcome {
            Ok(output) => Some(
                "**Observation (Tool '"@ + tool_name + "'):**\n```json\n"@ + output + "\n```"@,
            ),
            Err(e) => Some("**Observation (Error from '"@ + tool_name + "'):**\n"@ + e),
        },
        ActionV::WriteFile { .. } => match outcome {
            Ok(_) => Some("**Observation:** Action successfully executed in OverlayFS."@),
            Err(e) => Some("**Observation (Error):** Failed to execute action: "@ + e),
        },
        ActionV::ExecShell { command, .. } => match outcome {
            Ok(report) => Some(
                "**Observation (Shell '"@ + command + "'):**\n```\n"@ + report + "\n```"@,
            ),
            Err(e) => Some("**Observation (Error):** Command '"@ + command + "' failed: "@ + e),
        },
        ActionV::QueryMemory { .. } => Some(
            "**Observation:** Memory query not yet implemented in unbundled OODA step."@,
        ),
        ActionV::UseSkill { .. } => Some(
            "**Observation:** Skill execution not yet implemented in unbundled OODA step."@,
        ),
        ActionV::QueryDatalog { .. } => Some(
            "**Observation:** Datalog query not yet implemented in unbundled OODA step."@,
        ),
        ActionV::CommitOverlay { .. } => match outcome {
            Ok(_) => Some("**Observation:** Overlay committed to workspace successfully."@),
            Err(e) => Some("**Observation (Commit Error):** "@ + e),
        },
        ActionV::Answer { .. } => None,
    }
}

/// Whether an action completes the session: an answer does, and so does a
/// commit that went through.
pub open spec fn completes(action: ActionV, outcome: Result<Seq<char>, Seq<char>>) -> bool {
    action is Answer || (action is CommitOverlay && outcome is Ok)
}

/// The session after one action: its observation, if it leaves one, is
/// appended, and the status becomes `Completed` where the action completes
/// the session.
pub open spec fn handled(
    session: SessionV,
    action: ActionV,
    outcome: Result<Seq<char>, Seq<char>>,
) -> SessionV {
    let messages = match observation_of(action, outcome) {
        Some(m) => session.messages.push(m),
        None => session.messages,
    };
    SessionV {
        messages,
        status: if completes(action, outcome) {
            StatusV::Completed
        } else {
            session.status
        },
        ..session
    }
}

fn three(a: &str, b: &str, c: &str) -> (out: String)
    ensures
        out@ == a@ + b@ + c@,
{
    let mut buf = chars_of(a);
    push_str(&mut buf, b);
    push_str(&mut buf, c);
    string_of(&buf)
}

fn five(a: &str, b: &str, c: &str, d: &str, e: &str) -> (out: String)
    ensures
        out@ == a@ + b@ + c@ + d@ + e@,
{
    let mut buf = chars_of(a);
    push_str(&mut buf, b);
    push_str(&mut buf, c);
    push_str(&mut buf, d);
    push_str(&mut buf, e);
    string_of(&buf)
}

/// Takes one action into the session, given the outcome of its outside work.
/// It never fails: an error becomes an observation.
pub fn handle_action(action: &AgentAction, session: AgentSession, outcome: &Result<String, String>)
    -> (out: AgentSession)
    ensures
        out@ == handled(session@, action@, outcome_view(*outcome)),
{
    let empty = String::new();
    match action {
        AgentAction::CallTool { tool_name, .. } => match outcome {
            Ok(output) => session.with_message(
                five(
                    "**Observation (Tool '",
                    tool_name.as_str(),
                    "'):**\n```json\n",
                    output.as_str(),
                    "\n```",
                ),
            ),
            Err(e) => {
                let m = five(
                    "**Observation (Error from '",
                    tool_name.as_str(),
                    "'):**\n",
                    e.as_str(),
                    empty.as_str(),
                );
                assert(m@ =~= "**Observation (Error from '"@ + tool_name@ + "'):**\n"@ + e@);
                session.with_message(m)
            },
        },
        AgentAction::WriteFile { .. } => match outcome {
            Ok(_) => session.with_message(
                crate::text::copy_str("**Observation:** Action successfully executed in OverlayFS."),
            ),
            Err(e) => {
                let m = three(
                    "**Observation (Error):** Failed to execute action: ",
                    e.as_str(),
                    empty.as_str(),
                );
                assert(m@ =~= "**Observation (Error):** Failed to execute action: "@ + e@);
                session.with_message(m)
            },
        },
        AgentAction::ExecShell { command, .. } => match outcome {
            Ok(report) => session.with_message(
                five(
                    "**Observation (Shell '",
                    command.as_str(),
                    "'):**\n```\n",
                    report.as_str(),
                    "\n```",
                ),
            ),
            Err(e) => {
                let m = five(
                    "**Observation (Error):** Command '",
                    command.as_str(),
                    "' failed: ",
                    e.as_str(),
                    empty.as_str(),
                );
                assert(m@ =~= "**Observation (Error):** Command '"@ + command@ + "' failed: "@
                    + e@);
                session.with_message(m)
            },
        },
        AgentAction::QueryMemory { .. } => session.with_message(
            crate::text::copy_str(
                "**Observation:** Memory query not yet implemented in unbundled OODA step.",
            ),
        ),
        AgentAction::UseSkill { .. } => session.with_message(
            crate::text::copy_str(
                "**Observation:** Skill execution not yet implemented in unbundled OODA step.",
            ),
        ),
        AgentAction::QueryDatalog { .. } => session.with_message(
            crate::text::copy_str(
                "**Observation:** Datalog query not yet implemented in unbundled OODA step.",
            ),
        ),
        AgentAction::CommitOverlay { .. } => match outcome {
            Ok(_) => session.with_message(
                crate::text::copy_str(
                    "**Observation:** Overlay committed to workspace successfully.",
                ),
            ).with_status(SessionStatus::Completed),
            Err(e) => {
                let m = three("**Observation (Commit Error):** ", e.as_str(), empty.as_str());
                assert(m@ =~= "**Observation (Commit Error):** "@ + e@);
                session.with_message(m)
            },
        },
        AgentAction::Answer { .. } => session.with_status(SessionStatus::Completed),
    }
}

/// The session after the actions from index `i` on, each with its outcome.
pub open spec fn handled_all(
    session: SessionV,
    actions: Seq<ActionV>,
    outcomes: Seq<Result<Seq<char>, Seq<char>>>,
    i: int,
) -> SessionV
    decreases actions.len() - i,
{
    if i < 0 || i >= actions.len() || i >= outcomes.len() {
        session
    } else {
        handled_all(handled(session, actions[i], outcomes[i]), actions, outcomes, i + 1)
    }
}

/// The session after one whole step: the response is recorded, then each
/// action is taken in, in order.
pub open spec fn stepped(
    session: SessionV,
    response: Seq<char>,
    actions: Seq<ActionV>,
    outcomes: Seq<Result<Seq<char>, Seq<char>>>,
) -> SessionV {
    handled_all(answered(session, response), actions, outcomes, 0)
}

/// Taking actions in only appends messages and leaves the depth alone.
pub proof fn lemma_handled_all(
    session: SessionV,
    actions: Seq<ActionV>,
    outcomes: Seq<Result<Seq<char>, Seq<char>>>,
    i: int,
)
    ensures
        handled_all(session, actions, outcomes, i).depth == session.depth,
        handled_all(session, actions, outcomes, i).id == session.id,
        session.messages.len() <= handled_all(session, actions, outcomes, i).messages.len(),
        handled_all(session, actions, outcomes, i).messages.take(session.messages.len() as int)
            == session.messages,
    decreases actions.len() - i,
{
    if i < 0 || i >= actions.len() || i >= outcomes.len() {
        assert(session.messages.take(session.messages.len() as int) =~= session.messages);
    } else {
        let next = handled(session, actions[i], outcomes[i]);
        lemma_handled_all(next, actions, outcomes, i + 1);
        let last = handled_all(next, actions, outcomes, i + 1);
        assert(next.messages.take(session.messages.len() as int) =~= session.messages);
        assert(last.messages.take(session.messages.len() as int) =~= last.messages.take(
            next.messages.len() as int,
        ).take(session.messages.len() as int));
    }
}

/// Every step that runs makes the session exactly one deeper and its list of
/// messages strictly longer, and it keeps the messages that were there: the
/// list only grows at its end.
pub proof fn law_step_advances(
    session: SessionV,
    response: Seq<char>,
    actions: Seq<ActionV>,
    outcomes: Seq<Result<Seq<char>, Seq<char>>>,
)
    ensures
        stepped(session, response, actions, outcomes).depth == session.depth + 1,
        stepped(session, response, actions, outcomes).messages.len() > session.messages.len(),
        stepped(session, response, actions, outcomes).messages.take(
            session.messages.len() as int,
        ) == session.messages,
        stepped(session, response, actions, outcomes).id == session.id,
{
    let first = answered(session, response);
    lemma_handled_all(first, actions, outcomes, 0);
    let last = stepped(session, response, actions, outcomes);
    assert(first.messages.take(session.messages.len() as int) =~= session.messages);
    assert(last.messages.take(session.messages.len() as int) =~= last.messages.take(
        first.messages.len() as int,
    ).take(session.messages.len() as int));
}

/// The depth never passes the cap: a session that may be stepped is, after
/// the step, at most as deep as the cap.
pub proof fn law_depth_stays_under_cap(
    session: SessionV,
    max_loops: nat,
    response: Seq<char>,
    actions: Seq<ActionV>,
    outcomes: Seq<Result<Seq<char>, Seq<char>>>,
)
    requires
        may_step(Some(session), max_loops),
    ensures
        stepped(session, response, actions, outcomes).depth <= max_loops,
{
    law_step_advances(session, response, actions, outcomes);
}

/// A session that has reached the cap is never stepped again, whatever its
/// status and whatever is put to it.
pub proof fn law_cap_stops_steps(session: SessionV, max_loops: nat)
    requires
        session.depth >= max_loops,
    ensures
        !may_step(Some(session), max_loops),
{
}

} // verus!
