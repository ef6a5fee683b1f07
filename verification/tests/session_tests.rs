use sly::action::AgentAction;
use sly::agent::{after_reasoner, handle_action, join_texts, plan_step, record_response, required_work,
    shell_report, ActionWork, ShellOutput, StepDecision, SCHEMA_HINT};
use sly::json::Json;
use sly::session::{AgentSession, SessionStatus};

fn session(messages: Vec<&str>, depth: usize, status: SessionStatus) -> AgentSession {
    AgentSession {
        id: "S".to_string(),
        messages: messages.into_iter().map(|m| m.to_string()).collect(),
        depth,
        status,
    }
}

#[test]
fn new_session_is_idle_at_depth_zero() {
    let s = AgentSession::new("do it".to_string());
    assert_eq!(s.messages, vec!["do it".to_string()]);
    assert_eq!(s.depth, 0);
    assert_eq!(s.status, SessionStatus::Idle);
    assert_eq!(s.id.len(), 36);
    assert_ne!(s.id, AgentSession::new("do it".to_string()).id);
}

#[test]
fn updates_build_new_values() {
    let s = session(vec!["a"], 1, SessionStatus::Idle)
        .with_message("b".to_string())
        .with_depth_increment()
        .with_status(SessionStatus::Thinking);
    assert_eq!(s.messages, vec!["a".to_string(), "b".to_string()]);
    assert_eq!(s.depth, 2);
    assert_eq!(s.status, SessionStatus::Thinking);
    assert_eq!(s.id, "S");
}

#[test]
fn status_labels_round_trip() {
    for status in [
        SessionStatus::Idle,
        SessionStatus::Thinking,
        SessionStatus::AwaitingObservation,
        SessionStatus::Completed,
        SessionStatus::Error("bad thing".to_string()),
    ] {
        assert_eq!(SessionStatus::from_label(&status.label()), status);
    }
    assert_eq!(SessionStatus::Error("x".to_string()).label(), "Error(\"x\")");
    assert_eq!(SessionStatus::AwaitingObservation.label(), "AwaitingObservation");
    assert_eq!(SessionStatus::from_label("nonsense"), SessionStatus::Idle);
    assert!(SessionStatus::Completed.is_terminal());
    assert!(SessionStatus::Error(String::new()).is_terminal());
    assert!(!SessionStatus::Thinking.is_terminal());
}

#[test]
fn session_cap_stops_the_fourth_step() {
    let max = 3;
    let mut s = session(vec!["prompt"], 0, SessionStatus::Idle);
    let mut steps = 0;
    for _ in 0..5 {
        match plan_step(Some(&s), max, "") {
            StepDecision::Think { .. } => {
                s = record_response(s, "working on it");
                let work = AgentAction::QueryMemory { query: "q".to_string(), strategy: None };
                s = handle_action(&work, s, &Ok(String::new()));
                steps += 1;
            }
            StepDecision::Skip => {}
        }
    }
    assert_eq!(steps, 3);
    assert_eq!(s.depth, 3);
    assert_eq!(plan_step(Some(&s), max, ""), StepDecision::Skip);
}

#[test]
fn missing_or_finished_sessions_are_not_stepped() {
    assert_eq!(plan_step(None, 10, ""), StepDecision::Skip);
    let done = session(vec!["p"], 1, SessionStatus::Completed);
    assert_eq!(plan_step(Some(&done), 10, ""), StepDecision::Skip);
    let failed = session(vec!["p"], 1, SessionStatus::Error("e".to_string()));
    assert_eq!(plan_step(Some(&failed), 10, ""), StepDecision::Skip);
    let zero = session(vec!["p"], 0, SessionStatus::Idle);
    assert_eq!(plan_step(Some(&zero), 0, ""), StepDecision::Skip);
}

#[test]
fn first_prompt_carries_tools_and_schema() {
    let s = session(vec!["one", "two"], 0, SessionStatus::Idle);
    assert_eq!(
        plan_step(Some(&s), 5, "TOOLS"),
        StepDecision::Think { prompt: format!("one\n\ntwo\n\nTOOLS{}", SCHEMA_HINT) }
    );
    assert_eq!(
        plan_step(Some(&s), 5, ""),
        StepDecision::Think { prompt: format!("one\n\ntwo{}", SCHEMA_HINT) }
    );
    let later = session(vec!["one", "two"], 1, SessionStatus::Idle);
    assert_eq!(
        plan_step(Some(&later), 5, "TOOLS"),
        StepDecision::Think { prompt: "one\n\ntwo".to_string() }
    );
    assert_eq!(join_texts(&vec![], ", "), "");
}

#[test]
fn response_is_recorded_with_its_step() {
    let s = record_response(session(vec!["p"], 12, SessionStatus::Idle), "hello");
    assert_eq!(s.depth, 13);
    assert_eq!(s.messages, vec!["p".to_string(), "**Sly (Step 12):**\nhello".to_string()]);
}

#[test]
fn observations_are_worded_by_action_and_outcome() {
    let start = || session(vec![], 1, SessionStatus::Thinking);
    let tool = AgentAction::CallTool { tool_name: "ls".to_string(), arguments: Json::Null };
    let ok = handle_action(&tool, start(), &Ok("{\"a\":1}".to_string()));
    assert_eq!(ok.messages, vec!["**Observation (Tool 'ls'):**\n```json\n{\"a\":1}\n```"]);
    let err = handle_action(&tool, start(), &Err("down".to_string()));
    assert_eq!(err.messages, vec!["**Observation (Error from 'ls'):**\ndown"]);

    let write = AgentAction::WriteFile { path: "a".to_string(), content: "b".to_string() };
    let ok = handle_action(&write, start(), &Ok(String::new()));
    assert_eq!(ok.messages, vec!["**Observation:** Action successfully executed in OverlayFS."]);
    let err = handle_action(&write, start(), &Err("denied".to_string()));
    assert_eq!(err.messages, vec!["**Observation (Error):** Failed to execute action: denied"]);

    let shell = AgentAction::ExecShell { command: "ls -l".to_string(), context: String::new() };
    let report = shell_report(&ShellOutput {
        code: Some(2),
        stdout: "out".to_string(),
        stderr: "err".to_string(),
    });
    assert_eq!(report, "Exit Code: 2\nSTDOUT:\nout\nSTDERR:\nerr");
    let ok = handle_action(&shell, start(), &Ok(report));
    assert_eq!(
        ok.messages,
        vec!["**Observation (Shell 'ls -l'):**\n```\nExit Code: 2\nSTDOUT:\nout\nSTDERR:\nerr\n```"]
    );
    let err = handle_action(&shell, start(), &Err("no sh".to_string()));
    assert_eq!(err.messages, vec!["**Observation (Error):** Command 'ls -l' failed: no sh"]);
    assert_eq!(
        shell_report(&ShellOutput { code: None, stdout: String::new(), stderr: String::new() }),
        "Exit Code: -1\nSTDOUT:\n\nSTDERR:\n"
    );
}

#[test]
fn answer_and_commit_complete_the_session() {
    let start = || session(vec!["p"], 1, SessionStatus::Thinking);
    let answer = AgentAction::Answer { text: "done".to_string() };
    let s = handle_action(&answer, start(), &Ok(String::new()));
    assert_eq!(s.status, SessionStatus::Completed);
    assert_eq!(s.messages.len(), 1);

    let commit = AgentAction::CommitOverlay { message: "m".to_string() };
    let s = handle_action(&commit, start(), &Ok(String::new()));
    assert_eq!(s.status, SessionStatus::Completed);
    assert_eq!(s.messages[1], "**Observation:** Overlay committed to workspace successfully.");
    let s = handle_action(&commit, start(), &Err("disk full".to_string()));
    assert_eq!(s.status, SessionStatus::Thinking);
    assert_eq!(s.messages[1], "**Observation (Commit Error):** disk full");
}

#[test]
fn actions_without_outside_work_leave_a_notice() {
    let start = || session(vec![], 1, SessionStatus::Thinking);
    let q = AgentAction::QueryMemory { query: "x".to_string(), strategy: Some("s".to_string()) };
    assert_eq!(required_work(&q), ActionWork::Nothing);
    assert_eq!(
        handle_action(&q, start(), &Err("ignored".to_string())).messages,
        vec!["**Observation:** Memory query not yet implemented in unbundled OODA step."]
    );
    let u = AgentAction::UseSkill { name: "s".to_string(), args: vec![1] };
    assert_eq!(
        handle_action(&u, start(), &Ok(String::new())).messages,
        vec!["**Observation:** Skill execution not yet implemented in unbundled OODA step."]
    );
    let d = AgentAction::QueryDatalog { script: "?".to_string() };
    assert_eq!(
        handle_action(&d, start(), &Ok(String::new())).messages,
        vec!["**Observation:** Datalog query not yet implemented in unbundled OODA step."]
    );
    assert_eq!(
        required_work(&AgentAction::CommitOverlay { message: String::new() }),
        ActionWork::CommitOverlay
    );
    assert_eq!(
        required_work(&AgentAction::ExecShell { command: String::new(), context: String::new() }),
        ActionWork::ExecShell
    );
}

#[test]
fn failed_reasoner_leaves_the_session_as_it_was() {
    let s = session(vec!["p"], 2, SessionStatus::Thinking);
    assert!(after_reasoner(s.clone(), &Err("timeout".to_string())).is_none());
    let next = after_reasoner(s, &Ok("hi".to_string())).expect("answered");
    assert_eq!(next.depth, 3);
    assert_eq!(next.messages, vec!["p".to_string(), "**Sly (Step 2):**\nhi".to_string()]);
    let deepest = session(vec!["p"], usize::MAX, SessionStatus::Thinking);
    assert!(after_reasoner(deepest, &Ok("hi".to_string())).is_none());
}
