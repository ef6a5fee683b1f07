use sly::action::{parse_action, AgentAction};
use sly::json::Json;

#[test]
fn test_parse_write_file() {
    let resp = r#"
Sure, here is the file:
```json
{
  "directive": "WriteFile",
  "path": "src/main.rs",
  "content": "fn main() {}"
}
```
        "#;
    let actions = parse_action(resp);
    match &actions[0] {
        AgentAction::WriteFile { path, content } => {
            assert_eq!(path, "src/main.rs");
            assert_eq!(content, "fn main() {}");
        }
        _ => panic!("Wrong type"),
    }
}

#[test]
fn test_parse_mcp_call() {
    let resp = r#"```json
{
  "directive": "CallTool",
  "tool_name": "list_files",
  "arguments": { "path": "." }
}
```"#;
    let actions = parse_action(resp);
    match &actions[0] {
        AgentAction::CallTool { tool_name, arguments } => {
            assert_eq!(tool_name, "list_files");
            assert_eq!(arguments.get("path"), Some(&Json::Text(".".to_string())));
        }
        _ => panic!("Wrong type"),
    }
}

#[test]
fn single_object_in_json_fence() {
    let resp = "```json\n{\"directive\":\"WriteFile\",\"path\":\"src/main.rs\",\"content\":\"fn main() {}\"}\n```";
    let actions = parse_action(resp);
    assert_eq!(
        actions,
        vec![AgentAction::WriteFile {
            path: "src/main.rs".to_string(),
            content: "fn main() {}".to_string()
        }]
    );
}

#[test]
fn plain_text_falls_back_to_answer() {
    let actions = parse_action("Hello!");
    assert_eq!(actions, vec![AgentAction::Answer { text: "Hello!".to_string() }]);
}

#[test]
fn fenced_array_reads_back_in_order() {
    let resp = "```json\n[{\"directive\":\"ExecShell\",\"command\":\"ls\",\"context\":\"base\"},{\"directive\":\"UseSkill\",\"name\":\"sly_sum\",\"args\":[1,-2]},{\"directive\":\"QueryMemory\",\"query\":\"q\",\"strategy\":null}]\n```";
    let actions = parse_action(resp);
    assert_eq!(
        actions,
        vec![
            AgentAction::ExecShell { command: "ls".to_string(), context: "base".to_string() },
            AgentAction::UseSkill { name: "sly_sum".to_string(), args: vec![1, -2] },
            AgentAction::QueryMemory { query: "q".to_string(), strategy: None },
        ]
    );
}

#[test]
fn malformed_json_never_fails() {
    let resp = "```json\n{\"directive\": \"WriteFile\", \"path\": }\n```";
    let actions = parse_action(resp);
    assert_eq!(actions, vec![AgentAction::Answer { text: resp.to_string() }]);
}

#[test]
fn empty_array_as_whole_response_is_an_answer() {
    let actions = parse_action("[]");
    assert_eq!(actions, vec![AgentAction::Answer { text: "[]".to_string() }]);
}

#[test]
fn plain_fence_is_read_when_no_json_fence_parses() {
    let resp = "Here:\n```\n{\"directive\":\"CommitOverlay\",\"message\":\"done\"}\n```\n";
    let actions = parse_action(resp);
    assert_eq!(actions, vec![AgentAction::CommitOverlay { message: "done".to_string() }]);
}

#[test]
fn whole_response_is_tried_last() {
    let resp = "  {\"directive\":\"QueryDatalog\",\"script\":\"?[x] := x = 1\"}  ";
    let actions = parse_action(resp);
    assert_eq!(actions, vec![AgentAction::QueryDatalog { script: "?[x] := x = 1".to_string() }]);
}

#[test]
fn number_out_of_range_is_no_skill_argument() {
    let resp = "```json\n{\"directive\":\"UseSkill\",\"name\":\"s\",\"args\":[2147483648]}\n```";
    let actions = parse_action(resp);
    assert_eq!(actions, vec![AgentAction::Answer { text: resp.to_string() }]);
}
