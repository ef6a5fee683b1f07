use sly::reflexion::Reflexion;

#[test]
fn test_parse_heuristics() {
    let response = r#"
HEURISTIC: Always check for null values.
Some random text.
HEURISTIC: User prefers dark mode.
"#;
    let heuristics = Reflexion::parse_heuristics(response);
    assert_eq!(heuristics.len(), 2);
    assert_eq!(heuristics[0], "Always check for null values.");
    assert_eq!(heuristics[1], "User prefers dark mode.");
}
