use strand::ai::enrich::{
    append_result_text, build_prompt, build_skill_prompt, format_enriched, EnrichRequest,
    EnrichResult, Solution,
};
use strand::ai::extract_json;
use strand::bd::Issue;

#[test]
fn prompt_build_prompt_title_only() {
    let request = EnrichRequest {
        issue_id: "beads-001".to_string(),
        title: "Fix login bug".to_string(),
        description: None,
    };
    let prompt = build_prompt(&request);
    assert!(prompt.contains("Fix login bug"));
    assert!(!prompt.contains("Description:"));
}

#[test]
fn prompt_build_prompt_with_description() {
    let request = EnrichRequest {
        issue_id: "beads-001".to_string(),
        title: "Fix login bug".to_string(),
        description: Some("Users cannot log in".to_string()),
    };
    let prompt = build_prompt(&request);
    assert!(prompt.contains("Fix login bug"));
    assert!(prompt.contains("Description:"));
    assert!(prompt.contains("Users cannot log in"));
}

#[test]
fn format_enriched_with_original() {
    let result = EnrichResult {
        problems: vec!["Problem 1".into(), "Problem 2".into()],
        solutions: vec![Solution {
            label: "A".into(),
            title: "Sol A".into(),
            description: "Do A".into(),
        }],
    };
    let text = format_enriched(Some("Original desc"), &result);
    assert!(text.starts_with("Original desc\n\n---\n"));
    assert!(text.contains("### 課題\n- Problem 1\n- Problem 2"));
    assert!(text.contains("### ソリューション案\n- A: Sol A\n  Do A"));
}

#[test]
fn format_enriched_without_original() {
    let result = EnrichResult {
        problems: vec!["Problem 1".into()],
        solutions: vec![
            Solution {
                label: "A".into(),
                title: "Sol A".into(),
                description: "Do A".into(),
            },
            Solution {
                label: "B".into(),
                title: "Sol B".into(),
                description: "Do B".into(),
            },
        ],
    };
    let text = format_enriched(None, &result);
    assert!(text.starts_with("### 課題"));
    assert!(text.contains("- A: Sol A\n  Do A"));
    assert!(text.contains("- B: Sol B\n  Do B"));
}

#[test]
fn format_enriched_exact_text() {
    let result = EnrichResult {
        problems: vec!["P".into()],
        solutions: vec![Solution {
            label: "A".into(),
            title: "T".into(),
            description: "D".into(),
        }],
    };
    assert_eq!(
        format_enriched(None, &result),
        "### 課題\n- P\n\n### ソリューション案\n- A: T\n  D"
    );
}

#[test]
fn prompt_layout() {
    let request = EnrichRequest {
        issue_id: "x-1".to_string(),
        title: "T".to_string(),
        description: Some("D".to_string()),
    };
    let prompt = build_prompt(&request);
    assert!(prompt.starts_with("You are an issue analysis assistant."));
    assert!(prompt.contains("Issue Title: T\n\nDescription:\nD\n\nPlease provide:"));
    assert!(prompt.contains("{\n  \"problems\": ["));
    assert!(prompt.ends_with("- Write in the same language as the issue title"));
}

#[test]
fn skill_prompt_names_the_skill() {
    let issue = Issue {
        id: "x-1".into(),
        title: "T".into(),
        status: "open".into(),
        priority: None,
        description: None,
        labels: vec![],
        issue_type: None,
        updated_at: None,
        estimate: None,
    };
    assert_eq!(
        build_skill_prompt(&issue, "deep-dive"),
        "Use the deep-dive skill to analyze the following issue. Output the result as plain text.\n\nIssue Title: T"
    );
}

#[test]
fn result_text_is_appended_after_a_rule() {
    assert_eq!(append_result_text(Some("orig"), "new"), "orig\n\n---\nnew");
    assert_eq!(append_result_text(None, "new"), "new");
}

#[test]
fn extract_json_whole_object() {
    assert_eq!(extract_json("  {\"a\":1}  "), Ok("{\"a\":1}"));
}

#[test]
fn extract_json_inside_markdown_fences() {
    let inner = r#"{"problems":["P1"],"solutions":[{"label":"A","title":"Sol","description":"Desc"}]}"#;
    let fenced = format!("```json\n{inner}\n```");
    assert_eq!(extract_json(&fenced), Ok(inner));
}

#[test]
fn extract_json_up_to_last_brace() {
    assert_eq!(extract_json("note {a} and {b} end"), Ok("{a} and {b}"));
}

#[test]
fn extract_json_without_object_is_an_error() {
    assert_eq!(
        extract_json("  no json here  "),
        Err("No JSON object found in response: no json her".to_string())
    );
    assert_eq!(
        extract_json("open { but never closed"),
        Err("No JSON object found in response: open { but never close".to_string())
    );
    assert_eq!(extract_json(""), Err("No JSON object found in response: ".to_string()));
}

#[test]
fn extract_json_error_preview_stops_near_200_bytes() {
    let long = "x".repeat(300);
    let err = extract_json(&long).unwrap_err();
    assert_eq!(err, format!("No JSON object found in response: {}", "x".repeat(200)));
}
