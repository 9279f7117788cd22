use strand::enrich::{build_prompt, format_description, format_design, EnrichRequest, Solution};

#[test]
fn enrich_build_prompt_title_only() {
    let request = EnrichRequest {
        issue_id: "beads-001".to_string(),
        title: "Fix login bug".to_string(),
        description: None,
    };
    let prompt = build_prompt(&request);
    assert!(prompt.contains("Fix login bug"));
    assert!(!prompt.contains("Description:"));
}

#[test]
fn enrich_build_prompt_with_description() {
    let request = EnrichRequest {
        issue_id: "beads-001".to_string(),
        title: "Fix login bug".to_string(),
        description: Some("Users cannot log in".to_string()),
    };
    let prompt = build_prompt(&request);
    assert!(prompt.contains("Fix login bug"));
    assert!(prompt.contains("Description:"));
    assert!(prompt.contains("Users cannot log in"));
}

#[test]
fn format_description_with_original() {
    let result = format_description(Some("Original desc"), "Enriched desc");
    assert_eq!(
        result,
        "Original desc\n\n---\n## AI Enriched Description\nEnriched desc"
    );
}

#[test]
fn format_description_without_original() {
    let result = format_description(None, "Enriched desc");
    assert_eq!(result, "Enriched desc");
}

#[test]
fn format_design_multiple_solutions() {
    let solutions = vec![
        Solution {
            title: "Sol A".to_string(),
            description: "Do A".to_string(),
            pros: vec!["fast".to_string()],
            cons: vec!["complex".to_string()],
        },
        Solution {
            title: "Sol B".to_string(),
            description: "Do B".to_string(),
            pros: vec!["simple".to_string(), "cheap".to_string()],
            cons: vec!["slow".to_string()],
        },
    ];
    let md = format_design(&solutions);
    assert!(md.contains("## Solution 1: Sol A"));
    assert!(md.contains("## Solution 2: Sol B"));
    assert!(md.contains("**Pros:**\n- fast"));
    assert!(md.contains("**Cons:**\n- complex"));
    assert!(md.contains("- simple\n- cheap"));
}

#[test]
fn format_design_exact_text() {
    let solutions = vec![Solution {
        title: "T".to_string(),
        description: "D".to_string(),
        pros: vec!["p".to_string()],
        cons: vec![],
    }];
    assert_eq!(
        format_design(&solutions),
        "## Solution 1: T\nD\n\n**Pros:**\n- p\n\n**Cons:**\n"
    );
    assert_eq!(format_design(&[]), "");
}

#[test]
fn format_design_numbers_past_nine() {
    let solutions: Vec<Solution> = (0..12)
        .map(|i| Solution {
            title: format!("S{i}"),
            description: String::new(),
            pros: vec![],
            cons: vec![],
        })
        .collect();
    let md = format_design(&solutions);
    assert!(md.contains("## Solution 12: S11"));
    assert!(md.contains("## Solution 10: S9"));
}

#[test]
fn legacy_prompt_layout() {
    let request = EnrichRequest {
        issue_id: "x-1".to_string(),
        title: "T".to_string(),
        description: None,
    };
    let prompt = build_prompt(&request);
    assert!(prompt.contains("Issue Title: T\n\nRespond in JSON format"));
    assert!(prompt.ends_with("Output only valid JSON, no markdown fences or extra text."));
}
