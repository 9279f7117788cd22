use strand::ai::enrich::{EnrichEvent, EnrichManager, EnrichOutcome};
use strand::ai::split::{SplitEvent, SplitManager, SplitOutcome};
use strand::bd::Issue;
use strand::config::EnrichConfig;

fn make_issue(id: &str, labels: Vec<&str>) -> Issue {
    Issue {
        id: id.to_string(),
        title: format!("Issue {id}"),
        status: "open".to_string(),
        priority: Some(2),
        description: None,
        labels: labels.into_iter().map(String::from).collect(),
        issue_type: None,
        updated_at: None,
        estimate: None,
    }
}

#[test]
fn manager_auto_enrich_filters_by_label() {
    let mut manager = EnrichManager::new(EnrichConfig::default());

    let issues = vec![
        make_issue("a", vec!["strand-needs-enrich"]),
        make_issue("b", vec![]),
        make_issue("c", vec!["strand-needs-enrich", "other"]),
    ];

    manager.auto_enrich(&issues);

    assert!(manager.is_enriching("a"));
    assert!(!manager.is_enriching("b"));
    assert!(manager.is_enriching("c"));
}

#[test]
fn manager_auto_enrich_skips_already_enriching() {
    let mut manager = EnrichManager::new(EnrichConfig::default());

    let issues = vec![make_issue("a", vec!["strand-needs-enrich"])];

    let first = manager.auto_enrich(&issues);
    assert!(manager.is_enriching("a"));
    assert_eq!(first.len(), 1);

    let second = manager.auto_enrich(&issues);
    assert!(manager.is_enriching("a"));
    assert!(second.is_empty());
}

#[test]
fn manager_start_skips_duplicate() {
    let mut manager = EnrichManager::new(EnrichConfig::default());

    let issue = make_issue("a", vec![]);
    assert!(manager.start(&issue));
    assert!(manager.is_enriching("a"));

    assert!(!manager.start(&issue));
    assert!(manager.is_enriching("a"));
}

#[test]
fn manager_handle_completed_removes_from_enriching() {
    let mut manager = EnrichManager::new(EnrichConfig::default());

    manager.restore_jobs(&vec!["a".to_string()]);
    assert!(manager.is_enriching("a"));

    let outcome = manager.handle_event(EnrichEvent::Completed {
        issue_id: "a".to_string(),
    });
    assert!(!manager.is_enriching("a"));
    assert!(matches!(outcome, EnrichOutcome::Completed { .. }));
}

#[test]
fn manager_handle_failed_removes_from_enriching() {
    let mut manager = EnrichManager::new(EnrichConfig::default());

    manager.restore_jobs(&vec!["a".to_string()]);

    let outcome = manager.handle_event(EnrichEvent::Failed {
        issue_id: "a".to_string(),
        error: "timeout".to_string(),
    });
    assert!(!manager.is_enriching("a"));
    assert!(matches!(outcome, EnrichOutcome::Failed { .. }));
}

#[test]
fn auto_enrich_launches_each_id_once() {
    let mut manager = EnrichManager::new(EnrichConfig::default());
    manager.restore_jobs(&vec!["busy".to_string()]);
    let issues = vec![
        make_issue("a", vec!["strand-needs-enrich"]),
        make_issue("busy", vec!["strand-needs-enrich"]),
        make_issue("a", vec!["strand-needs-enrich"]),
        make_issue("b", vec!["other"]),
        make_issue("c", vec!["strand-needs-enrich"]),
    ];
    let launched = manager.auto_enrich(&issues);
    let ids: Vec<&str> = launched.iter().map(|i| i.id.as_str()).collect();
    assert_eq!(ids, vec!["a", "c"]);
    assert!(manager.is_enriching("busy"));
    assert!(!manager.is_enriching("b"));
}

#[test]
fn started_event_keeps_job_running() {
    let mut manager = EnrichManager::new(EnrichConfig::default());
    manager.start(&make_issue("a", vec![]));
    let outcome = manager.handle_event(EnrichEvent::Started {
        issue_id: "a".to_string(),
    });
    assert!(manager.is_enriching("a"));
    assert!(matches!(outcome, EnrichOutcome::Started { ref issue_id } if issue_id == "a"));
}

#[test]
fn job_config_carries_the_skill() {
    let manager = EnrichManager::new(EnrichConfig {
        skill: Some("deep".to_string()),
    });
    assert_eq!(manager.job_config().skill.as_deref(), Some("deep"));
}

#[test]
fn split_manager_tracks_jobs() {
    let mut manager = SplitManager::new();
    let issue = make_issue("s-1", vec![]);
    assert!(manager.start(&issue));
    assert!(!manager.start(&issue));
    assert!(manager.is_splitting("s-1"));
    let outcome = manager.handle_event(SplitEvent::Completed {
        issue_id: "s-1".to_string(),
        task_count: 3,
    });
    assert!(matches!(outcome, SplitOutcome::Completed { task_count: 3, .. }));
    assert!(!manager.is_splitting("s-1"));
    manager.restore_jobs(&vec!["s-2".to_string()]);
    let outcome = manager.handle_event(SplitEvent::Failed {
        issue_id: "s-2".to_string(),
        error: "boom".to_string(),
    });
    assert!(matches!(outcome, SplitOutcome::Failed { ref error, .. } if error == "boom"));
    assert!(!manager.is_splitting("s-2"));
}
