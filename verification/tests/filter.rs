use strand::bd::Issue;
use strand::core_state::filter::Filter;

fn make_issue(status: &str, labels: &[&str]) -> Issue {
    Issue {
        id: "test-1".to_string(),
        title: "test".into(),
        status: status.into(),
        priority: None,
        description: None,
        labels: labels.iter().map(|l| l.to_string()).collect(),
        issue_type: None,
        updated_at: None,
        estimate: None,
    }
}

#[test]
fn empty_filter_matches_all() {
    let f = Filter::new();
    assert!(f.matches(&make_issue("open", &[])));
    assert!(f.matches(&make_issue("closed", &["bug"])));
}

#[test]
fn status_filter_is_or() {
    let mut f = Filter::new();
    f.insert_status("open".into());
    f.insert_status("in_progress".into());

    assert!(f.matches(&make_issue("open", &[])));
    assert!(f.matches(&make_issue("in_progress", &[])));
    assert!(!f.matches(&make_issue("closed", &[])));
}

#[test]
fn label_filter_is_or() {
    let mut f = Filter::new();
    f.insert_label("bug".into());
    f.insert_label("ui".into());

    assert!(f.matches(&make_issue("open", &["bug"])));
    assert!(f.matches(&make_issue("open", &["ui"])));
    assert!(f.matches(&make_issue("open", &["bug", "ui"])));
    assert!(!f.matches(&make_issue("open", &["backend"])));
}

#[test]
fn combined_filter_is_and_between_status_and_label() {
    let mut f = Filter::new();
    f.insert_status("open".into());
    f.insert_label("bug".into());

    assert!(f.matches(&make_issue("open", &["bug"])));
    assert!(!f.matches(&make_issue("closed", &["bug"])));
    assert!(!f.matches(&make_issue("open", &["ui"])));
}

#[test]
fn strand_labels_are_ignored() {
    let mut f = Filter::new();
    f.insert_label("bug".into());

    assert!(!f.matches(&make_issue("open", &["strand-unread"])));
    assert!(f.matches(&make_issue("open", &["bug", "strand-unread"])));
}

#[test]
fn refresh_labels_excludes_strand() {
    let mut f = Filter::new();
    let issues = vec![
        make_issue("open", &["bug", "strand-unread"]),
        make_issue("open", &["ui", "strand-enriched"]),
    ];
    f.refresh_labels(&issues);
    assert_eq!(f.available_labels, vec!["bug", "ui"]);
}

#[test]
fn refresh_labels_sorts_and_dedups() {
    let mut f = Filter::new();
    let issues = vec![
        make_issue("open", &["zeta", "alpha"]),
        make_issue("open", &["alpha", "mid"]),
    ];
    f.refresh_labels(&issues);
    assert_eq!(f.available_labels, vec!["alpha", "mid", "zeta"]);
}

#[test]
fn inserting_twice_keeps_one() {
    let mut f = Filter::new();
    f.insert_status("open".into());
    f.insert_status("open".into());
    assert_eq!(f.statuses, vec!["open"]);
}

#[test]
fn display_text_sorts_each_part() {
    let mut f = Filter::new();
    assert_eq!(f.display_text(), "");
    f.insert_status("open".into());
    f.insert_status("closed".into());
    assert_eq!(f.display_text(), "status:closed,open");
    f.insert_label("ui".into());
    f.insert_label("bug".into());
    assert_eq!(f.display_text(), "status:closed,open label:bug,ui");
    f.clear();
    assert!(!f.is_active());
    assert_eq!(f.display_text(), "");
}

#[test]
fn statuses_in_toggle_order() {
    assert_eq!(
        strand::core_state::filter::statuses(),
        vec!["open", "in_progress", "deferred", "closed"]
    );
}
