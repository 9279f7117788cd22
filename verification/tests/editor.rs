use strand::editor::{edit_template, parse_create, parse_edit};

#[test]
fn create_takes_the_first_line() {
    assert_eq!(parse_create("  New issue  \nmore\n").unwrap().title, "New issue");
    assert!(parse_create("").is_none());
    assert!(parse_create("   \nbody").is_none());
}

#[test]
fn edit_reports_what_changed() {
    let text = edit_template("Title", "Desc");
    assert_eq!(text, "Title\n\nDesc");
    assert!(parse_edit("i-1", "Title", "Desc", &text).is_none());
    let e = parse_edit("i-1", "Title", "Desc", "Title\n\nNew desc\nline 2\n").unwrap();
    assert_eq!(e.issue_id, "i-1");
    assert!(!e.title_changed);
    assert!(e.desc_changed);
    assert_eq!(e.new_desc, "New desc\nline 2");
    let e = parse_edit("i-1", "Title", "Desc", "Other\r\n\r\nDesc").unwrap();
    assert!(e.title_changed);
    assert!(!e.desc_changed);
    assert_eq!(e.new_title, "Other");
}

#[test]
fn emptied_text_clears_both() {
    let e = parse_edit("i-1", "T", "D", "").unwrap();
    assert_eq!(e.new_title, "");
    assert_eq!(e.new_desc, "");
    assert!(e.title_changed && e.desc_changed);
}
