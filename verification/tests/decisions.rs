use auto_tag::TagDecision;
use auto_tag::decide_tag_action;
use auto_tag::tag_exists_in;

#[test]
fn existing_tag_is_skipped() {
    assert_eq!(
        decide_tag_action(true, true, false),
        TagDecision::SkipExisting
    );
    assert_eq!(
        decide_tag_action(true, false, true),
        TagDecision::SkipExisting
    );
}

#[test]
fn unresolved_commit_fails_this_manifest_only() {
    assert_eq!(
        decide_tag_action(false, false, false),
        TagDecision::FailUnresolved
    );
    assert_eq!(
        decide_tag_action(false, false, true),
        TagDecision::FailUnresolved
    );
}

#[test]
fn dry_run_reports_instead_of_creating() {
    assert_eq!(decide_tag_action(false, true, true), TagDecision::ReportOnly);
}

#[test]
fn fresh_tag_is_created() {
    assert_eq!(decide_tag_action(false, true, false), TagDecision::CreateTag);
}

#[test]
fn tag_existence_is_exact_match() {
    let tags = vec![
        "release-a-1.0.0".to_string(),
        "release-x*y-2.0.0".to_string(),
    ];
    assert!(tag_exists_in(&tags, "release-a-1.0.0"));
    assert!(tag_exists_in(&tags, "release-x*y-2.0.0"));
    assert!(!tag_exists_in(&tags, "release-a-1.0.1"));
    assert!(!tag_exists_in(&tags, "release-a-*"));
    assert!(!tag_exists_in(&tags, "release-x?y-2.0.0"));
    assert!(!tag_exists_in(&tags, "release-[a]-1.0.0"));
    assert!(!tag_exists_in(&Vec::new(), "release-a-1.0.0"));
}

#[test]
fn only_one_input_combination_creates() {
    for exists in [false, true] {
        for resolved in [false, true] {
            for dry_run in [false, true] {
                let d = decide_tag_action(exists, resolved, dry_run);
                let creates = d == TagDecision::CreateTag;
                assert_eq!(creates, !exists && resolved && !dry_run);
            }
        }
    }
}
