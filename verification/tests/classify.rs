use pr_reporter::summary::{categorize_pr, first_matching, Category};

fn category(title: &str) -> Option<String> {
    categorize_pr(&title.to_string())
}

#[test]
fn a_fix_title_is_a_fix() {
    assert_eq!(category("fix: correct off-by-one"), Some("fix".to_string()));
}

#[test]
fn the_case_of_the_prefix_does_not_matter() {
    assert_eq!(category("Feat: add export"), Some("feat".to_string()));
    assert_eq!(category("FIX: shout"), Some("fix".to_string()));
    assert_eq!(category("ReFaCtOr: mixed"), Some("refactor".to_string()));
}

#[test]
fn a_title_without_prefix_has_no_category() {
    assert_eq!(category("update readme"), None);
    assert_eq!(category(""), None);
    assert_eq!(category("fix the build"), None);
    assert_eq!(category("fix :"), None);
}

#[test]
fn each_prefix_tells_its_category() {
    assert_eq!(category("fix: a"), Some("fix".to_string()));
    assert_eq!(category("feat: a"), Some("feat".to_string()));
    assert_eq!(category("refactor: a"), Some("refactor".to_string()));
    assert_eq!(category("test: a"), Some("test".to_string()));
    assert_eq!(category("build: a"), Some("build".to_string()));
    assert_eq!(category("chore: a"), Some("chore".to_string()));
}

#[test]
fn white_space_may_stand_before_the_prefix() {
    assert_eq!(category("  fix: indented"), Some("fix".to_string()));
    assert_eq!(category("\t\nchore: tabs"), Some("chore".to_string()));
}

#[test]
fn the_prefix_is_found_anywhere_in_the_title() {
    assert_eq!(category("[urgent] fix: crash"), Some("fix".to_string()));
    assert_eq!(category("hotfix: crash"), Some("fix".to_string()));
    assert_eq!(category("WIP build:"), Some("build".to_string()));
}

#[test]
fn the_earlier_category_wins_where_several_match() {
    assert_eq!(category("chore: fix: both"), Some("fix".to_string()));
    assert_eq!(category("test: feat: both"), Some("feat".to_string()));
    assert_eq!(category("chore: build: test: refactor:"), Some("refactor".to_string()));
    assert_eq!(category("chore: build: test:"), Some("test".to_string()));
    assert_eq!(category("chore: build:"), Some("build".to_string()));
}

#[test]
fn first_matching_takes_the_first_hit() {
    assert_eq!(first_matching(&[false; 6]), None);
    assert_eq!(first_matching(&[true; 6]), Some(Category::Fix));
    assert_eq!(first_matching(&[false, true, false, true, false, true]), Some(Category::Feat));
    assert_eq!(first_matching(&[false, false, true, false, false, false]), Some(Category::Refactor));
    assert_eq!(first_matching(&[false, false, false, true, true, true]), Some(Category::Test));
    assert_eq!(first_matching(&[false, false, false, false, true, true]), Some(Category::Build));
    assert_eq!(first_matching(&[false, false, false, false, false, true]), Some(Category::Chore));
}

#[test]
fn every_category_has_its_name_and_all_but_unlabeled_a_pattern() {
    let all = [
        (Category::Fix, "fix"),
        (Category::Feat, "feat"),
        (Category::Refactor, "refactor"),
        (Category::Test, "test"),
        (Category::Build, "build"),
        (Category::Chore, "chore"),
    ];
    for (category, name) in all {
        assert_eq!(category.label(), name);
        assert_eq!(category.pattern(), Some(format!("(?i)\\s*{}:", name).as_str()));
    }
    assert_eq!(Category::Unlabeled.label(), "unlabeled");
    assert_eq!(Category::Unlabeled.pattern(), None);
}
