use miniflux_filter::api::{Entry, Feed};
use miniflux_filter::rules::{
    is_rule_file_name, Action, Condition, Field, Operator, Rule, RuleSet, ValidationError,
};

fn entry_with(title: &str, tags: Vec<&str>) -> Entry {
    Entry {
        id: 1,
        title: title.to_string(),
        url: "https://example.com".to_string(),
        content: "Some content".to_string(),
        author: "Author".to_string(),
        status: "unread".to_string(),
        feed: Feed {
            id: 123,
            title: "Test Feed".to_string(),
            site_url: "https://example.com".to_string(),
            feed_url: "https://example.com/feed".to_string(),
        },
        published_at: "2024-01-01T00:00:00Z".to_string(),
        created_at: "2024-01-01T00:00:00Z".to_string(),
        tags: tags.into_iter().map(|t| t.to_string()).collect(),
    }
}

fn single_rule(enabled: Option<bool>, conditions: Vec<Condition>) -> RuleSet {
    RuleSet {
        feed_id: 123,
        feed_name: Some("Test Feed".to_string()),
        enabled,
        rules: vec![Rule { action: Action::MarkRead, conditions }],
    }
}

fn cond(field: Field, operator: Operator, value: &str) -> Condition {
    Condition { field, operator, value: value.to_string() }
}

fn holds(field: Field, operator: Operator, value: &str, entry: &Entry) -> bool {
    let rs = single_rule(Some(true), vec![]);
    rs.evaluate_condition(&cond(field, operator, value), entry)
}

#[test]
fn test_rule_evaluation() {
    let rule_set = single_rule(
        Some(true),
        vec![cond(Field::Title, Operator::Contains, "advertisement")],
    );
    let entry = entry_with("This is an Advertisement", vec![]);
    let matches = rule_set.evaluate(&entry);
    assert_eq!(matches, vec![0]);
}

#[test]
fn test_disabled_rule_set() {
    let rule_set = single_rule(Some(false), vec![cond(Field::Title, Operator::Contains, "test")]);
    let entry = entry_with("This is a test", vec![]);
    let matches = rule_set.evaluate(&entry);
    assert!(matches.is_empty());
}

#[test]
fn test_tag_evaluation() {
    let rule_set = single_rule(Some(true), vec![cond(Field::Tag, Operator::Matches, "(?i)sports")]);
    let entry = entry_with("Test Article", vec!["News", "Sports"]);
    let matches = rule_set.evaluate(&entry);
    assert_eq!(matches, vec![0]);
}

#[test]
fn contains_compares_lowercase_forms() {
    let e = entry_with("Breaking NEWS today", vec![]);
    assert!(holds(Field::Title, Operator::Contains, "news", &e));
    assert!(holds(Field::Title, Operator::Contains, "NeWs ToDaY", &e));
    assert!(!holds(Field::Title, Operator::Contains, "weather", &e));
    assert!(holds(Field::Title, Operator::NotContains, "weather", &e));
    assert!(!holds(Field::Title, Operator::NotContains, "breaking", &e));
    // Unicode lowercase is used, not only ASCII.
    let u = entry_with("ÜBER alles", vec![]);
    assert!(holds(Field::Title, Operator::Contains, "über", &u));
}

#[test]
fn equals_and_not_equals_are_complements() {
    let e = entry_with("Hello World", vec!["Rust", "News"]);
    for field in [Field::Title, Field::Content, Field::Author, Field::Url, Field::Tag] {
        for value in ["hello world", "HELLO WORLD", "Hello", "rust", "news", "author", ""] {
            assert_eq!(
                holds(field, Operator::Equals, value, &e),
                !holds(field, Operator::NotEquals, value, &e)
            );
        }
    }
    assert!(holds(Field::Title, Operator::Equals, "hello WORLD", &e));
    assert!(!holds(Field::Title, Operator::Equals, "hello", &e));
}

#[test]
fn starts_and_ends_with_ignore_case() {
    let e = entry_with("Weekly Digest", vec!["Tech-News", "Sports"]);
    assert!(holds(Field::Title, Operator::StartsWith, "weekly", &e));
    assert!(!holds(Field::Title, Operator::StartsWith, "digest", &e));
    assert!(holds(Field::Title, Operator::EndsWith, "DIGEST", &e));
    assert!(!holds(Field::Title, Operator::EndsWith, "weekly", &e));
    assert!(holds(Field::Tag, Operator::StartsWith, "tech", &e));
    assert!(holds(Field::Tag, Operator::EndsWith, "ORTS", &e));
    assert!(!holds(Field::Tag, Operator::StartsWith, "news", &e));
}

#[test]
fn field_resolution_reads_the_named_field() {
    let e = entry_with("Title text", vec![]);
    assert!(holds(Field::Content, Operator::Equals, "some content", &e));
    assert!(holds(Field::Author, Operator::Equals, "author", &e));
    assert!(holds(Field::Url, Operator::StartsWith, "https://", &e));
    assert!(!holds(Field::Content, Operator::Contains, "title", &e));
}

#[test]
fn tag_equals_matches_any_tag_ignoring_case() {
    let e = entry_with("x", vec!["News", "Sports"]);
    assert!(holds(Field::Tag, Operator::Equals, "sports", &e));
    assert!(!holds(Field::Tag, Operator::Equals, "sport", &e));
    assert!(!holds(Field::Tag, Operator::NotEquals, "sports", &e));
    assert!(holds(Field::Tag, Operator::NotEquals, "sport", &e));
}

#[test]
fn tag_contains_looks_across_joined_tags() {
    let e = entry_with("x", vec!["foo", "bar"]);
    assert!(holds(Field::Tag, Operator::Contains, "oo b", &e));
    assert!(holds(Field::Tag, Operator::Contains, "BAR", &e));
    assert!(!holds(Field::Tag, Operator::Contains, "foobar", &e));
    let none = entry_with("x", vec![]);
    assert!(!holds(Field::Tag, Operator::Contains, "a", &none));
    assert!(holds(Field::Tag, Operator::NotContains, "a", &none));
    assert!(!holds(Field::Tag, Operator::Equals, "a", &none));
    assert!(holds(Field::Tag, Operator::NotEquals, "a", &none));
}

#[test]
fn regex_matching_is_case_sensitive() {
    let e = entry_with("Release v1.2.3", vec!["News"]);
    assert!(holds(Field::Title, Operator::Matches, r"v\d+\.\d+", &e));
    assert!(!holds(Field::Title, Operator::Matches, "release", &e));
    assert!(holds(Field::Title, Operator::Matches, "(?i)release", &e));
    assert!(!holds(Field::Tag, Operator::Matches, "news", &e));
}

#[test]
fn invalid_regex_evaluates_to_false() {
    let e = entry_with("anything (", vec!["a("]);
    assert!(!holds(Field::Title, Operator::Matches, "(", &e));
    assert!(!holds(Field::Tag, Operator::Matches, "a(", &e));
    let rs = single_rule(Some(true), vec![cond(Field::Title, Operator::Matches, "foo(bar")]);
    assert!(rs.evaluate(&e).is_empty());
}

#[test]
fn rule_needs_every_condition() {
    let rs = single_rule(
        Some(true),
        vec![cond(Field::Title, Operator::Contains, "ad"), cond(Field::Author, Operator::Equals, "author")],
    );
    assert_eq!(rs.evaluate(&entry_with("An ad", vec![])), vec![0]);
    let other = single_rule(
        Some(true),
        vec![cond(Field::Title, Operator::Contains, "ad"), cond(Field::Author, Operator::Equals, "someone")],
    );
    assert!(other.evaluate(&entry_with("An ad", vec![])).is_empty());
    assert!(rs.evaluate_rule(&rs.rules[0], &entry_with("An ad", vec![])));
    assert!(!other.evaluate_rule(&other.rules[0], &entry_with("An ad", vec![])));
}

#[test]
fn evaluate_lists_every_matching_rule_in_order() {
    let rs = RuleSet {
        feed_id: 5,
        feed_name: None,
        enabled: None,
        rules: vec![
            Rule { action: Action::MarkRead, conditions: vec![cond(Field::Title, Operator::Contains, "a")] },
            Rule { action: Action::MarkRead, conditions: vec![cond(Field::Title, Operator::Contains, "zzz")] },
            Rule { action: Action::MarkRead, conditions: vec![cond(Field::Title, Operator::StartsWith, "ab")] },
        ],
    };
    assert!(rs.is_enabled());
    assert_eq!(rs.evaluate(&entry_with("abc", vec![])), vec![0, 2]);
}

#[test]
fn disabled_rule_set_matches_nothing_whatever_its_rules() {
    let rs = single_rule(Some(false), vec![cond(Field::Title, Operator::NotContains, "qqq")]);
    assert!(!rs.is_enabled());
    assert!(rs.evaluate(&entry_with("anything", vec![])).is_empty());
}

#[test]
fn validate_accepts_a_good_rule_set() {
    let rs = single_rule(Some(true), vec![cond(Field::Title, Operator::Matches, "^ad")]);
    assert_eq!(rs.validate(), Ok(()));
    let empty = RuleSet { feed_id: 1, feed_name: None, enabled: None, rules: vec![] };
    assert_eq!(empty.validate(), Ok(()));
}

#[test]
fn validate_rejects_rule_without_conditions() {
    let rs = RuleSet {
        feed_id: 1,
        feed_name: None,
        enabled: None,
        rules: vec![
            Rule { action: Action::MarkRead, conditions: vec![cond(Field::Title, Operator::Contains, "x")] },
            Rule { action: Action::MarkRead, conditions: vec![] },
        ],
    };
    assert_eq!(rs.validate(), Err(ValidationError::NoConditions { rule: 2 }));
}

#[test]
fn validate_rejects_blank_value() {
    let rs = single_rule(
        Some(true),
        vec![cond(Field::Title, Operator::Contains, "x"), cond(Field::Author, Operator::Equals, "  \t ")],
    );
    assert_eq!(rs.validate(), Err(ValidationError::EmptyValue { rule: 1, condition: 2 }));
}

#[test]
fn validate_rejects_invalid_regex_with_position() {
    let rs = RuleSet {
        feed_id: 1,
        feed_name: None,
        enabled: None,
        rules: vec![
            Rule { action: Action::MarkRead, conditions: vec![cond(Field::Title, Operator::Contains, "x")] },
            Rule {
                action: Action::MarkRead,
                conditions: vec![
                    cond(Field::Title, Operator::Matches, "ok"),
                    cond(Field::Title, Operator::Matches, "foo(bar"),
                ],
            },
        ],
    };
    assert_eq!(
        rs.validate(),
        Err(ValidationError::InvalidPattern { rule: 2, condition: 2, pattern: "foo(bar".to_string() })
    );
}

#[test]
fn rule_files_are_toml_files() {
    assert!(is_rule_file_name("feed_123.toml"));
    assert!(is_rule_file_name("a.toml"));
    assert!(!is_rule_file_name(".toml"));
    assert!(!is_rule_file_name("feed.json"));
    assert!(!is_rule_file_name("feed.TOML"));
    assert!(!is_rule_file_name("toml"));
}
