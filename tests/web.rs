use miniflux_filter::api::Feed;
use miniflux_filter::rules::RuleSet;
use miniflux_filter::web::{
    feed_infos, find_feed, find_rule_set, new_rule_set, rule_set_for_execution, update_matches_path,
    ApiResponse, CreateRuleSetRequest, ExecuteError,
};

fn rule_set(feed_id: u64, enabled: Option<bool>) -> RuleSet {
    RuleSet { feed_id, feed_name: None, enabled, rules: vec![] }
}

fn feed(id: u64, title: &str) -> Feed {
    Feed {
        id,
        title: title.to_string(),
        site_url: format!("https://{}.example.com", title),
        feed_url: format!("https://{}.example.com/feed", title),
    }
}

#[test]
fn execution_needs_an_enabled_rule_set() {
    let sets = vec![rule_set(1, Some(false)), rule_set(2, None), rule_set(2, Some(false))];
    assert_eq!(rule_set_for_execution(&sets, 3), Err(ExecuteError::NoRuleSet));
    assert_eq!(rule_set_for_execution(&sets, 1), Err(ExecuteError::Disabled));
    assert_eq!(rule_set_for_execution(&sets, 2), Ok(1));
    assert_eq!(find_rule_set(&sets, 2), Some(1));
    assert_eq!(find_rule_set(&sets, 9), None);
}

#[test]
fn feeds_are_described_with_their_rules() {
    let feeds = vec![feed(1, "a"), feed(2, "b")];
    let infos = feed_infos(&feeds, &vec![rule_set(2, None)]);
    assert_eq!(infos.len(), 2);
    assert_eq!(infos[0].id, 1);
    assert_eq!(infos[0].title, "a");
    assert_eq!(infos[0].feed_url, "https://a.example.com/feed");
    assert!(!infos[0].has_rules);
    assert!(infos[1].has_rules);
    assert_eq!(find_feed(&feeds, 2), Some(1));
    assert_eq!(find_feed(&feeds, 3), None);
}

#[test]
fn created_rule_set_is_empty_and_enabled() {
    let rs = new_rule_set(&CreateRuleSetRequest { feed_id: 77 });
    assert_eq!(rs.feed_id, 77);
    assert!(rs.rules.is_empty());
    assert!(rs.is_enabled());
    assert!(update_matches_path(77, &rs));
    assert!(!update_matches_path(78, &rs));
}

#[test]
fn replies_carry_data_or_error() {
    let ok = ApiResponse::ok(5u32);
    assert!(ok.success && ok.data == Some(5) && ok.error.is_none());
    let err: ApiResponse<u32> = ApiResponse::failure("boom".to_string());
    assert!(!err.success && err.data.is_none());
    assert_eq!(err.error.as_deref(), Some("boom"));
}
