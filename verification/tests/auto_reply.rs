use business::auto_reply::classify::{MessageClass, MessageClassifier};
use business::auto_reply::dedup::{DedupKey, DedupStore, InMemoryDedup};
use business::auto_reply::default_reply::{DefaultReplyStore, InMemoryDefaultReply};
use business::auto_reply::filter::{FilterRule, FilterType, KeywordFilter};
use business::auto_reply::keyword::{KeywordMatcher, KeywordRule, IMAGE_SEND_PREFIX};

#[test]
fn classifies_system_messages() {
    assert_eq!(MessageClassifier::classify("[我已拍下，待付款]", false), MessageClass::System);
    assert_eq!(MessageClassifier::classify("有蚂蚁森林能量可领", false), MessageClass::System);
}

#[test]
fn classifies_delivery_trigger() {
    assert_eq!(
        MessageClassifier::classify("[我已付款，等待你发货]", false),
        MessageClass::AutoDeliveryTrigger
    );
}

#[test]
fn classifies_rate_and_receipt() {
    assert_eq!(MessageClassifier::classify("快给ta一个评价吧~", false), MessageClass::RateRequest);
    assert_eq!(MessageClassifier::classify("买家已确认收货，交易成功", false), MessageClass::System);
    assert_eq!(MessageClassifier::classify("麻烦确认收货", false), MessageClass::ConfirmReceipt);
}

#[test]
fn classifies_self_and_chat() {
    assert_eq!(MessageClassifier::classify("你好", true), MessageClass::SelfMessage);
    assert_eq!(MessageClassifier::classify("你好", false), MessageClass::Chat);
    assert_eq!(MessageClassifier::classify("多少钱", false), MessageClass::Chat);
}

#[test]
fn duplicate_within_window() {
    let mut dedup = InMemoryDedup::new(3600);
    let key = DedupKey::new("chat-1", "你好");
    assert!(!dedup.is_processed(&key));
    dedup.mark_processed(&key);
    assert!(dedup.is_processed(&key));
}

#[test]
fn different_content_not_duplicate() {
    let mut dedup = InMemoryDedup::new(3600);
    let key_a = DedupKey::new("chat-1", "你好");
    let key_b = DedupKey::new("chat-1", "多少钱");
    dedup.mark_processed(&key_a);
    assert!(!dedup.is_processed(&key_b));
}

#[test]
fn expires_after_window() {
    let mut dedup = InMemoryDedup::new(1);
    let key = DedupKey::new("chat-1", "你好");
    dedup.mark_processed_at(&key, 0);
    assert!(dedup.is_processed_at(&key, 999_999_999));
    assert!(!dedup.is_processed_at(&key, 1_500_000_000));
}

#[test]
fn different_chat_not_duplicate() {
    let mut dedup = InMemoryDedup::new(3600);
    let key_a = DedupKey::new("chat-1", "你好");
    let key_b = DedupKey::new("chat-2", "你好");
    dedup.mark_processed(&key_a);
    assert!(!dedup.is_processed(&key_b));
}

#[test]
fn cleanup_drops_only_expired_marks() {
    let mut dedup = InMemoryDedup::new(1);
    let old_key = DedupKey::new("chat-1", "旧消息");
    let new_key = DedupKey::new("chat-1", "新消息");
    dedup.mark_processed_at(&old_key, 0);
    dedup.mark_processed_at(&new_key, 1_000_000_000);
    assert_eq!(dedup.len(), 2);
    dedup.cleanup_at(1_200_000_000);
    assert_eq!(dedup.len(), 1);
    assert!(!dedup.is_processed_at(&old_key, 1_200_000_000));
    assert!(dedup.is_processed_at(&new_key, 1_200_000_000));
}

#[test]
fn remark_restarts_window() {
    let mut dedup = InMemoryDedup::new(1);
    let key = DedupKey::new("chat-1", "你好");
    dedup.mark_processed_at(&key, 0);
    dedup.mark_processed_at(&key, 900_000_000);
    assert_eq!(dedup.len(), 1);
    assert!(dedup.is_processed_at(&key, 1_500_000_000));
}

#[test]
fn item_reply_preferred_over_account() {
    let mut store = InMemoryDefaultReply::default();
    store.add("acc-1", "", "账号默认回复", false);
    store.add("acc-1", "item-1", "商品默认回复", false);
    let reply = store.default_reply("acc-1", Some("item-1")).expect("reply");
    assert_eq!(reply.0, "商品默认回复");
}

#[test]
fn account_reply_fallback() {
    let mut store = InMemoryDefaultReply::default();
    store.add("acc-1", "", "账号默认回复", false);
    let reply = store.default_reply("acc-1", Some("item-9")).expect("reply");
    assert_eq!(reply.0, "账号默认回复");
}

#[test]
fn once_reply_tracks_user() {
    let mut store = InMemoryDefaultReply::default();
    store.add("acc-1", "", "默认回复", true);
    assert!(!store.has_replied("acc-1", "user-1", None));
    store.mark_replied("acc-1", "user-1", None);
    assert!(store.has_replied("acc-1", "user-1", None));
    assert!(!store.has_replied("acc-1", "user-2", None));
}

#[test]
fn no_reply_configured() {
    let store = InMemoryDefaultReply::default();
    assert!(store.default_reply("acc-1", None).is_none());
}

#[test]
fn other_account_reply_not_used() {
    let mut store = InMemoryDefaultReply::default();
    store.add("acc-2", "", "别的账号", false);
    assert!(store.default_reply("acc-1", None).is_none());
}

fn filter() -> KeywordFilter {
    KeywordFilter::new(vec![
        FilterRule {
            id: 1,
            account_id: String::new(),
            owner_id: 0,
            filter_type: FilterType::SkipReply,
            keyword: "勿扰".to_string(),
            enabled: true,
        },
        FilterRule {
            id: 2,
            account_id: String::new(),
            owner_id: 0,
            filter_type: FilterType::SkipNotify,
            keyword: "广告".to_string(),
            enabled: true,
        },
    ])
}

#[test]
fn skips_reply_by_keyword() {
    assert!(filter().skip_reply("我现在勿扰"));
    assert!(!filter().skip_reply("你好"));
}

#[test]
fn skips_notify_by_keyword() {
    assert!(filter().skip_notify("发广告"));
    assert!(filter().skip_notify("广告？不需要"));
    assert!(!filter().skip_notify("你好呀"));
}

#[test]
fn reply_and_notify_are_independent() {
    assert!(filter().skip_reply("勿扰勿扰"));
    assert!(!filter().skip_notify("勿扰勿扰"));
}

#[test]
fn filter_type_wire_names_roundtrip() {
    assert_eq!(FilterType::SkipReply.as_str(), "skip_reply");
    assert_eq!(FilterType::from_str("skip_notify"), FilterType::SkipNotify);
    assert_eq!(FilterType::from_str(FilterType::SkipReply.as_str()), FilterType::SkipReply);
    assert_eq!(FilterType::from_str("whatever"), FilterType::SkipReply);
}

fn rule(keyword: &str, reply: &str, item_id: &str) -> KeywordRule {
    KeywordRule {
        id: 0,
        account_id: String::new(),
        keyword: keyword.to_string(),
        reply: reply.to_string(),
        item_id: item_id.to_string(),
        rule_type: "text".to_string(),
        image_url: String::new(),
        item_title: String::new(),
    }
}

#[test]
fn matches_global_keyword() {
    let matcher = KeywordMatcher::new(vec![rule("在吗", "在的", "")]);
    let found = matcher.match_message("老板在吗", None).expect("matched");
    assert_eq!(found.matched_keyword, "在吗");
}

#[test]
fn item_specific_rule_wins() {
    let matcher = KeywordMatcher::new(vec![rule("价格", "全局价格回复", ""), rule("价格", "商品专属回复", "item-1")]);
    let found = matcher.match_message("价格多少", Some("item-1")).expect("matched");
    assert_eq!(found.rule.reply, "商品专属回复");
}

#[test]
fn multi_line_keyword_matches_any_line() {
    let matcher = KeywordMatcher::new(vec![rule("在吗\n你好", "回复", "")]);
    assert!(matcher.match_message("你好", None).is_some());
    assert!(matcher.match_message("在吗", None).is_some());
}

#[test]
fn renders_variable_replacement() {
    let matcher = KeywordMatcher::new(vec![rule("你好", "你好{send_user_name}，商品{item_id}", "")]);
    let found = matcher.match_message("你好", None).expect("matched");
    let rendered = KeywordMatcher::render_reply(&found, "小明", "uid", "你好", "it-9");
    assert_eq!(rendered, "你好小明，商品it-9");
}

#[test]
fn renders_image_instruction() {
    let image_rule = KeywordRule {
        id: 0,
        account_id: String::new(),
        keyword: "图".to_string(),
        reply: String::new(),
        item_id: String::new(),
        rule_type: "image".to_string(),
        image_url: "https://x/y.png".to_string(),
        item_title: String::new(),
    };
    let matcher = KeywordMatcher::new(vec![image_rule]);
    let found = matcher.match_message("发图", None).expect("matched");
    let rendered = KeywordMatcher::render_reply(&found, "", "", "", "");
    assert!(rendered.starts_with(IMAGE_SEND_PREFIX));
    assert!(rendered.contains("y.png"));
    assert_eq!(rendered, "__IMAGE_SEND__|KW:图|https://x/y.png");
}

#[test]
fn no_match_returns_none() {
    let matcher = KeywordMatcher::new(vec![rule("在吗", "在的", "")]);
    assert!(matcher.match_message("多少钱", None).is_none());
}

#[test]
fn keyword_matching_ignores_case() {
    let matcher = KeywordMatcher::new(vec![rule("Hello", "hi", "")]);
    let found = matcher.match_message("oh HELLO there", None).expect("matched");
    assert_eq!(found.matched_keyword, "Hello");
}

#[test]
fn other_item_rule_not_used() {
    let matcher = KeywordMatcher::new(vec![rule("价格", "别的商品", "item-2")]);
    assert!(matcher.match_message("价格多少", Some("item-1")).is_none());
    assert!(matcher.match_message("价格多少", None).is_none());
}
