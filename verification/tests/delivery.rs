use business::blacklist::PersonalBlacklistItem;
use business::delivery::base::{DeliveryRule, RuleCheckResult};
use business::delivery::context::DeliveryCheckContext;
use business::delivery::data::{BlacklistRecord, DeliveryDataSource};
use business::delivery::engine::{DeliveryEngine, DeliveryRequest, RuleConfig};
use business::delivery::execution::card::{Card, CardSelector, CardSource};
use business::delivery::execution::content::{ContentContext, ContentGenerator};
use business::delivery::registry::DeliveryRuleRegistry;
use business::delivery::rules::buyer_credit::BuyerCreditRule;
use business::delivery::rules::buyer_has_order::BuyerHasOrderRule;
use business::delivery::rules::buyer_has_order_global::BuyerHasOrderGlobalRule;
use business::delivery::rules::buyer_unconfirmed::BuyerUnconfirmedRule;
use business::delivery::rules::personal_blacklist::PersonalBlacklistRule;
use business::params::{ExtraValue, ParamValue, RuleParams};
use business::DingDaResult;

fn card(source: CardSource) -> Card {
    Card {
        id: 1,
        owner_id: 0,
        account_id: String::new(),
        name: "卡".to_string(),
        card_type: "text".to_string(),
        source,
        enabled: true,
        text_content: "内容".to_string(),
        data_content: String::new(),
        image_url: String::new(),
        image_urls: String::new(),
        api_config: String::new(),
        delay_seconds: 0,
        description: String::new(),
    }
}

#[test]
fn selects_own_first() {
    let cards = vec![card(CardSource::DockL1), card(CardSource::Own)];
    assert_eq!(CardSelector::select(&cards).map(|c| c.source), Some(CardSource::Own));
}

#[test]
fn skips_source_with_multiple_cards() {
    let cards = vec![card(CardSource::Own), card(CardSource::Own), card(CardSource::DockL1)];
    assert_eq!(CardSelector::select(&cards).map(|c| c.source), Some(CardSource::DockL1));
}

#[test]
fn none_when_no_unique_group() {
    let cards = vec![card(CardSource::Own), card(CardSource::Own)];
    assert!(CardSelector::select(&cards).is_none());
    assert!(CardSelector::select(&[]).is_none());
}

#[test]
fn dock_level_two_selected_last() {
    let cards = vec![card(CardSource::DockL1), card(CardSource::DockL1), card(CardSource::DockL2)];
    assert_eq!(CardSelector::select(&cards).map(|c| c.source), Some(CardSource::DockL2));
}

#[test]
fn dock_detection() {
    assert!(card(CardSource::DockL1).is_dock());
    assert!(card(CardSource::DockL2).is_dock());
    assert!(!card(CardSource::Own).is_dock());
}

#[test]
fn source_str_roundtrip() {
    assert_eq!(CardSource::from_str("dock_l1"), CardSource::DockL1);
    assert_eq!(CardSource::from_str("unknown"), CardSource::Own);
    assert_eq!(CardSource::Own.as_str(), "own");
    assert_eq!(CardSource::from_str(CardSource::DockL2.as_str()), CardSource::DockL2);
}

fn content_card(card_type: &str, content: &str) -> Card {
    Card {
        id: 1,
        owner_id: 0,
        account_id: String::new(),
        name: "卡".to_string(),
        card_type: card_type.to_string(),
        source: CardSource::Own,
        enabled: true,
        text_content: content.to_string(),
        data_content: "data1\ndata2".to_string(),
        image_url: String::new(),
        image_urls: String::new(),
        api_config: String::new(),
        delay_seconds: 0,
        description: String::new(),
    }
}

#[test]
fn text_card_uses_fixed_content() {
    let c = content_card("text", "欢迎购买");
    let ctx = ContentContext::default();
    let content = ContentGenerator::generate(&c, &ctx, || None).expect("content");
    assert_eq!(content.to_text(), "欢迎购买");
}

#[test]
fn data_card_consumes_one_line() {
    let c = content_card("data", "");
    let ctx = ContentContext::default();
    let content = ContentGenerator::generate(&c, &ctx, || Some("data1".to_string())).expect("content");
    assert_eq!(content.text, "data1");
}

#[test]
fn data_card_none_when_exhausted() {
    let c = content_card("data", "");
    let ctx = ContentContext::default();
    assert!(ContentGenerator::generate(&c, &ctx, || None).is_none());
}

#[test]
fn image_card_returns_url() {
    let mut c = content_card("image", "");
    c.image_url = "https://x/y.png".to_string();
    let ctx = ContentContext::default();
    let content = ContentGenerator::generate(&c, &ctx, || None).expect("content");
    assert_eq!(content.image_urls, vec!["https://x/y.png"]);
}

#[test]
fn image_list_json_preferred_over_single_url() {
    let mut c = content_card("image", "");
    c.image_url = "https://x/single.png".to_string();
    c.image_urls = "[\"https://x/a.png\", \"\", \"https://x/b.png\"]".to_string();
    let ctx = ContentContext::default();
    let content = ContentGenerator::generate(&c, &ctx, || None).expect("content");
    assert_eq!(content.image_urls, vec!["https://x/a.png", "https://x/b.png"]);
    assert_eq!(content.to_text(), "https://x/a.png\nhttps://x/b.png");
}

#[test]
fn description_vars_replaced() {
    let mut c = content_card("text", "卡密{order_id}");
    c.description = "{DELIVERY_CONTENT} - 订单{order_id}".to_string();
    let mut ctx = ContentContext::default();
    ctx.order_id = "O-1".to_string();
    let content = ContentGenerator::generate(&c, &ctx, || None).expect("content");
    assert_eq!(content.to_text(), "卡密O-1 - 订单O-1");
}

#[test]
fn api_card_uses_fetched() {
    let c = content_card("api", "");
    let ctx = ContentContext::default();
    let content = ContentGenerator::generate_with_api(&c, &ctx, || None, |_| Some("API卡密".to_string()));
    assert_eq!(content.expect("content").text, "API卡密");
}

#[test]
fn unsupported_type_returns_none() {
    let c = content_card("video", "");
    let ctx = ContentContext::default();
    assert!(ContentGenerator::generate(&c, &ctx, || None).is_none());
}

#[test]
fn hit_result_shape() {
    let result = RuleCheckResult::hit("buyer_credit_zero", "买家信用度检查", "评价数为0".to_string())
        .with_extra("total_count", ExtraValue::Int(0));
    assert!(result.hit);
    assert_eq!(result.rule_code, "buyer_credit_zero");
    assert_eq!(result.extra("total_count"), Some(ExtraValue::Int(0)));
}

#[test]
fn pass_result_is_not_hit() {
    let result = RuleCheckResult::pass("r", "规则");
    assert!(!result.hit);
    assert!(result.reason.is_empty());
}

#[test]
fn registry_returns_known_rules() {
    for code in ["buyer_credit_zero", "buyer_has_order", "buyer_has_order_global", "buyer_unconfirmed", "personal_blacklist"] {
        let rule = DeliveryRuleRegistry::instance(code).expect("registered rule");
        assert_eq!(rule.rule_code(), code);
    }
}

#[test]
fn registry_unknown_returns_none() {
    assert!(DeliveryRuleRegistry::instance("not_a_rule").is_none());
}

#[test]
fn metadata_covers_all_rules() {
    let metadata = DeliveryRuleRegistry::all_metadata();
    assert_eq!(metadata.len(), 5);
    assert!(metadata.iter().all(|m| !m.rule_code.is_empty()));
}

struct Data {
    rate: DingDaResult<u32>,
    orders: u32,
    owner_orders: u32,
    unconfirmed: u32,
    blacklist: Option<BlacklistRecord>,
}

fn data() -> Data {
    Data { rate: Ok(0), orders: 0, owner_orders: 0, unconfirmed: 0, blacklist: None }
}

impl DeliveryDataSource for Data {
    fn count_buyer_orders(&self, _account_id: &str, _buyer_id: &str, _exclude: &str, _item_id: Option<&str>) -> DingDaResult<u32> {
        Ok(self.orders)
    }
    fn count_owner_orders(&self, _owner_id: i64, _buyer_id: &str, _exclude: &str, _item_id: Option<&str>) -> DingDaResult<u32> {
        Ok(self.owner_orders)
    }
    fn count_unconfirmed_orders(&self, _account_id: &str, _buyer_id: &str, _exclude: &str, _item_id: Option<&str>) -> DingDaResult<u32> {
        Ok(self.unconfirmed)
    }
    fn find_blacklist(&self, _owner_id: i64, _account_id: &str, _buyer_id: &str, _item_id: Option<&str>) -> DingDaResult<Option<BlacklistRecord>> {
        Ok(self.blacklist.clone())
    }
    fn fetch_buyer_rate_count(&self, _buyer_id: &str) -> DingDaResult<u32> {
        self.rate.clone()
    }
}

fn ctx<'a>(item_id: Option<&'a str>, owner_id: Option<i64>, config: &'a RuleParams, data: &'a dyn DeliveryDataSource) -> DeliveryCheckContext<'a> {
    DeliveryCheckContext {
        account_id: "acc-1",
        cookies_str: "",
        order_no: "o-1",
        buyer_id: "buyer-1",
        item_id,
        chat_id: None,
        log_prefix: "",
        rule_config: config,
        account_pk: None,
        owner_id,
        data,
    }
}

#[test]
fn hits_when_zero_ratings() {
    let d = data();
    let config = RuleParams::new();
    let result = BuyerCreditRule.check(&ctx(None, None, &config, &d)).expect("check");
    assert!(result.hit);
    assert_eq!(result.extra("total_count"), Some(ExtraValue::Int(0)));
    assert_eq!(result.reason, "买家评价数为0（阈值0），已禁止发货");
}

#[test]
fn passes_when_above_threshold() {
    let mut d = data();
    d.rate = Ok(5);
    let config = RuleParams::new();
    let result = BuyerCreditRule.check(&ctx(None, None, &config, &d)).expect("check");
    assert!(!result.hit);
}

#[test]
fn passes_with_custom_threshold() {
    let mut d = data();
    d.rate = Ok(2);
    let config = RuleParams::new().with("threshold", ParamValue::UInt(3));
    let result = BuyerCreditRule.check(&ctx(None, None, &config, &d)).expect("check");
    assert!(result.hit);
}

#[test]
fn fails_open_on_api_error() {
    let mut d = data();
    d.rate = Err("api down".to_string());
    let config = RuleParams::new();
    let result = BuyerCreditRule.check(&ctx(None, None, &config, &d)).expect("check");
    assert!(!result.hit);
    assert_eq!(result.extra("total_count"), Some(ExtraValue::Int(-1)));
}

#[test]
fn hits_when_buyer_has_orders() {
    let mut d = data();
    d.orders = 2;
    let config = RuleParams::new();
    let result = BuyerHasOrderRule.check(&ctx(Some("item-9"), None, &config, &d)).expect("check");
    assert!(result.hit);
    assert_eq!(result.extra("order_count"), Some(ExtraValue::Int(2)));
}

#[test]
fn passes_when_no_orders() {
    let d = data();
    let config = RuleParams::new();
    let result = BuyerHasOrderRule.check(&ctx(Some("item-9"), None, &config, &d)).expect("check");
    assert!(!result.hit);
}

#[test]
fn hits_when_owner_has_orders() {
    let mut d = data();
    d.owner_orders = 3;
    let config = RuleParams::new();
    let result = BuyerHasOrderGlobalRule.check(&ctx(None, Some(7), &config, &d)).expect("check");
    assert!(result.hit);
}

#[test]
fn passes_without_orders() {
    let d = data();
    let config = RuleParams::new();
    let result = BuyerHasOrderGlobalRule.check(&ctx(None, Some(7), &config, &d)).expect("check");
    assert!(!result.hit);
}

#[test]
fn buyer_has_order_global_passes_when_owner_missing() {
    let mut d = data();
    d.owner_orders = 3;
    let config = RuleParams::new();
    let result = BuyerHasOrderGlobalRule.check(&ctx(None, None, &config, &d)).expect("check");
    assert!(!result.hit);
}

#[test]
fn hits_at_min_count() {
    let mut d = data();
    d.unconfirmed = 1;
    let config = RuleParams::new();
    let result = BuyerUnconfirmedRule.check(&ctx(None, None, &config, &d)).expect("check");
    assert!(result.hit);
    assert_eq!(result.extra("unconfirmed_count"), Some(ExtraValue::Int(1)));
}

#[test]
fn passes_below_min_count() {
    let d = data();
    let config = RuleParams::new();
    let result = BuyerUnconfirmedRule.check(&ctx(None, None, &config, &d)).expect("check");
    assert!(!result.hit);
}

#[test]
fn respects_custom_min_count() {
    let mut d = data();
    d.unconfirmed = 2;
    let config = RuleParams::new().with("min_count", ParamValue::UInt(3));
    let result = BuyerUnconfirmedRule.check(&ctx(None, None, &config, &d)).expect("check");
    assert!(!result.hit);
}

fn record(account: Option<&str>, item: Option<&str>) -> BlacklistRecord {
    BlacklistRecord {
        id: 1,
        account_id: account.map(|s| s.to_string()),
        item_id: item.map(|s| s.to_string()),
        reason: Some("恶意买家".to_string()),
    }
}

#[test]
fn hits_when_blacklisted() {
    let mut d = data();
    d.blacklist = Some(record(Some("acc-1"), Some("item-9")));
    let config = RuleParams::new();
    let result = PersonalBlacklistRule.check(&ctx(Some("item-9"), Some(7), &config, &d)).expect("check");
    assert!(result.hit);
    assert_eq!(result.extra("level"), Some(ExtraValue::Text("商品级".to_string())));
    assert!(result.reason.contains("恶意买家"));
}

#[test]
fn passes_when_not_blacklisted() {
    let d = data();
    let config = RuleParams::new();
    let result = PersonalBlacklistRule.check(&ctx(Some("item-9"), Some(7), &config, &d)).expect("check");
    assert!(!result.hit);
}

#[test]
fn personal_blacklist_passes_when_owner_missing() {
    let mut d = data();
    d.blacklist = Some(record(Some("acc-1"), Some("item-9")));
    let config = RuleParams::new();
    let result = PersonalBlacklistRule.check(&ctx(Some("item-9"), None, &config, &d)).expect("check");
    assert!(!result.hit);
}

#[test]
fn personal_blacklist_level_classification() {
    assert_eq!(record(Some("a"), Some("i")).level(), "商品级");
    assert_eq!(record(Some("a"), None).level(), "账户级");
    assert_eq!(record(None, None).level(), "用户级");
}

fn blacklist_item(buyer_id: &str, account: Option<&str>, item_id: Option<&str>) -> PersonalBlacklistItem {
    PersonalBlacklistItem {
        id: 0,
        owner_id: 1,
        account_id: account.map(String::from),
        buyer_id: buyer_id.to_string(),
        buyer_nick: None,
        item_id: item_id.map(String::from),
        reason: None,
        is_enabled: true,
        created_at: None,
    }
}

#[test]
fn mod_level_classification() {
    assert_eq!(blacklist_item("b", Some("a"), Some("i")).level(), "商品级");
    assert_eq!(blacklist_item("b", Some("a"), None).level(), "账户级");
    assert_eq!(blacklist_item("b", None, None).level(), "用户级");
}

fn engine_rule(code: &str, priority: i32) -> RuleConfig {
    RuleConfig {
        rule_code: code.to_string(),
        enabled: true,
        priority,
        block_reason: "平台规则限制".to_string(),
        auto_close_order: false,
        only_card_after_close: false,
        excluded_item_ids: Vec::new(),
        config: RuleParams::new(),
    }
}

fn req<'a>(rules: &'a [RuleConfig], item_id: Option<&'a str>) -> DeliveryRequest<'a> {
    DeliveryRequest {
        account_id: "acc-1",
        cookies_str: "",
        order_no: "o-1",
        buyer_id: "buyer-1",
        item_id,
        chat_id: None,
        log_prefix: "",
        account_pk: None,
        owner_id: Some(7),
        rule_configs: rules,
    }
}

#[test]
fn allows_when_no_enabled_rules() {
    let mut d = data();
    d.orders = 9;
    let result = DeliveryEngine::new(&d).execute(&req(&[], None));
    assert!(!result.hit);
}

#[test]
fn blocks_on_first_hit_by_priority() {
    let mut d = data();
    d.orders = 9;
    let rules = vec![engine_rule("buyer_has_order", 2), engine_rule("buyer_credit_zero", 1)];
    let result = DeliveryEngine::new(&d).execute(&req(&rules, None));
    assert!(result.hit);
    assert_eq!(result.rule_code.as_deref(), Some("buyer_credit_zero"));
    assert_eq!(result.block_reason, "平台规则限制");
}

#[test]
fn blocked_rule_carries_extra_data() {
    let d = data();
    let rules = vec![engine_rule("buyer_credit_zero", 1)];
    let result = DeliveryEngine::new(&d).execute(&req(&rules, None));
    assert!(result.hit);
    assert_eq!(result.extra_data.get("total_count"), Some(ExtraValue::Int(0)));
}

#[test]
fn excluded_item_skips_rule() {
    let d = data();
    let mut credit = engine_rule("buyer_credit_zero", 1);
    credit.excluded_item_ids = vec!["item-9".to_string()];
    let rules = [credit];
    let result = DeliveryEngine::new(&d).execute(&req(&rules, Some("item-9")));
    assert!(!result.hit);
}

#[test]
fn disabled_rules_ignored() {
    let d = data();
    let mut disabled = engine_rule("buyer_credit_zero", 1);
    disabled.enabled = false;
    let rules = [disabled];
    let result = DeliveryEngine::new(&d).execute(&req(&rules, None));
    assert!(!result.hit);
}

#[test]
fn unknown_rule_code_skipped() {
    let d = data();
    let rules = vec![engine_rule("not_registered", 1)];
    let result = DeliveryEngine::new(&d).execute(&req(&rules, None));
    assert!(!result.hit);
}

#[test]
fn personal_blacklist_hits() {
    let mut d = data();
    d.rate = Ok(5);
    d.blacklist = Some(BlacklistRecord {
        id: 1,
        account_id: Some("acc-1".to_string()),
        item_id: None,
        reason: Some("差评买家".to_string()),
    });
    let rules = vec![engine_rule("personal_blacklist", 1)];
    let result = DeliveryEngine::new(&d).execute(&req(&rules, None));
    assert!(result.hit);
    assert_eq!(result.rule_code.as_deref(), Some("personal_blacklist"));
}

#[test]
fn equal_priority_keeps_given_order() {
    let mut d = data();
    d.orders = 1;
    let rules = vec![engine_rule("buyer_has_order", 1), engine_rule("buyer_credit_zero", 1)];
    let result = DeliveryEngine::new(&d).execute(&req(&rules, None));
    assert_eq!(result.rule_code.as_deref(), Some("buyer_has_order"));
}

#[test]
fn note_without_placeholder_is_appended() {
    let mut c = content_card("text", "卡密");
    c.description = "请查收".to_string();
    let ctx = ContentContext::default();
    let content = ContentGenerator::generate(&c, &ctx, || None).expect("content");
    assert_eq!(content.to_text(), "卡密\n请查收");
}
