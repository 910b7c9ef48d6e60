use std::sync::Mutex;

use business::auto_reply::filter::{FilterRule, FilterType};
use business::auto_reply::filter_store::{FilterService, FilterStore};
use business::auto_reply::keyword::KeywordRule;
use business::auto_reply::keyword_store::{KeywordService, KeywordStore};
use business::auto_reply::log_store::{AutoReplyLogItem, AutoReplyLogQuery, AutoReplyLogService, AutoReplyLogStore};
use business::blacklist::{BlacklistQuery, BlacklistService, BlacklistStore, PersonalBlacklistItem, PlatformBlacklistItem};
use business::card::{CardQuery, CardService, CardStore};
use business::delivery::execution::card::{Card, CardSource};
use business::feedback::{Feedback, FeedbackKind, FeedbackQuery, FeedbackService, FeedbackStore};
use business::notification::{ChannelKind, MessageNotification, NotificationChannel, NotificationService, NotificationStore};
use business::{DingDaResult, OpenDeskResult};

// ---------------------------------------------------------------- filters

struct FilterMock {
    rules: Mutex<Vec<FilterRule>>,
    next_id: Mutex<i64>,
}

impl FilterMock {
    fn new() -> Self {
        Self { rules: Mutex::new(vec![]), next_id: Mutex::new(0) }
    }
}

impl FilterStore for FilterMock {
    fn list_filters(&self, owner_id: i64, account_id: &str) -> DingDaResult<Vec<FilterRule>> {
        Ok(self.rules.lock().expect("lock").iter().filter(|r| r.owner_id == owner_id && r.account_id == account_id).cloned().collect())
    }
    fn create_filter(&self, rule: &FilterRule) -> DingDaResult<FilterRule> {
        let mut rule = rule.clone();
        let mut next = self.next_id.lock().expect("lock");
        *next += 1;
        rule.id = *next;
        self.rules.lock().expect("lock").push(rule.clone());
        Ok(rule)
    }
    fn update_filter(&self, owner_id: i64, rule: &FilterRule) -> DingDaResult<()> {
        let mut list = self.rules.lock().expect("lock");
        let Some(existing) = list.iter_mut().find(|r| r.id == rule.id && r.owner_id == owner_id) else {
            return Err("不存在或无权限".to_string());
        };
        *existing = rule.clone();
        existing.owner_id = owner_id;
        Ok(())
    }
    fn delete_filter(&self, owner_id: i64, rule_id: i64) -> DingDaResult<()> {
        let mut list = self.rules.lock().expect("lock");
        let before = list.len();
        list.retain(|r| !(r.id == rule_id && r.owner_id == owner_id));
        if list.len() == before {
            return Err("不存在或无权限".to_string());
        }
        Ok(())
    }
    fn set_enabled(&self, owner_id: i64, rule_id: i64, enabled: bool) -> DingDaResult<()> {
        let mut list = self.rules.lock().expect("lock");
        let Some(rule) = list.iter_mut().find(|r| r.id == rule_id && r.owner_id == owner_id) else {
            return Err("不存在或无权限".to_string());
        };
        rule.enabled = enabled;
        Ok(())
    }
}

fn filter_rule(keyword: &str, filter_type: FilterType) -> FilterRule {
    FilterRule { id: 0, account_id: String::new(), owner_id: 0, filter_type, keyword: keyword.to_string(), enabled: true }
}

#[test]
fn create_requires_keyword() {
    let store = FilterMock::new();
    let service = FilterService::new(&store);
    assert!(service.create(1, "acc-1", filter_rule("  ", FilterType::SkipReply)).is_err());
    let created = service.create(1, "acc-1", filter_rule(" 勿扰 ", FilterType::SkipReply)).expect("create");
    assert_eq!(created.keyword, "勿扰");
    assert_eq!(created.owner_id, 1);
    assert_eq!(created.account_id, "acc-1");
}

#[test]
fn filter_store_list_filters_by_account() {
    let store = FilterMock::new();
    let service = FilterService::new(&store);
    service.create(1, "acc-1", filter_rule("勿扰", FilterType::SkipReply)).expect("create");
    service.create(1, "acc-2", filter_rule("广告", FilterType::SkipNotify)).expect("create");
    assert_eq!(service.list(1, "acc-1").expect("list").len(), 1);
}

#[test]
fn filter_store_set_enabled_respects_ownership() {
    let store = FilterMock::new();
    let service = FilterService::new(&store);
    let created = service.create(1, "acc-1", filter_rule("勿扰", FilterType::SkipReply)).expect("create");
    assert!(service.set_enabled(2, created.id, false).is_err());
    assert!(service.set_enabled(1, created.id, false).is_ok());
}

#[test]
fn update_respects_ownership() {
    let store = FilterMock::new();
    let service = FilterService::new(&store);
    let created = service.create(1, "acc-1", filter_rule("勿扰", FilterType::SkipReply)).expect("create");
    let mut other_owner = created.clone();
    other_owner.keyword = "篡改".to_string();
    assert!(service.update(2, &other_owner).is_err());
    let mut valid = created;
    valid.keyword = "新词".to_string();
    assert!(service.update(1, &valid).is_ok());
    let mut blank = valid.clone();
    blank.keyword = " ".to_string();
    assert_eq!(service.update(1, &blank).unwrap_err(), "过滤关键词不能为空");
}

#[test]
fn filter_store_delete_respects_ownership() {
    let store = FilterMock::new();
    let service = FilterService::new(&store);
    let created = service.create(1, "acc-1", filter_rule("勿扰", FilterType::SkipReply)).expect("create");
    assert!(service.delete(2, created.id).is_err());
    assert!(service.delete(1, created.id).is_ok());
}

// ---------------------------------------------------------------- keywords

struct KeywordMock {
    rules: Mutex<Vec<KeywordRule>>,
    next_id: Mutex<i64>,
}

impl KeywordMock {
    fn new(rules: Vec<KeywordRule>) -> Self {
        let n = rules.len() as i64;
        Self { rules: Mutex::new(rules), next_id: Mutex::new(n) }
    }
}

impl KeywordStore for KeywordMock {
    fn list_keywords(&self, account_id: &str) -> DingDaResult<Vec<KeywordRule>> {
        Ok(self.rules.lock().expect("lock").iter().filter(|r| r.account_id == account_id).cloned().collect())
    }
    fn replace_keywords(&self, account_id: &str, rules: &[KeywordRule]) -> DingDaResult<()> {
        let mut all = self.rules.lock().expect("lock");
        all.retain(|r| r.account_id != account_id);
        for rule in rules {
            let mut rule = rule.clone();
            rule.account_id = account_id.to_string();
            all.push(rule);
        }
        Ok(())
    }
    fn add_keyword(&self, rule: &KeywordRule) -> DingDaResult<KeywordRule> {
        let mut rule = rule.clone();
        let mut next = self.next_id.lock().expect("lock");
        *next += 1;
        rule.id = *next;
        self.rules.lock().expect("lock").push(rule.clone());
        Ok(rule)
    }
    fn delete_keyword(&self, rule_id: i64) -> DingDaResult<()> {
        self.rules.lock().expect("lock").retain(|r| r.id != rule_id);
        Ok(())
    }
}

fn keyword_rule(keyword: &str, item_id: &str) -> KeywordRule {
    KeywordRule {
        id: 0,
        account_id: "acc-1".to_string(),
        keyword: keyword.to_string(),
        reply: "回复".to_string(),
        item_id: item_id.to_string(),
        rule_type: "text".to_string(),
        image_url: String::new(),
        item_title: String::new(),
    }
}

#[test]
fn keyword_store_list_filters_by_account() {
    let store = KeywordMock::new(vec![keyword_rule("在吗", ""), keyword_rule("价格", "")]);
    let service = KeywordService::new(&store);
    assert_eq!(service.list("acc-1").expect("list").len(), 2);
}

#[test]
fn add_rejects_duplicate() {
    let store = KeywordMock::new(vec![keyword_rule("在吗", "item-1")]);
    let service = KeywordService::new(&store);
    assert_eq!(service.add("acc-1", keyword_rule("在吗", "item-1")).unwrap_err(), "该关键词已存在（相同商品）");
    assert!(service.add("acc-1", keyword_rule("在吗", "item-2")).is_ok());
}

#[test]
fn add_rejects_empty_keyword() {
    let store = KeywordMock::new(vec![]);
    let service = KeywordService::new(&store);
    assert_eq!(service.add("acc-1", keyword_rule("  ", "")).unwrap_err(), "关键词不能为空");
}

#[test]
fn replace_overwrites_account_rules() {
    let store = KeywordMock::new(vec![keyword_rule("旧关键词", "")]);
    let service = KeywordService::new(&store);
    service.replace("acc-1", &[keyword_rule("新关键词", "")]).expect("replace");
    let list = service.list("acc-1").expect("list");
    assert_eq!(list.len(), 1);
    assert_eq!(list[0].keyword, "新关键词");
}

// ---------------------------------------------------------------- logs

struct LogMock {
    logs: Vec<AutoReplyLogItem>,
}

impl AutoReplyLogStore for LogMock {
    fn list_logs(&self, owner_id: i64, query: &AutoReplyLogQuery) -> OpenDeskResult<Vec<AutoReplyLogItem>> {
        Ok(self
            .logs
            .iter()
            .filter(|log| {
                log.owner_id.unwrap_or(0) == owner_id
                    && (query.account_id.is_empty() || log.account_id == query.account_id)
                    && (query.send_status.is_empty() || log.send_status == query.send_status)
                    && (query.message_type.is_empty()
                        || (query.message_type == "auto_delivery" && log.reply_strategy == "auto_delivery")
                        || (query.message_type == "auto_reply" && log.reply_strategy != "auto_delivery"))
            })
            .cloned()
            .collect())
    }
}

fn log(id: i64, account_id: &str, reply_strategy: &str, send_status: &str, created_at: &str) -> AutoReplyLogItem {
    AutoReplyLogItem {
        id,
        owner_id: Some(1),
        owner_username: Some("owner".to_string()),
        account_pk: None,
        account_id: account_id.to_string(),
        account_name: None,
        chat_id: "chat-1".to_string(),
        item_id: None,
        item_title: None,
        order_no: None,
        source_message_id: None,
        sender_user_id: "buyer-1".to_string(),
        sender_user_name: Some("买家".to_string()),
        source_message: Some("你好".to_string()),
        source_message_time: Some(created_at.to_string()),
        process_status: "done".to_string(),
        decision_reason: "reply_sent".to_string(),
        reply_strategy: reply_strategy.to_string(),
        reply_mode: "text".to_string(),
        matched_keyword: None,
        matched_rule_type: None,
        default_reply_scope: None,
        default_reply_once: false,
        ai_model_name: None,
        ai_provider_name: None,
        reply_text: Some("回复".to_string()),
        reply_image_url: None,
        error_message: None,
        send_status: send_status.to_string(),
        send_fail_reason: None,
        created_at: Some(created_at.to_string()),
        updated_at: None,
    }
}

fn query(page: u32, page_size: u32) -> AutoReplyLogQuery {
    let mut q = AutoReplyLogQuery::default();
    q.page = page;
    q.page_size = page_size;
    q
}

#[test]
fn list_filters_and_paginates() {
    let store = LogMock {
        logs: vec![
            log(1, "acc-1", "keyword", "success", "2026-08-01 10:00:00"),
            log(2, "acc-1", "ai", "failed", "2026-08-02 10:00:00"),
            log(3, "acc-2", "auto_delivery", "success", "2026-08-03 10:00:00"),
        ],
    };
    let service = AutoReplyLogService::new(&store);
    let mut q = query(1, 10);
    q.account_id = "acc-1".to_string();
    let page = service.list(1, &q).expect("list");
    assert_eq!(page.total, 2);
    assert_eq!(page.data.len(), 2);
    assert_eq!(page.total_pages, 1);
}

#[test]
fn message_type_filters_delivery() {
    let store = LogMock {
        logs: vec![
            log(1, "acc-1", "keyword", "success", "2026-08-01 10:00:00"),
            log(2, "acc-1", "auto_delivery", "success", "2026-08-02 10:00:00"),
        ],
    };
    let service = AutoReplyLogService::new(&store);
    let mut delivery = query(1, 10);
    delivery.message_type = "auto_delivery".to_string();
    let page = service.list(1, &delivery).expect("list");
    assert_eq!(page.total, 1);
    assert_eq!(page.data[0].reply_strategy, "auto_delivery");
    let mut reply = delivery.clone();
    reply.message_type = "auto_reply".to_string();
    let page = service.list(1, &reply).expect("list");
    assert_eq!(page.total, 1);
    assert_eq!(page.data[0].reply_strategy, "keyword");
}

#[test]
fn page_size_clamped_and_zero_total() {
    let store = LogMock { logs: vec![] };
    let service = AutoReplyLogService::new(&store);
    let page = service.list(1, &query(0, 9999)).expect("list");
    assert_eq!(page.page, 1);
    assert_eq!(page.page_size, 200);
    assert_eq!(page.total_pages, 0);
    assert!(page.data.is_empty());
}

#[test]
fn paginate_second_page_and_partial_last_page() {
    let all: Vec<AutoReplyLogItem> = (1..=5).map(|i| log(i, "acc-1", "keyword", "success", "2026-08-01")).collect();
    let page = AutoReplyLogService::paginate(&query(2, 2), all.clone());
    assert_eq!(page.total, 5);
    assert_eq!(page.total_pages, 3);
    assert_eq!(page.data.iter().map(|l| l.id).collect::<Vec<_>>(), vec![3, 4]);
    let last = AutoReplyLogService::paginate(&query(3, 2), all.clone());
    assert_eq!(last.data.iter().map(|l| l.id).collect::<Vec<_>>(), vec![5]);
    let beyond = AutoReplyLogService::paginate(&query(9, 2), all);
    assert!(beyond.data.is_empty());
}

// ---------------------------------------------------------------- blacklist

struct BlacklistMock {
    items: Mutex<Vec<PersonalBlacklistItem>>,
    next_id: Mutex<i64>,
}

impl BlacklistMock {
    fn new(items: Vec<PersonalBlacklistItem>) -> Self {
        let n = items.len() as i64;
        Self { items: Mutex::new(items), next_id: Mutex::new(n) }
    }
}

impl BlacklistStore for BlacklistMock {
    fn list_personal(&self, owner_id: i64, query: &BlacklistQuery) -> OpenDeskResult<(Vec<PersonalBlacklistItem>, u32)> {
        let list: Vec<PersonalBlacklistItem> = self
            .items
            .lock()
            .expect("lock")
            .iter()
            .filter(|item| {
                item.owner_id == owner_id
                    && (query.buyer_id.is_empty() || item.buyer_id.contains(&query.buyer_id))
                    && (query.buyer_nick.is_empty() || item.buyer_nick.as_deref().is_some_and(|nick| nick.contains(&query.buyer_nick)))
            })
            .cloned()
            .collect();
        let total = list.len() as u32;
        Ok((list, total))
    }
    fn list_platform(&self, _owner_id: i64, _query: &BlacklistQuery) -> OpenDeskResult<(Vec<PlatformBlacklistItem>, u32)> {
        Ok((Vec::new(), 0))
    }
    fn create_personal(&self, item: &PersonalBlacklistItem) -> OpenDeskResult<PersonalBlacklistItem> {
        let mut item = item.clone();
        let mut next = self.next_id.lock().expect("lock");
        *next += 1;
        item.id = *next;
        self.items.lock().expect("lock").push(item.clone());
        Ok(item)
    }
    fn set_enabled(&self, owner_id: i64, id: i64, enabled: bool) -> OpenDeskResult<()> {
        let mut list = self.items.lock().expect("lock");
        let Some(item) = list.iter_mut().find(|i| i.id == id && i.owner_id == owner_id) else {
            return Err("不存在或无权限".to_string());
        };
        item.is_enabled = enabled;
        Ok(())
    }
    fn delete(&self, owner_id: i64, id: i64) -> OpenDeskResult<()> {
        self.items.lock().expect("lock").retain(|i| !(i.id == id && i.owner_id == owner_id));
        Ok(())
    }
}

fn blacklist_item(buyer_id: &str) -> PersonalBlacklistItem {
    PersonalBlacklistItem {
        id: 0,
        owner_id: 1,
        account_id: None,
        buyer_id: buyer_id.to_string(),
        buyer_nick: None,
        item_id: None,
        reason: None,
        is_enabled: true,
        created_at: None,
    }
}

#[test]
fn create_requires_buyer_id() {
    let store = BlacklistMock::new(vec![]);
    let service = BlacklistService::new(&store);
    assert_eq!(service.create(1, "  ", None, None, None).unwrap_err(), "买家 ID 不能为空");
    assert!(service.create(1, "buyer-1", None, None, None).is_ok());
}

#[test]
fn create_trims_and_drops_blank_scope() {
    let store = BlacklistMock::new(vec![]);
    let service = BlacklistService::new(&store);
    let created = service.create(1, " buyer-1 ", Some(" acc-1 "), Some("  "), Some(" 差评 ")).expect("create");
    assert_eq!(created.buyer_id, "buyer-1");
    assert_eq!(created.account_id.as_deref(), Some("acc-1"));
    assert_eq!(created.item_id, None);
    assert_eq!(created.reason.as_deref(), Some("差评"));
    assert!(created.is_enabled);
    assert_eq!(created.level(), "账户级");
}

#[test]
fn list_filters_by_buyer() {
    let store = BlacklistMock::new(vec![blacklist_item("buyer-1"), blacklist_item("buyer-2")]);
    let service = BlacklistService::new(&store);
    let query = BlacklistQuery { page: 1, page_size: 20, buyer_id: "buyer-1".to_string(), buyer_nick: String::new() };
    assert_eq!(service.list_personal(1, &query).expect("list").1, 1);
}

#[test]
fn mod_set_enabled_respects_ownership() {
    let store = BlacklistMock::new(vec![]);
    let service = BlacklistService::new(&store);
    let created = service.create(1, "buyer-1", None, None, None).expect("create");
    assert!(service.set_enabled(2, created.id, false).is_err());
    assert!(service.set_enabled(1, created.id, false).is_ok());
    assert!(service.delete(1, created.id).is_ok());
}

// ---------------------------------------------------------------- cards

struct CardMock {
    cards: Mutex<Vec<Card>>,
    next_id: Mutex<i64>,
}

impl CardMock {
    fn new(cards: Vec<Card>) -> Self {
        let n = cards.len() as i64;
        Self { cards: Mutex::new(cards), next_id: Mutex::new(n) }
    }
}

impl CardStore for CardMock {
    fn list_cards(&self, owner_id: i64, query: &CardQuery) -> OpenDeskResult<(Vec<Card>, u32)> {
        let list: Vec<Card> = self
            .cards
            .lock()
            .expect("lock")
            .iter()
            .filter(|card| {
                card.owner_id == owner_id
                    && (query.keyword.is_empty() || card.name.contains(&query.keyword))
                    && (query.card_type.is_empty() || card.card_type == query.card_type)
            })
            .cloned()
            .collect();
        let total = list.len() as u32;
        Ok((list, total))
    }
    fn get_card(&self, owner_id: i64, card_id: i64) -> OpenDeskResult<Option<Card>> {
        Ok(self.cards.lock().expect("lock").iter().find(|card| card.id == card_id && card.owner_id == owner_id).cloned())
    }
    fn create_card(&self, card: &Card) -> OpenDeskResult<Card> {
        let mut card = card.clone();
        let mut next = self.next_id.lock().expect("lock");
        *next += 1;
        card.id = *next;
        self.cards.lock().expect("lock").push(card.clone());
        Ok(card)
    }
    fn update_card(&self, card: &Card) -> OpenDeskResult<()> {
        let mut list = self.cards.lock().expect("lock");
        if let Some(existing) = list.iter_mut().find(|c| c.id == card.id) {
            *existing = card.clone();
        }
        Ok(())
    }
    fn delete_card(&self, owner_id: i64, card_id: i64) -> OpenDeskResult<()> {
        self.cards.lock().expect("lock").retain(|card| !(card.owner_id == owner_id && card.id == card_id));
        Ok(())
    }
}

fn card(name: &str, card_type: &str) -> Card {
    Card {
        id: 0,
        owner_id: 1,
        account_id: String::new(),
        name: name.to_string(),
        card_type: card_type.to_string(),
        source: CardSource::Own,
        enabled: true,
        text_content: "内容".to_string(),
        data_content: String::new(),
        image_url: String::new(),
        image_urls: String::new(),
        api_config: String::new(),
        delay_seconds: 0,
        description: String::new(),
    }
}

#[test]
fn create_requires_name_and_type() {
    let store = CardMock::new(vec![]);
    let service = CardService::new(&store);
    assert_eq!(service.create(1, card("", "text")).unwrap_err(), "卡券名称不能为空");
    assert_eq!(service.create(1, card("卡券", "")).unwrap_err(), "卡券类型不能为空");
    assert!(service.create(1, card("卡券", "text")).is_ok());
}

#[test]
fn list_filters_by_type_and_keyword() {
    let store = CardMock::new(vec![card("激活码", "text"), card("图片卡", "image"), card("激活码2", "text")]);
    let service = CardService::new(&store);
    let query = CardQuery { page: 1, page_size: 20, keyword: "激活码".to_string(), card_type: String::new() };
    let (_list, total) = service.list(1, &query).expect("list");
    assert_eq!(total, 2);
    let mut type_query = CardQuery::default();
    type_query.card_type = "image".to_string();
    assert_eq!(service.list(1, &type_query).expect("list").1, 1);
}

#[test]
fn update_and_delete_respect_ownership() {
    let store = CardMock::new(vec![]);
    let service = CardService::new(&store);
    let created = service.create(1, card("卡券", "text")).expect("create");
    assert_eq!(service.update(2, &created).unwrap_err(), "卡券不存在或无权限");
    assert!(service.delete(2, created.id).is_err());
    assert!(service.delete(1, created.id).is_ok());
}

#[test]
fn set_enabled_toggles() {
    let store = CardMock::new(vec![]);
    let service = CardService::new(&store);
    let created = service.create(1, card("卡券", "text")).expect("create");
    service.set_enabled(1, created.id, false).expect("set");
    let found = store.get_card(1, created.id).expect("get").expect("found");
    assert!(!found.enabled);
}

// ---------------------------------------------------------------- feedback

struct FeedbackMock {
    feedbacks: Mutex<Vec<Feedback>>,
    next_id: Mutex<i64>,
}

impl FeedbackMock {
    fn new() -> Self {
        Self { feedbacks: Mutex::new(Vec::new()), next_id: Mutex::new(0) }
    }
}

impl FeedbackStore for FeedbackMock {
    fn list_feedbacks(&self, owner_id: i64, query: &FeedbackQuery) -> OpenDeskResult<(Vec<Feedback>, u32)> {
        let list: Vec<Feedback> = self
            .feedbacks
            .lock()
            .expect("lock")
            .iter()
            .filter(|f| {
                f.owner_id == owner_id
                    && (query.kind.is_empty() || f.kind.as_str() == query.kind)
                    && (query.keyword.is_empty() || f.title.contains(&query.keyword) || f.content.contains(&query.keyword))
            })
            .cloned()
            .collect();
        let total = list.len() as u32;
        Ok((list, total))
    }
    fn get_feedback(&self, owner_id: i64, feedback_id: i64) -> OpenDeskResult<Option<Feedback>> {
        Ok(self.feedbacks.lock().expect("lock").iter().find(|f| f.id == feedback_id && f.owner_id == owner_id).cloned())
    }
    fn create_feedback(&self, feedback: &Feedback) -> OpenDeskResult<Feedback> {
        let mut feedback = feedback.clone();
        let mut next = self.next_id.lock().expect("lock");
        *next += 1;
        feedback.id = *next;
        self.feedbacks.lock().expect("lock").push(feedback.clone());
        Ok(feedback)
    }
    fn delete_feedback(&self, feedback_id: i64) -> OpenDeskResult<()> {
        let mut list = self.feedbacks.lock().expect("lock");
        let before = list.len();
        list.retain(|f| f.id != feedback_id);
        if list.len() == before {
            return Err("反馈不存在".to_string());
        }
        Ok(())
    }
}

fn feedback(kind: FeedbackKind, title: &str, content: &str) -> Feedback {
    Feedback { id: 0, owner_id: 1, kind, title: title.to_string(), content: content.to_string(), created_at: None }
}

#[test]
fn create_requires_title_and_content() {
    let store = FeedbackMock::new();
    let service = FeedbackService::new(&store);
    assert_eq!(service.create(1, feedback(FeedbackKind::Bug, "", "内容")).unwrap_err(), "反馈标题不能为空");
    assert_eq!(service.create(1, feedback(FeedbackKind::Bug, "标题", "")).unwrap_err(), "反馈内容不能为空");
    let created = service.create(1, feedback(FeedbackKind::Bug, " 标题 ", " 内容 ")).expect("create");
    assert_eq!(created.title, "标题");
    assert_eq!(created.content, "内容");
}

#[test]
fn list_filters_by_kind_and_keyword() {
    let store = FeedbackMock::new();
    let service = FeedbackService::new(&store);
    service.create(1, feedback(FeedbackKind::Bug, "下单失败", "报错")).expect("create");
    service.create(1, feedback(FeedbackKind::Feature, "希望支持导出", "建议")).expect("create");
    let query = FeedbackQuery { page: 1, page_size: 20, kind: "bug".to_string(), keyword: String::new() };
    assert_eq!(service.list(1, &query).expect("list").1, 1);
    let keyword = FeedbackQuery { kind: String::new(), keyword: "导出".to_string(), ..query };
    assert_eq!(service.list(1, &keyword).expect("list").1, 1);
}

#[test]
fn mod_delete_respects_ownership() {
    let store = FeedbackMock::new();
    let service = FeedbackService::new(&store);
    let created = service.create(1, feedback(FeedbackKind::Other, "标题", "内容")).expect("create");
    assert_eq!(service.delete(2, created.id).unwrap_err(), "反馈不存在或无权限");
    assert!(service.delete(1, created.id).is_ok());
}

#[test]
fn feedback_kind_names() {
    assert_eq!(FeedbackKind::Feature.as_str(), "feature");
    assert_eq!(FeedbackKind::Bug.as_str(), "bug");
    assert_eq!(FeedbackKind::Other.as_str(), "other");
}

// ---------------------------------------------------------------- notifications

struct NotificationMock {
    channels: Mutex<Vec<NotificationChannel>>,
    notifications: Mutex<Vec<MessageNotification>>,
    next_id: Mutex<i64>,
}

impl NotificationMock {
    fn new() -> Self {
        Self { channels: Mutex::new(vec![]), notifications: Mutex::new(Vec::new()), next_id: Mutex::new(0) }
    }
}

impl NotificationStore for NotificationMock {
    fn list_channels(&self, owner_id: i64) -> OpenDeskResult<Vec<NotificationChannel>> {
        Ok(self.channels.lock().expect("lock").iter().filter(|c| c.owner_id == owner_id).cloned().collect())
    }
    fn get_channel(&self, owner_id: i64, channel_id: i64) -> OpenDeskResult<Option<NotificationChannel>> {
        Ok(self.channels.lock().expect("lock").iter().find(|c| c.id == channel_id && c.owner_id == owner_id).cloned())
    }
    fn create_channel(&self, channel: &NotificationChannel) -> OpenDeskResult<NotificationChannel> {
        let mut channel = channel.clone();
        let mut next = self.next_id.lock().expect("lock");
        *next += 1;
        channel.id = *next;
        self.channels.lock().expect("lock").push(channel.clone());
        Ok(channel)
    }
    fn update_channel(&self, channel: &NotificationChannel) -> OpenDeskResult<()> {
        let mut list = self.channels.lock().expect("lock");
        if let Some(existing) = list.iter_mut().find(|c| c.id == channel.id) {
            *existing = channel.clone();
            return Ok(());
        }
        Err("渠道不存在".to_string())
    }
    fn delete_channel(&self, owner_id: i64, channel_id: i64) -> OpenDeskResult<()> {
        let mut list = self.channels.lock().expect("lock");
        let before = list.len();
        list.retain(|c| !(c.owner_id == owner_id && c.id == channel_id));
        if list.len() == before {
            return Err("渠道不存在".to_string());
        }
        Ok(())
    }
    fn list_notifications(&self, owner_id: i64) -> OpenDeskResult<Vec<MessageNotification>> {
        let channels = self.channels.lock().expect("lock");
        Ok(self
            .notifications
            .lock()
            .expect("lock")
            .iter()
            .filter(|n| n.owner_id == owner_id)
            .map(|n| {
                let mut n = n.clone();
                n.channel_name = channels.iter().find(|c| c.id == n.channel_id).map(|c| c.name.clone());
                n
            })
            .collect())
    }
    fn upsert_notification(&self, owner_id: i64, account_id: &str, channel_id: i64, enabled: bool) -> OpenDeskResult<MessageNotification> {
        let mut list = self.notifications.lock().expect("lock");
        let mut next = self.next_id.lock().expect("lock");
        if let Some(existing) = list.iter_mut().find(|n| n.owner_id == owner_id && n.account_id == account_id && n.channel_id == channel_id) {
            existing.enabled = enabled;
            return Ok(existing.clone());
        }
        *next += 1;
        let notification = MessageNotification {
            id: *next,
            owner_id,
            account_id: account_id.to_string(),
            channel_id,
            enabled,
            channel_name: None,
        };
        list.push(notification.clone());
        Ok(notification)
    }
    fn delete_notification(&self, owner_id: i64, notification_id: i64) -> OpenDeskResult<()> {
        let mut list = self.notifications.lock().expect("lock");
        let before = list.len();
        list.retain(|n| !(n.owner_id == owner_id && n.id == notification_id));
        if list.len() == before {
            return Err("通知不存在或无权限".to_string());
        }
        Ok(())
    }
}

fn channel(name: &str, kind: ChannelKind, config: &str) -> NotificationChannel {
    NotificationChannel { id: 0, owner_id: 1, name: name.to_string(), kind, config: config.to_string(), enabled: true }
}

#[test]
fn create_requires_name_and_valid_json() {
    let store = NotificationMock::new();
    let service = NotificationService::new(&store);
    assert_eq!(service.create_channel(1, channel("", ChannelKind::Dingtalk, "{}")).unwrap_err(), "渠道名称不能为空");
    assert_eq!(service.create_channel(1, channel("钉钉", ChannelKind::Dingtalk, "{bad")).unwrap_err(), "渠道配置必须是合法 JSON");
    let created = service.create_channel(1, channel(" 钉钉 ", ChannelKind::Dingtalk, "")).expect("create");
    assert_eq!(created.config, "{}");
    assert_eq!(created.name, "钉钉");
}

#[test]
fn update_delete_enabled_respect_ownership() {
    let store = NotificationMock::new();
    let service = NotificationService::new(&store);
    let created = service.create_channel(1, channel("钉钉", ChannelKind::Dingtalk, "{}")).expect("create");
    let mut other = created.clone();
    other.name = "篡改".to_string();
    assert!(service.update_channel(2, other).is_err());
    assert!(service.delete_channel(2, created.id).is_err());
    assert!(service.delete_channel(1, created.id).is_ok());
    let recreated = service.create_channel(1, channel("钉钉", ChannelKind::Dingtalk, "{}")).expect("create");
    assert!(service.set_channel_enabled(2, recreated.id, false).is_err());
    assert!(service.set_channel_enabled(1, recreated.id, false).is_ok());
}

#[test]
fn notification_upsert_and_channel_ownership() {
    let store = NotificationMock::new();
    let service = NotificationService::new(&store);
    let channel = service.create_channel(1, channel("钉钉", ChannelKind::Dingtalk, "{}")).expect("create");
    assert!(service.set_notification(2, "acc-1", channel.id, true).is_err());
    let first = service.set_notification(1, "acc-1", channel.id, true).expect("set");
    let second = service.set_notification(1, "acc-1", channel.id, false).expect("set");
    assert_eq!(first.id, second.id);
    assert!(!second.enabled);
    assert_eq!(service.list_notifications(1).expect("list").len(), 1);
    assert_eq!(service.set_notification(1, "  ", channel.id, true).unwrap_err(), "账号不能为空");
}

#[test]
fn list_fills_channel_name() {
    let store = NotificationMock::new();
    let service = NotificationService::new(&store);
    let channel = service.create_channel(1, channel("我的钉钉", ChannelKind::Dingtalk, "{}")).expect("create");
    service.set_notification(1, "acc-1", channel.id, true).expect("set");
    let list = service.list_notifications(1).expect("list");
    assert_eq!(list[0].channel_name.as_deref(), Some("我的钉钉"));
}

#[test]
fn test_validates_config() {
    let store = NotificationMock::new();
    let service = NotificationService::new(&store);
    assert!(service.create_channel(1, channel("坏配置", ChannelKind::Webhook, "{bad")).is_err());
    let good = service.create_channel(1, channel("好配置", ChannelKind::Webhook, "{\"url\": \"https://x\"}")).expect("create");
    assert_eq!(service.test_channel(1, good.id).expect("test"), "渠道「好配置」配置校验通过");
    assert_eq!(service.test_channel(2, good.id).unwrap_err(), "渠道不存在或无权限");
}

#[test]
fn channel_kind_names_roundtrip() {
    for kind in [
        ChannelKind::Dingtalk,
        ChannelKind::Feishu,
        ChannelKind::Bark,
        ChannelKind::Email,
        ChannelKind::Webhook,
        ChannelKind::Wechat,
        ChannelKind::Telegram,
        ChannelKind::Pushplus,
    ] {
        assert_eq!(ChannelKind::from_str(kind.as_str()), kind);
    }
    assert_eq!(ChannelKind::from_str("unknown"), ChannelKind::Dingtalk);
    assert_eq!(ChannelKind::Feishu.label(), "飞书通知");
}
