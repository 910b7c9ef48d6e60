use std::sync::Mutex;

use business::promotion::material::{
    BatchWriteResult, Material, MaterialItem, MaterialQuery, MaterialService, MaterialStore, PublishStatus,
};
use business::promotion::rule::{ProductRule, ProductRuleInput, PublishRule, PublishRuleInput, RuleStatus};
use business::promotion::service::{ProductRuleService, PublishRuleService, RuleServiceError};
use business::promotion::store::{AccountCheck, PublishRuleStore, RuleStore};
use business::OpenDeskResult;

fn product_rule(cat: Option<&str>, keyword: Option<&str>) -> ProductRule {
    ProductRule {
        id: 1,
        owner_id: 1,
        account_id: "acc-1".to_string(),
        rule_name: "规则".to_string(),
        cat: cat.map(|s| s.to_string()),
        cat_name: None,
        keyword: keyword.map(|s| s.to_string()),
        sort: "default".to_string(),
        daily_count: 10,
        status: RuleStatus::Enabled,
        remark: None,
    }
}

#[test]
fn source_requires_cat_or_keyword() {
    assert!(product_rule(Some("手机"), None).has_source());
    assert!(product_rule(None, Some("耳机")).has_source());
    assert!(!product_rule(None, None).has_source());
    assert!(!product_rule(Some("  "), Some("")).has_source());
}

#[test]
fn status_roundtrip() {
    assert!(RuleStatus::Enabled.as_bool());
    assert!(!RuleStatus::Disabled.as_bool());
    assert_eq!(RuleStatus::from_bool(true), RuleStatus::Enabled);
    assert_eq!(RuleStatus::from_bool(false), RuleStatus::Disabled);
}

struct MockRuleStore {
    accounts: Vec<(String, AccountCheck)>,
    rules: Mutex<Vec<ProductRule>>,
    publish: Mutex<Vec<PublishRule>>,
}

impl MockRuleStore {
    fn new(account_active: bool) -> Self {
        Self {
            accounts: vec![("acc-1".to_string(), AccountCheck { exists: true, active: account_active })],
            rules: Mutex::new(vec![]),
            publish: Mutex::new(vec![]),
        }
    }
}

impl RuleStore for MockRuleStore {
    fn list_product_rules(&self, _owner_id: i64, _page: u32, _page_size: u32, _is_admin: bool) -> OpenDeskResult<(Vec<ProductRule>, u32)> {
        let rules = self.rules.lock().expect("rules lock").clone();
        let n = rules.len() as u32;
        Ok((rules, n))
    }
    fn create_product_rule(&self, rule: &ProductRule) -> OpenDeskResult<ProductRule> {
        let mut rule = rule.clone();
        rule.id = 1;
        self.rules.lock().expect("rules lock").push(rule.clone());
        Ok(rule)
    }
    fn update_product_rule(&self, _rule: &ProductRule) -> OpenDeskResult<()> {
        Ok(())
    }
    fn delete_product_rule(&self, _rule_id: i64) -> OpenDeskResult<()> {
        Ok(())
    }
    fn toggle_product_rule(&self, _rule_id: i64, _enabled: bool) -> OpenDeskResult<()> {
        Ok(())
    }
    fn get_product_rule(&self, _rule_id: i64) -> OpenDeskResult<Option<ProductRule>> {
        Ok(None)
    }
    fn check_account(&self, _owner_id: i64, account_id: &str) -> OpenDeskResult<AccountCheck> {
        Ok(self
            .accounts
            .iter()
            .find(|(id, _)| id == account_id)
            .map(|(_, c)| *c)
            .unwrap_or(AccountCheck { exists: false, active: false }))
    }
}

impl PublishRuleStore for MockRuleStore {
    fn list_publish_rules(&self, _owner_id: i64, _page: u32, _page_size: u32, _is_admin: bool) -> OpenDeskResult<(Vec<PublishRule>, u32)> {
        let rules = self.publish.lock().expect("publish lock").clone();
        let n = rules.len() as u32;
        Ok((rules, n))
    }
    fn get_publish_rule_by_account(&self, _owner_id: i64, account_id: &str) -> OpenDeskResult<Option<PublishRule>> {
        Ok(self.publish.lock().expect("publish lock").iter().find(|r| r.account_id == account_id).cloned())
    }
    fn create_publish_rule(&self, rule: &PublishRule) -> OpenDeskResult<PublishRule> {
        let mut rule = rule.clone();
        rule.id = 1;
        self.publish.lock().expect("publish lock").push(rule.clone());
        Ok(rule)
    }
    fn update_publish_rule(&self, _rule: &PublishRule) -> OpenDeskResult<()> {
        Ok(())
    }
    fn delete_publish_rule(&self, _rule_id: i64) -> OpenDeskResult<()> {
        Ok(())
    }
    fn toggle_publish_rule(&self, _rule_id: i64, _enabled: bool) -> OpenDeskResult<()> {
        Ok(())
    }
}

fn product_input(owner: i64, cat: Option<&str>, keyword: Option<&str>) -> ProductRuleInput {
    ProductRuleInput {
        owner_id: owner,
        account_id: "acc-1".to_string(),
        rule_name: "手机选品".to_string(),
        cat: cat.map(String::from),
        cat_name: None,
        keyword: keyword.map(String::from),
        sort: "default".to_string(),
        daily_count: 10,
        enabled: true,
        remark: None,
    }
}

#[test]
fn product_rule_rejects_empty_source() {
    let store = MockRuleStore::new(true);
    let service = ProductRuleService::new(&store);
    let input = product_input(1, None, None);
    assert!(matches!(service.create(&input), Err(RuleServiceError::Validation(_))));
}

#[test]
fn product_rule_rejects_inactive_account() {
    let store = MockRuleStore::new(false);
    let service = ProductRuleService::new(&store);
    let input = product_input(1, Some("手机"), None);
    match service.create(&input) {
        Err(RuleServiceError::Validation(m)) => assert_eq!(m, "所选闲鱼账号未启用，请先启用账号后再保存规则"),
        _ => panic!("expected a validation error"),
    }
}

#[test]
fn product_rule_rejects_unknown_account() {
    let store = MockRuleStore::new(true);
    let service = ProductRuleService::new(&store);
    let mut input = product_input(1, Some("手机"), None);
    input.account_id = "acc-x".to_string();
    match service.create(&input) {
        Err(RuleServiceError::Validation(m)) => assert_eq!(m, "所选闲鱼账号不存在或不属于当前用户"),
        _ => panic!("expected a validation error"),
    }
}

#[test]
fn product_rule_creates_with_cat() {
    let store = MockRuleStore::new(true);
    let service = ProductRuleService::new(&store);
    let input = product_input(1, Some("手机"), None);
    let rule = service.create(&input).expect("create");
    assert_eq!(rule.rule_name, "手机选品");
    assert_eq!(rule.daily_count, 10);
    assert_eq!(rule.status, RuleStatus::Enabled);
}

#[test]
fn product_rule_creates_with_keyword() {
    let store = MockRuleStore::new(true);
    let service = ProductRuleService::new(&store);
    let input = product_input(1, None, Some("耳机"));
    let rule = service.create(&input).expect("create");
    assert_eq!(rule.keyword.as_deref(), Some("耳机"));
}

#[test]
fn product_rule_normalizes_name_and_count() {
    let store = MockRuleStore::new(true);
    let service = ProductRuleService::new(&store);
    let mut input = product_input(1, Some("手机"), None);
    input.rule_name = "  ".to_string();
    input.daily_count = 0;
    let rule = service.create(&input).expect("create");
    assert_eq!(rule.rule_name, "未命名规则");
    assert_eq!(rule.daily_count, 1);
}

#[test]
fn product_rule_prepare_trims_and_defaults() {
    let mut input = product_input(3, Some("  手机 "), Some("   "));
    input.sort = " ".to_string();
    input.enabled = false;
    let rule = ProductRuleService::prepare(&input);
    assert_eq!(rule.id, 0);
    assert_eq!(rule.owner_id, 3);
    assert_eq!(rule.cat.as_deref(), Some("手机"));
    assert_eq!(rule.keyword, None);
    assert_eq!(rule.sort, "default");
    assert_eq!(rule.status, RuleStatus::Disabled);
}

#[test]
fn product_rule_update_requires_source() {
    let store = MockRuleStore::new(true);
    let service = ProductRuleService::new(&store);
    assert!(matches!(service.update(&product_rule(None, Some(" "))), Err(RuleServiceError::Validation(_))));
    assert!(service.update(&product_rule(Some("手机"), None)).is_ok());
}

#[test]
fn publish_rule_rejects_duplicate_account() {
    let store = MockRuleStore::new(true);
    let service = PublishRuleService::new(&store, &store);
    let input = PublishRuleInput {
        owner_id: 1,
        rule_name: "发布".to_string(),
        account_id: "acc-1".to_string(),
        daily_count: 5,
        enabled: true,
        remark: None,
    };
    let first = service.create(&input).expect("first create");
    assert_eq!(first.account_id, "acc-1");
    assert!(matches!(service.create(&input), Err(RuleServiceError::Validation(_))));
}

#[test]
fn publish_rule_requires_account() {
    let store = MockRuleStore::new(true);
    let service = PublishRuleService::new(&store, &store);
    let input = PublishRuleInput {
        owner_id: 1,
        rule_name: "发布".to_string(),
        account_id: "  ".to_string(),
        daily_count: 5,
        enabled: true,
        remark: None,
    };
    assert!(matches!(service.create(&input), Err(RuleServiceError::Validation(_))));
}

#[test]
fn publish_rule_defaults_name_and_count() {
    let store = MockRuleStore::new(true);
    let service = PublishRuleService::new(&store, &store);
    let input = PublishRuleInput {
        owner_id: 1,
        rule_name: String::new(),
        account_id: "acc-1".to_string(),
        daily_count: 0,
        enabled: false,
        remark: None,
    };
    let rule = service.create(&input).expect("create");
    assert_eq!(rule.rule_name, "未命名发布规则");
    assert_eq!(rule.daily_count, 1);
    assert_eq!(rule.status, RuleStatus::Disabled);
}

struct MockMaterialStore {
    materials: Mutex<Vec<Material>>,
}

impl MockMaterialStore {
    fn new(materials: Vec<Material>) -> Self {
        Self { materials: Mutex::new(materials) }
    }
}

impl MaterialStore for MockMaterialStore {
    fn list_materials(&self, _owner_id: i64, _query: &MaterialQuery) -> OpenDeskResult<(Vec<Material>, u32)> {
        let list = self.materials.lock().expect("lock").clone();
        let n = list.len() as u32;
        Ok((list, n))
    }
    fn get_material(&self, owner_id: i64, material_id: i64) -> OpenDeskResult<Option<Material>> {
        Ok(self.materials.lock().expect("lock").iter().find(|m| m.id == material_id && m.owner_id == owner_id).cloned())
    }
    fn update_material(&self, material: &Material) -> OpenDeskResult<()> {
        let mut list = self.materials.lock().expect("lock");
        if let Some(existing) = list.iter_mut().find(|m| m.id == material.id) {
            *existing = material.clone();
        }
        Ok(())
    }
    fn delete_material(&self, material_id: i64) -> OpenDeskResult<()> {
        self.materials.lock().expect("lock").retain(|m| m.id != material_id);
        Ok(())
    }
    fn existing_materials(&self, _owner_id: i64, _account_id: &str, item_ids: &[String], titles: &[String]) -> OpenDeskResult<Vec<Material>> {
        Ok(self
            .materials
            .lock()
            .expect("lock")
            .iter()
            .filter(|m| item_ids.contains(&m.item_id) || (!m.title.is_empty() && titles.contains(&m.title)))
            .cloned()
            .collect())
    }
    fn create_material(&self, material: &Material) -> OpenDeskResult<Material> {
        let mut material = material.clone();
        material.id = (self.materials.lock().expect("lock").len() + 1) as i64;
        self.materials.lock().expect("lock").push(material.clone());
        Ok(material)
    }
}

fn item(item_id: &str, title: &str) -> MaterialItem {
    MaterialItem {
        item_id: item_id.to_string(),
        title: title.to_string(),
        price_bits: 10.0f64.to_bits(),
        stock: 999,
        description: None,
        click_url: None,
        coupon_url: None,
        coupon_info: None,
        tpwd: None,
        short_url: None,
    }
}

fn existing_material(id: i64, item_id: &str, title: &str) -> Material {
    Material {
        id,
        owner_id: 1,
        account_id: "acc-1".to_string(),
        rule_id: 1,
        item_id: item_id.to_string(),
        title: title.to_string(),
        price_bits: 10.0f64.to_bits(),
        stock: 999,
        description: None,
        images: String::new(),
        click_url: None,
        coupon_url: None,
        coupon_info: None,
        tpwd: None,
        short_url: None,
        publish_status: PublishStatus::Unpublished,
    }
}

#[test]
fn normalize_drops_empty_and_duplicates() {
    let items = vec![item("a-1", "手机"), item("a-1", "手机重复"), item("", "空ID"), item("b-1", "手机"), item("c-1", "耳机")];
    let unique = MaterialService::normalize_items(&items);
    assert_eq!(unique.len(), 2);
    assert_eq!(unique[0].item_id, "a-1");
    assert_eq!(unique[1].item_id, "c-1");
}

#[test]
fn normalize_allows_duplicate_empty_titles() {
    let items = vec![item("a-1", ""), item("b-1", "")];
    let unique = MaterialService::normalize_items(&items);
    assert_eq!(unique.len(), 2);
}

#[test]
fn normalize_trims_ids_and_titles() {
    let items = vec![item("  a-1 ", " 手机 "), item("a-1", "别的"), item("   ", "空白ID")];
    let unique = MaterialService::normalize_items(&items);
    assert_eq!(unique.len(), 1);
    assert_eq!(unique[0].item_id, "a-1");
    assert_eq!(unique[0].title, "手机");
}

#[test]
fn batch_create_inserts_new() {
    let store = MockMaterialStore::new(vec![]);
    let service = MaterialService::new(&store);
    let result: BatchWriteResult = service.batch_create(1, "acc-1", 5, &[item("a-1", "手机"), item("b-1", "耳机")]).expect("batch");
    assert_eq!(result.created, 2);
    assert_eq!(result.updated, 0);
    let stored = store.materials.lock().expect("lock");
    assert_eq!(stored[0].rule_id, 5);
    assert_eq!(stored[0].account_id, "acc-1");
    assert_eq!(stored[0].publish_status, PublishStatus::Unpublished);
    assert_eq!(f64::from_bits(stored[0].price_bits), 10.0);
}

#[test]
fn batch_create_skips_existing_item_id() {
    let store = MockMaterialStore::new(vec![existing_material(1, "a-1", "手机")]);
    let service = MaterialService::new(&store);
    let result = service.batch_create(1, "acc-1", 5, &[item("a-1", "手机")]).expect("batch");
    assert_eq!(result.created, 0);
    assert_eq!(result.updated, 0);
}

#[test]
fn batch_create_updates_changed_fields() {
    let mut existing = existing_material(1, "a-1", "手机");
    existing.click_url = None;
    let store = MockMaterialStore::new(vec![existing]);
    let service = MaterialService::new(&store);
    let mut new_item = item("a-1", "手机");
    new_item.click_url = Some("https://click.taobao.com/x".to_string());
    let result = service.batch_create(1, "acc-1", 5, &[new_item]).expect("batch");
    assert_eq!(result.created, 0);
    assert_eq!(result.updated, 1);
    let stored = store.materials.lock().expect("lock");
    assert_eq!(stored[0].click_url.as_deref(), Some("https://click.taobao.com/x"));
}

#[test]
fn batch_create_skips_duplicate_title() {
    let store = MockMaterialStore::new(vec![existing_material(1, "a-1", "手机")]);
    let service = MaterialService::new(&store);
    let result = service.batch_create(1, "acc-1", 5, &[item("b-1", "手机")]).expect("batch");
    assert_eq!(result.created, 0);
}

#[test]
fn batch_create_empty_input_writes_nothing() {
    let store = MockMaterialStore::new(vec![]);
    let service = MaterialService::new(&store);
    let result = service.batch_create(1, "acc-1", 5, &[item(" ", "x")]).expect("batch");
    assert_eq!(result.created, 0);
    assert_eq!(result.updated, 0);
    assert!(store.materials.lock().expect("lock").is_empty());
}

#[test]
fn plan_writes_merges_and_creates() {
    let mut existing = existing_material(7, "a-1", "手机");
    existing.tpwd = Some("旧口令".to_string());
    let mut changed = item("a-1", "手机");
    changed.tpwd = Some("新口令".to_string());
    let writes = MaterialService::plan_writes(1, "acc-1", 5, &[changed, item("b-1", "耳机"), item("c-1", "耳机")], &[existing]);
    assert_eq!(writes.len(), 2);
    match &writes[0] {
        business::promotion::material::MaterialWrite::Update(m) => {
            assert_eq!(m.id, 7);
            assert_eq!(m.tpwd.as_deref(), Some("新口令"));
        }
        _ => panic!("expected an update"),
    }
    match &writes[1] {
        business::promotion::material::MaterialWrite::Create(m) => assert_eq!(m.item_id, "b-1"),
        _ => panic!("expected a creation"),
    }
}

#[test]
fn update_requires_ownership() {
    let store = MockMaterialStore::new(vec![existing_material(1, "a-1", "手机")]);
    let service = MaterialService::new(&store);
    let result = service.update(99, 1, |m| m);
    assert!(result.is_err());
    assert_eq!(result.unwrap_err(), "素材不存在或无权限");
    assert!(service.update(1, 1, |m| m).is_ok());
}

#[test]
fn delete_requires_ownership() {
    let store = MockMaterialStore::new(vec![existing_material(1, "a-1", "手机")]);
    let service = MaterialService::new(&store);
    assert!(service.delete(99, 1).is_err());
    assert!(service.delete(1, 1).is_ok());
    assert!(store.materials.lock().expect("lock").is_empty());
}

#[test]
fn publish_status_names() {
    assert_eq!(PublishStatus::Published.as_str(), "published");
    assert_eq!(PublishStatus::from_legacy("1"), Some(PublishStatus::Published));
    assert_eq!(PublishStatus::from_legacy("0"), Some(PublishStatus::Unpublished));
    assert_eq!(PublishStatus::from_legacy("x"), None);
}
