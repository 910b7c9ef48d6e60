//! Rule engine: enabled rules in priority order, the first hit wins.
use vstd::prelude::*;
use crate::delivery::base::{CheckView, DeliveryRule, RuleCheckResult};
use crate::delivery::context::DeliveryCheckContext;
use crate::delivery::data::DeliveryDataSource;
use crate::delivery::registry::{
    lemma_possible_check_names, possible_check, registered_index, registered_names, rule_index,
    DeliveryRuleRegistry, RegisteredRule,
};
use crate::params::{ExtraData, ExtraView, RuleParams};
use crate::text::{opt_string, owned, str_eq};

verus! {

/// Stored configuration of one rule.
#[derive(Debug)]
pub struct RuleConfig {
    pub rule_code: String,
    /// Whether the rule runs.
    pub enabled: bool,
    /// Execution priority (smaller runs first).
    pub priority: i32,
    /// Block reason sent to the buyer.
    pub block_reason: String,
    /// Close the order on a hit.
    pub auto_close_order: bool,
    /// After closing, only send the card.
    pub only_card_after_close: bool,
    /// Items for which the rule is skipped.
    pub excluded_item_ids: Vec<String>,
    /// Rule parameters.
    pub config: RuleParams,
}

/// Engine result.
#[derive(Debug)]
pub struct EngineResult {
    /// Whether some rule hit.
    pub hit: bool,
    pub rule_code: Option<String>,
    pub rule_name: Option<String>,
    /// Why the rule hit.
    pub reason: String,
    /// Configured block reason (sent to the buyer).
    pub block_reason: String,
    pub auto_close_order: bool,
    pub only_card_after_close: bool,
    pub extra_data: ExtraData,
}

/// The result lets the delivery pass: nothing hit, every field empty.
pub open spec fn is_allow(r: EngineResult) -> bool {
    &&& !r.hit
    &&& r.rule_code is None
    &&& r.rule_name is None
    &&& r.reason@.len() == 0
    &&& r.block_reason@.len() == 0
    &&& !r.auto_close_order
    &&& !r.only_card_after_close
    &&& r.extra_data@ == Map::<Seq<char>, ExtraView>::empty()
}

/// The config is skipped for the item.
pub open spec fn excluded_for(c: RuleConfig, item_id: Option<Seq<char>>) -> bool {
    match item_id {
        Some(id) => exists|j: int| 0 <= j < c.excluded_item_ids@.len() && (#[trigger] c.excluded_item_ids@[j])@ == id,
        None => false,
    }
}

/// The config runs for the item: enabled, not excluded, its code registered.
pub open spec fn applicable(c: RuleConfig, item_id: Option<Seq<char>>) -> bool {
    c.enabled && !excluded_for(c, item_id) && registered_index(c.rule_code@) is Some
}

/// `order` lists the enabled configs by ascending priority, configs of equal
/// priority in their given order.
pub open spec fn run_order(configs: Seq<RuleConfig>, order: Seq<usize>) -> bool {
    &&& forall|k: int| 0 <= k < order.len() ==> (#[trigger] order[k]) < configs.len() && configs[order[k] as int].enabled
    &&& forall|i: int| 0 <= i < configs.len() && (#[trigger] configs[i]).enabled ==> exists|k: int| 0 <= k < order.len() && order[k] == i
    &&& forall|a: int, b: int|
        0 <= a < b < order.len() ==> configs[#[trigger] order[a] as int].priority < configs[#[trigger] order[b] as int].priority
            || (configs[order[a] as int].priority == configs[order[b] as int].priority && order[a] < order[b])
}

/// `r` blocks with config `c`: its rule, name, settings, and a reason and
/// extra data that the rule can produce on a hit.
pub open spec fn blocks_with(r: EngineResult, c: RuleConfig, owner_id: Option<i64>, buyer_id: Seq<char>) -> bool {
    let k = registered_index(c.rule_code@)->0;
    &&& r.hit
    &&& opt_string(r.rule_code) == Some(c.rule_code@)
    &&& opt_string(r.rule_name) == Some(registered_names()[k])
    &&& r.block_reason@ == c.block_reason@
    &&& r.auto_close_order == c.auto_close_order
    &&& r.only_card_after_close == c.only_card_after_close
    &&& exists|x: CheckView|
        #[trigger] possible_check(k, c.config, owner_id, buyer_id, x) && x.hit && r.reason@ == x.reason
            && r.extra_data@ == x.extra
}

/// `r` blocks with config `c` on the check result `x`: the config's rule,
/// name and settings, the result's reason and extra data.
pub open spec fn blocks_on(r: EngineResult, c: RuleConfig, x: CheckView) -> bool {
    let k = registered_index(c.rule_code@)->0;
    &&& r.hit
    &&& opt_string(r.rule_code) == Some(c.rule_code@)
    &&& opt_string(r.rule_name) == Some(registered_names()[k])
    &&& r.block_reason@ == c.block_reason@
    &&& r.auto_close_order == c.auto_close_order
    &&& r.only_card_after_close == c.only_card_after_close
    &&& r.reason@ == x.reason
    &&& r.extra_data@ == x.extra
}

/// What the engine got for one config in run order: nothing when the config
/// does not apply to the item, else a result its rule can give on these
/// parameters, owner and buyer.
pub open spec fn outcome_of(
    c: RuleConfig,
    item: Option<Seq<char>>,
    owner_id: Option<i64>,
    buyer_id: Seq<char>,
    o: Option<CheckView>,
) -> bool {
    if applicable(c, item) {
        o matches Some(x) && possible_check(registered_index(c.rule_code@)->0, c.config, owner_id, buyer_id, x)
    } else {
        o is None
    }
}

/// The outcome is a hit.
pub open spec fn is_hit(o: Option<CheckView>) -> bool {
    o matches Some(x) && x.hit
}

/// The engine's decision on the outcomes of the configs taken in run order
/// (`order`), as far as they were asked: the first hit blocks with its
/// config, and only then are the later configs left unasked; with no hit
/// every config was asked and the delivery passes.
pub open spec fn decided(
    configs: Seq<RuleConfig>,
    order: Seq<usize>,
    outcomes: Seq<Option<CheckView>>,
    r: EngineResult,
) -> bool {
    &&& outcomes.len() <= order.len()
    &&& forall|j: int| 0 <= j < outcomes.len() - 1 ==> !is_hit(#[trigger] outcomes[j])
    &&& if r.hit {
        &&& outcomes.len() > 0
        &&& is_hit(outcomes.last())
        &&& blocks_on(r, configs[order[outcomes.len() - 1] as int], outcomes.last()->0)
    } else {
        &&& is_allow(r)
        &&& outcomes.len() == order.len()
        &&& forall|j: int| 0 <= j < outcomes.len() ==> !is_hit(#[trigger] outcomes[j])
    }
}

impl EngineResult {
    /// Let the delivery pass.
    fn allow() -> (r: Self)
        ensures
            is_allow(r),
    {
        EngineResult {
            hit: false,
            rule_code: None,
            rule_name: None,
            reason: String::new(),
            block_reason: String::new(),
            auto_close_order: false,
            only_card_after_close: false,
            extra_data: ExtraData::new(),
        }
    }

    /// Block with the rule's identity and the config's settings.
    fn block(rule: &RegisteredRule, config: &RuleConfig, reason: String, extra_data: ExtraData) -> (r: Self)
        ensures
            r.hit,
            r.rule_code is Some && r.rule_code->0@ == crate::delivery::registry::registered_codes()[rule_index(*rule)],
            opt_string(r.rule_name) == Some(registered_names()[rule_index(*rule)]),
            r.reason == reason,
            r.block_reason@ == config.block_reason@,
            r.auto_close_order == config.auto_close_order,
            r.only_card_after_close == config.only_card_after_close,
            r.extra_data == extra_data,
    {
        EngineResult {
            hit: true,
            rule_code: Some(owned(rule.rule_code())),
            rule_name: Some(owned(rule.rule_name())),
            reason,
            block_reason: config.block_reason.clone(),
            auto_close_order: config.auto_close_order,
            only_card_after_close: config.only_card_after_close,
            extra_data,
        }
    }
}

/// Engine input.
pub struct DeliveryRequest<'a> {
    pub account_id: &'a str,
    pub cookies_str: &'a str,
    pub order_no: &'a str,
    pub buyer_id: &'a str,
    pub item_id: Option<&'a str>,
    pub chat_id: Option<&'a str>,
    pub log_prefix: &'a str,
    pub account_pk: Option<i64>,
    pub owner_id: Option<i64>,
    pub rule_configs: &'a [RuleConfig],
}

/// The enabled configs ordered by priority (stable).
pub fn enabled_in_order(configs: &[RuleConfig]) -> (order: Vec<usize>)
    ensures
        run_order(configs@, order@),
{
    let mut order: Vec<usize> = Vec::new();
    let mut i: usize = 0;
    while i < configs.len()
        invariant
            i <= configs@.len(),
            forall|k: int| 0 <= k < order@.len() ==> (#[trigger] order@[k]) < i && configs@[order@[k] as int].enabled,
            forall|j: int| 0 <= j < i && (#[trigger] configs@[j]).enabled ==> exists|k: int| 0 <= k < order@.len() && order@[k] == j,
            forall|a: int, b: int|
                0 <= a < b < order@.len() ==> configs@[#[trigger] order@[a] as int].priority < configs@[#[trigger] order@[b] as int].priority
                    || (configs@[order@[a] as int].priority == configs@[order@[b] as int].priority && order@[a] < order@[b]),
        decreases configs.len() - i,
    {
        if configs[i].enabled {
            let p = configs[i].priority;
            // Insert after every entry of priority <= p.
            let mut pos: usize = 0;
            while pos < order.len() && configs[order[pos]].priority <= p
                invariant
                    i < configs@.len(),
                    pos <= order@.len(),
                    forall|k: int| 0 <= k < order@.len() ==> (#[trigger] order@[k]) < i,
                    forall|k: int| 0 <= k < pos ==> configs@[#[trigger] order@[k] as int].priority <= p,
                decreases order.len() - pos,
            {
                pos = pos + 1;
            }
            let ghost before = order@;
            order.insert(pos, i);
            proof {
                assert forall|k: int| 0 <= k < order@.len() implies (#[trigger] order@[k]) < i + 1 && configs@[order@[k] as int].enabled by {
                    if k < pos {
                        assert(order@[k] == before[k]);
                    } else if k > pos {
                        assert(order@[k] == before[k - 1]);
                    }
                }
                assert forall|j: int| 0 <= j < i + 1 && (#[trigger] configs@[j]).enabled implies exists|k: int| 0 <= k < order@.len() && order@[k] == j by {
                    if j == i {
                        assert(order@[pos as int] == j);
                    } else {
                        let k0 = choose|k: int| 0 <= k < before.len() && before[k] == j;
                        if k0 < pos {
                            assert(order@[k0] == j);
                        } else {
                            assert(order@[k0 + 1] == j);
                        }
                    }
                }
                assert forall|a: int, b: int|
                    0 <= a < b < order@.len() implies configs@[#[trigger] order@[a] as int].priority < configs@[#[trigger] order@[b] as int].priority
                        || (configs@[order@[a] as int].priority == configs@[order@[b] as int].priority && order@[a] < order@[b]) by {
                    if a < pos && b < pos {
                        assert(order@[a] == before[a] && order@[b] == before[b]);
                    } else if a < pos && b == pos {
                        assert(order@[a] == before[a]);
                        assert(configs@[before[a] as int].priority <= p);
                    } else if a < pos && b > pos {
                        assert(order@[a] == before[a] && order@[b] == before[b - 1]);
                    } else if a == pos {
                        assert(order@[b] == before[b - 1]);
                        if (b - 1) == pos as int {
                            assert(!(configs@[before[pos as int] as int].priority <= p));
                        } else {
                            assert(configs@[before[pos as int] as int].priority > p);
                            assert(configs@[before[pos as int] as int].priority < configs@[before[b - 1] as int].priority
                                || configs@[before[pos as int] as int].priority == configs@[before[b - 1] as int].priority);
                        }
                    } else {
                        assert(order@[a] == before[a - 1] && order@[b] == before[b - 1]);
                    }
                }
            }
        }
        i = i + 1;
    }
    order
}

fn is_excluded(config: &RuleConfig, item_id: Option<&str>) -> (b: bool)
    ensures
        b == excluded_for(*config, match item_id {
            Some(s) => Some(s@),
            None => None,
        }),
{
    match item_id {
        Some(id) => {
            let mut j: usize = 0;
            while j < config.excluded_item_ids.len()
                invariant
                    item_id == Some(id),
                    j <= config.excluded_item_ids@.len(),
                    forall|t: int| 0 <= t < j ==> (#[trigger] config.excluded_item_ids@[t])@ != id@,
                decreases config.excluded_item_ids.len() - j,
            {
                if str_eq(config.excluded_item_ids[j].as_str(), id) {
                    assert(config.excluded_item_ids@[j as int]@ == id@);
                    assert(excluded_for(*config, Some(id@)));
                    return true;
                }
                j = j + 1;
            }
            false
        },
        None => false,
    }
}

/// The rule engine.
pub struct DeliveryEngine<'a> {
    data: &'a dyn DeliveryDataSource,
}

impl<'a> DeliveryEngine<'a> {
    /// An engine reading through the given data source.
    pub fn new(data: &'a dyn DeliveryDataSource) -> (e: Self) {
        DeliveryEngine { data }
    }

    /// Runs the enabled rules by ascending priority (equal priorities in the
    /// given order), skipping a rule whose excluded items contain the item,
    /// whose code is unknown or whose check fails; the first hit decides.
    pub fn execute(&self, request: &DeliveryRequest<'_>) -> (r: EngineResult)
        ensures
            !r.hit <==> is_allow(r),
            r.hit ==> exists|i: int|
                0 <= i < request.rule_configs@.len()
                    && applicable(#[trigger] request.rule_configs@[i], match request.item_id {
                        Some(s) => Some(s@),
                        None => None,
                    })
                    && blocks_with(r, request.rule_configs@[i], request.owner_id, request.buyer_id@),
            (forall|i: int| 0 <= i < request.rule_configs@.len() ==> !applicable(#[trigger] request.rule_configs@[i], match request.item_id {
                Some(s) => Some(s@),
                None => None,
            })) ==> !r.hit,
            exists|order: Seq<usize>, outcomes: Seq<Option<CheckView>>|
                #![trigger decided(request.rule_configs@, order, outcomes, r)]
                {
                    &&& run_order(request.rule_configs@, order)
                    &&& forall|j: int|
                        0 <= j < outcomes.len() ==> outcome_of(
                            request.rule_configs@[order[j] as int],
                            match request.item_id {
                                Some(s) => Some(s@),
                                None => None,
                            },
                            request.owner_id,
                            request.buyer_id@,
                            #[trigger] outcomes[j],
                        )
                    &&& decided(request.rule_configs@, order, outcomes, r)
                },
    {
        let configs = request.rule_configs;
        let ghost item = match request.item_id {
            Some(s) => Some(s@),
            None => None,
        };
        let order = enabled_in_order(configs);
        let ghost owner = request.owner_id;
        let ghost buyer = request.buyer_id@;
        let ghost mut outs: Seq<Option<CheckView>> = Seq::empty();
        let mut k: usize = 0;
        while k < order.len()
            invariant
                k <= order@.len(),
                run_order(configs@, order@),
                configs@ == request.rule_configs@,
                item == (match request.item_id {
                    Some(s) => Some(s@),
                    None => None,
                }),
                owner == request.owner_id,
                buyer == request.buyer_id@,
                outs.len() == k,
                forall|j: int| 0 <= j < k ==> outcome_of(configs@[order@[j] as int], item, owner, buyer, #[trigger] outs[j]),
                forall|j: int| 0 <= j < k ==> !is_hit(#[trigger] outs[j]),
            decreases order.len() - k,
        {
            let config = &configs[order[k]];
            proof {
                assert(configs@[order@[k as int] as int].enabled);
            }
            if is_excluded(config, request.item_id) {
                proof {
                    assert(!applicable(*config, item));
                    outs = outs.push(None);
                }
                k = k + 1;
                continue;
            }
            let rule = match DeliveryRuleRegistry::instance(config.rule_code.as_str()) {
                Some(rule) => rule,
                None => {
                    proof {
                        assert(!applicable(*config, item));
                        outs = outs.push(None);
                    }
                    k = k + 1;
                    continue;
                },
            };
            let context = DeliveryCheckContext {
                account_id: request.account_id,
                cookies_str: request.cookies_str,
                order_no: request.order_no,
                buyer_id: request.buyer_id,
                item_id: request.item_id,
                chat_id: request.chat_id,
                log_prefix: request.log_prefix,
                rule_config: &config.config,
                account_pk: request.account_pk,
                owner_id: request.owner_id,
                data: self.data,
            };
            let result = match rule.check(&context) {
                Ok(result) => result,
                Err(_) => {
                    proof {
                        outs = outs.push(None);
                    }
                    k = k + 1;
                    continue;
                },
            };
            proof {
                assert(applicable(*config, item));
                assert(registered_index(config.rule_code@)->0 == rule_index(rule));
                assert(outcome_of(*config, item, owner, buyer, Some(result@)));
            }
            if result.hit {
                let ghost x = result@;
                let ghost idx = order@[k as int] as int;
                proof {
                    lemma_possible_check_names(rule_index(rule), config.config, request.owner_id, request.buyer_id@, x);
                    crate::delivery::registry::lemma_registered_index(config.rule_code@);
                }
                let RuleCheckResult { hit: _, rule_code: _, rule_name: _, reason, extra_data } = result;
                let r = EngineResult::block(&rule, config, reason, extra_data);
                assert(applicable(configs@[idx], item));
                assert(configs@[idx] == *config);
                assert(r.reason@ == x.reason);
                assert(r.extra_data@ == x.extra);
                assert(opt_string(r.rule_code) == Some(config.rule_code@));
                assert(blocks_with(r, configs@[idx], request.owner_id, request.buyer_id@)) by {
                    assert(possible_check(rule_index(rule), configs@[idx].config, request.owner_id, request.buyer_id@, x));
                }
                let ghost final_outs = outs.push(Some(x));
                assert(forall|j: int| 0 <= j < final_outs.len() ==> outcome_of(
                    request.rule_configs@[order@[j] as int],
                    item,
                    request.owner_id,
                    request.buyer_id@,
                    #[trigger] final_outs[j],
                )) by {
                    assert forall|j: int| 0 <= j < final_outs.len() implies outcome_of(
                        request.rule_configs@[order@[j] as int],
                        item,
                        request.owner_id,
                        request.buyer_id@,
                        #[trigger] final_outs[j],
                    ) by {
                        if j < k {
                            assert(final_outs[j] == outs[j]);
                        }
                    }
                }
                assert(blocks_on(r, configs@[idx], x));
                assert(decided(request.rule_configs@, order@, final_outs, r)) by {
                    assert forall|j: int| 0 <= j < final_outs.len() - 1 implies !is_hit(#[trigger] final_outs[j]) by {
                        assert(final_outs[j] == outs[j]);
                    }
                }
                return r;
            }
            proof {
                outs = outs.push(Some(result@));
            }
            k = k + 1;
        }
        let r = EngineResult::allow();
        assert(decided(request.rule_configs@, order@, outs, r));
        r
    }
}

} // verus!
