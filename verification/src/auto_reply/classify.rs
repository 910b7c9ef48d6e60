//! Message classification: which processing chain an inbound message takes.
use vstd::prelude::*;
use crate::text::{chars_of, contains_chars, seq_contains};

verus! {

/// Classification of an inbound message.
#[derive(Debug, Clone, Copy, PartialEq, Eq, Structural)]
pub enum MessageClass {
    /// Ordinary chat message: goes through auto-reply.
    Chat,
    /// System message: no reply, notification still possible.
    System,
    /// Payment notice that triggers automatic delivery.
    AutoDeliveryTrigger,
    /// Request to leave a rating.
    RateRequest,
    /// Receipt confirmation.
    ConfirmReceipt,
    /// Sent by the seller themself (pauses auto-reply for the chat).
    SelfMessage,
}

/// System messages that never get an auto-reply.
pub open spec fn system_keywords() -> Seq<Seq<char>> {
    seq![
        "[我已拍下，待付款]"@,
        "[你关闭了订单，钱款已原路退返]"@,
        "[不想宝贝被砍价?设置不砍价回复  ]"@,
        "AI正在帮你回复消息，不错过每笔订单"@,
        "发来一条消息"@,
        "发来一条新消息"@,
        "卖家人不错？送Ta闲鱼小红花"@,
        "你人真不错，送你闲鱼小红花"@,
        "[你已确认收货，交易成功]"@,
        "[买家确认收货，交易成功]"@,
        "买家已确认收货，交易成功"@,
        "[你已发货]"@,
        "已发货"@,
        "[注意！小心假客服骗钱！]"@,
        "「我将「退货退款」修改为「退款」」"@,
        "订单已签收"@,
        "有蚂蚁森林能量可领"@,
        "[我完成了评价]"@,
        "我完成了评价"@,
        "[退款成功，钱款已原路退返]"@,
        "[买家申请退款]"@,
        "[卖家同意退款]"@,
        "温馨提醒：商品信息近期有过变更"@,
        "查看商品详情"@,
    ]
}

/// Payment notices that trigger automatic delivery.
pub open spec fn delivery_keywords() -> Seq<Seq<char>> {
    seq!["[我已付款，等待你发货]"@, "[已付款，待发货]"@, "我已付款，等待你发货"@, "[记得及时发货]"@]
}

/// Rating requests.
pub open spec fn rate_keywords() -> Seq<Seq<char>> {
    seq!["快给ta一个评价吧"@, "快给TA一个评价吧"@, "给个评价"@]
}

/// Receipt confirmations.
pub open spec fn receipt_keywords() -> Seq<Seq<char>> {
    seq!["确认收货"@, "交易成功"@]
}

/// Some keyword of `kws` is a substring of `content`.
pub open spec fn contains_any(content: Seq<char>, kws: Seq<Seq<char>>) -> bool {
    exists|i: int| 0 <= i < kws.len() && seq_contains(content, #[trigger] kws[i])
}

/// The class of a message: own messages first, then the keyword lists in
/// priority order (system, delivery, rating, receipt), else chat.
pub open spec fn classify_spec(content: Seq<char>, sender_is_self: bool) -> MessageClass {
    if sender_is_self {
        MessageClass::SelfMessage
    } else if contains_any(content, system_keywords()) {
        MessageClass::System
    } else if contains_any(content, delivery_keywords()) {
        MessageClass::AutoDeliveryTrigger
    } else if contains_any(content, rate_keywords()) {
        MessageClass::RateRequest
    } else if contains_any(content, receipt_keywords()) {
        MessageClass::ConfirmReceipt
    } else {
        MessageClass::Chat
    }
}

fn system_list() -> (v: Vec<&'static str>)
    ensures
        v@.map_values(|s: &str| s@) == system_keywords(),
{
    let v = vec![
        "[我已拍下，待付款]",
        "[你关闭了订单，钱款已原路退返]",
        "[不想宝贝被砍价?设置不砍价回复  ]",
        "AI正在帮你回复消息，不错过每笔订单",
        "发来一条消息",
        "发来一条新消息",
        "卖家人不错？送Ta闲鱼小红花",
        "你人真不错，送你闲鱼小红花",
        "[你已确认收货，交易成功]",
        "[买家确认收货，交易成功]",
        "买家已确认收货，交易成功",
        "[你已发货]",
        "已发货",
        "[注意！小心假客服骗钱！]",
        "「我将「退货退款」修改为「退款」」",
        "订单已签收",
        "有蚂蚁森林能量可领",
        "[我完成了评价]",
        "我完成了评价",
        "[退款成功，钱款已原路退返]",
        "[买家申请退款]",
        "[卖家同意退款]",
        "温馨提醒：商品信息近期有过变更",
        "查看商品详情",
    ];
    assert(v@.map_values(|s: &str| s@) =~= system_keywords());
    v
}

fn delivery_list() -> (v: Vec<&'static str>)
    ensures
        v@.map_values(|s: &str| s@) == delivery_keywords(),
{
    let v = vec!["[我已付款，等待你发货]", "[已付款，待发货]", "我已付款，等待你发货", "[记得及时发货]"];
    assert(v@.map_values(|s: &str| s@) =~= delivery_keywords());
    v
}

fn rate_list() -> (v: Vec<&'static str>)
    ensures
        v@.map_values(|s: &str| s@) == rate_keywords(),
{
    let v = vec!["快给ta一个评价吧", "快给TA一个评价吧", "给个评价"];
    assert(v@.map_values(|s: &str| s@) =~= rate_keywords());
    v
}

fn receipt_list() -> (v: Vec<&'static str>)
    ensures
        v@.map_values(|s: &str| s@) == receipt_keywords(),
{
    let v = vec!["确认收货", "交易成功"];
    assert(v@.map_values(|s: &str| s@) =~= receipt_keywords());
    v
}

/// Whether some keyword of `kws` occurs in `content`.
pub fn contains_any_of(content: &Vec<char>, kws: &Vec<&'static str>) -> (b: bool)
    ensures
        b == contains_any(content@, kws@.map_values(|s: &str| s@)),
{
    let ghost views = kws@.map_values(|s: &str| s@);
    let mut i: usize = 0;
    while i < kws.len()
        invariant
            i <= kws.len(),
            views == kws@.map_values(|s: &str| s@),
            forall|j: int| 0 <= j < i ==> !seq_contains(content@, #[trigger] views[j]),
        decreases kws.len() - i,
    {
        let k = chars_of(kws[i]);
        if contains_chars(content, &k) {
            assert(views[i as int] == kws@[i as int]@);
            return true;
        }
        i = i + 1;
    }
    false
}

/// Message classifier (pure function).
pub struct MessageClassifier;

impl MessageClassifier {
    /// Classifies a message by sender and content keywords.
    pub fn classify(content: &str, sender_is_self: bool) -> (c: MessageClass)
        ensures
            c == classify_spec(content@, sender_is_self),
    {
        if sender_is_self {
            return MessageClass::SelfMessage;
        }
        let v = chars_of(content);
        if contains_any_of(&v, &system_list()) {
            return MessageClass::System;
        }
        if contains_any_of(&v, &delivery_list()) {
            return MessageClass::AutoDeliveryTrigger;
        }
        if contains_any_of(&v, &rate_list()) {
            return MessageClass::RateRequest;
        }
        if contains_any_of(&v, &receipt_list()) {
            return MessageClass::ConfirmReceipt;
        }
        MessageClass::Chat
    }
}

} // verus!
