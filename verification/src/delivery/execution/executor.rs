//! Delivery flow: card selection → delay → shipping confirmation → content →
//! send → order update. The platform and storage operations are performed by
//! the caller, which hands each outcome back to the flow; the flow decides.
use vstd::prelude::*;
use crate::delivery::execution::card::{is_dock_source, selected_index, Card, CardSelector};
use crate::delivery::execution::content::{ContentContext, DeliveryContent};
use crate::delivery::execution::gateway::ConfirmResult;
use crate::text::{concat2, concat3, decimal_seq, owned, str_eq, str_is_empty, strings_view, u64_to_decimal};

verus! {

/// Account-level delivery switches.
#[derive(Debug, Clone, Default)]
pub struct DeliveryOptions {
    /// Confirm shipping automatically.
    pub auto_confirm: bool,
    /// Only send the card (no shipping confirmation).
    pub only_send_card: bool,
    /// Card-only mode after a blocked and closed order.
    pub closed_order_card_only: bool,
    /// Cool-down for confirmed orders (seconds).
    pub confirm_cooldown_secs: u64,
}

/// A delivery request.
#[derive(Debug)]
pub struct DeliveryRequest {
    pub item_id: String,
    pub order_id: Option<String>,
    pub chat_id: Option<String>,
    pub buyer_id: String,
    pub buyer_name: String,
}

/// The result of a delivery.
#[derive(Debug)]
pub struct DeliveryResult {
    pub success: bool,
    /// Failure reason (empty on success).
    pub fail_reason: String,
    /// The order had already been shipped.
    pub already_delivered: bool,
    /// The sent content (on success).
    pub sent_content: Option<String>,
}

/// A failed delivery with the given reason.
pub open spec fn is_failure(r: DeliveryResult, reason: Seq<char>) -> bool {
    !r.success && r.fail_reason@ == reason && !r.already_delivered && r.sent_content is None
}

/// A successful delivery of the given text.
pub open spec fn is_success(r: DeliveryResult, text: Seq<char>) -> bool {
    r.success && r.fail_reason@.len() == 0 && !r.already_delivered && (r.sent_content matches Some(s) && s@ == text)
}

/// An already-shipped order.
pub open spec fn is_already_delivered(r: DeliveryResult) -> bool {
    !r.success && r.fail_reason@ == "订单已发货过，不再发送卡券"@ && r.already_delivered
        && r.sent_content is None
}

impl DeliveryResult {
    /// A failure.
    pub fn failure(reason: String) -> (r: Self)
        ensures
            is_failure(r, reason@),
    {
        DeliveryResult { success: false, fail_reason: reason, already_delivered: false, sent_content: None }
    }

    /// A success.
    pub fn success(content: String) -> (r: Self)
        ensures
            is_success(r, content@),
    {
        DeliveryResult {
            success: true,
            fail_reason: String::new(),
            already_delivered: false,
            sent_content: Some(content),
        }
    }

    /// An already-shipped order.
    pub fn already_delivered() -> (r: Self)
        ensures
            is_already_delivered(r),
    {
        DeliveryResult {
            success: false,
            fail_reason: owned("订单已发货过，不再发送卡券"),
            already_delivered: true,
            sent_content: None,
        }
    }
}

/// What the caller must do next.
#[derive(Debug)]
pub enum DeliveryAction {
    /// Load the candidate cards of the item; answer with `on_cards`.
    LoadCards { item_id: String },
    /// Wait; answer with `on_slept`.
    Sleep { seconds: u32 },
    /// Confirm shipping; answer with `on_confirmed`.
    ConfirmShipping { order_id: String },
    /// Mark the order as delivered; answer with `on_marked`.
    MarkDeliverySent { order_id: String },
    /// Update the order's delivery fields (the outcome is ignored); answer with `on_order_updated`.
    UpdateOrder {
        order_no: String,
        status: String,
        delivery_method: String,
        content: String,
        fail_reason: String,
    },
    /// Generate the card content; answer with `on_content`.
    GenerateContent { card: Card, context: ContentContext },
    /// Send the text to the chat; answer with `on_sent`.
    SendText { chat_id: String, buyer_id: String, text: String },
    /// The delivery is over.
    Finish(DeliveryResult),
}

/// Where the flow is.
#[derive(Debug)]
pub enum DeliveryStage {
    Start,
    AwaitCards,
    AwaitSleep(Card),
    AwaitConfirm(Card),
    AwaitMarked(String),
    AwaitAlreadyUpdated,
    AwaitContent,
    AwaitSent(String, String),
    AwaitFinalUpdate(bool, String),
    Done,
}

/// An item id that cannot be delivered.
pub open spec fn invalid_item(item_id: Seq<char>) -> bool {
    item_id.len() == 0 || item_id == "未知商品"@
}

/// Whether shipping is confirmed before the content is generated.
pub open spec fn confirms_first(request: DeliveryRequest, options: DeliveryOptions) -> bool {
    request.order_id is Some && !options.only_send_card && options.auto_confirm
}

/// The step after the delay (or without one): shipping confirmation when
/// [`confirms_first`], else content generation for the card.
pub open spec fn after_delay_step(
    request: DeliveryRequest,
    options: DeliveryOptions,
    card: Card,
    stage: DeliveryStage,
    a: DeliveryAction,
) -> bool {
    if confirms_first(request, options) {
        stage == DeliveryStage::AwaitConfirm(card) && (a matches DeliveryAction::ConfirmShipping { order_id } && Some(order_id) == request.order_id)
    } else {
        stage is AwaitContent && generates(request, card, a)
    }
}

/// The action asks for the content of the card, with the request's order,
/// item and buyer.
pub open spec fn generates(request: DeliveryRequest, card: Card, a: DeliveryAction) -> bool {
    a matches DeliveryAction::GenerateContent { card: c, context } && c == card && context.order_id@ == (match request.order_id {
        Some(o) => o@,
        None => Seq::empty(),
    }) && context.item_id@ == request.item_id@ && context.buyer_id@ == request.buyer_id@
}

/// The flow of one delivery.
pub struct DeliveryFlow {
    request: DeliveryRequest,
    options: DeliveryOptions,
    stage: DeliveryStage,
}

impl DeliveryFlow {
    pub closed spec fn stage(&self) -> DeliveryStage {
        self.stage
    }

    pub closed spec fn request(&self) -> DeliveryRequest {
        self.request
    }

    pub closed spec fn options(&self) -> DeliveryOptions {
        self.options
    }

    /// A flow for the request, not started.
    pub fn new(request: DeliveryRequest, options: DeliveryOptions) -> (f: Self)
        ensures
            f.request() == request,
            f.options() == options,
            f.stage() is Start,
    {
        DeliveryFlow { request, options, stage: DeliveryStage::Start }
    }

    /// Starts: an empty or unknown item id fails, otherwise the cards are loaded.
    pub fn start(&mut self) -> (a: DeliveryAction)
        requires
            old(self).stage() is Start,
        ensures
            final(self).request() == old(self).request(),
            final(self).options() == old(self).options(),
            invalid_item(old(self).request().item_id@) ==> final(self).stage() is Done && (a matches DeliveryAction::Finish(r) && is_failure(
                r,
                "商品ID无效，无法自动发货: "@ + old(self).request().item_id@,
            )),
            !invalid_item(old(self).request().item_id@) ==> final(self).stage() is AwaitCards && (a matches DeliveryAction::LoadCards { item_id } && item_id@ == old(self).request().item_id@),
    {
        let item = self.request.item_id.as_str();
        if str_is_empty(item) || str_eq(item, "未知商品") {
            self.stage = DeliveryStage::Done;
            return DeliveryAction::Finish(
                DeliveryResult::failure(concat2("商品ID无效，无法自动发货: ", item)),
            );
        }
        self.stage = DeliveryStage::AwaitCards;
        DeliveryAction::LoadCards { item_id: self.request.item_id.clone() }
    }

    /// After the delay or when there is none: confirm shipping when an order
    /// is given, card-only sending is off and auto-confirm is on; else generate
    /// the content.
    fn after_delay(&mut self, card: Card) -> (a: DeliveryAction)
        ensures
            final(self).request() == old(self).request(),
            final(self).options() == old(self).options(),
            after_delay_step(old(self).request(), old(self).options(), card, final(self).stage(), a),
    {
        match &self.request.order_id {
            Some(order_id) => {
                if !self.options.only_send_card && self.options.auto_confirm {
                    let order_id = order_id.clone();
                    self.stage = DeliveryStage::AwaitConfirm(card);
                    return DeliveryAction::ConfirmShipping { order_id };
                }
            },
            None => {},
        }
        self.generate(card)
    }

    fn generate(&mut self, card: Card) -> (a: DeliveryAction)
        ensures
            final(self).request() == old(self).request(),
            final(self).options() == old(self).options(),
            final(self).stage() is AwaitContent,
            generates(old(self).request(), card, a),
    {
        let mut context = ContentContext::default();
        context.order_id = match &self.request.order_id {
            Some(o) => o.clone(),
            None => String::new(),
        };
        context.item_id = self.request.item_id.clone();
        context.buyer_id = self.request.buyer_id.clone();
        self.stage = DeliveryStage::AwaitContent;
        DeliveryAction::GenerateContent { card, context }
    }

    /// Selects the card: no unique card fails; a docking card in card-only
    /// mode fails; a delay is waited; then shipping confirmation or content.
    pub fn on_cards(&mut self, cards: Vec<Card>) -> (a: DeliveryAction)
        requires
            old(self).stage() is AwaitCards,
        ensures
            final(self).request() == old(self).request(),
            final(self).options() == old(self).options(),
            selected_index(cards@) is None ==> final(self).stage() is Done && (a matches DeliveryAction::Finish(r) && is_failure(
                r,
                "商品 "@ + old(self).request().item_id@ + " 未在任何来源中唯一匹配到卡券（共 "@ + decimal_seq(cards@.len()) + " 条关联）"@,
            )),
            selected_index(cards@) matches Some(i) && old(self).options().closed_order_card_only && is_dock_source(cards@[i].source)
                ==> final(self).stage() is Done && (a matches DeliveryAction::Finish(r) && is_failure(
                r,
                "card_only 模式不适用于对接卡券，为避免货主财务损失，跳过卡券发送"@,
            )),
            selected_index(cards@) matches Some(i) ==> (!(old(self).options().closed_order_card_only && is_dock_source(cards@[i].source))
                && cards@[i].delay_seconds > 0 ==> final(self).stage() == DeliveryStage::AwaitSleep(cards@[i])
                && (a matches DeliveryAction::Sleep { seconds } && seconds == cards@[i].delay_seconds)),
            selected_index(cards@) matches Some(i) ==> (!(old(self).options().closed_order_card_only && is_dock_source(cards@[i].source))
                && cards@[i].delay_seconds == 0 ==> after_delay_step(old(self).request(), old(self).options(), cards@[i], final(self).stage(), a)),
    {
        let selected = CardSelector::select(cards.as_slice());
        let card = match selected {
            Some(c) => c.clone(),
            None => {
                self.stage = DeliveryStage::Done;
                let head = concat3("商品 ", self.request.item_id.as_str(), " 未在任何来源中唯一匹配到卡券（共 ");
                let reason = concat3(head.as_str(), u64_to_decimal(cards.len() as u64).as_str(), " 条关联）");
                return DeliveryAction::Finish(DeliveryResult::failure(reason));
            },
        };
        if self.options.closed_order_card_only && card.is_dock() {
            self.stage = DeliveryStage::Done;
            return DeliveryAction::Finish(
                DeliveryResult::failure(owned("card_only 模式不适用于对接卡券，为避免货主财务损失，跳过卡券发送")),
            );
        }
        if card.delay_seconds > 0 {
            let seconds = card.delay_seconds;
            self.stage = DeliveryStage::AwaitSleep(card);
            return DeliveryAction::Sleep { seconds };
        }
        self.after_delay(card)
    }

    /// The delay is over.
    pub fn on_slept(&mut self) -> (a: DeliveryAction)
        requires
            old(self).stage() is AwaitSleep,
        ensures
            final(self).request() == old(self).request(),
            final(self).options() == old(self).options(),
            after_delay_step(old(self).request(), old(self).options(), old(self).stage()->AwaitSleep_0, final(self).stage(), a),
    {
        let mut stage = DeliveryStage::Done;
        std::mem::swap(&mut stage, &mut self.stage);
        match stage {
            DeliveryStage::AwaitSleep(card) => self.after_delay(card),
            _ => {
                self.stage = DeliveryStage::Done;
                DeliveryAction::Finish(DeliveryResult::failure(String::new()))
            },
        }
    }

    /// The confirmation answered: an already shipped order is marked and
    /// updated, then reported; a failed confirmation fails the delivery;
    /// otherwise the content is generated.
    pub fn on_confirmed(&mut self, result: ConfirmResult) -> (a: DeliveryAction)
        requires
            old(self).stage() is AwaitConfirm,
            old(self).request().order_id is Some,
        ensures
            final(self).request() == old(self).request(),
            final(self).options() == old(self).options(),
            result.already_delivered ==> final(self).stage() is AwaitMarked && (a matches DeliveryAction::MarkDeliverySent { order_id } && Some(order_id) == old(self).request().order_id),
            !result.already_delivered && !result.success ==> final(self).stage() is Done && (a matches DeliveryAction::Finish(r) && is_failure(r, "确认发货失败: "@ + result.message@)),
            !result.already_delivered && result.success ==> final(self).stage() is AwaitContent && generates(old(self).request(), old(self).stage()->AwaitConfirm_0, a),
    {
        let mut stage = DeliveryStage::Done;
        std::mem::swap(&mut stage, &mut self.stage);
        let card = match stage {
            DeliveryStage::AwaitConfirm(card) => card,
            _ => {
                return DeliveryAction::Finish(DeliveryResult::failure(String::new()));
            },
        };
        let order_id = match &self.request.order_id {
            Some(o) => o.clone(),
            None => String::new(),
        };
        if result.already_delivered {
            self.stage = DeliveryStage::AwaitMarked(order_id.clone());
            return DeliveryAction::MarkDeliverySent { order_id };
        }
        if !result.success {
            self.stage = DeliveryStage::Done;
            return DeliveryAction::Finish(
                DeliveryResult::failure(concat2("确认发货失败: ", result.message.as_str())),
            );
        }
        self.generate(card)
    }

    /// The order was marked: update it as shipped by the platform.
    pub fn on_marked(&mut self) -> (a: DeliveryAction)
        requires
            old(self).stage() is AwaitMarked,
        ensures
            final(self).request() == old(self).request(),
            final(self).options() == old(self).options(),
            final(self).stage() is AwaitAlreadyUpdated,
            a matches DeliveryAction::UpdateOrder { order_no, status, delivery_method, content, fail_reason }
                && order_no@ == old(self).stage()->AwaitMarked_0@ && status@ == "shipped"@ && delivery_method@ == "auto"@
                && content@ == "订单已确认发货（闲鱼平台已发货）"@ && fail_reason@.len() == 0,
    {
        let mut stage = DeliveryStage::Done;
        std::mem::swap(&mut stage, &mut self.stage);
        let order_no = match stage {
            DeliveryStage::AwaitMarked(o) => o,
            _ => String::new(),
        };
        self.stage = DeliveryStage::AwaitAlreadyUpdated;
        DeliveryAction::UpdateOrder {
            order_no,
            status: owned("shipped"),
            delivery_method: owned("auto"),
            content: owned("订单已确认发货（闲鱼平台已发货）"),
            fail_reason: String::new(),
        }
    }

    /// The content was generated (`None`: it could not be): without content
    /// the delivery fails; with a chat and an order the text is sent; else the
    /// delivery succeeds with the text.
    pub fn on_content(&mut self, content: Option<DeliveryContent>) -> (a: DeliveryAction)
        requires
            old(self).stage() is AwaitContent,
        ensures
            final(self).request() == old(self).request(),
            final(self).options() == old(self).options(),
            content is None ==> final(self).stage() is Done && (a matches DeliveryAction::Finish(r) && is_failure(
                r,
                "商品 "@ + old(self).request().item_id@ + " 卡券内容生成失败"@,
            )),
            content matches Some(c) ==> {
                let text = crate::delivery::execution::content::to_text_spec(c.text@, strings_view(c.image_urls@));
                match (old(self).request().chat_id, old(self).request().order_id) {
                    (Some(chat), Some(order)) => final(self).stage() == DeliveryStage::AwaitSent(order, final(self).stage()->AwaitSent_1)
                        && final(self).stage()->AwaitSent_1@ == text
                        && (a matches DeliveryAction::SendText { chat_id, buyer_id, text: t }
                        && chat_id@ == chat@ && buyer_id@ == old(self).request().buyer_id@ && t@ == text),
                    _ => final(self).stage() is Done && (a matches DeliveryAction::Finish(r) && is_success(r, text)),
                }
            },
    {
        let content = match content {
            Some(c) => c,
            None => {
                self.stage = DeliveryStage::Done;
                let reason = concat3("商品 ", self.request.item_id.as_str(), " 卡券内容生成失败");
                return DeliveryAction::Finish(DeliveryResult::failure(reason));
            },
        };
        let text = content.to_text();
        match (&self.request.chat_id, &self.request.order_id) {
            (Some(chat_id), Some(order_id)) => {
                let chat_id = chat_id.clone();
                let order = order_id.clone();
                self.stage = DeliveryStage::AwaitSent(order, text.clone());
                DeliveryAction::SendText { chat_id, buyer_id: self.request.buyer_id.clone(), text }
            },
            _ => {
                self.stage = DeliveryStage::Done;
                DeliveryAction::Finish(DeliveryResult::success(text))
            },
        }
    }

    /// The text was sent (or not): the order is updated as shipped, or as
    /// pending with the send error.
    pub fn on_sent(&mut self, sent: Result<(), String>) -> (a: DeliveryAction)
        requires
            old(self).stage() is AwaitSent,
        ensures
            final(self).request() == old(self).request(),
            final(self).options() == old(self).options(),
            ({
                let order = old(self).stage()->AwaitSent_0;
                let text = old(self).stage()->AwaitSent_1;
                match sent {
                    Ok(()) => final(self).stage() is AwaitFinalUpdate && final(self).stage()->AwaitFinalUpdate_0
                        && final(self).stage()->AwaitFinalUpdate_1@ == text@
                        && (a matches DeliveryAction::UpdateOrder { order_no, status, delivery_method, content, fail_reason }
                        && order_no@ == order@ && status@ == "shipped"@ && delivery_method@ == "auto"@ && content@ == text@ && fail_reason@.len() == 0),
                    Err(e) => final(self).stage() is AwaitFinalUpdate && !final(self).stage()->AwaitFinalUpdate_0
                        && final(self).stage()->AwaitFinalUpdate_1@ == "发送失败: "@ + e@
                        && (a matches DeliveryAction::UpdateOrder { order_no, status, delivery_method, content, fail_reason }
                        && order_no@ == order@ && status@ == "pending"@ && delivery_method@ == "auto"@ && content@ == text@
                        && fail_reason@ == "发送失败: "@ + e@),
                }
            }),
    {
        let mut stage = DeliveryStage::Done;
        std::mem::swap(&mut stage, &mut self.stage);
        let (order, text) = match stage {
            DeliveryStage::AwaitSent(o, t) => (o, t),
            _ => (String::new(), String::new()),
        };
        match sent {
            Ok(()) => {
                self.stage = DeliveryStage::AwaitFinalUpdate(true, text.clone());
                DeliveryAction::UpdateOrder {
                    order_no: order,
                    status: owned("shipped"),
                    delivery_method: owned("auto"),
                    content: text,
                    fail_reason: String::new(),
                }
            },
            Err(e) => {
                let reason = concat2("发送失败: ", e.as_str());
                self.stage = DeliveryStage::AwaitFinalUpdate(false, reason.clone());
                DeliveryAction::UpdateOrder {
                    order_no: order,
                    status: owned("pending"),
                    delivery_method: owned("auto"),
                    content: text,
                    fail_reason: reason,
                }
            },
        }
    }

    /// The order update finished (its outcome is ignored): report the result.
    pub fn on_order_updated(&mut self) -> (a: DeliveryAction)
        requires
            old(self).stage() is AwaitAlreadyUpdated || old(self).stage() is AwaitFinalUpdate,
        ensures
            final(self).request() == old(self).request(),
            final(self).options() == old(self).options(),
            final(self).stage() is Done,
            old(self).stage() is AwaitAlreadyUpdated ==> (a matches DeliveryAction::Finish(r) && is_already_delivered(r)),
            old(self).stage() matches DeliveryStage::AwaitFinalUpdate(ok, s) ==> (a matches DeliveryAction::Finish(r) && (if ok {
                is_success(r, s@)
            } else {
                is_failure(r, s@)
            })),
    {
        let mut stage = DeliveryStage::Done;
        std::mem::swap(&mut stage, &mut self.stage);
        match stage {
            DeliveryStage::AwaitFinalUpdate(ok, s) => {
                if ok {
                    DeliveryAction::Finish(DeliveryResult::success(s))
                } else {
                    DeliveryAction::Finish(DeliveryResult::failure(s))
                }
            },
            _ => DeliveryAction::Finish(DeliveryResult::already_delivered()),
        }
    }

    /// Whether the flow is over.
    pub fn is_done(&self) -> (b: bool)
        ensures
            b == (self.stage() is Done),
    {
        match self.stage {
            DeliveryStage::Done => true,
            _ => false,
        }
    }
}

} // verus!
