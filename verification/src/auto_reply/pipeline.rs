//! Auto-reply decision pipeline: classify → pause → dedup → filter → keyword
//! → AI → default. The AI step is performed by the caller between
//! `handle_message` (which reports `NeedAi`) and `resume_after_ai`.
use vstd::prelude::*;
use crate::auto_reply::classify::{classify_spec, MessageClass, MessageClassifier};
use crate::auto_reply::dedup::{lemma_marked_is_duplicate, processed_at, window_nanos, DedupKey, DedupStore};
use crate::auto_reply::default_reply::{opt_view, DefaultReplyStore};
use crate::auto_reply::filter::{filter_hit, FilterRule, FilterType, KeywordFilter};
use crate::auto_reply::keyword::{match_spec, render_spec, KeywordMatcher, KeywordRule};
use crate::text::{concat2, is_blank, opt_string, owned, str_is_empty, trim_seq};

verus! {

/// The decision the coordinator acts on (send, notify, log).
#[derive(Debug, Clone, PartialEq, Eq)]
pub enum AutoReplyDecision {
    /// No reply (system or own message, duplicate, filtered, nothing matched).
    Skip { reason: String },
    /// A keyword rule hit.
    Keyword(String),
    /// Generated by the AI engine.
    Ai(String),
    /// The default reply.
    Default(String),
    /// An AI suggestion for a human to send.
    Suggestion(String),
}

/// Pipeline output: the decision and whether to notify.
#[derive(Debug, Clone)]
pub struct AutoReplyOutcome {
    pub decision: AutoReplyDecision,
    /// Whether a notification should be sent (no skip-notify filter hit).
    pub should_notify: bool,
}

/// The value of a decision.
pub ghost enum DecisionView {
    Skip(Seq<char>),
    Keyword(Seq<char>),
    Ai(Seq<char>),
    Default(Seq<char>),
    Suggestion(Seq<char>),
}

/// The value of an outcome.
pub ghost struct OutcomeView {
    pub decision: DecisionView,
    pub should_notify: bool,
}

impl AutoReplyDecision {
    pub open spec fn view(&self) -> DecisionView {
        match self {
            AutoReplyDecision::Skip { reason } => DecisionView::Skip(reason@),
            AutoReplyDecision::Keyword(s) => DecisionView::Keyword(s@),
            AutoReplyDecision::Ai(s) => DecisionView::Ai(s@),
            AutoReplyDecision::Default(s) => DecisionView::Default(s@),
            AutoReplyDecision::Suggestion(s) => DecisionView::Suggestion(s@),
        }
    }
}

impl AutoReplyOutcome {
    pub open spec fn view(&self) -> OutcomeView {
        OutcomeView { decision: self.decision.view(), should_notify: self.should_notify }
    }
}

/// An inbound chat message and its context.
#[derive(Debug, Clone, Copy)]
pub struct ChatInput<'a> {
    pub account_id: &'a str,
    pub chat_id: &'a str,
    pub user_id: &'a str,
    pub item_id: Option<&'a str>,
    pub message: &'a str,
    /// Sent by the seller themself (pauses auto-reply for the chat).
    pub sender_is_self: bool,
    /// Manual takeover / pause decided by the caller.
    pub pause_active: bool,
    /// AI replies are configured and item knowledge is present.
    pub ai_available: bool,
}

/// The value of an input.
pub ghost struct ChatInputView {
    pub account_id: Seq<char>,
    pub chat_id: Seq<char>,
    pub user_id: Seq<char>,
    pub item_id: Option<Seq<char>>,
    pub message: Seq<char>,
    pub sender_is_self: bool,
    pub pause_active: bool,
    pub ai_available: bool,
}

impl<'a> ChatInput<'a> {
    pub open spec fn view(&self) -> ChatInputView {
        ChatInputView {
            account_id: self.account_id@,
            chat_id: self.chat_id@,
            user_id: self.user_id@,
            item_id: opt_view(self.item_id),
            message: self.message@,
            sender_is_self: self.sender_is_self,
            pause_active: self.pause_active,
            ai_available: self.ai_available,
        }
    }

    #[allow(clippy::too_many_arguments)]
    pub fn new(
        account_id: &'a str,
        chat_id: &'a str,
        user_id: &'a str,
        item_id: Option<&'a str>,
        message: &'a str,
        sender_is_self: bool,
        pause_active: bool,
        ai_available: bool,
    ) -> (c: Self)
        ensures
            c.account_id == account_id,
            c.chat_id == chat_id,
            c.user_id == user_id,
            c.item_id == item_id,
            c.message == message,
            c.sender_is_self == sender_is_self,
            c.pause_active == pause_active,
            c.ai_available == ai_available,
    {
        ChatInput {
            account_id,
            chat_id,
            user_id,
            item_id,
            message,
            sender_is_self,
            pause_active,
            ai_available,
        }
    }
}

/// What the AI engine answered.
#[derive(Debug, Clone, PartialEq, Eq)]
pub enum AiReplyOutcome {
    /// A generated reply.
    Generated(String),
    /// The bargain limit was reached; carries the fixed bargain-limit reply.
    BargainLimited(String),
    /// AI replies are disabled.
    Disabled,
    /// Generation failed.
    Failed(String),
}

/// One step of message handling.
#[derive(Debug, Clone)]
pub enum PipelineStep {
    /// Handling is finished.
    Done(AutoReplyOutcome),
    /// The AI engine must be asked; then call `resume_after_ai`.
    NeedAi,
}

/// Value of a step.
pub ghost enum StepView {
    Done(OutcomeView),
    NeedAi,
}

/// Value of an AI answer: the reply text when one was produced.
pub open spec fn ai_reply(ai: AiReplyOutcome) -> Option<Seq<char>> {
    match ai {
        AiReplyOutcome::Generated(s) => Some(s@),
        AiReplyOutcome::BargainLimited(s) => Some(s@),
        _ => None,
    }
}

impl PipelineStep {
    pub open spec fn view(&self) -> StepView {
        match self {
            PipelineStep::Done(o) => StepView::Done(o.view()),
            PipelineStep::NeedAi => StepView::NeedAi,
        }
    }
}

/// The label of a message class used in skip reasons.
pub open spec fn class_label_seq(c: MessageClass) -> Seq<char> {
    match c {
        MessageClass::Chat => "chat"@,
        MessageClass::System => "system_message"@,
        MessageClass::AutoDeliveryTrigger => "auto_delivery_trigger"@,
        MessageClass::RateRequest => "rate_request"@,
        MessageClass::ConfirmReceipt => "confirm_receipt"@,
        MessageClass::SelfMessage => "self_message"@,
    }
}

/// The label of a message class.
pub fn class_label(class: MessageClass) -> (s: &'static str)
    ensures
        s@ == class_label_seq(class),
{
    match class {
        MessageClass::Chat => "chat",
        MessageClass::System => "system_message",
        MessageClass::AutoDeliveryTrigger => "auto_delivery_trigger",
        MessageClass::RateRequest => "rate_request",
        MessageClass::ConfirmReceipt => "confirm_receipt",
        MessageClass::SelfMessage => "self_message",
    }
}

/// A skip outcome with the message's notification flag.
pub open spec fn skip_view(filter: Seq<FilterRule>, msg: Seq<char>, reason: Seq<char>) -> OutcomeView {
    OutcomeView {
        decision: DecisionView::Skip(reason),
        should_notify: !filter_hit(filter, msg, FilterType::SkipNotify),
    }
}

/// A reply outcome with the message's notification flag.
pub open spec fn reply_view(filter: Seq<FilterRule>, msg: Seq<char>, d: DecisionView) -> OutcomeView {
    OutcomeView { decision: d, should_notify: !filter_hit(filter, msg, FilterType::SkipNotify) }
}

/// Steps 1–5 (classify, pause, dedup, filter, keyword): the outcome when
/// they settle the message, `None` when handling continues. `duplicate` is
/// the dedup store's answer for `(chat_id, message)`.
pub open spec fn front_spec(
    filter: Seq<FilterRule>,
    keywords: Seq<KeywordRule>,
    input: ChatInputView,
    duplicate: bool,
) -> Option<OutcomeView> {
    let msg = input.message;
    let class = classify_spec(msg, input.sender_is_self);
    if class != MessageClass::Chat {
        Some(skip_view(filter, msg, "class:"@ + class_label_seq(class)))
    } else if input.pause_active {
        Some(skip_view(filter, msg, "chat_paused"@))
    } else if duplicate {
        Some(skip_view(filter, msg, "duplicate_message"@))
    } else if filter_hit(filter, msg, FilterType::SkipReply) {
        Some(skip_view(filter, msg, "skip_reply_filter"@))
    } else {
        match match_spec(keywords, msg, input.item_id) {
            Some(m) => {
                let reply = render_spec(
                    m.1,
                    m.0,
                    Seq::empty(),
                    input.user_id,
                    msg,
                    match input.item_id {
                        Some(i) => i,
                        None => Seq::empty(),
                    },
                );
                if reply.len() == 0 {
                    Some(skip_view(filter, msg, "empty_keyword_reply"@))
                } else {
                    Some(reply_view(filter, msg, DecisionView::Keyword(reply)))
                }
            },
            None => None,
        }
    }
}

/// Steps 6–8 (AI answer, default reply, nothing matched). `default_reply` is
/// the store's default reply `(content, once)`, `replied` its answer whether
/// the user was already answered.
pub open spec fn tail_spec(
    filter: Seq<FilterRule>,
    input: ChatInputView,
    ai: Option<Seq<char>>,
    default_reply: Option<(Seq<char>, bool)>,
    replied: bool,
) -> OutcomeView {
    let msg = input.message;
    match ai {
        Some(r) => reply_view(filter, msg, DecisionView::Ai(r)),
        None => match default_reply {
            Some(d) => if trim_seq(d.0).len() > 0 {
                if d.1 && replied {
                    skip_view(filter, msg, "default_reply_once_used"@)
                } else {
                    reply_view(filter, msg, DecisionView::Default(d.0))
                }
            } else {
                skip_view(filter, msg, "no_rule_matched"@)
            },
            None => skip_view(filter, msg, "no_rule_matched"@),
        },
    }
}

/// The first step of handling: settled by steps 1–5, else `NeedAi` when AI is
/// available, else settled by the default-reply steps.
pub open spec fn step_spec(
    filter: Seq<FilterRule>,
    keywords: Seq<KeywordRule>,
    input: ChatInputView,
    duplicate: bool,
    default_reply: Option<(Seq<char>, bool)>,
    replied: bool,
) -> StepView {
    match front_spec(filter, keywords, input, duplicate) {
        Some(o) => StepView::Done(o),
        None => if input.ai_available {
            StepView::NeedAi
        } else {
            StepView::Done(tail_spec(filter, input, None, default_reply, replied))
        },
    }
}

/// The dedup key of an input: its chat and message.
pub open spec fn dedup_key_of(input: ChatInputView) -> (Seq<char>, Seq<char>) {
    (input.chat_id, input.message)
}

/// The outcome answers the message (keyword, AI or default reply).
pub open spec fn answered(o: OutcomeView) -> bool {
    o.decision is Keyword || o.decision is Ai || o.decision is Default
}

/// The step settles the message with an answer.
pub open spec fn step_answered(step: StepView) -> bool {
    step matches StepView::Done(o) && answered(o)
}

/// The dedup marks after handling: the message's key is added when it was
/// answered, the marks are unchanged otherwise.
pub open spec fn marks_after(
    before: Set<(Seq<char>, Seq<char>)>,
    input: ChatInputView,
    was_answered: bool,
) -> Set<(Seq<char>, Seq<char>)> {
    if was_answered {
        before.insert(dedup_key_of(input))
    } else {
        before
    }
}

/// The message is plain chat of an unpaused chat (the dedup store is asked).
pub open spec fn chat_reached(input: ChatInputView) -> bool {
    classify_spec(input.message, input.sender_is_self) == MessageClass::Chat && !input.pause_active
}

/// The dedup answer the steps go by: the store's answer, asked only for a
/// chat message of an unpaused chat.
pub open spec fn dedup_answer(asked: bool, answer: bool) -> bool {
    asked && answer
}

/// The `(account, user, item)` of an input, as the default-reply store
/// records answered users.
pub open spec fn user_key_of(input: ChatInputView) -> (Seq<char>, Seq<char>, Option<Seq<char>>) {
    (input.account_id, input.user_id, input.item_id)
}

/// The answered-user record after an outcome: a default reply configured as
/// once-only records the user (and keeps every earlier record); any other
/// outcome leaves the record unchanged.
pub open spec fn replied_mark_after(
    before: Set<(Seq<char>, Seq<char>, Option<Seq<char>>)>,
    after: Set<(Seq<char>, Seq<char>, Option<Seq<char>>)>,
    input: ChatInputView,
    o: OutcomeView,
    configured: Option<(Seq<char>, bool)>,
) -> bool {
    if o.decision is Default && (configured matches Some(c) && c.1) {
        after.contains(user_key_of(input)) && before.subset_of(after)
    } else {
        after == before
    }
}

/// The view of an optional `(content, once)` answer.
pub open spec fn reply_answer(d: Option<(String, bool)>) -> Option<(Seq<char>, bool)> {
    match d {
        Some(x) => Some((x.0@, x.1)),
        None => None,
    }
}

/// Pipeline dependencies, assembled by the caller.
pub struct AutoReplyPipeline {
    pub filter: KeywordFilter,
    pub dedup: Box<dyn DedupStore>,
    pub keywords: KeywordMatcher,
    pub default_reply: Box<dyn DefaultReplyStore>,
}

/// Whether the decision answers the message (keyword, AI or default reply).
fn is_answer(d: &AutoReplyDecision) -> (b: bool)
    ensures
        b == (d@ is Keyword || d@ is Ai || d@ is Default),
{
    match d {
        AutoReplyDecision::Keyword(_) => true,
        AutoReplyDecision::Ai(_) => true,
        AutoReplyDecision::Default(_) => true,
        _ => false,
    }
}

/// Whether the decision is a default reply.
fn is_default(d: &AutoReplyDecision) -> (b: bool)
    ensures
        b == d@ is Default,
{
    match d {
        AutoReplyDecision::Default(_) => true,
        _ => false,
    }
}

impl AutoReplyPipeline {
    /// A pipeline over the given filter, stores and keyword rules.
    pub fn new(
        filter: KeywordFilter,
        dedup: Box<dyn DedupStore>,
        keywords: Vec<KeywordRule>,
        default_reply: Box<dyn DefaultReplyStore>,
    ) -> (p: Self)
        ensures
            p.filter == filter,
            p.keywords.rules() == keywords@,
    {
        AutoReplyPipeline {
            filter,
            dedup,
            keywords: KeywordMatcher::new(keywords),
            default_reply,
        }
    }

    /// A skip outcome that still notifies unless a skip-notify filter hits.
    pub fn notify_only(&self, message: &str, reason: String) -> (o: AutoReplyOutcome)
        ensures
            o@ == skip_view(self.filter.rules(), message@, reason@),
    {
        AutoReplyOutcome {
            decision: AutoReplyDecision::Skip { reason },
            should_notify: !self.filter.skip_notify(message),
        }
    }

    fn reply(&self, message: &str, decision: AutoReplyDecision) -> (o: AutoReplyOutcome)
        ensures
            o@ == reply_view(self.filter.rules(), message@, decision@),
    {
        AutoReplyOutcome { decision, should_notify: !self.filter.skip_notify(message) }
    }

    /// Steps 1–5 on the dedup store's answer `duplicate`; `None` when
    /// handling continues.
    fn front_decision(&self, input: &ChatInput, duplicate: bool) -> (r: Option<AutoReplyOutcome>)
        ensures
            match r {
                Some(o) => front_spec(self.filter.rules(), self.keywords.rules(), input@, duplicate) == Some(o@),
                None => front_spec(self.filter.rules(), self.keywords.rules(), input@, duplicate) is None,
            },
    {
        let message = input.message;
        // 1. Classification: anything but a chat message skips the reply.
        let class = MessageClassifier::classify(message, input.sender_is_self);
        if class != MessageClass::Chat {
            let reason = concat2("class:", class_label(class));
            return Some(self.notify_only(message, reason));
        }
        // 2. Pause.
        if input.pause_active {
            return Some(self.notify_only(message, owned("chat_paused")));
        }
        // 3. Dedup.
        if duplicate {
            return Some(self.notify_only(message, owned("duplicate_message")));
        }
        // 4. Filter.
        if self.filter.skip_reply(message) {
            return Some(self.notify_only(message, owned("skip_reply_filter")));
        }
        // 5. Keyword rules.
        match self.keywords.match_message(message, input.item_id) {
            Some(matched) => {
                let item = match input.item_id {
                    Some(i) => i,
                    None => "",
                };
                proof {
                    reveal_strlit("");
                }
                let reply = KeywordMatcher::render_reply(&matched, "", input.user_id, message, item);
                assert(""@ =~= Seq::<char>::empty());
                assert(item@ == match input@.item_id {
                    Some(i) => i,
                    None => Seq::<char>::empty(),
                });
                assert(match_spec(self.keywords.rules(), message@, input@.item_id) == Some(
                    (matched.rule, matched.matched_keyword@),
                ));
                if str_is_empty(reply.as_str()) {
                    return Some(self.notify_only(message, owned("empty_keyword_reply")));
                }
                Some(self.reply(message, AutoReplyDecision::Keyword(reply)))
            },
            None => None,
        }
    }

    /// Steps 6–8 on the AI's reply and the default-reply store's answers.
    fn tail_decision(
        &self,
        input: &ChatInput,
        ai: Option<String>,
        default_reply: Option<(String, bool)>,
        replied: bool,
    ) -> (o: AutoReplyOutcome)
        ensures
            o@ == tail_spec(self.filter.rules(), input@, opt_string(ai), reply_answer(default_reply), replied),
    {
        let message = input.message;
        match ai {
            Some(reply) => self.reply(message, AutoReplyDecision::Ai(reply)),
            None => match default_reply {
                Some((reply, once)) => {
                    if is_blank(reply.as_str()) {
                        self.notify_only(message, owned("no_rule_matched"))
                    } else if once && replied {
                        self.notify_only(message, owned("default_reply_once_used"))
                    } else {
                        self.reply(message, AutoReplyDecision::Default(reply))
                    }
                },
                None => self.notify_only(message, owned("no_rule_matched")),
            },
        }
    }

    /// The step for a message given the stores' answers: whether its key is
    /// a duplicate, the configured default reply `(content, once)` and
    /// whether the user was already answered (see [`step_spec`]).
    pub fn decide(
        &self,
        input: &ChatInput,
        duplicate: bool,
        default_reply: Option<(String, bool)>,
        replied: bool,
    ) -> (step: PipelineStep)
        ensures
            step@ == step_spec(
                self.filter.rules(),
                self.keywords.rules(),
                input@,
                duplicate,
                reply_answer(default_reply),
                replied,
            ),
    {
        match self.front_decision(input, duplicate) {
            Some(o) => PipelineStep::Done(o),
            None => if input.ai_available {
                PipelineStep::NeedAi
            } else {
                PipelineStep::Done(self.tail_decision(input, None, default_reply, replied))
            },
        }
    }

    /// Asks the default-reply store (whether the user was already answered
    /// only for a once-only reply), settles steps 7–8 and records the marks:
    /// an answer marks the message's key, a once-only default reply the user.
    fn default_step(&mut self, input: &ChatInput) -> (o: AutoReplyOutcome)
        ensures
            final(self).filter == old(self).filter,
            final(self).keywords == old(self).keywords,
            o@ == tail_spec(
                old(self).filter.rules(),
                input@,
                None,
                old(self).default_reply.configured(input@.account_id, input@.item_id),
                old(self).default_reply.answered_users().contains(user_key_of(input@)),
            ),
            final(self).dedup.marked() == marks_after(old(self).dedup.marked(), input@, answered(o@)),
            replied_mark_after(
                old(self).default_reply.answered_users(),
                final(self).default_reply.answered_users(),
                input@,
                o@,
                old(self).default_reply.configured(input@.account_id, input@.item_id),
            ),
    {
        let answer = self.default_reply.default_reply(input.account_id, input.item_id);
        let once = match &answer {
            Some((_, once)) => *once,
            None => false,
        };
        let ghost all_replied = self.default_reply.answered_users().contains(user_key_of(input@));
        let replied = if once {
            self.default_reply.has_replied(input.account_id, input.user_id, input.item_id)
        } else {
            false
        };
        let o = self.tail_decision(input, None, answer, replied);
        assert(o@ == tail_spec(
            self.filter.rules(),
            input@,
            None,
            old(self).default_reply.configured(input@.account_id, input@.item_id),
            all_replied,
        ));
        if once && is_default(&o.decision) {
            self.default_reply.mark_replied(input.account_id, input.user_id, input.item_id);
        }
        if is_answer(&o.decision) {
            let key = DedupKey::new(input.chat_id, input.message);
            self.dedup.mark_processed(&key);
        }
        o
    }

    /// Handles an inbound chat message up to the AI step: the dedup store is
    /// asked (for a chat message of an unpaused chat), then the default-reply
    /// store when neither a keyword nor the AI applies; the step is
    /// [`step_spec`] on those answers. An answer marks the message's key, a
    /// once-only default reply the user.
    pub fn handle_message(&mut self, input: &ChatInput) -> (step: PipelineStep)
        ensures
            final(self).filter == old(self).filter,
            final(self).keywords == old(self).keywords,
            exists|now: u128|
                #![trigger old(self).dedup.duplicate_at(dedup_key_of(input@), now)]
                step@ == step_spec(
                    old(self).filter.rules(),
                    old(self).keywords.rules(),
                    input@,
                    dedup_answer(chat_reached(input@), old(self).dedup.duplicate_at(dedup_key_of(input@), now)),
                    old(self).default_reply.configured(input@.account_id, input@.item_id),
                    old(self).default_reply.answered_users().contains(user_key_of(input@)),
                ) && (old(self).dedup.duplicate_at(dedup_key_of(input@), now) ==> old(self).dedup.marked().contains(
                    dedup_key_of(input@),
                ) || !chat_reached(input@)),
            final(self).dedup.marked() == marks_after(old(self).dedup.marked(), input@, step_answered(step@)),
            match step@ {
                StepView::Done(o) => replied_mark_after(
                    old(self).default_reply.answered_users(),
                    final(self).default_reply.answered_users(),
                    input@,
                    o,
                    old(self).default_reply.configured(input@.account_id, input@.item_id),
                ),
                StepView::NeedAi => final(self).default_reply.answered_users() == old(self).default_reply.answered_users(),
            },
    {
        let class = MessageClassifier::classify(input.message, input.sender_is_self);
        let key = DedupKey::new(input.chat_id, input.message);
        let duplicate = if class == MessageClass::Chat && !input.pause_active {
            self.dedup.is_processed(&key)
        } else {
            false
        };
        let ghost now = if class == MessageClass::Chat && !input.pause_active {
            choose|now: u128| duplicate == old(self).dedup.duplicate_at(dedup_key_of(input@), now)
        } else {
            0u128
        };
        assert(duplicate == (chat_reached(input@) && old(self).dedup.duplicate_at(dedup_key_of(input@), now)));
        assert(old(self).dedup.duplicate_at(dedup_key_of(input@), now) ==> old(self).dedup.marked().contains(
            dedup_key_of(input@),
        ) || !chat_reached(input@));
        let ghost configured = old(self).default_reply.configured(input@.account_id, input@.item_id);
        let ghost replied = old(self).default_reply.answered_users().contains(user_key_of(input@));
        let step = match self.front_decision(input, duplicate) {
            Some(o) => {
                if is_answer(&o.decision) {
                    self.dedup.mark_processed(&key);
                }
                PipelineStep::Done(o)
            },
            None => {
                if input.ai_available {
                    PipelineStep::NeedAi
                } else {
                    PipelineStep::Done(self.default_step(input))
                }
            },
        };
        assert(step@ == step_spec(
            old(self).filter.rules(),
            old(self).keywords.rules(),
            input@,
            dedup_answer(chat_reached(input@), old(self).dedup.duplicate_at(dedup_key_of(input@), now)),
            configured,
            replied,
        ));
        assert(exists|n: u128|
            #![trigger old(self).dedup.duplicate_at(dedup_key_of(input@), n)]
            step@ == step_spec(
                old(self).filter.rules(),
                old(self).keywords.rules(),
                input@,
                dedup_answer(chat_reached(input@), old(self).dedup.duplicate_at(dedup_key_of(input@), n)),
                configured,
                replied,
            ) && (old(self).dedup.duplicate_at(dedup_key_of(input@), n) ==> old(self).dedup.marked().contains(
                dedup_key_of(input@),
            ) || !chat_reached(input@)));
        step
    }

    /// Finishes handling after the AI engine answered (steps 6–8): a produced
    /// reply is sent as an AI reply and marks the message's key, otherwise
    /// the default-reply steps decide as in `handle_message`.
    pub fn resume_after_ai(&mut self, input: &ChatInput, ai: AiReplyOutcome) -> (o: AutoReplyOutcome)
        ensures
            final(self).filter == old(self).filter,
            final(self).keywords == old(self).keywords,
            o@ == tail_spec(
                old(self).filter.rules(),
                input@,
                ai_reply(ai),
                old(self).default_reply.configured(input@.account_id, input@.item_id),
                old(self).default_reply.answered_users().contains(user_key_of(input@)),
            ),
            ai matches AiReplyOutcome::Generated(text) ==> o@.decision == DecisionView::Ai(text@),
            ai matches AiReplyOutcome::BargainLimited(text) ==> o@.decision == DecisionView::Ai(text@),
            final(self).dedup.marked() == marks_after(old(self).dedup.marked(), input@, answered(o@)),
            replied_mark_after(
                old(self).default_reply.answered_users(),
                final(self).default_reply.answered_users(),
                input@,
                o@,
                old(self).default_reply.configured(input@.account_id, input@.item_id),
            ),
    {
        let reply = match ai {
            AiReplyOutcome::Generated(reply) => Some(reply),
            AiReplyOutcome::BargainLimited(reply) => Some(reply),
            _ => None,
        };
        match reply {
            Some(r) => {
                let o = self.tail_decision(input, Some(r), None, false);
                let key = DedupKey::new(input.chat_id, input.message);
                self.dedup.mark_processed(&key);
                o
            },
            None => self.default_step(input),
        }
    }
}


/// An AI answer that carries a text (a generated reply or the bargain-limit
/// reply) is sent as the AI decision with exactly that text, whatever the
/// default-reply store answers; only a disabled or failed AI falls back to
/// the default-reply steps.
pub proof fn lemma_ai_text_is_sent(
    filter: Seq<FilterRule>,
    input: ChatInputView,
    ai: AiReplyOutcome,
    default_reply: Option<(Seq<char>, bool)>,
    replied: bool,
)
    ensures
        ai matches AiReplyOutcome::Generated(t) ==> tail_spec(filter, input, ai_reply(ai), default_reply, replied).decision
            == DecisionView::Ai(t@),
        ai matches AiReplyOutcome::BargainLimited(t) ==> tail_spec(filter, input, ai_reply(ai), default_reply, replied).decision
            == DecisionView::Ai(t@),
        (ai is Disabled || ai is Failed) ==> tail_spec(filter, input, ai_reply(ai), default_reply, replied) == tail_spec(
            filter,
            input,
            None,
            default_reply,
            replied,
        ),
{
}

/// Whether a notification is sent depends only on the skip-notify filter:
/// whatever the stores answer, a settled message is notified exactly when no
/// skip-notify keyword occurs in it.
pub proof fn lemma_notify_only_by_filter(
    filter: Seq<FilterRule>,
    keywords: Seq<KeywordRule>,
    input: ChatInputView,
    duplicate: bool,
    default_reply: Option<(Seq<char>, bool)>,
    replied: bool,
)
    ensures
        step_spec(filter, keywords, input, duplicate, default_reply, replied) matches StepView::Done(o)
            ==> o.should_notify == !filter_hit(filter, input.message, FilterType::SkipNotify),
{
}

/// A message that is not plain chat is skipped with its class as the reason,
/// whatever the stores answer and whether an AI is available.
pub proof fn lemma_non_chat_skipped(
    filter: Seq<FilterRule>,
    keywords: Seq<KeywordRule>,
    input: ChatInputView,
    duplicate: bool,
    default_reply: Option<(Seq<char>, bool)>,
    replied: bool,
)
    requires
        classify_spec(input.message, input.sender_is_self) != MessageClass::Chat,
    ensures
        step_spec(filter, keywords, input, duplicate, default_reply, replied) == StepView::Done(
            skip_view(filter, input.message, "class:"@ + class_label_seq(classify_spec(input.message, input.sender_is_self))),
        ),
{
}

/// A chat message of a paused chat is skipped, whatever the stores answer.
pub proof fn lemma_paused_chat_skipped(
    filter: Seq<FilterRule>,
    keywords: Seq<KeywordRule>,
    input: ChatInputView,
    duplicate: bool,
    default_reply: Option<(Seq<char>, bool)>,
    replied: bool,
)
    requires
        classify_spec(input.message, input.sender_is_self) == MessageClass::Chat,
        input.pause_active,
    ensures
        step_spec(filter, keywords, input, duplicate, default_reply, replied) == StepView::Done(
            skip_view(filter, input.message, "chat_paused"@),
        ),
{
}

/// A duplicate chat message of an active chat is skipped.
pub proof fn lemma_duplicate_skipped(
    filter: Seq<FilterRule>,
    keywords: Seq<KeywordRule>,
    input: ChatInputView,
    default_reply: Option<(Seq<char>, bool)>,
    replied: bool,
)
    requires
        classify_spec(input.message, input.sender_is_self) == MessageClass::Chat,
        !input.pause_active,
    ensures
        step_spec(filter, keywords, input, true, default_reply, replied) == StepView::Done(
            skip_view(filter, input.message, "duplicate_message"@),
        ),
{
}

/// The dedup law: a message that was answered (or went on to the AI step)
/// has its key marked at clock reading `now`; handled again at `later`,
/// while the mark's window lasts, the same message in the same chat is
/// skipped as a duplicate, whatever the other stores answer.
pub proof fn lemma_answered_message_skipped_again(
    filter: Seq<FilterRule>,
    keywords: Seq<KeywordRule>,
    input: ChatInputView,
    first_duplicate: bool,
    first_default: Option<(Seq<char>, bool)>,
    first_replied: bool,
    marks: Map<(Seq<char>, Seq<char>), u128>,
    expire_seconds: u64,
    now: u128,
    later: u128,
    default_reply: Option<(Seq<char>, bool)>,
    replied: bool,
)
    requires
        step_answered(step_spec(filter, keywords, input, first_duplicate, first_default, first_replied))
            || step_spec(filter, keywords, input, first_duplicate, first_default, first_replied) is NeedAi,
        now <= later,
        later - now < window_nanos(expire_seconds),
    ensures
        step_spec(
            filter,
            keywords,
            input,
            processed_at(marks.insert(dedup_key_of(input), now), expire_seconds, dedup_key_of(input), later),
            default_reply,
            replied,
        ) == StepView::Done(skip_view(filter, input.message, "duplicate_message"@)),
{
    lemma_marked_is_duplicate(marks, expire_seconds, dedup_key_of(input), now, later);
    lemma_duplicate_skipped(filter, keywords, input, default_reply, replied);
}

/// A new chat message with a skip-reply keyword is never answered, whatever
/// the keyword rules, the AI or the default reply.
pub proof fn lemma_skip_reply_filter_blocks(
    filter: Seq<FilterRule>,
    keywords: Seq<KeywordRule>,
    input: ChatInputView,
    default_reply: Option<(Seq<char>, bool)>,
    replied: bool,
)
    requires
        classify_spec(input.message, input.sender_is_self) == MessageClass::Chat,
        !input.pause_active,
        filter_hit(filter, input.message, FilterType::SkipReply),
    ensures
        step_spec(filter, keywords, input, false, default_reply, replied) == StepView::Done(
            skip_view(filter, input.message, "skip_reply_filter"@),
        ),
{
}

/// A keyword match with a non-empty reply answers the message before the AI
/// is asked and before the default reply.
pub proof fn lemma_keyword_before_ai(
    filter: Seq<FilterRule>,
    keywords: Seq<KeywordRule>,
    input: ChatInputView,
    default_reply: Option<(Seq<char>, bool)>,
    replied: bool,
)
    requires
        classify_spec(input.message, input.sender_is_self) == MessageClass::Chat,
        !input.pause_active,
        !filter_hit(filter, input.message, FilterType::SkipReply),
        match_spec(keywords, input.message, input.item_id) is Some,
    ensures
        ({
            let m = match_spec(keywords, input.message, input.item_id)->0;
            let reply = render_spec(
                m.1,
                m.0,
                Seq::empty(),
                input.user_id,
                input.message,
                match input.item_id {
                    Some(i) => i,
                    None => Seq::empty(),
                },
            );
            reply.len() > 0 ==> step_spec(filter, keywords, input, false, default_reply, replied) == StepView::Done(
                reply_view(filter, input.message, DecisionView::Keyword(reply)),
            )
        }),
{
}

} // verus!
