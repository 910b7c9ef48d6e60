//! Persistence of IMAP inbound mail from known senders: a message is kept
//! when the account has mailed its sender before or the sender is a customer.
use vstd::prelude::*;
use crate::text::owned;

verus! {

/// Most messages fetched per sync (the most recent UIDs when the backlog is large).
pub const IMAP_SYNC_MAX_FETCH: usize = 50;

/// The sync cursor after a pass: the highest UID fetched when it is beyond
/// the last one, else the last one.
pub fn next_imap_sync_cursor(last_uid: i64, fetched_max_uid: u32) -> (r: i64)
    ensures
        r == if fetched_max_uid as int > last_uid { fetched_max_uid as int } else { last_uid as int },
{
    let fetched = fetched_max_uid as i64;
    if fetched > last_uid {
        fetched
    } else {
        last_uid
    }
}

/// Counts of one persist pass.
#[derive(Debug, Clone, Copy)]
pub struct PersistImapInboundSummary {
    /// Rows inserted into the local inbox.
    pub inserted: usize,
    /// Messages skipped because the sender is neither a prior recipient nor a customer.
    pub skipped_unmatched: usize,
}

impl Default for PersistImapInboundSummary {
    fn default() -> (s: Self)
        ensures
            s.inserted == 0 && s.skipped_unmatched == 0,
    {
        PersistImapInboundSummary { inserted: 0, skipped_unmatched: 0 }
    }
}

/// A message fetched over IMAP.
#[derive(Debug, Clone)]
pub struct ImapFetchedMessage {
    pub uid: u32,
    pub from_address: String,
    pub from_name: Option<String>,
    pub to_raw: Option<String>,
    pub cc_raw: Option<String>,
    pub subject: String,
    pub body_text: String,
    pub body_html: Option<String>,
    pub received_at: String,
    pub rfc_message_id: Option<String>,
    pub in_reply_to: Option<String>,
    pub references: Option<String>,
    pub is_seen: bool,
    pub raw_headers: String,
}

/// A row to insert into the local inbox.
#[derive(Debug, Clone)]
pub struct MailImapInboundWriteInput {
    pub account_id: String,
    pub customer_id: Option<String>,
    pub from_address: String,
    pub from_name: Option<String>,
    pub subject: String,
    pub body_text: String,
    pub body_html: Option<String>,
    pub received_at: String,
    pub imap_uid: i64,
    pub imap_folder: String,
    pub rfc_message_id: Option<String>,
    pub in_reply_to: Option<String>,
    pub references: Option<String>,
    pub is_seen: bool,
}

/// A stored inbox row.
#[derive(Debug, Clone)]
pub struct MailInboundRecord {
    pub id: String,
}

/// A customer found by e-mail address.
#[derive(Debug, Clone)]
pub struct CustomerRecord {
    pub id: String,
}

/// Mail storage used by the pass, implemented by the application.
pub trait MailStore {
    /// `r` is an answer this store gives to whether the account has sent mail
    /// to the address. A store may say what its answers are; one that does
    /// not leaves them unconstrained.
    closed spec fn outbound_answer(&self, account: Seq<char>, address: Seq<char>, r: Result<bool, String>) -> bool {
        true
    }

    /// Whether the account has sent mail to the address.
    fn has_outbound_to_address(&self, account_id: &str, address: &str) -> (r: Result<bool, String>)
        ensures
            self.outbound_answer(account_id@, address@, r);

    /// `r` is an answer this store gives when told to insert the row `input`
    /// unless it is stored (unconstrained unless the store says otherwise).
    closed spec fn insert_answer(&self, input: MailImapInboundWriteInput, r: Result<Option<MailInboundRecord>, String>) -> bool {
        true
    }

    /// Inserts the row unless its message id or UID is already stored;
    /// returns the new row, or `None` for a duplicate.
    fn insert_imap_inbound_if_new(&self, input: MailImapInboundWriteInput) -> (r: Result<Option<MailInboundRecord>, String>)
        ensures
            self.insert_answer(input, r);
}

/// Customer lookup used by the pass, implemented by the application.
pub trait CustomerStore {
    /// `r` is an answer this store gives to which customer has the address
    /// (unconstrained unless the store says otherwise).
    closed spec fn customer_answer(&self, email: Seq<char>, r: Result<Option<CustomerRecord>, String>) -> bool {
        true
    }

    /// The customer with the e-mail address.
    fn find_by_email(&self, email: &str) -> (r: Result<Option<CustomerRecord>, String>)
        ensures
            self.customer_answer(email@, r);
}


/// Why an inbound sender is kept.
#[derive(Debug, Clone, Copy, PartialEq, Eq, Structural)]
pub enum InboundMatchReason {
    /// The account has mailed the sender before.
    PriorOutboundRecipient,
    /// The sender is a customer.
    Customer,
}

/// The verdict on a sender given the outbound lookup and, when that one says
/// no, the customer lookup: a failed lookup is returned, a prior recipient
/// comes first, then a customer.
pub open spec fn inbound_match(
    outbound: Result<bool, String>,
    customer: Result<Option<CustomerRecord>, String>,
    r: Result<Option<InboundMatchReason>, String>,
) -> bool {
    match outbound {
        Err(e) => r == Err::<Option<InboundMatchReason>, String>(e),
        Ok(true) => r == Ok::<Option<InboundMatchReason>, String>(Some(InboundMatchReason::PriorOutboundRecipient)),
        Ok(false) => match customer {
            Err(e) => r == Err::<Option<InboundMatchReason>, String>(e),
            Ok(Some(_)) => r == Ok::<Option<InboundMatchReason>, String>(Some(InboundMatchReason::Customer)),
            Ok(None) => r == Ok::<Option<InboundMatchReason>, String>(None),
        },
    }
}

/// A sender the account has mailed is kept as a prior recipient, and one it
/// has not mailed is kept exactly when the customer lookup finds it: for a
/// mail store whose only answer for the account and sender is `Ok(mailed)`
/// and a customer store whose only answer is `Ok(found)`, every verdict that
/// [`evaluate_inbound_match`] may give is determined by them.
pub proof fn lemma_inbound_verdict_follows_stores(
    mail_store: &dyn MailStore,
    customer_store: &dyn CustomerStore,
    account_id: Seq<char>,
    from_address: Seq<char>,
    mailed: bool,
    found: Option<CustomerRecord>,
    outbound: Result<bool, String>,
    customer: Result<Option<CustomerRecord>, String>,
    r: Result<Option<InboundMatchReason>, String>,
)
    requires
        forall|a: Result<bool, String>| #[trigger]
            mail_store.outbound_answer(account_id, from_address, a) ==> a == Ok::<bool, String>(mailed),
        forall|a: Result<Option<CustomerRecord>, String>| #[trigger]
            customer_store.customer_answer(from_address, a) ==> a == Ok::<Option<CustomerRecord>, String>(found),
        mail_store.outbound_answer(account_id, from_address, outbound),
        outbound == Ok::<bool, String>(false) ==> customer_store.customer_answer(from_address, customer),
        inbound_match(outbound, customer, r),
    ensures
        mailed ==> r == Ok::<Option<InboundMatchReason>, String>(Some(InboundMatchReason::PriorOutboundRecipient)),
        !mailed && found is Some ==> r == Ok::<Option<InboundMatchReason>, String>(Some(InboundMatchReason::Customer)),
        !mailed && found is None ==> r == Ok::<Option<InboundMatchReason>, String>(None),
{
    assert(mail_store.outbound_answer(account_id, from_address, outbound));
    if !mailed {
        assert(customer_store.customer_answer(from_address, customer));
    }
}

/// The verdict on a sender from the two lookups' answers (see
/// [`inbound_match`]); the customer answer counts only when the outbound
/// lookup said no.
pub fn inbound_verdict(
    outbound: &Result<bool, String>,
    customer: &Result<Option<CustomerRecord>, String>,
) -> (r: Result<Option<InboundMatchReason>, String>)
    ensures
        inbound_match(*outbound, *customer, r),
{
    match outbound {
        Err(e) => Err(e.clone()),
        Ok(true) => Ok(Some(InboundMatchReason::PriorOutboundRecipient)),
        Ok(false) => match customer {
            Err(e) => Err(e.clone()),
            Ok(Some(_)) => Ok(Some(InboundMatchReason::Customer)),
            Ok(None) => Ok(None),
        },
    }
}

/// Why the sender is kept, if it is (see [`inbound_match`]).
pub fn evaluate_inbound_match(
    mail_store: &dyn MailStore,
    customer_store: &dyn CustomerStore,
    account_id: &str,
    from_address: &str,
) -> (r: Result<Option<InboundMatchReason>, String>)
    ensures
        exists|outbound: Result<bool, String>, customer: Result<Option<CustomerRecord>, String>|
            mail_store.outbound_answer(account_id@, from_address@, outbound) && (outbound == Ok::<bool, String>(false)
                ==> customer_store.customer_answer(from_address@, customer)) && #[trigger] inbound_match(outbound, customer, r),
{
    let outbound = mail_store.has_outbound_to_address(account_id, from_address);
    let customer = match &outbound {
        Ok(false) => customer_store.find_by_email(from_address),
        _ => Ok(None),
    };
    let r = inbound_verdict(&outbound, &customer);
    assert(mail_store.outbound_answer(account_id@, from_address@, outbound));
    assert(outbound == Ok::<bool, String>(false) ==> customer_store.customer_answer(from_address@, customer));
    assert(inbound_match(outbound, customer, r));
    r
}

/// Whether an inbound sender is kept for the account: a prior recipient of
/// the account's mail or a customer.
pub fn should_persist_inbound(
    mail_store: &dyn MailStore,
    customer_store: &dyn CustomerStore,
    account_id: &str,
    from_address: &str,
) -> (r: Result<bool, String>)
    ensures
        exists|outbound: Result<bool, String>, customer: Result<Option<CustomerRecord>, String>|
            mail_store.outbound_answer(account_id@, from_address@, outbound) && (outbound == Ok::<bool, String>(false)
                ==> customer_store.customer_answer(from_address@, customer)) && #[trigger] persist_verdict(outbound, customer, r),
{
    let outbound = mail_store.has_outbound_to_address(account_id, from_address);
    let customer = match &outbound {
        Ok(false) => customer_store.find_by_email(from_address),
        _ => Ok(None),
    };
    let m = inbound_verdict(&outbound, &customer);
    let r = match m {
        Err(e) => Err(e),
        Ok(reason) => Ok(reason.is_some()),
    };
    assert(persist_verdict(outbound, customer, r));
    r
}

/// The keep verdict of [`inbound_match`].
pub open spec fn persist_verdict(
    outbound: Result<bool, String>,
    customer: Result<Option<CustomerRecord>, String>,
    r: Result<bool, String>,
) -> bool {
    match outbound {
        Err(e) => r == Err::<bool, String>(e),
        Ok(true) => r == Ok::<bool, String>(true),
        Ok(false) => match customer {
            Err(e) => r == Err::<bool, String>(e),
            Ok(found) => r == Ok::<bool, String>(found is Some),
        },
    }
}

/// The inbox row of a message: the account, the customer, the folder, the
/// UID and the message's own fields.
pub open spec fn write_input_of(
    account_id: Seq<char>,
    folder: Seq<char>,
    message: ImapFetchedMessage,
    customer_id: Option<String>,
    w: MailImapInboundWriteInput,
) -> bool {
    &&& w.account_id@ == account_id
    &&& w.customer_id == customer_id
    &&& w.from_address == message.from_address
    &&& w.from_name == message.from_name
    &&& w.subject == message.subject
    &&& w.body_text == message.body_text
    &&& w.body_html == message.body_html
    &&& w.received_at == message.received_at
    &&& w.imap_uid == message.uid as i64
    &&& w.imap_folder@ == folder
    &&& w.rfc_message_id == message.rfc_message_id
    &&& w.in_reply_to == message.in_reply_to
    &&& w.references == message.references
    &&& w.is_seen == message.is_seen
}

/// The inbox row of a message (see [`write_input_of`]).
pub fn inbound_write_input(account_id: &str, folder: &str, message: ImapFetchedMessage, customer_id: Option<String>) -> (w:
    MailImapInboundWriteInput)
    ensures
        write_input_of(account_id@, folder@, message, customer_id, w),
{
    MailImapInboundWriteInput {
        account_id: owned(account_id),
        customer_id,
        from_address: message.from_address,
        from_name: message.from_name,
        subject: message.subject,
        body_text: message.body_text,
        body_html: message.body_html,
        received_at: message.received_at,
        imap_uid: message.uid as i64,
        imap_folder: owned(folder),
        rfc_message_id: message.rfc_message_id,
        in_reply_to: message.in_reply_to,
        references: message.references,
        is_seen: message.is_seen,
    }
}

/// What the persisting pass needs next.
#[derive(Debug)]
pub enum InboundAction {
    /// Insert the row unless it is stored; answer with `on_inserted`.
    Insert(MailImapInboundWriteInput),
    /// Go on with the next message (`on_message_answers`) or `finish`.
    Next,
    /// The pass is over.
    Finish(Result<PersistImapInboundSummary, String>),
}

/// Where the pass is.
#[derive(Debug, Clone, Copy, PartialEq, Eq, Structural)]
pub enum InboundStage {
    /// Ready for a message's lookup answers, or to finish.
    Ready,
    /// Waiting for the insert's answer.
    AwaitInsert,
    /// Over.
    Done,
}

/// The customer id of a customer lookup's answer.
pub open spec fn found_customer_id(customer: Result<Option<CustomerRecord>, String>) -> Option<String> {
    match customer {
        Ok(Some(rec)) => Some(rec.id),
        _ => None,
    }
}

/// The state of one persisting pass over an account's fetched messages: it
/// decides on each message from the stores' answers and counts the outcome.
pub struct InboundPass {
    account_id: String,
    folder: String,
    summary: PersistImapInboundSummary,
    stage: InboundStage,
}

impl InboundPass {
    pub closed spec fn account(&self) -> Seq<char> {
        self.account_id@
    }

    pub closed spec fn folder(&self) -> Seq<char> {
        self.folder@
    }

    /// Rows inserted so far.
    pub closed spec fn inserted(&self) -> nat {
        self.summary.inserted as nat
    }

    /// Messages skipped so far because the sender is unknown.
    pub closed spec fn skipped(&self) -> nat {
        self.summary.skipped_unmatched as nat
    }

    pub closed spec fn stage(&self) -> InboundStage {
        self.stage
    }

    /// A pass for the account and folder, nothing counted yet.
    pub fn new(account_id: &str, folder: &str) -> (p: Self)
        ensures
            p.account() == account_id@,
            p.folder() == folder@,
            p.inserted() == 0,
            p.skipped() == 0,
            p.stage() == InboundStage::Ready,
    {
        InboundPass {
            account_id: owned(account_id),
            folder: owned(folder),
            summary: PersistImapInboundSummary::default(),
            stage: InboundStage::Ready,
        }
    }

    /// Decides on a message from the outbound lookup of its sender and the
    /// customer lookup: a failed lookup ends the pass with its error (the
    /// outbound one first); a sender who is neither a prior recipient nor a
    /// customer is counted as skipped; otherwise the message's row, with the
    /// customer found, is to be inserted.
    pub fn on_message_answers(
        &mut self,
        message: ImapFetchedMessage,
        has_outbound: Result<bool, String>,
        customer: Result<Option<CustomerRecord>, String>,
    ) -> (a: InboundAction)
        requires
            old(self).stage() == InboundStage::Ready,
            old(self).inserted() + old(self).skipped() < usize::MAX,
        ensures
            final(self).account() == old(self).account(),
            final(self).folder() == old(self).folder(),
            final(self).inserted() == old(self).inserted(),
            match (has_outbound, customer) {
                (Err(e), _) => {
                    &&& final(self).stage() == InboundStage::Done
                    &&& final(self).skipped() == old(self).skipped()
                    &&& a matches InboundAction::Finish(Err(m)) && m == e
                },
                (Ok(_), Err(e)) => {
                    &&& final(self).stage() == InboundStage::Done
                    &&& final(self).skipped() == old(self).skipped()
                    &&& a matches InboundAction::Finish(Err(m)) && m == e
                },
                (Ok(prior), Ok(found)) => if prior || found is Some {
                    &&& final(self).stage() == InboundStage::AwaitInsert
                    &&& final(self).skipped() == old(self).skipped()
                    &&& a matches InboundAction::Insert(w) && write_input_of(
                        old(self).account(),
                        old(self).folder(),
                        message,
                        found_customer_id(customer),
                        w,
                    )
                } else {
                    &&& final(self).stage() == InboundStage::Ready
                    &&& final(self).skipped() == old(self).skipped() + 1
                    &&& a is Next
                },
            },
    {
        let found = match has_outbound {
            Err(e) => {
                self.stage = InboundStage::Done;
                return InboundAction::Finish(Err(e));
            },
            Ok(prior) => match customer {
                Err(e) => {
                    self.stage = InboundStage::Done;
                    return InboundAction::Finish(Err(e));
                },
                Ok(found) => (prior, found),
            },
        };
        let (prior, found) = found;
        if !prior && found.is_none() {
            self.summary.skipped_unmatched = self.summary.skipped_unmatched + 1;
            return InboundAction::Next;
        }
        let customer_id = match found {
            Some(record) => Some(record.id),
            None => None,
        };
        self.stage = InboundStage::AwaitInsert;
        InboundAction::Insert(inbound_write_input(self.account_id.as_str(), self.folder.as_str(), message, customer_id))
    }

    /// Counts the insert's answer: a failure ends the pass with its error, a
    /// new row is counted as inserted, a row already stored is not counted.
    pub fn on_inserted(&mut self, inserted: Result<Option<MailInboundRecord>, String>) -> (a: InboundAction)
        requires
            old(self).stage() == InboundStage::AwaitInsert,
            old(self).inserted() + old(self).skipped() < usize::MAX,
        ensures
            final(self).account() == old(self).account(),
            final(self).folder() == old(self).folder(),
            final(self).skipped() == old(self).skipped(),
            match inserted {
                Err(e) => {
                    &&& final(self).stage() == InboundStage::Done
                    &&& final(self).inserted() == old(self).inserted()
                    &&& a matches InboundAction::Finish(Err(m)) && m == e
                },
                Ok(Some(_)) => {
                    &&& final(self).stage() == InboundStage::Ready
                    &&& final(self).inserted() == old(self).inserted() + 1
                    &&& a is Next
                },
                Ok(None) => {
                    &&& final(self).stage() == InboundStage::Ready
                    &&& final(self).inserted() == old(self).inserted()
                    &&& a is Next
                },
            },
    {
        match inserted {
            Err(e) => {
                self.stage = InboundStage::Done;
                InboundAction::Finish(Err(e))
            },
            Ok(Some(_)) => {
                self.summary.inserted = self.summary.inserted + 1;
                self.stage = InboundStage::Ready;
                InboundAction::Next
            },
            Ok(None) => {
                self.stage = InboundStage::Ready;
                InboundAction::Next
            },
        }
    }

    /// Ends the pass with its counts.
    pub fn finish(&mut self) -> (a: InboundAction)
        requires
            old(self).stage() == InboundStage::Ready,
        ensures
            final(self).stage() == InboundStage::Done,
            a matches InboundAction::Finish(Ok(s)) && s.inserted == old(self).inserted() && s.skipped_unmatched
                == old(self).skipped(),
    {
        self.stage = InboundStage::Done;
        InboundAction::Finish(Ok(self.summary))
    }
}

/// The stores' answers about one message: the outbound lookup of its sender,
/// the customer lookup, and the insertion of its row (when it is kept).
pub ghost struct MessageAnswers {
    pub outbound: Result<bool, String>,
    pub customer: Result<Option<CustomerRecord>, String>,
    pub inserted: Result<Option<MailInboundRecord>, String>,
}

/// The message is kept: both lookups answered, and the sender was mailed by
/// the account or is a customer.
pub open spec fn kept(a: MessageAnswers) -> bool {
    a.outbound matches Ok(prior) && a.customer matches Ok(found) && (prior || found is Some)
}

/// The outcome of a pass that got the answers, message by message: the
/// first failed lookup or insertion, else the counts of rows inserted and of
/// messages skipped (a row already stored counts as neither).
pub open spec fn pass_result(answers: Seq<MessageAnswers>) -> Result<(nat, nat), String>
    decreases answers.len(),
{
    if answers.len() == 0 {
        Ok((0nat, 0nat))
    } else {
        match pass_result(answers.drop_last()) {
            Err(e) => Err(e),
            Ok(counts) => {
                let a = answers.last();
                match a.outbound {
                    Err(e) => Err(e),
                    Ok(prior) => match a.customer {
                        Err(e) => Err(e),
                        Ok(found) => if !prior && found is None {
                            Ok((counts.0, counts.1 + 1))
                        } else {
                            match a.inserted {
                                Err(e) => Err(e),
                                Ok(Some(_)) => Ok((counts.0 + 1, counts.1)),
                                Ok(None) => Ok(counts),
                            }
                        },
                    },
                }
            },
        }
    }
}

/// A pass over mail from senders the account has mailed, where every lookup
/// answers and every row is new, inserts every message and skips none.
pub proof fn lemma_prior_recipients_all_inserted(answers: Seq<MessageAnswers>)
    requires
        forall|k: int|
            0 <= k < answers.len() ==> (#[trigger] answers[k]).outbound == Ok::<bool, String>(true)
                && answers[k].customer is Ok && answers[k].inserted matches Ok(Some(_)),
    ensures
        pass_result(answers) == Ok::<(nat, nat), String>((answers.len(), 0nat)),
    decreases answers.len(),
{
    if answers.len() > 0 {
        lemma_prior_recipients_all_inserted(answers.drop_last());
        assert(answers.last() == answers[answers.len() - 1]);
    }
}

/// A pass over mail from senders that are neither prior recipients nor
/// customers skips every message and inserts none.
pub proof fn lemma_unknown_senders_all_skipped(answers: Seq<MessageAnswers>)
    requires
        forall|k: int|
            0 <= k < answers.len() ==> (#[trigger] answers[k]).outbound == Ok::<bool, String>(false)
                && answers[k].customer == Ok::<Option<CustomerRecord>, String>(None),
    ensures
        pass_result(answers) == Ok::<(nat, nat), String>((0nat, answers.len())),
    decreases answers.len(),
{
    if answers.len() > 0 {
        lemma_unknown_senders_all_skipped(answers.drop_last());
        assert(answers.last() == answers[answers.len() - 1]);
    }
}

/// Inserts the messages whose sender is known in order, stopping at the first
/// storage error: for each message the stores are asked whether the account
/// mailed the sender and whether the sender is a customer, and
/// [`InboundPass`] decides and counts. The answers it got, one per message
/// handled, are answers the stores give to those questions (the row
/// inserted is the message's, see [`write_input_of`]); it handles every
/// message unless one fails, and returns [`pass_result`] of them.
pub fn persist_imap_fetched_messages(
    mail_store: &dyn MailStore,
    customer_store: &dyn CustomerStore,
    account_id: &str,
    folder: &str,
    messages: Vec<ImapFetchedMessage>,
) -> (r: Result<PersistImapInboundSummary, String>)
    ensures
        messages@.len() == 0 ==> (r matches Ok(s) && s.inserted == 0 && s.skipped_unmatched == 0),
        r matches Ok(s) ==> s.inserted + s.skipped_unmatched <= messages@.len(),
        exists|answers: Seq<MessageAnswers>|
            {
                &&& answers.len() <= messages@.len()
                &&& answers.len() < messages@.len() ==> #[trigger] pass_result(answers) is Err
                &&& answers.len() > 0 ==> pass_result(answers.drop_last()) is Ok
                &&& forall|k: int|
                    0 <= k < answers.len() ==> {
                        &&& mail_store.outbound_answer(account_id@, messages@[k].from_address@, (#[trigger] answers[k]).outbound)
                        &&& answers[k].outbound is Ok ==> customer_store.customer_answer(
                            messages@[k].from_address@,
                            answers[k].customer,
                        )
                        &&& kept(answers[k]) ==> exists|w: MailImapInboundWriteInput|
                            #![trigger mail_store.insert_answer(w, answers[k].inserted)]
                            write_input_of(account_id@, folder@, messages@[k], found_customer_id(answers[k].customer), w)
                                && mail_store.insert_answer(w, answers[k].inserted)
                    }
                &&& match pass_result(answers) {
                    Err(e) => r == Err::<PersistImapInboundSummary, String>(e),
                    Ok(counts) => r matches Ok(s) && s.inserted == counts.0 && s.skipped_unmatched == counts.1,
                }
            },
{
    let mut pass = InboundPass::new(account_id, folder);
    let n = messages.len();
    let mut rest = messages;
    let mut done: usize = 0;
    let ghost mut answers: Seq<MessageAnswers> = Seq::empty();
    while rest.len() > 0
        invariant
            n == messages@.len(),
            done + rest@.len() == n,
            rest@ == messages@.skip(done as int),
            answers.len() == done,
            pass.stage() == InboundStage::Ready,
            pass.account() == account_id@,
            pass.folder() == folder@,
            pass.inserted() + pass.skipped() <= done,
            pass_result(answers) == Ok::<(nat, nat), String>((pass.inserted(), pass.skipped())),
            forall|k: int|
                0 <= k < answers.len() ==> {
                    &&& mail_store.outbound_answer(account_id@, messages@[k].from_address@, (#[trigger] answers[k]).outbound)
                    &&& answers[k].outbound is Ok ==> customer_store.customer_answer(
                        messages@[k].from_address@,
                        answers[k].customer,
                    )
                    &&& kept(answers[k]) ==> exists|w: MailImapInboundWriteInput|
                        #![trigger mail_store.insert_answer(w, answers[k].inserted)]
                        write_input_of(account_id@, folder@, messages@[k], found_customer_id(answers[k].customer), w)
                            && mail_store.insert_answer(w, answers[k].inserted)
                },
        decreases rest.len(),
    {
        let ghost before = answers;
        assert(rest@[0] == messages@[done as int]);
        let message = rest.remove(0);
        assert(rest@ =~= messages@.skip(done as int + 1));
        let ghost msg = message;
        done = done + 1;
        let outbound = mail_store.has_outbound_to_address(account_id, message.from_address.as_str());
        let customer = match &outbound {
            Err(_) => Ok(None),
            Ok(_) => customer_store.find_by_email(message.from_address.as_str()),
        };
        let ghost o = outbound;
        let ghost c = customer;
        match pass.on_message_answers(message, outbound, customer) {
            InboundAction::Finish(r) => {
                proof {
                    answers = before.push(MessageAnswers { outbound: o, customer: c, inserted: Ok(None) });
                    assert(answers.drop_last() =~= before);
                    assert(answers[done - 1] == MessageAnswers { outbound: o, customer: c, inserted: Ok(None) });
                }
                return r;
            },
            InboundAction::Next => {
                proof {
                    answers = before.push(MessageAnswers { outbound: o, customer: c, inserted: Ok(None) });
                    assert(answers.drop_last() =~= before);
                    assert(answers[done - 1] == MessageAnswers { outbound: o, customer: c, inserted: Ok(None) });
                }
            },
            InboundAction::Insert(row) => {
                let ghost w = row;
                let answer = mail_store.insert_imap_inbound_if_new(row);
                let ghost ins = answer;
                proof {
                    answers = before.push(MessageAnswers { outbound: o, customer: c, inserted: ins });
                    assert(answers.drop_last() =~= before);
                    assert(answers[done - 1] == MessageAnswers { outbound: o, customer: c, inserted: ins });
                    assert(mail_store.insert_answer(w, answers[done - 1].inserted));
                }
                match pass.on_inserted(answer) {
                    InboundAction::Finish(r) => {
                        return r;
                    },
                    _ => {},
                }
            },
        }
    }
    match pass.finish() {
        InboundAction::Finish(r) => r,
        _ => Ok(PersistImapInboundSummary::default()),
    }
}

} // verus!
