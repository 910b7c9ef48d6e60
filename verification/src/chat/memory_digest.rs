//! Long-conversation digests: when a session has enough messages, and enough
//! new ones since the last digest, the new messages are summarized into
//! long-term memory. The model call, the embedding and the storage are the
//! application's; the decisions and texts are here.
use vstd::prelude::*;
use crate::json::{json_i64_field, json_int_field};
use crate::text::{
    concat2, concat3, i64_to_decimal, join_seq, join_strings, opt_str, opt_string, signed_decimal_seq, str_is_empty,
    strings_view, trim_seq, trim_str,
};

verus! {

/// Fewest messages in a session before a digest is made.
pub const DIGEST_MIN_MESSAGES: usize = 20;

/// Fewest new messages since the last digest before another one is made.
pub const DIGEST_NEW_MIN: i64 = 8;

/// A stored chat message.
#[derive(Debug, Clone)]
pub struct ChatMessageRecord {
    /// Position in the session.
    pub seq: i64,
    pub role: String,
    pub content: String,
}

/// The bookmark of the last digest in the session's summary state
/// (`{"last_digest_seq": N}`), 0 when absent.
pub open spec fn digest_bookmark(state: Option<Seq<char>>) -> i64 {
    match state {
        Some(t) => match json_int_field(t, "last_digest_seq"@) {
            Some(n) => n,
            None => 0,
        },
        None => 0,
    }
}

/// Reads the bookmark of the last digest (see [`digest_bookmark`]).
pub fn last_digest_seq(state: Option<&str>) -> (r: i64)
    ensures
        r == digest_bookmark(opt_str(state)),
{
    match state {
        Some(t) => match json_i64_field(t, "last_digest_seq") {
            Some(n) => n,
            None => 0,
        },
        None => 0,
    }
}

/// A message as a line of the prompt: `[role] content`.
pub open spec fn message_line(r: ChatMessageRecord) -> Seq<char> {
    "["@ + r.role@ + "] "@ + r.content@
}

/// The lines of the messages after the bookmark, in order.
pub open spec fn recent_lines(records: Seq<ChatMessageRecord>, after: i64) -> Seq<Seq<char>>
    decreases records.len(),
{
    if records.len() == 0 {
        Seq::empty()
    } else {
        let prev = recent_lines(records.drop_last(), after);
        if records.last().seq > after {
            prev.push(message_line(records.last()))
        } else {
            prev
        }
    }
}

/// The instruction put before the conversation.
pub open spec fn digest_instruction() -> Seq<char> {
    "请把下面这段对话提炼成「对话要点摘要」：涵盖出现的客户/公司名、重要事实、数字、偏好与关键结论，用简洁的中文条目列出，不要省略具体数字与名字。\n\n对话：\n"@
}

/// The prompt: the instruction, then the new messages one per line.
pub open spec fn digest_prompt(records: Seq<ChatMessageRecord>, after: i64) -> Seq<char> {
    digest_instruction() + join_seq(recent_lines(records, after), "\n"@)
}

/// The system prompt of the digest request.
pub fn digest_system_prompt() -> (s: &'static str)
    ensures
        s@ == "你是一个信息整理助手，只输出摘要内容本身。"@,
{
    "你是一个信息整理助手，只输出摘要内容本身。"
}

/// A digest to make.
#[derive(Debug, Clone)]
pub struct DigestPlan {
    /// The position of the session's last message (the next bookmark).
    pub last_seq: i64,
    /// The user prompt.
    pub prompt: String,
}

/// Whether a digest is due, and with which prompt: with at least
/// [`DIGEST_MIN_MESSAGES`] messages and at least [`DIGEST_NEW_MIN`] positions
/// past the bookmark.
pub open spec fn digest_plan(records: Seq<ChatMessageRecord>, state: Option<Seq<char>>) -> Option<(i64, Seq<char>)> {
    if records.len() < DIGEST_MIN_MESSAGES {
        None
    } else {
        let last = records.last().seq;
        let mark = digest_bookmark(state);
        if last - mark < DIGEST_NEW_MIN {
            None
        } else {
            Some((last, digest_prompt(records, mark)))
        }
    }
}

/// The lines of the messages after the bookmark.
fn collect_recent(records: &[ChatMessageRecord], after: i64) -> (r: Vec<String>)
    ensures
        strings_view(r@) == recent_lines(records@, after),
{
    let mut out: Vec<String> = Vec::new();
    let mut k: usize = 0;
    while k < records.len()
        invariant
            k <= records@.len(),
            strings_view(out@) == recent_lines(records@.take(k as int), after),
        decreases records.len() - k,
    {
        proof {
            assert(records@.take(k as int + 1).drop_last() =~= records@.take(k as int));
        }
        if records[k].seq > after {
            let head = concat3("[", records[k].role.as_str(), "] ");
            let line = concat2(head.as_str(), records[k].content.as_str());
            let ghost before = out@;
            out.push(line);
            assert(strings_view(out@) =~= strings_view(before).push(message_line(records@[k as int])));
        }
        k = k + 1;
    }
    assert(records@.take(records.len() as int) =~= records@);
    out
}

/// Decides whether to digest the session (see [`digest_plan`]), given its
/// messages and its summary state.
pub fn plan_digest(records: &[ChatMessageRecord], summary_state: Option<&str>) -> (r: Option<DigestPlan>)
    ensures
        match digest_plan(records@, opt_str(summary_state)) {
            Some((last, prompt)) => r matches Some(p) && p.last_seq == last && p.prompt@ == prompt,
            None => r is None,
        },
{
    if records.len() < DIGEST_MIN_MESSAGES {
        return None;
    }
    let last_seq = records[records.len() - 1].seq;
    let mark = last_digest_seq(summary_state);
    if (last_seq as i128) - (mark as i128) < (DIGEST_NEW_MIN as i128) {
        return None;
    }
    let lines = collect_recent(records, mark);
    let recent = join_strings(&lines, "\n");
    let prompt = concat2(
        "请把下面这段对话提炼成「对话要点摘要」：涵盖出现的客户/公司名、重要事实、数字、偏好与关键结论，用简洁的中文条目列出，不要省略具体数字与名字。\n\n对话：\n",
        recent.as_str(),
    );
    Some(DigestPlan { last_seq, prompt })
}

/// The digest kept from the model's reply: trimmed, `None` when empty.
pub fn digest_text(reply: &str) -> (r: Option<String>)
    ensures
        match r {
            Some(s) => s@ == trim_seq(reply@) && s@.len() > 0,
            None => trim_seq(reply@).len() == 0,
        },
{
    let t = trim_str(reply);
    if str_is_empty(t.as_str()) {
        None
    } else {
        Some(t)
    }
}

/// The summary state recording the new bookmark, as compact JSON.
pub fn summary_state_json(last_seq: i64) -> (r: String)
    ensures
        r@ == "{\"last_digest_seq\":"@ + signed_decimal_seq(last_seq as int) + "}"@,
{
    concat3("{\"last_digest_seq\":", i64_to_decimal(last_seq).as_str(), "}")
}

} // verus!
