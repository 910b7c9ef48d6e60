//! Auto-reply log queries: filtering is the store's, paging is done here.
use vstd::prelude::*;
use crate::OpenDeskResult;

verus! {

/// An auto-reply log entry.
#[derive(Debug, Clone)]
pub struct AutoReplyLogItem {
    pub id: i64,
    pub owner_id: Option<i64>,
    pub owner_username: Option<String>,
    pub account_pk: Option<i64>,
    pub account_id: String,
    pub account_name: Option<String>,
    pub chat_id: String,
    pub item_id: Option<String>,
    pub item_title: Option<String>,
    pub order_no: Option<String>,
    pub source_message_id: Option<String>,
    pub sender_user_id: String,
    pub sender_user_name: Option<String>,
    pub source_message: Option<String>,
    pub source_message_time: Option<String>,
    pub process_status: String,
    pub decision_reason: String,
    pub reply_strategy: String,
    pub reply_mode: String,
    pub matched_keyword: Option<String>,
    pub matched_rule_type: Option<String>,
    pub default_reply_scope: Option<String>,
    pub default_reply_once: bool,
    pub ai_model_name: Option<String>,
    pub ai_provider_name: Option<String>,
    pub reply_text: Option<String>,
    pub reply_image_url: Option<String>,
    pub error_message: Option<String>,
    pub send_status: String,
    pub send_fail_reason: Option<String>,
    pub created_at: Option<String>,
    pub updated_at: Option<String>,
}

/// Log query.
#[derive(Debug, Clone)]
pub struct AutoReplyLogQuery {
    pub page: u32,
    pub page_size: u32,
    pub account_id: String,
    /// yyyy-mm-dd.
    pub start_date: String,
    /// yyyy-mm-dd.
    pub end_date: String,
    pub matched_rule_type: String,
    pub send_status: String,
    /// `auto_reply` or `auto_delivery`.
    pub message_type: String,
}

impl Default for AutoReplyLogQuery {
    fn default() -> (q: Self)
        ensures
            q.page == 0 && q.page_size == 0 && q.account_id@.len() == 0 && q.start_date@.len() == 0
                && q.end_date@.len() == 0 && q.matched_rule_type@.len() == 0 && q.send_status@.len() == 0
                && q.message_type@.len() == 0,
    {
        AutoReplyLogQuery {
            page: 0,
            page_size: 0,
            account_id: String::new(),
            start_date: String::new(),
            end_date: String::new(),
            matched_rule_type: String::new(),
            send_status: String::new(),
            message_type: String::new(),
        }
    }
}

/// One page of log entries.
#[derive(Debug, Clone)]
pub struct AutoReplyLogPage {
    pub data: Vec<AutoReplyLogItem>,
    pub total: u32,
    pub page: u32,
    pub page_size: u32,
    pub total_pages: u32,
}

/// Storage of logs, implemented by the application.
pub trait AutoReplyLogStore {
    /// `r` is an answer this store gives when asked for the user's entries
    /// matching the query (unconstrained unless an implementation says
    /// otherwise).
    closed spec fn logs_listed(&self, owner_id: i64, query: AutoReplyLogQuery, r: OpenDeskResult<Vec<AutoReplyLogItem>>) -> bool {
        true
    }

    /// Every entry matching the query (no paging).
    fn list_logs(&self, owner_id: i64, query: &AutoReplyLogQuery) -> (r: OpenDeskResult<Vec<AutoReplyLogItem>>)
        ensures
            self.logs_listed(owner_id, *query, r);
}

/// The page number used: at least 1.
pub open spec fn effective_page(page: u32) -> u32 {
    if page >= 1 {
        page
    } else {
        1
    }
}

/// The page size used: between 1 and 200.
pub open spec fn effective_size(page_size: u32) -> u32 {
    if page_size < 1 {
        1
    } else if page_size > 200 {
        200
    } else {
        page_size
    }
}

/// Number of pages of `size` entries holding `total` entries (rounded up).
pub open spec fn page_count(total: u32, size: u32) -> int {
    if total % size == 0 {
        (total / size) as int
    } else {
        total / size + 1
    }
}

/// The query's page start fits in 32 bits.
pub open spec fn page_start_fits(query: AutoReplyLogQuery) -> bool {
    (effective_page(query.page) - 1) * effective_size(query.page_size) <= u32::MAX
}

/// `p` is the query's page of `all`: the entries from the page's start, at
/// most a page size of them, with the total count (cut to 32 bits) and the
/// page count.
pub open spec fn is_page_of(query: AutoReplyLogQuery, all: Seq<AutoReplyLogItem>, p: AutoReplyLogPage) -> bool {
    let page = effective_page(query.page);
    let size = effective_size(query.page_size);
    let start = (page - 1) * size;
    let total = all.len() as u32;
    let from = if start < all.len() { start } else { all.len() as int };
    let to = if from + size < all.len() { from + size } else { all.len() as int };
    &&& p.page == page
    &&& p.page_size == size
    &&& p.total == total
    &&& p.total_pages == page_count(total, size)
    &&& p.data@ == all.subrange(from, to)
}

/// Log service.
pub struct AutoReplyLogService<'a> {
    /// The store the service works on.
    pub store: &'a dyn AutoReplyLogStore,
}

impl<'a> AutoReplyLogService<'a> {
    pub fn new(store: &'a dyn AutoReplyLogStore) -> Self {
        Self { store }
    }

    /// One page (pages count from 1) of the entries the store finds.
    pub fn list(&self, owner_id: i64, query: &AutoReplyLogQuery) -> (r: OpenDeskResult<AutoReplyLogPage>)
        requires
            page_start_fits(*query),
        ensures
            r is Ok ==> exists|all: Seq<AutoReplyLogItem>| #[trigger] is_page_of(*query, all, r->Ok_0),
            exists|listed: OpenDeskResult<Vec<AutoReplyLogItem>>|
                #![trigger self.store.logs_listed(owner_id, *query, listed)]
                self.store.logs_listed(owner_id, *query, listed) && match listed {
                    Err(e) => r == Err::<AutoReplyLogPage, String>(e),
                    Ok(all) => r is Ok && is_page_of(*query, all@, r->Ok_0),
                },
    {
        let listed = self.store.list_logs(owner_id, query);
        let ghost g = listed;
        let all = match listed {
            Ok(v) => v,
            Err(e) => return Err(e),
        };
        assert(g matches Ok(v) && v@ == all@);
        let ghost all_view = all@;
        let p = Self::paginate(query, all);
        assert(is_page_of(*query, all_view, p));
        let r = Ok(p);
        assert(is_page_of(*query, all_view, r->Ok_0));
        r
    }

    /// The query's page of the given entries (see [`is_page_of`]).
    pub fn paginate(query: &AutoReplyLogQuery, all: Vec<AutoReplyLogItem>) -> (p: AutoReplyLogPage)
        requires
            page_start_fits(*query),
        ensures
            is_page_of(*query, all@, p),
    {
        let page: u32 = if query.page >= 1 {
            query.page
        } else {
            1
        };
        let page_size: u32 = if query.page_size < 1 {
            1
        } else if query.page_size > 200 {
            200
        } else {
            query.page_size
        };
        let total: u32 = all.len() as u32;
        let total_pages: u32 = if total == 0 {
            0
        } else if total % page_size == 0 {
            total / page_size
        } else {
            assert(total / page_size < u32::MAX) by (nonlinear_arith)
                requires
                    page_size >= 1,
                    total % page_size != 0,
            {
                if page_size == 1 {
                    assert(total % page_size == 0);
                } else {
                    assert(total / page_size <= total / 2);
                }
            }
            total / page_size + 1
        };
        assert(total == 0 ==> total / page_size == 0);
        let start: usize = ((page - 1) * page_size) as usize;
        let mut rest = all;
        let from: usize = if start < rest.len() {
            start
        } else {
            rest.len()
        };
        let ghost all_view = rest@;
        let mut data = rest.split_off(from);
        data.truncate(page_size as usize);
        proof {
            let to = if from + page_size < all_view.len() { from + page_size } else { all_view.len() as int };
            assert(data@ =~= all_view.subrange(from as int, to));
        }
        AutoReplyLogPage { data, total, page, page_size, total_pages }
    }
}


/// A page never holds more entries than its size, and the pages counted
/// hold every entry.
pub proof fn lemma_page_bounds(query: AutoReplyLogQuery, all: Seq<AutoReplyLogItem>, p: AutoReplyLogPage)
    requires
        is_page_of(query, all, p),
    ensures
        p.data@.len() <= p.page_size,
        1 <= p.page_size <= 200,
        p.page >= 1,
        p.total_pages * p.page_size >= p.total,
        p.total_pages * p.page_size < p.total + p.page_size,
{
    let t = p.total as int;
    let s = p.page_size as int;
    assert(t == (t / s) * s + t % s) by (nonlinear_arith)
        requires
            s >= 1,
    ;
    assert(0 <= t % s < s) by (nonlinear_arith)
        requires
            s >= 1,
    ;
    if t % s == 0 {
        assert(p.total_pages * p.page_size == (t / s) * s);
    } else {
        assert(p.total_pages * p.page_size == (t / s + 1) * s) by (nonlinear_arith)
            requires
                p.total_pages == t / s + 1,
                s == p.page_size,
        ;
        assert((t / s + 1) * s == (t / s) * s + s) by (nonlinear_arith);
    }
}

} // verus!
