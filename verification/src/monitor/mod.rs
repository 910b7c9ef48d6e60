//! Item monitoring: task and result records and their service. Scheduling,
//! searching and AI decisions happen in the application.
use vstd::prelude::*;
use crate::text::{lemma_seq_less_total, lemma_seq_less_transitive, seq_less, str_less};
use crate::DingDaResult;

verus! {

/// A monitoring task.
#[derive(Debug, Clone)]
pub struct MonitorTask {
    pub id: String,
    pub owner_id: i64,
    pub name: String,
    /// What the user is looking for (the AI derives search keywords from it).
    pub intent: String,
    /// Search keywords (generated or corrected by hand).
    pub keywords: Vec<String>,
    pub account_id: String,
    /// AI account of the global AI configuration (`provider:{id}` for
    /// platforms without accounts).
    pub ai_account_id: String,
    /// Switch to backup AI accounts when the first one fails.
    pub ai_failover_enabled: bool,
    /// Order of the backup AI accounts (empty: derived from the AI configuration).
    pub ai_account_order: Vec<String>,
    /// Interval in minutes.
    pub interval_minutes: u32,
    pub enabled: bool,
    /// AI decision criteria (natural language).
    pub ai_criteria: String,
    pub max_results: u32,
    /// Search with a visible browser.
    pub headed: bool,
    pub is_running: bool,
    pub last_run_at: Option<String>,
    pub last_error: Option<String>,
    pub created_at: String,
    pub updated_at: String,
}

/// A monitoring hit.
#[derive(Debug)]
pub struct MonitorResult {
    pub id: String,
    pub task_id: String,
    pub owner_id: i64,
    pub item_id: String,
    pub title: String,
    pub url: String,
    pub price_text: String,
    pub location: String,
    pub seller_name: String,
    pub ai_recommended: bool,
    pub ai_reason: String,
    pub notified: bool,
    /// The raw search record, as JSON text.
    pub raw: String,
    pub crawled_at: String,
}

impl Clone for MonitorResult {
    fn clone(&self) -> (r: Self)
        ensures
            r == *self,
    {
        MonitorResult {
            id: self.id.clone(),
            task_id: self.task_id.clone(),
            owner_id: self.owner_id,
            item_id: self.item_id.clone(),
            title: self.title.clone(),
            url: self.url.clone(),
            price_text: self.price_text.clone(),
            location: self.location.clone(),
            seller_name: self.seller_name.clone(),
            ai_recommended: self.ai_recommended,
            ai_reason: self.ai_reason.clone(),
            notified: self.notified,
            raw: self.raw.clone(),
            crawled_at: self.crawled_at.clone(),
        }
    }
}

/// Storage of tasks, implemented by the application. Each `closed spec fn`
/// below names the answers the store may give to one of its calls
/// (unconstrained unless an implementation says otherwise).
pub trait MonitorTaskStore {
    /// `r` is an answer to listing the user's tasks.
    closed spec fn tasks_listed(&self, owner_id: i64, r: DingDaResult<Vec<MonitorTask>>) -> bool {
        true
    }

    /// `r` is an answer to looking up the user's task `task_id`.
    closed spec fn task_got(&self, owner_id: i64, task_id: Seq<char>, r: DingDaResult<Option<MonitorTask>>) -> bool {
        true
    }

    /// `r` is an answer to saving `task`.
    closed spec fn task_put(&self, task: MonitorTask, r: DingDaResult<()>) -> bool {
        true
    }

    /// `r` is an answer to deleting the user's task `task_id`.
    closed spec fn task_deleted(&self, owner_id: i64, task_id: Seq<char>, r: DingDaResult<()>) -> bool {
        true
    }

    fn list_tasks(&self, owner_id: i64) -> (r: DingDaResult<Vec<MonitorTask>>)
        ensures
            self.tasks_listed(owner_id, r);

    fn get_task(&self, owner_id: i64, task_id: &str) -> (r: DingDaResult<Option<MonitorTask>>)
        ensures
            self.task_got(owner_id, task_id@, r);

    fn put_task(&self, task: &MonitorTask) -> (r: DingDaResult<()>)
        ensures
            self.task_put(*task, r);

    fn delete_task(&self, owner_id: i64, task_id: &str) -> (r: DingDaResult<()>)
        ensures
            self.task_deleted(owner_id, task_id@, r);
}

/// Storage of results, implemented by the application. Each `closed spec fn`
/// below names the answers the store may give to one of its calls
/// (unconstrained unless an implementation says otherwise).
pub trait MonitorResultStore {
    /// `r` is an answer to listing the results of the user's task `task_id`.
    closed spec fn results_listed(&self, owner_id: i64, task_id: Seq<char>, r: DingDaResult<Vec<MonitorResult>>) -> bool {
        true
    }

    /// `r` is an answer to asking whether the task already has a result for
    /// the item.
    closed spec fn result_known(&self, owner_id: i64, task_id: Seq<char>, item_id: Seq<char>, r: DingDaResult<bool>) -> bool {
        true
    }

    /// `r` is an answer to saving `result`.
    closed spec fn result_put(&self, result: MonitorResult, r: DingDaResult<()>) -> bool {
        true
    }

    fn list_results(&self, owner_id: i64, task_id: &str) -> (r: DingDaResult<Vec<MonitorResult>>)
        ensures
            self.results_listed(owner_id, task_id@, r);

    fn has_result(&self, owner_id: i64, task_id: &str, item_id: &str) -> (r: DingDaResult<bool>)
        ensures
            self.result_known(owner_id, task_id@, item_id@, r);

    fn put_result(&self, result: &MonitorResult) -> (r: DingDaResult<()>)
        ensures
            self.result_put(*result, r);
}

/// `order` lists every position of `items` once, newest crawl time first;
/// results crawled at the same time keep their order.
pub open spec fn newest_first(items: Seq<MonitorResult>, order: Seq<usize>) -> bool {
    &&& order.len() == items.len()
    &&& forall|k: int| 0 <= k < order.len() ==> (#[trigger] order[k]) < items.len()
    &&& forall|a: int, b: int| 0 <= a < b < order.len() ==> #[trigger] order[a] != #[trigger] order[b]
    &&& forall|a: int, b: int|
        0 <= a < b < order.len() ==> seq_less(
            items[#[trigger] order[b] as int].crawled_at@,
            items[#[trigger] order[a] as int].crawled_at@,
        ) || (items[order[a] as int].crawled_at@ == items[order[b] as int].crawled_at@ && order[a] < order[b])
}

/// `out` is `items` newest first (a stable sort on the crawl time, latest first).
pub open spec fn sorted_newest_first(items: Seq<MonitorResult>, out: Seq<MonitorResult>) -> bool {
    exists|order: Seq<usize>|
        #[trigger] newest_first(items, order) && out == order.map_values(|i: usize| items[i as int])
}

/// The positions of `items`, newest crawl time first (see [`newest_first`]).
fn newest_first_order(items: &[MonitorResult]) -> (order: Vec<usize>)
    ensures
        newest_first(items@, order@),
{
    let mut order: Vec<usize> = Vec::new();
    let mut i: usize = 0;
    while i < items.len()
        invariant
            i <= items@.len(),
            order@.len() == i,
            forall|k: int| 0 <= k < order@.len() ==> (#[trigger] order@[k]) < i,
            forall|a: int, b: int| 0 <= a < b < order@.len() ==> #[trigger] order@[a] != #[trigger] order@[b],
            forall|a: int, b: int|
                0 <= a < b < order@.len() ==> seq_less(
                    items@[#[trigger] order@[b] as int].crawled_at@,
                    items@[#[trigger] order@[a] as int].crawled_at@,
                ) || (items@[order@[a] as int].crawled_at@ == items@[order@[b] as int].crawled_at@ && order@[a]
                    < order@[b]),
        decreases items.len() - i,
    {
        let key = items[i].crawled_at.as_str();
        // Insert after every entry crawled at the same time or later.
        let mut pos: usize = 0;
        while pos < order.len() && !str_less(items[order[pos]].crawled_at.as_str(), key)
            invariant
                i < items@.len(),
                key@ == items@[i as int].crawled_at@,
                pos <= order@.len(),
                forall|k: int| 0 <= k < order@.len() ==> (#[trigger] order@[k]) < i,
                forall|k: int| 0 <= k < pos ==> !seq_less(items@[#[trigger] order@[k] as int].crawled_at@, key@),
            decreases order.len() - pos,
        {
            pos = pos + 1;
        }
        let ghost before = order@;
        let ghost p = key@;
        order.insert(pos, i);
        proof {
            assert forall|k: int| 0 <= k < order@.len() implies (#[trigger] order@[k]) < i + 1 by {
                if k < pos {
                    assert(order@[k] == before[k]);
                } else if k > pos {
                    assert(order@[k] == before[k - 1]);
                }
            }
            assert forall|a: int, b: int| 0 <= a < b < order@.len() implies #[trigger] order@[a]
                != #[trigger] order@[b] by {
                if a < pos && b < pos {
                    assert(order@[a] == before[a] && order@[b] == before[b]);
                } else if a < pos && b == pos {
                    assert(order@[a] == before[a]);
                } else if a < pos && b > pos {
                    assert(order@[a] == before[a] && order@[b] == before[b - 1]);
                } else if a == pos {
                    assert(order@[b] == before[b - 1]);
                } else {
                    assert(order@[a] == before[a - 1] && order@[b] == before[b - 1]);
                }
            }
            assert forall|a: int, b: int| 0 <= a < b < order@.len() implies seq_less(
                items@[#[trigger] order@[b] as int].crawled_at@,
                items@[#[trigger] order@[a] as int].crawled_at@,
            ) || (items@[order@[a] as int].crawled_at@ == items@[order@[b] as int].crawled_at@ && order@[a]
                < order@[b]) by {
                if a < pos && b < pos {
                    assert(order@[a] == before[a] && order@[b] == before[b]);
                } else if a < pos && b == pos {
                    assert(order@[a] == before[a]);
                    assert(!seq_less(items@[before[a] as int].crawled_at@, p));
                    lemma_seq_less_total(items@[before[a] as int].crawled_at@, p);
                } else if a < pos && b > pos {
                    assert(order@[a] == before[a] && order@[b] == before[b - 1]);
                } else if a == pos {
                    assert(order@[b] == before[b - 1]);
                    let first = items@[before[pos as int] as int].crawled_at@;
                    let other = items@[before[b - 1] as int].crawled_at@;
                    assert(seq_less(first, p));
                    if b - 1 > pos {
                        assert(seq_less(other, first) || other == first);
                        if seq_less(other, first) {
                            lemma_seq_less_transitive(other, first, p);
                        }
                    }
                } else {
                    assert(order@[a] == before[a - 1] && order@[b] == before[b - 1]);
                }
            }
        }
        i = i + 1;
    }
    order
}

/// Monitoring service.
pub struct MonitorService<'a> {
    /// The store of tasks.
    pub tasks: &'a dyn MonitorTaskStore,
    /// The store of results.
    pub results: &'a dyn MonitorResultStore,
}

impl<'a> MonitorService<'a> {
    pub fn new(tasks: &'a dyn MonitorTaskStore, results: &'a dyn MonitorResultStore) -> Self {
        Self { tasks, results }
    }

    /// The user's tasks, as the store lists them.
    pub fn list_tasks(&self, owner_id: i64) -> (r: DingDaResult<Vec<MonitorTask>>)
        ensures
            self.tasks.tasks_listed(owner_id, r),
    {
        self.tasks.list_tasks(owner_id)
    }

    /// The user's task `task_id`, as the store finds it.
    pub fn get_task(&self, owner_id: i64, task_id: &str) -> (r: DingDaResult<Option<MonitorTask>>)
        ensures
            self.tasks.task_got(owner_id, task_id@, r),
    {
        self.tasks.get_task(owner_id, task_id)
    }

    /// Saves the task.
    pub fn save_task(&self, task: &MonitorTask) -> (r: DingDaResult<()>)
        ensures
            self.tasks.task_put(*task, r),
    {
        self.tasks.put_task(task)
    }

    /// Deletes the user's task `task_id`.
    pub fn delete_task(&self, owner_id: i64, task_id: &str) -> (r: DingDaResult<()>)
        ensures
            self.tasks.task_deleted(owner_id, task_id@, r),
    {
        self.tasks.delete_task(owner_id, task_id)
    }

    /// The task's results as the store lists them, newest crawl time first;
    /// a failed listing is returned.
    pub fn list_results(&self, owner_id: i64, task_id: &str) -> (r: DingDaResult<Vec<MonitorResult>>)
        ensures
            exists|listed: DingDaResult<Vec<MonitorResult>>|
                #![trigger self.results.results_listed(owner_id, task_id@, listed)]
                self.results.results_listed(owner_id, task_id@, listed) && match listed {
                    Err(e) => r == Err::<Vec<MonitorResult>, String>(e),
                    Ok(items) => r is Ok && sorted_newest_first(items@, r->Ok_0@),
                },
    {
        let listed = self.results.list_results(owner_id, task_id);
        let ghost g = listed;
        match listed {
            Err(e) => Err(e),
            Ok(items) => {
                let sorted = Self::sort_newest_first(items.as_slice());
                let r = Ok(sorted);
                assert(sorted_newest_first(items@, r->Ok_0@));
                assert(g matches Ok(v) && v@ == items@);
                r
            },
        }
    }

    /// The results newest crawl time first, same times in their given order.
    pub fn sort_newest_first(items: &[MonitorResult]) -> (r: Vec<MonitorResult>)
        ensures
            sorted_newest_first(items@, r@),
    {
        let order = newest_first_order(items);
        let mut out: Vec<MonitorResult> = Vec::new();
        let mut k: usize = 0;
        while k < order.len()
            invariant
                newest_first(items@, order@),
                k <= order@.len(),
                out@ == order@.take(k as int).map_values(|i: usize| items@[i as int]),
            decreases order.len() - k,
        {
            let x = items[order[k]].clone();
            let ghost before = out@;
            out.push(x);
            assert(out@ =~= order@.take(k as int + 1).map_values(|i: usize| items@[i as int]));
            k = k + 1;
        }
        assert(order@.take(order@.len() as int) =~= order@);
        out
    }

    /// Whether the task already has a result for the item, as the store
    /// answers.
    pub fn has_seen(&self, owner_id: i64, task_id: &str, item_id: &str) -> (r: DingDaResult<bool>)
        ensures
            self.results.result_known(owner_id, task_id@, item_id@, r),
    {
        self.results.has_result(owner_id, task_id, item_id)
    }

    /// Saves the result.
    pub fn save_result(&self, result: &MonitorResult) -> (r: DingDaResult<()>)
        ensures
            self.results.result_put(*result, r),
    {
        self.results.put_result(result)
    }
}

} // verus!
