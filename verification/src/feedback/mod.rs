//! Feedback records: submission, paged queries and owner-checked deletion.
use vstd::prelude::*;
use crate::records::{owner_checked, owner_gate};
use crate::text::{owned, str_is_empty, trim_seq, trim_str};
use crate::OpenDeskResult;

verus! {

/// Kind of feedback.
#[derive(Debug, Clone, Copy, PartialEq, Eq, Structural)]
pub enum FeedbackKind {
    Feature,
    Bug,
    Other,
}

/// The wire name of a feedback kind.
pub open spec fn feedback_kind_name(k: FeedbackKind) -> Seq<char> {
    match k {
        FeedbackKind::Feature => "feature"@,
        FeedbackKind::Bug => "bug"@,
        FeedbackKind::Other => "other"@,
    }
}

impl FeedbackKind {
    /// `feature`, `bug` or `other`.
    pub fn as_str(&self) -> (s: &'static str)
        ensures
            s@ == feedback_kind_name(*self),
    {
        match self {
            FeedbackKind::Feature => "feature",
            FeedbackKind::Bug => "bug",
            FeedbackKind::Other => "other",
        }
    }
}

/// A feedback record.
#[derive(Debug)]
pub struct Feedback {
    pub id: i64,
    pub owner_id: i64,
    pub kind: FeedbackKind,
    pub title: String,
    pub content: String,
    pub created_at: Option<String>,
}

impl Clone for Feedback {
    fn clone(&self) -> (r: Self)
        ensures
            r == *self,
    {
        Feedback {
            id: self.id,
            owner_id: self.owner_id,
            kind: self.kind,
            title: self.title.clone(),
            content: self.content.clone(),
            created_at: self.created_at.clone(),
        }
    }
}

/// Feedback query.
#[derive(Debug, Clone)]
pub struct FeedbackQuery {
    pub page: u32,
    pub page_size: u32,
    pub kind: String,
    pub keyword: String,
}

impl Default for FeedbackQuery {
    fn default() -> (q: Self)
        ensures
            q.page == 0 && q.page_size == 0 && q.kind@.len() == 0 && q.keyword@.len() == 0,
    {
        FeedbackQuery { page: 0, page_size: 0, kind: String::new(), keyword: String::new() }
    }
}

/// Storage of feedback, implemented by the application. Each `closed spec
/// fn` below names the answers the store may give to one of its calls
/// (unconstrained unless an implementation says otherwise).
pub trait FeedbackStore {
    /// `r` is an answer to listing a page of the user's feedback.
    closed spec fn feedbacks_listed(&self, owner_id: i64, query: FeedbackQuery, r: OpenDeskResult<(Vec<Feedback>, u32)>) -> bool {
        true
    }

    /// `r` is an answer to looking up the user's feedback `feedback_id`.
    closed spec fn feedback_got(&self, owner_id: i64, feedback_id: i64, r: OpenDeskResult<Option<Feedback>>) -> bool {
        true
    }

    /// `r` is an answer to storing the new feedback `feedback`.
    closed spec fn feedback_created(&self, feedback: Feedback, r: OpenDeskResult<Feedback>) -> bool {
        true
    }

    /// `r` is an answer to deleting the feedback `feedback_id`.
    closed spec fn feedback_deleted(&self, feedback_id: i64, r: OpenDeskResult<()>) -> bool {
        true
    }

    /// One page of the user's feedback.
    fn list_feedbacks(&self, owner_id: i64, query: &FeedbackQuery) -> (r: OpenDeskResult<(Vec<Feedback>, u32)>)
        ensures
            self.feedbacks_listed(owner_id, *query, r);

    /// The user's feedback with the given id.
    fn get_feedback(&self, owner_id: i64, feedback_id: i64) -> (r: OpenDeskResult<Option<Feedback>>)
        ensures
            self.feedback_got(owner_id, feedback_id, r);

    /// Stores a new feedback and returns it as stored.
    fn create_feedback(&self, feedback: &Feedback) -> (r: OpenDeskResult<Feedback>)
        ensures
            self.feedback_created(*feedback, r);

    /// Deletes a feedback.
    fn delete_feedback(&self, feedback_id: i64) -> (r: OpenDeskResult<()>)
        ensures
            self.feedback_deleted(feedback_id, r);
}

/// Feedback service.
pub struct FeedbackService<'a> {
    /// The store the service works on.
    pub store: &'a dyn FeedbackStore,
}

impl<'a> FeedbackService<'a> {
    pub fn new(store: &'a dyn FeedbackStore) -> Self {
        Self { store }
    }

    /// One page of the user's feedback, as the store lists it.
    pub fn list(&self, owner_id: i64, query: &FeedbackQuery) -> (r: OpenDeskResult<(Vec<Feedback>, u32)>)
        ensures
            self.store.feedbacks_listed(owner_id, *query, r),
    {
        self.store.list_feedbacks(owner_id, query)
    }

    /// Submits feedback for the user with trimmed title and content; a blank
    /// title or content is refused, else the store's answer to storing it is
    /// returned.
    pub fn create(&self, owner_id: i64, feedback: Feedback) -> (r: OpenDeskResult<Feedback>)
        ensures
            trim_seq(feedback.title@).len() == 0 ==> (r matches Err(e) && e@ == "反馈标题不能为空"@),
            trim_seq(feedback.title@).len() > 0 && trim_seq(feedback.content@).len() == 0 ==> (r matches Err(e)
                && e@ == "反馈内容不能为空"@),
            trim_seq(feedback.title@).len() > 0 && trim_seq(feedback.content@).len() > 0 ==> exists|stored: Feedback|
                #![trigger self.store.feedback_created(stored, r)]
                stored.id == feedback.id && stored.owner_id == owner_id && stored.kind == feedback.kind
                    && stored.title@ == trim_seq(feedback.title@) && stored.content@ == trim_seq(feedback.content@)
                    && stored.created_at == feedback.created_at && self.store.feedback_created(stored, r),
    {
        let mut feedback = feedback;
        feedback.owner_id = owner_id;
        feedback.title = trim_str(feedback.title.as_str());
        feedback.content = trim_str(feedback.content.as_str());
        if str_is_empty(feedback.title.as_str()) {
            return Err(owned("反馈标题不能为空"));
        }
        if str_is_empty(feedback.content.as_str()) {
            return Err(owned("反馈内容不能为空"));
        }
        self.store.create_feedback(&feedback)
    }

    /// Deletes the user's feedback: the lookup of the user's feedback decides
    /// (see [`owner_checked`]); feedback found is deleted.
    pub fn delete(&self, owner_id: i64, feedback_id: i64) -> (r: OpenDeskResult<()>)
        ensures
            exists|got: OpenDeskResult<Option<Feedback>>|
                #![trigger self.store.feedback_got(owner_id, feedback_id, got)]
                self.store.feedback_got(owner_id, feedback_id, got) && owner_checked(got, r, "反馈不存在或无权限"@)
                    && (got matches Ok(Some(_)) ==> self.store.feedback_deleted(feedback_id, r)),
    {
        let got = self.store.get_feedback(owner_id, feedback_id);
        let r = match owner_gate(&got, "反馈不存在或无权限") {
            Err(e) => Err(e),
            Ok(_) => self.store.delete_feedback(feedback_id),
        };
        assert(owner_checked(got, r, "反馈不存在或无权限"@));
        r
    }
}

} // verus!
