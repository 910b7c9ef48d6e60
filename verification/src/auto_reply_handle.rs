//! A ready-made auto-reply pipeline with in-memory stores and no rules.
use vstd::prelude::*;
use crate::auto_reply::dedup::InMemoryDedup;
use crate::auto_reply::default_reply::{DefaultReplyStore, InMemoryDefaultReply};
use crate::auto_reply::filter::KeywordFilter;
use crate::auto_reply::keyword::KeywordRule;
use crate::auto_reply::pipeline::AutoReplyPipeline;

verus! {

/// Owner of an auto-reply pipeline.
pub struct AutoReplyHandle {
    pipeline: AutoReplyPipeline,
}

impl AutoReplyHandle {
    /// The pipeline.
    pub closed spec fn pipeline_spec(&self) -> AutoReplyPipeline {
        self.pipeline
    }

    /// A pipeline with no filter or keyword rules, an in-memory dedup store
    /// (one-hour window) and an empty in-memory default-reply store.
    pub fn new() -> (h: Self)
        ensures
            h.pipeline_spec().filter.rules().len() == 0,
            h.pipeline_spec().keywords.rules().len() == 0,
    {
        let pipeline = AutoReplyPipeline::new(
            KeywordFilter::default(),
            Box::new(InMemoryDedup::default()),
            Vec::<KeywordRule>::new(),
            Box::new(InMemoryDefaultReply::default()),
        );
        AutoReplyHandle { pipeline }
    }

    /// The pipeline.
    pub fn pipeline(&self) -> (p: &AutoReplyPipeline)
        ensures
            *p == self.pipeline_spec(),
    {
        &self.pipeline
    }

    /// The pipeline, for handling messages.
    pub fn into_pipeline(self) -> (p: AutoReplyPipeline)
        ensures
            p == self.pipeline_spec(),
    {
        self.pipeline
    }

    /// Replaces the pipeline by one with the given default-reply store (and no
    /// filter or keyword rules, a fresh in-memory dedup store).
    pub fn with_default_reply(self, default_reply: Box<dyn DefaultReplyStore>) -> (h: Self)
        ensures
            h.pipeline_spec().filter.rules().len() == 0,
            h.pipeline_spec().keywords.rules().len() == 0,
    {
        let pipeline = AutoReplyPipeline::new(
            KeywordFilter::default(),
            Box::new(InMemoryDedup::default()),
            Vec::<KeywordRule>::new(),
            default_reply,
        );
        AutoReplyHandle { pipeline }
    }
}

impl Default for AutoReplyHandle {
    fn default() -> (h: Self)
        ensures
            h.pipeline_spec().filter.rules().len() == 0,
            h.pipeline_spec().keywords.rules().len() == 0,
    {
        Self::new()
    }
}

} // verus!
