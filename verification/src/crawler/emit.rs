//! Crawler → UI event topics (`crawler:<entity>/<verb>`). Desktop event names
//! allow only ASCII letters, digits, `-`, `/`, `:` and `_` (no `.`).
use vstd::prelude::*;
use crate::chat::emit::topic_safe;

verus! {

/// Crawler → UI event topics.
#[derive(Debug, Clone, Copy, PartialEq, Eq, Hash, Structural)]
pub enum CrawlerUIEvent {
    /// Job entered running / keywords prepared.
    JobStarted,
    /// Progress snapshot (counts, message, keyword stats).
    JobProgress,
    /// One process log line.
    JobLog,
    /// Job finished successfully or cancelled.
    JobCompleted,
    /// Job failed with error.
    JobFailed,
    /// One accepted channel row persisted.
    ChannelAccepted,
    /// Email enrichment finished for one channel.
    ChannelEmailEnriched,
}

/// The topic of a crawler event.
pub open spec fn crawler_topic(e: CrawlerUIEvent) -> Seq<char> {
    match e {
        CrawlerUIEvent::JobStarted => "crawler:job/started"@,
        CrawlerUIEvent::JobProgress => "crawler:job/progress"@,
        CrawlerUIEvent::JobLog => "crawler:job/log"@,
        CrawlerUIEvent::JobCompleted => "crawler:job/completed"@,
        CrawlerUIEvent::JobFailed => "crawler:job/failed"@,
        CrawlerUIEvent::ChannelAccepted => "crawler:channel/accepted"@,
        CrawlerUIEvent::ChannelEmailEnriched => "crawler:channel/email_enriched"@,
    }
}

impl CrawlerUIEvent {
    /// The event's topic, such as `crawler:job/progress`.
    pub fn as_str(self) -> (s: &'static str)
        ensures
            s@ == crawler_topic(self),
    {
        match self {
            CrawlerUIEvent::JobStarted => "crawler:job/started",
            CrawlerUIEvent::JobProgress => "crawler:job/progress",
            CrawlerUIEvent::JobLog => "crawler:job/log",
            CrawlerUIEvent::JobCompleted => "crawler:job/completed",
            CrawlerUIEvent::JobFailed => "crawler:job/failed",
            CrawlerUIEvent::ChannelAccepted => "crawler:channel/accepted",
            CrawlerUIEvent::ChannelEmailEnriched => "crawler:channel/email_enriched",
        }
    }
}

/// Every crawler topic is a valid UI event name; in particular it has no `.`.
pub proof fn lemma_crawler_topics_safe(e: CrawlerUIEvent)
    ensures
        topic_safe(crawler_topic(e)),
        !crawler_topic(e).contains('.'),
{
    reveal_strlit("crawler:job/started");
    reveal_strlit("crawler:job/progress");
    reveal_strlit("crawler:job/log");
    reveal_strlit("crawler:job/completed");
    reveal_strlit("crawler:job/failed");
    reveal_strlit("crawler:channel/accepted");
    reveal_strlit("crawler:channel/email_enriched");
}

/// An emitter that drops every event (tests, or before the UI is attached).
#[derive(Debug, Default, Clone, Copy)]
pub struct NoopCrawlerUIEmitter;

} // verus!
