//! Knowledge-base document use cases: deletion, listing and the import flow
//! (parse → chunk → embed → store). Parsing, chunking, embedding and storage
//! are the application's; the import's decisions are made here, step by step.
use vstd::prelude::*;
use crate::text::{concat2, decimal_seq, owned, u64_to_decimal};

verus! {

/// A storage failure.
#[derive(Debug, Clone)]
pub enum StoreError {
    /// The record does not exist.
    NotFound,
    /// Another failure, with its message.
    Failed(String),
}

/// Knowledge-base storage used for deletion, implemented by the application.
pub trait KnowledgeStore {
    /// `r` is an answer this store gives when told to delete the document
    /// `document_id` (unconstrained unless an implementation says otherwise).
    closed spec fn document_deleted(&self, document_id: Seq<char>, r: Result<(), StoreError>) -> bool {
        true
    }

    /// Deletes the document with its chunks and vectors.
    fn delete_document(&self, document_id: &str) -> (r: Result<(), StoreError>)
        ensures
            self.document_deleted(document_id@, r);
}

/// Deletes a knowledge-base document.
pub struct DeleteDocument;

/// The outcome of a deletion: `true` when deleted, `false` when there was no
/// such document, the message of another failure.
pub open spec fn delete_outcome(a: Result<(), StoreError>, r: Result<bool, String>) -> bool {
    match a {
        Ok(()) => r == Ok::<bool, String>(true),
        Err(StoreError::NotFound) => r == Ok::<bool, String>(false),
        Err(StoreError::Failed(m)) => r == Err::<bool, String>(m),
    }
}

impl DeleteDocument {
    /// Deletes the document (see [`delete_outcome`]).
    pub fn execute(store: &dyn KnowledgeStore, document_id: &str) -> (r: Result<bool, String>)
        ensures
            exists|a: Result<(), StoreError>|
                #![trigger store.document_deleted(document_id@, a)]
                store.document_deleted(document_id@, a) && delete_outcome(a, r),
    {
        let a = store.delete_document(document_id);
        let r = match &a {
            Ok(()) => Ok(true),
            Err(StoreError::NotFound) => Ok(false),
            Err(StoreError::Failed(m)) => Err(m.clone()),
        };
        assert(delete_outcome(a, r));
        r
    }
}

/// The document listing of the knowledge base, implemented by the
/// application; `D` is its document record, and a failure carries the
/// store's message.
pub trait DocumentCatalog<D> {
    /// `r` is an answer this catalog gives when asked for its documents
    /// (unconstrained unless an implementation says otherwise).
    closed spec fn documents_listed(&self, r: Result<Vec<D>, String>) -> bool {
        true
    }

    /// Every document, most recently updated first.
    fn list_documents(&self) -> (r: Result<Vec<D>, String>)
        ensures
            self.documents_listed(r);
}

/// Lists the knowledge-base documents (most recently updated first).
pub struct ListDocuments;

impl ListDocuments {
    /// The catalog's documents, as the store answers.
    pub fn execute<D>(store: &dyn DocumentCatalog<D>) -> (r: Result<Vec<D>, String>)
        ensures
            store.documents_listed(r),
    {
        store.list_documents()
    }
}

/// Imports an uploaded file into the knowledge base.
pub struct ImportDocument;

/// A finished import: the stored document.
#[derive(Debug, Clone)]
pub struct ImportOutcome<D> {
    pub document: D,
}

/// What the caller must do next.
#[derive(Debug)]
pub enum ImportAction<D> {
    /// Parse the file to Markdown and chunk it; answer with `on_parsed`.
    Parse,
    /// Create the document record; answer with `on_created`.
    CreateDocument { id: String, name: String, source_type: String },
    /// Embed the chunks in one batch; answer with `on_embedded`.
    Embed { chunks: Vec<String> },
    /// Insert each chunk with its embedding, in order; answer with
    /// `on_inserted` and the number of failed insertions.
    InsertChunks { document_id: String, chunks: Vec<String> },
    /// Delete the document (its outcome is ignored); answer with `on_deleted`.
    DeleteDocument { document_id: String },
    /// Mark the document ready with its chunk count; answer with `on_finished`.
    FinishDocument { document_id: String, chunk_count: i64 },
    /// The import is over.
    Finish(Result<ImportOutcome<D>, String>),
}

/// Where the import is.
#[derive(Debug)]
pub enum ImportStage<D> {
    Start,
    AwaitParsed,
    AwaitCreated,
    AwaitEmbedded(D),
    AwaitInserted(D),
    AwaitDeleted(String),
    AwaitFinished(D),
    Done,
}

/// The flow of one import.
pub struct ImportFlow<D> {
    name: String,
    id: String,
    chunks: Vec<String>,
    stage: ImportStage<D>,
}

/// The import failed with the message.
pub open spec fn failed_with<D>(a: ImportAction<D>, message: Seq<char>) -> bool {
    a matches ImportAction::Finish(Err(m)) && m@ == message
}

/// `uuid::Uuid::new_v4().to_string()`: a random version-4 UUID in the
/// hyphenated format, which the crate documents as 36 characters: lowercase
/// hexadecimal digits with `-` at positions 8, 13, 18 and 23. Which digits
/// come out is left open.
#[verifier::external_body]
fn uuid_v4_hyphenated() -> (r: String)
    ensures
        r@.len() == 36,
        r@[8] == '-' && r@[13] == '-' && r@[18] == '-' && r@[23] == '-',
{
    uuid::Uuid::new_v4().to_string()
}

impl<D> ImportFlow<D> {
    pub closed spec fn stage(&self) -> ImportStage<D> {
        self.stage
    }

    pub closed spec fn name(&self) -> Seq<char> {
        self.name@
    }

    pub closed spec fn id(&self) -> Seq<char> {
        self.id@
    }

    pub closed spec fn chunks(&self) -> Seq<String> {
        self.chunks@
    }

    /// Starts the import of the file `name` whose source type was recognized
    /// (`None`: unsupported): an unsupported file fails, else it is parsed.
    pub fn start(name: &str, source_type: Option<String>) -> (r: (Self, ImportAction<D>))
        ensures
            r.0.name() == name@,
            source_type is None ==> r.0.stage() is Done && failed_with(r.1, "不支持的文件类型: "@ + name@),
            source_type is Some ==> r.0.stage() is AwaitParsed && r.1 is Parse,
    {
        let flow_stage = match &source_type {
            None => ImportStage::Done,
            Some(_) => ImportStage::AwaitParsed,
        };
        let flow = ImportFlow { name: owned(name), id: String::new(), chunks: Vec::new(), stage: flow_stage };
        match source_type {
            None => (flow, ImportAction::Finish(Err(concat2("不支持的文件类型: ", name)))),
            Some(_) => (flow, ImportAction::Parse),
        }
    }

    /// The file was parsed and chunked (or not): a failure is reported; no
    /// chunk fails the import; else a document is created with a fresh id.
    pub fn on_parsed(&mut self, parsed: Result<Vec<String>, String>, source_type: String) -> (a: ImportAction<D>)
        requires
            old(self).stage() is AwaitParsed,
        ensures
            final(self).name() == old(self).name(),
            parsed matches Err(e) ==> final(self).stage() is Done && failed_with(a, e@),
            parsed matches Ok(c) ==> (c@.len() == 0 ==> final(self).stage() is Done && failed_with(
                a,
                "文档解析后没有可检索的内容"@,
            )),
            parsed matches Ok(c) ==> (c@.len() > 0 ==> final(self).stage() is AwaitCreated && final(self).chunks() == c@
                && final(self).id().len() == 36 && (a matches ImportAction::CreateDocument { id, name, source_type: t }
                && id@ == final(self).id() && name@ == old(self).name() && t@ == source_type@)),
    {
        let chunks = match parsed {
            Err(e) => {
                self.stage = ImportStage::Done;
                return ImportAction::Finish(Err(e));
            },
            Ok(c) => c,
        };
        if chunks.len() == 0 {
            self.stage = ImportStage::Done;
            return ImportAction::Finish(Err(owned("文档解析后没有可检索的内容")));
        }
        self.id = uuid_v4_hyphenated();
        self.chunks = chunks;
        self.stage = ImportStage::AwaitCreated;
        ImportAction::CreateDocument { id: self.id.clone(), name: self.name.clone(), source_type }
    }

    /// The document was created (or not): a failure is reported, else the
    /// chunks are embedded.
    pub fn on_created(&mut self, created: Result<D, String>) -> (a: ImportAction<D>)
        requires
            old(self).stage() is AwaitCreated,
        ensures
            final(self).id() == old(self).id(),
            final(self).chunks() == old(self).chunks(),
            created matches Err(e) ==> final(self).stage() is Done && failed_with(a, e@),
            created matches Ok(d) ==> final(self).stage() == ImportStage::AwaitEmbedded(d) && (a matches ImportAction::Embed {
                chunks,
            } && chunks@ == old(self).chunks()),
    {
        match created {
            Err(e) => {
                self.stage = ImportStage::Done;
                ImportAction::Finish(Err(e))
            },
            Ok(d) => {
                self.stage = ImportStage::AwaitEmbedded(d);
                ImportAction::Embed { chunks: self.chunks.clone() }
            },
        }
    }

    /// The chunks were embedded (`Ok` with the number of vectors) or not: a
    /// failure, or a count that differs from the chunks', deletes the
    /// document and fails; else the chunks are inserted.
    pub fn on_embedded(&mut self, embedded: Result<usize, String>) -> (a: ImportAction<D>)
        requires
            old(self).stage() is AwaitEmbedded,
        ensures
            final(self).id() == old(self).id(),
            final(self).chunks() == old(self).chunks(),
            embedded matches Err(e) ==> final(self).stage() == ImportStage::<D>::AwaitDeleted(e) && (a matches ImportAction::DeleteDocument {
                document_id,
            } && document_id@ == old(self).id()),
            embedded matches Ok(n) ==> (n != old(self).chunks().len() ==> (final(self).stage() matches ImportStage::AwaitDeleted(m)
                && m@ == "嵌入结果与分块数量不一致，已中止导入"@) && (a matches ImportAction::DeleteDocument {
                document_id,
            } && document_id@ == old(self).id())),
            embedded matches Ok(n) ==> (n == old(self).chunks().len() ==> final(self).stage() == ImportStage::AwaitInserted(
                old(self).stage()->AwaitEmbedded_0,
            ) && (a matches ImportAction::InsertChunks { document_id, chunks } && document_id@ == old(self).id()
                && chunks@ == old(self).chunks())),
    {
        let mut stage = ImportStage::Done;
        std::mem::swap(&mut stage, &mut self.stage);
        let d = match stage {
            ImportStage::AwaitEmbedded(d) => d,
            _ => {
                return ImportAction::Finish(Err(String::new()));
            },
        };
        match embedded {
            Err(e) => {
                self.stage = ImportStage::AwaitDeleted(e);
                ImportAction::DeleteDocument { document_id: self.id.clone() }
            },
            Ok(n) => {
                if n != self.chunks.len() {
                    self.stage = ImportStage::AwaitDeleted(owned("嵌入结果与分块数量不一致，已中止导入"));
                    ImportAction::DeleteDocument { document_id: self.id.clone() }
                } else {
                    self.stage = ImportStage::AwaitInserted(d);
                    ImportAction::InsertChunks { document_id: self.id.clone(), chunks: self.chunks.clone() }
                }
            },
        }
    }

    /// The chunks were inserted with `failures` failed insertions: any
    /// failure deletes the document and fails; else the document is finished
    /// with its chunk count.
    pub fn on_inserted(&mut self, failures: usize) -> (a: ImportAction<D>)
        requires
            old(self).stage() is AwaitInserted,
            old(self).chunks().len() <= i64::MAX,
        ensures
            final(self).id() == old(self).id(),
            final(self).chunks() == old(self).chunks(),
            failures > 0 ==> (final(self).stage() matches ImportStage::AwaitDeleted(m) && m@ == decimal_seq(failures as nat)
                + " 个分块写入失败，已中止导入"@) && (a matches ImportAction::DeleteDocument { document_id }
                && document_id@ == old(self).id()),
            failures == 0 ==> final(self).stage() == ImportStage::AwaitFinished(old(self).stage()->AwaitInserted_0) && (a matches ImportAction::FinishDocument {
                document_id,
                chunk_count,
            } && document_id@ == old(self).id() && chunk_count == old(self).chunks().len()),
    {
        let mut stage = ImportStage::Done;
        std::mem::swap(&mut stage, &mut self.stage);
        let d = match stage {
            ImportStage::AwaitInserted(d) => d,
            _ => {
                return ImportAction::Finish(Err(String::new()));
            },
        };
        if failures > 0 {
            self.stage = ImportStage::AwaitDeleted(concat2(u64_to_decimal(failures as u64).as_str(), " 个分块写入失败，已中止导入"));
            return ImportAction::DeleteDocument { document_id: self.id.clone() };
        }
        self.stage = ImportStage::AwaitFinished(d);
        ImportAction::FinishDocument { document_id: self.id.clone(), chunk_count: self.chunks.len() as i64 }
    }

    /// The document was deleted (whatever the outcome): report the failure.
    pub fn on_deleted(&mut self) -> (a: ImportAction<D>)
        requires
            old(self).stage() is AwaitDeleted,
        ensures
            final(self).stage() is Done,
            failed_with(a, old(self).stage()->AwaitDeleted_0@),
    {
        let mut stage = ImportStage::Done;
        std::mem::swap(&mut stage, &mut self.stage);
        match stage {
            ImportStage::AwaitDeleted(e) => ImportAction::Finish(Err(e)),
            _ => ImportAction::Finish(Err(String::new())),
        }
    }

    /// The document was finished (or not): report the stored document, or
    /// the failure.
    pub fn on_finished(&mut self, finished: Result<(), String>) -> (a: ImportAction<D>)
        requires
            old(self).stage() is AwaitFinished,
        ensures
            final(self).stage() is Done,
            finished matches Err(e) ==> failed_with(a, e@),
            finished is Ok ==> (a matches ImportAction::Finish(Ok(o)) && o.document == old(self).stage()->AwaitFinished_0),
    {
        let mut stage = ImportStage::Done;
        std::mem::swap(&mut stage, &mut self.stage);
        let d = match stage {
            ImportStage::AwaitFinished(d) => d,
            _ => {
                return ImportAction::Finish(Err(String::new()));
            },
        };
        match finished {
            Err(e) => ImportAction::Finish(Err(e)),
            Ok(()) => ImportAction::Finish(Ok(ImportOutcome { document: d })),
        }
    }
}

} // verus!
