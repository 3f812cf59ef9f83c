//! A run over a folder's documents, one after another: a document is begun
//! only once the one before it has ended, done or failed.

use vstd::prelude::*;
use crate::config::PipelineConfig;
use crate::pipeline::{
    advances, fits, is_terminal, requests, task_wf, DocumentTask, Stage, StageEvent, StageRequest,
};

verus! {

/// The documents of a run, the ends of those already processed, in order,
/// and the one in progress.
#[derive(Debug)]
pub struct Batch {
    pub documents: Vec<String>,
    pub outcomes: Vec<Stage>,
    pub current: Option<DocumentTask>,
}

/// Every recorded end is done or failed, one per document before the
/// current one, and the current task is the next document's.
pub open spec fn batch_wf(b: Batch) -> bool {
    &&& b.outcomes@.len() <= b.documents@.len()
    &&& forall|i: int| 0 <= i < b.outcomes@.len() ==> is_terminal(#[trigger] b.outcomes@[i])
    &&& b.current matches Some(t) ==> {
        &&& b.outcomes@.len() < b.documents@.len()
        &&& t.source_path@ == b.documents@[b.outcomes@.len() as int]@
        &&& task_wf(t)
    }
}

impl Batch {
    pub fn new(documents: Vec<String>) -> (r: Batch)
        ensures
            r.documents == documents,
            r.outcomes@.len() == 0,
            r.current is None,
            batch_wf(r),
    {
        Batch { documents, outcomes: Vec::new(), current: None }
    }

    /// Whether the current document waits for `event`.
    pub fn accepts(&self, event: &StageEvent) -> (r: bool)
        ensures
            r == (self.current matches Some(t) && !is_terminal(t.stage) && fits(t.stage, *event)),
    {
        match &self.current {
            Some(t) => t.accepts(event),
            None => false,
        }
    }

    /// Whether the next document may begin: none is in progress.
    pub fn between_documents(&self) -> (r: bool)
        ensures
            r == (self.current matches Some(t) ==> is_terminal(t.stage)),
    {
        match &self.current {
            Some(t) => t.stage.is_terminal(),
            None => true,
        }
    }

    /// Records the end of the document in progress, if any, and begins the
    /// next one; none when every document has ended.
    pub fn next_document(&mut self, cfg: &PipelineConfig) -> (r: Option<StageRequest>)
        requires
            batch_wf(*old(self)),
            old(self).current matches Some(t) ==> is_terminal(t.stage),
        ensures
            batch_wf(*final(self)),
            final(self).documents == old(self).documents,
            old(self).current matches Some(t) ==> final(self).outcomes@ == old(self).outcomes@.push(t.stage),
            old(self).current is None ==> final(self).outcomes@ == old(self).outcomes@,
            r is None <==> final(self).outcomes@.len() == final(self).documents@.len(),
            r is None ==> final(self).current is None,
            r matches Some(req) ==> final(self).current matches Some(t) && t.stage == Stage::Digitizing
                && requests(t, *cfg, req),
    {
        let prev = match &self.current {
            Some(t) => Some(t.stage),
            None => None,
        };
        if let Some(stage) = prev {
            self.outcomes.push(stage);
        }
        let k = self.outcomes.len();
        if k >= self.documents.len() {
            self.current = None;
            return None;
        }
        let (task, req) = DocumentTask::start(self.documents[k].as_str(), cfg);
        self.current = Some(task);
        Some(req)
    }

    /// Hands the outcome of a stage to the document in progress.
    pub fn advance(&mut self, cfg: &PipelineConfig, event: StageEvent) -> (r: StageRequest)
        requires
            batch_wf(*old(self)),
            old(self).current matches Some(t) && !is_terminal(t.stage) && fits(t.stage, event),
        ensures
            batch_wf(*final(self)),
            final(self).documents == old(self).documents,
            final(self).outcomes == old(self).outcomes,
            final(self).current is Some,
            advances(old(self).current->0, *cfg, event, final(self).current->0, r),
    {
        let mut task = match self.current.take() {
            Some(t) => t,
            None => {
                return StageRequest::Finish;
            },
        };
        let r = task.advance(cfg, event);
        self.current = Some(task);
        r
    }
}

/// Once the run has no next document, every document has ended, done or
/// failed, in the order of the folder.
pub proof fn lemma_run_ends_every_document(b: Batch)
    requires
        batch_wf(b),
        b.outcomes@.len() == b.documents@.len(),
    ensures
        forall|i: int| 0 <= i < b.documents@.len() ==> #[trigger] b.outcomes@[i] == Stage::Done
            || b.outcomes@[i] == Stage::Failed,
{
}

} // verus!
