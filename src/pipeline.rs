//! The per-document stage machine. A driver hands a `DocumentTask` the
//! outcome of each remote stage; the task answers with the next request.

use vstd::prelude::*;
use vstd::string::*;
use crate::classify::{predicted_type, ClassificationResults};
use crate::config::{is_classifier_for, is_extractor_for, PipelineConfig, StageSelector};
use crate::error::PipelineError;
use crate::extract::{ExtractionResults, FieldRecord};
use crate::validate::{
    first_named, lemma_first_named, lemma_validated_values_win, merge_spec, merge_validated_fields,
};

verus! {

/// Where a document is in the pipeline.
#[derive(Clone, Copy, PartialEq, Eq, Structural, Debug)]
pub enum Stage {
    Digitizing,
    Classifying,
    ValidatingClassification,
    Extracting,
    ValidatingExtraction,
    Exporting,
    Done,
    Failed,
}

pub open spec fn is_terminal(s: Stage) -> bool {
    s == Stage::Done || s == Stage::Failed
}

/// The most stages that a document still passes through.
pub open spec fn remaining(s: Stage) -> nat {
    match s {
        Stage::Digitizing => 6,
        Stage::Classifying => 5,
        Stage::ValidatingClassification => 4,
        Stage::Extracting => 3,
        Stage::ValidatingExtraction => 2,
        Stage::Exporting => 1,
        Stage::Done => 0,
        Stage::Failed => 0,
    }
}

/// The stage that follows `s` when its work succeeded (`ok`) or not.
pub open spec fn stage_after(cfg: PipelineConfig, s: Stage, ok: bool) -> Stage {
    match s {
        Stage::Digitizing => if ok { Stage::Classifying } else { Stage::Failed },
        Stage::Classifying => if !ok {
            Stage::Failed
        } else if cfg.validate_classification {
            Stage::ValidatingClassification
        } else {
            Stage::Extracting
        },
        Stage::ValidatingClassification => if ok { Stage::Extracting } else { Stage::Failed },
        Stage::Extracting => if !ok {
            Stage::Failed
        } else if cfg.validate_extraction {
            Stage::ValidatingExtraction
        } else {
            Stage::Exporting
        },
        Stage::ValidatingExtraction => if ok { Stage::Exporting } else { Stage::Failed },
        Stage::Exporting => Stage::Done,
        Stage::Done => Stage::Done,
        Stage::Failed => Stage::Failed,
    }
}

/// The outcome of a stage, as the driver reports it.
#[derive(Debug)]
pub enum StageEvent {
    Digitized(Result<String, PipelineError>),
    Classified(Result<ClassificationResults, PipelineError>),
    ClassificationValidated(Result<String, PipelineError>),
    Extracted(Result<ExtractionResults, PipelineError>),
    ExtractionValidated(Result<Vec<FieldRecord>, PipelineError>),
    /// Whether the results could be written; a failed export is only logged.
    Exported(Result<(), String>),
}

/// The work that the driver is to do next for the document.
#[derive(Debug)]
pub enum StageRequest {
    Digitize { source_path: String },
    Classify { document_id: String, classifier: StageSelector },
    ValidateClassification { document_id: String, document_type_id: String },
    Extract { document_id: String, extractor: StageSelector },
    ValidateExtraction { document_id: String, document_type_id: String },
    Export { source_path: String, fields: Vec<FieldRecord> },
    /// The document is done.
    Finish,
    /// The document is given up for this reason; the run goes on.
    Abandon(PipelineError),
}

/// One document on its way through the pipeline.
#[derive(Debug)]
pub struct DocumentTask {
    pub source_path: String,
    pub stage: Stage,
    /// Bound by digitization; the key of every later stage.
    pub document_id: Option<String>,
    /// The predicted type, replaced by the validated one where validation runs.
    pub document_type_id: Option<String>,
    /// The extracted fields, kept while their validation runs.
    pub extracted: Option<Vec<FieldRecord>>,
}

/// The event reports the outcome of the stage `s`.
pub open spec fn fits(s: Stage, e: StageEvent) -> bool {
    match e {
        StageEvent::Digitized(_) => s == Stage::Digitizing,
        StageEvent::Classified(_) => s == Stage::Classifying,
        StageEvent::ClassificationValidated(_) => s == Stage::ValidatingClassification,
        StageEvent::Extracted(_) => s == Stage::Extracting,
        StageEvent::ExtractionValidated(_) => s == Stage::ValidatingExtraction,
        StageEvent::Exported(_) => s == Stage::Exporting,
    }
}

pub open spec fn doc_of(t: DocumentTask) -> Seq<char> {
    t.document_id->0@
}

pub open spec fn type_of(t: DocumentTask) -> Seq<char> {
    t.document_type_id->0@
}

/// Whether the stage's work succeeded, so that the document may go on: a
/// digitization must bind a non-empty id, and a classification must predict
/// a type for the document.
pub open spec fn event_ok(t: DocumentTask, e: StageEvent) -> bool {
    match e {
        StageEvent::Digitized(Ok(id)) => id@.len() > 0,
        StageEvent::Classified(Ok(rs)) => predicted_type(rs.classification_results@, doc_of(t)) is Some,
        StageEvent::ClassificationValidated(Ok(_)) => true,
        StageEvent::Extracted(Ok(_)) => true,
        StageEvent::ExtractionValidated(Ok(_)) => true,
        StageEvent::Exported(_) => true,
        _ => false,
    }
}

/// What a task holds in each stage.
pub open spec fn task_wf(t: DocumentTask) -> bool {
    match t.stage {
        Stage::Digitizing => t.document_id is None,
        Stage::Classifying => t.document_id is Some,
        Stage::ValidatingClassification => t.document_id is Some && t.document_type_id is Some,
        Stage::Extracting => t.document_id is Some && t.document_type_id is Some,
        Stage::ValidatingExtraction => t.document_id is Some && t.document_type_id is Some
            && t.extracted is Some,
        _ => true,
    }
}

/// The request that a task issues in its stage.
pub open spec fn requests(t: DocumentTask, cfg: PipelineConfig, r: StageRequest) -> bool {
    match t.stage {
        Stage::Digitizing => r matches StageRequest::Digitize { source_path } && source_path@
            == t.source_path@,
        Stage::Classifying => r matches StageRequest::Classify { document_id, classifier }
            && document_id@ == doc_of(t) && is_classifier_for(cfg, classifier),
        Stage::ValidatingClassification => r matches StageRequest::ValidateClassification {
            document_id,
            document_type_id,
        } && document_id@ == doc_of(t) && document_type_id@ == type_of(t),
        Stage::Extracting => r matches StageRequest::Extract { document_id, extractor }
            && document_id@ == doc_of(t) && is_extractor_for(cfg, extractor, type_of(t)),
        Stage::ValidatingExtraction => r matches StageRequest::ValidateExtraction {
            document_id,
            document_type_id,
        } && document_id@ == doc_of(t) && document_type_id@ == type_of(t),
        Stage::Exporting => r matches StageRequest::Export { source_path, .. } && source_path@
            == t.source_path@,
        Stage::Done => r is Finish,
        Stage::Failed => r is Abandon,
    }
}

/// What the stage's outcome leaves in the task and puts in the request.
pub open spec fn carries(t: DocumentTask, e: StageEvent, t2: DocumentTask, r: StageRequest) -> bool {
    match e {
        StageEvent::Digitized(Ok(id)) => if id@.len() > 0 {
            t2.document_id == Some(id)
        } else {
            r matches StageRequest::Abandon(PipelineError::Schema(_))
        },
        StageEvent::Classified(Ok(rs)) => if event_ok(t, e) {
            &&& t2.document_id == t.document_id
            &&& t2.document_type_id is Some
            &&& predicted_type(rs.classification_results@, doc_of(t)) == Some(type_of(t2))
        } else {
            r matches StageRequest::Abandon(PipelineError::Schema(_))
        },
        StageEvent::ClassificationValidated(Ok(v)) => t2.document_id == t.document_id
            && t2.document_type_id == Some(v),
        StageEvent::Extracted(Ok(x)) => {
            &&& t2.document_id == t.document_id
            &&& t2.document_type_id == t.document_type_id
            &&& t2.stage == Stage::ValidatingExtraction ==> t2.extracted->0@ == x.fields@
            &&& r is Export ==> r->Export_fields@ == x.fields@
        },
        StageEvent::ExtractionValidated(Ok(v)) => r is Export ==> r->Export_fields@ == merge_spec(
            t.extracted->0@,
            v@,
        ),
        StageEvent::Exported(_) => true,
        StageEvent::Digitized(Err(err)) => r == StageRequest::Abandon(err),
        StageEvent::Classified(Err(err)) => r == StageRequest::Abandon(err),
        StageEvent::ClassificationValidated(Err(err)) => r == StageRequest::Abandon(err),
        StageEvent::Extracted(Err(err)) => r == StageRequest::Abandon(err),
        StageEvent::ExtractionValidated(Err(err)) => r == StageRequest::Abandon(err),
    }
}

/// One step of the stage machine: from task `t`, with the run's flags and
/// the outcome `e` of its stage, to task `t2` and request `r`.
pub open spec fn advances(
    t: DocumentTask,
    cfg: PipelineConfig,
    e: StageEvent,
    t2: DocumentTask,
    r: StageRequest,
) -> bool {
    &&& t2.stage == stage_after(cfg, t.stage, event_ok(t, e))
    &&& t2.source_path == t.source_path
    &&& t.document_id is Some ==> t2.document_id == t.document_id
    &&& task_wf(t2)
    &&& requests(t2, cfg, r)
    &&& carries(t, e, t2, r)
}

impl Stage {
    pub fn is_terminal(&self) -> (r: bool)
        ensures
            r == is_terminal(*self),
    {
        *self == Stage::Done || *self == Stage::Failed
    }
}

impl DocumentTask {
    /// A task for the file at `source_path`, and its first request.
    pub fn start(source_path: &str, cfg: &PipelineConfig) -> (r: (DocumentTask, StageRequest))
        ensures
            r.0.stage == Stage::Digitizing,
            r.0.source_path@ == source_path@,
            r.0.document_id is None,
            task_wf(r.0),
            requests(r.0, *cfg, r.1),
    {
        let task = DocumentTask {
            source_path: String::from_str(source_path),
            stage: Stage::Digitizing,
            document_id: None,
            document_type_id: None,
            extracted: None,
        };
        let req = StageRequest::Digitize { source_path: String::from_str(source_path) };
        (task, req)
    }

    /// Whether `event` is the outcome that the task waits for.
    pub fn accepts(&self, event: &StageEvent) -> (r: bool)
        ensures
            r == (!is_terminal(self.stage) && fits(self.stage, *event)),
    {
        match event {
            StageEvent::Digitized(_) => self.stage == Stage::Digitizing,
            StageEvent::Classified(_) => self.stage == Stage::Classifying,
            StageEvent::ClassificationValidated(_) => self.stage == Stage::ValidatingClassification,
            StageEvent::Extracted(_) => self.stage == Stage::Extracting,
            StageEvent::ExtractionValidated(_) => self.stage == Stage::ValidatingExtraction,
            StageEvent::Exported(_) => self.stage == Stage::Exporting,
        }
    }

    fn document_id_text(&self) -> (r: String)
        requires
            self.document_id is Some,
        ensures
            r == self.document_id->0,
    {
        match &self.document_id {
            Some(d) => d.clone(),
            None => String::new(),
        }
    }

    fn document_type_text(&self) -> (r: String)
        requires
            self.document_type_id is Some,
        ensures
            r == self.document_type_id->0,
    {
        match &self.document_type_id {
            Some(d) => d.clone(),
            None => String::new(),
        }
    }

    fn fail(&mut self, err: PipelineError) -> (r: StageRequest)
        ensures
            final(self).stage == Stage::Failed,
            final(self).source_path == old(self).source_path,
            final(self).document_id == old(self).document_id,
            final(self).document_type_id == old(self).document_type_id,
            r == StageRequest::Abandon(err),
    {
        self.stage = Stage::Failed;
        StageRequest::Abandon(err)
    }

    /// Takes in the outcome of the current stage and returns what to do next.
    pub fn advance(&mut self, cfg: &PipelineConfig, event: StageEvent) -> (r: StageRequest)
        requires
            task_wf(*old(self)),
            !is_terminal(old(self).stage),
            fits(old(self).stage, event),
        ensures
            advances(*old(self), *cfg, event, *final(self), r),
    {
        match event {
            StageEvent::Digitized(Err(e)) => self.fail(e),
            StageEvent::Digitized(Ok(id)) => {
                if id.as_str().unicode_len() == 0 {
                    return self.fail(PipelineError::Schema(String::from_str("empty document id")));
                }
                self.document_id = Some(id.clone());
                self.stage = Stage::Classifying;
                StageRequest::Classify { document_id: id, classifier: cfg.classifier() }
            },
            StageEvent::Classified(Err(e)) => self.fail(e),
            StageEvent::Classified(Ok(rs)) => {
                let doc = self.document_id_text();
                match rs.predicted_document_type(doc.as_str()) {
                    None => self.fail(
                        PipelineError::Schema(
                            String::from_str("document id not found in classification results"),
                        ),
                    ),
                    Some(t) => {
                        self.document_type_id = Some(t.clone());
                        if cfg.validate_classification {
                            self.stage = Stage::ValidatingClassification;
                            StageRequest::ValidateClassification { document_id: doc, document_type_id: t }
                        } else {
                            self.stage = Stage::Extracting;
                            let extractor = cfg.extractor(t.as_str());
                            StageRequest::Extract { document_id: doc, extractor }
                        }
                    },
                }
            },
            StageEvent::ClassificationValidated(Err(e)) => self.fail(e),
            StageEvent::ClassificationValidated(Ok(v)) => {
                let doc = self.document_id_text();
                let extractor = cfg.extractor(v.as_str());
                self.document_type_id = Some(v);
                self.stage = Stage::Extracting;
                StageRequest::Extract { document_id: doc, extractor }
            },
            StageEvent::Extracted(Err(e)) => self.fail(e),
            StageEvent::Extracted(Ok(x)) => {
                if cfg.validate_extraction {
                    let doc = self.document_id_text();
                    let t = self.document_type_text();
                    self.extracted = Some(x.fields);
                    self.stage = Stage::ValidatingExtraction;
                    StageRequest::ValidateExtraction { document_id: doc, document_type_id: t }
                } else {
                    self.stage = Stage::Exporting;
                    StageRequest::Export { source_path: self.source_path.clone(), fields: x.fields }
                }
            },
            StageEvent::ExtractionValidated(Err(e)) => self.fail(e),
            StageEvent::ExtractionValidated(Ok(v)) => {
                let fields = match &self.extracted {
                    Some(raw) => merge_validated_fields(raw, &v),
                    None => Vec::new(),
                };
                self.stage = Stage::Exporting;
                StageRequest::Export { source_path: self.source_path.clone(), fields }
            },
            StageEvent::Exported(_) => {
                self.stage = Stage::Done;
                StageRequest::Finish
            },
        }
    }
}

/// The stage that a document reaches from `s` when the outcomes of its
/// stages succeed or fail as `oks` says, one outcome per stage.
pub open spec fn stage_run(cfg: PipelineConfig, s: Stage, oks: Seq<bool>) -> Stage
    decreases oks.len(),
{
    if oks.len() == 0 || is_terminal(s) {
        s
    } else {
        stage_run(cfg, stage_after(cfg, s, oks[0]), oks.drop_first())
    }
}

/// Every document ends either done or failed, after at most six stage
/// outcomes whatever they are, and an end is never left again.
pub proof fn lemma_every_document_ends(cfg: PipelineConfig, s: Stage, oks: Seq<bool>)
    requires
        oks.len() >= remaining(s),
    ensures
        remaining(s) <= 6,
        is_terminal(stage_run(cfg, s, oks)),
        forall|ok: bool| is_terminal(s) ==> #[trigger] stage_after(cfg, s, ok) == s,
    decreases oks.len(),
{
    if oks.len() > 0 && !is_terminal(s) {
        let next = stage_after(cfg, s, oks[0]);
        assert(is_terminal(next) || remaining(next) < remaining(s));
        lemma_every_document_ends(cfg, next, oks.drop_first());
    }
}

/// A task stops being driven only at an end: it asks to finish exactly when
/// it is done, and to be abandoned exactly when it failed.
pub proof fn lemma_stops_only_at_ends(t: DocumentTask, cfg: PipelineConfig, r: StageRequest)
    requires
        requests(t, cfg, r),
    ensures
        r is Finish <==> t.stage == Stage::Done,
        r is Abandon <==> t.stage == Stage::Failed,
{
}

/// Without classification validation, the extractor is the one for the
/// document type that the classifier predicts with the highest confidence.
pub proof fn lemma_extractor_follows_prediction(
    t: DocumentTask,
    cfg: PipelineConfig,
    rs: ClassificationResults,
    t2: DocumentTask,
    r: StageRequest,
)
    requires
        t.stage == Stage::Classifying,
        task_wf(t),
        !cfg.validate_classification,
        predicted_type(rs.classification_results@, doc_of(t)) is Some,
        advances(t, cfg, StageEvent::Classified(Ok(rs)), t2, r),
    ensures
        r matches StageRequest::Extract { extractor, .. } && is_extractor_for(
            cfg,
            extractor,
            predicted_type(rs.classification_results@, doc_of(t))->0,
        ),
{
}

/// With classification validation, the predicted type is sent to validation,
/// and the extractor is the one for the type that validation returns.
pub proof fn lemma_extractor_follows_validation(
    t: DocumentTask,
    cfg: PipelineConfig,
    rs: ClassificationResults,
    t1: DocumentTask,
    r1: StageRequest,
    validated: String,
    t2: DocumentTask,
    r2: StageRequest,
)
    requires
        t.stage == Stage::Classifying,
        task_wf(t),
        cfg.validate_classification,
        predicted_type(rs.classification_results@, doc_of(t)) is Some,
        advances(t, cfg, StageEvent::Classified(Ok(rs)), t1, r1),
        advances(t1, cfg, StageEvent::ClassificationValidated(Ok(validated)), t2, r2),
    ensures
        r1 matches StageRequest::ValidateClassification { document_type_id, .. }
            && document_type_id@ == predicted_type(rs.classification_results@, doc_of(t))->0,
        r2 matches StageRequest::Extract { extractor, .. } && is_extractor_for(cfg, extractor, validated@),
{
}

/// With extraction validation, the export holds every extracted field in
/// order; a field that validation returned takes the validated value, and a
/// field that it did not return keeps the extracted one.
pub proof fn lemma_export_prefers_validated(
    t: DocumentTask,
    cfg: PipelineConfig,
    x: ExtractionResults,
    t1: DocumentTask,
    r1: StageRequest,
    validated: Vec<FieldRecord>,
    t2: DocumentTask,
    r2: StageRequest,
)
    requires
        t.stage == Stage::Extracting,
        task_wf(t),
        cfg.validate_extraction,
        advances(t, cfg, StageEvent::Extracted(Ok(x)), t1, r1),
        advances(t1, cfg, StageEvent::ExtractionValidated(Ok(validated)), t2, r2),
    ensures
        r2 matches StageRequest::Export { fields, .. } && fields@ == merge_spec(x.fields@, validated@),
        forall|i: int|
            #![trigger merge_spec(x.fields@, validated@)[i]]
            0 <= i < x.fields@.len() ==> {
                &&& merge_spec(x.fields@, validated@)[i].field_name == x.fields@[i].field_name
                &&& first_named(validated@, x.fields@[i].field_name@) matches Some(j)
                    ==> merge_spec(x.fields@, validated@)[i].value == validated@[j].value
                &&& first_named(validated@, x.fields@[i].field_name@) is None
                    ==> merge_spec(x.fields@, validated@)[i] == x.fields@[i]
            },
{
    assert forall|i: int| 0 <= i < x.fields@.len() implies {
        &&& merge_spec(x.fields@, validated@)[i].field_name == x.fields@[i].field_name
        &&& first_named(validated@, x.fields@[i].field_name@) matches Some(j)
            ==> merge_spec(x.fields@, validated@)[i].value == validated@[j].value
        &&& first_named(validated@, x.fields@[i].field_name@) is None
            ==> merge_spec(x.fields@, validated@)[i] == x.fields@[i]
    } by {
        lemma_validated_values_win(x.fields@, validated@, i);
        lemma_first_named(validated@, x.fields@[i].field_name@);
    }
}

/// The stages from `s` on, before the export, that the flags require.
pub open spec fn required_from(cfg: PipelineConfig, s: Stage) -> nat {
    let vc: nat = if cfg.validate_classification {
        1
    } else {
        0
    };
    let ve: nat = if cfg.validate_extraction {
        1
    } else {
        0
    };
    match s {
        Stage::Digitizing => 3 + vc + ve,
        Stage::Classifying => 2 + vc + ve,
        Stage::ValidatingClassification => 2 + ve,
        Stage::Extracting => 1 + ve,
        Stage::ValidatingExtraction => 1,
        _ => 0,
    }
}

/// A document ends done exactly when every stage that the flags require
/// succeeded, whatever the export's outcome, and failed exactly when one of
/// them did not.
pub proof fn lemma_done_iff_required_stages_succeed(cfg: PipelineConfig, s: Stage, oks: Seq<bool>)
    requires
        !is_terminal(s),
        oks.len() > required_from(cfg, s),
    ensures
        stage_run(cfg, s, oks) == Stage::Done <==> forall|i: int|
            0 <= i < required_from(cfg, s) ==> #[trigger] oks[i],
        stage_run(cfg, s, oks) == Stage::Failed <==> exists|i: int|
            0 <= i < required_from(cfg, s) && !#[trigger] oks[i],
    decreases oks.len(),
{
    let next = stage_after(cfg, s, oks[0]);
    let rest = oks.drop_first();
    assert(stage_run(cfg, s, oks) == stage_run(cfg, next, rest));
    if s == Stage::Exporting {
        assert(stage_run(cfg, next, rest) == Stage::Done);
    } else if !oks[0] {
        assert(next == Stage::Failed);
        assert(stage_run(cfg, next, rest) == Stage::Failed);
    } else {
        assert(!is_terminal(next) && required_from(cfg, next) + 1 == required_from(cfg, s));
        lemma_done_iff_required_stages_succeed(cfg, next, rest);
        let r = required_from(cfg, next);
        assert((forall|i: int| 0 <= i < r + 1 ==> #[trigger] oks[i]) <==> (forall|i: int|
            0 <= i < r ==> #[trigger] rest[i])) by {
            if forall|i: int| 0 <= i < r ==> #[trigger] rest[i] {
                assert forall|i: int| 0 <= i < r + 1 implies #[trigger] oks[i] by {
                    if i > 0 {
                        assert(oks[i] == rest[i - 1]);
                    }
                }
            }
            if forall|i: int| 0 <= i < r + 1 ==> #[trigger] oks[i] {
                assert forall|i: int| 0 <= i < r implies #[trigger] rest[i] by {
                    assert(rest[i] == oks[i + 1]);
                }
            }
        }
        assert((exists|i: int| 0 <= i < r + 1 && !#[trigger] oks[i]) <==> (exists|i: int|
            0 <= i < r && !#[trigger] rest[i])) by {
            if exists|i: int| 0 <= i < r && !#[trigger] rest[i] {
                let i = choose|i: int| 0 <= i < r && !#[trigger] rest[i];
                assert(oks[i + 1] == rest[i]);
            }
            if exists|i: int| 0 <= i < r + 1 && !#[trigger] oks[i] {
                let i = choose|i: int| 0 <= i < r + 1 && !#[trigger] oks[i];
                assert(i > 0);
                assert(rest[i - 1] == oks[i]);
            }
        }
    }
}

} // verus!
