use doc_pipeline::classify::{ClassificationResult, ClassificationResults, DocumentBounds};
use doc_pipeline::config::{PipelineConfig, StageSelector};
use doc_pipeline::error::PipelineError;
use doc_pipeline::extract::{ExtractionResults, FieldRecord};
use doc_pipeline::pipeline::{DocumentTask, Stage, StageEvent, StageRequest};

fn config(validate_classification: bool, validate_extraction: bool) -> PipelineConfig {
    PipelineConfig {
        validate_classification,
        validate_extraction,
        generative_classification: false,
        generative_extraction: false,
    }
}

fn candidate(document_id: &str, document_type_id: &str, confidence: u32) -> ClassificationResult {
    ClassificationResult {
        document_type_id: document_type_id.to_string(),
        document_id: document_id.to_string(),
        confidence,
        document_bounds: DocumentBounds { start_page: 0, page_count: 1, text_start_index: 0, text_length: 10 },
        classifier_name: "ml-classification".to_string(),
    }
}

fn field(name: &str, value: &str) -> FieldRecord {
    FieldRecord {
        field_name: name.to_string(),
        value: value.to_string(),
        ocr_confidence: "0.9".to_string(),
        confidence: "0.8".to_string(),
        is_missing: false,
    }
}

fn digitized(cfg: &PipelineConfig, path: &str, id: &str) -> (DocumentTask, StageRequest) {
    let (mut task, first) = DocumentTask::start(path, cfg);
    assert!(matches!(first, StageRequest::Digitize { ref source_path } if source_path == path));
    let req = task.advance(cfg, StageEvent::Digitized(Ok(id.to_string())));
    (task, req)
}

#[test]
fn prediction_selects_extractor_without_validation() {
    let cfg = config(false, false);
    let (mut task, req) = digitized(&cfg, "in/invoice.pdf", "d1");
    match &req {
        StageRequest::Classify { document_id, classifier } => {
            assert_eq!(document_id, "d1");
            assert!(matches!(classifier, StageSelector::Default { id } if id == "ml-classification"));
        }
        other => panic!("unexpected request {:?}", other),
    }
    let results = ClassificationResults { classification_results: vec![candidate("d1", "invoice", 920_000)] };
    let req = task.advance(&cfg, StageEvent::Classified(Ok(results)));
    match req {
        StageRequest::Extract { document_id, extractor } => {
            assert_eq!(document_id, "d1");
            assert!(matches!(extractor, StageSelector::Default { ref id } if id == "invoice"));
        }
        other => panic!("unexpected request {:?}", other),
    }
    assert_eq!(task.stage, Stage::Extracting);
}

#[test]
fn validated_type_replaces_prediction() {
    let cfg = config(true, false);
    let (mut task, _) = digitized(&cfg, "in/a.png", "d7");
    let results = ClassificationResults { classification_results: vec![candidate("d7", "invoice", 610_000)] };
    let req = task.advance(&cfg, StageEvent::Classified(Ok(results)));
    match req {
        StageRequest::ValidateClassification { document_id, document_type_id } => {
            assert_eq!(document_id, "d7");
            assert_eq!(document_type_id, "invoice");
        }
        other => panic!("unexpected request {:?}", other),
    }
    let req = task.advance(&cfg, StageEvent::ClassificationValidated(Ok("receipt".to_string())));
    assert!(matches!(req, StageRequest::Extract { ref extractor, .. }
        if matches!(extractor, StageSelector::Default { id } if id == "receipt")));
    assert_eq!(task.document_type_id.as_deref(), Some("receipt"));
}

#[test]
fn generative_variants_carry_prompt_keys() {
    let cfg = PipelineConfig {
        validate_classification: false,
        validate_extraction: false,
        generative_classification: true,
        generative_extraction: true,
    };
    let (mut task, req) = digitized(&cfg, "in/x.jpg", "d2");
    match req {
        StageRequest::Classify { classifier: StageSelector::Generative { id, prompt_key }, .. } => {
            assert_eq!(id, "generative_classifier");
            assert_eq!(prompt_key, "classification");
        }
        other => panic!("unexpected request {:?}", other),
    }
    let results = ClassificationResults { classification_results: vec![candidate("d2", "invoice", 500_000)] };
    match task.advance(&cfg, StageEvent::Classified(Ok(results))) {
        StageRequest::Extract { extractor: StageSelector::Generative { id, prompt_key }, .. } => {
            assert_eq!(id, "generative_extractor");
            assert_eq!(prompt_key, "invoice");
        }
        other => panic!("unexpected request {:?}", other),
    }
}

#[test]
fn classify_failure_abandons_only_that_document() {
    let cfg = config(false, false);
    let (mut task, _) = digitized(&cfg, "in/first.pdf", "d1");
    let failure = PipelineError::Remote { status: 500, body: "server error".to_string() };
    let req = task.advance(&cfg, StageEvent::Classified(Err(failure)));
    assert!(matches!(req, StageRequest::Abandon(PipelineError::Remote { status: 500, .. })));
    assert_eq!(task.stage, Stage::Failed);
    assert!(!task.accepts(&StageEvent::Extracted(Ok(ExtractionResults {
        document_id: "d1".to_string(),
        fields: vec![],
    }))));
    assert!(!task.accepts(&StageEvent::Exported(Ok(()))));

    let (mut next, req) = digitized(&cfg, "in/second.pdf", "d2");
    assert!(matches!(req, StageRequest::Classify { .. }));
    let results = ClassificationResults { classification_results: vec![candidate("d2", "invoice", 900_000)] };
    assert!(matches!(next.advance(&cfg, StageEvent::Classified(Ok(results))), StageRequest::Extract { .. }));
}

#[test]
fn full_run_ends_done() {
    let cfg = config(false, false);
    let (mut task, _) = digitized(&cfg, "in/full.pdf", "d3");
    let results = ClassificationResults { classification_results: vec![candidate("d3", "invoice", 900_000)] };
    task.advance(&cfg, StageEvent::Classified(Ok(results)));
    let extraction = ExtractionResults { document_id: "d3".to_string(), fields: vec![field("Total", "10.00")] };
    let req = task.advance(&cfg, StageEvent::Extracted(Ok(extraction)));
    match req {
        StageRequest::Export { source_path, fields } => {
            assert_eq!(source_path, "in/full.pdf");
            assert_eq!(fields.len(), 1);
            assert_eq!(fields[0].value, "10.00");
        }
        other => panic!("unexpected request {:?}", other),
    }
    assert!(matches!(task.advance(&cfg, StageEvent::Exported(Ok(()))), StageRequest::Finish));
    assert_eq!(task.stage, Stage::Done);
    assert!(task.stage.is_terminal());
}

#[test]
fn failed_export_still_finishes() {
    let cfg = config(false, false);
    let (mut task, _) = digitized(&cfg, "in/e.pdf", "d4");
    let results = ClassificationResults { classification_results: vec![candidate("d4", "invoice", 900_000)] };
    task.advance(&cfg, StageEvent::Classified(Ok(results)));
    let extraction = ExtractionResults { document_id: "d4".to_string(), fields: vec![] };
    task.advance(&cfg, StageEvent::Extracted(Ok(extraction)));
    let req = task.advance(&cfg, StageEvent::Exported(Err("disk full".to_string())));
    assert!(matches!(req, StageRequest::Finish));
    assert_eq!(task.stage, Stage::Done);
}

#[test]
fn empty_document_id_fails() {
    let cfg = config(false, false);
    let (task, req) = digitized(&cfg, "in/e.pdf", "");
    assert!(matches!(req, StageRequest::Abandon(PipelineError::Schema(_))));
    assert_eq!(task.stage, Stage::Failed);
}

#[test]
fn unmatched_classification_fails() {
    let cfg = config(false, false);
    let (mut task, _) = digitized(&cfg, "in/u.pdf", "d5");
    let results = ClassificationResults { classification_results: vec![candidate("other", "invoice", 900_000)] };
    let req = task.advance(&cfg, StageEvent::Classified(Ok(results)));
    assert!(matches!(req, StageRequest::Abandon(PipelineError::Schema(_))));
    assert_eq!(task.stage, Stage::Failed);
}

#[test]
fn validated_fields_overwrite_extracted_ones() {
    let cfg = config(false, true);
    let (mut task, _) = digitized(&cfg, "in/v.pdf", "d6");
    let results = ClassificationResults { classification_results: vec![candidate("d6", "invoice", 900_000)] };
    task.advance(&cfg, StageEvent::Classified(Ok(results)));
    let extraction = ExtractionResults {
        document_id: "d6".to_string(),
        fields: vec![field("Total", "10.00"), field("Vendor", "ACME"), field("Date", "2024-01-01")],
    };
    let req = task.advance(&cfg, StageEvent::Extracted(Ok(extraction)));
    match req {
        StageRequest::ValidateExtraction { document_id, document_type_id } => {
            assert_eq!(document_id, "d6");
            assert_eq!(document_type_id, "invoice");
        }
        other => panic!("unexpected request {:?}", other),
    }
    let validated = vec![field("Total", "12.50"), field("Currency", "EUR")];
    match task.advance(&cfg, StageEvent::ExtractionValidated(Ok(validated))) {
        StageRequest::Export { fields, .. } => {
            let pairs: Vec<(&str, &str)> =
                fields.iter().map(|f| (f.field_name.as_str(), f.value.as_str())).collect();
            assert_eq!(
                pairs,
                vec![("Total", "12.50"), ("Vendor", "ACME"), ("Date", "2024-01-01"), ("Currency", "EUR")]
            );
        }
        other => panic!("unexpected request {:?}", other),
    }
}

#[test]
fn extraction_validation_failure_exports_nothing() {
    let cfg = config(false, true);
    let (mut task, _) = digitized(&cfg, "in/w.pdf", "d8");
    let results = ClassificationResults { classification_results: vec![candidate("d8", "invoice", 900_000)] };
    task.advance(&cfg, StageEvent::Classified(Ok(results)));
    let extraction = ExtractionResults { document_id: "d8".to_string(), fields: vec![field("Total", "1")] };
    task.advance(&cfg, StageEvent::Extracted(Ok(extraction)));
    let req = task.advance(&cfg, StageEvent::ExtractionValidated(Err(PipelineError::PollTimeout { attempts: 3 })));
    assert!(matches!(req, StageRequest::Abandon(PipelineError::PollTimeout { attempts: 3 })));
    assert_eq!(task.stage, Stage::Failed);
}

#[test]
fn events_must_fit_the_stage() {
    let cfg = config(false, false);
    let (task, _) = DocumentTask::start("in/a.pdf", &cfg);
    assert!(task.accepts(&StageEvent::Digitized(Ok("d".to_string()))));
    assert!(!task.accepts(&StageEvent::Exported(Ok(()))));
}
