use doc_pipeline::batch::Batch;
use doc_pipeline::classify::{ClassificationResult, ClassificationResults, DocumentBounds};
use doc_pipeline::config::PipelineConfig;
use doc_pipeline::error::PipelineError;
use doc_pipeline::extract::ExtractionResults;
use doc_pipeline::pipeline::{Stage, StageEvent, StageRequest};

fn plain() -> PipelineConfig {
    PipelineConfig {
        validate_classification: false,
        validate_extraction: false,
        generative_classification: false,
        generative_extraction: false,
    }
}

fn results(document_id: &str) -> ClassificationResults {
    ClassificationResults {
        classification_results: vec![ClassificationResult {
            document_type_id: "invoice".to_string(),
            document_id: document_id.to_string(),
            confidence: 920_000,
            document_bounds: DocumentBounds { start_page: 0, page_count: 1, text_start_index: 0, text_length: 0 },
            classifier_name: "ml-classification".to_string(),
        }],
    }
}

#[test]
fn failed_document_does_not_stop_the_next() {
    let cfg = plain();
    let mut batch = Batch::new(vec!["in/a.pdf".to_string(), "in/b.pdf".to_string()]);
    let first = batch.next_document(&cfg);
    assert!(matches!(first, Some(StageRequest::Digitize { ref source_path }) if source_path == "in/a.pdf"));
    assert!(!batch.between_documents());
    batch.advance(&cfg, StageEvent::Digitized(Ok("d1".to_string())));
    let failure = PipelineError::Remote { status: 500, body: "error".to_string() };
    let req = batch.advance(&cfg, StageEvent::Classified(Err(failure)));
    assert!(matches!(req, StageRequest::Abandon(PipelineError::Remote { status: 500, .. })));
    assert!(!batch.accepts(&StageEvent::Extracted(Ok(ExtractionResults {
        document_id: "d1".to_string(),
        fields: vec![],
    }))));
    assert!(batch.between_documents());

    let second = batch.next_document(&cfg);
    assert!(matches!(second, Some(StageRequest::Digitize { ref source_path }) if source_path == "in/b.pdf"));
    assert_eq!(batch.outcomes, vec![Stage::Failed]);
    batch.advance(&cfg, StageEvent::Digitized(Ok("d2".to_string())));
    assert!(matches!(batch.advance(&cfg, StageEvent::Classified(Ok(results("d2")))), StageRequest::Extract { .. }));
    let extraction = ExtractionResults { document_id: "d2".to_string(), fields: vec![] };
    assert!(matches!(batch.advance(&cfg, StageEvent::Extracted(Ok(extraction))), StageRequest::Export { .. }));
    assert!(matches!(batch.advance(&cfg, StageEvent::Exported(Ok(()))), StageRequest::Finish));

    assert!(batch.next_document(&cfg).is_none());
    assert_eq!(batch.outcomes, vec![Stage::Failed, Stage::Done]);
    assert!(batch.current.is_none());
}

#[test]
fn empty_run_has_nothing_to_do() {
    let mut batch = Batch::new(vec![]);
    assert!(batch.next_document(&plain()).is_none());
    assert!(batch.outcomes.is_empty());
}
