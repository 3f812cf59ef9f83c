use doc_pipeline::classify::{ClassificationResult, ClassificationResults, Classify, DocumentBounds};
use doc_pipeline::config::{prompt_file, RunSettings};
use doc_pipeline::digitize::{is_document_extension_text, is_document_lowercase_extension, Digitize};
use doc_pipeline::error::{interpret_reply, HttpReply, PipelineError, RemoteCall};
use doc_pipeline::export::CSVWriter;
use doc_pipeline::extract::{Extract, FieldRecord};
use doc_pipeline::text::{bearer_value, same_text};
use doc_pipeline::validate::{find_field, merge_validated_fields, Validate, ValidationTarget};

fn candidate(document_id: &str, document_type_id: &str, confidence: u32) -> ClassificationResult {
    ClassificationResult {
        document_type_id: document_type_id.to_string(),
        document_id: document_id.to_string(),
        confidence,
        document_bounds: DocumentBounds { start_page: 0, page_count: 1, text_start_index: 0, text_length: 0 },
        classifier_name: "ml-classification".to_string(),
    }
}

fn field(name: &str, value: &str, missing: bool) -> FieldRecord {
    FieldRecord {
        field_name: name.to_string(),
        value: value.to_string(),
        ocr_confidence: "0.99".to_string(),
        confidence: "0.75".to_string(),
        is_missing: missing,
    }
}

#[test]
fn endpoint_urls() {
    let d = Digitize::new("https://du.example/api", "p1", "tok");
    assert_eq!(d.start_url(), "https://du.example/api/p1/digitization/start?api-version=1");
    let c = Classify::new("https://du.example/api", "p1", "tok");
    assert_eq!(
        c.classification_url("ml-classification"),
        "https://du.example/api/p1/classifiers/ml-classification/classification?api-version=1"
    );
    let e = Extract::new("https://du.example/api", "p1", "tok");
    assert_eq!(e.extraction_url("invoice"), "https://du.example/api/p1/extractors/invoice/extraction?api-version=1");
    let v = Validate::new("https://du.example/api", "p1", "tok");
    assert_eq!(
        v.start_url(ValidationTarget::Extractors, "invoice"),
        "https://du.example/api/p1/extractors/invoice/validation/start?api-version=1"
    );
    assert_eq!(
        v.result_url(ValidationTarget::Classifiers, "ml-classification", "op1"),
        "https://du.example/api/p1/classifiers/ml-classification/validation/result/op1?api-version=1"
    );
}

#[test]
fn digitize_request_uses_media_type_of_path() {
    let d = Digitize::new("https://b", "p", "SECRET-REDACTED");
    let r = d.request_for("scans/Invoice.pdf");
    assert_eq!(r.content_type, "application/pdf");
    assert_eq!(r.authorization, "Bearer SECRET-REDACTED");
    assert_eq!(r.url, "https://b/p/digitization/start?api-version=1");
    assert_eq!(d.request_for("scans/photo.png").content_type, "image/png");
    assert_eq!(d.request_for("scans/unknown.zzqx").content_type, "application/octet-stream");
}

#[test]
fn bearer_header_value() {
    assert_eq!(bearer_value("abc"), "Bearer abc");
}

#[test]
fn document_extensions() {
    for ext in ["png", "jpe", "jpg", "jpeg", "tiff", "tif", "bmp", "pdf"] {
        assert!(is_document_lowercase_extension(ext));
        assert!(is_document_extension_text(ext));
    }
    assert!(is_document_extension_text("PDF"));
    assert!(is_document_extension_text("JpEg"));
    assert!(!is_document_lowercase_extension("PDF"));
    assert!(!is_document_extension_text("txt"));
    assert!(!is_document_extension_text(""));
}

#[test]
fn most_confident_candidate_wins() {
    let rs = ClassificationResults {
        classification_results: vec![
            candidate("d1", "receipt", 400_000),
            candidate("other", "contract", 990_000),
            candidate("d1", "invoice", 920_000),
            candidate("d1", "letter", 920_000),
        ],
    };
    assert_eq!(rs.predicted_document_type("d1").as_deref(), Some("invoice"));
    assert_eq!(rs.predicted_document_type("other").as_deref(), Some("contract"));
    assert_eq!(rs.predicted_document_type("d9"), None);
    let empty = ClassificationResults { classification_results: vec![] };
    assert_eq!(empty.predicted_document_type("d1"), None);
}

#[test]
fn replies_are_judged_by_status_and_shape() {
    let ok: HttpReply<String> = HttpReply { status: 202, body: "{}".to_string(), parsed: Ok("d1".to_string()) };
    assert!(matches!(interpret_reply(RemoteCall::DigitizeStart, Ok(ok)), Ok(ref v) if v == "d1"));
    let wrong: HttpReply<String> = HttpReply { status: 200, body: "{}".to_string(), parsed: Ok("d1".to_string()) };
    assert!(matches!(
        interpret_reply(RemoteCall::DigitizeStart, Ok(wrong)),
        Err(PipelineError::Remote { status: 200, .. })
    ));
    let server: HttpReply<String> = HttpReply { status: 500, body: "boom".to_string(), parsed: Err("x".to_string()) };
    assert!(matches!(
        interpret_reply(RemoteCall::Classification, Ok(server)),
        Err(PipelineError::Remote { status: 500, ref body }) if body == "boom"
    ));
    let bad: HttpReply<String> = HttpReply { status: 200, body: "<".to_string(), parsed: Err("eof".to_string()) };
    assert!(matches!(interpret_reply(RemoteCall::Extraction, Ok(bad)), Err(PipelineError::Schema(ref m)) if m == "eof"));
    let down: Result<HttpReply<String>, String> = Err("dns".to_string());
    assert!(matches!(interpret_reply(RemoteCall::ValidationResult, down), Err(PipelineError::Transport(_))));
    assert!(RemoteCall::ValidationStart.accepts(201));
    assert!(RemoteCall::ValidationStart.accepts(299));
    assert!(!RemoteCall::ValidationStart.accepts(300));
    assert!(!RemoteCall::ValidationResult.accepts(202));
}

#[test]
fn settings_report_first_missing() {
    let s = |v: &str| Some(v.to_string());
    let all = RunSettings::from_values(s("id"), s("secret"), s("https://auth"), s("https://base"), s("proj"));
    match all {
        Ok(r) => {
            assert_eq!(r.app_id, "id");
            assert_eq!(r.project_id, "proj");
            assert_eq!(r.base_url, "https://base");
        }
        Err(e) => panic!("unexpected error {:?}", e),
    }
    let missing = RunSettings::from_values(s("id"), None, s("a"), None, s("p"));
    assert!(matches!(missing, Err(PipelineError::Config(ref n)) if n == "APP_SECRET"));
    let last = RunSettings::from_values(s("id"), s("x"), s("a"), s("b"), None);
    assert!(matches!(last, Err(PipelineError::Config(ref n)) if n == "PROJECT_ID"));
}

#[test]
fn prompt_files_by_key() {
    assert_eq!(prompt_file("invoice"), "Generative Prompts/invoice_prompts.json");
    assert_eq!(prompt_file("classification"), "Generative Prompts/classification_prompts.json");
}

#[test]
fn validation_action_titles() {
    let a = Validate::action_for(Some("invoice"));
    assert_eq!(a.title, "Validate - invoice");
    assert_eq!(a.priority, "Medium");
    assert_eq!(a.task_catalog_name, "default_du_actions");
    assert_eq!(a.folder_path, "Shared");
    assert_eq!(a.storage_bucket_name, "du_storage_bucket");
    assert_eq!(a.storage_bucket_directory_path, "du_storage_bucket");
    assert_eq!(Validate::action_for(None).title, "Validate - Unknown");
}

#[test]
fn merge_keeps_order_and_appends_validated_only_fields() {
    let raw = vec![field("A", "1", false), field("B", "2", true)];
    let validated = vec![field("C", "9", false), field("B", "3", false), field("B", "4", false)];
    let merged = merge_validated_fields(&raw, &validated);
    let names: Vec<&str> = merged.iter().map(|f| f.field_name.as_str()).collect();
    let values: Vec<&str> = merged.iter().map(|f| f.value.as_str()).collect();
    assert_eq!(names, vec!["A", "B", "C"]);
    assert_eq!(values, vec!["1", "3", "9"]);
    assert!(merged[1].is_missing);
    assert_eq!(find_field(&validated, "B"), Some(1));
    assert_eq!(find_field(&validated, "Z"), None);
    assert!(merge_validated_fields(&vec![], &vec![]).is_empty());
}

#[test]
fn csv_records() {
    let rows = CSVWriter::records(&vec![field("Total", "10.00", false), field("Date", "", true)]);
    assert_eq!(rows.len(), 3);
    assert_eq!(rows[0], vec!["FieldName", "Value", "OcrConfidence", "Confidence", "IsMissing"]);
    assert_eq!(rows[1], vec!["Total", "10.00", "0.99", "0.75", "false"]);
    assert_eq!(rows[2], vec!["Date", "", "0.99", "0.75", "true"]);
    assert_eq!(CSVWriter::output_file_name("scan"), "scan.csv");
}

#[test]
fn text_comparison() {
    assert!(same_text("abc", "abc"));
    assert!(!same_text("abc", "abd"));
    assert!(!same_text("ab", "abc"));
    assert!(same_text("", ""));
}

#[test]
fn table_layout_pads_columns() {
    let rows: Vec<Vec<String>> = vec![
        vec!["FieldName".to_string(), "Value".to_string()],
        vec!["Total".to_string(), "10.00 EUR".to_string()],
        vec!["Date".to_string(), "".to_string()],
    ];
    let lines = CSVWriter::layout(&rows);
    assert_eq!(
        lines,
        vec![
            "FieldName|Value    ".to_string(),
            "-------------------".to_string(),
            "Total    |10.00 EUR".to_string(),
            "Date     |         ".to_string(),
        ]
    );
    assert!(CSVWriter::layout(&vec![]).is_empty());
    let header_only: Vec<Vec<String>> = vec![vec!["A".to_string()]];
    assert_eq!(CSVWriter::layout(&header_only), vec!["A".to_string(), "-".to_string()]);
}
