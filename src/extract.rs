//! The extraction stage: its client and the field records it yields.

use vstd::prelude::*;
use vstd::string::*;
use crate::text::{service_url, service_url_spec};

verus! {

/// Client of the extraction endpoint.
#[derive(Debug)]
pub struct Extract {
    pub base_url: String,
    pub project_id: String,
    pub bearer_token: String,
}

/// One extracted field as it is exported: its name, its first value, and
/// the two confidences as the service wrote them.
#[derive(Debug)]
pub struct FieldRecord {
    pub field_name: String,
    pub value: String,
    pub ocr_confidence: String,
    pub confidence: String,
    pub is_missing: bool,
}

/// What an extraction returned for a document.
#[derive(Debug)]
pub struct ExtractionResults {
    pub document_id: String,
    pub fields: Vec<FieldRecord>,
}

impl FieldRecord {
    pub fn duplicate(&self) -> (r: FieldRecord)
        ensures
            r == *self,
    {
        FieldRecord {
            field_name: self.field_name.clone(),
            value: self.value.clone(),
            ocr_confidence: self.ocr_confidence.clone(),
            confidence: self.confidence.clone(),
            is_missing: self.is_missing,
        }
    }
}

impl Extract {
    pub fn new(base_url: &str, project_id: &str, bearer_token: &str) -> (r: Extract)
        ensures
            r.base_url@ == base_url@,
            r.project_id@ == project_id@,
            r.bearer_token@ == bearer_token@,
    {
        Extract {
            base_url: String::from_str(base_url),
            project_id: String::from_str(project_id),
            bearer_token: String::from_str(bearer_token),
        }
    }

    /// The endpoint that extracts with the given extractor.
    pub fn extraction_url(&self, extractor: &str) -> (r: String)
        ensures
            r@ == service_url_spec(
                self.base_url@,
                self.project_id@,
                "extractors/"@ + extractor@ + "/extraction"@,
            ),
    {
        let path = String::from_str("extractors/").concat(extractor).concat("/extraction");
        service_url(self.base_url.as_str(), self.project_id.as_str(), path.as_str())
    }
}

} // verus!
