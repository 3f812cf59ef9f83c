//! The classification stage: its client, the candidates it returns, and the
//! choice of the document type that the rest of the pipeline follows.

use vstd::prelude::*;
use vstd::string::*;
use crate::text::{same_text, service_url, service_url_spec};

verus! {

/// Client of the classification endpoint.
#[derive(Debug)]
pub struct Classify {
    pub base_url: String,
    pub project_id: String,
    pub bearer_token: String,
}

/// Where a classified document lies in the digitized text.
#[derive(Clone, Copy, PartialEq, Eq, Structural, Debug)]
pub struct DocumentBounds {
    pub start_page: usize,
    pub page_count: usize,
    pub text_start_index: usize,
    pub text_length: usize,
}

/// One candidate of the classifier; `confidence` is in millionths.
#[derive(Debug)]
pub struct ClassificationResult {
    pub document_type_id: String,
    pub document_id: String,
    pub confidence: u32,
    pub document_bounds: DocumentBounds,
    pub classifier_name: String,
}

/// All candidates that the classifier returned.
#[derive(Debug)]
pub struct ClassificationResults {
    pub classification_results: Vec<ClassificationResult>,
}

/// The index of the candidate for `doc` with the highest confidence, the
/// earliest among equals; none when no candidate is for `doc`.
pub open spec fn best_match(rs: Seq<ClassificationResult>, doc: Seq<char>) -> Option<int>
    decreases rs.len(),
{
    if rs.len() == 0 {
        None
    } else {
        let prev = best_match(rs.drop_last(), doc);
        let last = rs.last();
        if last.document_id@ == doc && (prev is None || rs[prev->0].confidence < last.confidence) {
            Some(rs.len() - 1)
        } else {
            prev
        }
    }
}

/// The document type that the classifier predicts for `doc`.
pub open spec fn predicted_type(rs: Seq<ClassificationResult>, doc: Seq<char>) -> Option<Seq<char>> {
    match best_match(rs, doc) {
        Some(i) => Some(rs[i].document_type_id@),
        None => None,
    }
}

/// `best_match` picks a candidate for `doc` whose confidence no other
/// candidate for `doc` exceeds, and which every earlier one for `doc` falls
/// short of; it picks none exactly when no candidate is for `doc`.
pub proof fn lemma_best_match(rs: Seq<ClassificationResult>, doc: Seq<char>)
    ensures
        best_match(rs, doc) is None <==> forall|j: int| 0 <= j < rs.len() ==> rs[j].document_id@ != doc,
        best_match(rs, doc) matches Some(i) ==> {
            &&& 0 <= i < rs.len()
            &&& rs[i].document_id@ == doc
            &&& forall|j: int| 0 <= j < rs.len() && rs[j].document_id@ == doc ==> rs[j].confidence <= rs[i].confidence
            &&& forall|j: int| 0 <= j < i && rs[j].document_id@ == doc ==> rs[j].confidence < rs[i].confidence
        },
    decreases rs.len(),
{
    if rs.len() > 0 {
        let init = rs.drop_last();
        lemma_best_match(init, doc);
        assert forall|j: int| 0 <= j < init.len() implies init[j] == rs[j] by {}
    }
}

impl Classify {
    pub fn new(base_url: &str, project_id: &str, bearer_token: &str) -> (r: Classify)
        ensures
            r.base_url@ == base_url@,
            r.project_id@ == project_id@,
            r.bearer_token@ == bearer_token@,
    {
        Classify {
            base_url: String::from_str(base_url),
            project_id: String::from_str(project_id),
            bearer_token: String::from_str(bearer_token),
        }
    }

    /// The endpoint that classifies with the given classifier.
    pub fn classification_url(&self, classifier: &str) -> (r: String)
        ensures
            r@ == service_url_spec(
                self.base_url@,
                self.project_id@,
                "classifiers/"@ + classifier@ + "/classification"@,
            ),
    {
        let path = String::from_str("classifiers/").concat(classifier).concat("/classification");
        service_url(self.base_url.as_str(), self.project_id.as_str(), path.as_str())
    }
}

impl ClassificationResults {
    /// The document type of the most confident candidate for the document.
    pub fn predicted_document_type(&self, document_id: &str) -> (r: Option<String>)
        ensures
            r is Some <==> predicted_type(self.classification_results@, document_id@) is Some,
            r is Some ==> r->0@ == predicted_type(self.classification_results@, document_id@)->0,
            r is None <==> forall|j: int|
                0 <= j < self.classification_results@.len()
                    ==> self.classification_results@[j].document_id@ != document_id@,
    {
        let rs = &self.classification_results;
        let mut best: Option<usize> = None;
        let mut i: usize = 0;
        while i < rs.len()
            invariant
                i <= rs@.len(),
                match best {
                    Some(k) => best_match(rs@.take(i as int), document_id@) == Some(k as int) && k < i,
                    None => best_match(rs@.take(i as int), document_id@) is None,
                },
            decreases rs@.len() - i,
        {
            proof {
                assert(rs@.take(i + 1).drop_last() =~= rs@.take(i as int));
                assert(rs@.take(i + 1).last() == rs@[i as int]);
                if let Some(k) = best {
                    assert(rs@.take(i + 1)[k as int] == rs@[k as int]);
                }
            }
            let c = &rs[i];
            if same_text(c.document_id.as_str(), document_id) {
                match best {
                    None => {
                        best = Some(i);
                    },
                    Some(k) => {
                        if rs[k].confidence < c.confidence {
                            best = Some(i);
                        }
                    },
                }
            }
            i = i + 1;
        }
        proof {
            assert(rs@.take(rs@.len() as int) =~= rs@);
            lemma_best_match(rs@, document_id@);
        }
        match best {
            Some(k) => Some(rs[k].document_type_id.clone()),
            None => None,
        }
    }
}

} // verus!
