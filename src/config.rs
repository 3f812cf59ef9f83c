//! Run-wide policy and the choice between the default and the generative
//! variant of a stage.

use vstd::prelude::*;
use vstd::string::*;
use crate::error::PipelineError;

verus! {

/// Flags fixed for the whole run.
#[derive(Clone, Copy, PartialEq, Eq, Structural, Debug)]
pub struct PipelineConfig {
    pub validate_classification: bool,
    pub validate_extraction: bool,
    pub generative_classification: bool,
    pub generative_extraction: bool,
}

/// Which variant of a stage runs: a named model, or the generative stage with
/// the key under which its prompt payload is stored.
#[derive(Debug)]
pub enum StageSelector {
    Default { id: String },
    Generative { id: String, prompt_key: String },
}

pub open spec fn selector_id(s: StageSelector) -> Seq<char> {
    match s {
        StageSelector::Default { id } => id@,
        StageSelector::Generative { id, .. } => id@,
    }
}

impl StageSelector {
    /// The identifier that names the stage in the request path.
    pub fn identifier(&self) -> (r: &String)
        ensures
            r@ == selector_id(*self),
    {
        match self {
            StageSelector::Default { id } => id,
            StageSelector::Generative { id, .. } => id,
        }
    }

    /// The key of the prompt payload to send, for the generative variant.
    pub fn prompt_key(&self) -> (r: Option<&String>)
        ensures
            match *self {
                StageSelector::Default { .. } => r is None,
                StageSelector::Generative { prompt_key, .. } => r == Some(&prompt_key),
            },
    {
        match self {
            StageSelector::Default { .. } => None,
            StageSelector::Generative { prompt_key, .. } => Some(prompt_key),
        }
    }
}

pub open spec fn default_classifier() -> Seq<char> {
    "ml-classification"@
}

pub open spec fn generative_classifier() -> Seq<char> {
    "generative_classifier"@
}

pub open spec fn generative_extractor() -> Seq<char> {
    "generative_extractor"@
}

/// The prompt key of the generative classifier.
pub open spec fn classification_prompt_key() -> Seq<char> {
    "classification"@
}

/// The classifier that a run with these flags uses.
pub open spec fn is_classifier_for(cfg: PipelineConfig, s: StageSelector) -> bool {
    if cfg.generative_classification {
        s matches StageSelector::Generative { id, prompt_key }
            && id@ == generative_classifier() && prompt_key@ == classification_prompt_key()
    } else {
        s matches StageSelector::Default { id } && id@ == default_classifier()
    }
}

/// The extractor that a run with these flags uses for a document type: the
/// type's own extractor, or the generative one with the type's prompts.
pub open spec fn is_extractor_for(cfg: PipelineConfig, s: StageSelector, doc_type: Seq<char>) -> bool {
    if cfg.generative_extraction {
        s matches StageSelector::Generative { id, prompt_key }
            && id@ == generative_extractor() && prompt_key@ == doc_type
    } else {
        s matches StageSelector::Default { id } && id@ == doc_type
    }
}

/// The name of the default classifier, whose results validation checks.
pub fn default_classifier_name() -> (r: String)
    ensures
        r@ == default_classifier(),
{
    String::from_str("ml-classification")
}

impl PipelineConfig {
    pub fn classifier(&self) -> (r: StageSelector)
        ensures
            is_classifier_for(*self, r),
    {
        if self.generative_classification {
            StageSelector::Generative {
                id: String::from_str("generative_classifier"),
                prompt_key: String::from_str("classification"),
            }
        } else {
            StageSelector::Default { id: default_classifier_name() }
        }
    }

    pub fn extractor(&self, document_type_id: &str) -> (r: StageSelector)
        ensures
            is_extractor_for(*self, r, document_type_id@),
    {
        if self.generative_extraction {
            StageSelector::Generative {
                id: String::from_str("generative_extractor"),
                prompt_key: String::from_str(document_type_id),
            }
        } else {
            StageSelector::Default { id: String::from_str(document_type_id) }
        }
    }
}

/// Where the prompt payload stored under a key is read from.
pub open spec fn prompt_file_spec(key: Seq<char>) -> Seq<char> {
    "Generative Prompts/"@ + key + "_prompts.json"@
}

pub fn prompt_file(key: &str) -> (r: String)
    ensures
        r@ == prompt_file_spec(key@),
{
    String::from_str("Generative Prompts/").concat(key).concat("_prompts.json")
}

/// The settings that a run reads from its environment.
#[derive(Debug)]
pub struct RunSettings {
    pub app_id: String,
    pub app_secret: String,
    pub auth_url: String,
    pub base_url: String,
    pub project_id: String,
}

/// The outcome reports the setting of that name as missing.
pub open spec fn missing_setting<T>(r: Result<T, PipelineError>, name: Seq<char>) -> bool {
    r matches Err(PipelineError::Config(n)) && n@ == name
}

fn required(name: &str, value: Option<String>) -> (r: Result<String, PipelineError>)
    ensures
        match value {
            Some(v) => r == Ok::<String, PipelineError>(v),
            None => missing_setting(r, name@),
        },
{
    match value {
        Some(v) => Ok(v),
        None => Err(PipelineError::Config(String::from_str(name))),
    }
}

impl RunSettings {
    /// Collects the settings; the first one that is missing, in the order
    /// of the parameters, is reported by its variable name.
    pub fn from_values(
        app_id: Option<String>,
        app_secret: Option<String>,
        auth_url: Option<String>,
        base_url: Option<String>,
        project_id: Option<String>,
    ) -> (r: Result<RunSettings, PipelineError>)
        ensures
            app_id is None ==> missing_setting(r, "APP_ID"@),
            app_id is Some && app_secret is None ==> missing_setting(r, "APP_SECRET"@),
            app_id is Some && app_secret is Some && auth_url is None ==> missing_setting(
                r,
                "AUTH_URL"@,
            ),
            app_id is Some && app_secret is Some && auth_url is Some && base_url is None
                ==> missing_setting(r, "BASE_URL"@),
            app_id is Some && app_secret is Some && auth_url is Some && base_url is Some
                && project_id is None ==> missing_setting(r, "PROJECT_ID"@),
            r is Ok <==> (app_id is Some && app_secret is Some && auth_url is Some && base_url is Some
                && project_id is Some),
            r is Ok ==> (r->Ok_0.app_id == app_id->0 && r->Ok_0.app_secret == app_secret->0
                && r->Ok_0.auth_url == auth_url->0 && r->Ok_0.base_url == base_url->0
                && r->Ok_0.project_id == project_id->0),
    {
        let app_id = match required("APP_ID", app_id) {
            Ok(v) => v,
            Err(e) => return Err(e),
        };
        let app_secret = match required("APP_SECRET", app_secret) {
            Ok(v) => v,
            Err(e) => return Err(e),
        };
        let auth_url = match required("AUTH_URL", auth_url) {
            Ok(v) => v,
            Err(e) => return Err(e),
        };
        let base_url = match required("BASE_URL", base_url) {
            Ok(v) => v,
            Err(e) => return Err(e),
        };
        let project_id = match required("PROJECT_ID", project_id) {
            Ok(v) => v,
            Err(e) => return Err(e),
        };
        Ok(RunSettings { app_id, app_secret, auth_url, base_url, project_id })
    }
}

} // verus!
