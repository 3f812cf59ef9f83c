//! The digitization stage: its client, the request that uploads a file, and
//! which files are documents to process.

use vstd::prelude::*;
use vstd::string::*;
use crate::text::{bearer_spec, bearer_value, same_text, service_url, service_url_spec};

verus! {

/// Client of the digitization endpoint.
#[derive(Debug)]
pub struct Digitize {
    pub base_url: String,
    pub project_id: String,
    pub bearer_token: String,
}

/// How a file is uploaded: where to, with which media type and credentials.
#[derive(Debug)]
pub struct DigitizeRequest {
    pub url: String,
    pub content_type: String,
    pub authorization: String,
}

/// The media type that mime_guess gives a path.
pub uninterp spec fn mime_type_of(path: Seq<char>) -> Seq<char>;

/// Relies on `mime_guess::from_path` and `MimeGuess::first_or_octet_stream`:
/// the media type mapped to the path's extension, `application/octet-stream`
/// where none is; it depends on the path's text alone and reads no file.
#[verifier::external_body]
fn guess_media_type(path: &str) -> (r: String)
    ensures
        r@ == mime_type_of(path@),
{
    mime_guess::from_path(path).first_or_octet_stream().to_string()
}

/// The lower-case form of a text, as `str::to_lowercase` gives it.
pub uninterp spec fn lower_of(s: Seq<char>) -> Seq<char>;

/// Relies on `str::to_lowercase`: the result depends on the characters alone.
#[verifier::external_body]
fn lowercase(s: &str) -> (r: String)
    ensures
        r@ == lower_of(s@),
{
    s.to_lowercase()
}

/// The file extensions, in lower case, of the documents that are processed.
pub open spec fn is_document_extension(ext: Seq<char>) -> bool {
    ||| ext == "png"@
    ||| ext == "jpe"@
    ||| ext == "jpg"@
    ||| ext == "jpeg"@
    ||| ext == "tiff"@
    ||| ext == "tif"@
    ||| ext == "bmp"@
    ||| ext == "pdf"@
}

/// Whether an extension already in lower case marks a document.
pub fn is_document_lowercase_extension(ext: &str) -> (r: bool)
    ensures
        r == is_document_extension(ext@),
{
    same_text(ext, "png") || same_text(ext, "jpe") || same_text(ext, "jpg") || same_text(ext, "jpeg")
        || same_text(ext, "tiff") || same_text(ext, "tif") || same_text(ext, "bmp") || same_text(
        ext,
        "pdf",
    )
}

/// Whether a file with this extension is a document, in any letter case.
pub fn is_document_extension_text(ext: &str) -> (r: bool)
    ensures
        r == is_document_extension(lower_of(ext@)),
{
    let lower = lowercase(ext);
    is_document_lowercase_extension(lower.as_str())
}

impl Digitize {
    pub fn new(base_url: &str, project_id: &str, bearer_token: &str) -> (r: Digitize)
        ensures
            r.base_url@ == base_url@,
            r.project_id@ == project_id@,
            r.bearer_token@ == bearer_token@,
    {
        Digitize {
            base_url: String::from_str(base_url),
            project_id: String::from_str(project_id),
            bearer_token: String::from_str(bearer_token),
        }
    }

    /// The endpoint that starts a digitization.
    pub fn start_url(&self) -> (r: String)
        ensures
            r@ == service_url_spec(self.base_url@, self.project_id@, "digitization/start"@),
    {
        service_url(self.base_url.as_str(), self.project_id.as_str(), "digitization/start")
    }

    /// The upload of the file at `document_path`.
    pub fn request_for(&self, document_path: &str) -> (r: DigitizeRequest)
        ensures
            r.url@ == service_url_spec(self.base_url@, self.project_id@, "digitization/start"@),
            r.content_type@ == mime_type_of(document_path@),
            r.authorization@ == bearer_spec(self.bearer_token@),
    {
        DigitizeRequest {
            url: self.start_url(),
            content_type: guess_media_type(document_path),
            authorization: bearer_value(self.bearer_token.as_str()),
        }
    }
}

} // verus!
