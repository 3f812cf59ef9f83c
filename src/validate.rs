//! The human-validation stage: its client, the action that a validation
//! request opens, and how validated fields are merged into extracted ones.

use vstd::prelude::*;
use vstd::string::*;
use crate::extract::FieldRecord;
use crate::text::{same_text, service_url, service_url_spec};

verus! {

/// Client of the validation endpoints.
#[derive(Debug)]
pub struct Validate {
    pub base_url: String,
    pub project_id: String,
    pub bearer_token: String,
}

/// Whether a validation concerns a classifier or an extractor.
#[derive(Clone, Copy, PartialEq, Eq, Structural, Debug)]
pub enum ValidationTarget {
    Classifiers,
    Extractors,
}

pub open spec fn target_segment(t: ValidationTarget) -> Seq<char> {
    match t {
        ValidationTarget::Classifiers => "classifiers"@,
        ValidationTarget::Extractors => "extractors"@,
    }
}

/// The task that a validation request opens for a person to work on.
#[derive(Debug)]
pub struct ActionData {
    pub title: String,
    pub priority: String,
    pub task_catalog_name: String,
    pub folder_path: String,
    pub storage_bucket_name: String,
    pub storage_bucket_directory_path: String,
}

/// The title of the validation task for a document type, if one is known.
pub open spec fn action_title_spec(document_type_id: Option<Seq<char>>) -> Seq<char> {
    match document_type_id {
        Some(t) => "Validate - "@ + t,
        None => "Validate - Unknown"@,
    }
}

impl Validate {
    pub fn new(base_url: &str, project_id: &str, bearer_token: &str) -> (r: Validate)
        ensures
            r.base_url@ == base_url@,
            r.project_id@ == project_id@,
            r.bearer_token@ == bearer_token@,
    {
        Validate {
            base_url: String::from_str(base_url),
            project_id: String::from_str(project_id),
            bearer_token: String::from_str(bearer_token),
        }
    }

    fn target_path(target: ValidationTarget, id: &str) -> (r: String)
        ensures
            r@ == target_segment(target) + "/"@ + id@ + "/validation/"@,
    {
        let head = match target {
            ValidationTarget::Classifiers => String::from_str("classifiers"),
            ValidationTarget::Extractors => String::from_str("extractors"),
        };
        head.concat("/").concat(id).concat("/validation/")
    }

    /// The endpoint that submits a validation request.
    pub fn start_url(&self, target: ValidationTarget, id: &str) -> (r: String)
        ensures
            r@ == service_url_spec(
                self.base_url@,
                self.project_id@,
                target_segment(target) + "/"@ + id@ + "/validation/"@ + "start"@,
            ),
    {
        let path = Self::target_path(target, id).concat("start");
        service_url(self.base_url.as_str(), self.project_id.as_str(), path.as_str())
    }

    /// The endpoint that reports on a submitted validation operation.
    pub fn result_url(&self, target: ValidationTarget, id: &str, operation_id: &str) -> (r: String)
        ensures
            r@ == service_url_spec(
                self.base_url@,
                self.project_id@,
                target_segment(target) + "/"@ + id@ + "/validation/"@ + "result/"@ + operation_id@,
            ),
    {
        let path = Self::target_path(target, id).concat("result/").concat(operation_id);
        service_url(self.base_url.as_str(), self.project_id.as_str(), path.as_str())
    }

    /// The task that validating a document of this type opens.
    pub fn action_for(document_type_id: Option<&str>) -> (r: ActionData)
        ensures
            r.title@ == action_title_spec(
                match document_type_id {
                    Some(t) => Some(t@),
                    None => None,
                },
            ),
            r.priority@ == "Medium"@,
            r.task_catalog_name@ == "default_du_actions"@,
            r.folder_path@ == "Shared"@,
            r.storage_bucket_name@ == "du_storage_bucket"@,
            r.storage_bucket_directory_path@ == "du_storage_bucket"@,
    {
        let title = match document_type_id {
            Some(t) => String::from_str("Validate - ").concat(t),
            None => String::from_str("Validate - Unknown"),
        };
        ActionData {
            title,
            priority: String::from_str("Medium"),
            task_catalog_name: String::from_str("default_du_actions"),
            folder_path: String::from_str("Shared"),
            storage_bucket_name: String::from_str("du_storage_bucket"),
            storage_bucket_directory_path: String::from_str("du_storage_bucket"),
        }
    }
}

/// The index of the first field named `name`.
pub open spec fn first_named(s: Seq<FieldRecord>, name: Seq<char>) -> Option<int>
    decreases s.len(),
{
    if s.len() == 0 {
        None
    } else {
        match first_named(s.drop_last(), name) {
            Some(i) => Some(i),
            None => if s.last().field_name@ == name {
                Some(s.len() - 1)
            } else {
                None
            },
        }
    }
}

/// `first_named` finds the earliest field of that name, and finds none
/// exactly when no field has it.
pub proof fn lemma_first_named(s: Seq<FieldRecord>, name: Seq<char>)
    ensures
        first_named(s, name) is None <==> forall|j: int| 0 <= j < s.len() ==> s[j].field_name@ != name,
        first_named(s, name) matches Some(i) ==> {
            &&& 0 <= i < s.len()
            &&& s[i].field_name@ == name
            &&& forall|j: int| 0 <= j < i ==> s[j].field_name@ != name
        },
    decreases s.len(),
{
    if s.len() > 0 {
        let init = s.drop_last();
        lemma_first_named(init, name);
        assert forall|j: int| 0 <= j < init.len() implies init[j] == s[j] by {}
    }
}

/// A raw field with the value of the first validated field of its name, if
/// there is one.
pub open spec fn merged_field(f: FieldRecord, validated: Seq<FieldRecord>) -> FieldRecord {
    match first_named(validated, f.field_name@) {
        Some(i) => FieldRecord { value: validated[i].value, ..f },
        None => f,
    }
}

/// The validated fields whose name no raw field has, in their order.
pub open spec fn unmatched(validated: Seq<FieldRecord>, raw: Seq<FieldRecord>) -> Seq<FieldRecord>
    decreases validated.len(),
{
    if validated.len() == 0 {
        Seq::empty()
    } else {
        let rest = unmatched(validated.drop_last(), raw);
        if first_named(raw, validated.last().field_name@) is None {
            rest.push(validated.last())
        } else {
            rest
        }
    }
}

/// The exported fields: every raw field in order, its value replaced where
/// validation has that field, then the fields that only validation has.
pub open spec fn merge_spec(raw: Seq<FieldRecord>, validated: Seq<FieldRecord>) -> Seq<FieldRecord> {
    raw.map_values(|f: FieldRecord| merged_field(f, validated)) + unmatched(validated, raw)
}

/// The position of the first field named `name`.
pub fn find_field(s: &Vec<FieldRecord>, name: &str) -> (r: Option<usize>)
    ensures
        r is None <==> first_named(s@, name@) is None,
        r matches Some(k) ==> first_named(s@, name@) == Some(k as int) && k < s@.len(),
{
    proof {
        lemma_first_named(s@, name@);
    }
    let mut i: usize = 0;
    while i < s.len()
        invariant
            i <= s@.len(),
            first_named(s@.take(i as int), name@) is None,
        decreases s@.len() - i,
    {
        proof {
            assert(s@.take(i + 1).drop_last() =~= s@.take(i as int));
        }
        if same_text(s[i].field_name.as_str(), name) {
            proof {
                lemma_first_named(s@, name@);
                lemma_first_named(s@.take(i as int), name@);
                assert forall|j: int| 0 <= j < i implies s@[j].field_name@ != name@ by {
                    assert(s@.take(i as int)[j] == s@[j]);
                }
            }
            return Some(i);
        }
        i = i + 1;
    }
    proof {
        assert(s@.take(s@.len() as int) =~= s@);
    }
    None
}

/// Merges the results of validation into the extracted fields.
pub fn merge_validated_fields(raw: &Vec<FieldRecord>, validated: &Vec<FieldRecord>) -> (r: Vec<
    FieldRecord,
>)
    ensures
        r@ == merge_spec(raw@, validated@),
{
    let mut out: Vec<FieldRecord> = Vec::new();
    let mut i: usize = 0;
    while i < raw.len()
        invariant
            i <= raw@.len(),
            out@ == raw@.take(i as int).map_values(|f: FieldRecord| merged_field(f, validated@)),
        decreases raw@.len() - i,
    {
        let f = &raw[i];
        let mut merged = f.duplicate();
        match find_field(validated, f.field_name.as_str()) {
            Some(j) => {
                merged.value = validated[j].value.clone();
            },
            None => {},
        }
        assert(merged == merged_field(raw@[i as int], validated@));
        out.push(merged);
        proof {
            assert(raw@.take(i + 1) =~= raw@.take(i as int).push(raw@[i as int]));
            assert(out@ =~= raw@.take(i + 1).map_values(|f: FieldRecord| merged_field(f, validated@)));
        }
        i = i + 1;
    }
    proof {
        assert(raw@.take(raw@.len() as int) =~= raw@);
    }
    let ghost mapped = out@;
    let mut k: usize = 0;
    while k < validated.len()
        invariant
            k <= validated@.len(),
            out@ == mapped + unmatched(validated@.take(k as int), raw@),
        decreases validated@.len() - k,
    {
        proof {
            assert(validated@.take(k + 1).drop_last() =~= validated@.take(k as int));
        }
        let v = &validated[k];
        if find_field(raw, v.field_name.as_str()).is_none() {
            out.push(v.duplicate());
        }
        k = k + 1;
    }
    proof {
        assert(validated@.take(validated@.len() as int) =~= validated@);
    }
    out
}

/// Exported values come from validation wherever it has the field, and from
/// extraction for the fields it does not have; no raw field is dropped or
/// moved.
pub proof fn lemma_validated_values_win(raw: Seq<FieldRecord>, validated: Seq<FieldRecord>, i: int)
    requires
        0 <= i < raw.len(),
    ensures
        merge_spec(raw, validated)[i].field_name == raw[i].field_name,
        forall|j: int|
            0 <= j < validated.len() && validated[j].field_name@ == raw[i].field_name@
                && (forall|k: int| 0 <= k < j ==> validated[k].field_name@ != raw[i].field_name@)
                ==> merge_spec(raw, validated)[i].value == validated[j].value,
        (forall|j: int| 0 <= j < validated.len() ==> validated[j].field_name@ != raw[i].field_name@)
            ==> merge_spec(raw, validated)[i] == raw[i],
{
    lemma_first_named(validated, raw[i].field_name@);
    let m = merge_spec(raw, validated);
    assert(m[i] == merged_field(raw[i], validated));
    assert forall|j: int|
        0 <= j < validated.len() && validated[j].field_name@ == raw[i].field_name@
            && (forall|k: int| 0 <= k < j ==> validated[k].field_name@ != raw[i].field_name@)
            implies m[i].value == validated[j].value by {
        let f = first_named(validated, raw[i].field_name@);
        assert(f is Some);
        let fi = f->0;
        if fi < j {
            assert(validated[fi].field_name@ != raw[i].field_name@);
        }
    }
}

} // verus!
