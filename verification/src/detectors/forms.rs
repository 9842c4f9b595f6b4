use vstd::prelude::*;
use crate::detectors::{first_phrase_findings, push_first_phrases, SharedSignals};
use crate::heuristic_detector::{finding, lemma_push_view, FORM_DESCRIPTION, FORM_EXCERPT, FORM_VALUE_DESCRIPTION};
use crate::models::{findings_view, DetectionType, Finding, FindingView, Severity};
use crate::pdf_model::{as_string, deref, dereference, dict_get, dict_lookup, key, string_text, PdfDictionary, PdfDocument, PdfObject};

verus! {

/// Whether the document has form fields, and the text values of those fields.
#[derive(Debug)]
pub struct Signals {
    pub has_acroform_fields: bool,
    pub form_field_values: Vec<String>,
}

/// Interactive form fields, whose values a reader never sees but a text extractor reads.
#[derive(Debug)]
pub struct FormsDetector;

/// The dictionary that `obj` stands for.
pub open spec fn deref_dict(doc: PdfDocument, obj: PdfObject) -> Option<PdfDictionary> {
    match deref(doc, obj) {
        Some(PdfObject::Dictionary(d)) => Some(d),
        _ => None,
    }
}

/// The dictionary under `name` in `d`, references followed.
pub open spec fn sub_dict(doc: PdfDocument, d: PdfDictionary, name: Seq<char>) -> Option<PdfDictionary> {
    match dict_get(d, key(name)) {
        Some(o) => deref_dict(doc, o),
        None => None,
    }
}

/// The catalog of a document (`/Root` of the trailer).
pub open spec fn catalog(doc: PdfDocument) -> Option<PdfDictionary> {
    sub_dict(doc, doc.trailer, "Root"@)
}

/// The field array of the document's form (`/Root /AcroForm /Fields`).
pub open spec fn form_fields(doc: PdfDocument) -> Option<Seq<PdfObject>> {
    match catalog(doc) {
        Some(c) => match sub_dict(doc, c, "AcroForm"@) {
            Some(a) => match dict_get(a, key("Fields"@)) {
                Some(f) => match deref(doc, f) {
                    Some(PdfObject::Array(v)) => Some(v@),
                    _ => None,
                },
                None => None,
            },
            None => None,
        },
        None => None,
    }
}

/// The text value (`/V`) of a field, if it has one.
pub open spec fn field_value(doc: PdfDocument, field: PdfObject) -> Seq<Seq<char>> {
    match deref_dict(doc, field) {
        Some(fd) => match dict_get(fd, key("V"@)) {
            Some(v) => match string_text(v) {
                Some(t) => seq![t],
                None => Seq::empty(),
            },
            None => Seq::empty(),
        },
        None => Seq::empty(),
    }
}

/// The text values of the first `n` fields.
pub open spec fn field_values(doc: PdfDocument, fields: Seq<PdfObject>, n: int) -> Seq<Seq<char>>
    decreases n,
{
    if n <= 0 {
        Seq::empty()
    } else {
        field_values(doc, fields, n - 1) + field_value(doc, fields[n - 1])
    }
}

/// The dictionary that `obj` stands for.
pub fn dereference_dict<'a>(doc: &'a PdfDocument, obj: &'a PdfObject) -> (r: Option<&'a PdfDictionary>)
    ensures
        match r {
            Some(d) => deref_dict(*doc, *obj) == Some(*d),
            None => deref_dict(*doc, *obj) is None,
        },
{
    match dereference(doc, obj) {
        Some(PdfObject::Dictionary(d)) => Some(d),
        _ => None,
    }
}

/// The dictionary under `name` in `d`, references followed.
pub fn lookup_dict<'a>(doc: &'a PdfDocument, d: &'a PdfDictionary, name: &str) -> (r: Option<&'a PdfDictionary>)
    ensures
        match r {
            Some(x) => sub_dict(*doc, *d, name@) == Some(*x),
            None => sub_dict(*doc, *d, name@) is None,
        },
{
    match dict_lookup(d, name) {
        Some(o) => dereference_dict(doc, o),
        None => None,
    }
}

/// The field array of the document's form.
pub fn extract_fields<'a>(doc: &'a PdfDocument) -> (r: Option<&'a Vec<PdfObject>>)
    ensures
        match r {
            Some(v) => form_fields(*doc) == Some(v@),
            None => form_fields(*doc) is None,
        },
{
    let c = match lookup_dict(doc, &doc.trailer, "Root") {
        Some(c) => c,
        None => {
            return None;
        },
    };
    let a = match lookup_dict(doc, c, "AcroForm") {
        Some(a) => a,
        None => {
            return None;
        },
    };
    match dict_lookup(a, "Fields") {
        Some(f) => match dereference(doc, f) {
            Some(PdfObject::Array(v)) => Some(v),
            _ => None,
        },
        None => None,
    }
}

/// The view of a list of texts.
pub open spec fn texts_view(v: Seq<String>) -> Seq<Seq<char>> {
    v.map_values(|s: String| s@)
}

/// The findings of a form: a warning that it exists, then, for each value, its first
/// instruction phrase.
pub open spec fn form_findings(has_fields: bool, values: Seq<String>) -> Seq<FindingView> {
    if !has_fields {
        Seq::empty()
    } else {
        seq![finding(0, Severity::Warning, DetectionType::HiddenFormField, FORM_DESCRIPTION@, FORM_EXCERPT@, None)]
            + first_phrase_findings(0, Severity::Critical, DetectionType::HiddenFormField, FORM_VALUE_DESCRIPTION@,
            values, values.len() as int)
    }
}

impl FormsDetector {
    pub fn name(&self) -> (r: &'static str)
        ensures
            r@ == "forms"@,
    {
        "forms"
    }

    /// Whether the form has fields, and the text values of its fields.
    pub fn extract(&self, doc: &PdfDocument, _raw_bytes: &[u8], _pages: &Vec<(u32, String)>) -> (s: Signals)
        ensures
            match form_fields(*doc) {
                Some(fields) => s.has_acroform_fields == (fields.len() > 0)
                    && texts_view(s.form_field_values@) == field_values(*doc, fields, fields.len() as int),
                None => !s.has_acroform_fields && s.form_field_values@.len() == 0,
            },
    {
        let fields = match extract_fields(doc) {
            Some(f) => f,
            None => {
                return Signals { has_acroform_fields: false, form_field_values: Vec::new() };
            },
        };
        let mut values: Vec<String> = Vec::new();
        assert(texts_view(values@) =~= Seq::<Seq<char>>::empty());
        let mut i: usize = 0;
        while i < fields.len()
            invariant
                i <= fields@.len(),
                texts_view(values@) == field_values(*doc, fields@, i as int),
            decreases fields.len() - i,
        {
            match dereference_dict(doc, &fields[i]) {
                Some(fd) => match dict_lookup(fd, "V") {
                    Some(v) => match as_string(v) {
                        Some(text) => {
                            values.push(text);
                        },
                        None => {},
                    },
                    None => {},
                },
                None => {},
            }
            assert(texts_view(values@) =~= field_values(*doc, fields@, i + 1));
            i = i + 1;
        }
        Signals { has_acroform_fields: fields.len() > 0, form_field_values: values }
    }

    /// A warning that the form exists, and a critical finding for the first instruction phrase
    /// of each value, with 80 bytes of context.
    pub fn detect(&self, signals: &Signals, _pages: &Vec<(u32, String)>, _shared: &SharedSignals) -> (findings: Vec<Finding>)
        ensures
            findings_view(findings@) == form_findings(signals.has_acroform_fields, signals.form_field_values@),
    {
        let mut findings: Vec<Finding> = Vec::new();
        if !signals.has_acroform_fields {
            assert(findings_view(findings@) =~= Seq::<FindingView>::empty());
            return findings;
        }
        let f = Finding {
            page: 0,
            severity: Severity::Warning,
            detection_type: DetectionType::HiddenFormField,
            description: FORM_DESCRIPTION.to_string(),
            excerpt: FORM_EXCERPT.to_string(),
            char_offset: None,
        };
        proof {
            lemma_push_view(findings@, f);
        }
        findings.push(f);
        assert(findings_view(findings@) =~= seq![f@]);
        push_first_phrases(&mut findings, 0, Severity::Critical, DetectionType::HiddenFormField,
            FORM_VALUE_DESCRIPTION, &signals.form_field_values);
        findings
    }
}

} // verus!
