use vstd::prelude::*;
use crate::detectors::{first_phrase_findings, push_first_phrases, SharedSignals};
use crate::detectors::forms::texts_view;
use crate::models::{findings_view, DetectionType, Finding, FindingView, Severity};
use crate::pdf_model::{as_string, dict_get, dict_lookup, get_object, get_object_spec, key, string_text, PdfDictionary, PdfDocument, PdfObject};
use crate::text::{trim_spec, trim_str};

verus! {

pub const ACTUAL_TEXT_DESCRIPTION: &'static str = "Instruction pattern found in /ActualText accessibility attribute";

/// The non-blank replacement and alternate texts of the document's objects.
#[derive(Debug)]
pub struct Signals {
    pub actual_text_values: Vec<String>,
}

/// Replacement texts (`/ActualText`, `/Alt`) that a text extractor reads in place of what is drawn.
#[derive(Debug)]
pub struct ActualTextDetector;

/// The text under `name` in `d`, when it is a string that is not blank.
pub open spec fn text_entry(d: PdfDictionary, name: Seq<char>) -> Seq<Seq<char>> {
    match dict_get(d, key(name)) {
        Some(v) => match string_text(v) {
            Some(t) => if trim_spec(t).len() > 0 { seq![t] } else { Seq::empty() },
            None => Seq::empty(),
        },
        None => Seq::empty(),
    }
}

/// The replacement texts of an object that is not a reference: `/ActualText` and `/Alt` of a
/// dictionary, `/ActualText` of a stream dictionary.
pub open spec fn direct_texts(obj: PdfObject) -> Seq<Seq<char>> {
    match obj {
        PdfObject::Dictionary(d) => text_entry(d, "ActualText"@) + text_entry(d, "Alt"@),
        PdfObject::Stream(st) => text_entry(st.dict, "ActualText"@),
        _ => Seq::empty(),
    }
}

/// The replacement texts of an object, a reference being followed first (what it leads to is
/// never itself a reference).
pub open spec fn object_texts(doc: PdfDocument, obj: PdfObject) -> Seq<Seq<char>> {
    match obj {
        PdfObject::Reference(id) => match get_object_spec(doc, id) {
            Some(o) => direct_texts(o),
            None => Seq::empty(),
        },
        _ => direct_texts(obj),
    }
}

/// The replacement texts of the first `k` objects.
pub open spec fn document_texts(doc: PdfDocument, k: int) -> Seq<Seq<char>>
    decreases k,
{
    if k <= 0 {
        Seq::empty()
    } else {
        document_texts(doc, k - 1) + object_texts(doc, doc.objects@[k - 1].1)
    }
}

fn push_text_entry(values: &mut Vec<String>, d: &PdfDictionary, name: &str)
    ensures
        texts_view(final(values)@) == texts_view(old(values)@) + text_entry(*d, name@),
{
    let ghost start = texts_view(values@);
    match dict_lookup(d, name) {
        Some(v) => match as_string(v) {
            Some(s) => {
                let t = trim_str(s.as_str());
                if !t.as_str().is_empty() {
                    values.push(s);
                }
            },
            None => {},
        },
        None => {},
    }
    assert(texts_view(values@) =~= start + text_entry(*d, name@));
}

fn push_direct(values: &mut Vec<String>, obj: &PdfObject)
    ensures
        texts_view(final(values)@) == texts_view(old(values)@) + direct_texts(*obj),
{
    let ghost start = texts_view(values@);
    match obj {
        PdfObject::Dictionary(d) => {
            push_text_entry(values, d, "ActualText");
            push_text_entry(values, d, "Alt");
        },
        PdfObject::Stream(st) => {
            push_text_entry(values, &st.dict, "ActualText");
        },
        _ => {},
    }
    assert(texts_view(values@) =~= start + direct_texts(*obj));
}

/// Adds the replacement texts of an object.
pub fn collect_actual_text(object: &PdfObject, doc: &PdfDocument, values: &mut Vec<String>)
    ensures
        texts_view(final(values)@) == texts_view(old(values)@) + object_texts(*doc, *object),
{
    match object {
        PdfObject::Reference(id) => match get_object(doc, *id) {
            Some(o) => push_direct(values, o),
            None => {
                assert(texts_view(values@) =~= texts_view(values@) + Seq::<Seq<char>>::empty());
            },
        },
        _ => push_direct(values, object),
    }
}

impl ActualTextDetector {
    pub fn name(&self) -> (r: &'static str)
        ensures
            r@ == "actual_text"@,
    {
        "actual_text"
    }

    /// The non-blank replacement texts of all objects, in id order.
    pub fn extract(&self, doc: &PdfDocument, _raw_bytes: &[u8], _pages: &Vec<(u32, String)>) -> (s: Signals)
        ensures
            texts_view(s.actual_text_values@) == document_texts(*doc, doc.objects@.len() as int),
    {
        let mut values: Vec<String> = Vec::new();
        assert(texts_view(values@) =~= Seq::<Seq<char>>::empty());
        let mut i: usize = 0;
        while i < doc.objects.len()
            invariant
                i <= doc.objects@.len(),
                texts_view(values@) == document_texts(*doc, i as int),
            decreases doc.objects.len() - i,
        {
            collect_actual_text(&doc.objects[i].1, doc, &mut values);
            i = i + 1;
        }
        Signals { actual_text_values: values }
    }

    /// A critical finding for the first instruction phrase of each replacement text.
    pub fn detect(&self, signals: &Signals, _pages: &Vec<(u32, String)>, _shared: &SharedSignals) -> (findings: Vec<Finding>)
        ensures
            findings_view(findings@) == first_phrase_findings(0, Severity::Critical, DetectionType::ActualTextInjection,
                ACTUAL_TEXT_DESCRIPTION@, signals.actual_text_values@, signals.actual_text_values@.len() as int),
    {
        let mut findings: Vec<Finding> = Vec::new();
        assert(findings_view(findings@) =~= Seq::<FindingView>::empty());
        push_first_phrases(&mut findings, 0, Severity::Critical, DetectionType::ActualTextInjection,
            ACTUAL_TEXT_DESCRIPTION, &signals.actual_text_values);
        assert(findings_view(findings@) =~= first_phrase_findings(0, Severity::Critical, DetectionType::ActualTextInjection,
            ACTUAL_TEXT_DESCRIPTION@, signals.actual_text_values@, signals.actual_text_values@.len() as int));
        findings
    }
}

} // verus!
