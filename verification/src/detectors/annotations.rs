use vstd::prelude::*;
use vstd::utf8::*;
use crate::detectors::SharedSignals;
use crate::detectors::forms::{deref_dict, dereference_dict};
use crate::heuristic_detector::{annotation_findings, detect_annotation_injection};
use crate::models::{findings_view, Finding};
use crate::pdf_model::{
    as_string, dereference, dict_get, dict_lookup, deref, get_object, get_object_spec, key, string_text,
    PdfDictionary, PdfDocument, PdfObject, PdfPage,
};
use crate::pdf_parser::AnnotationInfo;
use crate::text::utf8_text;

verus! {

/// The annotations of the document, page by page, with their text and subtype.
#[derive(Debug)]
pub struct Signals {
    pub annotations: Vec<AnnotationInfo>,
}

/// Annotations (comments, notes) whose text carries instructions.
#[derive(Debug)]
pub struct AnnotationsDetector;

/// The text (`/Contents`) of an annotation, or the empty text.
pub open spec fn annotation_text(d: PdfDictionary) -> Seq<char> {
    match dict_get(d, key("Contents"@)) {
        Some(v) => match string_text(v) {
            Some(t) => t,
            None => Seq::empty(),
        },
        None => Seq::empty(),
    }
}

/// The subtype (`/Subtype`) of an annotation, when it is a name in UTF-8, or `Unknown`.
pub open spec fn annotation_subtype(d: PdfDictionary) -> Seq<char> {
    match dict_get(d, key("Subtype"@)) {
        Some(PdfObject::Name(b)) => if valid_utf8(b@) { decode_utf8(b@) } else { "Unknown"@ },
        _ => "Unknown"@,
    }
}

/// The annotations among the first `n` items of a page's annotation array.
pub open spec fn annotations_in(doc: PdfDocument, page: u32, items: Seq<PdfObject>, n: int) -> Seq<(u32, Seq<char>, Seq<char>)>
    decreases n,
{
    if n <= 0 {
        Seq::empty()
    } else {
        annotations_in(doc, page, items, n - 1) + match deref_dict(doc, items[n - 1]) {
            Some(d) => seq![(page, annotation_text(d), annotation_subtype(d))],
            None => Seq::empty(),
        }
    }
}

/// The annotations of a page (`/Annots` of its page dictionary).
pub open spec fn page_annotations(doc: PdfDocument, p: PdfPage) -> Seq<(u32, Seq<char>, Seq<char>)> {
    match get_object_spec(doc, p.id) {
        Some(PdfObject::Dictionary(pd)) => match dict_get(pd, key("Annots"@)) {
            Some(a) => match deref(doc, a) {
                Some(PdfObject::Array(v)) => annotations_in(doc, p.number, v@, v@.len() as int),
                _ => Seq::empty(),
            },
            None => Seq::empty(),
        },
        _ => Seq::empty(),
    }
}

/// The annotations of the first `k` pages.
pub open spec fn document_annotations(doc: PdfDocument, k: int) -> Seq<(u32, Seq<char>, Seq<char>)>
    decreases k,
{
    if k <= 0 {
        Seq::empty()
    } else {
        document_annotations(doc, k - 1) + page_annotations(doc, doc.pages@[k - 1])
    }
}

/// The value of a list of annotations.
pub open spec fn annotations_view(v: Seq<AnnotationInfo>) -> Seq<(u32, Seq<char>, Seq<char>)> {
    v.map_values(|a: AnnotationInfo| (a.page, a.content@, a.annotation_type@))
}

fn subtype_of(d: &PdfDictionary) -> (r: String)
    ensures
        r@ == annotation_subtype(*d),
{
    match dict_lookup(d, "Subtype") {
        Some(PdfObject::Name(b)) => match utf8_text(b.as_slice()) {
            Some(t) => t,
            None => "Unknown".to_string(),
        },
        _ => "Unknown".to_string(),
    }
}

fn text_of(d: &PdfDictionary) -> (r: String)
    ensures
        r@ == annotation_text(*d),
{
    match dict_lookup(d, "Contents") {
        Some(v) => match as_string(v) {
            Some(t) => t,
            None => String::new(),
        },
        None => String::new(),
    }
}

fn push_page_annotations(doc: &PdfDocument, p: &PdfPage, out: &mut Vec<AnnotationInfo>)
    ensures
        annotations_view(final(out)@) == annotations_view(old(out)@) + page_annotations(*doc, *p),
{
    let ghost start = annotations_view(out@);
    assert(start + Seq::<(u32, Seq<char>, Seq<char>)>::empty() =~= start);
    let pd = match get_object(doc, p.id) {
        Some(PdfObject::Dictionary(pd)) => pd,
        _ => {
            return;
        },
    };
    let arr = match dict_lookup(pd, "Annots") {
        Some(a) => match dereference(doc, a) {
            Some(PdfObject::Array(v)) => v,
            _ => {
                return;
            },
        },
        None => {
            return;
        },
    };
    let mut i: usize = 0;
    assert(start + annotations_in(*doc, p.number, arr@, 0) =~= start);
    while i < arr.len()
        invariant
            i <= arr@.len(),
            annotations_view(out@) == start + annotations_in(*doc, p.number, arr@, i as int),
        decreases arr.len() - i,
    {
        let ghost before = annotations_view(out@);
        match dereference_dict(doc, &arr[i]) {
            Some(d) => {
                let a = AnnotationInfo { page: p.number, content: text_of(d), annotation_type: subtype_of(d) };
                out.push(a);
                assert(annotations_view(out@) =~= before.push((p.number, annotation_text(*d), annotation_subtype(*d))));
            },
            None => {},
        }
        assert(annotations_view(out@) =~= start + annotations_in(*doc, p.number, arr@, i + 1));
        i = i + 1;
    }
}

impl AnnotationsDetector {
    pub fn name(&self) -> (r: &'static str)
        ensures
            r@ == "annotations"@,
    {
        "annotations"
    }

    /// Every annotation of every page, with its text (empty when it has none) and its subtype.
    pub fn extract(&self, doc: &PdfDocument, _raw: &[u8], _pages: &Vec<(u32, String)>) -> (s: Signals)
        ensures
            annotations_view(s.annotations@) == document_annotations(*doc, doc.pages@.len() as int),
    {
        let mut annotations: Vec<AnnotationInfo> = Vec::new();
        assert(annotations_view(annotations@) =~= Seq::<(u32, Seq<char>, Seq<char>)>::empty());
        let mut k: usize = 0;
        while k < doc.pages.len()
            invariant
                k <= doc.pages@.len(),
                annotations_view(annotations@) == document_annotations(*doc, k as int),
            decreases doc.pages.len() - k,
        {
            push_page_annotations(doc, &doc.pages[k], &mut annotations);
            k = k + 1;
        }
        Signals { annotations }
    }

    /// A warning for every instruction phrase in every annotation's text, with 30 bytes of context.
    pub fn detect(&self, s: &Signals, _pages: &Vec<(u32, String)>, _shared: &SharedSignals) -> (findings: Vec<Finding>)
        ensures
            findings_view(findings@) == annotation_findings(s.annotations@, s.annotations@.len() as int),
    {
        let mut findings: Vec<Finding> = Vec::new();
        assert(findings_view(findings@) =~= annotation_findings(s.annotations@, 0));
        let mut a: usize = 0;
        while a < s.annotations.len()
            invariant
                a <= s.annotations@.len(),
                findings_view(findings@) == annotation_findings(s.annotations@, a as int),
            decreases s.annotations.len() - a,
        {
            let ghost before = findings_view(findings@);
            detect_annotation_injection(&s.annotations[a], &mut findings);
            assert(findings_view(findings@) =~= annotation_findings(s.annotations@, a + 1));
            a = a + 1;
        }
        findings
    }
}

} // verus!
