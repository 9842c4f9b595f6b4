use vstd::prelude::*;
use vstd::utf8::*;
use vstd::string::StringSliceAdditionalSpecFns;
use crate::detectors::SharedSignals;
use crate::heuristic_detector::{finding, lemma_push_view};
use crate::models::{findings_view, DetectionType, Finding, FindingView, Severity};
use crate::pdf_model::{
    dict_get, dict_lookup, get_object, get_object_spec, key, PdfDictionary, PdfDocument, PdfObject,
};
use crate::text::{byte_prefix, from_utf8_lossy_string, str_byte_prefix, utf8_lossy};

use crate::stream_content::{decoded_content, stream_decoded};

verus! {

pub const JAVASCRIPT_DESCRIPTION: &'static str = "Embedded JavaScript detected in PDF document";

/// The first JavaScript code found in the document, if any.
#[derive(Debug)]
pub struct Signals {
    pub javascript_code: Option<String>,
}

/// JavaScript embedded in the document, which a viewer may run.
#[derive(Debug)]
pub struct JavaScriptDetector;

/// Non-empty text, or nothing.
pub open spec fn nonempty(s: Seq<char>) -> Option<Seq<char>> {
    if s.len() > 0 {
        Some(s)
    } else {
        None
    }
}

/// The code held by a string or a decodable stream, when it is not empty.
pub open spec fn js_text(obj: PdfObject) -> Option<Seq<char>> {
    match obj {
        PdfObject::String(bytes) => nonempty(utf8_lossy(bytes@)),
        PdfObject::Stream(st) => match stream_decoded(st) {
            Some(b) => nonempty(utf8_lossy(b)),
            None => None,
        },
        _ => None,
    }
}

/// The code that a `/JS` value gives, a reference being followed first (what it leads to is
/// never itself a reference).
pub open spec fn js_string(doc: PdfDocument, obj: PdfObject) -> Option<Seq<char>> {
    match obj {
        PdfObject::Reference(id) => match get_object_spec(doc, id) {
            Some(o) => js_text(o),
            None => None,
        },
        _ => js_text(obj),
    }
}

/// The code under `/JS`, or else under `/JavaScript`, of a dictionary.
pub open spec fn js_in_dict(doc: PdfDocument, d: PdfDictionary) -> Option<Seq<char>> {
    let first = match dict_get(d, key("JS"@)) {
        Some(o) => js_string(doc, o),
        None => None,
    };
    if first is Some {
        first
    } else {
        match dict_get(d, key("JavaScript"@)) {
            Some(o) => js_string(doc, o),
            None => None,
        }
    }
}

/// The code that an object holds, references followed to a depth of 5.
pub open spec fn js_in_object(doc: PdfDocument, obj: PdfObject, depth: nat) -> Option<Seq<char>>
    decreases 6 - depth,
{
    if depth > 5 {
        None
    } else {
        match obj {
            PdfObject::Dictionary(d) => js_in_dict(doc, d),
            PdfObject::Stream(st) => js_in_dict(doc, st.dict),
            PdfObject::Reference(id) => match get_object_spec(doc, id) {
                Some(o) => js_in_object(doc, o, depth + 1),
                None => None,
            },
            _ => None,
        }
    }
}

/// The code of the first object, from index `i` on, that holds some.
pub open spec fn first_js(doc: PdfDocument, i: int) -> Option<Seq<char>>
    decreases doc.objects@.len() - i,
{
    if i < 0 || i >= doc.objects@.len() {
        None
    } else {
        match js_in_object(doc, doc.objects@[i].1, 0) {
            Some(s) => Some(s),
            None => first_js(doc, i + 1),
        }
    }
}

fn nonempty_string(s: String) -> (r: Option<String>)
    ensures
        match r {
            Some(t) => nonempty(s@) == Some(t@),
            None => nonempty(s@) is None,
        },
{
    if s.as_str().is_empty() {
        None
    } else {
        Some(s)
    }
}

fn js_text_of(obj: &PdfObject) -> (r: Option<String>)
    ensures
        match r {
            Some(t) => js_text(*obj) == Some(t@),
            None => js_text(*obj) is None,
        },
{
    match obj {
        PdfObject::String(bytes) => nonempty_string(from_utf8_lossy_string(bytes.as_slice())),
        PdfObject::Stream(st) => match decoded_content(st) {
            Some(b) => nonempty_string(from_utf8_lossy_string(b.as_slice())),
            None => None,
        },
        _ => None,
    }
}

/// The code that a `/JS` value gives.
pub fn extract_js_string(obj: &PdfObject, doc: &PdfDocument) -> (r: Option<String>)
    ensures
        match r {
            Some(t) => js_string(*doc, *obj) == Some(t@),
            None => js_string(*doc, *obj) is None,
        },
{
    match obj {
        PdfObject::Reference(id) => match get_object(doc, *id) {
            Some(resolved) => js_text_of(resolved),
            None => None,
        },
        _ => js_text_of(obj),
    }
}

fn js_in_dictionary(d: &PdfDictionary, doc: &PdfDocument) -> (r: Option<String>)
    ensures
        match r {
            Some(t) => js_in_dict(*doc, *d) == Some(t@),
            None => js_in_dict(*doc, *d) is None,
        },
{
    match dict_lookup(d, "JS") {
        Some(o) => match extract_js_string(o, doc) {
            Some(js) => {
                return Some(js);
            },
            None => {},
        },
        None => {},
    }
    match dict_lookup(d, "JavaScript") {
        Some(o) => extract_js_string(o, doc),
        None => None,
    }
}

/// The code that an object holds: under `/JS` or `/JavaScript` of a dictionary or stream
/// dictionary, references followed to a depth of 5.
pub fn extract_js_from_object(object: &PdfObject, doc: &PdfDocument, depth: u8) -> (r: Option<String>)
    ensures
        match r {
            Some(t) => js_in_object(*doc, *object, depth as nat) == Some(t@),
            None => js_in_object(*doc, *object, depth as nat) is None,
        },
    decreases 6 - depth,
{
    if depth > 5 {
        return None;
    }
    match object {
        PdfObject::Dictionary(d) => js_in_dictionary(d, doc),
        PdfObject::Stream(st) => js_in_dictionary(&st.dict, doc),
        PdfObject::Reference(id) => match get_object(doc, *id) {
            Some(o) => extract_js_from_object(o, doc, depth + 1),
            None => None,
        },
        _ => None,
    }
}

/// The excerpt of the code: its first 80 bytes and `...` when it is longer.
pub open spec fn js_excerpt(code: Seq<char>) -> Seq<char> {
    if encode_utf8(code).len() > 80 {
        byte_prefix(code, 80) + "..."@
    } else {
        code
    }
}

/// Whether `&code[..80]` can be taken: the code has at most 80 bytes or byte 80 starts a character.
pub open spec fn js_cut_ok(code: Seq<char>) -> bool {
    encode_utf8(code).len() <= 80 || is_char_boundary(encode_utf8(code), 80)
}

/// Whether the code's excerpt can be cut without splitting a character.
pub fn js_cut_allowed(code: &str) -> (b: bool)
    ensures
        b == js_cut_ok(code@),
{
    code.as_bytes().len() <= 80 || code.is_char_boundary(80)
}

/// The findings for the JavaScript of a document.
pub open spec fn javascript_findings(code: Option<Seq<char>>) -> Seq<FindingView> {
    match code {
        Some(c) => seq![finding(0, Severity::Critical, DetectionType::EmbeddedJavaScript,
            JAVASCRIPT_DESCRIPTION@, js_excerpt(c), None)],
        None => Seq::empty(),
    }
}

impl JavaScriptDetector {
    pub fn name(&self) -> (r: &'static str)
        ensures
            r@ == "javascript"@,
    {
        "javascript"
    }

    /// The code of the first object, in id order, that holds JavaScript.
    pub fn extract(&self, doc: &PdfDocument, _raw_bytes: &[u8], _pages: &Vec<(u32, String)>) -> (s: Signals)
        ensures
            match s.javascript_code {
                Some(c) => first_js(*doc, 0) == Some(c@),
                None => first_js(*doc, 0) is None,
            },
    {
        let mut i: usize = 0;
        while i < doc.objects.len()
            invariant
                i <= doc.objects@.len(),
                first_js(*doc, 0) == first_js(*doc, i as int),
            decreases doc.objects.len() - i,
        {
            match extract_js_from_object(&doc.objects[i].1, doc, 0) {
                Some(js) => {
                    return Signals { javascript_code: Some(js) };
                },
                None => {},
            }
            i = i + 1;
        }
        Signals { javascript_code: None }
    }

    /// One critical finding with the start of the code, when the document has JavaScript.
    pub fn detect(&self, signals: &Signals, _pages: &Vec<(u32, String)>, _shared: &SharedSignals) -> (findings: Vec<Finding>)
        requires
            match signals.javascript_code {
                Some(c) => js_cut_ok(c@),
                None => true,
            },
        ensures
            findings_view(findings@) == javascript_findings(match signals.javascript_code {
                Some(c) => Some(c@),
                None => None,
            }),
    {
        let mut findings: Vec<Finding> = Vec::new();
        match &signals.javascript_code {
            None => {
                assert(findings_view(findings@) =~= Seq::<FindingView>::empty());
            },
            Some(js_code) => {
                let excerpt = if js_code.as_str().as_bytes().len() > 80 {
                    let mut e = str_byte_prefix(js_code.as_str(), 80);
                    e.append("...");
                    e
                } else {
                    js_code.clone()
                };
                let f = Finding {
                    page: 0,
                    severity: Severity::Critical,
                    detection_type: DetectionType::EmbeddedJavaScript,
                    description: JAVASCRIPT_DESCRIPTION.to_string(),
                    excerpt,
                    char_offset: None,
                };
                proof {
                    lemma_push_view(findings@, f);
                }
                findings.push(f);
                assert(findings_view(findings@) =~= javascript_findings(Some(js_code@)));
            },
        }
        findings
    }
}

} // verus!
