use vstd::prelude::*;
use crate::detectors::{first_phrase_findings, push_first_phrases, SharedSignals};
use crate::detectors::forms::{catalog, lookup_dict, sub_dict, texts_view};
use crate::matching::{group_one_texts, regex_group_one_texts, TJ_OPERATOR};
use crate::models::{findings_view, DetectionType, Finding, FindingView, Severity};
use crate::pdf_model::{deref, dereference, dict_get, dict_lookup, key, ObjectId, PdfDocument, PdfObject};
use crate::text::{from_utf8_lossy_string, push_char, replace_all, replace_str, utf8_lossy};

use crate::stream_content::{decoded_content, stream_decoded};

verus! {

pub const OCG_DESCRIPTION: &'static str = "Instruction pattern found in hidden OCG layer content";

/// The distinct texts shown by content that belongs to layers hidden by default.
#[derive(Debug)]
pub struct Signals {
    pub ocg_hidden_texts: Vec<String>,
}

/// Optional content layers that are off by default: drawn by no viewer, read by text extractors.
#[derive(Debug)]
pub struct OcgLayerDetector;

/// A string operand with its escaped parentheses and backslashes restored.
pub open spec fn unescape(s: Seq<char>) -> Seq<char> {
    replace_all(replace_all(replace_all(s, "\\("@, "("@), "\\)"@, ")"@), "\\\\"@, "\\"@)
}

/// The strings of the first `n` captures, unescaped and joined by spaces (no space is added
/// while nothing has been gathered).
pub open spec fn joined_captures(caps: Seq<Option<Seq<char>>>, n: int) -> Seq<char>
    decreases n,
{
    if n <= 0 {
        Seq::empty()
    } else {
        let prev = joined_captures(caps, n - 1);
        let cap = match caps[n - 1] {
            Some(t) => t,
            None => Seq::empty(),
        };
        (if prev.len() > 0 { prev + " "@ } else { prev }) + unescape(cap)
    }
}

/// The text that the `(...) Tj` operators of a content stream show.
pub open spec fn content_text(content: Seq<u8>) -> Seq<char> {
    let caps = regex_group_one_texts(TJ_OPERATOR@, utf8_lossy(content));
    joined_captures(caps, caps.len() as int)
}

/// The text shown by the `(...) Tj` operators of a content stream: each string operand with
/// `\(`, `\)` and `\\` unescaped, joined by spaces. The pattern's group always takes part in a
/// match; were it ever missing, it would count as an empty string.
pub fn extract_text_from_content_bytes(content: &[u8]) -> (r: String)
    ensures
        r@ == content_text(content@),
{
    let content_str = from_utf8_lossy_string(content);
    let caps = group_one_texts(TJ_OPERATOR, content_str.as_str());
    let mut result = String::new();
    let mut i: usize = 0;
    while i < caps.len()
        invariant
            i <= caps@.len(),
            optional_view(caps@) == regex_group_one_texts(TJ_OPERATOR@, utf8_lossy(content@)),
            result@ == joined_captures(optional_view(caps@), i as int),
        decreases caps.len() - i,
    {
        if !result.as_str().is_empty() {
            push_char(&mut result, ' ');
        }
        let cap: &str = match &caps[i] {
            Some(t) => t.as_str(),
            None => "",
        };
        proof {
            reveal_strlit("");
            reveal_strlit(" ");
            reveal_strlit("\\(");
            reveal_strlit("\\)");
            reveal_strlit("\\\\");
        }
        let a = replace_str(cap, "\\(", "(");
        let b = replace_str(a.as_str(), "\\)", ")");
        let c = replace_str(b.as_str(), "\\\\", "\\");
        result.append(c.as_str());
        assert(result@ =~= joined_captures(optional_view(caps@), i + 1));
        i = i + 1;
    }
    result
}

/// The view of a list of optional texts.
pub open spec fn optional_view(v: Seq<Option<String>>) -> Seq<Option<Seq<char>>> {
    crate::matching::optional_texts(v)
}

/// The ids among the first `n` items of an array that are references.
pub open spec fn references(items: Seq<PdfObject>, n: int) -> Seq<ObjectId>
    decreases n,
{
    if n <= 0 {
        Seq::empty()
    } else {
        references(items, n - 1) + match items[n - 1] {
            PdfObject::Reference(id) => seq![id],
            _ => Seq::empty(),
        }
    }
}

/// The layers that are off by default (`/Root /OCProperties /D /OFF`).
pub open spec fn off_layer_ids(doc: PdfDocument) -> Seq<ObjectId> {
    match catalog(doc) {
        Some(c) => match sub_dict(doc, c, "OCProperties"@) {
            Some(p) => match sub_dict(doc, p, "D"@) {
                Some(d) => match dict_get(d, key("OFF"@)) {
                    Some(o) => match deref(doc, o) {
                        Some(PdfObject::Array(v)) => references(v@, v@.len() as int),
                        _ => Seq::empty(),
                    },
                    None => Seq::empty(),
                },
                None => Seq::empty(),
            },
            None => Seq::empty(),
        },
        None => Seq::empty(),
    }
}

/// The layers that are off by default.
pub fn get_off_ocg_ids(doc: &PdfDocument) -> (r: Vec<ObjectId>)
    ensures
        r@ == off_layer_ids(*doc),
{
    let c = match lookup_dict(doc, &doc.trailer, "Root") {
        Some(c) => c,
        None => {
            return Vec::new();
        },
    };
    let p = match lookup_dict(doc, c, "OCProperties") {
        Some(p) => p,
        None => {
            return Vec::new();
        },
    };
    let d = match lookup_dict(doc, p, "D") {
        Some(d) => d,
        None => {
            return Vec::new();
        },
    };
    let arr = match dict_lookup(d, "OFF") {
        Some(o) => match dereference(doc, o) {
            Some(PdfObject::Array(v)) => v,
            _ => {
                return Vec::new();
            },
        },
        None => {
            return Vec::new();
        },
    };
    let mut ids: Vec<ObjectId> = Vec::new();
    let mut i: usize = 0;
    while i < arr.len()
        invariant
            i <= arr@.len(),
            ids@ == references(arr@, i as int),
        decreases arr.len() - i,
    {
        match &arr[i] {
            PdfObject::Reference(id) => {
                ids.push(*id);
            },
            _ => {},
        }
        assert(ids@ =~= references(arr@, i + 1));
        i = i + 1;
    }
    ids
}

/// The layer of a stream object (`/OC`, when it is a reference).
pub open spec fn stream_layer(obj: PdfObject) -> Option<ObjectId> {
    match obj {
        PdfObject::Stream(st) => match dict_get(st.dict, key("OC"@)) {
            Some(PdfObject::Reference(id)) => Some(id),
            _ => None,
        },
        _ => None,
    }
}

/// The distinct non-empty texts of the first `k` objects that are streams of one of the `off`
/// layers with decodable content.
pub open spec fn hidden_texts(doc: PdfDocument, off: Seq<ObjectId>, k: int) -> Seq<Seq<char>>
    decreases k,
{
    if k <= 0 {
        Seq::empty()
    } else {
        let prev = hidden_texts(doc, off, k - 1);
        let obj = doc.objects@[k - 1].1;
        match stream_layer(obj) {
            Some(id) => if off.contains(id) {
                match obj {
                    PdfObject::Stream(st) => match stream_decoded(st) {
                        Some(c) => {
                            let t = content_text(c);
                            if t.len() > 0 && !prev.contains(t) { prev.push(t) } else { prev }
                        },
                        None => prev,
                    },
                    _ => prev,
                }
            } else {
                prev
            },
            None => prev,
        }
    }
}

fn contains_id(ids: &Vec<ObjectId>, id: ObjectId) -> (r: bool)
    ensures
        r == ids@.contains(id),
{
    let mut i: usize = 0;
    while i < ids.len()
        invariant
            i <= ids@.len(),
            forall|k: int| 0 <= k < i ==> ids@[k] != id,
        decreases ids.len() - i,
    {
        if ids[i].0 == id.0 && ids[i].1 == id.1 {
            return true;
        }
        i = i + 1;
    }
    false
}

fn contains_text(texts: &Vec<String>, t: &String) -> (r: bool)
    ensures
        r == texts_view(texts@).contains(t@),
{
    let mut i: usize = 0;
    while i < texts.len()
        invariant
            i <= texts@.len(),
            forall|k: int| 0 <= k < i ==> texts@[k]@ != t@,
        decreases texts.len() - i,
    {
        if texts[i] == *t {
            assert(texts_view(texts@)[i as int] == t@);
            return true;
        }
        i = i + 1;
    }
    assert(!texts_view(texts@).contains(t@)) by {
        if texts_view(texts@).contains(t@) {
            let k = choose|k: int| 0 <= k < texts_view(texts@).len() && texts_view(texts@)[k] == t@;
            assert(texts@[k]@ == t@);
        }
    }
    false
}

fn layer_of(obj: &PdfObject) -> (r: Option<ObjectId>)
    ensures
        r == stream_layer(*obj),
{
    match obj {
        PdfObject::Stream(st) => match dict_lookup(&st.dict, "OC") {
            Some(PdfObject::Reference(id)) => Some(*id),
            _ => None,
        },
        _ => None,
    }
}

impl OcgLayerDetector {
    pub fn name(&self) -> (r: &'static str)
        ensures
            r@ == "ocg_layer"@,
    {
        "ocg_layer"
    }

    /// The distinct texts shown by streams of the layers that are off by default.
    pub fn extract(&self, doc: &PdfDocument, _raw_bytes: &[u8], _pages: &Vec<(u32, String)>) -> (s: Signals)
        ensures
            texts_view(s.ocg_hidden_texts@) == if off_layer_ids(*doc).len() == 0 {
                Seq::empty()
            } else {
                hidden_texts(*doc, off_layer_ids(*doc), doc.objects@.len() as int)
            },
    {
        let off = get_off_ocg_ids(doc);
        let mut texts: Vec<String> = Vec::new();
        assert(texts_view(texts@) =~= Seq::<Seq<char>>::empty());
        if off.len() > 0 {
            let mut i: usize = 0;
            while i < doc.objects.len()
                invariant
                    i <= doc.objects@.len(),
                    off@ == off_layer_ids(*doc),
                    texts_view(texts@) == hidden_texts(*doc, off@, i as int),
                decreases doc.objects.len() - i,
            {
                let obj = &doc.objects[i].1;
                match layer_of(obj) {
                    Some(id) => {
                        if contains_id(&off, id) {
                            match obj {
                                PdfObject::Stream(st) => match decoded_content(st) {
                                    Some(c) => {
                                        let t = extract_text_from_content_bytes(c.as_slice());
                                        if !t.as_str().is_empty() && !contains_text(&texts, &t) {
                                            let ghost before = texts_view(texts@);
                                            texts.push(t);
                                            assert(texts_view(texts@) =~= before.push(t@));
                                        }
                                    },
                                    None => {},
                                },
                                _ => {},
                            }
                        }
                    },
                    None => {},
                }
                i = i + 1;
            }
        }
        Signals { ocg_hidden_texts: texts }
    }

    /// A warning, on page 1, for the first instruction phrase of each hidden text.
    pub fn detect(&self, signals: &Signals, _pages: &Vec<(u32, String)>, _shared: &SharedSignals) -> (findings: Vec<Finding>)
        ensures
            findings_view(findings@) == first_phrase_findings(1, Severity::Warning, DetectionType::HiddenOcgLayer,
                OCG_DESCRIPTION@, signals.ocg_hidden_texts@, signals.ocg_hidden_texts@.len() as int),
    {
        let mut findings: Vec<Finding> = Vec::new();
        assert(findings_view(findings@) =~= Seq::<FindingView>::empty());
        push_first_phrases(&mut findings, 1, Severity::Warning, DetectionType::HiddenOcgLayer,
            OCG_DESCRIPTION, &signals.ocg_hidden_texts);
        assert(findings_view(findings@) =~= first_phrase_findings(1, Severity::Warning, DetectionType::HiddenOcgLayer,
            OCG_DESCRIPTION@, signals.ocg_hidden_texts@, signals.ocg_hidden_texts@.len() as int));
        findings
    }
}

} // verus!
