use vstd::prelude::*;
use crate::text::text_fits;
use crate::detectors::{build_shared_signals, shared_signals_spec};
use crate::detectors::forms::{form_fields, field_values, texts_view, FormsDetector};
use crate::detectors::invisible_text::{invisible_pages, InvisibleTextDetector};
use crate::detectors::javascript::{first_js, JavaScriptDetector};
use crate::detectors::metadata::{entries_view, info_entries, MetadataDetector};
use crate::detectors::white_text::{white_pages, WhiteTextDetector};
use crate::pdf_model::{PdfDictionary, PdfDocument, PdfObject, PdfPage, PdfStream};
use crate::stream_content::{lemma_page_operations_frame, page_operations, page_operations_of};
use crate::detectors::annotations::{annotations_view, document_annotations, AnnotationsDetector};

verus! {

/// Why a PDF could not be read.
#[derive(Debug)]
pub enum PdfParseError {
    OpenError(String),
    ExtractionError(String),
}

/// An annotation that carries text.
#[derive(Debug)]
pub struct AnnotationInfo {
    pub page: u32,
    pub content: String,
    pub annotation_type: String,
}

/// What the heuristic detector reads of a PDF: page texts in page order, metadata entries,
/// text annotations, structural signals, and form field values.
#[derive(Debug)]
pub struct PdfContent {
    pub pages: Vec<(u32, String)>,
    pub metadata: Vec<(String, String)>,
    pub annotations: Vec<AnnotationInfo>,
    pub has_javascript: bool,
    pub has_white_text: bool,
    pub has_invisible_text: bool,
    pub has_microscopic_font: bool,
    pub has_text_outside_bounds: bool,
    pub has_acroform_fields: bool,
    pub form_field_values: Vec<String>,
}

impl PdfContent {
    /// Every text held fits in memory (as every Rust string does).
    pub open spec fn well_formed(&self) -> bool {
        &&& forall|i: int| 0 <= i < self.pages@.len() ==> text_fits(#[trigger] self.pages@[i].1@)
        &&& forall|i: int| 0 <= i < self.metadata@.len() ==> text_fits(#[trigger] self.metadata@[i].1@)
        &&& forall|i: int| 0 <= i < self.annotations@.len() ==> text_fits(#[trigger] self.annotations@[i].content@)
        &&& forall|i: int| 0 <= i < self.form_field_values@.len() ==> text_fits(#[trigger] self.form_field_values@[i]@)
    }
}

/// What the heuristic detector reads of a document, gathered by the detectors' extraction:
/// the page texts as given, the text entries of the document information, the annotations of
/// every page, JavaScript, white text (in any colour space), invisible text, microscopic text,
/// and the form fields with their text values. Whether text lies outside the page is given, as
/// finding it takes single-precision arithmetic on text positions.
pub fn content_of(doc: &PdfDocument, raw_bytes: &[u8], pages: Vec<(u32, String)>, text_outside_bounds: bool) -> (c: PdfContent)
    ensures
        c.pages@ == pages@,
        entries_view(c.metadata@) == info_entries(*doc),
        annotations_view(c.annotations@) == document_annotations(*doc, doc.pages@.len() as int),
        c.has_javascript == (first_js(*doc, 0) is Some),
        c.has_white_text == white_pages(doc.pages@, doc.pages@.len() as int).0,
        c.has_invisible_text == invisible_pages(doc.pages@, doc.pages@.len() as int),
        c.has_microscopic_font == shared_signals_spec(*doc, raw_bytes@).1,
        c.has_text_outside_bounds == text_outside_bounds,
        match form_fields(*doc) {
            Some(fields) => c.has_acroform_fields == (fields.len() > 0)
                && texts_view(c.form_field_values@) == field_values(*doc, fields, fields.len() as int),
            None => !c.has_acroform_fields && c.form_field_values@.len() == 0,
        },
{
    let shared = build_shared_signals(doc, raw_bytes, &pages);
    let metadata = MetadataDetector.extract(doc, raw_bytes, &pages).metadata;
    let javascript = JavaScriptDetector.extract(doc, raw_bytes, &pages);
    let white = WhiteTextDetector.extract(doc, raw_bytes, &pages);
    let invisible = InvisibleTextDetector.extract(doc, raw_bytes, &pages);
    let forms = FormsDetector.extract(doc, raw_bytes, &pages);
    let annotations = AnnotationsDetector.extract(doc, raw_bytes, &pages).annotations;
    PdfContent {
        pages,
        metadata,
        annotations,
        has_javascript: javascript.javascript_code.is_some(),
        has_white_text: white.has_white_text,
        has_invisible_text: invisible.has_invisible_text,
        has_microscopic_font: shared.has_microscopic_font,
        has_text_outside_bounds: text_outside_bounds,
        has_acroform_fields: forms.has_acroform_fields,
        form_field_values: forms.form_field_values,
    }
}

} // verus!

verus! {

#[verifier::external_type_specification]
#[verifier::external_body]
pub struct ExLopdfDocument(lopdf::Document);

#[verifier::external_type_specification]
#[verifier::external_body]
pub struct ExLopdfObject(lopdf::Object);

#[verifier::external_type_specification]
#[verifier::external_body]
pub struct ExLopdfDictionary(lopdf::Dictionary);

#[verifier::external_type_specification]
#[verifier::external_body]
pub struct ExLopdfStream(lopdf::Stream);

/// Converts a lopdf object.
#[verifier::external_body]
pub(crate) fn object_of(o: &lopdf::Object) -> PdfObject {
    match o {
        lopdf::Object::Null => PdfObject::Null,
        lopdf::Object::Boolean(b) => PdfObject::Boolean(*b),
        lopdf::Object::Integer(i) => PdfObject::Integer(*i),
        lopdf::Object::Real(r) => PdfObject::Real(r.to_bits()),
        lopdf::Object::Name(n) => PdfObject::Name(n.clone()),
        lopdf::Object::String(s, _) => PdfObject::String(s.clone()),
        lopdf::Object::Array(a) => PdfObject::Array(a.iter().map(object_of).collect()),
        lopdf::Object::Dictionary(d) => PdfObject::Dictionary(dictionary_of(d)),
        lopdf::Object::Stream(s) => PdfObject::Stream(stream_of(s)),
        lopdf::Object::Reference(id) => PdfObject::Reference(*id),
    }
}

/// Converts a lopdf stream: its dictionary and its content as stored, not decoded.
#[verifier::external_body]
fn stream_of(s: &lopdf::Stream) -> PdfStream {
    PdfStream { dict: dictionary_of(&s.dict), content: s.content.clone() }
}

/// Converts a lopdf dictionary, keeping its order.
#[verifier::external_body]
fn dictionary_of(d: &lopdf::Dictionary) -> PdfDictionary {
    PdfDictionary { entries: d.iter().map(|(k, v)| (k.clone(), object_of(v))).collect() }
}

/// Converts a lopdf document: its objects (in the id order of lopdf's `BTreeMap`), its trailer,
/// and its pages from `Document::get_pages`, with no operations read yet. The one claim is
/// that the pages come in ascending order, as `get_pages` returns a `BTreeMap` keyed by page
/// number; no stream is decoded here.
#[verifier::external_body]
fn model_of(doc: &lopdf::Document) -> (r: PdfDocument)
    ensures
        r.pages_ascending(),
{
    PdfDocument {
        objects: doc.objects.iter().map(|(id, o)| (*id, object_of(o))).collect(),
        trailer: dictionary_of(&doc.trailer),
        pages: doc.get_pages().iter().map(|(n, id)| PdfPage { number: *n, id: *id, operations: None }).collect(),
    }
}

/// The object model of a loaded PDF, with the operations of each page's content read as lopdf
/// reads them (`get_page_content`, then `Content::decode`), in ascending page order.
pub fn document_from(doc: &lopdf::Document) -> (r: PdfDocument)
    ensures
        r.pages_ascending(),
        forall|i: int| 0 <= i < r.pages@.len() ==> match (#[trigger] r.pages@[i]).operations {
            Some(v) => page_operations(r, r.pages@[i].id) == Some(v@),
            None => page_operations(r, r.pages@[i].id) is None,
        },
{
    let model = model_of(doc);
    let mut pages: Vec<PdfPage> = Vec::new();
    let mut i: usize = 0;
    while i < model.pages.len()
        invariant
            i <= model.pages@.len(),
            pages@.len() == i,
            forall|j: int| 0 <= j < i ==> (#[trigger] pages@[j]).number == model.pages@[j].number
                && pages@[j].id == model.pages@[j].id
                && match pages@[j].operations {
                    Some(v) => page_operations(model, pages@[j].id) == Some(v@),
                    None => page_operations(model, pages@[j].id) is None,
                },
        decreases model.pages.len() - i,
    {
        let number = model.pages[i].number;
        let id = model.pages[i].id;
        let operations = page_operations_of(&model, id);
        pages.push(PdfPage { number, id, operations });
        i = i + 1;
    }
    let ghost old_model = model;
    let r = PdfDocument { objects: model.objects, trailer: model.trailer, pages };
    proof {
        assert forall|i: int| 0 <= i < r.pages@.len() implies page_operations(r, r.pages@[i].id)
            == page_operations(old_model, r.pages@[i].id) by {
            lemma_page_operations_frame(r, old_model, r.pages@[i].id);
        }
    }
    r
}

/// A loaded PDF: its object model, its raw bytes, and the text of each page in page order.
#[derive(Debug)]
pub struct ParsedPdf {
    pub doc: PdfDocument,
    pub raw_bytes: Vec<u8>,
    pub pages: Vec<(u32, String)>,
}

} // verus!
