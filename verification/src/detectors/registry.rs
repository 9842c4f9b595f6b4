use vstd::prelude::*;
use crate::detectors::{build_shared_signals, eof_count, first_phrase_finding, first_phrase_findings, pages_fit};
use crate::detectors::actual_text::{document_texts, ActualTextDetector, ACTUAL_TEXT_DESCRIPTION};
use crate::detectors::annotations::{annotations_view, document_annotations, AnnotationsDetector};
use crate::detectors::forms::{field_values, form_fields, texts_view, FormsDetector};
use crate::detectors::incremental_update::{incremental_findings, IncrementalUpdateDetector};
use crate::detectors::instruction_patterns::{entry_findings, matches_view, pages_matches, InstructionPatternsDetector};
use crate::detectors::invisible_text::{invisible_findings, invisible_pages, InvisibleTextDetector};
use crate::detectors::javascript::{first_js, javascript_findings, js_cut_ok, JavaScriptDetector};
use crate::detectors::metadata::{entries_view, info_entries, MetadataDetector};
use crate::detectors::microscopic_font::{microscopic_findings, microscopic_pages, MicroscopicFontDetector};
use crate::detectors::ocg_layer::{hidden_texts, off_layer_ids, OcgLayerDetector, OCG_DESCRIPTION};
use crate::detectors::text_outside_bounds::{self as outside, outside_bounds_findings, TextOutsideBoundsDetector};
use crate::detectors::token_flooding::{flooding_page_findings, hits_view, page_hits, TokenFloodingDetector};
use crate::detectors::unicode_tricks::{override_findings, override_positions, UnicodeTricksDetector};
use crate::detectors::white_text::{white_pages, white_text_findings, WhiteTextDetector};
use crate::detectors::zero_width::{zero_width_detector_findings, zero_width_positions, ZeroWidthDetector};
use crate::heuristic_detector::{
    annotation_findings, finding, metadata_findings, value_findings, ANNOTATION_DESCRIPTION_PREFIX,
    ANNOTATION_DESCRIPTION_SUFFIX, FORM_DESCRIPTION, FORM_EXCERPT, FORM_VALUE_DESCRIPTION, METADATA_DESCRIPTION_PREFIX,
};
use crate::matching::{EN_INSTRUCTIONS, PT_BR_INSTRUCTIONS};
use crate::models::{findings_view, DetectionType, Finding, FindingView, Severity};
use crate::pdf_model::PdfDocument;

verus! {

/// The findings of the first instruction phrase of each of the first `n` texts.
pub open spec fn phrase_findings(page: u32, severity: Severity, t: DetectionType, description: Seq<char>, texts: Seq<Seq<char>>, n: int) -> Seq<FindingView>
    decreases n,
{
    if n <= 0 {
        Seq::empty()
    } else {
        phrase_findings(page, severity, t, description, texts, n - 1) + first_phrase_finding(page, severity, t, description, texts[n - 1])
    }
}

proof fn lemma_phrase_view(page: u32, severity: Severity, t: DetectionType, description: Seq<char>, values: Seq<String>, n: int)
    requires
        n <= values.len(),
    ensures
        first_phrase_findings(page, severity, t, description, values, n) == phrase_findings(page, severity, t, description, texts_view(values), n),
    decreases n,
{
    if n > 0 {
        lemma_phrase_view(page, severity, t, description, values, n - 1);
        assert(texts_view(values)[n - 1] == values[n - 1]@);
    }
}

/// The metadata findings of the first `n` text entries.
pub open spec fn info_findings(entries: Seq<(Seq<char>, Seq<char>)>, n: int) -> Seq<FindingView>
    decreases n,
{
    if n <= 0 {
        Seq::empty()
    } else {
        info_findings(entries, n - 1) + value_findings(0, Severity::Critical, DetectionType::MetadataInjection,
            METADATA_DESCRIPTION_PREFIX@ + entries[n - 1].0 + "'"@, entries[n - 1].1)
    }
}

proof fn lemma_info_view(v: Seq<(String, String)>, n: int)
    requires
        n <= v.len(),
    ensures
        metadata_findings(v, n) == info_findings(entries_view(v), n),
    decreases n,
{
    if n > 0 {
        lemma_info_view(v, n - 1);
        assert(entries_view(v)[n - 1] == (v[n - 1].0@, v[n - 1].1@));
    }
}

/// The annotation findings of the first `n` annotations.
pub open spec fn annotation_entry_findings(entries: Seq<(u32, Seq<char>, Seq<char>)>, n: int) -> Seq<FindingView>
    decreases n,
{
    if n <= 0 {
        Seq::empty()
    } else {
        annotation_entry_findings(entries, n - 1) + value_findings(entries[n - 1].0, Severity::Warning,
            DetectionType::HiddenAnnotation, ANNOTATION_DESCRIPTION_PREFIX@ + entries[n - 1].2 + ANNOTATION_DESCRIPTION_SUFFIX@,
            entries[n - 1].1)
    }
}

proof fn lemma_annotation_view(v: Seq<crate::pdf_parser::AnnotationInfo>, n: int)
    requires
        n <= v.len(),
    ensures
        annotation_findings(v, n) == annotation_entry_findings(annotations_view(v), n),
    decreases n,
{
    if n > 0 {
        lemma_annotation_view(v, n - 1);
        assert(annotations_view(v)[n - 1] == (v[n - 1].page, v[n - 1].content@, v[n - 1].annotation_type@));
    }
}

/// The form fields of a document and their text values.
pub open spec fn form_state(doc: PdfDocument) -> (bool, Seq<Seq<char>>) {
    match form_fields(doc) {
        Some(f) => (f.len() > 0, field_values(doc, f, f.len() as int)),
        None => (false, Seq::empty()),
    }
}

/// The findings of a form, given whether it has fields and their values.
pub open spec fn form_state_findings(state: (bool, Seq<Seq<char>>)) -> Seq<FindingView> {
    if !state.0 {
        Seq::empty()
    } else {
        seq![finding(0, Severity::Warning, DetectionType::HiddenFormField, FORM_DESCRIPTION@, FORM_EXCERPT@, None)]
            + phrase_findings(0, Severity::Critical, DetectionType::HiddenFormField, FORM_VALUE_DESCRIPTION@, state.1,
            state.1.len() as int)
    }
}

/// The distinct hidden-layer texts of a document.
pub open spec fn layer_texts(doc: PdfDocument) -> Seq<Seq<char>> {
    if off_layer_ids(doc).len() == 0 {
        Seq::empty()
    } else {
        hidden_texts(doc, off_layer_ids(doc), doc.objects@.len() as int)
    }
}

/// What the detectors report of a document, in the order they are registered: incremental
/// update, white text, invisible text, microscopic font, text outside the page, zero-width
/// characters, direction overrides, token flooding, instruction phrases, JavaScript, metadata,
/// annotations, forms, replacement texts and hidden layers. Whether text lies outside the page
/// is given.
pub open spec fn registry_findings(doc: PdfDocument, raw: Seq<u8>, pages: Seq<(u32, String)>, text_outside_bounds: bool) -> Seq<FindingView> {
    let n = pages.len() as int;
    let k = doc.pages@.len() as int;
    let inc = eof_count(raw) > 1;
    let wp = white_pages(doc.pages@, k);
    let bidi = override_positions(pages, n);
    let hits = page_hits(pages, n);
    let pt = pages_matches(pages, PT_BR_INSTRUCTIONS@, n);
    let en = pages_matches(pages, EN_INSTRUCTIONS@, n);
    let meta = info_entries(doc);
    let ann = document_annotations(doc, k);
    let at = document_texts(doc, doc.objects@.len() as int);
    let hidden = layer_texts(doc);
    incremental_findings(inc)
        + white_text_findings(wp.0, wp.1, pages)
        + invisible_findings(invisible_pages(doc.pages@, k), inc)
        + microscopic_findings(microscopic_pages(doc.pages@, k))
        + outside_bounds_findings(text_outside_bounds)
        + zero_width_detector_findings(zero_width_positions(pages, n), pages)
        + override_findings(bidi, pages, bidi.len() as int)
        + flooding_page_findings(hits, hits.len() as int)
        + entry_findings(pt, DetectionType::InstructionPattern, pt.len() as int)
        + entry_findings(en, DetectionType::ForeignLanguageInstruction, en.len() as int)
        + javascript_findings(first_js(doc, 0))
        + info_findings(meta, meta.len() as int)
        + annotation_entry_findings(ann, ann.len() as int)
        + form_state_findings(form_state(doc))
        + phrase_findings(0, Severity::Critical, DetectionType::ActualTextInjection, ACTUAL_TEXT_DESCRIPTION@, at, at.len() as int)
        + phrase_findings(1, Severity::Warning, DetectionType::HiddenOcgLayer, OCG_DESCRIPTION@, hidden, hidden.len() as int)
}

/// The JavaScript excerpt of the document can be cut (the code has at most 80 bytes or byte 80
/// starts a character).
pub open spec fn javascript_cuttable(doc: PdfDocument) -> bool {
    match first_js(doc, 0) {
        Some(c) => js_cut_ok(c),
        None => true,
    }
}

fn extend(all: &mut Vec<Finding>, more: Vec<Finding>)
    ensures
        findings_view(final(all)@) == findings_view(old(all)@) + findings_view(more@),
{
    let mut more = more;
    let ghost a = all@;
    let ghost m = more@;
    all.append(&mut more);
    assert(findings_view(a + m) =~= findings_view(a) + findings_view(m));
}

/// Runs every registered detector, extraction then detection, and gathers their findings in
/// registry order. Whether text lies outside the page is given, as its extraction is done in
/// single-precision arithmetic outside this library.
#[verifier::rlimit(60)]
pub fn run_all(doc: &PdfDocument, raw_bytes: &[u8], pages: &Vec<(u32, String)>, text_outside_bounds: bool) -> (r: Vec<Finding>)
    requires
        pages_fit(pages@),
        javascript_cuttable(*doc),
    ensures
        findings_view(r@) == registry_findings(*doc, raw_bytes@, pages@, text_outside_bounds),
{
    let shared = build_shared_signals(doc, raw_bytes, pages);
    let mut all: Vec<Finding> = Vec::new();
    assert(findings_view(all@) =~= Seq::<FindingView>::empty());

    let s1 = IncrementalUpdateDetector.extract(doc, raw_bytes, pages);
    extend(&mut all, IncrementalUpdateDetector.detect(&s1, pages, &shared));
    let s2 = WhiteTextDetector.extract(doc, raw_bytes, pages);
    extend(&mut all, WhiteTextDetector.detect(&s2, pages, &shared));
    let s3 = InvisibleTextDetector.extract(doc, raw_bytes, pages);
    extend(&mut all, InvisibleTextDetector.detect(&s3, pages, &shared));
    let s4 = MicroscopicFontDetector.extract(doc, raw_bytes, pages);
    extend(&mut all, MicroscopicFontDetector.detect(&s4, pages, &shared));
    let s5 = outside::Signals { has_text_outside_bounds: text_outside_bounds };
    extend(&mut all, TextOutsideBoundsDetector.detect(&s5, pages, &shared));
    let s6 = ZeroWidthDetector.extract(doc, raw_bytes, pages);
    extend(&mut all, ZeroWidthDetector.detect(&s6, pages, &shared));
    let s7 = UnicodeTricksDetector.extract(doc, raw_bytes, pages);
    extend(&mut all, UnicodeTricksDetector.detect(&s7, pages, &shared));
    let s8 = TokenFloodingDetector.extract(doc, raw_bytes, pages);
    assert(hits_view(s8.hits_per_page@).len() == s8.hits_per_page@.len());
    extend(&mut all, TokenFloodingDetector.detect(&s8, pages, &shared));
    let s9 = InstructionPatternsDetector.extract(doc, raw_bytes, pages);
    assert(matches_view(s9.pt_br_matches@).len() == s9.pt_br_matches@.len());
    assert(matches_view(s9.en_matches@).len() == s9.en_matches@.len());
    extend(&mut all, InstructionPatternsDetector.detect(&s9, pages, &shared));
    let s10 = JavaScriptDetector.extract(doc, raw_bytes, pages);
    extend(&mut all, JavaScriptDetector.detect(&s10, pages, &shared));
    let s11 = MetadataDetector.extract(doc, raw_bytes, pages);
    proof {
        lemma_info_view(s11.metadata@, s11.metadata@.len() as int);
    }
    extend(&mut all, MetadataDetector.detect(&s11, pages, &shared));
    let s12 = AnnotationsDetector.extract(doc, raw_bytes, pages);
    proof {
        lemma_annotation_view(s12.annotations@, s12.annotations@.len() as int);
    }
    extend(&mut all, AnnotationsDetector.detect(&s12, pages, &shared));
    let s13 = FormsDetector.extract(doc, raw_bytes, pages);
    proof {
        lemma_phrase_view(0, Severity::Critical, DetectionType::HiddenFormField, FORM_VALUE_DESCRIPTION@,
            s13.form_field_values@, s13.form_field_values@.len() as int);
    }
    extend(&mut all, FormsDetector.detect(&s13, pages, &shared));
    let s14 = ActualTextDetector.extract(doc, raw_bytes, pages);
    proof {
        lemma_phrase_view(0, Severity::Critical, DetectionType::ActualTextInjection, ACTUAL_TEXT_DESCRIPTION@,
            s14.actual_text_values@, s14.actual_text_values@.len() as int);
    }
    extend(&mut all, ActualTextDetector.detect(&s14, pages, &shared));
    let s15 = OcgLayerDetector.extract(doc, raw_bytes, pages);
    proof {
        lemma_phrase_view(1, Severity::Warning, DetectionType::HiddenOcgLayer, OCG_DESCRIPTION@,
            s15.ocg_hidden_texts@, s15.ocg_hidden_texts@.len() as int);
    }
    extend(&mut all, OcgLayerDetector.detect(&s15, pages, &shared));
    assert(findings_view(all@) =~= registry_findings(*doc, raw_bytes@, pages@, text_outside_bounds));
    all
}

} // verus!
