use vstd::prelude::*;
use crate::analysis::{is_alarming, verdict_spec};
use crate::heuristic_detector::{
    annotation_findings, bidi_findings, detect_spec, flooding_findings, form_value_findings,
    has_type, match_findings, metadata_findings, page_findings, pages_findings, pattern_findings,
    primary_type, value_findings, with_signal, zero_width_findings, english_type,
};
use crate::models::{DetectionType, FindingView, Severity, Verdict};
use crate::heuristic_detector::{is_zero_width, zero_width_count};
use crate::pdf_parser::PdfContent;
use crate::detectors::white_text::{all_citations, citation_finding, listed_citations, page_has_white_text, white_pages, white_text_findings};
use crate::pdf_model::{PdfDocument, PdfPage};

verus! {

/// Neither a clean finding nor a JavaScript finding.
pub open spec fn plain(fs: Seq<FindingView>) -> bool {
    forall|i: int| 0 <= i < fs.len() ==> (#[trigger] fs[i]).severity != Severity::Clean
        && fs[i].detection_type != DetectionType::EmbeddedJavaScript
}

proof fn lemma_plain_concat(a: Seq<FindingView>, b: Seq<FindingView>)
    requires
        plain(a),
        plain(b),
    ensures
        plain(a + b),
{
    assert forall|i: int| 0 <= i < (a + b).len() implies (#[trigger] (a + b)[i]).severity != Severity::Clean
        && (a + b)[i].detection_type != DetectionType::EmbeddedJavaScript by {
        if i < a.len() {
            assert((a + b)[i] == a[i]);
        } else {
            assert((a + b)[i] == b[i - a.len()]);
        }
    }
}

proof fn lemma_bidi_plain(page: u32, text: Seq<char>, n: int)
    ensures
        plain(bidi_findings(page, text, n)),
    decreases n,
{
    if n > 0 {
        lemma_bidi_plain(page, text, n - 1);
    }
}

proof fn lemma_page_plain(page: u32, text: Seq<char>, primary: DetectionType)
    requires
        primary != DetectionType::EmbeddedJavaScript,
    ensures
        plain(page_findings(page, text, primary)),
{
    lemma_bidi_plain(page, text, text.len() as int);
    let a = zero_width_findings(page, text);
    let b = bidi_findings(page, text, text.len() as int);
    let c = pattern_findings(page, text, crate::matching::PT_BR_INSTRUCTIONS@, Severity::Warning, primary,
        crate::heuristic_detector::INSTRUCTION_DESCRIPTION@);
    let d = pattern_findings(page, text, crate::matching::EN_INSTRUCTIONS@, Severity::Warning,
        english_type(primary), crate::heuristic_detector::INSTRUCTION_DESCRIPTION@);
    let e = flooding_findings(page, text);
    lemma_plain_concat(a, b);
    lemma_plain_concat(a + b, c);
    lemma_plain_concat(a + b + c, d);
    lemma_plain_concat(a + b + c + d, e);
}

proof fn lemma_pages_plain(pages: Seq<(u32, String)>, n: int, primary: DetectionType)
    requires
        primary != DetectionType::EmbeddedJavaScript,
    ensures
        plain(pages_findings(pages, n, primary)),
    decreases n,
{
    if n > 0 {
        lemma_pages_plain(pages, n - 1, primary);
        lemma_page_plain(pages[n - 1].0, pages[n - 1].1@, primary);
        lemma_plain_concat(pages_findings(pages, n - 1, primary), page_findings(pages[n - 1].0, pages[n - 1].1@, primary));
    }
}

proof fn lemma_matches_plain(
    page: u32,
    severity: Severity,
    detection_type: DetectionType,
    description: Seq<char>,
    value: Seq<char>,
    starts: Seq<usize>,
    n: int,
)
    requires
        severity != Severity::Clean,
        detection_type != DetectionType::EmbeddedJavaScript,
    ensures
        plain(match_findings(page, severity, detection_type, description, value, starts, n)),
    decreases n,
{
    if n > 0 {
        lemma_matches_plain(page, severity, detection_type, description, value, starts, n - 1);
    }
}

proof fn lemma_value_plain(page: u32, severity: Severity, detection_type: DetectionType, description: Seq<char>, value: Seq<char>)
    requires
        severity != Severity::Clean,
        detection_type != DetectionType::EmbeddedJavaScript,
    ensures
        plain(value_findings(page, severity, detection_type, description, value)),
{
    let starts = crate::matching::regex_match_starts(crate::matching::COMBINED_INSTRUCTIONS@, value);
    lemma_matches_plain(page, severity, detection_type, description, value, starts, starts.len() as int);
}

proof fn lemma_forms_plain(values: Seq<String>, n: int)
    ensures
        plain(form_value_findings(values, n)),
    decreases n,
{
    if n > 0 {
        lemma_forms_plain(values, n - 1);
        lemma_value_plain(0, Severity::Critical, DetectionType::HiddenFormField,
            crate::heuristic_detector::FORM_VALUE_DESCRIPTION@, values[n - 1]@);
        lemma_plain_concat(form_value_findings(values, n - 1), value_findings(0, Severity::Critical,
            DetectionType::HiddenFormField, crate::heuristic_detector::FORM_VALUE_DESCRIPTION@, values[n - 1]@));
    }
}

proof fn lemma_metadata_plain(entries: Seq<(String, String)>, n: int)
    ensures
        plain(metadata_findings(entries, n)),
    decreases n,
{
    if n > 0 {
        lemma_metadata_plain(entries, n - 1);
        let d = crate::heuristic_detector::METADATA_DESCRIPTION_PREFIX@ + entries[n - 1].0@ + "'"@;
        lemma_value_plain(0, Severity::Critical, DetectionType::MetadataInjection, d, entries[n - 1].1@);
        lemma_plain_concat(metadata_findings(entries, n - 1), value_findings(0, Severity::Critical,
            DetectionType::MetadataInjection, d, entries[n - 1].1@));
    }
}

proof fn lemma_annotations_plain(annotations: Seq<crate::pdf_parser::AnnotationInfo>, n: int)
    ensures
        plain(annotation_findings(annotations, n)),
    decreases n,
{
    if n > 0 {
        lemma_annotations_plain(annotations, n - 1);
        let a = annotations[n - 1];
        let d = crate::heuristic_detector::ANNOTATION_DESCRIPTION_PREFIX@ + a.annotation_type@
            + crate::heuristic_detector::ANNOTATION_DESCRIPTION_SUFFIX@;
        lemma_value_plain(a.page, Severity::Warning, DetectionType::HiddenAnnotation, d, a.content@);
        lemma_plain_concat(annotation_findings(annotations, n - 1), value_findings(a.page,
            Severity::Warning, DetectionType::HiddenAnnotation, d, a.content@));
    }
}

proof fn lemma_has_type_grows(a: Seq<FindingView>, b: Seq<FindingView>, t: DetectionType)
    requires
        has_type(a, t),
    ensures
        has_type(a + b, t),
{
    let i = choose|i: int| 0 <= i < a.len() && #[trigger] a[i].detection_type == t;
    assert((a + b)[i] == a[i]);
}

proof fn lemma_has_type_push(a: Seq<FindingView>, x: FindingView, t: DetectionType)
    requires
        has_type(a, t),
    ensures
        has_type(a.push(x), t),
{
    let i = choose|i: int| 0 <= i < a.len() && #[trigger] a[i].detection_type == t;
    assert(a.push(x)[i] == a[i]);
}

proof fn lemma_with_signal(fs: Seq<FindingView>, flag: bool, t: DetectionType, d: Seq<char>, e: Seq<char>, u: DetectionType)
    ensures
        flag ==> has_type(with_signal(fs, flag, t, d, e), t),
        has_type(fs, u) ==> has_type(with_signal(fs, flag, t, d, e), u),
        plain(fs) && t != DetectionType::EmbeddedJavaScript ==> plain(with_signal(fs, flag, t, d, e)),
{
    let r = with_signal(fs, flag, t, d, e);
    if flag && !has_type(fs, t) {
        assert(r[fs.len() as int].detection_type == t);
        if has_type(fs, u) {
            lemma_has_type_push(fs, r[fs.len() as int], u);
        }
        if plain(fs) && t != DetectionType::EmbeddedJavaScript {
            assert forall|i: int| 0 <= i < r.len() implies (#[trigger] r[i]).severity != Severity::Clean
                && r[i].detection_type != DetectionType::EmbeddedJavaScript by {
                if i < fs.len() {
                    assert(r[i] == fs[i]);
                }
            }
        }
    }
}

/// Every finding of `detect` is critical or a warning, and a JavaScript finding is there
/// exactly when the document embeds JavaScript.
pub proof fn lemma_detect_alarming_and_javascript(c: PdfContent)
    ensures
        forall|i: int| 0 <= i < detect_spec(c).len() ==> is_alarming(#[trigger] detect_spec(c)[i].severity),
        c.has_javascript <==> has_type(detect_spec(c), DetectionType::EmbeddedJavaScript),
{
    let p = primary_type(c);
    let js = DetectionType::EmbeddedJavaScript;
    let f1 = pages_findings(c.pages@, c.pages@.len() as int, p);
    lemma_pages_plain(c.pages@, c.pages@.len() as int, p);
    let f2 = with_signal(f1, c.has_white_text, DetectionType::WhiteText, crate::heuristic_detector::WHITE_TEXT_DESCRIPTION@, crate::heuristic_detector::WHITE_TEXT_EXCERPT@);
    lemma_with_signal(f1, c.has_white_text, DetectionType::WhiteText, crate::heuristic_detector::WHITE_TEXT_DESCRIPTION@, crate::heuristic_detector::WHITE_TEXT_EXCERPT@, js);
    let f3 = with_signal(f2, c.has_invisible_text, DetectionType::InvisibleText, crate::heuristic_detector::INVISIBLE_TEXT_DESCRIPTION@, crate::heuristic_detector::INVISIBLE_TEXT_EXCERPT@);
    lemma_with_signal(f2, c.has_invisible_text, DetectionType::InvisibleText, crate::heuristic_detector::INVISIBLE_TEXT_DESCRIPTION@, crate::heuristic_detector::INVISIBLE_TEXT_EXCERPT@, js);
    let f4 = with_signal(f3, c.has_microscopic_font, DetectionType::MicroscopicFont, crate::heuristic_detector::MICROSCOPIC_FONT_DESCRIPTION@, crate::heuristic_detector::MICROSCOPIC_FONT_EXCERPT@);
    lemma_with_signal(f3, c.has_microscopic_font, DetectionType::MicroscopicFont, crate::heuristic_detector::MICROSCOPIC_FONT_DESCRIPTION@, crate::heuristic_detector::MICROSCOPIC_FONT_EXCERPT@, js);
    let f5 = with_signal(f4, c.has_text_outside_bounds, DetectionType::TextOutsideBounds, crate::heuristic_detector::OUTSIDE_BOUNDS_DESCRIPTION@, crate::heuristic_detector::OUTSIDE_BOUNDS_EXCERPT@);
    lemma_with_signal(f4, c.has_text_outside_bounds, DetectionType::TextOutsideBounds, crate::heuristic_detector::OUTSIDE_BOUNDS_DESCRIPTION@, crate::heuristic_detector::OUTSIDE_BOUNDS_EXCERPT@, js);
    let jsf = crate::heuristic_detector::finding(0, Severity::Critical, js, crate::heuristic_detector::JAVASCRIPT_DESCRIPTION@, crate::heuristic_detector::JAVASCRIPT_EXCERPT@, None);
    let f6 = if c.has_javascript { f5.push(jsf) } else { f5 };
    let formf = crate::heuristic_detector::finding(0, Severity::Warning, DetectionType::HiddenFormField, crate::heuristic_detector::FORM_DESCRIPTION@, crate::heuristic_detector::FORM_EXCERPT@, None);
    let fv = form_value_findings(c.form_field_values@, c.form_field_values@.len() as int);
    lemma_forms_plain(c.form_field_values@, c.form_field_values@.len() as int);
    let f7 = if c.has_acroform_fields { f6.push(formf) + fv } else { f6 };
    let mf = metadata_findings(c.metadata@, c.metadata@.len() as int);
    lemma_metadata_plain(c.metadata@, c.metadata@.len() as int);
    let af = annotation_findings(c.annotations@, c.annotations@.len() as int);
    lemma_annotations_plain(c.annotations@, c.annotations@.len() as int);
    let r = f7 + mf + af;
    assert(r == detect_spec(c));
    assert(plain(f5));
    if c.has_javascript {
        assert(f6[f5.len() as int].detection_type == js);
        assert(has_type(f6, js));
        if c.has_acroform_fields {
            lemma_has_type_push(f6, formf, js);
            lemma_has_type_grows(f6.push(formf), fv, js);
        }
        lemma_has_type_grows(f7, mf, js);
        lemma_has_type_grows(f7 + mf, af, js);
        assert forall|i: int| 0 <= i < r.len() implies is_alarming(#[trigger] r[i].severity) by {
            let rest = if c.has_acroform_fields { seq![formf] + fv + mf + af } else { mf + af };
            if c.has_acroform_fields {
                assert(r =~= f5 + seq![jsf] + (seq![formf] + fv + mf + af));
            } else {
                assert(r =~= f5 + seq![jsf] + (mf + af));
            }
            if i < f5.len() {
                assert(r[i] == f5[i]);
            } else if i == f5.len() {
                assert(r[i] == jsf);
            } else {
                if c.has_acroform_fields {
                    assert(plain(seq![formf]));
                    lemma_plain_concat(seq![formf], fv);
                    lemma_plain_concat(seq![formf] + fv, mf);
                    lemma_plain_concat(seq![formf] + fv + mf, af);
                } else {
                    lemma_plain_concat(mf, af);
                }
                assert(r[i] == rest[i - f5.len() - 1]);
            }
        }
    } else {
        if c.has_acroform_fields {
            assert(plain(seq![formf]));
            lemma_plain_concat(f6, seq![formf]);
            assert(f6.push(formf) =~= f6 + seq![formf]);
            lemma_plain_concat(f6.push(formf), fv);
        }
        lemma_plain_concat(f7, mf);
        lemma_plain_concat(f7 + mf, af);
        assert(plain(r));
        if has_type(r, js) {
            let i = choose|i: int| 0 <= i < r.len() && #[trigger] r[i].detection_type == js;
            assert(r[i].detection_type != js);
        }
        assert forall|i: int| 0 <= i < r.len() implies is_alarming(#[trigger] r[i].severity) by {
            assert(r[i].severity != Severity::Clean);
        }
    }
}

/// A document is judged safe exactly when `detect` reports nothing.
pub proof fn lemma_safe_iff_no_findings(c: PdfContent)
    ensures
        verdict_spec(detect_spec(c)) == Verdict::Safe <==> detect_spec(c).len() == 0,
{
    lemma_detect_alarming_and_javascript(c);
    let fs = detect_spec(c);
    if fs.len() > 0 {
        assert(is_alarming(fs[0].severity));
    }
}

/// Every structural signal that the parser raised is reported by at least one finding of its type.
pub proof fn lemma_structural_signals_reported(c: PdfContent)
    ensures
        c.has_white_text ==> has_type(detect_spec(c), DetectionType::WhiteText),
        c.has_invisible_text ==> has_type(detect_spec(c), DetectionType::InvisibleText),
        c.has_microscopic_font ==> has_type(detect_spec(c), DetectionType::MicroscopicFont),
        c.has_text_outside_bounds ==> has_type(detect_spec(c), DetectionType::TextOutsideBounds),
{
    let p = primary_type(c);
    let f1 = pages_findings(c.pages@, c.pages@.len() as int, p);
    let wd = crate::heuristic_detector::WHITE_TEXT_DESCRIPTION@;
    let we = crate::heuristic_detector::WHITE_TEXT_EXCERPT@;
    let id = crate::heuristic_detector::INVISIBLE_TEXT_DESCRIPTION@;
    let ie = crate::heuristic_detector::INVISIBLE_TEXT_EXCERPT@;
    let md = crate::heuristic_detector::MICROSCOPIC_FONT_DESCRIPTION@;
    let me = crate::heuristic_detector::MICROSCOPIC_FONT_EXCERPT@;
    let od = crate::heuristic_detector::OUTSIDE_BOUNDS_DESCRIPTION@;
    let oe = crate::heuristic_detector::OUTSIDE_BOUNDS_EXCERPT@;
    let f2 = with_signal(f1, c.has_white_text, DetectionType::WhiteText, wd, we);
    let f3 = with_signal(f2, c.has_invisible_text, DetectionType::InvisibleText, id, ie);
    let f4 = with_signal(f3, c.has_microscopic_font, DetectionType::MicroscopicFont, md, me);
    let f5 = with_signal(f4, c.has_text_outside_bounds, DetectionType::TextOutsideBounds, od, oe);
    let jsf = crate::heuristic_detector::finding(0, Severity::Critical, DetectionType::EmbeddedJavaScript, crate::heuristic_detector::JAVASCRIPT_DESCRIPTION@, crate::heuristic_detector::JAVASCRIPT_EXCERPT@, None);
    let f6 = if c.has_javascript { f5.push(jsf) } else { f5 };
    let formf = crate::heuristic_detector::finding(0, Severity::Warning, DetectionType::HiddenFormField, crate::heuristic_detector::FORM_DESCRIPTION@, crate::heuristic_detector::FORM_EXCERPT@, None);
    let fv = form_value_findings(c.form_field_values@, c.form_field_values@.len() as int);
    let f7 = if c.has_acroform_fields { f6.push(formf) + fv } else { f6 };
    let mf = metadata_findings(c.metadata@, c.metadata@.len() as int);
    let af = annotation_findings(c.annotations@, c.annotations@.len() as int);
    assert(detect_spec(c) == f7 + mf + af);
    let ts = seq![DetectionType::WhiteText, DetectionType::InvisibleText, DetectionType::MicroscopicFont, DetectionType::TextOutsideBounds];
    let flags = seq![c.has_white_text, c.has_invisible_text, c.has_microscopic_font, c.has_text_outside_bounds];
    assert forall|k: int| 0 <= k < 4 && #[trigger] flags[k] implies has_type(detect_spec(c), ts[k]) by {
        let t = ts[k];
        lemma_with_signal(f1, c.has_white_text, DetectionType::WhiteText, wd, we, t);
        lemma_with_signal(f2, c.has_invisible_text, DetectionType::InvisibleText, id, ie, t);
        lemma_with_signal(f3, c.has_microscopic_font, DetectionType::MicroscopicFont, md, me, t);
        lemma_with_signal(f4, c.has_text_outside_bounds, DetectionType::TextOutsideBounds, od, oe, t);
        assert(has_type(f5, t));
        if c.has_javascript {
            lemma_has_type_push(f5, jsf, t);
        }
        if c.has_acroform_fields {
            lemma_has_type_push(f6, formf, t);
            lemma_has_type_grows(f6.push(formf), fv, t);
        }
        lemma_has_type_grows(f7, mf, t);
        lemma_has_type_grows(f7 + mf, af, t);
    }
    assert(flags[0] == c.has_white_text);
    assert(flags[1] == c.has_invisible_text);
    assert(flags[2] == c.has_microscopic_font);
    assert(flags[3] == c.has_text_outside_bounds);
}

/// All findings are citation findings.
pub open spec fn all_citation_type(fs: Seq<FindingView>) -> bool {
    forall|i: int| 0 <= i < fs.len() ==> (#[trigger] fs[i]).detection_type == DetectionType::CitationPoisoning
}

proof fn lemma_citation_concat(a: Seq<FindingView>, b: Seq<FindingView>)
    requires
        all_citation_type(a),
        all_citation_type(b),
    ensures
        all_citation_type(a + b),
{
    assert forall|i: int| 0 <= i < (a + b).len() implies (#[trigger] (a + b)[i]).detection_type == DetectionType::CitationPoisoning by {
        if i < a.len() {
            assert((a + b)[i] == a[i]);
        } else {
            assert((a + b)[i] == b[i - a.len()]);
        }
    }
}

proof fn lemma_listed_citations(list: Seq<u32>, pages: Seq<(u32, String)>, k: int)
    ensures
        all_citation_type(listed_citations(list, pages, k)),
    decreases k,
{
    if k > 0 {
        lemma_listed_citations(list, pages, k - 1);
        let extra = match crate::detectors::page_text(pages, list[k - 1]) {
            Some(t) => citation_finding(list[k - 1], t),
            None => Seq::empty(),
        };
        lemma_citation_concat(listed_citations(list, pages, k - 1), extra);
    }
}

proof fn lemma_all_citations(pages: Seq<(u32, String)>, k: int)
    ensures
        all_citation_type(all_citations(pages, k)),
    decreases k,
{
    if k > 0 {
        lemma_all_citations(pages, k - 1);
        lemma_citation_concat(all_citations(pages, k - 1), citation_finding(pages[k - 1].0, pages[k - 1].1@));
    }
}

/// Without white text there is nothing to report; with it, a standalone white-text warning is
/// given exactly when no fabricated citation was found.
pub proof fn lemma_citation_suppresses_white_text(has_white_text: bool, list: Seq<u32>, pages: Seq<(u32, String)>)
    ensures
        !has_white_text ==> white_text_findings(has_white_text, list, pages).len() == 0,
        has_white_text ==> (has_type(white_text_findings(has_white_text, list, pages), DetectionType::WhiteText)
            <==> !has_type(white_text_findings(has_white_text, list, pages), DetectionType::CitationPoisoning)),
{
    if has_white_text {
        let a = listed_citations(list, pages, list.len() as int);
        let b = if a.len() == 0 { all_citations(pages, pages.len() as int) } else { Seq::empty() };
        lemma_listed_citations(list, pages, list.len() as int);
        lemma_all_citations(pages, pages.len() as int);
        assert(all_citation_type(b));
        lemma_citation_concat(a, b);
        let r = white_text_findings(has_white_text, list, pages);
        if a.len() == 0 && b.len() == 0 {
            assert(r.len() == 1);
            assert(r[0].detection_type == DetectionType::WhiteText);
            assert(!has_type(r, DetectionType::CitationPoisoning));
        } else {
            assert(r =~= a + b);
            assert(!has_type(r, DetectionType::WhiteText));
            if a.len() > 0 {
                assert(r[0] == a[0]);
                assert(r[0].detection_type == DetectionType::CitationPoisoning);
            } else {
                assert(r[0] == b[0]);
                assert(r[0].detection_type == DetectionType::CitationPoisoning);
            }
        }
    }
}

proof fn lemma_zero_width_count_zero(s: Seq<char>, n: int)
    requires
        0 <= n <= s.len(),
    ensures
        zero_width_count(s, n) == 0 <==> forall|j: int| 0 <= j < n ==> !is_zero_width(#[trigger] s[j]),
    decreases n,
{
    if n > 0 {
        lemma_zero_width_count_zero(s, n - 1);
        if zero_width_count(s, n) == 0 {
            assert forall|j: int| 0 <= j < n implies !is_zero_width(#[trigger] s[j]) by {
                if j < n - 1 {
                } else {
                }
            }
        }
    }
}

/// A page gets a zero-width finding exactly when its text holds a zero-width character.
pub proof fn lemma_zero_width_reported(page: u32, text: Seq<char>)
    ensures
        zero_width_findings(page, text).len() > 0 <==> exists|j: int| 0 <= j < text.len() && is_zero_width(#[trigger] text[j]),
        zero_width_findings(page, text).len() <= 1,
{
    lemma_zero_width_count_zero(text, text.len() as int);
}

/// Page number `n` is among the first `k` pages and shows white text.
pub open spec fn shown_white(pages: Seq<PdfPage>, k: int, n: u32) -> bool {
    exists|j: int| 0 <= j < k && (#[trigger] pages[j]).number == n && page_has_white_text(pages[j])
}

proof fn lemma_white_pages_sorted(pages: Seq<PdfPage>, k: int)
    requires
        0 <= k <= pages.len(),
        forall|i: int, j: int| 0 <= i < j < pages.len() ==> pages[i].number < pages[j].number,
    ensures
        white_pages(pages, k).0 == (white_pages(pages, k).1.len() > 0),
        forall|a: int, b: int| 0 <= a < b < white_pages(pages, k).1.len()
            ==> white_pages(pages, k).1[a] < white_pages(pages, k).1[b],
        forall|a: int| 0 <= a < white_pages(pages, k).1.len() ==> shown_white(pages, k, #[trigger] white_pages(pages, k).1[a]),
        forall|j: int| 0 <= j < k && page_has_white_text(#[trigger] pages[j])
            ==> white_pages(pages, k).1.contains(pages[j].number),
    decreases k,
{
    if k > 0 {
        lemma_white_pages_sorted(pages, k - 1);
        let prev = white_pages(pages, k - 1).1;
        let p = pages[k - 1];
        assert forall|a: int| 0 <= a < prev.len() implies shown_white(pages, k, #[trigger] prev[a]) && prev[a] < p.number by {
            assert(shown_white(pages, k - 1, prev[a]));
            let j = choose|j: int| 0 <= j < k - 1 && (#[trigger] pages[j]).number == prev[a] && page_has_white_text(pages[j]);
            assert(pages[j].number == prev[a]);
        }
        if page_has_white_text(p) {
            if prev.contains(p.number) {
                assert(white_pages(pages, k).1 == prev);
            } else {
                let cur = prev.push(p.number);
                assert(white_pages(pages, k).1 == cur);
                assert forall|a: int| 0 <= a < cur.len() implies shown_white(pages, k, #[trigger] cur[a]) by {
                    if a < prev.len() {
                        assert(cur[a] == prev[a]);
                    } else {
                        assert(pages[k - 1].number == cur[a]);
                    }
                }
                assert forall|j: int| 0 <= j < k && page_has_white_text(#[trigger] pages[j]) implies cur.contains(pages[j].number) by {
                    if j < k - 1 {
                        let a = choose|a: int| 0 <= a < prev.len() && prev[a] == pages[j].number;
                        assert(cur[a] == prev[a]);
                    } else {
                        assert(cur[prev.len() as int] == p.number);
                    }
                }
            }
        } else {
            assert(white_pages(pages, k).1 == prev);
        }
    }
}

/// The pages found to show white text come out in strictly ascending order, each once, and are
/// exactly the pages whose content shows text while the colour is white; white text is
/// reported as present exactly when that list is not empty. This holds of every document
/// whose pages are numbered in ascending order, as `document_from` gives them.
pub proof fn lemma_white_text_pages_ascending(doc: PdfDocument)
    requires
        doc.pages_ascending(),
    ensures
        white_pages(doc.pages@, doc.pages@.len() as int).0 == (white_pages(doc.pages@, doc.pages@.len() as int).1.len() > 0),
        forall|a: int, b: int| 0 <= a < b < white_pages(doc.pages@, doc.pages@.len() as int).1.len()
            ==> white_pages(doc.pages@, doc.pages@.len() as int).1[a] < white_pages(doc.pages@, doc.pages@.len() as int).1[b],
        forall|n: u32| white_pages(doc.pages@, doc.pages@.len() as int).1.contains(n)
            <==> #[trigger] shown_white(doc.pages@, doc.pages@.len() as int, n),
{
    let pages = doc.pages@;
    let k = pages.len() as int;
    lemma_white_pages_sorted(pages, k);
    let r = white_pages(pages, k).1;
    assert forall|n: u32| r.contains(n) <==> #[trigger] shown_white(pages, k, n) by {
        if r.contains(n) {
            let a = choose|a: int| 0 <= a < r.len() && r[a] == n;
            assert(shown_white(pages, k, r[a]));
        }
        if shown_white(pages, k, n) {
            let j = choose|j: int| 0 <= j < k && (#[trigger] pages[j]).number == n && page_has_white_text(pages[j]);
            assert(page_has_white_text(pages[j]));
        }
    }
}

} // verus!
