use vstd::prelude::*;
use crate::detectors::{is_text_showing, shows_text, SharedSignals};
use crate::heuristic_detector::{finding, lemma_push_view, MICROSCOPIC_FONT_EXCERPT};
use crate::models::{findings_view, DetectionType, Finding, FindingView, Severity};
use crate::pdf_model::{float_or, float_value_or, is_microscopic, is_microscopic_value, operator_is, FloatValue, Operation, PdfDocument, PdfPage, BITS_12};

verus! {

pub const MICROSCOPIC_DESCRIPTION: &'static str = "Microscopic font size (<=3pt) detected in document";

/// Whether some page shows text in a font of at most 3 points.
#[derive(Debug)]
pub struct Signals {
    pub has_microscopic_font: bool,
}

/// Text set in a font too small to read.
#[derive(Debug)]
pub struct MicroscopicFontDetector;

/// The font size after the first `n` operations of a page (12 at first), and whether text was
/// shown in a microscopic size.
pub open spec fn font_scan(ops: Seq<Operation>, n: int) -> (FloatValue, bool)
    decreases n,
{
    if n <= 0 {
        (FloatValue::Bits(BITS_12), false)
    } else {
        let prev = font_scan(ops, n - 1);
        let op = ops[n - 1];
        if op.operator@ == "Tf"@ {
            if op.operands@.len() >= 2 {
                (float_or(op.operands@[1], BITS_12), prev.1)
            } else {
                prev
            }
        } else if shows_text(op) {
            (prev.0, prev.1 || is_microscopic(prev.0))
        } else {
            prev
        }
    }
}

/// Whether one of the first `k` pages shows microscopic text.
pub open spec fn microscopic_pages(pages: Seq<PdfPage>, k: int) -> bool
    decreases k,
{
    if k <= 0 {
        false
    } else {
        microscopic_pages(pages, k - 1) || match pages[k - 1].operations {
            Some(ops) => font_scan(ops@, ops@.len() as int).1,
            None => false,
        }
    }
}

proof fn lemma_microscopic_monotone(pages: Seq<PdfPage>, k: int, m: int)
    requires
        microscopic_pages(pages, k),
        k <= m,
    ensures
        microscopic_pages(pages, m),
    decreases m - k,
{
    if k < m {
        lemma_microscopic_monotone(pages, k, m - 1);
    }
}

fn scan_fonts(ops: &Vec<Operation>) -> (found: bool)
    ensures
        found == font_scan(ops@, ops@.len() as int).1,
{
    let mut size = FloatValue::Bits(BITS_12);
    let mut found = false;
    let mut i: usize = 0;
    while i < ops.len()
        invariant
            i <= ops@.len(),
            font_scan(ops@, i as int) == (size, found),
        decreases ops.len() - i,
    {
        let op = &ops[i];
        if operator_is(op, "Tf") {
            if op.operands.len() >= 2 {
                size = float_value_or(&op.operands[1], BITS_12);
            }
        } else if is_text_showing(op) {
            if is_microscopic_value(size) {
                found = true;
            }
        }
        i = i + 1;
    }
    found
}

/// The finding of microscopic text, if there is some.
pub open spec fn microscopic_findings(has_microscopic_font: bool) -> Seq<FindingView> {
    if has_microscopic_font {
        seq![finding(0, Severity::Warning, DetectionType::MicroscopicFont, MICROSCOPIC_DESCRIPTION@,
            MICROSCOPIC_FONT_EXCERPT@, None)]
    } else {
        Seq::empty()
    }
}

impl MicroscopicFontDetector {
    pub fn name(&self) -> (r: &'static str)
        ensures
            r@ == "microscopic_font"@,
    {
        "microscopic_font"
    }

    /// Whether some page shows text while the font size (set by `Tf`, 12 at first) is above 0
    /// and at most 3.
    pub fn extract(&self, doc: &PdfDocument, _raw: &[u8], _pages: &Vec<(u32, String)>) -> (s: Signals)
        ensures
            s.has_microscopic_font == microscopic_pages(doc.pages@, doc.pages@.len() as int),
    {
        let mut k: usize = 0;
        while k < doc.pages.len()
            invariant
                k <= doc.pages@.len(),
                !microscopic_pages(doc.pages@, k as int),
            decreases doc.pages.len() - k,
        {
            let found = match &doc.pages[k].operations {
                Some(ops) => scan_fonts(ops),
                None => false,
            };
            if found {
                proof {
                    lemma_microscopic_monotone(doc.pages@, k + 1, doc.pages@.len() as int);
                }
                return Signals { has_microscopic_font: true };
            }
            k = k + 1;
        }
        Signals { has_microscopic_font: false }
    }

    /// One warning when some text is microscopic.
    pub fn detect(&self, s: &Signals, _pages: &Vec<(u32, String)>, _shared: &SharedSignals) -> (findings: Vec<Finding>)
        ensures
            findings_view(findings@) == microscopic_findings(s.has_microscopic_font),
    {
        let mut findings: Vec<Finding> = Vec::new();
        if s.has_microscopic_font {
            let f = Finding {
                page: 0,
                severity: Severity::Warning,
                detection_type: DetectionType::MicroscopicFont,
                description: MICROSCOPIC_DESCRIPTION.to_string(),
                excerpt: MICROSCOPIC_FONT_EXCERPT.to_string(),
                char_offset: None,
            };
            proof {
                lemma_push_view(findings@, f);
            }
            findings.push(f);
        }
        assert(findings_view(findings@) =~= microscopic_findings(s.has_microscopic_font));
        findings
    }
}

} // verus!
