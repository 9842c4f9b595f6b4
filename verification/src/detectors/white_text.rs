use vstd::prelude::*;
use crate::detectors::{find_first, find_page, first_match, page_text, shows_text, is_text_showing, SharedSignals};
use crate::heuristic_detector::{finding, lemma_push_view};
use crate::matching::FAKE_CITATION;
use crate::models::{findings_view, DetectionType, Finding, FindingView, Severity};
use crate::pdf_model::{
    above_0_99, above_0_99_value, below_0_01, below_0_01_value, float_or, float_value_or,
    operator_is, Operation, PdfDocument, PdfPage, BITS_1,
};
use crate::text::{context_of, extract_context};

verus! {

pub const CITATION_DESCRIPTION: &'static str = "Fabricated legal citation detected — fake jurisprudence to mislead AI analysis";
pub const WHITE_TEXT_DESCRIPTION: &'static str = "White/invisible text detected in document content stream";
pub const WHITE_TEXT_EXCERPT: &'static str = "Color set to white (1,1,1) before text rendering";

/// Whether any page shows text in white, and the pages that do, in page order.
#[derive(Debug)]
pub struct Signals {
    pub has_white_text: bool,
    pub white_text_pages: Vec<u32>,
}

/// Text drawn in white, invisible on the page but present for a reader of the text layer.
#[derive(Debug)]
pub struct WhiteTextDetector;

/// The state after the first `n` operations of a page: whether the colour is white, and
/// whether text was shown while it was.
pub open spec fn white_scan(ops: Seq<Operation>, n: int) -> (bool, bool)
    decreases n,
{
    if n <= 0 {
        (false, false)
    } else {
        let prev = white_scan(ops, n - 1);
        let op = ops[n - 1];
        let a = op.operands@;
        if (op.operator@ == "rg"@ || op.operator@ == "RG"@) && a.len() == 3 {
            (above_0_99(float_or(a[0], 0)) && above_0_99(float_or(a[1], 0)) && above_0_99(float_or(a[2], 0)), prev.1)
        } else if (op.operator@ == "g"@ || op.operator@ == "G"@) && a.len() == 1 {
            (above_0_99(float_or(a[0], 0)), prev.1)
        } else if (op.operator@ == "k"@ || op.operator@ == "K"@) && a.len() == 4 {
            (below_0_01(float_or(a[0], BITS_1)) && below_0_01(float_or(a[1], BITS_1))
                && below_0_01(float_or(a[2], BITS_1)) && below_0_01(float_or(a[3], BITS_1)), prev.1)
        } else if shows_text(op) && prev.0 {
            (prev.0, true)
        } else {
            prev
        }
    }
}

/// Whether the page shows white text.
pub open spec fn page_has_white_text(p: PdfPage) -> bool {
    match p.operations {
        Some(ops) => white_scan(ops@, ops@.len() as int).1,
        None => false,
    }
}

/// Whether any of the first `k` pages shows white text, and those pages (each once), in order.
pub open spec fn white_pages(pages: Seq<PdfPage>, k: int) -> (bool, Seq<u32>)
    decreases k,
{
    if k <= 0 {
        (false, Seq::empty())
    } else {
        let prev = white_pages(pages, k - 1);
        if page_has_white_text(pages[k - 1]) {
            (true, if prev.1.contains(pages[k - 1].number) { prev.1 } else { prev.1.push(pages[k - 1].number) })
        } else {
            prev
        }
    }
}

fn any_operator(op: &Operation, a: &str, b: &str) -> (r: bool)
    ensures
        r == (op.operator@ == a@ || op.operator@ == b@),
{
    operator_is(op, a) || operator_is(op, b)
}

fn scan_page_white(ops: &Vec<Operation>) -> (found: bool)
    ensures
        found == white_scan(ops@, ops@.len() as int).1,
{
    let mut white = false;
    let mut found = false;
    let mut i: usize = 0;
    while i < ops.len()
        invariant
            i <= ops@.len(),
            white_scan(ops@, i as int) == (white, found),
        decreases ops.len() - i,
    {
        let op = &ops[i];
        let n = op.operands.len();
        if any_operator(op, "rg", "RG") && n == 3 {
            white = above_0_99_value(float_value_or(&op.operands[0], 0))
                && above_0_99_value(float_value_or(&op.operands[1], 0))
                && above_0_99_value(float_value_or(&op.operands[2], 0));
        } else if any_operator(op, "g", "G") && n == 1 {
            white = above_0_99_value(float_value_or(&op.operands[0], 0));
        } else if any_operator(op, "k", "K") && n == 4 {
            white = below_0_01_value(float_value_or(&op.operands[0], BITS_1))
                && below_0_01_value(float_value_or(&op.operands[1], BITS_1))
                && below_0_01_value(float_value_or(&op.operands[2], BITS_1))
                && below_0_01_value(float_value_or(&op.operands[3], BITS_1));
        } else if is_text_showing(op) && white {
            found = true;
        }
        i = i + 1;
    }
    found
}

fn contains_page(v: &Vec<u32>, p: u32) -> (r: bool)
    ensures
        r == v@.contains(p),
{
    let mut i: usize = 0;
    while i < v.len()
        invariant
            i <= v@.len(),
            forall|k: int| 0 <= k < i ==> v@[k] != p,
        decreases v.len() - i,
    {
        if v[i] == p {
            return true;
        }
        i = i + 1;
    }
    false
}

/// The citation finding of a page text that holds a fabricated citation.
pub open spec fn citation_finding(page: u32, text: Seq<char>) -> Seq<FindingView> {
    match first_match(FAKE_CITATION@, text) {
        Some(start) => seq![finding(page, Severity::Warning, DetectionType::CitationPoisoning,
            CITATION_DESCRIPTION@, context_of(text, start as int, 80), Some(start))],
        None => Seq::empty(),
    }
}

/// Citation findings of the first `k` listed pages that the document has.
pub open spec fn listed_citations(list: Seq<u32>, pages: Seq<(u32, String)>, k: int) -> Seq<FindingView>
    decreases k,
{
    if k <= 0 {
        Seq::empty()
    } else {
        listed_citations(list, pages, k - 1) + match page_text(pages, list[k - 1]) {
            Some(t) => citation_finding(list[k - 1], t),
            None => Seq::empty(),
        }
    }
}

/// Citation findings of the first `k` pages.
pub open spec fn all_citations(pages: Seq<(u32, String)>, k: int) -> Seq<FindingView>
    decreases k,
{
    if k <= 0 {
        Seq::empty()
    } else {
        all_citations(pages, k - 1) + citation_finding(pages[k - 1].0, pages[k - 1].1@)
    }
}

/// The findings of white text: fabricated citations on the white-text pages, or, when there are
/// none there, on any page; and when no page holds one, a warning about the white text itself.
pub open spec fn white_text_findings(has_white_text: bool, list: Seq<u32>, pages: Seq<(u32, String)>) -> Seq<FindingView> {
    if !has_white_text {
        Seq::empty()
    } else {
        let a = listed_citations(list, pages, list.len() as int);
        let b = if a.len() == 0 { all_citations(pages, pages.len() as int) } else { Seq::empty() };
        let c = if a.len() == 0 && b.len() == 0 {
            seq![finding(0, Severity::Warning, DetectionType::WhiteText, WHITE_TEXT_DESCRIPTION@, WHITE_TEXT_EXCERPT@, None)]
        } else {
            Seq::empty()
        };
        a + b + c
    }
}

fn push_citation(findings: &mut Vec<Finding>, page: u32, text: &str) -> (found: bool)
    ensures
        findings_view(final(findings)@) == findings_view(old(findings)@) + citation_finding(page, text@),
        found == (citation_finding(page, text@).len() > 0),
{
    match find_first(FAKE_CITATION, text) {
        Some(start) => {
            let f = Finding {
                page,
                severity: Severity::Warning,
                detection_type: DetectionType::CitationPoisoning,
                description: CITATION_DESCRIPTION.to_string(),
                excerpt: extract_context(text, start, 80),
                char_offset: Some(start),
            };
            proof {
                lemma_push_view(findings@, f);
            }
            findings.push(f);
            true
        },
        None => {
            assert(findings_view(findings@) + Seq::<FindingView>::empty() =~= findings_view(findings@));
            false
        },
    }
}

impl WhiteTextDetector {
    pub fn name(&self) -> (r: &'static str)
        ensures
            r@ == "white_text"@,
    {
        "white_text"
    }

    /// Finds the pages that show text while the fill or stroke colour is white (RGB and grey
    /// above 0.99, CMYK below 0.01 in every component).
    pub fn extract(&self, doc: &PdfDocument, _raw_bytes: &[u8], _pages: &Vec<(u32, String)>) -> (s: Signals)
        ensures
            (s.has_white_text, s.white_text_pages@) == white_pages(doc.pages@, doc.pages@.len() as int),
    {
        let mut has_white_text = false;
        let mut white_text_pages: Vec<u32> = Vec::new();
        let mut k: usize = 0;
        while k < doc.pages.len()
            invariant
                k <= doc.pages@.len(),
                white_pages(doc.pages@, k as int) == (has_white_text, white_text_pages@),
            decreases doc.pages.len() - k,
        {
            let page = &doc.pages[k];
            let found = match &page.operations {
                Some(ops) => scan_page_white(ops),
                None => false,
            };
            if found {
                has_white_text = true;
                if !contains_page(&white_text_pages, page.number) {
                    white_text_pages.push(page.number);
                }
            }
            k = k + 1;
        }
        Signals { has_white_text, white_text_pages }
    }

    /// Reports white text. A fabricated citation (a precedent number beyond the real series)
    /// is the likely payload: look for one on the white-text pages, then on every page; only
    /// when none is found is the white text reported on its own.
    pub fn detect(&self, signals: &Signals, pages: &Vec<(u32, String)>, _shared: &SharedSignals) -> (findings: Vec<Finding>)
        ensures
            findings_view(findings@) == white_text_findings(signals.has_white_text, signals.white_text_pages@, pages@),
    {
        let mut findings: Vec<Finding> = Vec::new();
        if !signals.has_white_text {
            assert(findings_view(findings@) =~= Seq::<FindingView>::empty());
            return findings;
        }
        let list = &signals.white_text_pages;
        let mut citation_found = false;
        let mut i: usize = 0;
        assert(findings_view(findings@) =~= listed_citations(list@, pages@, 0));
        while i < list.len()
            invariant
                i <= list@.len(),
                findings_view(findings@) == listed_citations(list@, pages@, i as int),
                citation_found == (findings_view(findings@).len() > 0),
            decreases list.len() - i,
        {
            match find_page(pages, list[i]) {
                Some(text) => {
                    if push_citation(&mut findings, list[i], text.as_str()) {
                        citation_found = true;
                    }
                },
                None => {},
            }
            assert(findings_view(findings@) =~= listed_citations(list@, pages@, i + 1));
            i = i + 1;
        }
        let ghost a = findings_view(findings@);
        if !citation_found {
            let mut k: usize = 0;
            assert(a + all_citations(pages@, 0) =~= a);
            while k < pages.len()
                invariant
                    k <= pages@.len(),
                    findings_view(findings@) == a + all_citations(pages@, k as int),
                    citation_found == (all_citations(pages@, k as int).len() > 0),
                decreases pages.len() - k,
            {
                if push_citation(&mut findings, pages[k].0, pages[k].1.as_str()) {
                    citation_found = true;
                }
                assert(findings_view(findings@) =~= a + all_citations(pages@, k + 1));
                k = k + 1;
            }
        }
        if !citation_found {
            let f = Finding {
                page: 0,
                severity: Severity::Warning,
                detection_type: DetectionType::WhiteText,
                description: WHITE_TEXT_DESCRIPTION.to_string(),
                excerpt: WHITE_TEXT_EXCERPT.to_string(),
                char_offset: None,
            };
            proof {
                lemma_push_view(findings@, f);
            }
            findings.push(f);
        }
        assert(findings_view(findings@) =~= white_text_findings(signals.has_white_text, signals.white_text_pages@, pages@));
        findings
    }
}

} // verus!
