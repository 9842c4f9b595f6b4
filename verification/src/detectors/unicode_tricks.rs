use vstd::prelude::*;
use crate::detectors::{find_page, page_text, pages_fit, SharedSignals};
use crate::heuristic_detector::{finding, is_bidi_override, is_bidi_override_char, lemma_push_view, BIDI_DESCRIPTION};
use crate::models::{findings_view, DetectionType, Finding, FindingView, Severity};
use crate::pdf_model::PdfDocument;
use crate::text::{
    byte_offset, chars_of, context_of, extract_context, lemma_byte_offset_bound, lemma_byte_offset_step,
    text_fits, utf8_width,
};

verus! {

/// The page and byte offset of every direction override, page by page.
#[derive(Debug)]
pub struct Signals {
    pub bidi_positions: Vec<(u32, usize)>,
}

/// Direction overrides, which make the text read differently from how it is shown.
#[derive(Debug)]
pub struct UnicodeTricksDetector;

/// Positions of the direction overrides among the first `n` characters of a page.
pub open spec fn overrides_in(page: u32, text: Seq<char>, n: int) -> Seq<(u32, usize)>
    decreases n,
{
    if n <= 0 {
        Seq::empty()
    } else if is_bidi_override(text[n - 1]) {
        overrides_in(page, text, n - 1).push((page, byte_offset(text, n - 1) as usize))
    } else {
        overrides_in(page, text, n - 1)
    }
}

/// Positions of the direction overrides of the first `k` pages.
pub open spec fn override_positions(pages: Seq<(u32, String)>, k: int) -> Seq<(u32, usize)>
    decreases k,
{
    if k <= 0 {
        Seq::empty()
    } else {
        override_positions(pages, k - 1) + overrides_in(pages[k - 1].0, pages[k - 1].1@, pages[k - 1].1@.len() as int)
    }
}

fn collect_overrides(page: u32, text: &str, positions: &mut Vec<(u32, usize)>)
    requires
        text_fits(text@),
    ensures
        final(positions)@ == old(positions)@ + overrides_in(page, text@, text@.len() as int),
{
    let chars = chars_of(text);
    let ghost start = positions@;
    let mut pos: usize = 0;
    let mut i: usize = 0;
    proof {
        assert(chars@.take(0) =~= Seq::<char>::empty());
        assert(vstd::utf8::encode_utf8(Seq::<char>::empty()) =~= Seq::<u8>::empty());
        assert(start + overrides_in(page, text@, 0) =~= start);
    }
    while i < chars.len()
        invariant
            chars@ == text@,
            text_fits(text@),
            i <= chars@.len(),
            pos == byte_offset(chars@, i as int),
            positions@ == start + overrides_in(page, text@, i as int),
        decreases chars.len() - i,
    {
        let c = chars[i];
        proof {
            lemma_byte_offset_step(chars@, i as int);
            lemma_byte_offset_bound(chars@, i + 1);
        }
        if is_bidi_override_char(c) {
            positions.push((page, pos));
        }
        assert(positions@ =~= start + overrides_in(page, text@, i + 1));
        pos = pos + utf8_width(c);
        i = i + 1;
    }
}

/// The text of `page`, or the empty text.
pub open spec fn text_or_empty(pages: Seq<(u32, String)>, page: u32) -> Seq<char> {
    match page_text(pages, page) {
        Some(t) => t,
        None => Seq::empty(),
    }
}

/// One critical finding for each of the first `n` positions.
pub open spec fn override_findings(positions: Seq<(u32, usize)>, pages: Seq<(u32, String)>, n: int) -> Seq<FindingView>
    decreases n,
{
    if n <= 0 {
        Seq::empty()
    } else {
        let (page, pos) = positions[n - 1];
        override_findings(positions, pages, n - 1).push(finding(page, Severity::Critical,
            DetectionType::UnicodeTrick, BIDI_DESCRIPTION@, context_of(text_or_empty(pages, page), pos as int, 30),
            Some(pos)))
    }
}

impl UnicodeTricksDetector {
    pub fn name(&self) -> (r: &'static str)
        ensures
            r@ == "unicode_tricks"@,
    {
        "unicode_tricks"
    }

    /// The byte offset of every direction override (U+202A–U+202E, U+2066–U+2069), page by page.
    pub fn extract(&self, _doc: &PdfDocument, _raw_bytes: &[u8], pages: &Vec<(u32, String)>) -> (s: Signals)
        requires
            pages_fit(pages@),
        ensures
            s.bidi_positions@ == override_positions(pages@, pages@.len() as int),
    {
        let mut positions: Vec<(u32, usize)> = Vec::new();
        let mut k: usize = 0;
        while k < pages.len()
            invariant
                k <= pages@.len(),
                pages_fit(pages@),
                positions@ == override_positions(pages@, k as int),
            decreases pages.len() - k,
        {
            assert(text_fits(pages@[k as int].1@));
            collect_overrides(pages[k].0, pages[k].1.as_str(), &mut positions);
            k = k + 1;
        }
        Signals { bidi_positions: positions }
    }

    /// One critical finding per override, with 30 bytes of context on each side.
    pub fn detect(&self, signals: &Signals, pages: &Vec<(u32, String)>, _shared: &SharedSignals) -> (findings: Vec<Finding>)
        ensures
            findings_view(findings@) == override_findings(signals.bidi_positions@, pages@, signals.bidi_positions@.len() as int),
    {
        let mut findings: Vec<Finding> = Vec::new();
        let mut i: usize = 0;
        assert(findings_view(findings@) =~= Seq::<FindingView>::empty());
        while i < signals.bidi_positions.len()
            invariant
                i <= signals.bidi_positions@.len(),
                findings_view(findings@) == override_findings(signals.bidi_positions@, pages@, i as int),
            decreases signals.bidi_positions.len() - i,
        {
            let (page, pos) = signals.bidi_positions[i];
            let excerpt = match find_page(pages, page) {
                Some(t) => extract_context(t.as_str(), pos, 30),
                None => extract_context("", pos, 30),
            };
            proof {
                reveal_strlit("");
            }
            let f = Finding {
                page,
                severity: Severity::Critical,
                detection_type: DetectionType::UnicodeTrick,
                description: BIDI_DESCRIPTION.to_string(),
                excerpt,
                char_offset: Some(pos),
            };
            proof {
                lemma_push_view(findings@, f);
            }
            findings.push(f);
            i = i + 1;
        }
        findings
    }
}

} // verus!
