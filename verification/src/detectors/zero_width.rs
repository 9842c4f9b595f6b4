use vstd::prelude::*;
use crate::detectors::{pages_fit, SharedSignals};
use crate::heuristic_detector::{detect_zero_width_characters, is_zero_width, is_zero_width_char, zero_width_findings};
use crate::models::{findings_view, Finding, FindingView};
use crate::pdf_model::PdfDocument;
use crate::text::{byte_offset, chars_of, lemma_byte_offset_bound, lemma_byte_offset_step, text_fits, utf8_width};

verus! {

/// The byte offset of every zero-width character, page by page.
#[derive(Debug)]
pub struct Signals {
    pub zero_width_positions: Vec<usize>,
}

/// Zero-width characters that hide text between visible words.
#[derive(Debug)]
pub struct ZeroWidthDetector;

/// Byte offsets of the zero-width characters among the first `n` characters of a text.
pub open spec fn zero_width_in(text: Seq<char>, n: int) -> Seq<usize>
    decreases n,
{
    if n <= 0 {
        Seq::empty()
    } else if is_zero_width(text[n - 1]) {
        zero_width_in(text, n - 1).push(byte_offset(text, n - 1) as usize)
    } else {
        zero_width_in(text, n - 1)
    }
}

/// Byte offsets of the zero-width characters of the first `k` pages.
pub open spec fn zero_width_positions(pages: Seq<(u32, String)>, k: int) -> Seq<usize>
    decreases k,
{
    if k <= 0 {
        Seq::empty()
    } else {
        zero_width_positions(pages, k - 1) + zero_width_in(pages[k - 1].1@, pages[k - 1].1@.len() as int)
    }
}

/// The zero-width findings of the first `k` pages.
pub open spec fn pages_zero_width(pages: Seq<(u32, String)>, k: int) -> Seq<FindingView>
    decreases k,
{
    if k <= 0 {
        Seq::empty()
    } else {
        pages_zero_width(pages, k - 1) + zero_width_findings(pages[k - 1].0, pages[k - 1].1@)
    }
}

/// The findings of the detector: none when no zero-width character was found, otherwise the
/// zero-width finding of each page that has such characters.
pub open spec fn zero_width_detector_findings(positions: Seq<usize>, pages: Seq<(u32, String)>) -> Seq<FindingView> {
    if positions.len() == 0 {
        Seq::empty()
    } else {
        pages_zero_width(pages, pages.len() as int)
    }
}

fn collect_zero_width(text: &str, positions: &mut Vec<usize>)
    requires
        text_fits(text@),
    ensures
        final(positions)@ == old(positions)@ + zero_width_in(text@, text@.len() as int),
{
    let chars = chars_of(text);
    let ghost start = positions@;
    let mut pos: usize = 0;
    let mut i: usize = 0;
    proof {
        assert(chars@.take(0) =~= Seq::<char>::empty());
        assert(vstd::utf8::encode_utf8(Seq::<char>::empty()) =~= Seq::<u8>::empty());
        assert(start + zero_width_in(text@, 0) =~= start);
    }
    while i < chars.len()
        invariant
            chars@ == text@,
            text_fits(text@),
            i <= chars@.len(),
            pos == byte_offset(chars@, i as int),
            positions@ == start + zero_width_in(text@, i as int),
        decreases chars.len() - i,
    {
        let c = chars[i];
        proof {
            lemma_byte_offset_step(chars@, i as int);
            lemma_byte_offset_bound(chars@, i + 1);
        }
        if is_zero_width_char(c) {
            positions.push(pos);
        }
        assert(positions@ =~= start + zero_width_in(text@, i + 1));
        pos = pos + utf8_width(c);
        i = i + 1;
    }
}

impl ZeroWidthDetector {
    pub fn name(&self) -> (r: &'static str)
        ensures
            r@ == "zero_width"@,
    {
        "zero_width"
    }

    /// The byte offset of every zero-width character, page by page.
    pub fn extract(&self, _doc: &PdfDocument, _raw: &[u8], pages: &Vec<(u32, String)>) -> (s: Signals)
        requires
            pages_fit(pages@),
        ensures
            s.zero_width_positions@ == zero_width_positions(pages@, pages@.len() as int),
    {
        let mut positions: Vec<usize> = Vec::new();
        let mut k: usize = 0;
        while k < pages.len()
            invariant
                k <= pages@.len(),
                pages_fit(pages@),
                positions@ == zero_width_positions(pages@, k as int),
            decreases pages.len() - k,
        {
            assert(text_fits(pages@[k as int].1@));
            collect_zero_width(pages[k].1.as_str(), &mut positions);
            k = k + 1;
        }
        Signals { zero_width_positions: positions }
    }

    /// When zero-width characters were found, a critical finding for each page that has them:
    /// how many there are, the visible characters around them, and the first one's offset.
    pub fn detect(&self, s: &Signals, pages: &Vec<(u32, String)>, _shared: &SharedSignals) -> (findings: Vec<Finding>)
        requires
            pages_fit(pages@),
        ensures
            findings_view(findings@) == zero_width_detector_findings(s.zero_width_positions@, pages@),
    {
        let mut findings: Vec<Finding> = Vec::new();
        assert(findings_view(findings@) =~= Seq::<FindingView>::empty());
        if s.zero_width_positions.len() == 0 {
            return findings;
        }
        let mut k: usize = 0;
        while k < pages.len()
            invariant
                k <= pages@.len(),
                pages_fit(pages@),
                findings_view(findings@) == pages_zero_width(pages@, k as int),
            decreases pages.len() - k,
        {
            assert(text_fits(pages@[k as int].1@));
            detect_zero_width_characters(pages[k].0, pages[k].1.as_str(), &mut findings);
            k = k + 1;
        }
        findings
    }
}

} // verus!
