use vstd::prelude::*;
use crate::matching::{match_starts, regex_match_starts};
use crate::text::{context_of, text_fits};
use crate::heuristic_detector::{finding, lemma_push_view};
use crate::models::{findings_view, DetectionType, Finding, FindingView, Severity};
use crate::matching::COMBINED_INSTRUCTIONS;
use crate::pdf_model::{
    above_0_99, above_0_99_value, float_or, float_value_or, is_microscopic, is_microscopic_value,
    operator_is, FloatValue, Operation, PdfDocument, PdfPage, BITS_12,
};

pub use crate::matching::{combined_instruction_patterns, instruction_patterns_en, instruction_patterns_pt_br};
pub use crate::text::extract_context;

pub mod actual_text;
pub mod annotations;
pub mod forms;
pub mod incremental_update;
pub mod instruction_patterns;
pub mod invisible_text;
pub mod javascript;
pub mod metadata;
pub mod microscopic_font;
pub mod ocg_layer;
pub mod text_outside_bounds;
pub mod token_flooding;
pub mod unicode_tricks;
pub mod white_text;
pub mod zero_width;
pub mod registry;

pub use registry::run_all;

verus! {

/// Signals that several detectors share.
#[derive(Debug)]
pub struct SharedSignals {
    pub has_white_text: bool,
    pub has_microscopic_font: bool,
    pub has_incremental_update: bool,
}

impl Default for SharedSignals {
    fn default() -> (s: SharedSignals)
        ensures
            !s.has_white_text,
            !s.has_microscopic_font,
            !s.has_incremental_update,
    {
        SharedSignals { has_white_text: false, has_microscopic_font: false, has_incremental_update: false }
    }
}

/// Operators that show text.
pub open spec fn shows_text(op: Operation) -> bool {
    op.operator@ == "Tj"@ || op.operator@ == "TJ"@ || op.operator@ == "'"@ || op.operator@ == "\""@
}

pub fn is_text_showing(op: &Operation) -> (b: bool)
    ensures
        b == shows_text(*op),
{
    operator_is(op, "Tj") || operator_is(op, "TJ") || operator_is(op, "'") || operator_is(op, "\"")
}

/// The state after the first `n` operations of a page: whether the fill colour is white, the
/// font size, whether white text was shown, and whether microscopic text was shown.
pub open spec fn shared_scan(ops: Seq<Operation>, n: int) -> (bool, FloatValue, bool, bool)
    decreases n,
{
    if n <= 0 {
        (false, FloatValue::Bits(BITS_12), false, false)
    } else {
        let prev = shared_scan(ops, n - 1);
        let op = ops[n - 1];
        let args = op.operands@;
        if op.operator@ == "rg"@ {
            if args.len() == 3 {
                (above_0_99(float_or(args[0], 0)) && above_0_99(float_or(args[1], 0))
                    && above_0_99(float_or(args[2], 0)), prev.1, prev.2, prev.3)
            } else {
                prev
            }
        } else if op.operator@ == "g"@ {
            if args.len() == 1 {
                (above_0_99(float_or(args[0], 0)), prev.1, prev.2, prev.3)
            } else {
                prev
            }
        } else if op.operator@ == "Tf"@ {
            if args.len() >= 2 {
                (prev.0, float_or(args[1], BITS_12), prev.2, prev.3)
            } else {
                prev
            }
        } else if shows_text(op) {
            (prev.0, prev.1, prev.2 || prev.0, prev.3 || is_microscopic(prev.1))
        } else {
            prev
        }
    }
}

/// Whether white text and microscopic text were shown on the first `k` pages.
pub open spec fn shared_pages(pages: Seq<PdfPage>, k: int) -> (bool, bool)
    decreases k,
{
    if k <= 0 {
        (false, false)
    } else {
        let prev = shared_pages(pages, k - 1);
        match pages[k - 1].operations {
            Some(ops) => {
                let s = shared_scan(ops@, ops@.len() as int);
                (prev.0 || s.2, prev.1 || s.3)
            },
            None => prev,
        }
    }
}

/// The bytes of the end-of-file marker `%%EOF`.
pub open spec fn eof_marker() -> Seq<u8> {
    seq![37u8, 37u8, 69u8, 79u8, 70u8]
}

/// Number of non-overlapping end-of-file markers in `b` from `pos` on, scanning left to right.
pub open spec fn eof_count_from(b: Seq<u8>, pos: int) -> nat
    decreases b.len() - pos,
{
    if pos < 0 || pos + 5 > b.len() {
        0
    } else if b.subrange(pos, pos + 5) == eof_marker() {
        1 + eof_count_from(b, pos + 5)
    } else {
        eof_count_from(b, pos + 1)
    }
}

/// Number of end-of-file markers in `b`.
pub open spec fn eof_count(b: Seq<u8>) -> nat {
    eof_count_from(b, 0)
}

fn marker_at(b: &[u8], pos: usize) -> (r: bool)
    requires
        pos + 5 <= b@.len(),
    ensures
        r == (b@.subrange(pos as int, pos + 5) == eof_marker()),
{
    let r = b[pos] == 37 && b[pos + 1] == 37 && b[pos + 2] == 69 && b[pos + 3] == 79 && b[pos + 4] == 70;
    if r {
        assert(b@.subrange(pos as int, pos + 5) =~= eof_marker());
    } else {
        assert(b@.subrange(pos as int, pos + 5) != eof_marker()) by {
            if b@.subrange(pos as int, pos + 5) == eof_marker() {
                assert(b@.subrange(pos as int, pos + 5)[0] == b@[pos as int]);
                assert(b@.subrange(pos as int, pos + 5)[1] == b@[pos + 1]);
                assert(b@.subrange(pos as int, pos + 5)[2] == b@[pos + 2]);
                assert(b@.subrange(pos as int, pos + 5)[3] == b@[pos + 3]);
                assert(b@.subrange(pos as int, pos + 5)[4] == b@[pos + 4]);
            }
        }
    }
    r
}

/// Number of end-of-file markers in the raw bytes of a file; more than one means the file
/// was updated incrementally.
pub fn count_eof_markers(raw_bytes: &[u8]) -> (c: usize)
    ensures
        c == eof_count(raw_bytes@),
{
    let mut count: usize = 0;
    let mut pos: usize = 0;
    while pos <= raw_bytes.len() && 5 <= raw_bytes.len() - pos
        invariant
            pos <= raw_bytes@.len() + 5,
            count <= pos,
            eof_count(raw_bytes@) == count + eof_count_from(raw_bytes@, pos as int),
        decreases raw_bytes.len() + 5 - pos,
    {
        if marker_at(raw_bytes, pos) {
            count = count + 1;
            pos = pos + 5;
        } else {
            pos = pos + 1;
        }
    }
    count
}

/// Scans one page's operations for white and microscopic text.
fn scan_page_shared(ops: &Vec<Operation>) -> (r: (bool, bool))
    ensures
        r.0 == shared_scan(ops@, ops@.len() as int).2,
        r.1 == shared_scan(ops@, ops@.len() as int).3,
{
    let mut white = false;
    let mut size = FloatValue::Bits(BITS_12);
    let mut saw_white = false;
    let mut saw_micro = false;
    let mut i: usize = 0;
    while i < ops.len()
        invariant
            i <= ops@.len(),
            shared_scan(ops@, i as int) == (white, size, saw_white, saw_micro),
        decreases ops.len() - i,
    {
        let op = &ops[i];
        if operator_is(op, "rg") {
            if op.operands.len() == 3 {
                white = above_0_99_value(float_value_or(&op.operands[0], 0))
                    && above_0_99_value(float_value_or(&op.operands[1], 0))
                    && above_0_99_value(float_value_or(&op.operands[2], 0));
            }
        } else if operator_is(op, "g") {
            if op.operands.len() == 1 {
                white = above_0_99_value(float_value_or(&op.operands[0], 0));
            }
        } else if operator_is(op, "Tf") {
            if op.operands.len() >= 2 {
                size = float_value_or(&op.operands[1], BITS_12);
            }
        } else if is_text_showing(op) {
            if white {
                saw_white = true;
            }
            if is_microscopic_value(size) {
                saw_micro = true;
            }
        }
        i = i + 1;
    }
    (saw_white, saw_micro)
}

/// What every page's content shows of white and microscopic text, and whether the raw bytes
/// hold more than one end-of-file marker.
pub open spec fn shared_signals_spec(doc: PdfDocument, raw_bytes: Seq<u8>) -> (bool, bool, bool) {
    let p = shared_pages(doc.pages@, doc.pages@.len() as int);
    (p.0, p.1, eof_count(raw_bytes) > 1)
}

/// The signals shared by the detectors: text shown in white (fill colour above 0.99 in every
/// component) or in a font of at most 3 points, on any page, and incremental updates.
pub fn build_shared_signals(doc: &PdfDocument, raw_bytes: &[u8], _pages: &Vec<(u32, String)>) -> (s: SharedSignals)
    ensures
        (s.has_white_text, s.has_microscopic_font, s.has_incremental_update) == shared_signals_spec(*doc, raw_bytes@),
{
    let mut has_white_text = false;
    let mut has_microscopic_font = false;
    let mut k: usize = 0;
    while k < doc.pages.len()
        invariant
            k <= doc.pages@.len(),
            shared_pages(doc.pages@, k as int) == (has_white_text, has_microscopic_font),
        decreases doc.pages.len() - k,
    {
        match &doc.pages[k].operations {
            Some(ops) => {
                let (w, m) = scan_page_shared(ops);
                has_white_text = has_white_text || w;
                has_microscopic_font = has_microscopic_font || m;
            },
            None => {},
        }
        k = k + 1;
    }
    let count = count_eof_markers(raw_bytes);
    SharedSignals { has_white_text, has_microscopic_font, has_incremental_update: count > 1 }
}

/// Every page text fits in memory (as every Rust string does).
pub open spec fn pages_fit(pages: Seq<(u32, String)>) -> bool {
    forall|i: int| 0 <= i < pages.len() ==> text_fits(#[trigger] pages[i].1@)
}

/// The text of the first page, from index `i` on, numbered `page`.
pub open spec fn page_text_from(pages: Seq<(u32, String)>, page: u32, i: int) -> Option<Seq<char>>
    decreases pages.len() - i,
{
    if i < 0 || i >= pages.len() {
        None
    } else if pages[i].0 == page {
        Some(pages[i].1@)
    } else {
        page_text_from(pages, page, i + 1)
    }
}

/// The text of page `page`.
pub open spec fn page_text(pages: Seq<(u32, String)>, page: u32) -> Option<Seq<char>> {
    page_text_from(pages, page, 0)
}

/// The text of page `page`, if the document has that page.
pub fn find_page<'a>(pages: &'a Vec<(u32, String)>, page: u32) -> (r: Option<&'a String>)
    ensures
        match r {
            Some(t) => page_text(pages@, page) == Some(t@) && exists|i: int| 0 <= i < pages@.len() && pages@[i].1 == *t,
            None => page_text(pages@, page) is None,
        },
{
    let mut i: usize = 0;
    while i < pages.len()
        invariant
            i <= pages@.len(),
            page_text(pages@, page) == page_text_from(pages@, page, i as int),
        decreases pages.len() - i,
    {
        if pages[i].0 == page {
            return Some(&pages[i].1);
        }
        i = i + 1;
    }
    None
}

/// The start of the first match of `pattern` in `text` (`Regex::find`).
pub open spec fn first_match(pattern: Seq<char>, text: Seq<char>) -> Option<usize> {
    let m = regex_match_starts(pattern, text);
    if m.len() > 0 {
        Some(m[0])
    } else {
        None
    }
}

/// The start of the first match of `pattern` in `text`.
pub fn find_first(pattern: &str, text: &str) -> (r: Option<usize>)
    ensures
        r == first_match(pattern@, text@),
        match r {
            Some(p) => p <= vstd::utf8::encode_utf8(text@).len(),
            None => true,
        },
{
    let m = match_starts(pattern, text);
    if m.len() > 0 {
        Some(m[0])
    } else {
        None
    }
}

/// The finding of the first instruction phrase (in either language) in `value`, with 80 bytes
/// of context on each side, if there is one.
pub open spec fn first_phrase_finding(page: u32, severity: Severity, t: DetectionType, description: Seq<char>, value: Seq<char>) -> Seq<FindingView> {
    match first_match(COMBINED_INSTRUCTIONS@, value) {
        Some(start) => seq![finding(page, severity, t, description, context_of(value, start as int, 80), Some(start))],
        None => Seq::empty(),
    }
}

/// The findings of the first instruction phrase in each of the first `n` values.
pub open spec fn first_phrase_findings(page: u32, severity: Severity, t: DetectionType, description: Seq<char>, values: Seq<String>, n: int) -> Seq<FindingView>
    decreases n,
{
    if n <= 0 {
        Seq::empty()
    } else {
        first_phrase_findings(page, severity, t, description, values, n - 1)
            + first_phrase_finding(page, severity, t, description, values[n - 1]@)
    }
}

/// Every text fits in memory (as every Rust string does).
pub open spec fn texts_fit(values: Seq<String>) -> bool {
    forall|i: int| 0 <= i < values.len() ==> text_fits(#[trigger] values[i]@)
}

/// Adds, for each value, the finding of its first instruction phrase.
pub fn push_first_phrases(
    findings: &mut Vec<Finding>,
    page: u32,
    severity: Severity,
    t: DetectionType,
    description: &str,
    values: &Vec<String>,
)
    ensures
        findings_view(final(findings)@) == findings_view(old(findings)@) + first_phrase_findings(page, severity, t,
            description@, values@, values@.len() as int),
{
    let ghost start = findings_view(findings@);
    assert(start + first_phrase_findings(page, severity, t, description@, values@, 0) =~= start);
    let mut i: usize = 0;
    while i < values.len()
        invariant
            i <= values@.len(),
            findings_view(findings@) == start + first_phrase_findings(page, severity, t, description@, values@, i as int),
        decreases values.len() - i,
    {
        let value = values[i].as_str();
        match find_first(COMBINED_INSTRUCTIONS, value) {
            Some(s) => {
                let f = Finding {
                    page,
                    severity,
                    detection_type: t,
                    description: description.to_string(),
                    excerpt: extract_context(value, s, 80),
                    char_offset: Some(s),
                };
                proof {
                    lemma_push_view(findings@, f);
                }
                findings.push(f);
            },
            None => {},
        }
        assert(findings_view(findings@) =~= start + first_phrase_findings(page, severity, t, description@, values@, i + 1));
        i = i + 1;
    }
}

} // verus!
