use vstd::prelude::*;
use crate::detectors::{is_text_showing, shows_text, SharedSignals};
use crate::heuristic_detector::{finding, lemma_push_view};
use crate::models::{findings_view, DetectionType, Finding, FindingView, Severity};
use crate::pdf_model::{operator_is, Operation, PdfDocument, PdfObject, PdfPage};

verus! {

pub const INVISIBLE_DESCRIPTION: &'static str = "Invisible text (render mode 3) detected in document";
pub const INVISIBLE_EXCERPT: &'static str = "Text present in extraction layer but not rendered visually (Tr 3)";

/// Whether some page shows text in render mode 3 (neither filled nor stroked).
#[derive(Debug)]
pub struct Signals {
    pub has_invisible_text: bool,
}

/// Text in the text layer that is never drawn.
#[derive(Debug)]
pub struct InvisibleTextDetector;

/// The render mode that a `Tr` operand sets: an integer (cut to 32 bits), or 0.
pub open spec fn render_mode_of(obj: PdfObject) -> i32 {
    match obj {
        PdfObject::Integer(i) => i as i32,
        _ => 0,
    }
}

/// The render mode after the first `n` operations of a page, and whether text was shown in mode 3.
pub open spec fn invisible_scan(ops: Seq<Operation>, n: int) -> (i32, bool)
    decreases n,
{
    if n <= 0 {
        (0, false)
    } else {
        let prev = invisible_scan(ops, n - 1);
        let op = ops[n - 1];
        if op.operator@ == "BT"@ {
            (0, prev.1)
        } else if op.operator@ == "Tr"@ {
            if op.operands@.len() > 0 {
                (render_mode_of(op.operands@[0]), prev.1)
            } else {
                prev
            }
        } else if shows_text(op) {
            (prev.0, prev.1 || prev.0 == 3)
        } else {
            prev
        }
    }
}

/// Whether one of the first `k` pages shows invisible text.
pub open spec fn invisible_pages(pages: Seq<PdfPage>, k: int) -> bool
    decreases k,
{
    if k <= 0 {
        false
    } else {
        invisible_pages(pages, k - 1) || match pages[k - 1].operations {
            Some(ops) => invisible_scan(ops@, ops@.len() as int).1,
            None => false,
        }
    }
}

fn render_mode_value(obj: &PdfObject) -> (m: i32)
    ensures
        m == render_mode_of(*obj),
{
    match obj {
        PdfObject::Integer(i) => *i as i32,
        _ => 0,
    }
}

fn scan_page_invisible(ops: &Vec<Operation>) -> (found: bool)
    ensures
        found == invisible_scan(ops@, ops@.len() as int).1,
{
    let mut mode: i32 = 0;
    let mut found = false;
    let mut i: usize = 0;
    while i < ops.len()
        invariant
            i <= ops@.len(),
            invisible_scan(ops@, i as int) == (mode, found),
        decreases ops.len() - i,
    {
        let op = &ops[i];
        if operator_is(op, "BT") {
            mode = 0;
        } else if operator_is(op, "Tr") {
            if op.operands.len() > 0 {
                mode = render_mode_value(&op.operands[0]);
            }
        } else if is_text_showing(op) {
            if mode == 3 {
                found = true;
            }
        }
        i = i + 1;
    }
    found
}

/// The finding of invisible text, unless the file was updated incrementally.
pub open spec fn invisible_findings(has_invisible_text: bool, has_incremental_update: bool) -> Seq<FindingView> {
    if !has_invisible_text || has_incremental_update {
        Seq::empty()
    } else {
        seq![finding(0, Severity::Warning, DetectionType::InvisibleText, INVISIBLE_DESCRIPTION@,
            INVISIBLE_EXCERPT@, None)]
    }
}

impl InvisibleTextDetector {
    pub fn name(&self) -> (r: &'static str)
        ensures
            r@ == "invisible_text"@,
    {
        "invisible_text"
    }

    /// Whether some page shows text in render mode 3 (the mode that `BT` resets to 0 and `Tr` sets).
    pub fn extract(&self, doc: &PdfDocument, _raw_bytes: &[u8], _pages: &Vec<(u32, String)>) -> (s: Signals)
        ensures
            s.has_invisible_text == invisible_pages(doc.pages@, doc.pages@.len() as int),
    {
        let mut k: usize = 0;
        while k < doc.pages.len()
            invariant
                k <= doc.pages@.len(),
                !invisible_pages(doc.pages@, k as int),
            decreases doc.pages.len() - k,
        {
            let found = match &doc.pages[k].operations {
                Some(ops) => scan_page_invisible(ops),
                None => false,
            };
            if found {
                proof {
                    lemma_invisible_monotone(doc.pages@, k + 1, doc.pages@.len() as int);
                }
                return Signals { has_invisible_text: true };
            }
            k = k + 1;
        }
        Signals { has_invisible_text: false }
    }

    /// One warning for invisible text; an incremental update explains such text (a signature
    /// layer, say), so none is given then.
    pub fn detect(&self, signals: &Signals, _pages: &Vec<(u32, String)>, shared: &SharedSignals) -> (findings: Vec<Finding>)
        ensures
            findings_view(findings@) == invisible_findings(signals.has_invisible_text, shared.has_incremental_update),
    {
        let mut findings: Vec<Finding> = Vec::new();
        if signals.has_invisible_text && !shared.has_incremental_update {
            let f = Finding {
                page: 0,
                severity: Severity::Warning,
                detection_type: DetectionType::InvisibleText,
                description: INVISIBLE_DESCRIPTION.to_string(),
                excerpt: INVISIBLE_EXCERPT.to_string(),
                char_offset: None,
            };
            proof {
                lemma_push_view(findings@, f);
            }
            findings.push(f);
        }
        assert(findings_view(findings@) =~= invisible_findings(signals.has_invisible_text, shared.has_incremental_update));
        findings
    }
}

proof fn lemma_invisible_monotone(pages: Seq<PdfPage>, k: int, m: int)
    requires
        invisible_pages(pages, k),
        k <= m,
    ensures
        invisible_pages(pages, m),
    decreases m - k,
{
    if k < m {
        lemma_invisible_monotone(pages, k, m - 1);
    }
}

} // verus!
