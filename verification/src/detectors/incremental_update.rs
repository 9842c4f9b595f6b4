use vstd::prelude::*;
use crate::detectors::{count_eof_markers, eof_count, SharedSignals};
use crate::heuristic_detector::{finding, lemma_push_view};
use crate::models::{findings_view, DetectionType, Finding, FindingView, Severity};
use crate::pdf_model::PdfDocument;

verus! {

pub const INCREMENTAL_DESCRIPTION: &'static str = "Incremental update detected — content appended after original PDF structure";
pub const INCREMENTAL_EXCERPT: &'static str = "Multiple %%EOF markers found — possible post-signature content injection";

/// Whether the file was updated incrementally.
#[derive(Debug)]
pub struct Signals {
    pub has_incremental_update: bool,
}

/// Content appended to a file after its first end-of-file marker, such as after a signature.
#[derive(Debug)]
pub struct IncrementalUpdateDetector;

/// The finding of an incremental update, if there is one.
pub open spec fn incremental_findings(has_incremental_update: bool) -> Seq<FindingView> {
    if has_incremental_update {
        seq![finding(0, Severity::Warning, DetectionType::IncrementalUpdate, INCREMENTAL_DESCRIPTION@,
            INCREMENTAL_EXCERPT@, None)]
    } else {
        Seq::empty()
    }
}

impl IncrementalUpdateDetector {
    pub fn name(&self) -> (r: &'static str)
        ensures
            r@ == "incremental_update"@,
    {
        "incremental_update"
    }

    /// A file with more than one end-of-file marker was updated incrementally.
    pub fn extract(&self, _doc: &PdfDocument, raw_bytes: &[u8], _pages: &Vec<(u32, String)>) -> (s: Signals)
        ensures
            s.has_incremental_update == (eof_count(raw_bytes@) > 1),
    {
        Signals { has_incremental_update: count_eof_markers(raw_bytes) > 1 }
    }

    /// One warning when the file was updated incrementally.
    pub fn detect(&self, signals: &Signals, _pages: &Vec<(u32, String)>, _shared: &SharedSignals) -> (findings: Vec<Finding>)
        ensures
            findings_view(findings@) == incremental_findings(signals.has_incremental_update),
    {
        let mut findings: Vec<Finding> = Vec::new();
        if signals.has_incremental_update {
            let f = Finding {
                page: 0,
                severity: Severity::Warning,
                detection_type: DetectionType::IncrementalUpdate,
                description: INCREMENTAL_DESCRIPTION.to_string(),
                excerpt: INCREMENTAL_EXCERPT.to_string(),
                char_offset: None,
            };
            proof {
                lemma_push_view(findings@, f);
            }
            findings.push(f);
        }
        assert(findings_view(findings@) =~= incremental_findings(signals.has_incremental_update));
        findings
    }
}

} // verus!
