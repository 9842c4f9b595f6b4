use vstd::prelude::*;
use crate::detectors::SharedSignals;
use crate::heuristic_detector::{finding, lemma_push_view, OUTSIDE_BOUNDS_DESCRIPTION, OUTSIDE_BOUNDS_EXCERPT};
use crate::models::{findings_view, DetectionType, Finding, FindingView, Severity};

verus! {

/// Whether some text is placed more than 10 points outside its page's media box.
#[derive(Debug)]
pub struct Signals {
    pub has_text_outside_bounds: bool,
}

/// Text placed outside the visible page. Its extraction adds text positions in single-precision
/// arithmetic, so it is done by the program around this library.
#[derive(Debug)]
pub struct TextOutsideBoundsDetector;

/// The finding of text outside the page, if there is some.
pub open spec fn outside_bounds_findings(has_text_outside_bounds: bool) -> Seq<FindingView> {
    if has_text_outside_bounds {
        seq![finding(0, Severity::Warning, DetectionType::TextOutsideBounds, OUTSIDE_BOUNDS_DESCRIPTION@,
            OUTSIDE_BOUNDS_EXCERPT@, None)]
    } else {
        Seq::empty()
    }
}

impl TextOutsideBoundsDetector {
    pub fn name(&self) -> (r: &'static str)
        ensures
            r@ == "text_outside_bounds"@,
    {
        "text_outside_bounds"
    }

    /// One warning when some text lies outside its page.
    pub fn detect(&self, s: &Signals, _pages: &Vec<(u32, String)>, _shared: &SharedSignals) -> (findings: Vec<Finding>)
        ensures
            findings_view(findings@) == outside_bounds_findings(s.has_text_outside_bounds),
    {
        let mut findings: Vec<Finding> = Vec::new();
        if s.has_text_outside_bounds {
            let f = Finding {
                page: 0,
                severity: Severity::Warning,
                detection_type: DetectionType::TextOutsideBounds,
                description: OUTSIDE_BOUNDS_DESCRIPTION.to_string(),
                excerpt: OUTSIDE_BOUNDS_EXCERPT.to_string(),
                char_offset: None,
            };
            proof {
                lemma_push_view(findings@, f);
            }
            findings.push(f);
        }
        assert(findings_view(findings@) =~= outside_bounds_findings(s.has_text_outside_bounds));
        findings
    }
}

} // verus!
