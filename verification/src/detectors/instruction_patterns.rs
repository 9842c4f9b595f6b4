use vstd::prelude::*;
use crate::detectors::SharedSignals;
use crate::heuristic_detector::{finding, lemma_push_view, INSTRUCTION_DESCRIPTION};
use crate::matching::{match_starts, regex_match_starts, EN_INSTRUCTIONS, PT_BR_INSTRUCTIONS};
use crate::models::{findings_view, DetectionType, Finding, FindingView, Severity};
use crate::pdf_model::PdfDocument;
use crate::text::{context_of, decimal, decimal_string, extract_context};

verus! {

/// For each page with matches: the page, the first match's offset, and the first match in
/// context followed by the number of matches when there are several.
#[derive(Debug)]
pub struct Signals {
    pub pt_br_matches: Vec<(u32, usize, String)>,
    pub en_matches: Vec<(u32, usize, String)>,
}

/// Instruction phrases ("ignore previous instructions" and the like) in the page text.
#[derive(Debug)]
pub struct InstructionPatternsDetector;

/// The value of a list of matches.
pub open spec fn matches_view(v: Seq<(u32, usize, String)>) -> Seq<(u32, usize, Seq<char>)> {
    v.map_values(|m: (u32, usize, String)| (m.0, m.1, m.2@))
}

/// The entry of one page for `pattern`, if it matches there.
pub open spec fn page_match(page: u32, text: Seq<char>, pattern: Seq<char>) -> Seq<(u32, usize, Seq<char>)> {
    let m = regex_match_starts(pattern, text);
    if m.len() == 0 {
        Seq::empty()
    } else {
        seq![(page, m[0], context_of(text, m[0] as int, 80) + if m.len() > 1 {
            " ("@ + decimal(m.len()) + "x)"@
        } else {
            Seq::empty()
        })]
    }
}

/// The entries of the first `k` pages for `pattern`.
pub open spec fn pages_matches(pages: Seq<(u32, String)>, pattern: Seq<char>, k: int) -> Seq<(u32, usize, Seq<char>)>
    decreases k,
{
    if k <= 0 {
        Seq::empty()
    } else {
        pages_matches(pages, pattern, k - 1) + page_match(pages[k - 1].0, pages[k - 1].1@, pattern)
    }
}

/// For each page where `pattern` matches: the page, the first match's offset, and the first
/// match in context, with the number of matches when there are several.
pub fn collect_matches(pages: &Vec<(u32, String)>, pattern: &str) -> (r: Vec<(u32, usize, String)>)
    ensures
        matches_view(r@) == pages_matches(pages@, pattern@, pages@.len() as int),
{
    let mut results: Vec<(u32, usize, String)> = Vec::new();
    let mut k: usize = 0;
    assert(matches_view(results@) =~= Seq::<(u32, usize, Seq<char>)>::empty());
    while k < pages.len()
        invariant
            k <= pages@.len(),
            matches_view(results@) == pages_matches(pages@, pattern@, k as int),
        decreases pages.len() - k,
    {
        let page = pages[k].0;
        let text = pages[k].1.as_str();
        let matches = match_starts(pattern, text);
        if matches.len() > 0 {
            let first = matches[0];
            let mut excerpt = extract_context(text, first, 80);
            if matches.len() > 1 {
                excerpt.append(" (");
                excerpt.append(decimal_string(matches.len() as u128).as_str());
                excerpt.append("x)");
            }
            let ghost e = excerpt@;
            assert(e =~= context_of(text@, first as int, 80) + if matches@.len() > 1 {
                " ("@ + decimal(matches@.len()) + "x)"@
            } else {
                Seq::empty()
            });
            let ghost before = results@;
            results.push((page, first, excerpt));
            assert(matches_view(results@) =~= matches_view(before).push((page, first, e)));
        }
        assert(matches_view(results@) =~= pages_matches(pages@, pattern@, k + 1));
        k = k + 1;
    }
    results
}

/// One warning of type `t` per entry.
pub open spec fn entry_findings(entries: Seq<(u32, usize, Seq<char>)>, t: DetectionType, n: int) -> Seq<FindingView>
    decreases n,
{
    if n <= 0 {
        Seq::empty()
    } else {
        entry_findings(entries, t, n - 1).push(finding(entries[n - 1].0, Severity::Warning, t,
            INSTRUCTION_DESCRIPTION@, entries[n - 1].2, Some(entries[n - 1].1)))
    }
}

fn push_entries(findings: &mut Vec<Finding>, entries: &Vec<(u32, usize, String)>, t: DetectionType)
    ensures
        findings_view(final(findings)@) == findings_view(old(findings)@) + entry_findings(matches_view(entries@), t, entries@.len() as int),
{
    let ghost start = findings_view(findings@);
    assert(start + entry_findings(matches_view(entries@), t, 0) =~= start);
    let mut i: usize = 0;
    while i < entries.len()
        invariant
            i <= entries@.len(),
            findings_view(findings@) == start + entry_findings(matches_view(entries@), t, i as int),
        decreases entries.len() - i,
    {
        let f = Finding {
            page: entries[i].0,
            severity: Severity::Warning,
            detection_type: t,
            description: INSTRUCTION_DESCRIPTION.to_string(),
            excerpt: entries[i].2.clone(),
            char_offset: Some(entries[i].1),
        };
        proof {
            lemma_push_view(findings@, f);
            assert(matches_view(entries@)[i as int] == (entries@[i as int].0, entries@[i as int].1, entries@[i as int].2@));
        }
        findings.push(f);
        assert(findings_view(findings@) =~= start + entry_findings(matches_view(entries@), t, i + 1));
        i = i + 1;
    }
}

impl InstructionPatternsDetector {
    pub fn name(&self) -> (r: &'static str)
        ensures
            r@ == "instruction_patterns"@,
    {
        "instruction_patterns"
    }

    /// The matches of the Portuguese and of the English instruction phrases, page by page.
    pub fn extract(&self, _doc: &PdfDocument, _raw_bytes: &[u8], pages: &Vec<(u32, String)>) -> (s: Signals)
        ensures
            matches_view(s.pt_br_matches@) == pages_matches(pages@, PT_BR_INSTRUCTIONS@, pages@.len() as int),
            matches_view(s.en_matches@) == pages_matches(pages@, EN_INSTRUCTIONS@, pages@.len() as int),
    {
        Signals {
            pt_br_matches: collect_matches(pages, PT_BR_INSTRUCTIONS),
            en_matches: collect_matches(pages, EN_INSTRUCTIONS),
        }
    }

    /// A warning per page with Portuguese phrases (instruction pattern) and per page with
    /// English ones (foreign-language instruction).
    pub fn detect(&self, signals: &Signals, _pages: &Vec<(u32, String)>, _shared: &SharedSignals) -> (findings: Vec<Finding>)
        ensures
            findings_view(findings@) == entry_findings(matches_view(signals.pt_br_matches@),
                DetectionType::InstructionPattern, signals.pt_br_matches@.len() as int)
                + entry_findings(matches_view(signals.en_matches@), DetectionType::ForeignLanguageInstruction,
                signals.en_matches@.len() as int),
    {
        let mut findings: Vec<Finding> = Vec::new();
        assert(findings_view(findings@) =~= Seq::<FindingView>::empty());
        push_entries(&mut findings, &signals.pt_br_matches, DetectionType::InstructionPattern);
        push_entries(&mut findings, &signals.en_matches, DetectionType::ForeignLanguageInstruction);
        assert(findings_view(findings@) =~= entry_findings(matches_view(signals.pt_br_matches@),
            DetectionType::InstructionPattern, signals.pt_br_matches@.len() as int)
            + entry_findings(matches_view(signals.en_matches@), DetectionType::ForeignLanguageInstruction,
            signals.en_matches@.len() as int));
        findings
    }
}

} // verus!
