use vstd::prelude::*;
use crate::detectors::SharedSignals;
use crate::heuristic_detector::{count_term, finding, flooding_hits, lemma_push_view, FLOODING_DESCRIPTION, FLOODING_EXCERPT_SUFFIX};
use crate::models::{findings_view, DetectionType, Finding, FindingView, Severity};
use crate::pdf_model::PdfDocument;
use crate::text::{chars_of, decimal, decimal_string, lemma_count_from_bound, to_lowercase_string, unicode_lowercase};

verus! {

/// For each page, in page order, the number of favourable legal terms in its lower-cased text.
#[derive(Debug)]
pub struct Signals {
    pub hits_per_page: Vec<(u32, usize)>,
}

/// Flooding of the text with favourable legal terms, a statistical manipulation.
#[derive(Debug)]
pub struct TokenFloodingDetector;

/// More hits than this on a page count as flooding.
pub const FLOODING_THRESHOLD: usize = 10;

/// The hits of the first `k` pages.
pub open spec fn page_hits(pages: Seq<(u32, String)>, k: int) -> Seq<(u32, nat)>
    decreases k,
{
    if k <= 0 {
        Seq::empty()
    } else {
        page_hits(pages, k - 1).push((pages[k - 1].0, flooding_hits(unicode_lowercase(pages[k - 1].1@))))
    }
}

/// The value of a list of page hits.
pub open spec fn hits_view(v: Seq<(u32, usize)>) -> Seq<(u32, nat)> {
    v.map_values(|h: (u32, usize)| (h.0, h.1 as nat))
}

/// One warning for each of the first `n` pages whose hits exceed the threshold.
pub open spec fn flooding_page_findings(hits: Seq<(u32, nat)>, n: int) -> Seq<FindingView>
    decreases n,
{
    if n <= 0 {
        Seq::empty()
    } else if hits[n - 1].1 > FLOODING_THRESHOLD {
        flooding_page_findings(hits, n - 1).push(finding(hits[n - 1].0, Severity::Warning, DetectionType::TokenFlooding,
            FLOODING_DESCRIPTION@, decimal(hits[n - 1].1) + FLOODING_EXCERPT_SUFFIX@, None))
    } else {
        flooding_page_findings(hits, n - 1)
    }
}

/// The favourable terms in a lower-cased text; they never outnumber its characters.
fn count_hits(lower: &Vec<char>) -> (c: usize)
    ensures
        c == flooding_hits(lower@),
{
    proof {
        reveal_strlit("procedente");
        reveal_strlit("dano moral");
        reveal_strlit("ma-fe");
        reveal_strlit("confissao");
        reveal_strlit("revelia");
        reveal_strlit("presuncao de veracidade");
        reveal_strlit("incontroverso");
        reveal_strlit("prova irrefutavel");
        lemma_count_from_bound(lower@, "procedente"@, 0);
        lemma_count_from_bound(lower@, "dano moral"@, 0);
        lemma_count_from_bound(lower@, "ma-fe"@, 0);
        lemma_count_from_bound(lower@, "confissao"@, 0);
        lemma_count_from_bound(lower@, "revelia"@, 0);
        lemma_count_from_bound(lower@, "presuncao de veracidade"@, 0);
        lemma_count_from_bound(lower@, "incontroverso"@, 0);
        lemma_count_from_bound(lower@, "prova irrefutavel"@, 0);
    }
    let a = count_term(lower, "procedente");
    let b = count_term(lower, "dano moral");
    let c = count_term(lower, "ma-fe");
    let d = count_term(lower, "confissao");
    let e = count_term(lower, "revelia");
    let f = count_term(lower, "presuncao de veracidade");
    let g = count_term(lower, "incontroverso");
    let h = count_term(lower, "prova irrefutavel");
    let n = lower.len();
    assert(a + b + c + d + e + f + g + h <= n);
    a + b + c + d + e + f + g + h
}

impl TokenFloodingDetector {
    pub fn name(&self) -> (r: &'static str)
        ensures
            r@ == "token_flooding"@,
    {
        "token_flooding"
    }

    /// The number of favourable legal terms on each page, counted in its lower-cased text.
    pub fn extract(&self, _doc: &PdfDocument, _raw: &[u8], pages: &Vec<(u32, String)>) -> (s: Signals)
        ensures
            hits_view(s.hits_per_page@) == page_hits(pages@, pages@.len() as int),
    {
        let mut hits: Vec<(u32, usize)> = Vec::new();
        let mut k: usize = 0;
        assert(hits_view(hits@) =~= page_hits(pages@, 0));
        while k < pages.len()
            invariant
                k <= pages@.len(),
                hits_view(hits@) == page_hits(pages@, k as int),
            decreases pages.len() - k,
        {
            let lower = to_lowercase_string(pages[k].1.as_str());
            let chars = chars_of(lower.as_str());
            let total = count_hits(&chars);
            let ghost before = hits@;
            hits.push((pages[k].0, total));
            assert(hits_view(hits@) =~= hits_view(before).push((pages@[k as int].0, total as nat)));
            k = k + 1;
        }
        Signals { hits_per_page: hits }
    }

    /// A warning for each page with more than ten favourable terms, giving their number.
    pub fn detect(&self, s: &Signals, _pages: &Vec<(u32, String)>, _shared: &SharedSignals) -> (findings: Vec<Finding>)
        ensures
            findings_view(findings@) == flooding_page_findings(hits_view(s.hits_per_page@), s.hits_per_page@.len() as int),
    {
        let mut findings: Vec<Finding> = Vec::new();
        assert(findings_view(findings@) =~= Seq::<FindingView>::empty());
        let mut i: usize = 0;
        while i < s.hits_per_page.len()
            invariant
                i <= s.hits_per_page@.len(),
                findings_view(findings@) == flooding_page_findings(hits_view(s.hits_per_page@), i as int),
            decreases s.hits_per_page.len() - i,
        {
            let (page, total) = s.hits_per_page[i];
            assert(hits_view(s.hits_per_page@)[i as int] == (page, total as nat));
            if total > FLOODING_THRESHOLD {
                let mut excerpt = decimal_string(total as u128);
                excerpt.append(FLOODING_EXCERPT_SUFFIX);
                let f = Finding {
                    page,
                    severity: Severity::Warning,
                    detection_type: DetectionType::TokenFlooding,
                    description: FLOODING_DESCRIPTION.to_string(),
                    excerpt,
                    char_offset: None,
                };
                proof {
                    lemma_push_view(findings@, f);
                }
                findings.push(f);
            }
            i = i + 1;
        }
        findings
    }
}

} // verus!
