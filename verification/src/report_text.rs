use vstd::prelude::*;
use crate::models::{
    findings_view, results_view, AnalysisResult, AnalysisResultView, Finding, FindingView,
    LlmClassification, LlmClassificationView, Severity, Verdict,
};
use crate::report_labels::{labels_for, labels_spec, translate_description, translated, LabelsView, ReportLabels};
use crate::text::{decimal, decimal_string, trim_spec, trim_str};

verus! {

/// The version printed in report footers.
pub const REPORT_VERSION: &'static str = "0.1.0";

/// The label of a severity.
pub open spec fn severity_text(s: Severity, l: LabelsView) -> Seq<char> {
    match s {
        Severity::Critical => l.severity_critical,
        Severity::Warning => l.severity_warning,
        Severity::Clean => l.severity_clean,
    }
}

/// The label of a verdict.
pub open spec fn verdict_text(v: Verdict, l: LabelsView) -> Seq<char> {
    match v {
        Verdict::Safe => l.verdict_safe,
        Verdict::Unsafe => l.verdict_unsafe,
    }
}

/// An excerpt without surrounding white space, or `N/A` when nothing is left.
pub open spec fn excerpt_or_na(e: Seq<char>) -> Seq<char> {
    if trim_spec(e).len() == 0 {
        "N/A"@
    } else {
        trim_spec(e)
    }
}

/// A character offset in decimal, or `N/A`.
pub open spec fn offset_text(o: Option<usize>) -> Seq<char> {
    match o {
        Some(v) => decimal(v as nat),
        None => "N/A"@,
    }
}

/// The text block of the finding of number `index`.
pub open spec fn finding_text(index: nat, f: FindingView, l: LabelsView, language: Seq<char>) -> Seq<char> {
    decimal(index) + ". "@ + l.severity_label + ": "@ + severity_text(f.severity, l) + "\n"@
        + l.page_label + ": "@ + decimal(f.page as nat) + "\n"@
        + l.description_label + ": "@ + translated(f.detection_type, f.description, language) + "\n"@
        + l.excerpt_label + ": "@ + excerpt_or_na(f.excerpt) + "\n"@
        + l.offset_label + ": "@ + offset_text(f.char_offset)
}

fn severity_label_of(s: Severity, labels: &ReportLabels) -> (r: &'static str)
    ensures
        r@ == severity_text(s, labels@),
{
    match s {
        Severity::Critical => labels.severity_critical,
        Severity::Warning => labels.severity_warning,
        Severity::Clean => labels.severity_clean,
    }
}

fn verdict_label_of(v: Verdict, labels: &ReportLabels) -> (r: &'static str)
    ensures
        r@ == verdict_text(v, labels@),
{
    match v {
        Verdict::Safe => labels.verdict_safe,
        Verdict::Unsafe => labels.verdict_unsafe,
    }
}

/// The numbered text block of one finding: severity, page, translated description,
/// trimmed excerpt and character offset, one per line.
pub fn format_finding(index: usize, finding: &Finding, labels: &ReportLabels, language: &str) -> (r: String)
    ensures
        r@ == finding_text(index as nat, finding@, labels@, language@),
{
    let offset = match finding.char_offset {
        Some(v) => decimal_string(v as u128),
        None => "N/A".to_string(),
    };
    let trimmed = trim_str(finding.excerpt.as_str());
    let excerpt = if trimmed.as_str().is_empty() { "N/A".to_string() } else { trimmed };
    let description = translate_description(&finding.detection_type, finding.description.as_str(), language);
    let mut r = decimal_string(index as u128);
    r.append(". ");
    r.append(labels.severity_label);
    r.append(": ");
    r.append(severity_label_of(finding.severity, labels));
    r.append("\n");
    r.append(labels.page_label);
    r.append(": ");
    r.append(decimal_string(finding.page as u128).as_str());
    r.append("\n");
    r.append(labels.description_label);
    r.append(": ");
    r.append(description.as_str());
    r.append("\n");
    r.append(labels.excerpt_label);
    r.append(": ");
    r.append(excerpt.as_str());
    r.append("\n");
    r.append(labels.offset_label);
    r.append(": ");
    r.append(offset.as_str());
    assert(r@ =~= finding_text(index as nat, finding@, labels@, language@));
    r
}

/// The blocks of the first `n` findings, each followed by a blank line.
pub open spec fn findings_blocks(fs: Seq<FindingView>, l: LabelsView, language: Seq<char>, n: int) -> Seq<char>
    decreases n,
{
    if n <= 0 {
        Seq::empty()
    } else {
        findings_blocks(fs, l, language, n - 1) + finding_text(n as nat, fs[n - 1], l, language) + "\n\n"@
    }
}

/// The LLM section of a report.
pub open spec fn llm_section(c: LlmClassificationView, l: LabelsView) -> Seq<char> {
    l.llm_analysis + "\n------------\n"@ + l.classification + ": "@ + c.classification + "\n"@
        + l.confidence + ": "@ + decimal(c.confidence as nat) + "%\n"@
        + l.explanation + ": "@ + c.explanation + "\n\n"@
}

/// The title, file information and verdict of a report, up to the findings heading.
pub open spec fn report_head(r: AnalysisResultView, l: LabelsView) -> Seq<char> {
    l.title + "\n================================\n\n"@
        + l.file_info + "\n----------------\n"@
        + l.filename + ": "@ + r.filename + "\n"@
        + l.analysis_date + ": "@ + r.analyzed_at + "\n"@
        + l.hash + ": "@ + r.file_hash + "\n\n"@
        + l.verdict + "\n-------\n"@ + verdict_text(r.verdict, l) + "\n\n"@
        + l.findings + "\n--------\n"@
}

/// The findings of a report, or the note that there are none.
pub open spec fn report_findings(r: AnalysisResultView, l: LabelsView, language: Seq<char>) -> Seq<char> {
    if r.findings.len() == 0 {
        l.no_findings + "\n\n"@
    } else {
        findings_blocks(r.findings, l, language, r.findings.len() as int)
    }
}

/// The footer of a single report.
pub open spec fn report_footer(l: LabelsView) -> Seq<char> {
    l.footer + "\n------\n"@ + l.version + ": "@ + REPORT_VERSION@ + "\n"@ + l.disclaimer + "\n"@
}

/// The plain-text report of one analysis.
pub open spec fn text_report(r: AnalysisResultView, llm: Option<LlmClassificationView>, language: Seq<char>) -> Seq<char> {
    let l = labels_spec(language);
    report_head(r, l) + report_findings(r, l, language) + (match llm {
        Some(c) => llm_section(c, l),
        None => Seq::empty(),
    }) + report_footer(l)
}

fn append_head(content: &mut String, result: &AnalysisResult, labels: &ReportLabels)
    ensures
        final(content)@ == old(content)@ + report_head(result@, labels@),
{
    let ghost start = content@;
    content.append(labels.title);
    content.append("\n================================\n\n");
    content.append(labels.file_info);
    content.append("\n----------------\n");
    content.append(labels.filename);
    content.append(": ");
    content.append(result.filename.as_str());
    content.append("\n");
    content.append(labels.analysis_date);
    content.append(": ");
    content.append(result.analyzed_at.as_str());
    content.append("\n");
    content.append(labels.hash);
    content.append(": ");
    content.append(result.file_hash.as_str());
    content.append("\n\n");
    content.append(labels.verdict);
    content.append("\n-------\n");
    content.append(verdict_label_of(result.verdict, labels));
    content.append("\n\n");
    content.append(labels.findings);
    content.append("\n--------\n");
    assert(content@ =~= start + report_head(result@, labels@));
}

fn append_llm(content: &mut String, c: &LlmClassification, labels: &ReportLabels)
    ensures
        final(content)@ == old(content)@ + llm_section(c@, labels@),
{
    let ghost start = content@;
    content.append(labels.llm_analysis);
    content.append("\n------------\n");
    content.append(labels.classification);
    content.append(": ");
    content.append(c.classification.as_str());
    content.append("\n");
    content.append(labels.confidence);
    content.append(": ");
    content.append(decimal_string(c.confidence as u128).as_str());
    content.append("%\n");
    content.append(labels.explanation);
    content.append(": ");
    content.append(c.explanation.as_str());
    content.append("\n\n");
    assert(content@ =~= start + llm_section(c@, labels@));
}

fn append_version_and_disclaimer(content: &mut String, labels: &ReportLabels)
    ensures
        final(content)@ == old(content)@ + labels@.version + ": "@ + REPORT_VERSION@ + "\n"@ + labels@.disclaimer + "\n"@,
{
    content.append(labels.version);
    content.append(": ");
    content.append(REPORT_VERSION);
    content.append("\n");
    content.append(labels.disclaimer);
    content.append("\n");
}

fn append_findings(content: &mut String, findings: &Vec<Finding>, labels: &ReportLabels, language: &str, indent: &str)
    ensures
        final(content)@ == old(content)@ + indented_blocks(findings_view(findings@), labels@, language@, indent@, findings@.len() as int),
{
    let ghost start = content@;
    assert(start + indented_blocks(findings_view(findings@), labels@, language@, indent@, 0) =~= start);
    let mut i: usize = 0;
    while i < findings.len()
        invariant
            i <= findings@.len(),
            content@ == start + indented_blocks(findings_view(findings@), labels@, language@, indent@, i as int),
        decreases findings.len() - i,
    {
        content.append(indent);
        content.append(format_finding(i + 1, &findings[i], labels, language).as_str());
        if indent.is_empty() {
            content.append("\n\n");
        } else {
            content.append("\n");
        }
        assert(findings_view(findings@)[i as int] == findings@[i as int]@);
        assert(content@ =~= start + indented_blocks(findings_view(findings@), labels@, language@, indent@, i + 1));
        i = i + 1;
    }
}

/// The blocks of the first `n` findings: without `indent`, each followed by a blank line;
/// with it, each indented and followed by a line break.
pub open spec fn indented_blocks(fs: Seq<FindingView>, l: LabelsView, language: Seq<char>, indent: Seq<char>, n: int) -> Seq<char>
    decreases n,
{
    if n <= 0 {
        Seq::empty()
    } else {
        indented_blocks(fs, l, language, indent, n - 1) + indent + finding_text(n as nat, fs[n - 1], l, language)
            + if indent.len() == 0 { "\n\n"@ } else { "\n"@ }
    }
}

proof fn lemma_plain_blocks(fs: Seq<FindingView>, l: LabelsView, language: Seq<char>, n: int)
    ensures
        indented_blocks(fs, l, language, Seq::empty(), n) == findings_blocks(fs, l, language, n),
    decreases n,
{
    if n > 0 {
        lemma_plain_blocks(fs, l, language, n - 1);
        assert(indented_blocks(fs, l, language, Seq::empty(), n) =~= findings_blocks(fs, l, language, n));
    }
}

/// The plain-text report of one analysis: file information, verdict, numbered findings, the
/// language model's classification when there is one, and the footer.
pub fn build_text_report(result: &AnalysisResult, llm_result: Option<&LlmClassification>, language: &str) -> (r: String)
    ensures
        r@ == text_report(result@, match llm_result { Some(c) => Some(c@), None => None }, language@),
{
    let labels = labels_for(language);
    let mut content = String::new();
    append_head(&mut content, result, &labels);
    let ghost head = content@;
    assert(result@.findings.len() == result.findings@.len());
    if result.findings.len() == 0 {
        content.append(labels.no_findings);
        content.append("\n\n");
        assert(content@ =~= head + report_findings(result@, labels@, language@));
    } else {
        append_findings(&mut content, &result.findings, &labels, language, "");
        proof {
            reveal_strlit("");
            assert(""@ =~= Seq::<char>::empty());
            lemma_plain_blocks(findings_view(result.findings@), labels@, language@, result.findings@.len() as int);
        }
        assert(content@ =~= head + report_findings(result@, labels@, language@));
    }
    let ghost mid = content@;
    match llm_result {
        Some(c) => {
            append_llm(&mut content, c, &labels);
        },
        None => {
            assert(content@ =~= mid + Seq::<char>::empty());
        },
    }
    let ghost before_footer = content@;
    content.append(labels.footer);
    content.append("\n------\n");
    append_version_and_disclaimer(&mut content, &labels);
    assert(content@ =~= before_footer + report_footer(labels@));
    assert(content@ =~= text_report(result@, match llm_result { Some(c) => Some(c@), None => None }, language@));
    content
}

/// Number of safe verdicts among the first `n` results.
pub open spec fn safe_count(rs: Seq<AnalysisResultView>, n: int) -> nat
    decreases n,
{
    if n <= 0 {
        0
    } else {
        safe_count(rs, n - 1) + if rs[n - 1].verdict == Verdict::Safe { 1nat } else { 0nat }
    }
}

/// Number of unsafe verdicts among the first `n` results.
pub open spec fn unsafe_count(rs: Seq<AnalysisResultView>, n: int) -> nat
    decreases n,
{
    if n <= 0 {
        0
    } else {
        unsafe_count(rs, n - 1) + if rs[n - 1].verdict == Verdict::Unsafe { 1nat } else { 0nat }
    }
}

/// The unsafe count that a batch report prints (all results but the safe ones) is the number
/// of results judged unsafe.
pub proof fn lemma_batch_counts(rs: Seq<AnalysisResultView>, n: int)
    requires
        0 <= n <= rs.len(),
    ensures
        safe_count(rs, n) + unsafe_count(rs, n) == n,
    decreases n,
{
    if n > 0 {
        lemma_batch_counts(rs, n - 1);
    }
}

/// Number of safe verdicts among `results`.
pub fn count_safe(results: &[AnalysisResult]) -> (c: usize)
    ensures
        c == safe_count(results_view(results@), results@.len() as int),
        c <= results@.len(),
{
    let mut c: usize = 0;
    let mut i: usize = 0;
    while i < results.len()
        invariant
            i <= results@.len(),
            c == safe_count(results_view(results@), i as int),
            c <= i,
        decreases results.len() - i,
    {
        assert(results_view(results@)[i as int] == results@[i as int]@);
        if results[i].verdict == Verdict::Safe {
            c = c + 1;
        }
        i = i + 1;
    }
    c
}

/// The heading lines of the result of number `index` in a batch text report.
pub open spec fn batch_entry_head(index: nat, r: AnalysisResultView, l: LabelsView) -> Seq<char> {
    decimal(index) + ". "@ + r.filename + "\n"@
        + "   "@ + l.hash + ": "@ + r.file_hash + "\n"@
        + "   "@ + l.verdict + ": "@ + verdict_text(r.verdict, l) + "\n"@
}

/// The indented findings of a result in a batch text report, or the note that there are none.
pub open spec fn batch_entry_findings(r: AnalysisResultView, l: LabelsView, language: Seq<char>) -> Seq<char> {
    if r.findings.len() == 0 {
        "   "@ + l.no_findings + "\n"@
    } else {
        indented_blocks(r.findings, l, language, "   "@, r.findings.len() as int)
    }
}

/// The block of the result of number `index` in a batch text report.
pub open spec fn batch_entry(index: nat, r: AnalysisResultView, l: LabelsView, language: Seq<char>) -> Seq<char> {
    batch_entry_head(index, r, l) + batch_entry_findings(r, l, language) + "\n---\n\n"@
}

#[verifier::rlimit(40)]
fn append_batch_entry(content: &mut String, index: usize, result: &AnalysisResult, labels: &ReportLabels, language: &str)
    ensures
        final(content)@ == old(content)@ + batch_entry(index as nat, result@, labels@, language@),
{
    let ghost start = content@;
    content.append(decimal_string(index as u128).as_str());
    content.append(". ");
    content.append(result.filename.as_str());
    content.append("\n");
    content.append("   ");
    content.append(labels.hash);
    content.append(": ");
    content.append(result.file_hash.as_str());
    content.append("\n");
    content.append("   ");
    content.append(labels.verdict);
    content.append(": ");
    content.append(verdict_label_of(result.verdict, labels));
    content.append("\n");
    assert(content@ =~= start + batch_entry_head(index as nat, result@, labels@));
    let ghost mid = content@;
    if result.findings.len() == 0 {
        content.append("   ");
        content.append(labels.no_findings);
        content.append("\n");
    } else {
        append_findings(content, &result.findings, labels, language, "   ");
    }
    assert(content@ =~= mid + batch_entry_findings(result@, labels@, language@));
    content.append("\n---\n\n");
    assert(content@ =~= start + batch_entry(index as nat, result@, labels@, language@));
}

/// The blocks of the first `n` results of a batch.
pub open spec fn batch_entries(rs: Seq<AnalysisResultView>, l: LabelsView, language: Seq<char>, n: int) -> Seq<char>
    decreases n,
{
    if n <= 0 {
        Seq::empty()
    } else {
        batch_entries(rs, l, language, n - 1) + batch_entry(n as nat, rs[n - 1], l, language)
    }
}

/// The title and the counts of a batch text report.
pub open spec fn batch_summary(rs: Seq<AnalysisResultView>, l: LabelsView) -> Seq<char> {
    let safe = safe_count(rs, rs.len() as int);
    l.title + "\n================================\n\n"@
        + "Total: "@ + decimal(rs.len()) + " | "@ + l.verdict_safe + ": "@ + decimal(safe) + " | "@
        + l.verdict_unsafe + ": "@ + decimal((rs.len() - safe) as nat) + "\n\n"@
}

/// The plain-text report of a batch of analyses.
pub open spec fn batch_text_report(rs: Seq<AnalysisResultView>, language: Seq<char>) -> Seq<char> {
    let l = labels_spec(language);
    batch_summary(rs, l) + batch_entries(rs, l, language, rs.len() as int)
        + l.version + ": "@ + REPORT_VERSION@ + "\n"@ + l.disclaimer + "\n"@
}

/// The plain-text report of a batch: the counts of safe and unsafe files, then each file
/// with its hash, verdict and findings.
pub fn build_batch_text_report(results: &[AnalysisResult], language: &str) -> (r: String)
    ensures
        r@ == batch_text_report(results_view(results@), language@),
{
    let labels = labels_for(language);
    let mut content = String::new();
    append_batch_summary(&mut content, results, &labels);
    let ghost head = content@;
    let ghost rs = results_view(results@);
    assert(head + batch_entries(rs, labels@, language@, 0) =~= head);
    let mut i: usize = 0;
    while i < results.len()
        invariant
            i <= results@.len(),
            rs == results_view(results@),
            content@ == head + batch_entries(rs, labels@, language@, i as int),
        decreases results.len() - i,
    {
        assert(rs[i as int] == results@[i as int]@);
        append_batch_entry(&mut content, i + 1, &results[i], &labels, language);
        assert(content@ =~= head + batch_entries(rs, labels@, language@, i + 1));
        i = i + 1;
    }
    append_version_and_disclaimer(&mut content, &labels);
    assert(content@ =~= batch_text_report(results_view(results@), language@));
    content
}

fn append_batch_summary(content: &mut String, results: &[AnalysisResult], labels: &ReportLabels)
    ensures
        final(content)@ == old(content)@ + batch_summary(results_view(results@), labels@),
{
    let ghost start = content@;
    let safe = count_safe(results);
    let unsafe_count = results.len() - safe;
    content.append(labels.title);
    content.append("\n================================\n\n");
    content.append("Total: ");
    content.append(decimal_string(results.len() as u128).as_str());
    content.append(" | ");
    content.append(labels.verdict_safe);
    content.append(": ");
    content.append(decimal_string(safe as u128).as_str());
    content.append(" | ");
    content.append(labels.verdict_unsafe);
    content.append(": ");
    content.append(decimal_string(unsafe_count as u128).as_str());
    content.append("\n\n");
    assert(content@ =~= start + batch_summary(results_view(results@), labels@));
}

} // verus!
