use vstd::prelude::*;
use crate::models::{findings_view, results_view, AnalysisResult, Finding, LlmClassification};
use crate::report_layout::{
    batch_blocks, batch_report_layout, blocks_view, excerpt_cut_allowed, excerpt_cut_ok, findings_cut_ok, report_blocks, report_layout,
    results_cut_ok, ReportLayout,
};
use crate::report_labels::labels_spec;
use crate::report_text::{batch_text_report, build_batch_text_report, build_text_report, text_report};

verus! {

/// Why a report could not be produced.
#[derive(Debug)]
pub enum ReportError {
    GenerationError(String),
    SaveError(String),
}

/// The text of an error, as it is displayed.
pub open spec fn error_message(e: ReportError) -> Seq<char> {
    match e {
        ReportError::GenerationError(m) => "Failed to generate report: "@ + m@,
        ReportError::SaveError(m) => "Failed to save report: "@ + m@,
    }
}

impl ReportError {
    /// The text of the error.
    pub fn message(&self) -> (r: String)
        ensures
            r@ == error_message(*self),
    {
        match self {
            ReportError::GenerationError(m) => {
                let mut r = "Failed to generate report: ".to_string();
                r.append(m.as_str());
                r
            },
            ReportError::SaveError(m) => {
                let mut r = "Failed to save report: ".to_string();
                r.append(m.as_str());
                r
            },
        }
    }
}

/// A report in its two forms: the PDF page layout, and the plain text written when the PDF
/// cannot be produced. There is no layout when an excerpt cannot be cut after 120 bytes
/// without splitting a character; drawing the PDF then fails once its fonts are loaded.
#[derive(Debug)]
pub struct ReportDocument {
    pub layout: Option<ReportLayout>,
    pub text: String,
}

/// Whether every excerpt of `findings` can be cut as a finding block needs.
pub fn findings_can_be_cut(findings: &Vec<Finding>) -> (b: bool)
    ensures
        b == findings_cut_ok(findings_view(findings@)),
{
    let mut i: usize = 0;
    while i < findings.len()
        invariant
            i <= findings@.len(),
            forall|j: int| 0 <= j < i ==> excerpt_cut_ok(#[trigger] findings_view(findings@)[j].excerpt),
        decreases findings.len() - i,
    {
        assert(findings_view(findings@)[i as int] == findings@[i as int]@);
        if !excerpt_cut_allowed(findings[i].excerpt.as_str()) {
            assert(!excerpt_cut_ok(findings_view(findings@)[i as int].excerpt));
            return false;
        }
        i = i + 1;
    }
    true
}

/// Whether every excerpt of every result can be cut as a finding block needs.
pub fn results_can_be_cut(results: &[AnalysisResult]) -> (b: bool)
    ensures
        b == results_cut_ok(results_view(results@)),
{
    let mut i: usize = 0;
    while i < results.len()
        invariant
            i <= results@.len(),
            forall|j: int| 0 <= j < i ==> findings_cut_ok(#[trigger] results_view(results@)[j].findings),
        decreases results.len() - i,
    {
        assert(results_view(results@)[i as int] == results@[i as int]@);
        if !findings_can_be_cut(&results[i].findings) {
            assert(!findings_cut_ok(results_view(results@)[i as int].findings));
            return false;
        }
        i = i + 1;
    }
    true
}

/// The report of one analysis, with the language model's classification when there is one.
pub fn generate_report(result: &AnalysisResult, llm_result: Option<&LlmClassification>, language: &str) -> (r: ReportDocument)
    ensures
        r.layout is Some <==> findings_cut_ok(result@.findings),
        match r.layout {
            Some(l) => l.title@ == labels_spec(language@).title && l.line_spacing_tenths == 14 && l.margins == 20
                && blocks_view(l.blocks@) == report_blocks(result@, match llm_result { Some(c) => Some(c@), None => None }, language@),
            None => true,
        },
        r.text@ == text_report(result@, match llm_result { Some(c) => Some(c@), None => None }, language@),
{
    let layout = if findings_can_be_cut(&result.findings) {
        Some(report_layout(result, llm_result, language))
    } else {
        None
    };
    let text = build_text_report(result, llm_result, language);
    ReportDocument { layout, text }
}

/// The report of a batch of analyses.
pub fn generate_batch_report(results: &[AnalysisResult], language: &str) -> (r: ReportDocument)
    ensures
        r.layout is Some <==> results_cut_ok(results_view(results@)),
        match r.layout {
            Some(l) => l.title@ == labels_spec(language@).title && l.line_spacing_tenths == 14 && l.margins == 20
                && blocks_view(l.blocks@) == batch_blocks(results_view(results@), language@),
            None => true,
        },
        r.text@ == batch_text_report(results_view(results@), language@),
{
    let layout = if results_can_be_cut(results) {
        Some(batch_report_layout(results, language))
    } else {
        None
    };
    let text = build_batch_text_report(results, language);
    ReportDocument { layout, text }
}

/// What has happened so far while saving a report.
#[derive(Debug)]
pub enum ReportStep {
    /// Nothing yet.
    Start,
    /// The output directory was created, or could not be.
    DirectoryReady(Result<(), ReportError>),
    /// The PDF was rendered and saved, or could not be.
    PdfRendered(Result<(), ReportError>),
    /// After the PDF failed with the first error, the text form was written, or could not be.
    TextWritten(ReportError, Result<(), ReportError>),
}

/// What to do next while saving a report.
#[derive(Debug)]
pub enum ReportAction {
    /// Create the parent directory of the output path.
    PrepareDirectory,
    /// Render the PDF layout to the output path.
    RenderPdf,
    /// Write the text form to the output path; the PDF failed with this error.
    WriteText(ReportError),
    /// Stop with this outcome.
    Finish(Result<(), ReportError>),
}

/// The message of a report that failed in both forms.
pub open spec fn both_failed_message(pdf_error: ReportError, text_error: ReportError) -> Seq<char> {
    "PDF generation failed ("@ + error_message(pdf_error) + "); text fallback failed ("@ + error_message(text_error) + ")"@
}

/// The next action in saving a report: prepare the directory, then try the PDF, and fall back
/// to the text form when the PDF fails; a report that fails in both forms is a generation error
/// that names both failures.
pub fn next_report_action(step: ReportStep) -> (a: ReportAction)
    ensures
        match step {
            ReportStep::Start => a is PrepareDirectory,
            ReportStep::DirectoryReady(Ok(())) => a is RenderPdf,
            ReportStep::DirectoryReady(Err(e)) => a == ReportAction::Finish(Err(e)),
            ReportStep::PdfRendered(Ok(())) => a == ReportAction::Finish(Ok(())),
            ReportStep::PdfRendered(Err(e)) => a == ReportAction::WriteText(e),
            ReportStep::TextWritten(_, Ok(())) => a == ReportAction::Finish(Ok(())),
            ReportStep::TextWritten(p, Err(t)) => a matches ReportAction::Finish(Err(ReportError::GenerationError(m)))
                && m@ == both_failed_message(p, t),
        },
{
    match step {
        ReportStep::Start => ReportAction::PrepareDirectory,
        ReportStep::DirectoryReady(Ok(())) => ReportAction::RenderPdf,
        ReportStep::DirectoryReady(Err(e)) => ReportAction::Finish(Err(e)),
        ReportStep::PdfRendered(Ok(())) => ReportAction::Finish(Ok(())),
        ReportStep::PdfRendered(Err(e)) => ReportAction::WriteText(e),
        ReportStep::TextWritten(_, Ok(())) => ReportAction::Finish(Ok(())),
        ReportStep::TextWritten(p, Err(t)) => {
            let mut m = "PDF generation failed (".to_string();
            m.append(p.message().as_str());
            m.append("); text fallback failed (");
            m.append(t.message().as_str());
            m.append(")");
            ReportAction::Finish(Err(ReportError::GenerationError(m)))
        },
    }
}

} // verus!
