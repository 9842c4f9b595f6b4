use vstd::prelude::*;

verus! {

/// How strongly a finding indicates an injection attempt.
#[derive(Debug, Clone, Copy, PartialEq, Eq, Structural)]
pub enum Severity {
    Critical,
    Warning,
    Clean,
}

/// The attack vector a finding belongs to.
#[derive(Debug, Clone, Copy, PartialEq, Eq, Structural)]
pub enum DetectionType {
    ZeroWidthChars,
    InvisibleText,
    WhiteText,
    MicroscopicFont,
    TextOutsideBounds,
    HiddenAnnotation,
    HiddenFormField,
    InstructionPattern,
    UnicodeTrick,
    EmbeddedJavaScript,
    MetadataInjection,
    TokenFlooding,
    ForeignLanguageInstruction,
    IncrementalUpdate,
    ActualTextInjection,
    HiddenOcgLayer,
    CitationPoisoning,
}

/// One suspicious element found in a document.
#[derive(Debug, Clone)]
pub struct Finding {
    pub page: u32,
    pub severity: Severity,
    pub detection_type: DetectionType,
    pub description: String,
    pub excerpt: String,
    pub char_offset: Option<usize>,
}

/// The mathematical value of a [`Finding`].
pub struct FindingView {
    pub page: u32,
    pub severity: Severity,
    pub detection_type: DetectionType,
    pub description: Seq<char>,
    pub excerpt: Seq<char>,
    pub char_offset: Option<usize>,
}

impl View for Finding {
    type V = FindingView;

    open spec fn view(&self) -> FindingView {
        FindingView {
            page: self.page,
            severity: self.severity,
            detection_type: self.detection_type,
            description: self.description@,
            excerpt: self.excerpt@,
            char_offset: self.char_offset,
        }
    }
}

/// The values of a sequence of findings.
pub open spec fn findings_view(v: Seq<Finding>) -> Seq<FindingView> {
    v.map_values(|f: Finding| f@)
}

/// Overall outcome of an analysis.
#[derive(Debug, Clone, Copy, PartialEq, Eq, Structural)]
pub enum Verdict {
    Safe,
    Unsafe,
}

/// Everything the analysis of one file produced.
#[derive(Debug, Clone)]
pub struct AnalysisResult {
    pub verdict: Verdict,
    pub findings: Vec<Finding>,
    pub file_hash: String,
    pub filename: String,
    pub analyzed_at: String,
    pub extracted_text: String,
}

/// The mathematical value of an [`AnalysisResult`].
pub struct AnalysisResultView {
    pub verdict: Verdict,
    pub findings: Seq<FindingView>,
    pub file_hash: Seq<char>,
    pub filename: Seq<char>,
    pub analyzed_at: Seq<char>,
    pub extracted_text: Seq<char>,
}

impl View for AnalysisResult {
    type V = AnalysisResultView;

    open spec fn view(&self) -> AnalysisResultView {
        AnalysisResultView {
            verdict: self.verdict,
            findings: findings_view(self.findings@),
            file_hash: self.file_hash@,
            filename: self.filename@,
            analyzed_at: self.analyzed_at@,
            extracted_text: self.extracted_text@,
        }
    }
}

/// The values of a sequence of analysis results.
pub open spec fn results_view(v: Seq<AnalysisResult>) -> Seq<AnalysisResultView> {
    v.map_values(|r: AnalysisResult| r@)
}

/// A language model's judgement of a text.
#[derive(Debug, Clone)]
pub struct LlmClassification {
    pub confidence: u8,
    pub classification: String,
    pub explanation: String,
}

/// The mathematical value of an [`LlmClassification`].
pub struct LlmClassificationView {
    pub confidence: u8,
    pub classification: Seq<char>,
    pub explanation: Seq<char>,
}

impl View for LlmClassification {
    type V = LlmClassificationView;

    open spec fn view(&self) -> LlmClassificationView {
        LlmClassificationView {
            confidence: self.confidence,
            classification: self.classification@,
            explanation: self.explanation@,
        }
    }
}

/// The language model service to ask.
#[derive(Debug, Clone, Copy, PartialEq, Eq, Structural)]
pub enum LlmProvider {
    OpenAI,
    Gemini,
    Anthropic,
    Custom,
}

/// User settings.
#[derive(Debug, Clone)]
pub struct AppConfig {
    pub provider: LlmProvider,
    pub api_key: String,
    pub custom_endpoint: Option<String>,
    pub language: String,
}

} // verus!
