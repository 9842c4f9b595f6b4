use vstd::prelude::*;
use crate::models::DetectionType;
use crate::text::chars_of;

verus! {

/// The fixed texts of a report, in one language.
pub struct ReportLabels {
    pub title: &'static str,
    pub disclaimer: &'static str,
    pub file_info: &'static str,
    pub filename: &'static str,
    pub analysis_date: &'static str,
    pub hash: &'static str,
    pub verdict: &'static str,
    pub verdict_safe: &'static str,
    pub verdict_unsafe: &'static str,
    pub findings: &'static str,
    pub no_findings: &'static str,
    pub severity_label: &'static str,
    pub page_label: &'static str,
    pub description_label: &'static str,
    pub excerpt_label: &'static str,
    pub offset_label: &'static str,
    pub severity_critical: &'static str,
    pub severity_warning: &'static str,
    pub severity_clean: &'static str,
    pub llm_analysis: &'static str,
    pub classification: &'static str,
    pub confidence: &'static str,
    pub explanation: &'static str,
    pub footer: &'static str,
    pub version: &'static str,
}

/// The mathematical value of [`ReportLabels`].
pub struct LabelsView {
    pub title: Seq<char>,
    pub disclaimer: Seq<char>,
    pub file_info: Seq<char>,
    pub filename: Seq<char>,
    pub analysis_date: Seq<char>,
    pub hash: Seq<char>,
    pub verdict: Seq<char>,
    pub verdict_safe: Seq<char>,
    pub verdict_unsafe: Seq<char>,
    pub findings: Seq<char>,
    pub no_findings: Seq<char>,
    pub severity_label: Seq<char>,
    pub page_label: Seq<char>,
    pub description_label: Seq<char>,
    pub excerpt_label: Seq<char>,
    pub offset_label: Seq<char>,
    pub severity_critical: Seq<char>,
    pub severity_warning: Seq<char>,
    pub severity_clean: Seq<char>,
    pub llm_analysis: Seq<char>,
    pub classification: Seq<char>,
    pub confidence: Seq<char>,
    pub explanation: Seq<char>,
    pub footer: Seq<char>,
    pub version: Seq<char>,
}

impl View for ReportLabels {
    type V = LabelsView;

    open spec fn view(&self) -> LabelsView {
        LabelsView {
            title: self.title@,
            disclaimer: self.disclaimer@,
            file_info: self.file_info@,
            filename: self.filename@,
            analysis_date: self.analysis_date@,
            hash: self.hash@,
            verdict: self.verdict@,
            verdict_safe: self.verdict_safe@,
            verdict_unsafe: self.verdict_unsafe@,
            findings: self.findings@,
            no_findings: self.no_findings@,
            severity_label: self.severity_label@,
            page_label: self.page_label@,
            description_label: self.description_label@,
            excerpt_label: self.excerpt_label@,
            offset_label: self.offset_label@,
            severity_critical: self.severity_critical@,
            severity_warning: self.severity_warning@,
            severity_clean: self.severity_clean@,
            llm_analysis: self.llm_analysis@,
            classification: self.classification@,
            confidence: self.confidence@,
            explanation: self.explanation@,
            footer: self.footer@,
            version: self.version@,
        }
    }
}

/// A language tag that asks for Portuguese (it starts with `pt`).
pub open spec fn is_portuguese(language: Seq<char>) -> bool {
    language.len() >= 2 && language[0] == 'p' && language[1] == 't'
}

/// The Portuguese labels.
pub open spec fn portuguese_labels() -> LabelsView {
    LabelsView {
        title: "RELAT\u{d3}RIO DE AN\u{c1}LISE DE INJE\u{c7}\u{c3}O EM PDF"@,
        disclaimer: "Este relat\u{f3}rio \u{e9} apenas consultivo e deve ser avaliado junto ao documento original e ao julgamento do analista."@,
        file_info: "INFORMA\u{c7}\u{d5}ES DO ARQUIVO"@,
        filename: "Arquivo"@,
        analysis_date: "Data da an\u{e1}lise"@,
        hash: "Hash SHA-256"@,
        verdict: "VEREDITO"@,
        verdict_safe: "SEGURO"@,
        verdict_unsafe: "INSEGURO"@,
        findings: "ACHADOS"@,
        no_findings: "Nenhuma ocorr\u{ea}ncia detectada."@,
        severity_label: "Severidade"@,
        page_label: "P\u{e1}gina"@,
        description_label: "Descri\u{e7}\u{e3}o"@,
        excerpt_label: "Trecho"@,
        offset_label: "Offset"@,
        severity_critical: "CR\u{cd}TICO"@,
        severity_warning: "ALERTA"@,
        severity_clean: "LIMPO"@,
        llm_analysis: "AN\u{c1}LISE LLM"@,
        classification: "Classifica\u{e7}\u{e3}o"@,
        confidence: "Confian\u{e7}a"@,
        explanation: "Explica\u{e7}\u{e3}o"@,
        footer: "RODAP\u{c9}"@,
        version: "Vers\u{e3}o"@,
    }
}

/// The English labels.
pub open spec fn english_labels() -> LabelsView {
    LabelsView {
        title: "PDF INJECTION ANALYSIS REPORT"@,
        disclaimer: "This report is advisory only and should be reviewed alongside the source document and analyst judgment."@,
        file_info: "FILE INFORMATION"@,
        filename: "Filename"@,
        analysis_date: "Analysis date"@,
        hash: "SHA-256 hash"@,
        verdict: "VERDICT"@,
        verdict_safe: "SAFE"@,
        verdict_unsafe: "UNSAFE"@,
        findings: "FINDINGS"@,
        no_findings: "No findings detected."@,
        severity_label: "Severity"@,
        page_label: "Page"@,
        description_label: "Description"@,
        excerpt_label: "Excerpt"@,
        offset_label: "Character offset"@,
        severity_critical: "CRITICAL"@,
        severity_warning: "WARNING"@,
        severity_clean: "CLEAN"@,
        llm_analysis: "LLM ANALYSIS"@,
        classification: "Classification"@,
        confidence: "Confidence"@,
        explanation: "Explanation"@,
        footer: "FOOTER"@,
        version: "Version"@,
    }
}

/// The labels of the report in `language`: Portuguese for `pt…`, English otherwise.
pub open spec fn labels_spec(language: Seq<char>) -> LabelsView {
    if is_portuguese(language) {
        portuguese_labels()
    } else {
        english_labels()
    }
}

/// Whether `language` starts with `pt`.
pub fn is_portuguese_tag(language: &str) -> (b: bool)
    ensures
        b == is_portuguese(language@),
{
    let chars = chars_of(language);
    chars.len() >= 2 && chars[0] == 'p' && chars[1] == 't'
}

/// The report labels for `language`.
pub fn labels_for(language: &str) -> (l: ReportLabels)
    ensures
        l@ == labels_spec(language@),
{
    if is_portuguese_tag(language) {
        ReportLabels {
            title: "RELAT\u{d3}RIO DE AN\u{c1}LISE DE INJE\u{c7}\u{c3}O EM PDF",
            disclaimer: "Este relat\u{f3}rio \u{e9} apenas consultivo e deve ser avaliado junto ao documento original e ao julgamento do analista.",
            file_info: "INFORMA\u{c7}\u{d5}ES DO ARQUIVO",
            filename: "Arquivo",
            analysis_date: "Data da an\u{e1}lise",
            hash: "Hash SHA-256",
            verdict: "VEREDITO",
            verdict_safe: "SEGURO",
            verdict_unsafe: "INSEGURO",
            findings: "ACHADOS",
            no_findings: "Nenhuma ocorr\u{ea}ncia detectada.",
            severity_label: "Severidade",
            page_label: "P\u{e1}gina",
            description_label: "Descri\u{e7}\u{e3}o",
            excerpt_label: "Trecho",
            offset_label: "Offset",
            severity_critical: "CR\u{cd}TICO",
            severity_warning: "ALERTA",
            severity_clean: "LIMPO",
            llm_analysis: "AN\u{c1}LISE LLM",
            classification: "Classifica\u{e7}\u{e3}o",
            confidence: "Confian\u{e7}a",
            explanation: "Explica\u{e7}\u{e3}o",
            footer: "RODAP\u{c9}",
            version: "Vers\u{e3}o",
        }
    } else {
        ReportLabels {
            title: "PDF INJECTION ANALYSIS REPORT",
            disclaimer: "This report is advisory only and should be reviewed alongside the source document and analyst judgment.",
            file_info: "FILE INFORMATION",
            filename: "Filename",
            analysis_date: "Analysis date",
            hash: "SHA-256 hash",
            verdict: "VERDICT",
            verdict_safe: "SAFE",
            verdict_unsafe: "UNSAFE",
            findings: "FINDINGS",
            no_findings: "No findings detected.",
            severity_label: "Severity",
            page_label: "Page",
            description_label: "Description",
            excerpt_label: "Excerpt",
            offset_label: "Character offset",
            severity_critical: "CRITICAL",
            severity_warning: "WARNING",
            severity_clean: "CLEAN",
            llm_analysis: "LLM ANALYSIS",
            classification: "Classification",
            confidence: "Confidence",
            explanation: "Explanation",
            footer: "FOOTER",
            version: "Version",
        }
    }
}

/// The Portuguese description of a detection type.
pub open spec fn portuguese_description(t: DetectionType) -> Seq<char> {
    match t {
        DetectionType::ZeroWidthChars => "Caracteres de largura zero detectados no texto"@,
        DetectionType::InvisibleText => "Texto invis\u{ed}vel detectado (modo de renderiza\u{e7}\u{e3}o oculto)"@,
        DetectionType::WhiteText => "Texto em branco (invis\u{ed}vel ao leitor) com instru\u{e7}\u{e3}o oculta detectada"@,
        DetectionType::MicroscopicFont => "Fonte microscopica (<2pt) detectada -- texto ilegivel"@,
        DetectionType::TextOutsideBounds => "Texto posicionado fora dos limites vis\u{ed}veis da p\u{e1}gina"@,
        DetectionType::HiddenAnnotation => "Anota\u{e7}\u{e3}o oculta com conte\u{fa}do suspeito detectada"@,
        DetectionType::HiddenFormField => "Campo de formul\u{e1}rio oculto com instru\u{e7}\u{f5}es detectado"@,
        DetectionType::InstructionPattern => "Padr\u{e3}o de instru\u{e7}\u{e3}o de prompt injection detectado no texto"@,
        DetectionType::UnicodeTrick => "Truque Unicode (BiDi override) detectado"@,
        DetectionType::EmbeddedJavaScript => "JavaScript embutido detectado no documento PDF"@,
        DetectionType::MetadataInjection => "Inje\u{e7}\u{e3}o detectada em metadados do PDF"@,
        DetectionType::TokenFlooding => "Inunda\u{e7}\u{e3}o de tokens detectada (texto oculto repetitivo)"@,
        DetectionType::ForeignLanguageInstruction => "Instru\u{e7}\u{e3}o em idioma estrangeiro detectada"@,
        DetectionType::IncrementalUpdate => "Revisao incremental detectada -- conteudo adicionado apos estrutura original"@,
        DetectionType::ActualTextInjection => "Inje\u{e7}\u{e3}o via ActualText detectada"@,
        DetectionType::HiddenOcgLayer => "Camada OCG oculta com texto suspeito detectada"@,
        DetectionType::CitationPoisoning => "Cita\u{e7}\u{e3}o jur\u{ed}dica fabricada detectada"@,
    }
}

/// The description shown in a report: a fixed Portuguese text per type for a Portuguese
/// report, the finding's own description otherwise.
pub open spec fn translated(t: DetectionType, original: Seq<char>, language: Seq<char>) -> Seq<char> {
    if is_portuguese(language) {
        portuguese_description(t)
    } else {
        original
    }
}

/// The description of a finding in the report's language.
pub fn translate_description(detection_type: &DetectionType, original: &str, language: &str) -> (r: String)
    ensures
        r@ == translated(*detection_type, original@, language@),
{
    if !is_portuguese_tag(language) {
        return original.to_string();
    }
    let text: &str = match detection_type {
        DetectionType::ZeroWidthChars => "Caracteres de largura zero detectados no texto",
        DetectionType::InvisibleText => "Texto invis\u{ed}vel detectado (modo de renderiza\u{e7}\u{e3}o oculto)",
        DetectionType::WhiteText => "Texto em branco (invis\u{ed}vel ao leitor) com instru\u{e7}\u{e3}o oculta detectada",
        DetectionType::MicroscopicFont => "Fonte microscopica (<2pt) detectada -- texto ilegivel",
        DetectionType::TextOutsideBounds => "Texto posicionado fora dos limites vis\u{ed}veis da p\u{e1}gina",
        DetectionType::HiddenAnnotation => "Anota\u{e7}\u{e3}o oculta com conte\u{fa}do suspeito detectada",
        DetectionType::HiddenFormField => "Campo de formul\u{e1}rio oculto com instru\u{e7}\u{f5}es detectado",
        DetectionType::InstructionPattern => "Padr\u{e3}o de instru\u{e7}\u{e3}o de prompt injection detectado no texto",
        DetectionType::UnicodeTrick => "Truque Unicode (BiDi override) detectado",
        DetectionType::EmbeddedJavaScript => "JavaScript embutido detectado no documento PDF",
        DetectionType::MetadataInjection => "Inje\u{e7}\u{e3}o detectada em metadados do PDF",
        DetectionType::TokenFlooding => "Inunda\u{e7}\u{e3}o de tokens detectada (texto oculto repetitivo)",
        DetectionType::ForeignLanguageInstruction => "Instru\u{e7}\u{e3}o em idioma estrangeiro detectada",
        DetectionType::IncrementalUpdate => "Revisao incremental detectada -- conteudo adicionado apos estrutura original",
        DetectionType::ActualTextInjection => "Inje\u{e7}\u{e3}o via ActualText detectada",
        DetectionType::HiddenOcgLayer => "Camada OCG oculta com texto suspeito detectada",
        DetectionType::CitationPoisoning => "Cita\u{e7}\u{e3}o jur\u{ed}dica fabricada detectada",
    };
    text.to_string()
}

} // verus!
