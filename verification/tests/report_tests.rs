use pdf_prompt_injection_evaluator::models::{AnalysisResult, DetectionType, Finding, LlmClassification, Severity, Verdict};
use pdf_prompt_injection_evaluator::report_generator::{findings_can_be_cut, generate_batch_report, generate_report, next_report_action, results_can_be_cut, ReportAction, ReportError, ReportStep};
use pdf_prompt_injection_evaluator::report_labels::{labels_for, translate_description};
use pdf_prompt_injection_evaluator::report_layout::{excerpt_cut_allowed, Block};
use pdf_prompt_injection_evaluator::report_text::{build_batch_text_report, build_text_report, format_finding};

fn sample_result() -> AnalysisResult {
    AnalysisResult {
        verdict: Verdict::Unsafe,
        findings: vec![Finding {
            page: 1,
            severity: Severity::Critical,
            detection_type: DetectionType::ZeroWidthChars,
            description: "Zero-width characters detected".to_string(),
            excerpt: "hidden text here".to_string(),
            char_offset: Some(42),
        }],
        file_hash: "abc123def456".to_string(),
        filename: "test.pdf".to_string(),
        analyzed_at: "2026-05-28 12:00:00".to_string(),
        extracted_text: "hidden text here".to_string(),
    }
}

fn paragraph_text(b: &Block) -> String {
    match b {
        Block::Paragraph { spans, .. } => spans.iter().map(|s| s.text.clone()).collect::<Vec<_>>().join(""),
        _ => String::new(),
    }
}

#[test]
fn labels_follow_the_language_prefix() {
    assert_eq!(labels_for("pt-BR").title, "RELATÓRIO DE ANÁLISE DE INJEÇÃO EM PDF");
    assert_eq!(labels_for("pt").verdict_unsafe, "INSEGURO");
    assert_eq!(labels_for("en").title, "PDF INJECTION ANALYSIS REPORT");
    assert_eq!(labels_for("p").verdict_safe, "SAFE");
    assert_eq!(labels_for("PT-br").offset_label, "Character offset");
}

#[test]
fn descriptions_are_translated_only_to_portuguese() {
    assert_eq!(translate_description(&DetectionType::ZeroWidthChars, "x", "pt-BR"), "Caracteres de largura zero detectados no texto");
    assert_eq!(translate_description(&DetectionType::CitationPoisoning, "x", "pt"), "Citação jurídica fabricada detectada");
    assert_eq!(translate_description(&DetectionType::ZeroWidthChars, "original", "en"), "original");
}

#[test]
fn a_finding_is_formatted_on_five_lines() {
    let r = sample_result();
    let text = format_finding(1, &r.findings[0], &labels_for("en"), "en");
    assert_eq!(text, "1. Severity: CRITICAL\nPage: 1\nDescription: Zero-width characters detected\nExcerpt: hidden text here\nCharacter offset: 42");
    let mut f = Finding { excerpt: "   ".to_string(), char_offset: None, ..r.findings[0].clone() };
    f.severity = Severity::Clean;
    let text = format_finding(12, &f, &labels_for("pt-BR"), "pt-BR");
    assert_eq!(text, "12. Severidade: LIMPO\nPágina: 1\nDescrição: Caracteres de largura zero detectados no texto\nTrecho: N/A\nOffset: N/A");
}

#[test]
fn text_report_lists_file_verdict_findings_and_llm() {
    let r = sample_result();
    let llm = LlmClassification { confidence: 91, classification: "injection".to_string(), explanation: "Hidden text.".to_string() };
    let text = build_text_report(&r, Some(&llm), "en");
    let expected = "PDF INJECTION ANALYSIS REPORT\n================================\n\n\
FILE INFORMATION\n----------------\nFilename: test.pdf\nAnalysis date: 2026-05-28 12:00:00\nSHA-256 hash: abc123def456\n\n\
VERDICT\n-------\nUNSAFE\n\n\
FINDINGS\n--------\n1. Severity: CRITICAL\nPage: 1\nDescription: Zero-width characters detected\nExcerpt: hidden text here\nCharacter offset: 42\n\n\
LLM ANALYSIS\n------------\nClassification: injection\nConfidence: 91%\nExplanation: Hidden text.\n\n\
FOOTER\n------\nVersion: 0.1.0\nThis report is advisory only and should be reviewed alongside the source document and analyst judgment.\n";
    assert_eq!(text, expected);
}

#[test]
fn empty_findings_are_noted() {
    let mut r = sample_result();
    r.findings.clear();
    r.verdict = Verdict::Safe;
    let text = build_text_report(&r, None, "pt-BR");
    assert!(text.contains("ACHADOS\n--------\nNenhuma ocorrência detectada.\n\nRODAPÉ"));
    assert!(text.contains("VEREDITO\n-------\nSEGURO\n\n"));
}

#[test]
fn batch_text_report_counts_verdicts() {
    let mut safe = sample_result();
    safe.findings.clear();
    safe.verdict = Verdict::Safe;
    safe.filename = "ok.pdf".to_string();
    let results = vec![sample_result(), safe];
    let text = build_batch_text_report(&results, "en");
    assert!(text.starts_with("PDF INJECTION ANALYSIS REPORT\n================================\n\nTotal: 2 | SAFE: 1 | UNSAFE: 1\n\n"));
    let hash_line = format!("   SHA-256 hash: {}\n", results[0].file_hash);
    let labels = labels_for("en");
    let unsafe_line = format!("   {}: {}\n", labels.verdict, labels.verdict_unsafe);
    let safe_line = format!("   {}: {}\n", labels.verdict, labels.verdict_safe);
    let first = ["1. test.pdf\n", hash_line.as_str(), unsafe_line.as_str(), "   1. Severity: CRITICAL\n"].concat();
    let second = ["2. ok.pdf\n", hash_line.as_str(), safe_line.as_str(), "   No findings detected.\n\n---\n\n"].concat();
    assert!(text.contains(&first));
    assert!(text.contains(&second));
    assert!(text.ends_with("Version: 0.1.0\nThis report is advisory only and should be reviewed alongside the source document and analyst judgment.\n"));
}

#[test]
fn generate_report_for_the_sample_result() {
    let r = sample_result();
    let doc = generate_report(&r, None, "pt-BR");
    assert_eq!(doc.layout.as_ref().unwrap().title, "RELATÓRIO DE ANÁLISE DE INJEÇÃO EM PDF");
    assert_eq!(doc.layout.as_ref().unwrap().line_spacing_tenths, 14);
    assert_eq!(doc.layout.as_ref().unwrap().margins, 20);
    let texts: Vec<String> = doc.layout.as_ref().unwrap().blocks.iter().map(paragraph_text).collect();
    assert_eq!(texts[0], "RELATÓRIO DE ANÁLISE DE INJEÇÃO EM PDF");
    assert_eq!(texts[2], "_".repeat(80));
    assert!(texts.contains(&"INSEGURO".to_string()));
    assert!(texts.contains(&"1. CRÍTICO -- Página 1".to_string()));
    assert!(texts.contains(&"\"hidden text here\"".to_string()));
    assert!(texts.contains(&"Versão: 0.1.0".to_string()));
    assert!(doc.text.contains("Hash SHA-256: abc123def456"));
    let tables = doc.layout.as_ref().unwrap().blocks.iter().filter(|b| matches!(b, Block::Table { .. })).count();
    assert_eq!(tables, 1);
}

#[test]
fn long_excerpts_are_cut_in_the_layout() {
    let mut r = sample_result();
    r.findings[0].excerpt = format!("  {}  ", "x".repeat(130));
    let doc = generate_report(&r, None, "en");
    let texts: Vec<String> = doc.layout.as_ref().unwrap().blocks.iter().map(paragraph_text).collect();
    assert!(texts.contains(&format!("\"{}...\"", "x".repeat(120))));
    assert!(excerpt_cut_allowed(&"x".repeat(130)));
    assert!(!excerpt_cut_allowed(&format!("{}é", "x".repeat(119))));
}

#[test]
fn a_badly_cut_excerpt_leaves_only_the_text_report() {
    let mut r = sample_result();
    r.findings[0].excerpt = format!("{}é{}", "x".repeat(119), "y".repeat(10));
    let doc = generate_report(&r, None, "en");
    assert!(doc.layout.is_none());
    assert!(!findings_can_be_cut(&r.findings));
    assert!(doc.text.contains("abc123def456"));
    let batch = generate_batch_report(&vec![r.clone(), sample_result()], "en");
    assert!(batch.layout.is_none());
    assert!(!results_can_be_cut(&vec![r]));
    assert!(results_can_be_cut(&vec![sample_result()]));
}

#[test]
fn batch_layout_has_a_section_per_file() {
    let results = vec![sample_result(), sample_result()];
    let doc = generate_batch_report(&results, "en");
    let texts: Vec<String> = doc.layout.as_ref().unwrap().blocks.iter().map(paragraph_text).collect();
    assert!(texts.contains(&"Total: 2 | SAFE: 0 | UNSAFE: 2".to_string()));
    assert!(texts.contains(&"1. test.pdf".to_string()));
    assert!(texts.contains(&"2. test.pdf".to_string()));
    assert_eq!(texts.iter().filter(|t| **t == "_".repeat(60)).count(), 2);
}

#[test]
fn saving_falls_back_to_text_and_names_both_failures() {
    assert!(matches!(next_report_action(ReportStep::Start), ReportAction::PrepareDirectory));
    assert!(matches!(next_report_action(ReportStep::DirectoryReady(Ok(()))), ReportAction::RenderPdf));
    match next_report_action(ReportStep::DirectoryReady(Err(ReportError::SaveError("denied".to_string())))) {
        ReportAction::Finish(Err(ReportError::SaveError(m))) => assert_eq!(m, "denied"),
        _ => panic!("directory error expected"),
    }
    assert!(matches!(next_report_action(ReportStep::PdfRendered(Ok(()))), ReportAction::Finish(Ok(()))));
    let pdf_error = ReportError::GenerationError("no font".to_string());
    let pdf_error = match next_report_action(ReportStep::PdfRendered(Err(pdf_error))) {
        ReportAction::WriteText(e) => e,
        _ => panic!("text fallback expected"),
    };
    assert_eq!(pdf_error.message(), "Failed to generate report: no font");
    match next_report_action(ReportStep::TextWritten(pdf_error, Err(ReportError::SaveError("disk full".to_string())))) {
        ReportAction::Finish(Err(ReportError::GenerationError(m))) => assert_eq!(
            m,
            "PDF generation failed (Failed to generate report: no font); text fallback failed (Failed to save report: disk full)"
        ),
        _ => panic!("combined error expected"),
    }
    let again = ReportError::GenerationError("x".to_string());
    assert!(matches!(next_report_action(ReportStep::TextWritten(again, Ok(()))), ReportAction::Finish(Ok(()))));
}
