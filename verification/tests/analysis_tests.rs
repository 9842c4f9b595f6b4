use pdf_prompt_injection_evaluator::analysis::{analyze_content, to_hex_lower, verdict_for};
use pdf_prompt_injection_evaluator::models::{DetectionType, Finding, Severity, Verdict};
use pdf_prompt_injection_evaluator::pdf_parser::PdfContent;

fn content(pages: Vec<(u32, String)>) -> PdfContent {
    PdfContent {
        pages,
        metadata: Vec::new(),
        annotations: Vec::new(),
        has_javascript: false,
        has_white_text: false,
        has_invisible_text: false,
        has_microscopic_font: false,
        has_text_outside_bounds: false,
        has_acroform_fields: false,
        form_field_values: Vec::new(),
    }
}

fn finding(severity: Severity) -> Finding {
    Finding {
        page: 1,
        severity,
        detection_type: DetectionType::InstructionPattern,
        description: String::new(),
        excerpt: String::new(),
        char_offset: None,
    }
}

#[test]
fn hash_is_lower_case_sha256_of_the_file() {
    let c = content(vec![(1, "Texto".to_string()), (2, "limpo".to_string())]);
    let r = analyze_content(b"abc", &c, "a.pdf".to_string(), "2026-05-28 12:00:00".to_string());
    assert_eq!(r.file_hash, "ba7816bf8f01cfea414140de5dae2223b00361a396177a9cb410ff61f20015ad");
    assert_eq!(r.verdict, Verdict::Safe);
    assert!(r.findings.is_empty());
    assert_eq!(r.extracted_text, "Texto\nlimpo");
    assert_eq!(r.filename, "a.pdf");
}

#[test]
fn a_finding_makes_the_document_unsafe() {
    let mut c = content(Vec::new());
    c.has_javascript = true;
    let r = analyze_content(b"", &c, "b.pdf".to_string(), String::new());
    assert_eq!(r.verdict, Verdict::Unsafe);
    assert_eq!(r.file_hash, "e3b0c44298fc1c149afbf4c8996fb92427ae41e4649b934ca495991b7852b855");
}

#[test]
fn clean_findings_leave_the_verdict_safe() {
    assert_eq!(verdict_for(&vec![finding(Severity::Clean)]), Verdict::Safe);
    assert_eq!(verdict_for(&vec![finding(Severity::Clean), finding(Severity::Warning)]), Verdict::Unsafe);
    assert_eq!(verdict_for(&Vec::new()), Verdict::Safe);
}

#[test]
fn hex_digits_are_two_per_byte() {
    assert_eq!(to_hex_lower(&[0x00, 0x0f, 0xa0, 0xff]), "000fa0ff");
}
