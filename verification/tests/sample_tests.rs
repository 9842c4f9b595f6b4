use pdf_prompt_injection_evaluator::heuristic_detector::detect;
use pdf_prompt_injection_evaluator::pdf_parser::{content_of, document_from};
use std::path::Path;

#[test]
fn test_detects_sample_01_texto_branco() {
    let path = Path::new("../samples/vectors/01_texto_branco.pdf");
    if !path.exists() { return; }
    let doc = lopdf::Document::load(path).unwrap();
    let model = document_from(&doc);
    let pages: Vec<(u32, String)> = doc.get_pages().keys().map(|n| (*n, doc.extract_text(&[*n]).unwrap_or_default())).collect();
    println!("Extracted text:");
    for (page, text) in &pages {
        println!("  Page {}: {:?}", page, text.chars().take(200).collect::<String>());
    }
    let content = content_of(&model, &[], pages, false);
    let findings = detect(&content);
    println!("Findings: {:?}", findings.len());
    for f in &findings {
        println!("  {:?}", f);
    }
    assert!(!findings.is_empty(), "Should detect injection in sample 01");
}
