pub mod models;
pub mod text;
pub mod config;
pub mod matching;
pub mod pdf_parser;
pub mod pdf_model;
pub mod stream_content;
pub mod detectors;
pub mod heuristic_detector;
pub mod analysis;
pub mod detection_laws;
pub mod signal_laws;
pub mod report_labels;
pub mod report_text;
pub mod report_layout;
pub mod report_generator;
pub mod llm_analyzer;
