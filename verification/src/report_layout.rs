use vstd::prelude::*;
use vstd::utf8::*;
use vstd::string::StringSliceAdditionalSpecFns;
use crate::models::{
    findings_view, results_view, AnalysisResult, AnalysisResultView, Finding, FindingView,
    LlmClassification, LlmClassificationView, Severity, Verdict,
};
use crate::report_labels::{labels_for, labels_spec, translate_description, translated, LabelsView, ReportLabels};
use crate::report_text::{count_safe, safe_count, severity_text, verdict_text, REPORT_VERSION};
use crate::text::{byte_prefix, decimal, decimal_string, repeat_char, str_byte_prefix, trim_spec, trim_str};

verus! {

/// A colour given by its red, green and blue components.
#[derive(Debug, Clone, Copy)]
pub struct Rgb {
    pub r: u8,
    pub g: u8,
    pub b: u8,
}

/// How a piece of text is drawn; `None` keeps what the enclosing element says.
#[derive(Debug, Clone, Copy)]
pub struct TextStyle {
    pub bold: bool,
    pub italic: bool,
    pub font_size: Option<u8>,
    pub color: Option<Rgb>,
}

/// A piece of text with its style.
#[derive(Debug)]
pub struct Span {
    pub text: String,
    pub style: TextStyle,
}

/// The mathematical value of a [`Span`].
pub struct SpanView {
    pub text: Seq<char>,
    pub style: TextStyle,
}

impl View for Span {
    type V = SpanView;

    open spec fn view(&self) -> SpanView {
        SpanView { text: self.text@, style: self.style }
    }
}

/// Margins (top, right, bottom, left) around an element, in millimetres.
#[derive(Debug, Clone, Copy)]
pub struct Padding {
    pub top: u8,
    pub right: u8,
    pub bottom: u8,
    pub left: u8,
}

/// One element of a report page.
#[derive(Debug)]
pub enum Block {
    /// Spans drawn in one paragraph under a common style.
    Paragraph { spans: Vec<Span>, style: TextStyle, centered: bool, padding: Option<Padding> },
    /// Vertical space, in tenths of a line.
    Break { tenths: u8 },
    /// A two-column table (column widths 1:3); each cell is one styled paragraph.
    Table { rows: Vec<(Span, Span)> },
}

/// The mathematical value of a [`Block`].
pub enum BlockView {
    Paragraph { spans: Seq<SpanView>, style: TextStyle, centered: bool, padding: Option<Padding> },
    Break { tenths: u8 },
    Table { rows: Seq<(SpanView, SpanView)> },
}

impl View for Block {
    type V = BlockView;

    open spec fn view(&self) -> BlockView {
        match self {
            Block::Paragraph { spans, style, centered, padding } => BlockView::Paragraph {
                spans: spans@.map_values(|s: Span| s@),
                style: *style,
                centered: *centered,
                padding: *padding,
            },
            Block::Break { tenths } => BlockView::Break { tenths: *tenths },
            Block::Table { rows } => BlockView::Table {
                rows: rows@.map_values(|r: (Span, Span)| (r.0@, r.1@)),
            },
        }
    }
}

/// The values of a sequence of blocks.
pub open spec fn blocks_view(v: Seq<Block>) -> Seq<BlockView> {
    v.map_values(|b: Block| b@)
}

/// A report page layout: its title, line spacing (in tenths), page margin and blocks.
#[derive(Debug)]
pub struct ReportLayout {
    pub title: String,
    pub line_spacing_tenths: u8,
    pub margins: u8,
    pub blocks: Vec<Block>,
}

pub open spec fn style(bold: bool, italic: bool, font_size: Option<u8>, color: Option<Rgb>) -> TextStyle {
    TextStyle { bold, italic, font_size, color }
}

pub open spec fn rgb(r: u8, g: u8, b: u8) -> Rgb {
    Rgb { r, g, b }
}

pub open spec fn unstyled() -> TextStyle {
    style(false, false, None, None)
}

/// A paragraph of one unstyled span under `s`.
pub open spec fn par(text: Seq<char>, s: TextStyle) -> BlockView {
    BlockView::Paragraph { spans: seq![SpanView { text, style: unstyled() }], style: s, centered: false, padding: None }
}

pub open spec fn gap(tenths: u8) -> BlockView {
    BlockView::Break { tenths }
}

pub open spec fn cell(text: Seq<char>, s: TextStyle) -> SpanView {
    SpanView { text, style: s }
}

/// A label cell and a value cell of a table row.
pub open spec fn row(label: Seq<char>, value: Seq<char>, value_size: u8) -> (SpanView, SpanView) {
    (cell(label, style(true, false, Some(9), None)), cell(value, style(false, false, Some(value_size), None)))
}

pub open spec fn underscores(n: nat) -> Seq<char> {
    Seq::new(n, |i: int| '_')
}

/// A line of `n` underscores in small grey type.
pub open spec fn rule(n: nat, grey: u8) -> BlockView {
    par(underscores(n), style(false, false, Some(6), Some(rgb(grey, grey, grey))))
}

pub open spec fn section_title(title: Seq<char>) -> BlockView {
    par(title, style(true, false, Some(12), Some(rgb(40, 40, 80))))
}

pub open spec fn severity_color(s: Severity) -> Rgb {
    match s {
        Severity::Critical => rgb(200, 40, 40),
        Severity::Warning => rgb(200, 140, 0),
        Severity::Clean => rgb(34, 139, 34),
    }
}

pub open spec fn verdict_color(v: Verdict) -> Rgb {
    match v {
        Verdict::Safe => rgb(34, 139, 34),
        Verdict::Unsafe => rgb(200, 40, 40),
    }
}

/// Whether `&excerpt.trim()[..120]` can be taken: the trimmed excerpt has at most 120 bytes
/// or byte 120 starts a character.
pub open spec fn excerpt_cut_ok(excerpt: Seq<char>) -> bool {
    let b = encode_utf8(trim_spec(excerpt));
    b.len() <= 120 || is_char_boundary(b, 120)
}

pub open spec fn findings_cut_ok(fs: Seq<FindingView>) -> bool {
    forall|i: int| 0 <= i < fs.len() ==> excerpt_cut_ok(#[trigger] fs[i].excerpt)
}

/// The quoted excerpt shown in a finding block: the trimmed excerpt, cut after 120 bytes
/// with `...` when longer.
pub open spec fn shown_excerpt(excerpt: Seq<char>) -> Seq<char> {
    let t = trim_spec(excerpt);
    "\""@ + (if encode_utf8(t).len() > 120 { byte_prefix(t, 120) + "..."@ } else { t }) + "\""@
}

/// The blocks of the finding of number `index`.
pub open spec fn finding_layout(index: nat, f: FindingView, l: LabelsView, language: Seq<char>) -> Seq<BlockView> {
    let header = BlockView::Paragraph {
        spans: seq![
            SpanView { text: decimal(index) + ". "@, style: unstyled() },
            SpanView { text: severity_text(f.severity, l), style: style(true, false, None, Some(severity_color(f.severity))) },
            SpanView { text: " -- "@ + l.page_label + " "@ + decimal(f.page as nat), style: style(false, false, None, Some(rgb(80, 80, 80))) },
        ],
        style: style(false, false, Some(10), None),
        centered: false,
        padding: None,
    };
    let description = BlockView::Paragraph {
        spans: seq![SpanView { text: translated(f.detection_type, f.description, language), style: unstyled() }],
        style: style(false, false, Some(9), None),
        centered: false,
        padding: Some(Padding { top: 1, right: 0, bottom: 1, left: 12 }),
    };
    let excerpt = BlockView::Paragraph {
        spans: seq![SpanView { text: shown_excerpt(f.excerpt), style: unstyled() }],
        style: style(false, true, Some(8), Some(rgb(80, 80, 80))),
        centered: false,
        padding: Some(Padding { top: 0, right: 0, bottom: 2, left: 12 }),
    };
    seq![header, description] + (if trim_spec(f.excerpt).len() == 0 { Seq::empty() } else { seq![excerpt] })
        + seq![gap(4)]
}

/// The blocks of the first `n` findings.
pub open spec fn findings_layout(fs: Seq<FindingView>, l: LabelsView, language: Seq<char>, n: int) -> Seq<BlockView>
    decreases n,
{
    if n <= 0 {
        Seq::empty()
    } else {
        findings_layout(fs, l, language, n - 1) + finding_layout(n as nat, fs[n - 1], l, language)
    }
}

/// The title and the rule under it.
pub open spec fn layout_head(l: LabelsView) -> Seq<BlockView> {
    seq![
        BlockView::Paragraph {
            spans: seq![SpanView { text: l.title, style: unstyled() }],
            style: style(true, false, Some(16), None),
            centered: true,
            padding: None,
        },
        gap(5),
        rule(80, 180),
        gap(10),
    ]
}

/// The version line and the disclaimer.
pub open spec fn layout_footer(l: LabelsView) -> Seq<BlockView> {
    seq![
        par(l.version + ": "@ + REPORT_VERSION@, style(false, false, Some(8), Some(rgb(120, 120, 120)))),
        par(l.disclaimer, style(false, true, Some(8), Some(rgb(120, 120, 120)))),
    ]
}

/// The findings of a report, or the note that there are none.
pub open spec fn findings_part(fs: Seq<FindingView>, l: LabelsView, language: Seq<char>, note_size: u8) -> Seq<BlockView> {
    if fs.len() == 0 {
        seq![par(l.no_findings, style(false, true, Some(note_size), Some(rgb(100, 100, 100))))]
    } else {
        findings_layout(fs, l, language, fs.len() as int)
    }
}

/// The section of the language model's classification.
pub open spec fn llm_layout(c: LlmClassificationView, l: LabelsView) -> Seq<BlockView> {
    seq![
        section_title(l.llm_analysis),
        gap(3),
        BlockView::Table {
            rows: seq![
                row(l.classification, c.classification, 9),
                row(l.confidence, decimal(c.confidence as nat) + "%"@, 9),
                row(l.explanation, c.explanation, 9),
            ],
        },
        gap(10),
    ]
}

/// The file information and verdict sections.
pub open spec fn info_layout(r: AnalysisResultView, l: LabelsView) -> Seq<BlockView> {
    seq![
        section_title(l.file_info),
        gap(3),
        BlockView::Table {
            rows: seq![
                row(l.filename, r.filename, 9),
                row(l.analysis_date, r.analyzed_at, 9),
                row(l.hash, r.file_hash, 8),
            ],
        },
        gap(12),
        section_title(l.verdict),
        gap(3),
        par(verdict_text(r.verdict, l), style(true, false, Some(14), Some(verdict_color(r.verdict)))),
        gap(12),
        section_title(l.findings),
        gap(3),
    ]
}

/// The page blocks of the report of one analysis.
pub open spec fn report_blocks(r: AnalysisResultView, llm: Option<LlmClassificationView>, language: Seq<char>) -> Seq<BlockView> {
    let l = labels_spec(language);
    layout_head(l) + info_layout(r, l) + findings_part(r.findings, l, language, 10) + seq![gap(10)]
        + (match llm {
            Some(c) => llm_layout(c, l),
            None => Seq::empty(),
        })
        + seq![rule(80, 180), gap(3)] + layout_footer(l)
}

/// The blocks of the result of number `index` in a batch report.
pub open spec fn batch_result_layout(index: nat, r: AnalysisResultView, l: LabelsView, language: Seq<char>) -> Seq<BlockView> {
    seq![
        section_title(decimal(index) + ". "@ + r.filename),
        gap(2),
        par(verdict_text(r.verdict, l), style(true, false, Some(11), Some(verdict_color(r.verdict)))),
    ] + findings_part(r.findings, l, language, 9) + seq![gap(5), rule(60, 200), gap(5)]
}

/// The blocks of the first `n` results of a batch.
pub open spec fn batch_results_layout(rs: Seq<AnalysisResultView>, l: LabelsView, language: Seq<char>, n: int) -> Seq<BlockView>
    decreases n,
{
    if n <= 0 {
        Seq::empty()
    } else {
        batch_results_layout(rs, l, language, n - 1) + batch_result_layout(n as nat, rs[n - 1], l, language)
    }
}

/// The page blocks of the report of a batch of analyses.
pub open spec fn batch_blocks(rs: Seq<AnalysisResultView>, language: Seq<char>) -> Seq<BlockView> {
    let l = labels_spec(language);
    let safe = safe_count(rs, rs.len() as int);
    layout_head(l) + seq![
        par("Total: "@ + decimal(rs.len()) + " | "@ + l.verdict_safe + ": "@ + decimal(safe) + " | "@
            + l.verdict_unsafe + ": "@ + decimal((rs.len() - safe) as nat), style(true, false, Some(10), None)),
        gap(10),
    ] + batch_results_layout(rs, l, language, rs.len() as int) + layout_footer(l)
}

pub proof fn lemma_push_block(v: Seq<Block>, b: Block)
    ensures
        blocks_view(v.push(b)) == blocks_view(v).push(b@),
{
    assert(blocks_view(v.push(b)) =~= blocks_view(v).push(b@));
}

fn push_block(blocks: &mut Vec<Block>, b: Block)
    ensures
        blocks_view(final(blocks)@) == blocks_view(old(blocks)@).push(b@),
{
    proof {
        lemma_push_block(blocks@, b);
    }
    blocks.push(b);
}

fn mk_style(bold: bool, italic: bool, font_size: Option<u8>, color: Option<Rgb>) -> (s: TextStyle)
    ensures
        s == style(bold, italic, font_size, color),
{
    TextStyle { bold, italic, font_size, color }
}

fn mk_rgb(r: u8, g: u8, b: u8) -> (c: Rgb)
    ensures
        c == rgb(r, g, b),
{
    Rgb { r, g, b }
}

fn paragraph(text: String, s: TextStyle) -> (b: Block)
    ensures
        b@ == par(text@, s),
{
    let mut spans: Vec<Span> = Vec::new();
    spans.push(Span { text, style: mk_style(false, false, None, None) });
    let b = Block::Paragraph { spans, style: s, centered: false, padding: None };
    assert(b@ == par(text@, s)) by {
        assert(spans@.map_values(|x: Span| x@) =~= seq![SpanView { text: text@, style: unstyled() }]);
    }
    b
}

fn push_gap(blocks: &mut Vec<Block>, tenths: u8)
    ensures
        blocks_view(final(blocks)@) == blocks_view(old(blocks)@).push(gap(tenths)),
{
    push_block(blocks, Block::Break { tenths });
}

fn push_rule(blocks: &mut Vec<Block>, n: usize, grey: u8)
    ensures
        blocks_view(final(blocks)@) == blocks_view(old(blocks)@).push(rule(n as nat, grey)),
{
    let line = repeat_char('_', n);
    assert(line@ =~= underscores(n as nat));
    push_block(blocks, paragraph(line, mk_style(false, false, Some(6), Some(mk_rgb(grey, grey, grey)))));
}

fn push_section_title(blocks: &mut Vec<Block>, title: &str)
    ensures
        blocks_view(final(blocks)@) == blocks_view(old(blocks)@).push(section_title(title@)),
{
    push_block(blocks, paragraph(title.to_string(), mk_style(true, false, Some(12), Some(mk_rgb(40, 40, 80)))));
}

fn severity_color_of(s: Severity) -> (c: Rgb)
    ensures
        c == severity_color(s),
{
    match s {
        Severity::Critical => mk_rgb(200, 40, 40),
        Severity::Warning => mk_rgb(200, 140, 0),
        Severity::Clean => mk_rgb(34, 139, 34),
    }
}

fn verdict_color_of(v: Verdict) -> (c: Rgb)
    ensures
        c == verdict_color(v),
{
    match v {
        Verdict::Safe => mk_rgb(34, 139, 34),
        Verdict::Unsafe => mk_rgb(200, 40, 40),
    }
}

fn severity_label_of(s: Severity, labels: &ReportLabels) -> (r: &'static str)
    ensures
        r@ == severity_text(s, labels@),
{
    match s {
        Severity::Critical => labels.severity_critical,
        Severity::Warning => labels.severity_warning,
        Severity::Clean => labels.severity_clean,
    }
}

fn verdict_label_of(v: Verdict, labels: &ReportLabels) -> (r: &'static str)
    ensures
        r@ == verdict_text(v, labels@),
{
    match v {
        Verdict::Safe => labels.verdict_safe,
        Verdict::Unsafe => labels.verdict_unsafe,
    }
}

/// Whether the trimmed `excerpt` can be cut after 120 bytes without splitting a character.
pub fn excerpt_cut_allowed(excerpt: &str) -> (b: bool)
    ensures
        b == excerpt_cut_ok(excerpt@),
{
    let t = trim_str(excerpt);
    t.as_str().as_bytes().len() <= 120 || t.as_str().is_char_boundary(120)
}

/// The quoted excerpt of a finding block.
fn excerpt_display(excerpt: &str) -> (r: String)
    requires
        excerpt_cut_ok(excerpt@),
    ensures
        r@ == shown_excerpt(excerpt@),
{
    let t = trim_str(excerpt);
    let mut r = "\"".to_string();
    if t.as_str().as_bytes().len() > 120 {
        r.append(str_byte_prefix(t.as_str(), 120).as_str());
        r.append("...");
    } else {
        r.append(t.as_str());
    }
    r.append("\"");
    assert(r@ =~= shown_excerpt(excerpt@));
    r
}

/// Adds the blocks of one finding: a numbered header with severity and page, the translated
/// description, the excerpt when there is one, and a small gap.
pub fn push_finding_block(blocks: &mut Vec<Block>, index: usize, finding: &Finding, labels: &ReportLabels, language: &str)
    requires
        excerpt_cut_ok(finding.excerpt@),
    ensures
        blocks_view(final(blocks)@) == blocks_view(old(blocks)@) + finding_layout(index as nat, finding@, labels@, language@),
{
    let ghost start = blocks_view(blocks@);
    let mut number = decimal_string(index as u128);
    number.append(". ");
    let mut page = " -- ".to_string();
    page.append(labels.page_label);
    page.append(" ");
    page.append(decimal_string(finding.page as u128).as_str());
    let mut spans: Vec<Span> = Vec::new();
    spans.push(Span { text: number, style: mk_style(false, false, None, None) });
    spans.push(Span {
        text: severity_label_of(finding.severity, labels).to_string(),
        style: mk_style(true, false, None, Some(severity_color_of(finding.severity))),
    });
    spans.push(Span { text: page, style: mk_style(false, false, None, Some(mk_rgb(80, 80, 80))) });
    let header = Block::Paragraph { spans, style: mk_style(false, false, Some(10), None), centered: false, padding: None };
    let ghost fl = finding_layout(index as nat, finding@, labels@, language@);
    assert(header@ == fl[0]) by {
        assert(spans@.map_values(|x: Span| x@) =~= fl[0]->Paragraph_spans);
    }
    push_block(blocks, header);
    let description = translate_description(&finding.detection_type, finding.description.as_str(), language);
    let mut dspans: Vec<Span> = Vec::new();
    dspans.push(Span { text: description, style: mk_style(false, false, None, None) });
    let dblock = Block::Paragraph {
        spans: dspans,
        style: mk_style(false, false, Some(9), None),
        centered: false,
        padding: Some(Padding { top: 1, right: 0, bottom: 1, left: 12 }),
    };
    assert(dblock@ == fl[1]) by {
        assert(dspans@.map_values(|x: Span| x@) =~= fl[1]->Paragraph_spans);
    }
    push_block(blocks, dblock);
    let trimmed = trim_str(finding.excerpt.as_str());
    if !trimmed.as_str().is_empty() {
        let mut espans: Vec<Span> = Vec::new();
        espans.push(Span { text: excerpt_display(finding.excerpt.as_str()), style: mk_style(false, false, None, None) });
        let eblock = Block::Paragraph {
            spans: espans,
            style: mk_style(false, true, Some(8), Some(mk_rgb(80, 80, 80))),
            centered: false,
            padding: Some(Padding { top: 0, right: 0, bottom: 2, left: 12 }),
        };
        assert(eblock@ == fl[2]) by {
            assert(espans@.map_values(|x: Span| x@) =~= fl[2]->Paragraph_spans);
        }
        push_block(blocks, eblock);
    }
    push_gap(blocks, 4);
    assert(blocks_view(blocks@) =~= start + fl);
}

fn table_row(label: &str, value: String, value_size: u8) -> (r: (Span, Span))
    ensures
        (r.0@, r.1@) == row(label@, value@, value_size),
{
    (
        Span { text: label.to_string(), style: mk_style(true, false, Some(9), None) },
        Span { text: value, style: mk_style(false, false, Some(value_size), None) },
    )
}

fn push_table(blocks: &mut Vec<Block>, rows: Vec<(Span, Span)>, Ghost(expected): Ghost<Seq<(SpanView, SpanView)>>)
    requires
        rows@.map_values(|r: (Span, Span)| (r.0@, r.1@)) == expected,
    ensures
        blocks_view(final(blocks)@) == blocks_view(old(blocks)@).push(BlockView::Table { rows: expected }),
{
    push_block(blocks, Block::Table { rows });
}

fn push_head(blocks: &mut Vec<Block>, labels: &ReportLabels)
    ensures
        blocks_view(final(blocks)@) == blocks_view(old(blocks)@) + layout_head(labels@),
{
    let ghost start = blocks_view(blocks@);
    let mut spans: Vec<Span> = Vec::new();
    spans.push(Span { text: labels.title.to_string(), style: mk_style(false, false, None, None) });
    let title = Block::Paragraph { spans, style: mk_style(true, false, Some(16), None), centered: true, padding: None };
    assert(title@ == layout_head(labels@)[0]) by {
        assert(spans@.map_values(|x: Span| x@) =~= layout_head(labels@)[0]->Paragraph_spans);
    }
    push_block(blocks, title);
    push_gap(blocks, 5);
    push_rule(blocks, 80, 180);
    push_gap(blocks, 10);
    assert(blocks_view(blocks@) =~= start + layout_head(labels@));
}

fn push_footer(blocks: &mut Vec<Block>, labels: &ReportLabels)
    ensures
        blocks_view(final(blocks)@) == blocks_view(old(blocks)@) + layout_footer(labels@),
{
    let ghost start = blocks_view(blocks@);
    let mut version = labels.version.to_string();
    version.append(": ");
    version.append(REPORT_VERSION);
    push_block(blocks, paragraph(version, mk_style(false, false, Some(8), Some(mk_rgb(120, 120, 120)))));
    push_block(blocks, paragraph(labels.disclaimer.to_string(), mk_style(false, true, Some(8), Some(mk_rgb(120, 120, 120)))));
    assert(blocks_view(blocks@) =~= start + layout_footer(labels@));
}

fn push_info(blocks: &mut Vec<Block>, result: &AnalysisResult, labels: &ReportLabels)
    ensures
        blocks_view(final(blocks)@) == blocks_view(old(blocks)@) + info_layout(result@, labels@),
{
    let ghost start = blocks_view(blocks@);
    push_section_title(blocks, labels.file_info);
    push_gap(blocks, 3);
    let mut rows: Vec<(Span, Span)> = Vec::new();
    rows.push(table_row(labels.filename, result.filename.clone(), 9));
    rows.push(table_row(labels.analysis_date, result.analyzed_at.clone(), 9));
    rows.push(table_row(labels.hash, result.file_hash.clone(), 8));
    let ghost expected = seq![
        row(labels@.filename, result@.filename, 9),
        row(labels@.analysis_date, result@.analyzed_at, 9),
        row(labels@.hash, result@.file_hash, 8),
    ];
    assert(rows@.map_values(|r: (Span, Span)| (r.0@, r.1@)) =~= expected);
    push_table(blocks, rows, Ghost(expected));
    push_gap(blocks, 12);
    push_section_title(blocks, labels.verdict);
    push_gap(blocks, 3);
    push_block(blocks, paragraph(verdict_label_of(result.verdict, labels).to_string(),
        mk_style(true, false, Some(14), Some(verdict_color_of(result.verdict)))));
    push_gap(blocks, 12);
    push_section_title(blocks, labels.findings);
    push_gap(blocks, 3);
    assert(blocks_view(blocks@) =~= start + info_layout(result@, labels@));
}

fn push_findings_part(blocks: &mut Vec<Block>, findings: &Vec<Finding>, labels: &ReportLabels, language: &str, note_size: u8)
    requires
        findings_cut_ok(findings_view(findings@)),
    ensures
        blocks_view(final(blocks)@) == blocks_view(old(blocks)@) + findings_part(findings_view(findings@), labels@, language@, note_size),
{
    let ghost start = blocks_view(blocks@);
    let ghost fs = findings_view(findings@);
    if findings.len() == 0 {
        push_block(blocks, paragraph(labels.no_findings.to_string(),
            mk_style(false, true, Some(note_size), Some(mk_rgb(100, 100, 100)))));
        assert(blocks_view(blocks@) =~= start + findings_part(fs, labels@, language@, note_size));
    } else {
        assert(start + findings_layout(fs, labels@, language@, 0) =~= start);
        let mut i: usize = 0;
        while i < findings.len()
            invariant
                i <= findings@.len(),
                fs == findings_view(findings@),
                findings_cut_ok(fs),
                blocks_view(blocks@) == start + findings_layout(fs, labels@, language@, i as int),
            decreases findings.len() - i,
        {
            assert(fs[i as int] == findings@[i as int]@);
            assert(excerpt_cut_ok(fs[i as int].excerpt));
            push_finding_block(blocks, i + 1, &findings[i], labels, language);
            assert(blocks_view(blocks@) =~= start + findings_layout(fs, labels@, language@, i + 1));
            i = i + 1;
        }
    }
}

fn push_llm(blocks: &mut Vec<Block>, c: &LlmClassification, labels: &ReportLabels)
    ensures
        blocks_view(final(blocks)@) == blocks_view(old(blocks)@) + llm_layout(c@, labels@),
{
    let ghost start = blocks_view(blocks@);
    push_section_title(blocks, labels.llm_analysis);
    push_gap(blocks, 3);
    let mut confidence = decimal_string(c.confidence as u128);
    confidence.append("%");
    let mut rows: Vec<(Span, Span)> = Vec::new();
    rows.push(table_row(labels.classification, c.classification.clone(), 9));
    rows.push(table_row(labels.confidence, confidence, 9));
    rows.push(table_row(labels.explanation, c.explanation.clone(), 9));
    let ghost expected = seq![
        row(labels@.classification, c@.classification, 9),
        row(labels@.confidence, decimal(c.confidence as nat) + "%"@, 9),
        row(labels@.explanation, c@.explanation, 9),
    ];
    assert(rows@.map_values(|r: (Span, Span)| (r.0@, r.1@)) =~= expected);
    push_table(blocks, rows, Ghost(expected));
    push_gap(blocks, 10);
    assert(blocks_view(blocks@) =~= start + llm_layout(c@, labels@));
}

/// The page layout of the report of one analysis: title, file information, verdict, the
/// findings, the language model's classification when given, and the footer.
pub fn report_layout(result: &AnalysisResult, llm_result: Option<&LlmClassification>, language: &str) -> (r: ReportLayout)
    requires
        findings_cut_ok(result@.findings),
    ensures
        r.title@ == labels_spec(language@).title,
        r.line_spacing_tenths == 14,
        r.margins == 20,
        blocks_view(r.blocks@) == report_blocks(result@, match llm_result { Some(c) => Some(c@), None => None }, language@),
{
    let labels = labels_for(language);
    let mut blocks: Vec<Block> = Vec::new();
    assert(blocks_view(blocks@) =~= Seq::<BlockView>::empty());
    push_head(&mut blocks, &labels);
    push_info(&mut blocks, result, &labels);
    push_findings_part(&mut blocks, &result.findings, &labels, language, 10);
    push_gap(&mut blocks, 10);
    let ghost mid = blocks_view(blocks@);
    match llm_result {
        Some(c) => {
            push_llm(&mut blocks, c, &labels);
        },
        None => {
            assert(mid + Seq::<BlockView>::empty() =~= mid);
        },
    }
    push_rule(&mut blocks, 80, 180);
    push_gap(&mut blocks, 3);
    push_footer(&mut blocks, &labels);
    assert(blocks_view(blocks@) =~= report_blocks(result@, match llm_result { Some(c) => Some(c@), None => None }, language@));
    ReportLayout { title: labels.title.to_string(), line_spacing_tenths: 14, margins: 20, blocks }
}

fn push_batch_result(blocks: &mut Vec<Block>, index: usize, result: &AnalysisResult, labels: &ReportLabels, language: &str)
    requires
        findings_cut_ok(result@.findings),
    ensures
        blocks_view(final(blocks)@) == blocks_view(old(blocks)@) + batch_result_layout(index as nat, result@, labels@, language@),
{
    let ghost start = blocks_view(blocks@);
    let mut title = decimal_string(index as u128);
    title.append(". ");
    title.append(result.filename.as_str());
    push_section_title(blocks, title.as_str());
    push_gap(blocks, 2);
    push_block(blocks, paragraph(verdict_label_of(result.verdict, labels).to_string(),
        mk_style(true, false, Some(11), Some(verdict_color_of(result.verdict)))));
    push_findings_part(blocks, &result.findings, labels, language, 9);
    push_gap(blocks, 5);
    push_rule(blocks, 60, 200);
    push_gap(blocks, 5);
    assert(blocks_view(blocks@) =~= start + batch_result_layout(index as nat, result@, labels@, language@));
}

/// Every finding of every result can be shown in a report.
pub open spec fn results_cut_ok(rs: Seq<AnalysisResultView>) -> bool {
    forall|i: int| 0 <= i < rs.len() ==> findings_cut_ok(#[trigger] rs[i].findings)
}

/// The page layout of the report of a batch: title, counts of safe and unsafe files, each
/// file with its verdict and findings, and the footer.
pub fn batch_report_layout(results: &[AnalysisResult], language: &str) -> (r: ReportLayout)
    requires
        results_cut_ok(results_view(results@)),
    ensures
        r.title@ == labels_spec(language@).title,
        r.line_spacing_tenths == 14,
        r.margins == 20,
        blocks_view(r.blocks@) == batch_blocks(results_view(results@), language@),
{
    let labels = labels_for(language);
    let mut blocks: Vec<Block> = Vec::new();
    assert(blocks_view(blocks@) =~= Seq::<BlockView>::empty());
    push_head(&mut blocks, &labels);
    let safe = count_safe(results);
    let mut summary = "Total: ".to_string();
    summary.append(decimal_string(results.len() as u128).as_str());
    summary.append(" | ");
    summary.append(labels.verdict_safe);
    summary.append(": ");
    summary.append(decimal_string(safe as u128).as_str());
    summary.append(" | ");
    summary.append(labels.verdict_unsafe);
    summary.append(": ");
    summary.append(decimal_string((results.len() - safe) as u128).as_str());
    push_block(&mut blocks, paragraph(summary, mk_style(true, false, Some(10), None)));
    push_gap(&mut blocks, 10);
    let ghost head = blocks_view(blocks@);
    let ghost rs = results_view(results@);
    assert(head + batch_results_layout(rs, labels@, language@, 0) =~= head);
    let mut i: usize = 0;
    while i < results.len()
        invariant
            i <= results@.len(),
            rs == results_view(results@),
            results_cut_ok(rs),
            blocks_view(blocks@) == head + batch_results_layout(rs, labels@, language@, i as int),
        decreases results.len() - i,
    {
        assert(rs[i as int] == results@[i as int]@);
        assert(findings_cut_ok(rs[i as int].findings));
        push_batch_result(&mut blocks, i + 1, &results[i], &labels, language);
        assert(blocks_view(blocks@) =~= head + batch_results_layout(rs, labels@, language@, i + 1));
        i = i + 1;
    }
    push_footer(&mut blocks, &labels);
    assert(blocks_view(blocks@) =~= batch_blocks(results_view(results@), language@));
    ReportLayout { title: labels.title.to_string(), line_spacing_tenths: 14, margins: 20, blocks }
}

} // verus!
