use vstd::prelude::*;
use crate::matching::{
    match_starts, regex_match_starts, COMBINED_INSTRUCTIONS, EN_INSTRUCTIONS, PT_BR_INSTRUCTIONS,
};
use crate::models::{findings_view, DetectionType, Finding, FindingView, Severity};
use crate::pdf_parser::{AnnotationInfo, PdfContent};
use crate::text::{
    byte_offset, byte_offset_of, chars_of, context_of, count_occurrences, decimal, decimal_string,
    extract_context, lemma_byte_offset_bound, lemma_byte_offset_step, occurrences, string_of_range,
    text_fits, to_lowercase_string, trim_bounds, trim_spec, unicode_lowercase, utf8_width,
};

verus! {

pub const ZERO_WIDTH_DESCRIPTION: &'static str = "Zero-width invisible characters detected";
pub const BIDI_DESCRIPTION: &'static str = "Bidirectional Unicode override character detected";
pub const INSTRUCTION_DESCRIPTION: &'static str = "Suspicious instruction pattern detected in page text";
pub const FLOODING_DESCRIPTION: &'static str = "Token flooding detected: excessive repetition of favorable legal terms";
pub const FLOODING_EXCERPT_SUFFIX: &'static str = " repetitions of favorable terms detected";

/// A finding value.
pub open spec fn finding(
    page: u32,
    severity: Severity,
    detection_type: DetectionType,
    description: Seq<char>,
    excerpt: Seq<char>,
    char_offset: Option<usize>,
) -> FindingView {
    FindingView { page, severity, detection_type, description, excerpt, char_offset }
}

/// `description (countx)`.
pub open spec fn counted(description: Seq<char>, count: nat) -> Seq<char> {
    description + " ("@ + decimal(count) + "x)"@
}

pub proof fn lemma_push_view(v: Seq<Finding>, f: Finding)
    ensures
        findings_view(v.push(f)) == findings_view(v).push(f@),
{
    assert(findings_view(v.push(f)) =~= findings_view(v).push(f@));
}

/// Characters that occupy no width.
pub open spec fn is_zero_width(c: char) -> bool {
    c == '\u{200B}' || c == '\u{200C}' || c == '\u{200D}' || c == '\u{FEFF}' || c == '\u{00AD}'
        || c == '\u{2060}'
}

pub fn is_zero_width_char(c: char) -> (b: bool)
    ensures
        b == is_zero_width(c),
{
    c == '\u{200B}' || c == '\u{200C}' || c == '\u{200D}' || c == '\u{FEFF}' || c == '\u{00AD}'
        || c == '\u{2060}'
}

/// Number of zero-width characters among the first `n` of `s`.
pub open spec fn zero_width_count(s: Seq<char>, n: int) -> nat
    decreases n,
{
    if n <= 0 {
        0
    } else {
        zero_width_count(s, n - 1) + if is_zero_width(s[n - 1]) { 1nat } else { 0nat }
    }
}

/// Index of the first zero-width character at or after `i` (or the length).
pub open spec fn first_zero_width(s: Seq<char>, i: int) -> int
    decreases s.len() - i,
{
    if i < 0 || i >= s.len() || is_zero_width(s[i]) {
        i
    } else {
        first_zero_width(s, i + 1)
    }
}

/// A visible character right next to a zero-width one.
pub open spec fn borders_zero_width(s: Seq<char>, i: int) -> bool {
    &&& !is_zero_width(s[i])
    &&& ((i > 0 && is_zero_width(s[i - 1])) || (i + 1 < s.len() && is_zero_width(s[i + 1])))
}

/// The visible characters among the first `n` of `s` that border a zero-width character.
pub open spec fn bordering_chars(s: Seq<char>, n: int) -> Seq<char>
    decreases n,
{
    if n <= 0 {
        Seq::empty()
    } else if borders_zero_width(s, n - 1) {
        bordering_chars(s, n - 1).push(s[n - 1])
    } else {
        bordering_chars(s, n - 1)
    }
}

/// The zero-width finding of a page, if any.
pub open spec fn zero_width_findings(page: u32, text: Seq<char>) -> Seq<FindingView> {
    let count = zero_width_count(text, text.len() as int);
    if count == 0 {
        Seq::empty()
    } else {
        let pos = byte_offset(text, first_zero_width(text, 0));
        let hidden = trim_spec(bordering_chars(text, text.len() as int));
        let excerpt = if hidden.len() == 0 { context_of(text, pos, 40) } else { hidden };
        seq![finding(page, Severity::Critical, DetectionType::ZeroWidthChars,
            counted(ZERO_WIDTH_DESCRIPTION@, count), excerpt, Some(pos as usize))]
    }
}

proof fn lemma_first_zero_width(s: Seq<char>, i: int)
    requires
        0 <= i <= s.len(),
    ensures
        i <= first_zero_width(s, i) <= s.len(),
        first_zero_width(s, i) < s.len() ==> is_zero_width(s[first_zero_width(s, i)]),
        forall|j: int| i <= j < first_zero_width(s, i) ==> !is_zero_width(#[trigger] s[j]),
    decreases s.len() - i,
{
    if i < s.len() && !is_zero_width(s[i]) {
        lemma_first_zero_width(s, i + 1);
    }
}

proof fn lemma_zero_width_count_none(s: Seq<char>, n: int)
    requires
        0 <= n <= s.len(),
        forall|j: int| 0 <= j < n ==> !is_zero_width(#[trigger] s[j]),
    ensures
        zero_width_count(s, n) == 0,
    decreases n,
{
    if n > 0 {
        lemma_zero_width_count_none(s, n - 1);
    }
}

proof fn lemma_zero_width_count_bound(s: Seq<char>, n: int)
    requires
        0 <= n <= s.len(),
    ensures
        zero_width_count(s, n) <= n,
    decreases n,
{
    if n > 0 {
        lemma_zero_width_count_bound(s, n - 1);
    }
}

/// Zero-width characters hide text between visible words; report them with the text they hide.
pub fn detect_zero_width_characters(page: u32, text: &str, findings: &mut Vec<Finding>)
    requires
        text_fits(text@),
    ensures
        findings_view(final(findings)@) == findings_view(old(findings)@) + zero_width_findings(page, text@),
{
    let chars = chars_of(text);
    let n = chars.len();
    let mut count: usize = 0;
    let mut first: usize = n;
    let mut hidden: Vec<char> = Vec::new();
    let mut prev_was_zw = false;
    let mut i: usize = 0;
    while i < n
        invariant
            n == chars@.len(),
            chars@ == text@,
            i <= n,
            count == zero_width_count(chars@, i as int),
            count <= i,
            first == (if count == 0 { n as int } else { first_zero_width(chars@, 0) }),
            hidden@ == bordering_chars(chars@, i as int),
            prev_was_zw == (i > 0 && is_zero_width(chars@[i - 1])),
        decreases n - i,
    {
        let c = chars[i];
        if is_zero_width_char(c) {
            if count == 0 {
                first = i;
                proof {
                    lemma_zero_width_count_bound(chars@, i as int);
                    assert forall|j: int| 0 <= j < i implies !is_zero_width(#[trigger] chars@[j]) by {
                        if is_zero_width(chars@[j]) {
                            lemma_zero_width_count_positive(chars@, j, i as int);
                        }
                    }
                    lemma_first_zero_width_at(chars@, i as int);
                }
            }
            count = count + 1;
            prev_was_zw = true;
        } else {
            let next_is_zw = i + 1 < n && is_zero_width_char(chars[i + 1]);
            if prev_was_zw || next_is_zw {
                hidden.push(c);
            }
            prev_was_zw = false;
        }
        i = i + 1;
    }
    if count > 0 {
        proof {
            lemma_first_zero_width(chars@, 0);
        }
        let first_pos = byte_offset_of(&chars, first);
        let (lo, hi) = trim_bounds(&hidden);
        let excerpt = if lo == hi {
            proof {
                lemma_byte_offset_bound(chars@, first as int);
            }
            extract_context(text, first_pos, 40)
        } else {
            string_of_range(&hidden, lo, hi)
        };
        let mut description = ZERO_WIDTH_DESCRIPTION.to_string();
        description.append(" (");
        description.append(&decimal_string(count as u128));
        description.append("x)");
        let f = Finding {
            page,
            severity: Severity::Critical,
            detection_type: DetectionType::ZeroWidthChars,
            description,
            excerpt,
            char_offset: Some(first_pos),
        };
        proof {
            lemma_push_view(findings@, f);
        }
        findings.push(f);
    } else {
        assert(zero_width_findings(page, text@) =~= Seq::empty());
        assert(findings_view(findings@) + Seq::<FindingView>::empty() =~= findings_view(findings@));
    }
}

proof fn lemma_zero_width_count_positive(s: Seq<char>, j: int, n: int)
    requires
        0 <= j < n <= s.len(),
        is_zero_width(s[j]),
    ensures
        zero_width_count(s, n) > 0,
    decreases n,
{
    if j < n - 1 {
        lemma_zero_width_count_positive(s, j, n - 1);
    }
}

proof fn lemma_first_zero_width_at(s: Seq<char>, i: int)
    requires
        0 <= i < s.len(),
        is_zero_width(s[i]),
        forall|j: int| 0 <= j < i ==> !is_zero_width(#[trigger] s[j]),
    ensures
        first_zero_width(s, 0) == i,
{
    lemma_first_zero_width(s, 0);
    if first_zero_width(s, 0) < i {
        assert(!is_zero_width(s[first_zero_width(s, 0)]));
    }
}

} // verus!

verus! {

/// Characters that override the direction of the text around them.
pub open spec fn is_bidi_override(c: char) -> bool {
    ('\u{202A}' <= c && c <= '\u{202E}') || ('\u{2066}' <= c && c <= '\u{2069}')
}

pub fn is_bidi_override_char(c: char) -> (b: bool)
    ensures
        b == is_bidi_override(c),
{
    ('\u{202A}' <= c && c <= '\u{202E}') || ('\u{2066}' <= c && c <= '\u{2069}')
}

/// One finding for each direction override among the first `n` characters of `text`.
pub open spec fn bidi_findings(page: u32, text: Seq<char>, n: int) -> Seq<FindingView>
    decreases n,
{
    if n <= 0 {
        Seq::empty()
    } else if is_bidi_override(text[n - 1]) {
        let pos = byte_offset(text, n - 1);
        bidi_findings(page, text, n - 1).push(finding(page, Severity::Critical,
            DetectionType::UnicodeTrick, BIDI_DESCRIPTION@, context_of(text, pos, 30), Some(pos as usize)))
    } else {
        bidi_findings(page, text, n - 1)
    }
}

/// Direction overrides can reorder what a reader sees; report each one.
pub fn detect_unicode_tricks(page: u32, text: &str, findings: &mut Vec<Finding>)
    requires
        text_fits(text@),
    ensures
        findings_view(final(findings)@) == findings_view(old(findings)@) + bidi_findings(page, text@, text@.len() as int),
{
    let chars = chars_of(text);
    let n = chars.len();
    let mut pos: usize = 0;
    let mut i: usize = 0;
    let ghost start = findings_view(findings@);
    assert(start + Seq::<FindingView>::empty() =~= start);
    proof {
        assert(chars@.take(0) =~= Seq::<char>::empty());
        assert(vstd::utf8::encode_utf8(Seq::<char>::empty()) =~= Seq::<u8>::empty());
    }
    while i < n
        invariant
            n == chars@.len(),
            chars@ == text@,
            text_fits(text@),
            i <= n,
            pos == byte_offset(chars@, i as int),
            findings_view(findings@) == start + bidi_findings(page, text@, i as int),
        decreases n - i,
    {
        let c = chars[i];
        proof {
            lemma_byte_offset_step(chars@, i as int);
            lemma_byte_offset_bound(chars@, i + 1);
            lemma_byte_offset_bound(chars@, i as int);
        }
        if is_bidi_override_char(c) {
            let f = Finding {
                page,
                severity: Severity::Critical,
                detection_type: DetectionType::UnicodeTrick,
                description: BIDI_DESCRIPTION.to_string(),
                excerpt: extract_context(text, pos, 30),
                char_offset: Some(pos),
            };
            proof {
                lemma_push_view(findings@, f);
                assert(start + bidi_findings(page, text@, i + 1) =~= (start + bidi_findings(page, text@, i as int)).push(f@));
            }
            findings.push(f);
        }
        pos = pos + utf8_width(c);
        i = i + 1;
    }
}

/// The finding for the matches of `pattern` in a page, if any: the first match in context,
/// and the number of matches when there are several.
pub open spec fn pattern_findings(
    page: u32,
    text: Seq<char>,
    pattern: Seq<char>,
    severity: Severity,
    detection_type: DetectionType,
    description: Seq<char>,
) -> Seq<FindingView> {
    let m = regex_match_starts(pattern, text);
    if m.len() == 0 {
        Seq::empty()
    } else {
        seq![finding(page, severity, detection_type,
            if m.len() > 1 { counted(description, m.len()) } else { description },
            context_of(text, m[0] as int, 80), Some(m[0]))]
    }
}

/// Report the first match of an instruction pattern in a page, with the number of matches.
pub fn detect_instruction_patterns(
    page: u32,
    text: &str,
    pattern: &str,
    severity: Severity,
    detection_type: DetectionType,
    description: &str,
    findings: &mut Vec<Finding>,
)
    ensures
        findings_view(final(findings)@) == findings_view(old(findings)@) + pattern_findings(
            page, text@, pattern@, severity, detection_type, description@),
{
    let matches = match_starts(pattern, text);
    if matches.len() == 0 {
        assert(findings_view(findings@) + Seq::<FindingView>::empty() =~= findings_view(findings@));
        return;
    }
    let first = matches[0];
    let excerpt = extract_context(text, first, 80);
    let desc = if matches.len() > 1 {
        let mut d = description.to_string();
        d.append(" (");
        d.append(&decimal_string(matches.len() as u128));
        d.append("x)");
        d
    } else {
        description.to_string()
    };
    let f = Finding { page, severity, detection_type, description: desc, excerpt, char_offset: Some(first) };
    proof {
        lemma_push_view(findings@, f);
    }
    findings.push(f);
}

/// Legal terms whose excessive repetition suggests flooding.
pub open spec fn flooding_hits(lower: Seq<char>) -> nat {
    occurrences(lower, "procedente"@) + occurrences(lower, "dano moral"@) + occurrences(lower, "ma-fe"@)
        + occurrences(lower, "confissao"@) + occurrences(lower, "revelia"@) + occurrences(lower,
        "presuncao de veracidade"@) + occurrences(lower, "incontroverso"@) + occurrences(lower,
        "prova irrefutavel"@)
}

/// The flooding finding of a page, if favorable terms occur more than ten times.
pub open spec fn flooding_findings(page: u32, text: Seq<char>) -> Seq<FindingView> {
    let hits = flooding_hits(unicode_lowercase(text));
    if hits > 10 {
        seq![finding(page, Severity::Warning, DetectionType::TokenFlooding, FLOODING_DESCRIPTION@,
            decimal(hits) + FLOODING_EXCERPT_SUFFIX@, None)]
    } else {
        Seq::empty()
    }
}

pub(crate) fn count_term(lower: &Vec<char>, term: &str) -> (c: usize)
    requires
        term@.len() > 0,
    ensures
        c == occurrences(lower@, term@),
{
    let t = chars_of(term);
    count_occurrences(lower, &t)
}

/// Excessive repetition of favorable legal terms is a statistical manipulation.
pub fn detect_token_flooding(page: u32, text: &str, findings: &mut Vec<Finding>)
    ensures
        findings_view(final(findings)@) == findings_view(old(findings)@) + flooding_findings(page, text@),
{
    let lower_string = to_lowercase_string(text);
    let lower = chars_of(lower_string.as_str());
    proof {
        reveal_strlit("procedente");
        reveal_strlit("dano moral");
        reveal_strlit("ma-fe");
        reveal_strlit("confissao");
        reveal_strlit("revelia");
        reveal_strlit("presuncao de veracidade");
        reveal_strlit("incontroverso");
        reveal_strlit("prova irrefutavel");
    }
    let mut total: u128 = 0;
    total = total + count_term(&lower, "procedente") as u128;
    total = total + count_term(&lower, "dano moral") as u128;
    total = total + count_term(&lower, "ma-fe") as u128;
    total = total + count_term(&lower, "confissao") as u128;
    total = total + count_term(&lower, "revelia") as u128;
    total = total + count_term(&lower, "presuncao de veracidade") as u128;
    total = total + count_term(&lower, "incontroverso") as u128;
    total = total + count_term(&lower, "prova irrefutavel") as u128;
    if total > 10 {
        let mut excerpt = decimal_string(total);
        excerpt.append(FLOODING_EXCERPT_SUFFIX);
        let f = Finding {
            page,
            severity: Severity::Warning,
            detection_type: DetectionType::TokenFlooding,
            description: FLOODING_DESCRIPTION.to_string(),
            excerpt,
            char_offset: None,
        };
        proof {
            lemma_push_view(findings@, f);
        }
        findings.push(f);
    } else {
        assert(findings_view(findings@) + Seq::<FindingView>::empty() =~= findings_view(findings@));
    }
}

} // verus!

verus! {

pub const WHITE_TEXT_DESCRIPTION: &'static str = "White/invisible text detected in document content stream";
pub const WHITE_TEXT_EXCERPT: &'static str = "Color set to white (1,1,1) before text rendering";
pub const INVISIBLE_TEXT_DESCRIPTION: &'static str = "Invisible text (render mode 3) detected in document";
pub const INVISIBLE_TEXT_EXCERPT: &'static str = "Text present in extraction layer but not rendered visually (Tr 3)";
pub const MICROSCOPIC_FONT_DESCRIPTION: &'static str = "Microscopic font size (≤3pt) detected in document";
pub const MICROSCOPIC_FONT_EXCERPT: &'static str = "Text rendered with font size below readable threshold";
pub const OUTSIDE_BOUNDS_DESCRIPTION: &'static str = "Text positioned outside visible page boundaries";
pub const OUTSIDE_BOUNDS_EXCERPT: &'static str = "Text coordinates exceed page MediaBox dimensions";
pub const JAVASCRIPT_DESCRIPTION: &'static str = "Embedded JavaScript detected in PDF document";
pub const JAVASCRIPT_EXCERPT: &'static str = "Embedded JavaScript detected";
pub const FORM_DESCRIPTION: &'static str = "Hidden form fields (AcroForm) detected in document";
pub const FORM_EXCERPT: &'static str = "AcroForm fields present — unusual in judicial documents";
pub const FORM_VALUE_DESCRIPTION: &'static str = "Instruction pattern found in hidden form field value";
pub const METADATA_DESCRIPTION_PREFIX: &'static str = "Suspicious instruction pattern detected in metadata field '";
pub const ANNOTATION_DESCRIPTION_PREFIX: &'static str = "Suspicious instruction pattern detected in ";
pub const ANNOTATION_DESCRIPTION_SUFFIX: &'static str = " annotation";

/// The vector that instruction patterns in page text are attributed to, from the structural signals.
pub open spec fn primary_type(c: PdfContent) -> DetectionType {
    if c.has_white_text {
        DetectionType::WhiteText
    } else if c.has_invisible_text {
        DetectionType::InvisibleText
    } else if c.has_microscopic_font {
        DetectionType::MicroscopicFont
    } else if c.has_text_outside_bounds {
        DetectionType::TextOutsideBounds
    } else {
        DetectionType::InstructionPattern
    }
}

/// English instructions in a document with no structural signal count as a foreign-language vector.
pub open spec fn english_type(primary: DetectionType) -> DetectionType {
    if primary == DetectionType::InstructionPattern {
        DetectionType::ForeignLanguageInstruction
    } else {
        primary
    }
}

/// The findings of one page's text.
pub open spec fn page_findings(page: u32, text: Seq<char>, primary: DetectionType) -> Seq<FindingView> {
    zero_width_findings(page, text) + bidi_findings(page, text, text.len() as int) + pattern_findings(
        page, text, PT_BR_INSTRUCTIONS@, Severity::Warning, primary, INSTRUCTION_DESCRIPTION@)
        + pattern_findings(page, text, EN_INSTRUCTIONS@, Severity::Warning, english_type(primary),
        INSTRUCTION_DESCRIPTION@) + flooding_findings(page, text)
}

/// The findings of the first `n` pages, in order.
pub open spec fn pages_findings(pages: Seq<(u32, String)>, n: int, primary: DetectionType) -> Seq<FindingView>
    decreases n,
{
    if n <= 0 {
        Seq::empty()
    } else {
        pages_findings(pages, n - 1, primary) + page_findings(pages[n - 1].0, pages[n - 1].1@, primary)
    }
}

/// Some finding has the given type.
pub open spec fn has_type(fs: Seq<FindingView>, t: DetectionType) -> bool {
    exists|i: int| 0 <= i < fs.len() && #[trigger] fs[i].detection_type == t
}

/// Adds the document-wide warning of a raised structural signal whose type no finding has yet.
pub open spec fn with_signal(
    fs: Seq<FindingView>,
    flag: bool,
    t: DetectionType,
    description: Seq<char>,
    excerpt: Seq<char>,
) -> Seq<FindingView> {
    if flag && !has_type(fs, t) {
        fs.push(finding(0, Severity::Warning, t, description, excerpt, None))
    } else {
        fs
    }
}

/// One finding for each of the first `n` match starts in `value`.
pub open spec fn match_findings(
    page: u32,
    severity: Severity,
    detection_type: DetectionType,
    description: Seq<char>,
    value: Seq<char>,
    starts: Seq<usize>,
    n: int,
) -> Seq<FindingView>
    decreases n,
{
    if n <= 0 {
        Seq::empty()
    } else {
        match_findings(page, severity, detection_type, description, value, starts, n - 1).push(
            finding(page, severity, detection_type, description, context_of(value, starts[n - 1] as int, 30),
            Some(starts[n - 1])))
    }
}

/// One finding for each instruction phrase (in either language) in `value`.
pub open spec fn value_findings(
    page: u32,
    severity: Severity,
    detection_type: DetectionType,
    description: Seq<char>,
    value: Seq<char>,
) -> Seq<FindingView> {
    let starts = regex_match_starts(COMBINED_INSTRUCTIONS@, value);
    match_findings(page, severity, detection_type, description, value, starts, starts.len() as int)
}

/// The findings of the first `n` form field values.
pub open spec fn form_value_findings(values: Seq<String>, n: int) -> Seq<FindingView>
    decreases n,
{
    if n <= 0 {
        Seq::empty()
    } else {
        form_value_findings(values, n - 1) + value_findings(0, Severity::Critical,
            DetectionType::HiddenFormField, FORM_VALUE_DESCRIPTION@, values[n - 1]@)
    }
}

/// The findings of the first `n` metadata entries.
pub open spec fn metadata_findings(entries: Seq<(String, String)>, n: int) -> Seq<FindingView>
    decreases n,
{
    if n <= 0 {
        Seq::empty()
    } else {
        metadata_findings(entries, n - 1) + value_findings(0, Severity::Critical,
            DetectionType::MetadataInjection, METADATA_DESCRIPTION_PREFIX@ + entries[n - 1].0@ + "'"@,
            entries[n - 1].1@)
    }
}

/// The findings of the first `n` annotations.
pub open spec fn annotation_findings(annotations: Seq<AnnotationInfo>, n: int) -> Seq<FindingView>
    decreases n,
{
    if n <= 0 {
        Seq::empty()
    } else {
        annotation_findings(annotations, n - 1) + value_findings(annotations[n - 1].page,
            Severity::Warning, DetectionType::HiddenAnnotation, ANNOTATION_DESCRIPTION_PREFIX@
            + annotations[n - 1].annotation_type@ + ANNOTATION_DESCRIPTION_SUFFIX@,
            annotations[n - 1].content@)
    }
}

/// Everything `detect` reports of a document, in order.
pub open spec fn detect_spec(c: PdfContent) -> Seq<FindingView> {
    let p = primary_type(c);
    let f1 = pages_findings(c.pages@, c.pages@.len() as int, p);
    let f2 = with_signal(f1, c.has_white_text, DetectionType::WhiteText, WHITE_TEXT_DESCRIPTION@, WHITE_TEXT_EXCERPT@);
    let f3 = with_signal(f2, c.has_invisible_text, DetectionType::InvisibleText, INVISIBLE_TEXT_DESCRIPTION@, INVISIBLE_TEXT_EXCERPT@);
    let f4 = with_signal(f3, c.has_microscopic_font, DetectionType::MicroscopicFont, MICROSCOPIC_FONT_DESCRIPTION@, MICROSCOPIC_FONT_EXCERPT@);
    let f5 = with_signal(f4, c.has_text_outside_bounds, DetectionType::TextOutsideBounds, OUTSIDE_BOUNDS_DESCRIPTION@, OUTSIDE_BOUNDS_EXCERPT@);
    let f6 = if c.has_javascript {
        f5.push(finding(0, Severity::Critical, DetectionType::EmbeddedJavaScript, JAVASCRIPT_DESCRIPTION@, JAVASCRIPT_EXCERPT@, None))
    } else {
        f5
    };
    let f7 = if c.has_acroform_fields {
        f6.push(finding(0, Severity::Warning, DetectionType::HiddenFormField, FORM_DESCRIPTION@, FORM_EXCERPT@, None))
            + form_value_findings(c.form_field_values@, c.form_field_values@.len() as int)
    } else {
        f6
    };
    let f8 = f7 + metadata_findings(c.metadata@, c.metadata@.len() as int);
    f8 + annotation_findings(c.annotations@, c.annotations@.len() as int)
}

/// Whether some finding has the given type.
fn has_type_of(findings: &Vec<Finding>, t: DetectionType) -> (b: bool)
    ensures
        b == has_type(findings_view(findings@), t),
{
    let mut i: usize = 0;
    while i < findings.len()
        invariant
            i <= findings.len(),
            forall|j: int| 0 <= j < i ==> findings@[j].detection_type != t,
        decreases findings.len() - i,
    {
        if findings[i].detection_type == t {
            assert(findings_view(findings@)[i as int].detection_type == t);
            return true;
        }
        i = i + 1;
    }
    assert forall|j: int| 0 <= j < findings_view(findings@).len() implies #[trigger] findings_view(findings@)[j].detection_type != t by {
        assert(findings_view(findings@)[j] == findings@[j]@);
    }
    false
}

/// Adds the warning of a raised structural signal when no finding of its type exists.
fn push_signal(
    findings: &mut Vec<Finding>,
    flag: bool,
    t: DetectionType,
    description: &str,
    excerpt: &str,
)
    ensures
        findings_view(final(findings)@) == with_signal(findings_view(old(findings)@), flag, t, description@, excerpt@),
{
    if flag && !has_type_of(findings, t) {
        let f = Finding {
            page: 0,
            severity: Severity::Warning,
            detection_type: t,
            description: description.to_string(),
            excerpt: excerpt.to_string(),
            char_offset: None,
        };
        proof {
            lemma_push_view(findings@, f);
        }
        findings.push(f);
    }
}

/// Adds one finding per instruction phrase found in `value`.
pub fn push_value_findings(
    page: u32,
    severity: Severity,
    detection_type: DetectionType,
    description: &str,
    value: &str,
    findings: &mut Vec<Finding>,
)
    ensures
        findings_view(final(findings)@) == findings_view(old(findings)@) + value_findings(page,
            severity, detection_type, description@, value@),
{
    let starts = match_starts(COMBINED_INSTRUCTIONS, value);
    let ghost start = findings_view(findings@);
    assert(start + Seq::<FindingView>::empty() =~= start);
    let mut i: usize = 0;
    while i < starts.len()
        invariant
            i <= starts@.len(),
            starts@ == regex_match_starts(COMBINED_INSTRUCTIONS@, value@),
            forall|k: int| 0 <= k < starts@.len() ==> starts@[k] <= vstd::utf8::encode_utf8(value@).len(),
            findings_view(findings@) == start + match_findings(page, severity, detection_type,
                description@, value@, starts@, i as int),
        decreases starts.len() - i,
    {
        let pos = starts[i];
        let f = Finding {
            page,
            severity,
            detection_type,
            description: description.to_string(),
            excerpt: extract_context(value, pos, 30),
            char_offset: Some(pos),
        };
        proof {
            lemma_push_view(findings@, f);
            assert(start + match_findings(page, severity, detection_type, description@, value@, starts@, i + 1)
                =~= (start + match_findings(page, severity, detection_type, description@, value@, starts@, i as int)).push(f@));
        }
        findings.push(f);
        i = i + 1;
    }
}

/// Runs every heuristic over the document and returns the findings in a fixed order: per page
/// (zero-width, direction overrides, Portuguese then English instructions, flooding), then the
/// structural signals, JavaScript, form fields, metadata and annotations.
pub fn detect(content: &PdfContent) -> (findings: Vec<Finding>)
    requires
        content.well_formed(),
    ensures
        findings_view(findings@) == detect_spec(*content),
{
    let mut findings: Vec<Finding> = Vec::new();
    let primary = if content.has_white_text {
        DetectionType::WhiteText
    } else if content.has_invisible_text {
        DetectionType::InvisibleText
    } else if content.has_microscopic_font {
        DetectionType::MicroscopicFont
    } else if content.has_text_outside_bounds {
        DetectionType::TextOutsideBounds
    } else {
        DetectionType::InstructionPattern
    };
    let en_type = if primary == DetectionType::InstructionPattern {
        DetectionType::ForeignLanguageInstruction
    } else {
        primary
    };
    proof {
        assert(findings_view(findings@) =~= Seq::<FindingView>::empty());
    }
    let mut i: usize = 0;
    while i < content.pages.len()
        invariant
            i <= content.pages@.len(),
            content.well_formed(),
            primary == primary_type(*content),
            en_type == english_type(primary),
            findings_view(findings@) == pages_findings(content.pages@, i as int, primary),
        decreases content.pages.len() - i,
    {
        let page = content.pages[i].0;
        let text = content.pages[i].1.as_str();
        assert(text_fits(content.pages@[i as int].1@));
        let ghost before = findings_view(findings@);
        detect_zero_width_characters(page, text, &mut findings);
        detect_unicode_tricks(page, text, &mut findings);
        detect_instruction_patterns(page, text, PT_BR_INSTRUCTIONS, Severity::Warning, primary, INSTRUCTION_DESCRIPTION, &mut findings);
        detect_instruction_patterns(page, text, EN_INSTRUCTIONS, Severity::Warning, en_type, INSTRUCTION_DESCRIPTION, &mut findings);
        detect_token_flooding(page, text, &mut findings);
        proof {
            assert(findings_view(findings@) =~= before + page_findings(page, text@, primary));
        }
        i = i + 1;
    }
    push_signal(&mut findings, content.has_white_text, DetectionType::WhiteText, WHITE_TEXT_DESCRIPTION, WHITE_TEXT_EXCERPT);
    push_signal(&mut findings, content.has_invisible_text, DetectionType::InvisibleText, INVISIBLE_TEXT_DESCRIPTION, INVISIBLE_TEXT_EXCERPT);
    push_signal(&mut findings, content.has_microscopic_font, DetectionType::MicroscopicFont, MICROSCOPIC_FONT_DESCRIPTION, MICROSCOPIC_FONT_EXCERPT);
    push_signal(&mut findings, content.has_text_outside_bounds, DetectionType::TextOutsideBounds, OUTSIDE_BOUNDS_DESCRIPTION, OUTSIDE_BOUNDS_EXCERPT);
    if content.has_javascript {
        let f = Finding {
            page: 0,
            severity: Severity::Critical,
            detection_type: DetectionType::EmbeddedJavaScript,
            description: JAVASCRIPT_DESCRIPTION.to_string(),
            excerpt: JAVASCRIPT_EXCERPT.to_string(),
            char_offset: None,
        };
        proof {
            lemma_push_view(findings@, f);
        }
        findings.push(f);
    }
    if content.has_acroform_fields {
        let f = Finding {
            page: 0,
            severity: Severity::Warning,
            detection_type: DetectionType::HiddenFormField,
            description: FORM_DESCRIPTION.to_string(),
            excerpt: FORM_EXCERPT.to_string(),
            char_offset: None,
        };
        proof {
            lemma_push_view(findings@, f);
        }
        findings.push(f);
        let ghost f6 = findings_view(findings@);
        assert(f6 + form_value_findings(content.form_field_values@, 0) =~= f6);
        let mut k: usize = 0;
        while k < content.form_field_values.len()
            invariant
                k <= content.form_field_values@.len(),
                content.well_formed(),
                findings_view(findings@) == f6 + form_value_findings(content.form_field_values@, k as int),
            decreases content.form_field_values.len() - k,
        {
                push_value_findings(0, Severity::Critical, DetectionType::HiddenFormField,
                FORM_VALUE_DESCRIPTION, content.form_field_values[k].as_str(), &mut findings);
            assert(findings_view(findings@) =~= f6 + form_value_findings(content.form_field_values@, k + 1));
            k = k + 1;
        }
    }
    let ghost f7 = findings_view(findings@);
    assert(f7 + metadata_findings(content.metadata@, 0) =~= f7);
    let mut m: usize = 0;
    while m < content.metadata.len()
        invariant
            m <= content.metadata@.len(),
            content.well_formed(),
            findings_view(findings@) == f7 + metadata_findings(content.metadata@, m as int),
        decreases content.metadata.len() - m,
    {
        let mut description = METADATA_DESCRIPTION_PREFIX.to_string();
        description.append(content.metadata[m].0.as_str());
        description.append("'");
        push_value_findings(0, Severity::Critical, DetectionType::MetadataInjection,
            description.as_str(), content.metadata[m].1.as_str(), &mut findings);
        assert(findings_view(findings@) =~= f7 + metadata_findings(content.metadata@, m + 1));
        m = m + 1;
    }
    let ghost f8 = findings_view(findings@);
    assert(f8 + annotation_findings(content.annotations@, 0) =~= f8);
    let mut a: usize = 0;
    while a < content.annotations.len()
        invariant
            a <= content.annotations@.len(),
            content.well_formed(),
            findings_view(findings@) == f8 + annotation_findings(content.annotations@, a as int),
        decreases content.annotations.len() - a,
    {
        detect_annotation_injection(&content.annotations[a], &mut findings);
        assert(findings_view(findings@) =~= f8 + annotation_findings(content.annotations@, a + 1));
        a = a + 1;
    }
    findings
}

/// Instruction phrases in an annotation's text.
pub fn detect_annotation_injection(annotation: &AnnotationInfo, findings: &mut Vec<Finding>)
    ensures
        findings_view(final(findings)@) == findings_view(old(findings)@) + value_findings(annotation.page,
            Severity::Warning, DetectionType::HiddenAnnotation, ANNOTATION_DESCRIPTION_PREFIX@
            + annotation.annotation_type@ + ANNOTATION_DESCRIPTION_SUFFIX@, annotation.content@),
{
    let mut description = ANNOTATION_DESCRIPTION_PREFIX.to_string();
    description.append(annotation.annotation_type.as_str());
    description.append(ANNOTATION_DESCRIPTION_SUFFIX);
    push_value_findings(annotation.page, Severity::Warning, DetectionType::HiddenAnnotation,
        description.as_str(), annotation.content.as_str(), findings);
}

} // verus!
