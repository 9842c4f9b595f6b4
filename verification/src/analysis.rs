use vstd::prelude::*;
use crate::heuristic_detector::{detect, detect_spec};
use crate::models::{findings_view, AnalysisResult, Finding, FindingView, Severity, Verdict};
use crate::pdf_parser::PdfContent;
use crate::text::push_char;

verus! {

/// A severity that makes a document unsafe.
pub open spec fn is_alarming(s: Severity) -> bool {
    s == Severity::Critical || s == Severity::Warning
}

/// A document is unsafe exactly when some finding is critical or a warning.
pub open spec fn verdict_spec(fs: Seq<FindingView>) -> Verdict {
    if exists|i: int| 0 <= i < fs.len() && is_alarming(#[trigger] fs[i].severity) {
        Verdict::Unsafe
    } else {
        Verdict::Safe
    }
}

/// The verdict on a list of findings.
pub fn verdict_for(findings: &Vec<Finding>) -> (v: Verdict)
    ensures
        v == verdict_spec(findings_view(findings@)),
{
    let mut i: usize = 0;
    while i < findings.len()
        invariant
            i <= findings.len(),
            forall|j: int| 0 <= j < i ==> !is_alarming(#[trigger] findings@[j].severity),
        decreases findings.len() - i,
    {
        let s = findings[i].severity;
        if s == Severity::Critical || s == Severity::Warning {
            assert(is_alarming(findings_view(findings@)[i as int].severity));
            return Verdict::Unsafe;
        }
        i = i + 1;
    }
    assert forall|j: int| 0 <= j < findings_view(findings@).len() implies !is_alarming(#[trigger] findings_view(findings@)[j].severity) by {
        assert(findings_view(findings@)[j] == findings@[j]@);
    }
    Verdict::Safe
}

/// The SHA-256 digest of a byte sequence.
pub uninterp spec fn sha256(data: Seq<u8>) -> Seq<u8>;

/// Calls `sha2::Sha256::digest`. Trusted: the digest is named by `sha256`, a function of the
/// data alone, and is 32 bytes long (the output size of SHA-256).
#[verifier::external_body]
pub(crate) fn sha256_digest(data: &[u8]) -> (r: Vec<u8>)
    ensures
        r@ == sha256(data@),
        r@.len() == 32,
{
    <sha2::Sha256 as sha2::Digest>::digest(data).to_vec()
}

/// The lower-case hexadecimal digit of a value below 16.
pub open spec fn hex_digit(d: u8) -> char {
    if d < 10 {
        ((d + 48) as u8) as char
    } else {
        ((d + 87) as u8) as char
    }
}

/// Lower-case hexadecimal text of a byte sequence, two digits per byte (as `{:x}` prints a digest).
pub open spec fn hex_lower(data: Seq<u8>) -> Seq<char>
    decreases data.len(),
{
    if data.len() == 0 {
        Seq::empty()
    } else {
        hex_lower(data.drop_last()).push(hex_digit(data.last() / 16)).push(hex_digit(data.last() % 16))
    }
}

/// A lower-case hexadecimal digit.
pub open spec fn is_hex_digit(c: char) -> bool {
    ('0' <= c && c <= '9') || ('a' <= c && c <= 'f')
}

/// The hexadecimal text of `n` bytes has two digits per byte, each a lower-case hexadecimal digit.
pub proof fn lemma_hex_shape(data: Seq<u8>)
    ensures
        hex_lower(data).len() == 2 * data.len(),
        forall|i: int| 0 <= i < hex_lower(data).len() ==> is_hex_digit(#[trigger] hex_lower(data)[i]),
    decreases data.len(),
{
    if data.len() > 0 {
        lemma_hex_shape(data.drop_last());
        let hi = data.last() / 16;
        let lo = data.last() % 16;
        assert(is_hex_digit(hex_digit(hi))) by {
            assert(hi < 16);
        }
        assert(is_hex_digit(hex_digit(lo))) by {
            assert(lo < 16);
        }
    }
}

fn hex_digit_char(d: u8) -> (c: char)
    requires
        d < 16,
    ensures
        c == hex_digit(d),
{
    if d < 10 {
        (d + 48) as char
    } else {
        (d + 87) as char
    }
}

/// Lower-case hexadecimal text of `data`.
pub fn to_hex_lower(data: &[u8]) -> (r: String)
    ensures
        r@ == hex_lower(data@),
{
    let mut r = String::new();
    let mut i: usize = 0;
    while i < data.len()
        invariant
            i <= data@.len(),
            r@ == hex_lower(data@.take(i as int)),
        decreases data.len() - i,
    {
        let b = data[i];
        push_char(&mut r, hex_digit_char(b / 16));
        push_char(&mut r, hex_digit_char(b % 16));
        assert(data@.take(i + 1).drop_last() =~= data@.take(i as int));
        i = i + 1;
    }
    assert(data@.take(data@.len() as int) =~= data@);
    r
}

/// The page texts, in order, separated by line breaks.
pub open spec fn joined_pages(pages: Seq<(u32, String)>, n: int) -> Seq<char>
    decreases n,
{
    if n <= 0 {
        Seq::empty()
    } else if n == 1 {
        pages[0].1@
    } else {
        joined_pages(pages, n - 1) + "\n"@ + pages[n - 1].1@
    }
}

/// All page texts separated by line breaks.
pub fn join_page_texts(pages: &Vec<(u32, String)>) -> (r: String)
    ensures
        r@ == joined_pages(pages@, pages@.len() as int),
{
    let mut r = String::new();
    let mut i: usize = 0;
    while i < pages.len()
        invariant
            i <= pages@.len(),
            r@ == joined_pages(pages@, i as int),
        decreases pages.len() - i,
    {
        if i > 0 {
            r.append("\n");
        }
        r.append(pages[i].1.as_str());
        i = i + 1;
    }
    r
}

/// Analyses one file: its digest, its findings, the verdict they give and its extracted text.
/// `file_bytes` are the bytes read from disk and `content` what was parsed from them.
pub fn analyze_content(
    file_bytes: &[u8],
    content: &PdfContent,
    filename: String,
    analyzed_at: String,
) -> (r: AnalysisResult)
    requires
        content.well_formed(),
    ensures
        findings_view(r.findings@) == detect_spec(*content),
        r.verdict == verdict_spec(detect_spec(*content)),
        r.file_hash@ == hex_lower(sha256(file_bytes@)),
        r.file_hash@.len() == 64,
        r.filename == filename,
        r.analyzed_at == analyzed_at,
        r.extracted_text@ == joined_pages(content.pages@, content.pages@.len() as int),
{
    let digest = sha256_digest(file_bytes);
    let file_hash = to_hex_lower(digest.as_slice());
    proof {
        lemma_hex_shape(digest@);
    }
    let findings = detect(content);
    let verdict = verdict_for(&findings);
    let extracted_text = join_page_texts(&content.pages);
    AnalysisResult { verdict, findings, file_hash, filename, analyzed_at, extracted_text }
}

} // verus!
