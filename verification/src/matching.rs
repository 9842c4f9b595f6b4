use vstd::prelude::*;
use vstd::string::StringSliceAdditionalSpecFns;

verus! {

/// Portuguese instruction-manipulation phrases.
pub const PT_BR_INSTRUCTIONS: &'static str = r"(?i)(ignore\s+(todas\s+)?(as\s+)?instru[çc][õo]es|desconsidere\s+o\s+prompt|aja\s+como|novo\s+objetivo|esque[çc]a\s+(as\s+)?instru[çc][õo]es|n[aã]o\s+siga\s+(as\s+)?regras|aten[çc][aã]o[\s,]+intelig[eê]ncia\s+artificial|n[aã]o\s+impugne|conteste\s+(esta|essa|de\s+forma)\s+.*superficial|conclua\s+que\s+todos|independentemente\s+do\s+comando)";

/// English instruction-manipulation phrases.
pub const EN_INSTRUCTIONS: &'static str = r"(?i)(ignore\s+(all\s+)?previous\s+instructions|disregard\s+(the\s+)?(above|previous)|act\s+as\s+(a\s+)?|new\s+objective|forget\s+(all\s+)?(your\s+)?instructions|you\s+are\s+now\s+|system\s*:\s*)";

/// Portuguese and English instruction-manipulation phrases together.
pub const COMBINED_INSTRUCTIONS: &'static str = r"(?i)(ignore\s+(todas\s+)?(as\s+)?instru[çc][õo]es|desconsidere\s+o\s+prompt|aja\s+como|novo\s+objetivo|esque[çc]a\s+(as\s+)?instru[çc][õo]es|n[aã]o\s+siga\s+(as\s+)?regras|aten[çc][aã]o[\s,]+intelig[eê]ncia\s+artificial|n[aã]o\s+impugne|conteste\s+(esta|essa|de\s+forma)\s+.*superficial|conclua\s+que\s+todos|independentemente\s+do\s+comando|ignore\s+(all\s+)?previous\s+instructions|disregard\s+(the\s+)?(above|previous)|act\s+as\s+(a\s+)?|new\s+objective|forget\s+(all\s+)?(your\s+)?instructions|you\s+are\s+now\s+|system\s*:\s*)";

/// Citations of precedents that do not exist (numbers beyond the real series).
pub const FAKE_CITATION: &'static str = r"(?i)(s[uú]mula\s+([5-9]\d{2}|\d{4,})/(TST|STF|STJ)|OJ-SDI\d?-([5-9]\d{2}|\d{4,})|PRECEDENTE\s+VINCULANTE)";

/// A literal string shown with the `Tj` operator in a content stream; group 1 is the string.
pub const TJ_OPERATOR: &'static str = r"\(([^)]*)\)\s*Tj";

/// The pattern of Portuguese instruction phrases.
pub fn instruction_patterns_pt_br() -> (p: &'static str)
    ensures
        p@ == PT_BR_INSTRUCTIONS@,
{
    PT_BR_INSTRUCTIONS
}

/// The pattern of English instruction phrases.
pub fn instruction_patterns_en() -> (p: &'static str)
    ensures
        p@ == EN_INSTRUCTIONS@,
{
    EN_INSTRUCTIONS
}

/// The pattern of Portuguese and English instruction phrases.
pub fn combined_instruction_patterns() -> (p: &'static str)
    ensures
        p@ == COMBINED_INSTRUCTIONS@,
{
    COMBINED_INSTRUCTIONS
}

/// Start byte offsets, in order, of the successive non-overlapping leftmost-first matches
/// of the regular expression `pattern` in `haystack` (empty when `pattern` does not compile).
pub uninterp spec fn regex_match_starts(pattern: Seq<char>, haystack: Seq<char>) -> Seq<usize>;

/// Compiles `pattern` with `regex::Regex::new` and collects `Match::start` of every item of
/// `Regex::find_iter(haystack)`. Trusted: the result is named by `regex_match_starts`; the one
/// further claim, that every start lies within the haystack, is what the `Match` documentation
/// guarantees ("always correct to slice the original haystack"). The empty result for a pattern
/// that does not compile is this wrapper's choice; the patterns of this library all compile.
#[verifier::external_body]
pub(crate) fn match_starts(pattern: &str, haystack: &str) -> (r: Vec<usize>)
    ensures
        r@ == regex_match_starts(pattern@, haystack@),
        forall|i: int| 0 <= i < r@.len() ==> r@[i] <= haystack.spec_bytes().len(),
{
    match regex::Regex::new(pattern) {
        Ok(re) => re.find_iter(haystack).map(|m| m.start()).collect(),
        Err(_) => Vec::new(),
    }
}

/// Capture group 1 of each successive non-overlapping match of `pattern` in `haystack`
/// (`None` where the group did not take part; no items when `pattern` does not compile).
pub uninterp spec fn regex_group_one_texts(pattern: Seq<char>, haystack: Seq<char>) -> Seq<Option<Seq<char>>>;

/// The view of a list of optional texts.
pub open spec fn optional_texts(v: Seq<Option<String>>) -> Seq<Option<Seq<char>>> {
    v.map_values(|s: Option<String>| match s {
        Some(t) => Some(t@),
        None => None,
    })
}

/// Compiles `pattern` with `regex::Regex::new` and collects group 1 of every item of
/// `Regex::captures_iter(haystack)`. Trusted: the result is named by `regex_group_one_texts`;
/// nothing more is claimed.
#[verifier::external_body]
pub(crate) fn group_one_texts(pattern: &str, haystack: &str) -> (r: Vec<Option<String>>)
    ensures
        optional_texts(r@) == regex_group_one_texts(pattern@, haystack@),
{
    match regex::Regex::new(pattern) {
        Ok(re) => re.captures_iter(haystack).map(|c| c.get(1).map(|m| m.as_str().to_string())).collect(),
        Err(_) => Vec::new(),
    }
}

} // verus!
