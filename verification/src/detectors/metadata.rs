use vstd::prelude::*;
use crate::detectors::SharedSignals;
use crate::heuristic_detector::{metadata_findings, push_value_findings, METADATA_DESCRIPTION_PREFIX};
use crate::models::{findings_view, DetectionType, Finding, Severity};
use crate::pdf_model::{as_string, deref, dereference, dict_get, dict_lookup, key, string_text, PdfDictionary, PdfDocument, PdfObject};
use crate::text::text_fits;

verus! {

/// The document information entries (`/Info`) that carry text, each key once.
#[derive(Debug)]
pub struct Signals {
    pub metadata: Vec<(String, String)>,
}

/// Instruction phrases in the document information (title, author and the like).
#[derive(Debug)]
pub struct MetadataDetector;

/// The information dictionary of a document.
pub open spec fn info_dict(doc: PdfDocument) -> Option<PdfDictionary> {
    match dict_get(doc.trailer, key("Info"@)) {
        Some(o) => match deref(doc, o) {
            Some(PdfObject::Dictionary(d)) => Some(d),
            _ => None,
        },
        None => None,
    }
}

/// The entry `name` of an information dictionary, when its value is a string.
pub open spec fn info_entry(d: PdfDictionary, name: Seq<char>) -> Seq<(Seq<char>, Seq<char>)> {
    match dict_get(d, key(name)) {
        Some(v) => match string_text(v) {
            Some(t) => seq![(name, t)],
            None => Seq::empty(),
        },
        None => Seq::empty(),
    }
}

/// The text entries of the information dictionary, in the order Title, Author, Subject,
/// Keywords, Creator, Producer.
pub open spec fn info_entries(doc: PdfDocument) -> Seq<(Seq<char>, Seq<char>)> {
    match info_dict(doc) {
        Some(d) => info_entry(d, "Title"@) + info_entry(d, "Author"@) + info_entry(d, "Subject"@)
            + info_entry(d, "Keywords"@) + info_entry(d, "Creator"@) + info_entry(d, "Producer"@),
        None => Seq::empty(),
    }
}

/// The value of a list of entries.
pub open spec fn entries_view(v: Seq<(String, String)>) -> Seq<(Seq<char>, Seq<char>)> {
    v.map_values(|e: (String, String)| (e.0@, e.1@))
}

fn push_info_entry(entries: &mut Vec<(String, String)>, d: &PdfDictionary, name: &str)
    ensures
        entries_view(final(entries)@) == entries_view(old(entries)@) + info_entry(*d, name@),
{
    let ghost start = entries_view(entries@);
    match dict_lookup(d, name) {
        Some(v) => match as_string(v) {
            Some(text) => {
                entries.push((name.to_string(), text));
            },
            None => {},
        },
        None => {},
    }
    assert(entries_view(entries@) =~= start + info_entry(*d, name@));
}

/// Every value fits in memory.
pub open spec fn values_fit(v: Seq<(String, String)>) -> bool {
    forall|i: int| 0 <= i < v.len() ==> text_fits(#[trigger] v[i].1@)
}

impl MetadataDetector {
    pub fn name(&self) -> (r: &'static str)
        ensures
            r@ == "metadata"@,
    {
        "metadata"
    }

    /// The text entries of the document information.
    pub fn extract(&self, doc: &PdfDocument, _raw_bytes: &[u8], _pages: &Vec<(u32, String)>) -> (s: Signals)
        ensures
            entries_view(s.metadata@) == info_entries(*doc),
    {
        let mut metadata: Vec<(String, String)> = Vec::new();
        assert(entries_view(metadata@) =~= Seq::<(Seq<char>, Seq<char>)>::empty());
        match dict_lookup(&doc.trailer, "Info") {
            Some(info) => match dereference(doc, info) {
                Some(PdfObject::Dictionary(d)) => {
                    push_info_entry(&mut metadata, d, "Title");
                    push_info_entry(&mut metadata, d, "Author");
                    push_info_entry(&mut metadata, d, "Subject");
                    push_info_entry(&mut metadata, d, "Keywords");
                    push_info_entry(&mut metadata, d, "Creator");
                    push_info_entry(&mut metadata, d, "Producer");
                    assert(entries_view(metadata@) =~= info_entries(*doc));
                },
                _ => {},
            },
            None => {},
        }
        Signals { metadata }
    }

    /// A critical finding for every instruction phrase in every entry, with 30 bytes of context.
    pub fn detect(&self, signals: &Signals, _pages: &Vec<(u32, String)>, _shared: &SharedSignals) -> (findings: Vec<Finding>)
        ensures
            findings_view(findings@) == metadata_findings(signals.metadata@, signals.metadata@.len() as int),
    {
        let mut findings: Vec<Finding> = Vec::new();
        assert(findings_view(findings@) =~= metadata_findings(signals.metadata@, 0));
        let mut m: usize = 0;
        while m < signals.metadata.len()
            invariant
                m <= signals.metadata@.len(),
                findings_view(findings@) == metadata_findings(signals.metadata@, m as int),
            decreases signals.metadata.len() - m,
        {
            let mut description = METADATA_DESCRIPTION_PREFIX.to_string();
            description.append(signals.metadata[m].0.as_str());
            description.append("'");
            push_value_findings(0, Severity::Critical, DetectionType::MetadataInjection,
                description.as_str(), signals.metadata[m].1.as_str(), &mut findings);
            assert(findings_view(findings@) =~= metadata_findings(signals.metadata@, m + 1));
            m = m + 1;
        }
        findings
    }
}

} // verus!
