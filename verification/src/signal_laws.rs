use vstd::prelude::*;
use crate::detectors::forms::{catalog, sub_dict};
use crate::detectors::invisible_text::{invisible_pages, invisible_scan};
use crate::detectors::microscopic_font::{font_scan, microscopic_pages};
use crate::detectors::ocg_layer::{off_layer_ids, references};
use crate::detectors::white_text::{page_has_white_text, white_pages, white_scan};
use crate::detection_laws::lemma_zero_width_reported;
use crate::heuristic_detector::{
    detect_spec, page_findings, pages_findings, primary_type, with_signal, zero_width_findings,
    INVISIBLE_TEXT_DESCRIPTION, INVISIBLE_TEXT_EXCERPT, MICROSCOPIC_FONT_DESCRIPTION, MICROSCOPIC_FONT_EXCERPT,
    OUTSIDE_BOUNDS_DESCRIPTION, OUTSIDE_BOUNDS_EXCERPT, WHITE_TEXT_DESCRIPTION, WHITE_TEXT_EXCERPT,
};
use crate::models::{DetectionType, FindingView, Severity};
use crate::pdf_model::{is_microscopic, FloatValue, BITS_12, deref, dict_get, key, ObjectId, Operation, PdfDictionary, PdfDocument, PdfObject, PdfPage};
use crate::pdf_parser::PdfContent;

verus! {

/// One of the four operators that show text.
pub open spec fn text_operator(op: Operation) -> bool {
    op.operator@ == "Tj"@ || op.operator@ == "TJ"@ || op.operator@ == "'"@ || op.operator@ == "\""@
}

/// One of the six operators that set a colour.
pub open spec fn colour_operator(op: Operation) -> bool {
    op.operator@ == "rg"@ || op.operator@ == "RG"@ || op.operator@ == "g"@ || op.operator@ == "G"@
        || op.operator@ == "k"@ || op.operator@ == "K"@
}

/// A text operator is none of the colour, render-mode, text-object and font operators.
proof fn lemma_text_operator_differs(op: Operation)
    requires
        text_operator(op),
    ensures
        !colour_operator(op),
        op.operator@ != "Tr"@,
        op.operator@ != "BT"@,
        op.operator@ != "Tf"@,
{
    reveal_strlit("Tj");
    reveal_strlit("TJ");
    reveal_strlit("'");
    reveal_strlit("\"");
    reveal_strlit("rg");
    reveal_strlit("RG");
    reveal_strlit("g");
    reveal_strlit("G");
    reveal_strlit("k");
    reveal_strlit("K");
    reveal_strlit("Tr");
    reveal_strlit("BT");
    reveal_strlit("Tf");
    let t = op.operator@;
    if t == "Tj"@ {
        assert(t.len() == 2 && t[0] == 'T' && t[1] == 'j');
    } else if t == "TJ"@ {
        assert(t.len() == 2 && t[0] == 'T' && t[1] == 'J');
    } else if t == "'"@ {
        assert(t.len() == 1 && t[0] == '\'');
    } else {
        assert(t.len() == 1 && t[0] == '"');
    }
}

proof fn lemma_white_found_stays(ops: Seq<Operation>, a: int, b: int)
    requires
        0 <= a <= b <= ops.len(),
        white_scan(ops, a).1,
    ensures
        white_scan(ops, b).1,
    decreases b - a,
{
    if a < b {
        lemma_white_found_stays(ops, a, b - 1);
    }
}

proof fn lemma_white_holds(ops: Seq<Operation>, i: int, n: int)
    requires
        0 <= i < n <= ops.len(),
        white_scan(ops, i + 1).0,
        forall|m: int| i < m < n ==> !colour_operator(#[trigger] ops[m]),
    ensures
        white_scan(ops, n).0,
    decreases n - i,
{
    if n > i + 1 {
        lemma_white_holds(ops, i, n - 1);
        assert(!colour_operator(ops[n - 1]));
    }
}

proof fn lemma_white_page_listed(pages: Seq<PdfPage>, k: int, n: int)
    requires
        0 <= k < n <= pages.len(),
        page_has_white_text(pages[k]),
    ensures
        white_pages(pages, n).0,
        white_pages(pages, n).1.contains(pages[k].number),
    decreases n,
{
    if n > k + 1 {
        lemma_white_page_listed(pages, k, n - 1);
        let prev = white_pages(pages, n - 1).1;
        if page_has_white_text(pages[n - 1]) && !prev.contains(pages[n - 1].number) {
            let a = choose|a: int| 0 <= a < prev.len() && prev[a] == pages[k].number;
            assert(prev.push(pages[n - 1].number)[a] == pages[k].number);
        }
    } else {
        let prev = white_pages(pages, n - 1).1;
        if !prev.contains(pages[k].number) {
            assert(prev.push(pages[k].number)[prev.len() as int] == pages[k].number);
        }
    }
}

/// Text shown while the colour is white marks its page as white text: when a page sets the
/// colour to white (`1 1 1 rg` or `RG`, `1 g` or `G`, `0 0 0 0 k` or `K`), then shows text with `Tj`, `TJ`, `'` or `"` before any
/// other colour is set, white text is reported and the page's number is among the white pages
/// (what `WhiteTextDetector::extract` gives), whatever the page shows after it.
pub proof fn lemma_white_fill_then_text_is_white(pages: Seq<PdfPage>, k: int, ops: Vec<Operation>, i: int, j: int)
    requires
        0 <= k < pages.len(),
        pages[k].operations == Some(ops),
        0 <= i < j < ops@.len(),
        ((ops@[i].operator@ == "rg"@ || ops@[i].operator@ == "RG"@)
            && ops@[i].operands@ == seq![PdfObject::Integer(1), PdfObject::Integer(1), PdfObject::Integer(1)])
        || ((ops@[i].operator@ == "g"@ || ops@[i].operator@ == "G"@) && ops@[i].operands@ == seq![PdfObject::Integer(1)])
        || ((ops@[i].operator@ == "k"@ || ops@[i].operator@ == "K"@)
            && ops@[i].operands@ == seq![PdfObject::Integer(0), PdfObject::Integer(0), PdfObject::Integer(0), PdfObject::Integer(0)]),
        forall|m: int| i < m < j ==> !colour_operator(#[trigger] ops@[m]),
        text_operator(ops@[j]),
    ensures
        white_pages(pages, pages.len() as int).0,
        white_pages(pages, pages.len() as int).1.contains(pages[k].number),
{
    let s = ops@;
    reveal_strlit("rg");
    reveal_strlit("RG");
    reveal_strlit("g");
    reveal_strlit("G");
    reveal_strlit("k");
    reveal_strlit("K");
    let t = s[i].operator@;
    if t == "rg"@ || t == "RG"@ {
        assert(t.len() == 2);
    } else {
        assert(t.len() == 1);
        if t == "g"@ || t == "G"@ {
            assert(t[0] == 'g' || t[0] == 'G');
        } else {
            assert(t[0] == 'k' || t[0] == 'K');
        }
    }
    assert(white_scan(s, i + 1).0);
    lemma_white_holds(s, i, j);
    lemma_text_operator_differs(s[j]);
    assert(white_scan(s, j + 1).1);
    lemma_white_found_stays(s, j + 1, s.len() as int);
    assert(page_has_white_text(pages[k]));
    lemma_white_page_listed(pages, k, pages.len() as int);
}

proof fn lemma_invisible_found_stays(ops: Seq<Operation>, a: int, b: int)
    requires
        0 <= a <= b <= ops.len(),
        invisible_scan(ops, a).1,
    ensures
        invisible_scan(ops, b).1,
    decreases b - a,
{
    if a < b {
        lemma_invisible_found_stays(ops, a, b - 1);
    }
}

proof fn lemma_mode_holds(ops: Seq<Operation>, i: int, n: int)
    requires
        0 <= i < n <= ops.len(),
        invisible_scan(ops, i + 1).0 == 3,
        forall|m: int| i < m < n ==> (#[trigger] ops[m]).operator@ != "Tr"@ && ops[m].operator@ != "BT"@,
    ensures
        invisible_scan(ops, n).0 == 3,
    decreases n - i,
{
    if n > i + 1 {
        lemma_mode_holds(ops, i, n - 1);
        assert(ops[n - 1].operator@ != "Tr"@ && ops[n - 1].operator@ != "BT"@);
    }
}

proof fn lemma_invisible_pages_grow(pages: Seq<PdfPage>, a: int, b: int)
    requires
        0 <= a <= b,
        invisible_pages(pages, a),
    ensures
        invisible_pages(pages, b),
    decreases b - a,
{
    if a < b {
        lemma_invisible_pages_grow(pages, a, b - 1);
    }
}

/// Text shown in render mode 3 is invisible text: when a page sets `3 Tr` and later shows
/// text with `Tj`, `TJ`, `'` or `"` before the mode is set again or a text object begins,
/// invisible text is reported (what `InvisibleTextDetector::extract` gives), whatever the page
/// shows after it.
pub proof fn lemma_mode_3_text_is_invisible(pages: Seq<PdfPage>, k: int, ops: Vec<Operation>, i: int, j: int)
    requires
        0 <= k < pages.len(),
        pages[k].operations == Some(ops),
        0 <= i < j < ops@.len(),
        ops@[i].operator@ == "Tr"@,
        ops@[i].operands@.len() > 0,
        ops@[i].operands@[0] == PdfObject::Integer(3),
        forall|m: int| i < m < j ==> (#[trigger] ops@[m]).operator@ != "Tr"@ && ops@[m].operator@ != "BT"@,
        text_operator(ops@[j]),
    ensures
        invisible_pages(pages, pages.len() as int),
{
    let s = ops@;
    reveal_strlit("Tr");
    reveal_strlit("BT");
    assert(s[i].operator@[0] == 'T');
    assert(s[i].operator@ != "BT"@);
    assert(invisible_scan(s, i + 1).0 == 3);
    lemma_mode_holds(s, i, j);
    lemma_text_operator_differs(s[j]);
    assert(invisible_scan(s, j + 1).1);
    lemma_invisible_found_stays(s, j + 1, s.len() as int);
    assert(invisible_pages(pages, k + 1));
    lemma_invisible_pages_grow(pages, k + 1, pages.len() as int);
}

proof fn lemma_font_found_stays(ops: Seq<Operation>, a: int, b: int)
    requires
        0 <= a <= b <= ops.len(),
        font_scan(ops, a).1,
    ensures
        font_scan(ops, b).1,
    decreases b - a,
{
    if a < b {
        lemma_font_found_stays(ops, a, b - 1);
    }
}

proof fn lemma_size_holds(ops: Seq<Operation>, i: int, n: int)
    requires
        0 <= i < n <= ops.len(),
        forall|m: int| i < m < n ==> (#[trigger] ops[m]).operator@ != "Tf"@,
    ensures
        font_scan(ops, n).0 == font_scan(ops, i + 1).0,
    decreases n - i,
{
    if n > i + 1 {
        lemma_size_holds(ops, i, n - 1);
        assert(ops[n - 1].operator@ != "Tf"@);
    }
}

proof fn lemma_microscopic_pages_grow(pages: Seq<PdfPage>, a: int, b: int)
    requires
        0 <= a <= b,
        microscopic_pages(pages, a),
    ensures
        microscopic_pages(pages, b),
    decreases b - a,
{
    if a < b {
        lemma_microscopic_pages_grow(pages, a, b - 1);
    }
}

/// The size that `Tf` sets is the value of its second operand, an integer as much as a real:
/// when a page sets a font of integer size 1, 2 or 3 and shows text with `Tj`, `TJ`, `'` or
/// `"` before another `Tf`, microscopic text is reported (what
/// `MicroscopicFontDetector::extract` gives), whatever the page shows after it.
pub proof fn lemma_small_integer_font_is_microscopic(
    pages: Seq<PdfPage>,
    k: int,
    ops: Vec<Operation>,
    i: int,
    j: int,
    size: i64,
)
    requires
        0 <= k < pages.len(),
        pages[k].operations == Some(ops),
        0 <= i < j < ops@.len(),
        ops@[i].operator@ == "Tf"@,
        ops@[i].operands@.len() >= 2,
        ops@[i].operands@[1] == PdfObject::Integer(size),
        1 <= size <= 3,
        forall|m: int| i < m < j ==> (#[trigger] ops@[m]).operator@ != "Tf"@,
        text_operator(ops@[j]),
    ensures
        microscopic_pages(pages, pages.len() as int),
{
    let s = ops@;
    lemma_size_holds(s, i, j);
    lemma_text_operator_differs(s[j]);
    assert(font_scan(s, j + 1).1);
    lemma_font_found_stays(s, j + 1, s.len() as int);
    assert(microscopic_pages(pages, k + 1));
    lemma_microscopic_pages_grow(pages, k + 1, pages.len() as int);
}

proof fn lemma_no_colour_no_white(ops: Seq<Operation>, n: int)
    requires
        0 <= n <= ops.len(),
        forall|m: int| 0 <= m < n ==> !colour_operator(#[trigger] ops[m]),
    ensures
        !white_scan(ops, n).0,
        !white_scan(ops, n).1,
    decreases n,
{
    if n > 0 {
        lemma_no_colour_no_white(ops, n - 1);
        assert(!colour_operator(ops[n - 1]));
    }
}

/// A page that never sets a colour shows no white text: the colour starts out not white.
pub proof fn lemma_no_colour_page_not_white(p: PdfPage, ops: Vec<Operation>)
    requires
        p.operations == Some(ops),
        forall|m: int| 0 <= m < ops@.len() ==> !colour_operator(#[trigger] ops@[m]),
    ensures
        !page_has_white_text(p),
{
    lemma_no_colour_no_white(ops@, ops@.len() as int);
}

proof fn lemma_no_tr_no_invisible(ops: Seq<Operation>, n: int)
    requires
        0 <= n <= ops.len(),
        forall|m: int| 0 <= m < n ==> (#[trigger] ops[m]).operator@ != "Tr"@,
    ensures
        invisible_scan(ops, n).0 == 0,
        !invisible_scan(ops, n).1,
    decreases n,
{
    if n > 0 {
        lemma_no_tr_no_invisible(ops, n - 1);
        assert(ops[n - 1].operator@ != "Tr"@);
    }
}

/// The page's content has no `Tr` operation.
pub open spec fn never_sets_render_mode(p: PdfPage) -> bool {
    match p.operations {
        Some(ops) => forall|m: int| 0 <= m < ops@.len() ==> (#[trigger] ops@[m]).operator@ != "Tr"@,
        None => true,
    }
}

/// Without `Tr` the render mode stays 0: a document none of whose pages sets a render mode
/// has no invisible text.
pub proof fn lemma_no_render_mode_no_invisible(pages: Seq<PdfPage>)
    requires
        forall|k: int| 0 <= k < pages.len() ==> never_sets_render_mode(#[trigger] pages[k]),
    ensures
        !invisible_pages(pages, pages.len() as int),
{
    lemma_no_invisible_upto(pages, pages.len() as int);
}

proof fn lemma_no_invisible_upto(pages: Seq<PdfPage>, n: int)
    requires
        n <= pages.len(),
        forall|k: int| 0 <= k < pages.len() ==> never_sets_render_mode(#[trigger] pages[k]),
    ensures
        !invisible_pages(pages, n),
    decreases n,
{
    if n > 0 {
        lemma_no_invisible_upto(pages, n - 1);
        match pages[n - 1].operations {
            Some(ops) => {
                assert(never_sets_render_mode(pages[n - 1]));
                lemma_no_tr_no_invisible(ops@, ops@.len() as int);
            },
            None => {},
        }
    }
}

proof fn lemma_large_fonts_only(ops: Seq<Operation>, n: int)
    requires
        0 <= n <= ops.len(),
        forall|m: int| 0 <= m < n && (#[trigger] ops[m]).operator@ == "Tf"@ ==> ops[m].operands@.len() >= 2
            && ops[m].operands@[1] is Integer && ops[m].operands@[1]->Integer_0 >= 4,
    ensures
        font_scan(ops, n).0 == FloatValue::Bits(BITS_12) || (font_scan(ops, n).0 is Int && font_scan(ops, n).0->Int_0 >= 4),
        !font_scan(ops, n).1,
    decreases n,
{
    assert(!is_microscopic(FloatValue::Bits(BITS_12)));
    if n > 0 {
        lemma_large_fonts_only(ops, n - 1);
        if ops[n - 1].operator@ == "Tf"@ {
            assert(ops[n - 1].operands@.len() >= 2);
        }
    } else {
        reveal_strlit("Tf");
    }
}

/// Fonts of integer size 4 or more are not microscopic: a page whose every `Tf` sets such a
/// size (its default size being 12) shows no microscopic text.
pub proof fn lemma_large_integer_fonts_not_microscopic(ops: Vec<Operation>)
    requires
        forall|m: int| 0 <= m < ops@.len() && (#[trigger] ops@[m]).operator@ == "Tf"@ ==> ops@[m].operands@.len() >= 2
            && ops@[m].operands@[1] is Integer && ops@[m].operands@[1]->Integer_0 >= 4,
    ensures
        !font_scan(ops@, ops@.len() as int).1,
{
    lemma_large_fonts_only(ops@, ops@.len() as int);
}

/// A page's text gets a zero-width finding exactly when it holds one of the six characters
/// U+200B, U+200C, U+200D, U+FEFF, U+00AD, U+2060.
pub proof fn lemma_zero_width_chars(page: u32, text: Seq<char>)
    ensures
        zero_width_findings(page, text).len() > 0 <==> exists|j: int| 0 <= j < text.len() && (
            #[trigger] text[j] == '\u{200B}' || text[j] == '\u{200C}' || text[j] == '\u{200D}'
            || text[j] == '\u{FEFF}' || text[j] == '\u{00AD}' || text[j] == '\u{2060}'),
{
    lemma_zero_width_reported(page, text);
}

/// The findings of the first `m` pages come first among those of the first `n`.
proof fn lemma_pages_findings_prefix(pages: Seq<(u32, String)>, m: int, n: int, primary: DetectionType)
    requires
        0 <= m <= n,
    ensures
        pages_findings(pages, n, primary).len() >= pages_findings(pages, m, primary).len(),
        forall|i: int| 0 <= i < pages_findings(pages, m, primary).len()
            ==> #[trigger] pages_findings(pages, n, primary)[i] == pages_findings(pages, m, primary)[i],
    decreases n - m,
{
    if m < n {
        lemma_pages_findings_prefix(pages, m, n - 1, primary);
    }
}

proof fn lemma_with_signal_prefix(fs: Seq<FindingView>, flag: bool, t: DetectionType, d: Seq<char>, e: Seq<char>, idx: int)
    requires
        0 <= idx < fs.len(),
    ensures
        with_signal(fs, flag, t, d, e).len() > idx,
        with_signal(fs, flag, t, d, e)[idx] == fs[idx],
{
}

/// Detection begins with the findings of the pages, in page order.
proof fn lemma_detect_begins_with_pages(c: PdfContent, idx: int)
    requires
        0 <= idx < pages_findings(c.pages@, c.pages@.len() as int, primary_type(c)).len(),
    ensures
        idx < detect_spec(c).len(),
        detect_spec(c)[idx] == pages_findings(c.pages@, c.pages@.len() as int, primary_type(c))[idx],
{
    let f1 = pages_findings(c.pages@, c.pages@.len() as int, primary_type(c));
    let f2 = with_signal(f1, c.has_white_text, DetectionType::WhiteText, WHITE_TEXT_DESCRIPTION@, WHITE_TEXT_EXCERPT@);
    lemma_with_signal_prefix(f1, c.has_white_text, DetectionType::WhiteText, WHITE_TEXT_DESCRIPTION@, WHITE_TEXT_EXCERPT@, idx);
    let f3 = with_signal(f2, c.has_invisible_text, DetectionType::InvisibleText, INVISIBLE_TEXT_DESCRIPTION@, INVISIBLE_TEXT_EXCERPT@);
    lemma_with_signal_prefix(f2, c.has_invisible_text, DetectionType::InvisibleText, INVISIBLE_TEXT_DESCRIPTION@, INVISIBLE_TEXT_EXCERPT@, idx);
    let f4 = with_signal(f3, c.has_microscopic_font, DetectionType::MicroscopicFont, MICROSCOPIC_FONT_DESCRIPTION@, MICROSCOPIC_FONT_EXCERPT@);
    lemma_with_signal_prefix(f3, c.has_microscopic_font, DetectionType::MicroscopicFont, MICROSCOPIC_FONT_DESCRIPTION@, MICROSCOPIC_FONT_EXCERPT@, idx);
    let f5 = with_signal(f4, c.has_text_outside_bounds, DetectionType::TextOutsideBounds, OUTSIDE_BOUNDS_DESCRIPTION@, OUTSIDE_BOUNDS_EXCERPT@);
    lemma_with_signal_prefix(f4, c.has_text_outside_bounds, DetectionType::TextOutsideBounds, OUTSIDE_BOUNDS_DESCRIPTION@, OUTSIDE_BOUNDS_EXCERPT@, idx);
    assert(f5[idx] == f1[idx]);
    assert(detect_spec(c)[idx] == f5[idx]);
}

/// The zero-width characters are exactly U+200B, U+200C, U+200D, U+FEFF, U+00AD and U+2060: a
/// page whose text holds any of them gets a critical ZeroWidthChars finding on that page
/// from detection, and a page whose text holds none gets no such finding of its own.
pub proof fn lemma_zero_width_set_detected(c: PdfContent, k: int, j: int)
    requires
        0 <= k < c.pages@.len(),
        0 <= j < c.pages@[k].1@.len(),
        c.pages@[k].1@[j] == '\u{200B}' || c.pages@[k].1@[j] == '\u{200C}' || c.pages@[k].1@[j] == '\u{200D}'
            || c.pages@[k].1@[j] == '\u{FEFF}' || c.pages@[k].1@[j] == '\u{00AD}' || c.pages@[k].1@[j] == '\u{2060}',
    ensures
        exists|i: int| 0 <= i < detect_spec(c).len() && (#[trigger] detect_spec(c)[i]).detection_type == DetectionType::ZeroWidthChars
            && detect_spec(c)[i].severity == Severity::Critical && detect_spec(c)[i].page == c.pages@[k].0,
{
    let text = c.pages@[k].1@;
    let page = c.pages@[k].0;
    lemma_zero_width_chars(page, text);
    let z = zero_width_findings(page, text);
    assert(z.len() > 0);
    let primary = primary_type(c);
    let pf = page_findings(page, text, primary);
    assert(pf[0] == z[0]);
    let before = pages_findings(c.pages@, k, primary);
    let upto = pages_findings(c.pages@, k + 1, primary);
    assert(upto == before + pf);
    let idx = before.len() as int;
    assert(upto[idx] == z[0]);
    lemma_pages_findings_prefix(c.pages@, k + 1, c.pages@.len() as int, primary);
    let f1 = pages_findings(c.pages@, c.pages@.len() as int, primary);
    assert(f1[idx] == z[0]);
    lemma_detect_begins_with_pages(c, idx);
}

proof fn lemma_references_contain(items: Seq<PdfObject>, n: int, i: int, id: ObjectId)
    requires
        0 <= i < n <= items.len(),
        items[i] == PdfObject::Reference(id),
    ensures
        references(items, n).contains(id),
    decreases n,
{
    if i < n - 1 {
        lemma_references_contain(items, n - 1, i, id);
        let prev = references(items, n - 1);
        let a = choose|a: int| 0 <= a < prev.len() && prev[a] == id;
        let tail = match items[n - 1] {
            PdfObject::Reference(x) => seq![x],
            _ => Seq::<ObjectId>::empty(),
        };
        assert((prev + tail)[a] == id);
    } else {
        let prev = references(items, n - 1);
        assert((prev + seq![id])[prev.len() as int] == id);
    }
}

proof fn lemma_references_from(items: Seq<PdfObject>, n: int, id: ObjectId)
    requires
        0 <= n <= items.len(),
        references(items, n).contains(id),
    ensures
        exists|i: int| 0 <= i < n && #[trigger] items[i] == PdfObject::Reference(id),
    decreases n,
{
    if n > 0 {
        let prev = references(items, n - 1);
        let tail = match items[n - 1] {
            PdfObject::Reference(x) => seq![x],
            _ => Seq::<ObjectId>::empty(),
        };
        let a = choose|a: int| 0 <= a < (prev + tail).len() && (prev + tail)[a] == id;
        if a < prev.len() {
            assert(prev[a] == id);
            lemma_references_from(items, n - 1, id);
        } else {
            assert(items[n - 1] == PdfObject::Reference(id));
        }
    }
}

/// Every reference of the `/OFF` array of the default optional-content configuration
/// (`/Root /OCProperties /D /OFF`) is a layer that is off, and nothing else is: the off
/// layers that `OcgLayerDetector::extract` hides text of are exactly those references.
pub proof fn lemma_off_layers_are_the_off_references(
    doc: PdfDocument,
    c: PdfDictionary,
    p: PdfDictionary,
    d: PdfDictionary,
    o: PdfObject,
    v: Vec<PdfObject>,
)
    requires
        catalog(doc) == Some(c),
        sub_dict(doc, c, "OCProperties"@) == Some(p),
        sub_dict(doc, p, "D"@) == Some(d),
        dict_get(d, key("OFF"@)) == Some(o),
        deref(doc, o) == Some(PdfObject::Array(v)),
    ensures
        forall|i: int| 0 <= i < v@.len() ==> match #[trigger] v@[i] {
            PdfObject::Reference(id) => off_layer_ids(doc).contains(id),
            _ => true,
        },
        forall|id: ObjectId| #[trigger] off_layer_ids(doc).contains(id)
            ==> exists|i: int| 0 <= i < v@.len() && #[trigger] v@[i] == PdfObject::Reference(id),
{
    assert(off_layer_ids(doc) == references(v@, v@.len() as int));
    assert forall|i: int| 0 <= i < v@.len() implies match #[trigger] v@[i] {
        PdfObject::Reference(id) => off_layer_ids(doc).contains(id),
        _ => true,
    } by {
        match v@[i] {
            PdfObject::Reference(id) => lemma_references_contain(v@, v@.len() as int, i, id),
            _ => {},
        }
    }
    assert forall|id: ObjectId| #[trigger] off_layer_ids(doc).contains(id)
        implies exists|i: int| 0 <= i < v@.len() && #[trigger] v@[i] == PdfObject::Reference(id) by {
        lemma_references_from(v@, v@.len() as int, id);
    }
}

} // verus!
