use vstd::prelude::*;
use crate::pdf_model::{
    deref_from, dict_get, dict_lookup, get_object, get_object_spec, key, lookup_object, object_at, ObjectId, Operation, DEREF_LIMIT,
    PdfDictionary, PdfDocument, PdfObject, PdfStream,
};
use crate::pdf_parser::object_of;
use crate::text::bytes_equal;

verus! {

/// The decoding parameters of a stream as lopdf reads them from its direct `/DecodeParms`
/// dictionary: predictor, columns, colors, bits per component (integers, defaults 1, 1, 1
/// and 8) and whether the LZW code width changes early (default yes).
#[derive(Debug, Clone, Copy)]
pub struct DecodeParams {
    pub predictor: i64,
    pub columns: i64,
    pub colors: i64,
    pub bits_per_component: i64,
    pub early_change: bool,
}

/// The direct `/DecodeParms` dictionary of a stream dictionary.
pub open spec fn params_dict(d: PdfDictionary) -> Option<PdfDictionary> {
    match dict_get(d, key("DecodeParms"@)) {
        Some(PdfObject::Dictionary(p)) => Some(p),
        _ => None,
    }
}

/// An integer parameter, or its default where it is missing or no integer.
pub open spec fn int_param(p: Option<PdfDictionary>, name: Seq<char>, default: i64) -> i64 {
    match p {
        Some(q) => match dict_get(q, key(name)) {
            Some(PdfObject::Integer(v)) => v,
            _ => default,
        },
        None => default,
    }
}

/// The decoding parameters of a stream dictionary.
pub open spec fn decode_params(d: PdfDictionary) -> DecodeParams {
    let p = params_dict(d);
    DecodeParams {
        predictor: int_param(p, "Predictor"@, 1),
        columns: int_param(p, "Columns"@, 1),
        colors: int_param(p, "Colors"@, 1),
        bits_per_component: int_param(p, "BitsPerComponent"@, 8),
        early_change: match p {
            Some(q) => match dict_get(q, key("EarlyChange"@)) {
                Some(PdfObject::Integer(v)) => v != 0,
                _ => true,
            },
            None => true,
        },
    }
}

/// The parameters as plain values.
pub open spec fn params_tuple(p: DecodeParams) -> (i64, i64, i64, i64, bool) {
    (p.predictor, p.columns, p.colors, p.bits_per_component, p.early_change)
}

/// The names of the first `n` items of a filter array; nothing when one is no name.
pub open spec fn filter_names(items: Seq<PdfObject>, n: int) -> Option<Seq<Seq<u8>>>
    decreases n,
{
    if n <= 0 {
        Some(Seq::empty())
    } else {
        match filter_names(items, n - 1) {
            Some(prev) => match items[n - 1] {
                PdfObject::Name(b) => Some(prev.push(b@)),
                _ => None,
            },
            None => None,
        }
    }
}

/// The filters of a stream dictionary in decoding order (`Stream::filters`): one name, or an
/// array of names; nothing otherwise.
pub open spec fn stream_filters(d: PdfDictionary) -> Option<Seq<Seq<u8>>> {
    match dict_get(d, key("Filter"@)) {
        Some(PdfObject::Name(b)) => Some(seq![b@]),
        Some(PdfObject::Array(v)) => filter_names(v@, v@.len() as int),
        _ => None,
    }
}

/// The stream is an image, whose content lopdf does not decode.
pub open spec fn is_image(d: PdfDictionary) -> bool {
    match dict_get(d, key("Subtype"@)) {
        Some(PdfObject::Name(b)) => b@ == key("Image"@),
        _ => false,
    }
}

/// The value of a list of names.
pub open spec fn names_view(v: Seq<Vec<u8>>) -> Seq<Seq<u8>> {
    v.map_values(|b: Vec<u8>| b@)
}

/// No filter is ASCII85: lopdf's ASCII85 decoder overflows a `u32` on a group above `s8W-!`.
pub open spec fn no_ascii85(filters: Seq<Seq<u8>>) -> bool {
    forall|i: int| 0 <= i < filters.len() ==> filters[i] != key("ASCII85Decode"@)
}

/// The least value lopdf takes for a parameter.
pub open spec fn at_least(v: i64, low: int) -> int {
    if v < low { low } else { v as int }
}

/// Under a PNG predictor (10 to 15) the row size that lopdf computes, colors times bits per
/// component over 8 times columns, fits in a `usize` at every step.
pub open spec fn predictor_fits(p: DecodeParams) -> bool {
    (10 <= p.predictor <= 15) ==> {
        let c = at_least(p.colors, 1);
        let b = at_least(p.bits_per_component, 8);
        let w = at_least(p.columns, 1);
        &&& c <= usize::MAX
        &&& b <= usize::MAX
        &&& w <= usize::MAX
        &&& c * b <= usize::MAX
        &&& (c * b) / 8 * w <= usize::MAX
    }
}

/// What lopdf's `Stream::decompressed_content` gives for content under the given filters and
/// parameters (`None` where it reports an error).
pub uninterp spec fn lopdf_decoded(filters: Seq<Seq<u8>>, params: (i64, i64, i64, i64, bool), content: Seq<u8>) -> Option<Seq<u8>>;

/// Calls `Stream::decompressed_content` on a stream whose dictionary holds these filters and
/// these parameters. Trusted: the result is named by `lopdf_decoded`, a function of the
/// arguments (zlib, LZW and PNG predictors are deterministic). The `requires` leaves out the
/// inputs on which lopdf's arithmetic overflows (ASCII85 groups, the predictor row size); the
/// buffers it allocates are a limit of the machine and are not stated.
#[verifier::external_body]
fn decompress(filters: &Vec<Vec<u8>>, params: DecodeParams, content: &[u8]) -> (r: Option<Vec<u8>>)
    requires
        no_ascii85(names_view(filters@)),
        predictor_fits(params),
    ensures
        match r {
            Some(v) => lopdf_decoded(names_view(filters@), params_tuple(params), content@) == Some(v@),
            None => lopdf_decoded(names_view(filters@), params_tuple(params), content@) is None,
        },
{
    let names: Vec<lopdf::Object> = filters.iter().map(|f| lopdf::Object::Name(f.clone())).collect();
    let mut parms = lopdf::Dictionary::new();
    parms.set("Predictor", params.predictor);
    parms.set("Columns", params.columns);
    parms.set("Colors", params.colors);
    parms.set("BitsPerComponent", params.bits_per_component);
    parms.set("EarlyChange", i64::from(params.early_change));
    let mut dict = lopdf::Dictionary::new();
    dict.set("Filter", names);
    dict.set("DecodeParms", parms);
    lopdf::Stream::new(dict, content.to_vec()).decompressed_content().ok()
}

/// The decoded content of a stream, where lopdf decodes it and its filters and parameters are
/// within the bounds that lopdf's arithmetic can take.
pub open spec fn stream_decoded(s: PdfStream) -> Option<Seq<u8>> {
    match stream_filters(s.dict) {
        Some(f) => if is_image(s.dict) || !no_ascii85(f) || !predictor_fits(decode_params(s.dict)) {
            None
        } else {
            lopdf_decoded(f, params_tuple(decode_params(s.dict)), s.content@)
        },
        None => None,
    }
}

fn int_param_of(p: Option<&PdfDictionary>, name: &str, default: i64) -> (r: i64)
    ensures
        r == int_param(match p { Some(q) => Some(*q), None => None }, name@, default),
{
    match p {
        Some(q) => match dict_lookup(q, name) {
            Some(PdfObject::Integer(v)) => *v,
            _ => default,
        },
        None => default,
    }
}

/// The decoding parameters of a stream dictionary.
pub fn decode_params_of(d: &PdfDictionary) -> (r: DecodeParams)
    ensures
        r == decode_params(*d),
{
    let p: Option<&PdfDictionary> = match dict_lookup(d, "DecodeParms") {
        Some(PdfObject::Dictionary(q)) => Some(q),
        _ => None,
    };
    let early_change = match p {
        Some(q) => match dict_lookup(q, "EarlyChange") {
            Some(PdfObject::Integer(v)) => *v != 0,
            _ => true,
        },
        None => true,
    };
    DecodeParams {
        predictor: int_param_of(p, "Predictor", 1),
        columns: int_param_of(p, "Columns", 1),
        colors: int_param_of(p, "Colors", 1),
        bits_per_component: int_param_of(p, "BitsPerComponent", 8),
        early_change,
    }
}

/// The filters of a stream dictionary.
pub fn filters_of(d: &PdfDictionary) -> (r: Option<Vec<Vec<u8>>>)
    ensures
        match r {
            Some(v) => stream_filters(*d) == Some(names_view(v@)),
            None => stream_filters(*d) is None,
        },
{
    match dict_lookup(d, "Filter") {
        Some(PdfObject::Name(b)) => {
            let v: Vec<Vec<u8>> = vec![b.clone()];
            assert(names_view(v@) =~= seq![b@]);
            Some(v)
        },
        Some(PdfObject::Array(items)) => {
            let mut out: Vec<Vec<u8>> = Vec::new();
            let mut i: usize = 0;
            assert(names_view(out@) =~= Seq::<Seq<u8>>::empty());
            while i < items.len()
                invariant
                    i <= items@.len(),
                    filter_names(items@, i as int) == Some(names_view(out@)),
                    dict_get(*d, key("Filter"@)) == Some(PdfObject::Array(*items)),
                decreases items.len() - i,
            {
                match &items[i] {
                    PdfObject::Name(b) => {
                        let ghost before = names_view(out@);
                        out.push(b.clone());
                        assert(names_view(out@) =~= before.push(b@));
                    },
                    _ => {
                        assert(filter_names(items@, i as int + 1) is None);
                        proof {
                            lemma_filter_names_none(items@, i as int + 1, items@.len() as int);
                        }
                        return None;
                    },
                }
                i = i + 1;
            }
            Some(out)
        },
        _ => None,
    }
}

proof fn lemma_filter_names_none(items: Seq<PdfObject>, k: int, n: int)
    requires
        0 < k <= n,
        filter_names(items, k) is None,
    ensures
        filter_names(items, n) is None,
    decreases n - k,
{
    if k < n {
        lemma_filter_names_none(items, k, n - 1);
    }
}

fn has_ascii85(filters: &Vec<Vec<u8>>) -> (r: bool)
    ensures
        r == !no_ascii85(names_view(filters@)),
{
    let mut i: usize = 0;
    while i < filters.len()
        invariant
            i <= filters@.len(),
            forall|j: int| 0 <= j < i ==> names_view(filters@)[j] != key("ASCII85Decode"@),
        decreases filters.len() - i,
    {
        if bytes_equal(filters[i].as_slice(), "ASCII85Decode".as_bytes()) {
            assert(names_view(filters@)[i as int] == key("ASCII85Decode"@));
            return true;
        }
        i = i + 1;
    }
    false
}

fn image_stream(d: &PdfDictionary) -> (r: bool)
    ensures
        r == is_image(*d),
{
    match dict_lookup(d, "Subtype") {
        Some(PdfObject::Name(b)) => bytes_equal(b.as_slice(), "Image".as_bytes()),
        _ => false,
    }
}

fn param_at_least(v: i64, low: i64) -> (r: u128)
    requires
        low >= 1,
    ensures
        r == at_least(v, low as int),
{
    if v < low { low as u128 } else { v as u128 }
}

fn fits_predictor(p: DecodeParams) -> (r: bool)
    ensures
        r == predictor_fits(p),
{
    if p.predictor < 10 || p.predictor > 15 {
        return true;
    }
    let c = param_at_least(p.colors, 1);
    let b = param_at_least(p.bits_per_component, 8);
    let w = param_at_least(p.columns, 1);
    let max = usize::MAX as u128;
    if c > max || b > max || w > max {
        return false;
    }
    assert(c * b <= u128::MAX) by (nonlinear_arith)
        requires c <= 0x8000_0000_0000_0000u128, b <= 0x8000_0000_0000_0000u128;
    let cb = c * b;
    if cb > max {
        return false;
    }
    let row = cb / 8;
    assert(max <= 0xFFFF_FFFF_FFFF_FFFFu128);
    assert(row <= 0x2000_0000_0000_0000u128);
    assert(row * w <= u128::MAX) by (nonlinear_arith)
        requires row <= 0x2000_0000_0000_0000u128, w <= 0xFFFF_FFFF_FFFF_FFFFu128;
    row * w <= max
}

/// The decoded content of a stream (`Stream::decompressed_content`), where its filters and
/// parameters are within what lopdf's arithmetic can take; nothing otherwise.
pub fn decoded_content(s: &PdfStream) -> (r: Option<Vec<u8>>)
    ensures
        match r {
            Some(v) => stream_decoded(*s) == Some(v@),
            None => stream_decoded(*s) is None,
        },
{
    match filters_of(&s.dict) {
        Some(f) => {
            let params = decode_params_of(&s.dict);
            if image_stream(&s.dict) || has_ascii85(&f) || !fits_predictor(params) {
                None
            } else {
                decompress(&f, params, s.content.as_slice())
            }
        },
        None => None,
    }
}

/// The ids that a page's `/Contents` value names (`Document::get_page_contents`): a reference
/// to a stream or to nothing is taken, a reference to anything else followed (up to the
/// dereference limit of 128), and the references of an array taken.
pub open spec fn contents_ids(doc: PdfDocument, obj: PdfObject, hops: int) -> Seq<ObjectId>
    decreases 128 - hops,
{
    match obj {
        PdfObject::Reference(id) => match object_at(doc, id) {
            None => seq![id],
            Some(PdfObject::Stream(_)) => seq![id],
            Some(o) => if hops + 1 < 128 && hops >= 0 { contents_ids(doc, o, hops + 1) } else { Seq::empty() },
        },
        PdfObject::Array(v) => refs_in(v@, v@.len() as int),
        _ => Seq::empty(),
    }
}

/// The references among the first `n` items of an array.
pub open spec fn refs_in(items: Seq<PdfObject>, n: int) -> Seq<ObjectId>
    decreases n,
{
    if n <= 0 {
        Seq::empty()
    } else {
        refs_in(items, n - 1) + match items[n - 1] {
            PdfObject::Reference(id) => seq![id],
            _ => Seq::empty(),
        }
    }
}

/// The bytes that one content stream adds: its decoded content, or its content as stored
/// where it cannot be decoded.
pub open spec fn stream_bytes(doc: PdfDocument, id: ObjectId) -> Seq<u8> {
    match get_object_spec(doc, id) {
        Some(PdfObject::Stream(s)) => match stream_decoded(s) {
            Some(d) => d,
            None => s.content@,
        },
        _ => Seq::empty(),
    }
}

/// The bytes of the first `n` of the given content streams, one after another.
pub open spec fn streams_bytes(doc: PdfDocument, ids: Seq<ObjectId>, n: int) -> Seq<u8>
    decreases n,
{
    if n <= 0 {
        Seq::empty()
    } else {
        streams_bytes(doc, ids, n - 1) + stream_bytes(doc, ids[n - 1])
    }
}

/// The content of a page (`Document::get_page_content`).
pub open spec fn page_content(doc: PdfDocument, page_id: ObjectId) -> Seq<u8> {
    match get_object_spec(doc, page_id) {
        Some(PdfObject::Dictionary(pd)) => match dict_get(pd, key("Contents"@)) {
            Some(c) => {
                let ids = contents_ids(doc, c, 0);
                streams_bytes(doc, ids, ids.len() as int)
            },
            None => Seq::empty(),
        },
        _ => Seq::empty(),
    }
}

fn push_refs(items: &Vec<PdfObject>, out: &mut Vec<ObjectId>)
    ensures
        final(out)@ == old(out)@ + refs_in(items@, items@.len() as int),
{
    let ghost start = out@;
    let mut i: usize = 0;
    assert(start + refs_in(items@, 0) =~= start);
    while i < items.len()
        invariant
            i <= items@.len(),
            out@ == start + refs_in(items@, i as int),
        decreases items.len() - i,
    {
        let ghost before = out@;
        match &items[i] {
            PdfObject::Reference(id) => {
                out.push(*id);
                assert(out@ =~= start + refs_in(items@, i as int + 1));
            },
            _ => {
                assert(out@ =~= start + refs_in(items@, i as int + 1));
            },
        }
        i = i + 1;
    }
}

fn contents_ids_of(doc: &PdfDocument, obj: &PdfObject) -> (r: Vec<ObjectId>)
    ensures
        r@ == contents_ids(*doc, *obj, 0),
{
    let mut cur: &PdfObject = obj;
    let mut hops: usize = 0;
    let mut out: Vec<ObjectId> = Vec::new();
    loop
        invariant
            hops < 128,
            contents_ids(*doc, *obj, 0) == contents_ids(*doc, *cur, hops as int),
            out@.len() == 0,
        decreases 128 - hops,
    {
        match cur {
            PdfObject::Reference(id) => {
                match lookup_object(doc, *id) {
                    None => {
                        out.push(*id);
                        assert(out@ =~= seq![*id]);
                        return out;
                    },
                    Some(PdfObject::Stream(_)) => {
                        out.push(*id);
                        assert(out@ =~= seq![*id]);
                        return out;
                    },
                    Some(o) => {
                        if hops + 1 < 128 {
                            cur = o;
                            hops = hops + 1;
                        } else {
                            return out;
                        }
                    },
                }
            },
            PdfObject::Array(v) => {
                push_refs(v, &mut out);
                assert(out@ =~= refs_in(v@, v@.len() as int));
                return out;
            },
            _ => {
                return out;
            },
        }
    }
}

/// The content of a page (`Document::get_page_content`): the content streams that its
/// `/Contents` names, each decoded where it can be and as stored otherwise, one after another.
pub fn page_content_of(doc: &PdfDocument, page_id: ObjectId) -> (r: Vec<u8>)
    ensures
        r@ == page_content(*doc, page_id),
{
    let mut out: Vec<u8> = Vec::new();
    let pd = match get_object(doc, page_id) {
        Some(PdfObject::Dictionary(pd)) => pd,
        _ => {
            return out;
        },
    };
    let c = match dict_lookup(pd, "Contents") {
        Some(c) => c,
        None => {
            return out;
        },
    };
    let ids = contents_ids_of(doc, c);
    let mut i: usize = 0;
    while i < ids.len()
        invariant
            i <= ids@.len(),
            out@ == streams_bytes(*doc, ids@, i as int),
        decreases ids.len() - i,
    {
        match get_object(doc, ids[i]) {
            Some(PdfObject::Stream(s)) => match decoded_content(s) {
                Some(d) => {
                    let mut d = d;
                    out.append(&mut d);
                },
                None => {
                    let mut raw = s.content.clone();
                    out.append(&mut raw);
                },
            },
            _ => {
                assert(streams_bytes(*doc, ids@, i as int + 1) =~= streams_bytes(*doc, ids@, i as int));
            },
        }
        i = i + 1;
    }
    out
}

proof fn lemma_deref_frame(d1: PdfDocument, d2: PdfDocument, obj: PdfObject, hops: nat)
    requires
        d1.objects@ == d2.objects@,
    ensures
        deref_from(d1, obj, hops) == deref_from(d2, obj, hops),
    decreases DEREF_LIMIT + 1 - hops,
{
    match obj {
        PdfObject::Reference(id) => match object_at(d1, id) {
            Some(o) => {
                if hops + 1 <= DEREF_LIMIT {
                    lemma_deref_frame(d1, d2, o, hops + 1);
                }
            },
            None => {},
        },
        _ => {},
    }
}

proof fn lemma_get_object_frame(d1: PdfDocument, d2: PdfDocument, id: ObjectId)
    requires
        d1.objects@ == d2.objects@,
    ensures
        get_object_spec(d1, id) == get_object_spec(d2, id),
{
    match object_at(d1, id) {
        Some(o) => lemma_deref_frame(d1, d2, o, 0),
        None => {},
    }
}

proof fn lemma_contents_ids_frame(d1: PdfDocument, d2: PdfDocument, obj: PdfObject, hops: int)
    requires
        d1.objects@ == d2.objects@,
    ensures
        contents_ids(d1, obj, hops) == contents_ids(d2, obj, hops),
    decreases 128 - hops,
{
    match obj {
        PdfObject::Reference(id) => match object_at(d1, id) {
            Some(o) => {
                if hops + 1 < 128 && hops >= 0 {
                    lemma_contents_ids_frame(d1, d2, o, hops + 1);
                }
            },
            None => {},
        },
        _ => {},
    }
}

proof fn lemma_streams_bytes_frame(d1: PdfDocument, d2: PdfDocument, ids: Seq<ObjectId>, n: int)
    requires
        d1.objects@ == d2.objects@,
    ensures
        streams_bytes(d1, ids, n) == streams_bytes(d2, ids, n),
    decreases n,
{
    if n > 0 {
        lemma_streams_bytes_frame(d1, d2, ids, n - 1);
        lemma_get_object_frame(d1, d2, ids[n - 1]);
    }
}

/// The operations of a page depend on the document's objects alone.
pub proof fn lemma_page_operations_frame(d1: PdfDocument, d2: PdfDocument, page_id: ObjectId)
    requires
        d1.objects@ == d2.objects@,
    ensures
        page_operations(d1, page_id) == page_operations(d2, page_id),
{
    lemma_get_object_frame(d1, d2, page_id);
    match get_object_spec(d1, page_id) {
        Some(PdfObject::Dictionary(pd)) => match dict_get(pd, key("Contents"@)) {
            Some(c) => {
                lemma_contents_ids_frame(d1, d2, c, 0);
                let ids = contents_ids(d1, c, 0);
                lemma_streams_bytes_frame(d1, d2, ids, ids.len() as int);
            },
            None => {},
        },
        _ => {},
    }
}

/// The operations that lopdf's `Content::decode` reads from content bytes, converted to this
/// library's operations (`None` where it reports an error).
pub uninterp spec fn lopdf_operations(content: Seq<u8>) -> Option<Seq<Operation>>;

/// Calls `lopdf::content::Content::decode` and converts the operations. Trusted: the result
/// is named by `lopdf_operations`, a function of the bytes. The parser recurses once for each
/// level of nested arrays and dictionaries; the stack that takes is a limit of the machine,
/// as it is for verified recursive code, and is not stated.
#[verifier::external_body]
fn decode_operations(content: &[u8]) -> (r: Option<Vec<Operation>>)
    ensures
        match r {
            Some(v) => lopdf_operations(content@) == Some(v@),
            None => lopdf_operations(content@) is None,
        },
{
    let decoded = lopdf::content::Content::decode(content).ok()?;
    Some(decoded.operations.iter().map(|op| Operation {
        operator: op.operator.clone(),
        operands: op.operands.iter().map(object_of).collect(),
    }).collect())
}

/// The operations of a page's content, where they can be read.
pub open spec fn page_operations(doc: PdfDocument, page_id: ObjectId) -> Option<Seq<Operation>> {
    lopdf_operations(page_content(doc, page_id))
}

/// The operations of a page's content (`get_page_content`, then `Content::decode`).
pub fn page_operations_of(doc: &PdfDocument, page_id: ObjectId) -> (r: Option<Vec<Operation>>)
    ensures
        match r {
            Some(v) => page_operations(*doc, page_id) == Some(v@),
            None => page_operations(*doc, page_id) is None,
        },
{
    let content = page_content_of(doc, page_id);
    decode_operations(content.as_slice())
}

} // verus!
