use vstd::prelude::*;
use vstd::utf8::*;
use vstd::string::StringSliceAdditionalSpecFns;
use crate::text::{bytes_equal, from_utf8_lossy_string, str_equal, utf8_lossy};

verus! {

/// The number and generation of an indirect object.
pub type ObjectId = (u32, u16);

/// A PDF object, as the document parser delivers it. A real number is held as the bit pattern
/// of its single-precision value (`f32::to_bits`).
#[derive(Debug)]
pub enum PdfObject {
    Null,
    Boolean(bool),
    Integer(i64),
    Real(u32),
    Name(Vec<u8>),
    String(Vec<u8>),
    Array(Vec<PdfObject>),
    Dictionary(PdfDictionary),
    Stream(PdfStream),
    Reference(ObjectId),
}

/// A dictionary: its entries in their order, each key once.
#[derive(Debug)]
pub struct PdfDictionary {
    pub entries: Vec<(Vec<u8>, PdfObject)>,
}

/// A stream: its dictionary and its content as stored in the file, filters not undone.
#[derive(Debug)]
pub struct PdfStream {
    pub dict: PdfDictionary,
    pub content: Vec<u8>,
}

/// One operator of a content stream with its operands.
#[derive(Debug)]
pub struct Operation {
    pub operator: String,
    pub operands: Vec<PdfObject>,
}

/// A page: its number, the id of its page object, and the operations of its content (`None`
/// where the content could not be read or decoded).
#[derive(Debug)]
pub struct PdfPage {
    pub number: u32,
    pub id: ObjectId,
    pub operations: Option<Vec<Operation>>,
}

/// A parsed PDF: its indirect objects in ascending id order, its trailer, and its pages in
/// ascending page order.
#[derive(Debug)]
pub struct PdfDocument {
    pub objects: Vec<(ObjectId, PdfObject)>,
    pub trailer: PdfDictionary,
    pub pages: Vec<PdfPage>,
}

impl PdfDocument {
    /// The pages come in strictly ascending page order.
    pub open spec fn pages_ascending(&self) -> bool {
        forall|i: int, j: int| 0 <= i < j < self.pages@.len() ==> self.pages@[i].number < self.pages@[j].number
    }
}

/// The value of the first entry of `entries`, from index `i` on, whose key is `key`.
pub open spec fn entry_from(entries: Seq<(Vec<u8>, PdfObject)>, key: Seq<u8>, i: int) -> Option<PdfObject>
    decreases entries.len() - i,
{
    if i < 0 || i >= entries.len() {
        None
    } else if entries[i].0@ == key {
        Some(entries[i].1)
    } else {
        entry_from(entries, key, i + 1)
    }
}

/// The value under `key` in a dictionary.
pub open spec fn dict_get(d: PdfDictionary, key: Seq<u8>) -> Option<PdfObject> {
    entry_from(d.entries@, key, 0)
}

/// The bytes of a key written as text.
pub open spec fn key(name: Seq<char>) -> Seq<u8> {
    encode_utf8(name)
}

/// The value under the key `name` (`Dictionary::get`).
pub fn dict_lookup<'a>(d: &'a PdfDictionary, name: &str) -> (r: Option<&'a PdfObject>)
    ensures
        match r {
            Some(o) => dict_get(*d, key(name@)) == Some(*o),
            None => dict_get(*d, key(name@)) is None,
        },
{
    let k = name.as_bytes();
    let mut i: usize = 0;
    while i < d.entries.len()
        invariant
            i <= d.entries@.len(),
            k@ == key(name@),
            dict_get(*d, key(name@)) == entry_from(d.entries@, key(name@), i as int),
        decreases d.entries.len() - i,
    {
        if bytes_equal(d.entries[i].0.as_slice(), k) {
            return Some(&d.entries[i].1);
        }
        i = i + 1;
    }
    None
}

/// The first object of `objects`, from index `i` on, with the given id.
pub open spec fn object_from(objects: Seq<(ObjectId, PdfObject)>, id: ObjectId, i: int) -> Option<PdfObject>
    decreases objects.len() - i,
{
    if i < 0 || i >= objects.len() {
        None
    } else if objects[i].0 == id {
        Some(objects[i].1)
    } else {
        object_from(objects, id, i + 1)
    }
}

/// The object stored under `id`.
pub open spec fn object_at(doc: PdfDocument, id: ObjectId) -> Option<PdfObject> {
    object_from(doc.objects@, id, 0)
}

/// The object stored under `id`, without following references.
pub fn lookup_object<'a>(doc: &'a PdfDocument, id: ObjectId) -> (r: Option<&'a PdfObject>)
    ensures
        match r {
            Some(o) => object_at(*doc, id) == Some(*o),
            None => object_at(*doc, id) is None,
        },
{
    let mut i: usize = 0;
    while i < doc.objects.len()
        invariant
            i <= doc.objects@.len(),
            object_at(*doc, id) == object_from(doc.objects@, id, i as int),
        decreases doc.objects.len() - i,
    {
        let entry_id = doc.objects[i].0;
        if entry_id.0 == id.0 && entry_id.1 == id.1 {
            return Some(&doc.objects[i].1);
        }
        i = i + 1;
    }
    None
}

/// How many references a dereference may follow.
pub const DEREF_LIMIT: usize = 128;

/// The object reached from `obj` by following references, `hops` of them already followed;
/// nothing when a reference leads nowhere or more than the limit would be followed.
pub open spec fn deref_from(doc: PdfDocument, obj: PdfObject, hops: nat) -> Option<PdfObject>
    decreases DEREF_LIMIT + 1 - hops,
{
    match obj {
        PdfObject::Reference(id) => match object_at(doc, id) {
            None => None,
            Some(o) => if hops + 1 > DEREF_LIMIT { None } else { deref_from(doc, o, hops + 1) },
        },
        _ => Some(obj),
    }
}

/// Following references ends at an object that is not a reference.
pub proof fn lemma_deref_not_reference(doc: PdfDocument, obj: PdfObject, hops: nat)
    ensures
        match deref_from(doc, obj, hops) {
            Some(o) => !(o is Reference),
            None => true,
        },
    decreases DEREF_LIMIT + 1 - hops,
{
    match obj {
        PdfObject::Reference(id) => match object_at(doc, id) {
            Some(o) => {
                if hops + 1 <= DEREF_LIMIT {
                    lemma_deref_not_reference(doc, o, hops + 1);
                }
            },
            None => {},
        },
        _ => {},
    }
}

/// The object that `obj` stands for (`Document::dereference`).
pub open spec fn deref(doc: PdfDocument, obj: PdfObject) -> Option<PdfObject> {
    deref_from(doc, obj, 0)
}

/// Follows references from `obj` to the object it stands for.
pub fn dereference<'a>(doc: &'a PdfDocument, obj: &'a PdfObject) -> (r: Option<&'a PdfObject>)
    ensures
        match r {
            Some(o) => deref(*doc, *obj) == Some(*o),
            None => deref(*doc, *obj) is None,
        },
{
    let mut cur: &'a PdfObject = obj;
    let mut hops: usize = 0;
    loop
        invariant
            hops <= DEREF_LIMIT,
            deref(*doc, *obj) == deref_from(*doc, *cur, hops as nat),
        decreases DEREF_LIMIT - hops,
    {
        match cur {
            PdfObject::Reference(id) => {
                match lookup_object(doc, *id) {
                    None => {
                        return None;
                    },
                    Some(o) => {
                        if hops + 1 > DEREF_LIMIT {
                            return None;
                        }
                        hops = hops + 1;
                        cur = o;
                    },
                }
            },
            _ => {
                return Some(cur);
            },
        }
    }
}

/// The object stored under `id`, references followed (`Document::get_object`).
pub open spec fn get_object_spec(doc: PdfDocument, id: ObjectId) -> Option<PdfObject> {
    match object_at(doc, id) {
        Some(o) => deref(doc, o),
        None => None,
    }
}

/// The object stored under `id`, references followed.
pub fn get_object<'a>(doc: &'a PdfDocument, id: ObjectId) -> (r: Option<&'a PdfObject>)
    ensures
        match r {
            Some(o) => get_object_spec(*doc, id) == Some(*o),
            None => get_object_spec(*doc, id) is None,
        },
{
    match lookup_object(doc, id) {
        Some(o) => dereference(doc, o),
        None => None,
    }
}

/// The text of a string object, read as UTF-8 with invalid sequences replaced (`Object::as_string`).
pub open spec fn string_text(obj: PdfObject) -> Option<Seq<char>> {
    match obj {
        PdfObject::String(bytes) => Some(utf8_lossy(bytes@)),
        _ => None,
    }
}

/// The text of a string object.
pub fn as_string(obj: &PdfObject) -> (r: Option<String>)
    ensures
        match r {
            Some(s) => string_text(*obj) == Some(s@),
            None => string_text(*obj) is None,
        },
{
    match obj {
        PdfObject::String(bytes) => Some(from_utf8_lossy_string(bytes.as_slice())),
        _ => None,
    }
}

/// Whether an operation's operator is `name`.
pub fn operator_is(op: &Operation, name: &str) -> (b: bool)
    ensures
        b == (op.operator@ == name@),
{
    str_equal(op.operator.as_str(), name)
}

} // verus!

verus! {

/// Sign bit of a single-precision bit pattern.
pub open spec fn f32_negative(bits: u32) -> bool {
    bits >= 0x8000_0000
}

/// The bits of a single-precision value without its sign.
pub open spec fn f32_magnitude(bits: u32) -> nat {
    (bits % 0x8000_0000) as nat
}

/// A bit pattern that is not a number (all exponent bits set, fraction not zero).
pub open spec fn f32_is_nan(bits: u32) -> bool {
    f32_magnitude(bits) > 0x7F80_0000
}

/// IEEE-754 `a < b` on single-precision bit patterns: false when either is not a number,
/// zero equal to minus zero, and otherwise the order of sign and magnitude.
pub open spec fn f32_lt(a: u32, b: u32) -> bool {
    &&& !f32_is_nan(a)
    &&& !f32_is_nan(b)
    &&& if f32_negative(a) && f32_negative(b) {
        f32_magnitude(a) > f32_magnitude(b)
    } else if f32_negative(a) {
        f32_magnitude(a) > 0 || f32_magnitude(b) > 0
    } else if f32_negative(b) {
        false
    } else {
        f32_magnitude(a) < f32_magnitude(b)
    }
}

/// IEEE-754 `a <= b` on single-precision bit patterns.
pub open spec fn f32_le(a: u32, b: u32) -> bool {
    f32_lt(a, b) || (!f32_is_nan(a) && !f32_is_nan(b) && (a == b || (f32_magnitude(a) == 0 && f32_magnitude(b) == 0)))
}

/// `a < b` for single-precision values given by their bits.
pub fn f32_less(a: u32, b: u32) -> (r: bool)
    ensures
        r == f32_lt(a, b),
{
    let ma = a % 0x8000_0000;
    let mb = b % 0x8000_0000;
    if ma > 0x7F80_0000 || mb > 0x7F80_0000 {
        return false;
    }
    let na = a >= 0x8000_0000;
    let nb = b >= 0x8000_0000;
    if na && nb {
        ma > mb
    } else if na {
        ma > 0 || mb > 0
    } else if nb {
        false
    } else {
        ma < mb
    }
}

/// `a <= b` for single-precision values given by their bits.
pub fn f32_less_eq(a: u32, b: u32) -> (r: bool)
    ensures
        r == f32_le(a, b),
{
    let ma = a % 0x8000_0000;
    let mb = b % 0x8000_0000;
    f32_less(a, b) || (ma <= 0x7F80_0000 && mb <= 0x7F80_0000 && (a == b || (ma == 0 && mb == 0)))
}

/// What `Object::as_float` gives for a numeric operand: an integer (which it rounds to single
/// precision) or the bits of a real.
///
/// Integers are kept exact. The detectors only compare these values with the thresholds 0,
/// 0.01, 0.99 and 3; rounding to nearest keeps order and maps the integers near those
/// thresholds to themselves, so each comparison of a rounded integer is the comparison of the
/// integer stated below.
#[derive(Debug, Clone, Copy)]
pub enum FloatValue {
    Int(i64),
    Bits(u32),
}

/// Bits of `0.99_f32`.
pub const BITS_0_99: u32 = 0x3F7D_70A4;
/// Bits of `0.01_f32`.
pub const BITS_0_01: u32 = 0x3C23_D70A;
/// Bits of `3.0_f32`.
pub const BITS_3: u32 = 0x4040_0000;
/// Bits of `1.0_f32`.
pub const BITS_1: u32 = 0x3F80_0000;
/// Bits of `12.0_f32`.
pub const BITS_12: u32 = 0x4140_0000;

/// `obj.as_float().unwrap_or(default)`, the default given by its bits.
pub open spec fn float_or(obj: PdfObject, default: u32) -> FloatValue {
    match obj {
        PdfObject::Integer(i) => FloatValue::Int(i),
        PdfObject::Real(b) => FloatValue::Bits(b),
        _ => FloatValue::Bits(default),
    }
}

/// The value of a numeric operand, or `default`.
pub fn float_value_or(obj: &PdfObject, default: u32) -> (v: FloatValue)
    ensures
        v == float_or(*obj, default),
{
    match obj {
        PdfObject::Integer(i) => FloatValue::Int(*i),
        PdfObject::Real(b) => FloatValue::Bits(*b),
        _ => FloatValue::Bits(default),
    }
}

/// `v > 0.99`.
pub open spec fn above_0_99(v: FloatValue) -> bool {
    match v {
        FloatValue::Int(i) => i >= 1,
        FloatValue::Bits(b) => f32_lt(BITS_0_99, b),
    }
}

/// `v < 0.01`.
pub open spec fn below_0_01(v: FloatValue) -> bool {
    match v {
        FloatValue::Int(i) => i <= 0,
        FloatValue::Bits(b) => f32_lt(b, BITS_0_01),
    }
}

/// `v <= 3.0 && v > 0.0`: a font size too small to read.
pub open spec fn is_microscopic(v: FloatValue) -> bool {
    match v {
        FloatValue::Int(i) => 1 <= i <= 3,
        FloatValue::Bits(b) => f32_le(b, BITS_3) && f32_lt(0, b),
    }
}

pub fn above_0_99_value(v: FloatValue) -> (r: bool)
    ensures
        r == above_0_99(v),
{
    match v {
        FloatValue::Int(i) => i >= 1,
        FloatValue::Bits(b) => f32_less(BITS_0_99, b),
    }
}

pub fn below_0_01_value(v: FloatValue) -> (r: bool)
    ensures
        r == below_0_01(v),
{
    match v {
        FloatValue::Int(i) => i <= 0,
        FloatValue::Bits(b) => f32_less(b, BITS_0_01),
    }
}

pub fn is_microscopic_value(v: FloatValue) -> (r: bool)
    ensures
        r == is_microscopic(v),
{
    match v {
        FloatValue::Int(i) => 1 <= i && i <= 3,
        FloatValue::Bits(b) => f32_less_eq(b, BITS_3) && f32_less(0, b),
    }
}

} // verus!
