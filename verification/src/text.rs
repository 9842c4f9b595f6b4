use vstd::prelude::*;
use vstd::utf8::*;
use vstd::string::StringSliceAdditionalSpecFns;

verus! {

broadcast use vstd::utf8::encode_utf8_valid_utf8;

/// The byte offset, in the UTF-8 encoding of `s`, at which the character of index `i` starts.
pub open spec fn byte_offset(s: Seq<char>, i: int) -> int {
    encode_utf8(s.take(i)).len() as int
}

/// Encoding distributes over concatenation.
pub proof fn lemma_encode_concat(a: Seq<char>, b: Seq<char>)
    ensures
        encode_utf8(a + b) == encode_utf8(a) + encode_utf8(b),
    decreases a.len(),
{
    if a.len() == 0 {
        assert(a + b =~= b);
        assert(encode_utf8(a) =~= Seq::<u8>::empty());
        assert(encode_utf8(a + b) =~= encode_utf8(a) + encode_utf8(b));
    } else {
        assert((a + b).drop_first() =~= a.drop_first() + b);
        lemma_encode_concat(a.drop_first(), b);
        assert((a + b)[0] == a[0]);
        assert(encode_utf8(a + b) =~= encode_utf8(a) + encode_utf8(b));
    }
}

/// The encoding of a single character is its scalar encoding.
pub proof fn lemma_encode_single(c: char)
    ensures
        encode_utf8(seq![c]) == encode_scalar(c as u32),
{
    assert(seq![c].drop_first() =~= Seq::<char>::empty());
    assert(encode_utf8(Seq::<char>::empty()) =~= Seq::<u8>::empty());
    assert(encode_utf8(seq![c]) =~= encode_scalar(c as u32));
}

/// Advancing one character advances the byte offset by that character's width.
pub proof fn lemma_byte_offset_step(s: Seq<char>, i: int)
    requires
        0 <= i < s.len(),
    ensures
        byte_offset(s, i + 1) == byte_offset(s, i) + encode_scalar(s[i] as u32).len(),
{
    assert(s.take(i + 1) =~= s.take(i) + seq![s[i]]);
    lemma_encode_concat(s.take(i), seq![s[i]]);
    lemma_encode_single(s[i]);
}

/// Number of bytes in the UTF-8 encoding of `c` (`char::len_utf8`).
pub fn utf8_width(c: char) -> (n: usize)
    ensures
        n == encode_scalar(c as u32).len(),
        1 <= n <= 4,
{
    proof {
        vstd::utf8::char_is_scalar(c);
    }
    let v = c as u32;
    if v <= 0x7F {
        1
    } else if v <= 0x7FF {
        2
    } else if v <= 0xFFFF {
        3
    } else {
        4
    }
}

/// The characters of `s`, in order.
pub fn chars_of(s: &str) -> (v: Vec<char>)
    ensures
        v@ == s@,
{
    broadcast use vstd::string::group_string_axioms;
    let mut v: Vec<char> = Vec::new();
    for c in it: s.chars()
        invariant
            v@ == it.seq().take(it.index() as int),
    {
        v.push(c);
    }
    v
}

} // verus!

verus! {

/// Largest character boundary of `b` that is not above `i` (0 when `i <= 0`).
pub open spec fn floor_boundary(b: Seq<u8>, i: int) -> int
    decreases i,
{
    if i <= 0 {
        0
    } else if is_char_boundary(b, i) {
        i
    } else {
        floor_boundary(b, i - 1)
    }
}

/// Smallest character boundary of `b` that is not below `i`, or `i` itself when `i` is past the end.
pub open spec fn ceil_boundary(b: Seq<u8>, i: int) -> int
    decreases b.len() - i,
{
    if i >= b.len() || is_char_boundary(b, i) {
        i
    } else {
        ceil_boundary(b, i + 1)
    }
}

/// Start (in bytes) of the context window of `radius` bytes around `pos`.
pub open spec fn context_start(b: Seq<u8>, pos: int, radius: int) -> int {
    floor_boundary(b, if pos >= radius { pos - radius } else { 0 })
}

/// End (in bytes) of the context window of `radius` bytes around `pos`.
pub open spec fn context_end(b: Seq<u8>, pos: int, radius: int) -> int {
    ceil_boundary(b, if pos + radius <= b.len() { pos + radius } else { b.len() as int })
}

/// The text found within `radius` bytes on each side of byte position `pos`,
/// widened to the nearest character boundaries.
pub open spec fn context_of(text: Seq<char>, pos: int, radius: int) -> Seq<char> {
    let b = encode_utf8(text);
    decode_utf8(b.subrange(context_start(b, pos, radius), context_end(b, pos, radius)))
}

proof fn lemma_floor_boundary(b: Seq<u8>, i: int)
    requires
        valid_utf8(b),
    ensures
        0 <= floor_boundary(b, i),
        i >= 0 ==> floor_boundary(b, i) <= i,
        floor_boundary(b, i) <= b.len(),
        is_char_boundary(b, floor_boundary(b, i)),
    decreases i,
{
    if i <= 0 {
    } else if is_char_boundary(b, i) {
        if i > b.len() {
            assert(!is_char_boundary(b, i));
        }
    } else {
        lemma_floor_boundary(b, i - 1);
    }
}

proof fn lemma_ceil_boundary(b: Seq<u8>, i: int)
    requires
        valid_utf8(b),
        0 <= i <= b.len(),
    ensures
        i <= ceil_boundary(b, i) <= b.len(),
        is_char_boundary(b, ceil_boundary(b, i)),
    decreases b.len() - i,
{
    vstd::utf8::is_char_boundary_start_end_of_seq(b);
    if i >= b.len() || is_char_boundary(b, i) {
    } else {
        lemma_ceil_boundary(b, i + 1);
    }
}

/// A boundary of `b` that lies within the prefix ending at another boundary is a boundary of that prefix.
proof fn lemma_boundary_of_prefix(b: Seq<u8>, start: int, end: int)
    requires
        valid_utf8(b),
        0 <= start <= end <= b.len(),
        is_char_boundary(b, start),
        is_char_boundary(b, end),
    ensures
        is_char_boundary(b.subrange(0, end), start),
{
    let p = b.subrange(0, end);
    vstd::utf8::valid_utf8_split(b, end);
    vstd::utf8::is_char_boundary_start_end_of_seq(p);
    if start == end || start == 0 {
    } else {
        vstd::utf8::is_char_boundary_iff_not_is_continuation_byte(b, start);
        vstd::utf8::is_char_boundary_iff_not_is_continuation_byte(p, start);
    }
}

/// The context of a position within the text is a contiguous piece of the text, cut at
/// character boundaries, that covers the position and reaches at least `radius` bytes to each
/// side of it (or to the end of the text).
pub proof fn lemma_context_surrounds(text: Seq<char>, pos: int, radius: int)
    requires
        0 <= pos <= encode_utf8(text).len(),
        0 <= radius,
    ensures
        exists|s: int, e: int|
            0 <= s <= pos <= e <= encode_utf8(text).len()
            && (s == 0 || s <= pos - radius)
            && (e == encode_utf8(text).len() || e >= pos + radius)
            && is_char_boundary(encode_utf8(text), s)
            && is_char_boundary(encode_utf8(text), e)
            && #[trigger] encode_utf8(context_of(text, pos, radius)) == encode_utf8(text).subrange(s, e),
{
    let b = encode_utf8(text);
    let lo = if pos >= radius { pos - radius } else { 0 };
    let hi = if pos + radius <= b.len() { pos + radius } else { b.len() as int };
    let s = context_start(b, pos, radius);
    let e = context_end(b, pos, radius);
    lemma_floor_boundary(b, lo);
    lemma_ceil_boundary(b, hi);
    vstd::utf8::encode_utf8_valid_utf8(text);
    vstd::utf8::valid_utf8_split(b, e);
    lemma_boundary_of_prefix(b, s, e);
    let prefix = b.subrange(0, e);
    vstd::utf8::valid_utf8_split(prefix, s);
    assert(prefix.subrange(s, prefix.len() as int) =~= b.subrange(s, e));
    vstd::utf8::decode_utf8_encode_utf8(b.subrange(s, e));
    assert(encode_utf8(context_of(text, pos, radius)) == b.subrange(s, e));
}

/// The text within `radius` bytes of byte position `pos`, widened outward to character boundaries.
pub fn extract_context(text: &str, pos: usize, radius: usize) -> (r: String)
    ensures
        r@ == context_of(text@, pos as int, radius as int),
{
    let ghost b = text.spec_bytes();
    let len = text.as_bytes().len();
    let mut start: usize = if pos >= radius { pos - radius } else { 0 };
    let ghost s0 = start as int;
    while start > 0 && !text.is_char_boundary(start)
        invariant
            b == text.spec_bytes(),
            valid_utf8(b),
            floor_boundary(b, start as int) == floor_boundary(b, s0),
        decreases start,
    {
        start = start - 1;
    }
    let mut end: usize = if pos <= len && radius <= len - pos { pos + radius } else { len };
    let ghost e0 = end as int;
    while end < len && !text.is_char_boundary(end)
        invariant
            b == text.spec_bytes(),
            len == b.len(),
            valid_utf8(b),
            end <= len,
            ceil_boundary(b, end as int) == ceil_boundary(b, e0),
        decreases len - end,
    {
        end = end + 1;
    }
    proof {
        lemma_floor_boundary(b, start as int);
        lemma_ceil_boundary(b, end as int);
        assert(start as int == context_start(b, pos as int, radius as int));
        assert(end as int == context_end(b, pos as int, radius as int));
        lemma_floor_boundary(b, s0);
        lemma_ceil_boundary(b, e0);
        lemma_boundary_of_prefix(b, start as int, end as int);
    }
    let (left, _) = text.split_at(end);
    let (_, mid) = left.split_at(start);
    let r = mid.to_owned();
    proof {
        assert(mid.spec_bytes() =~= b.subrange(start as int, end as int));
        vstd::utf8::encode_utf8_decode_utf8(r@);
    }
    r
}

} // verus!

verus! {

/// Unicode `White_Space` property, as used by `char::is_whitespace` and `str::trim`.
pub open spec fn is_white_space(c: char) -> bool {
    ||| ('\u{9}' <= c && c <= '\u{d}')
    ||| c == ' '
    ||| c == '\u{85}'
    ||| c == '\u{a0}'
    ||| c == '\u{1680}'
    ||| ('\u{2000}' <= c && c <= '\u{200a}')
    ||| c == '\u{2028}'
    ||| c == '\u{2029}'
    ||| c == '\u{202f}'
    ||| c == '\u{205f}'
    ||| c == '\u{3000}'
}

/// Whether `c` is a Unicode white-space character.
pub fn is_white_space_char(c: char) -> (b: bool)
    ensures
        b == is_white_space(c),
{
    ('\u{9}' <= c && c <= '\u{d}') || c == ' ' || c == '\u{85}' || c == '\u{a0}' || c == '\u{1680}'
        || ('\u{2000}' <= c && c <= '\u{200a}') || c == '\u{2028}' || c == '\u{2029}' || c
        == '\u{202f}' || c == '\u{205f}' || c == '\u{3000}'
}

/// Index of the first character at or after `i` that is not white space (or the length).
pub open spec fn skip_white_space(s: Seq<char>, i: int) -> int
    decreases s.len() - i,
{
    if 0 <= i < s.len() && is_white_space(s[i]) {
        skip_white_space(s, i + 1)
    } else {
        i
    }
}

/// Index just after the last character below `j` and not below `lo` that is not white space (or `lo`).
pub open spec fn back_white_space(s: Seq<char>, j: int, lo: int) -> int
    decreases j,
{
    if 0 <= lo < j <= s.len() && is_white_space(s[j - 1]) {
        back_white_space(s, j - 1, lo)
    } else {
        j
    }
}

/// `s` without its leading and trailing white space (`str::trim`).
pub open spec fn trim_spec(s: Seq<char>) -> Seq<char> {
    let lo = skip_white_space(s, 0);
    s.subrange(lo, back_white_space(s, s.len() as int, lo))
}

proof fn lemma_skip_white_space(s: Seq<char>, i: int)
    requires
        0 <= i <= s.len(),
    ensures
        i <= skip_white_space(s, i) <= s.len(),
    decreases s.len() - i,
{
    if 0 <= i < s.len() && is_white_space(s[i]) {
        lemma_skip_white_space(s, i + 1);
    }
}

proof fn lemma_back_white_space(s: Seq<char>, j: int, lo: int)
    requires
        0 <= lo <= j <= s.len(),
    ensures
        lo <= back_white_space(s, j, lo) <= j,
    decreases j,
{
    if lo < j <= s.len() && is_white_space(s[j - 1]) {
        lemma_back_white_space(s, j - 1, lo);
    }
}

/// Calls `String::push`. Trusted: afterwards the string holds its former characters followed
/// by `c`, as the documentation of `push` states.
#[verifier::external_body]
pub(crate) fn push_char(s: &mut String, c: char)
    ensures
        final(s)@ == old(s)@.push(c),
{
    s.push(c);
}

/// The characters `v[lo..hi]` as a string.
pub fn string_of_range(v: &Vec<char>, lo: usize, hi: usize) -> (r: String)
    requires
        lo <= hi <= v.len(),
    ensures
        r@ == v@.subrange(lo as int, hi as int),
{
    let mut r = String::new();
    let mut i = lo;
    while i < hi
        invariant
            lo <= i <= hi <= v.len(),
            r@ == v@.subrange(lo as int, i as int),
        decreases hi - i,
    {
        push_char(&mut r, v[i]);
        assert(v@.subrange(lo as int, i + 1) =~= v@.subrange(lo as int, i as int).push(v@[i as int]));
        i = i + 1;
    }
    r
}

/// Bounds of `v` without leading and trailing white space.
pub fn trim_bounds(v: &Vec<char>) -> (r: (usize, usize))
    ensures
        r.0 == skip_white_space(v@, 0),
        r.1 == back_white_space(v@, v@.len() as int, r.0 as int),
        r.0 <= r.1 <= v.len(),
{
    let mut lo: usize = 0;
    while lo < v.len() && is_white_space_char(v[lo])
        invariant
            lo <= v.len(),
            skip_white_space(v@, lo as int) == skip_white_space(v@, 0),
        decreases v.len() - lo,
    {
        lo = lo + 1;
    }
    let mut hi: usize = v.len();
    while hi > lo && is_white_space_char(v[hi - 1])
        invariant
            lo <= hi <= v.len(),
            back_white_space(v@, hi as int, lo as int) == back_white_space(v@, v@.len() as int, lo as int),
        decreases hi,
    {
        hi = hi - 1;
    }
    (lo, hi)
}

/// `s` without leading and trailing white space (`str::trim`).
pub fn trim_str(s: &str) -> (r: String)
    ensures
        r@ == trim_spec(s@),
{
    let v = chars_of(s);
    let (lo, hi) = trim_bounds(&v);
    string_of_range(&v, lo, hi)
}

/// The character of the decimal digit `d`.
pub open spec fn digit_char(d: nat) -> char {
    ((d + 48) as u8) as char
}

/// The decimal representation of `n` (as `Display` prints it).
pub open spec fn decimal(n: nat) -> Seq<char>
    decreases n,
{
    if n < 10 {
        seq![digit_char(n)]
    } else {
        decimal(n / 10).push(digit_char(n % 10))
    }
}

/// The decimal representation of `n`.
pub fn decimal_string(n: u128) -> (r: String)
    ensures
        r@ == decimal(n as nat),
    decreases n,
{
    let d: u8 = (n % 10) as u8;
    let c: char = (d + 48u8) as char;
    if n < 10 {
        let mut r = String::new();
        push_char(&mut r, c);
        assert(r@ =~= seq![digit_char(n as nat)]);
        r
    } else {
        let mut r = decimal_string(n / 10);
        push_char(&mut r, c);
        r
    }
}

/// Number of non-overlapping occurrences of `n` in `h`, scanning from index `i` leftmost first.
pub open spec fn count_from(h: Seq<char>, n: Seq<char>, i: int) -> nat
    decreases h.len() - i,
{
    if n.len() == 0 || i < 0 || i + n.len() > h.len() {
        0
    } else if h.subrange(i, i + n.len()) == n {
        1 + count_from(h, n, i + n.len())
    } else {
        count_from(h, n, i + 1)
    }
}

/// Number of non-overlapping occurrences of `n` in `h` (`str::matches(..).count()`).
pub open spec fn occurrences(h: Seq<char>, n: Seq<char>) -> nat {
    count_from(h, n, 0)
}

/// Occurrences found from `i` on fit, side by side, in what is left of `h`.
pub proof fn lemma_count_from_bound(h: Seq<char>, n: Seq<char>, i: int)
    requires
        n.len() > 0,
        0 <= i <= h.len(),
    ensures
        count_from(h, n, i) * n.len() + i <= h.len(),
    decreases h.len() - i,
{
    if i + n.len() > h.len() {
        assert(count_from(h, n, i) == 0);
    } else if h.subrange(i, i + n.len()) == n {
        lemma_count_from_bound(h, n, i + n.len());
        let c = count_from(h, n, i + n.len());
        assert(count_from(h, n, i) == 1 + c);
        assert((1 + c) * n.len() == c * n.len() + n.len()) by (nonlinear_arith);
    } else {
        lemma_count_from_bound(h, n, i + 1);
        assert(count_from(h, n, i) == count_from(h, n, i + 1));
    }
}

/// Whether `n` occurs in `h` at index `i`.
pub fn occurs_at(h: &Vec<char>, n: &Vec<char>, i: usize) -> (b: bool)
    requires
        i + n.len() <= h.len(),
    ensures
        b == (h@.subrange(i as int, i + n.len()) == n@),
{
    let mut k: usize = 0;
    while k < n.len()
        invariant
            k <= n.len(),
            i + n.len() <= h.len(),
            forall|j: int| 0 <= j < k ==> h@[i + j] == n@[j],
        decreases n.len() - k,
    {
        if h[i + k] != n[k] {
            assert(h@.subrange(i as int, i + n.len())[k as int] != n@[k as int]);
            return false;
        }
        k = k + 1;
    }
    assert(h@.subrange(i as int, i + n.len()) =~= n@);
    true
}

/// Number of non-overlapping occurrences of `n` in `h`.
pub fn count_occurrences(h: &Vec<char>, n: &Vec<char>) -> (c: usize)
    requires
        n.len() > 0,
    ensures
        c == occurrences(h@, n@),
{
    let mut i: usize = 0;
    let mut c: usize = 0;
    while n.len() <= h.len() - i
        invariant
            n.len() > 0,
            c <= i,
            i <= h.len(),
            occurrences(h@, n@) == c + count_from(h@, n@, i as int),
        decreases h.len() - i,
    {
        if occurs_at(h, n, i) {
            c = c + 1;
            i = i + n.len();
        } else {
            i = i + 1;
        }
    }
    c
}

} // verus!

verus! {

/// The Unicode lower-case mapping of a character sequence, as `str::to_lowercase` computes it.
pub uninterp spec fn unicode_lowercase(s: Seq<char>) -> Seq<char>;

/// Calls `str::to_lowercase`. Trusted: its result is named by `unicode_lowercase`, a function of
/// the argument alone; nothing more is claimed.
#[verifier::external_body]
pub(crate) fn to_lowercase_string(s: &str) -> (r: String)
    ensures
        r@ == unicode_lowercase(s@),
{
    s.to_lowercase()
}

/// The characters that `String::from_utf8_lossy` reads from `b`.
pub uninterp spec fn utf8_lossy(b: Seq<u8>) -> Seq<char>;

/// Calls `String::from_utf8_lossy`. Trusted: its result is named by `utf8_lossy`; the one further
/// claim is the documented one that valid UTF-8 is read unchanged.
#[verifier::external_body]
pub(crate) fn from_utf8_lossy_string(b: &[u8]) -> (r: String)
    ensures
        r@ == utf8_lossy(b@),
        valid_utf8(b@) ==> r@ == decode_utf8(b@),
{
    String::from_utf8_lossy(b).into_owned()
}

/// Whether a string's UTF-8 encoding stays within the size Rust allows for any allocation.
pub open spec fn text_fits(s: Seq<char>) -> bool {
    encode_utf8(s).len() <= isize::MAX
}

/// The byte offset of the character of index `k` in `v`.
pub fn byte_offset_of(v: &Vec<char>, k: usize) -> (p: usize)
    requires
        k <= v.len(),
        text_fits(v@),
    ensures
        p == byte_offset(v@, k as int),
{
    let mut p: usize = 0;
    let mut i: usize = 0;
    proof {
        assert(v@.take(0) =~= Seq::<char>::empty());
        assert(encode_utf8(Seq::<char>::empty()) =~= Seq::<u8>::empty());
    }
    while i < k
        invariant
            i <= k <= v.len(),
            text_fits(v@),
            p == byte_offset(v@, i as int),
        decreases k - i,
    {
        proof {
            lemma_byte_offset_step(v@, i as int);
            lemma_byte_offset_bound(v@, i + 1);
        }
        p = p + utf8_width(v[i]);
        i = i + 1;
    }
    p
}

/// Byte offsets never pass the length of the encoding.
pub proof fn lemma_byte_offset_bound(s: Seq<char>, i: int)
    requires
        0 <= i <= s.len(),
    ensures
        byte_offset(s, i) <= encode_utf8(s).len(),
{
    assert(s =~= s.take(i) + s.skip(i));
    lemma_encode_concat(s.take(i), s.skip(i));
}

/// The characters of `s` whose encoding lies within its first `n` bytes.
pub open spec fn byte_prefix(s: Seq<char>, n: int) -> Seq<char> {
    decode_utf8(encode_utf8(s).subrange(0, n))
}

/// The part of `s` before byte `n` (`&s[..n]`), which must be a character boundary.
pub fn str_byte_prefix(s: &str, n: usize) -> (r: String)
    requires
        is_char_boundary(encode_utf8(s@), n as int),
    ensures
        r@ == byte_prefix(s@, n as int),
{
    let (left, _) = s.split_at(n);
    let r = left.to_owned();
    proof {
        vstd::utf8::encode_utf8_decode_utf8(r@);
    }
    r
}

/// A string of `n` copies of `c` (`str::repeat` of a one-character string).
pub fn repeat_char(c: char, n: usize) -> (r: String)
    ensures
        r@ == Seq::new(n as nat, |i: int| c),
{
    let mut r = String::new();
    let mut i: usize = 0;
    while i < n
        invariant
            i <= n,
            r@ == Seq::new(i as nat, |k: int| c),
        decreases n - i,
    {
        push_char(&mut r, c);
        i = i + 1;
        assert(r@ =~= Seq::new(i as nat, |k: int| c));
    }
    r
}

/// Whether two strings hold the same characters.
pub fn str_equal(a: &str, b: &str) -> (r: bool)
    ensures
        r == (a@ == b@),
{
    let x = chars_of(a);
    let y = chars_of(b);
    if x.len() != y.len() {
        return false;
    }
    let mut i: usize = 0;
    while i < x.len()
        invariant
            x@ == a@,
            y@ == b@,
            x.len() == y.len(),
            i <= x.len(),
            forall|k: int| 0 <= k < i ==> x@[k] == y@[k],
        decreases x.len() - i,
    {
        if x[i] != y[i] {
            return false;
        }
        i = i + 1;
    }
    assert(x@ =~= y@);
    true
}

/// Whether two byte sequences are equal.
pub fn bytes_equal(a: &[u8], b: &[u8]) -> (r: bool)
    ensures
        r == (a@ == b@),
{
    if a.len() != b.len() {
        return false;
    }
    let mut i: usize = 0;
    while i < a.len()
        invariant
            a@.len() == b@.len(),
            i <= a@.len(),
            forall|k: int| 0 <= k < i ==> a@[k] == b@[k],
        decreases a.len() - i,
    {
        if a[i] != b[i] {
            return false;
        }
        i = i + 1;
    }
    assert(a@ =~= b@);
    true
}

/// `s` with each occurrence of `pat`, from index `i` on, found left to right without overlap,
/// replaced by `rep`.
pub open spec fn replace_from(s: Seq<char>, pat: Seq<char>, rep: Seq<char>, i: int) -> Seq<char>
    decreases s.len() - i,
{
    if i < 0 || i >= s.len() {
        Seq::empty()
    } else if pat.len() > 0 && i + pat.len() <= s.len() && s.subrange(i, i + pat.len()) == pat {
        rep + replace_from(s, pat, rep, i + pat.len())
    } else {
        seq![s[i]] + replace_from(s, pat, rep, i + 1)
    }
}

/// `s` with every occurrence of `pat` replaced by `rep` (`str::replace`).
pub open spec fn replace_all(s: Seq<char>, pat: Seq<char>, rep: Seq<char>) -> Seq<char> {
    replace_from(s, pat, rep, 0)
}

/// `s` with every occurrence of `pat` replaced by `rep`.
pub fn replace_str(s: &str, pat: &str, rep: &str) -> (r: String)
    requires
        pat@.len() > 0,
    ensures
        r@ == replace_all(s@, pat@, rep@),
{
    let h = chars_of(s);
    let n = chars_of(pat);
    let mut r = String::new();
    let mut i: usize = 0;
    assert(r@ + replace_from(s@, pat@, rep@, 0) =~= replace_all(s@, pat@, rep@));
    while i < h.len()
        invariant
            h@ == s@,
            n@ == pat@,
            n@.len() > 0,
            i <= h@.len(),
            r@ + replace_from(s@, pat@, rep@, i as int) == replace_all(s@, pat@, rep@),
        decreases h.len() - i,
    {
        let ghost before = r@;
        if n.len() <= h.len() - i && occurs_at(&h, &n, i) {
            r.append(rep);
            assert(r@ + replace_from(s@, pat@, rep@, i + n@.len()) =~= before + replace_from(s@, pat@, rep@, i as int));
            i = i + n.len();
        } else {
            push_char(&mut r, h[i]);
            assert(r@ + replace_from(s@, pat@, rep@, i + 1) =~= before + replace_from(s@, pat@, rep@, i as int));
            i = i + 1;
        }
    }
    assert(replace_from(s@, pat@, rep@, i as int) =~= Seq::<char>::empty());
    assert(r@ =~= replace_all(s@, pat@, rep@));
    r
}

/// Calls `std::str::from_utf8`. Trusted: as its documentation states, it succeeds exactly on
/// valid UTF-8, and then gives the characters that the bytes encode.
#[verifier::external_body]
pub(crate) fn utf8_text(b: &[u8]) -> (r: Option<String>)
    ensures
        r is Some <==> valid_utf8(b@),
        r matches Some(s) ==> s@ == decode_utf8(b@),
{
    std::str::from_utf8(b).ok().map(|s| s.to_string())
}

} // verus!
