//! UTF-16 buffers as the Windows shell API reads and writes them:
//! NUL-terminated encoding of text and lossy decoding of returned buffers.

use vstd::prelude::*;
use crate::text::string_push;

verus! {

pub open spec fn is_surrogate(u: u16) -> bool {
    0xD800 <= u && u <= 0xDFFF
}

pub open spec fn is_high_surrogate(u: u16) -> bool {
    0xD800 <= u && u <= 0xDBFF
}

pub open spec fn is_low_surrogate(u: u16) -> bool {
    0xDC00 <= u && u <= 0xDFFF
}

/// The scalar value that a surrogate pair stands for.
pub open spec fn pair_scalar(hi: u16, lo: u16) -> u32 {
    (0x10000 + (hi - 0xD800) * 1024 + (lo - 0xDC00)) as u32
}

/// Whether a `u32` is a Unicode scalar value, i.e. a valid `char`.
pub open spec fn is_char_value(x: u32) -> bool {
    x < 0xD800 || (0xE000 <= x && x <= 0x10FFFF)
}

/// `char::from_u32`: the character with that scalar value, or `None` when
/// the value is a surrogate or above `0x10FFFF`.
#[verifier::external_body]
fn char_from_u32(x: u32) -> (r: Option<char>)
    ensures
        r == (if is_char_value(x) {
            Some(x as char)
        } else {
            None
        }),
{
    char::from_u32(x)
}

/// `String::from_utf16_lossy`: decodes UTF-16 units, turning every unpaired
/// surrogate into U+FFFD.
pub open spec fn decode_utf16_lossy(s: Seq<u16>) -> Seq<char>
    decreases s.len(),
{
    if s.len() == 0 {
        seq![]
    } else if !is_surrogate(s[0]) {
        seq![(s[0] as u32) as char] + decode_utf16_lossy(s.drop_first())
    } else if is_high_surrogate(s[0]) && s.len() >= 2 && is_low_surrogate(s[1]) {
        seq![pair_scalar(s[0], s[1]) as char] + decode_utf16_lossy(s.skip(2))
    } else {
        seq!['\u{FFFD}'] + decode_utf16_lossy(s.drop_first())
    }
}

/// Index of the first NUL unit, or the length when there is none.
pub open spec fn nul_index(s: Seq<u16>) -> int
    decreases s.len(),
{
    if s.len() == 0 {
        0
    } else if s[0] == 0 {
        0
    } else {
        1 + nul_index(s.drop_first())
    }
}

proof fn lemma_nul_index(s: Seq<u16>, k: int)
    requires
        0 <= k <= s.len(),
        forall|j: int| 0 <= j < k ==> s[j] != 0,
        k == s.len() || s[k] == 0,
    ensures
        nul_index(s) == k,
    decreases s.len(),
{
    if s.len() > 0 && k > 0 {
        lemma_nul_index(s.drop_first(), k - 1);
    }
}

/// The text of a NUL-terminated UTF-16 buffer: the units before the first
/// NUL (all of them when there is none), decoded lossily.
pub open spec fn from_wide_spec(s: Seq<u16>) -> Seq<char> {
    decode_utf16_lossy(s.take(nul_index(s)))
}

/// Decodes UTF-16 units, replacing unpaired surrogates with U+FFFD.
pub fn decode_utf16(units: &[u16]) -> (r: String)
    ensures
        r@ == decode_utf16_lossy(units@),
{
    let mut out = String::new();
    let n = units.len();
    let mut i: usize = 0;
    assert(units@.skip(0) =~= units@);
    while i < n
        invariant
            i <= n == units.len(),
            decode_utf16_lossy(units@) == out@ + decode_utf16_lossy(units@.skip(i as int)),
        decreases n - i,
    {
        let ghost rest = units@.skip(i as int);
        let u = units[i];
        if u < 0xD800 || u > 0xDFFF {
            let c = char_from_u32(u as u32);
            assert(rest.drop_first() =~= units@.skip(i + 1));
            match c {
                Some(c) => string_push(&mut out, c),
                None => {},
            }
            i = i + 1;
        } else if u <= 0xDBFF && i + 1 < n && units[i + 1] >= 0xDC00 && units[i + 1] <= 0xDFFF {
            let lo = units[i + 1];
            let x: u32 = 0x10000 + ((u - 0xD800) as u32) * 1024 + ((lo - 0xDC00) as u32);
            assert(x == pair_scalar(u, lo));
            let c = char_from_u32(x);
            assert(rest.skip(2) =~= units@.skip(i + 2));
            match c {
                Some(c) => string_push(&mut out, c),
                None => {},
            }
            i = i + 2;
        } else {
            assert(rest.drop_first() =~= units@.skip(i + 1));
            string_push(&mut out, '\u{FFFD}');
            i = i + 1;
        }
        assert(decode_utf16_lossy(units@) == out@ + decode_utf16_lossy(units@.skip(i as int)));
    }
    assert(units@.skip(n as int) =~= Seq::<u16>::empty());
    assert(out@ + Seq::<char>::empty() =~= out@);
    out
}

/// The text of a NUL-terminated UTF-16 buffer.
pub fn from_wide(value: &[u16]) -> (r: String)
    ensures
        r@ == from_wide_spec(value@),
{
    let mut len: usize = 0;
    while len < value.len() && value[len] != 0
        invariant
            len <= value.len(),
            forall|j: int| 0 <= j < len ==> value@[j] != 0,
        decreases value.len() - len,
    {
        len = len + 1;
    }
    proof {
        lemma_nul_index(value@, len as int);
    }
    let mut prefix: Vec<u16> = Vec::new();
    let mut k: usize = 0;
    while k < len
        invariant
            k <= len <= value.len(),
            prefix@ == value@.take(k as int),
        decreases len - k,
    {
        prefix.push(value[k]);
        assert(value@.take(k as int).push(value@[k as int]) =~= value@.take(k + 1));
        k = k + 1;
    }
    decode_utf16(&prefix)
}

} // verus!

verus! {

/// The UTF-16 units of one character.
pub open spec fn encode_char_utf16(c: char) -> Seq<u16> {
    let v = c as u32;
    if v < 0x10000 {
        seq![v as u16]
    } else {
        seq![(0xD800 + (v - 0x10000) / 1024) as u16, (0xDC00 + (v - 0x10000) % 1024) as u16]
    }
}

/// The UTF-16 encoding of a text (`str::encode_utf16`).
pub open spec fn encode_utf16(s: Seq<char>) -> Seq<u16>
    decreases s.len(),
{
    if s.len() == 0 {
        seq![]
    } else {
        encode_char_utf16(s[0]) + encode_utf16(s.drop_first())
    }
}

/// The NUL-terminated UTF-16 encoding that the shell API takes.
pub open spec fn wide_null_spec(s: Seq<char>) -> Seq<u16> {
    encode_utf16(s).push(0)
}

proof fn lemma_encode_push(s: Seq<char>, c: char)
    ensures
        encode_utf16(s.push(c)) == encode_utf16(s) + encode_char_utf16(c),
    decreases s.len(),
{
    if s.len() == 0 {
        assert(s.push(c).drop_first() =~= Seq::<char>::empty());
        assert(s.push(c)[0] == c);
        assert(encode_utf16(Seq::<char>::empty()) == Seq::<u16>::empty());
        assert(s =~= Seq::<char>::empty());
        assert(encode_utf16(s.push(c)) =~= encode_utf16(s) + encode_char_utf16(c));
    } else {
        assert(s.push(c).drop_first() =~= s.drop_first().push(c));
        assert(s.push(c)[0] == s[0]);
        lemma_encode_push(s.drop_first(), c);
        let a = encode_char_utf16(s[0]);
        let b = encode_utf16(s.drop_first());
        let d = encode_char_utf16(c);
        assert(encode_utf16(s.push(c)) == a + (b + d));
        assert(a + (b + d) =~= (a + b) + d);
    }
}

/// Appends the UTF-16 units of one character.
fn push_char_utf16(out: &mut Vec<u16>, c: char)
    ensures
        final(out)@ == old(out)@ + encode_char_utf16(c),
{
    let v = c as u32;
    if v < 0x10000 {
        out.push(v as u16);
    } else {
        let w = v - 0x10000;
        out.push((0xD800 + w / 1024) as u16);
        out.push((0xDC00 + w % 1024) as u16);
    }
    assert(out@ =~= old(out)@ + encode_char_utf16(c));
}

/// The NUL-terminated UTF-16 encoding of a text, as handed to the shell API.
pub fn wide_null(value: &str) -> (r: Vec<u16>)
    ensures
        r@ == wide_null_spec(value@),
{
    let mut out: Vec<u16> = Vec::new();
    let mut seen: Vec<char> = Vec::new();
    for c in it: value.chars()
        invariant
            seen@ == it.seq().take(it.index() as int),
            out@ == encode_utf16(seen@),
    {
        proof {
            lemma_encode_push(seen@, c);
        }
        push_char_utf16(&mut out, c);
        seen.push(c);
    }
    assert(seen@ == value@);
    out.push(0);
    out
}

proof fn lemma_char_units(c: char)
    ensures
        decode_utf16_lossy(encode_char_utf16(c)) == seq![c],
        forall|j: int|
            0 <= j < encode_char_utf16(c).len() ==> (#[trigger] encode_char_utf16(c)[j] == 0
                <==> c == '\0'),
{
    let v = c as u32;
    let e = encode_char_utf16(c);
    if v < 0x10000 {
        assert(!is_surrogate(v as u16));
        assert(((v as u16) as u32) as char == c);
        assert(e.drop_first() =~= Seq::<u16>::empty());
        assert(decode_utf16_lossy(Seq::<u16>::empty()) == Seq::<char>::empty());
        assert(decode_utf16_lossy(e) =~= seq![c]);
    } else {
        let w = v - 0x10000;
        let hi = (0xD800 + w / 1024) as u16;
        let lo = (0xDC00 + w % 1024) as u16;
        assert(w == (w / 1024) * 1024 + w % 1024);
        assert(is_high_surrogate(hi));
        assert(is_low_surrogate(lo));
        assert(pair_scalar(hi, lo) == v);
        assert(e.skip(2) =~= Seq::<u16>::empty());
        assert(decode_utf16_lossy(Seq::<u16>::empty()) == Seq::<char>::empty());
        assert(decode_utf16_lossy(e) =~= seq![c]);
    }
}

proof fn lemma_decode_append_char(c: char, t: Seq<u16>)
    ensures
        decode_utf16_lossy(encode_char_utf16(c) + t) == seq![c] + decode_utf16_lossy(t),
{
    let v = c as u32;
    let e = encode_char_utf16(c);
    let whole = e + t;
    lemma_char_units(c);
    if v < 0x10000 {
        assert(!is_surrogate(v as u16));
        assert(((v as u16) as u32) as char == c);
        assert(whole.drop_first() =~= t);
    } else {
        let w = v - 0x10000;
        let hi = (0xD800 + w / 1024) as u16;
        let lo = (0xDC00 + w % 1024) as u16;
        assert(w == (w / 1024) * 1024 + w % 1024);
        assert(whole[0] == hi && whole[1] == lo);
        assert(pair_scalar(hi, lo) == v);
        assert(whole.skip(2) =~= t);
    }
}

/// Decoding the UTF-16 encoding of a text gives the text back.
pub proof fn lemma_decode_encode_utf16(s: Seq<char>)
    ensures
        decode_utf16_lossy(encode_utf16(s)) == s,
    decreases s.len(),
{
    if s.len() > 0 {
        lemma_decode_encode_utf16(s.drop_first());
        lemma_decode_append_char(s[0], encode_utf16(s.drop_first()));
        assert(seq![s[0]] + s.drop_first() =~= s);
    }
}

proof fn lemma_encode_no_nul(s: Seq<char>)
    requires
        !s.contains('\0'),
    ensures
        forall|j: int| 0 <= j < encode_utf16(s).len() ==> encode_utf16(s)[j] != 0,
    decreases s.len(),
{
    if s.len() > 0 {
        assert(s.drop_first().contains('\0') ==> s.contains('\0')) by {
            if s.drop_first().contains('\0') {
                let k = choose|k: int| 0 <= k < s.drop_first().len() && s.drop_first()[k] == '\0';
                assert(s[k + 1] == '\0');
            }
        }
        lemma_encode_no_nul(s.drop_first());
        lemma_char_units(s[0]);
        assert(s[0] != '\0') by {
            assert(s.contains(s[0]));
        }
        let e = encode_char_utf16(s[0]);
        let t = encode_utf16(s.drop_first());
        assert forall|j: int| 0 <= j < (e + t).len() implies (e + t)[j] != 0 by {
            if j < e.len() {
                assert(e[j] != 0);
            } else {
                assert((e + t)[j] == t[j - e.len()]);
            }
        }
    }
}

/// Reading back the NUL-terminated buffer made from a text gives the text,
/// for every text without a NUL character.
pub proof fn lemma_from_wide_of_wide_null(s: Seq<char>)
    requires
        !s.contains('\0'),
    ensures
        from_wide_spec(wide_null_spec(s)) == s,
{
    let e = encode_utf16(s);
    let w = wide_null_spec(s);
    lemma_encode_no_nul(s);
    lemma_nul_index(w, e.len() as int);
    assert(w.take(e.len() as int) =~= e);
    lemma_decode_encode_utf16(s);
}

} // verus!
