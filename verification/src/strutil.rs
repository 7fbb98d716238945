use vstd::prelude::*;

verus! {

/// Big-endian 32-bit value at offset `i`.
pub open spec fn spec_be32(b: Seq<u8>, i: int) -> u32
    recommends
        0 <= i,
        i + 4 <= b.len(),
{
    ((b[i] as u32) << 24) | ((b[i + 1] as u32) << 16) | ((b[i + 2] as u32) << 8) | (b[i + 3]
        as u32)
}

/// Big-endian 64-bit value at offset `i`.
pub open spec fn spec_be64(b: Seq<u8>, i: int) -> u64
    recommends
        0 <= i,
        i + 8 <= b.len(),
{
    ((b[i] as u64) << 56) | ((b[i + 1] as u64) << 48) | ((b[i + 2] as u64) << 40) | ((b[i + 3]
        as u64) << 32) | ((b[i + 4] as u64) << 24) | ((b[i + 5] as u64) << 16) | ((b[i + 6] as u64)
        << 8) | (b[i + 7] as u64)
}

/// Reads the first four bytes of `payload` as a big-endian value.
pub fn read_u32_be(payload: &[u8]) -> (r: u32)
    requires
        payload@.len() >= 4,
    ensures
        r == spec_be32(payload@, 0),
{
    ((payload[0] as u32) << 24) | ((payload[1] as u32) << 16) | ((payload[2] as u32) << 8) | (
    payload[3] as u32)
}

/// Reads the first eight bytes of `payload` as a big-endian value.
pub fn read_u64_be(payload: &[u8]) -> (r: u64)
    requires
        payload@.len() >= 8,
    ensures
        r == spec_be64(payload@, 0),
{
    ((payload[0] as u64) << 56) | ((payload[1] as u64) << 48) | ((payload[2] as u64) << 40) | ((
    payload[3] as u64) << 32) | ((payload[4] as u64) << 24) | ((payload[5] as u64) << 16) | ((
    payload[6] as u64) << 8) | (payload[7] as u64)
}

/// Index of the first occurrence of `b` at or after `from`, if any.
pub open spec fn spec_find_byte(s: Seq<u8>, from: int, b: u8) -> Option<int>
    decreases s.len() - from,
{
    if from < 0 || from >= s.len() {
        None
    } else if s[from] == b {
        Some(from)
    } else {
        spec_find_byte(s, from + 1, b)
    }
}

/// Scans `data` from index `from` for the byte `b`.
pub fn find_byte(data: &[u8], from: usize, b: u8) -> (r: Option<usize>)
    ensures
        match r {
            Some(i) => from <= i < data@.len() && Some(i as int) == spec_find_byte(
                data@,
                from as int,
                b,
            ),
            None => spec_find_byte(data@, from as int, b) matches Option::<int>::None,
        },
{
    let mut i = from;
    while i < data.len()
        invariant
            from <= i,
            spec_find_byte(data@, from as int, b) == spec_find_byte(data@, i as int, b),
        decreases data@.len() - i,
    {
        if data[i] == b {
            return Some(i);
        }
        i = i + 1;
    }
    None
}

/// What the first occurrence being at `i` means, spelt out: useful to
/// callers that reason about the bytes before and at the hit.
pub proof fn lemma_find_byte_found(s: Seq<u8>, from: int, b: u8, i: int)
    requires
        spec_find_byte(s, from, b) == Some(i),
        0 <= from,
    ensures
        from <= i < s.len(),
        s[i] == b,
        forall|j: int| from <= j < i ==> s[j] != b,
    decreases s.len() - from,
{
    if s[from] != b {
        lemma_find_byte_found(s, from + 1, b, i);
    }
}

/// Whether two byte strings hold the same bytes.
pub fn bytes_eq(a: &[u8], b: &[u8]) -> (r: bool)
    ensures
        r <==> a@ == b@,
{
    if a.len() != b.len() {
        proof {
            assert(a@.len() != b@.len());
        }
        return false;
    }
    let n = a.len();
    let mut i: usize = 0;
    while i < n
        invariant
            i <= n,
            n == a@.len(),
            n == b@.len(),
            forall|j: int| 0 <= j < i ==> a@[j] == b@[j],
        decreases n - i,
    {
        if a[i] != b[i] {
            return false;
        }
        i = i + 1;
    }
    proof {
        assert(a@ =~= b@);
    }
    true
}

/// Lower-cases one ASCII letter; other bytes pass through.
pub open spec fn spec_lower(b: u8) -> u8 {
    if 0x41 <= b <= 0x5a {
        (b + 0x20) as u8
    } else {
        b
    }
}

pub fn ascii_lower(b: u8) -> (r: u8)
    ensures
        r == spec_lower(b),
{
    if b >= 0x41 && b <= 0x5a {
        b + 0x20
    } else {
        b
    }
}

/// The characters that `String::from_utf8_lossy` yields for bytes that
/// are not valid UTF-8 (its replacement-character handling); they depend
/// on the bytes alone.
pub uninterp spec fn lossy_fallback(b: Seq<u8>) -> Seq<char>;

/// The decoding that `String::from_utf8_lossy` performs: valid UTF-8
/// passes through as exactly its text, and anything else becomes
/// byte-determined replacement-character text.
pub open spec fn lossy_of(b: Seq<u8>) -> Seq<char> {
    if vstd::utf8::valid_utf8(b) {
        vstd::utf8::decode_utf8(b)
    } else {
        lossy_fallback(b)
    }
}

/// Relies on String::from_utf8_lossy: a deterministic decoding that the
/// documentation promises to pass valid UTF-8 (so in particular ASCII)
/// through unchanged.
#[verifier::external_body]
pub fn from_utf8_lossy(data: &[u8]) -> (r: String)
    ensures
        r@ == lossy_of(data@),
        !vstd::utf8::valid_utf8(data@) ==> r@ == lossy_fallback(data@),
        (forall|i: int| 0 <= i < data@.len() ==> data@[i] < 0x80) ==> r@ == Seq::new(
            data@.len(),
            |i: int| data@[i] as char,
        ),
        data@.len() == 0 ==> r@.len() == 0,
{
    String::from_utf8_lossy(data).to_string()
}

/// The lossy decoding of a text's UTF-8 encoding is that text itself.
pub proof fn lemma_lossy_of_encoding(s: Seq<char>)
    ensures
        lossy_of(vstd::utf8::encode_utf8(s)) == s,
{
    broadcast use vstd::utf8::encode_utf8_valid_utf8;
    broadcast use vstd::utf8::encode_utf8_decode_utf8;

}

/// Value of a run of decimal digits, most significant first.
pub open spec fn spec_digits_value(s: Seq<u8>) -> int
    decreases s.len(),
{
    if s.len() == 0 {
        0
    } else {
        spec_digits_value(s.drop_last()) * 10 + (s.last() - 0x30)
    }
}

pub open spec fn spec_is_digit(b: u8) -> bool {
    0x30 <= b <= 0x39
}

pub open spec fn spec_all_digits(s: Seq<u8>) -> bool {
    forall|i: int| 0 <= i < s.len() ==> spec_is_digit(#[trigger] s[i])
}

/// What `str::parse::<u64>().unwrap_or(0)` computes on this text: the
/// decimal value when the text is an optional plus sign followed by one or
/// more digits and the value fits; zero on any other text.
pub open spec fn spec_parse_u64_or_zero(s: Seq<u8>) -> u64 {
    let t = if s.len() > 0 && s[0] == 0x2b {
        s.skip(1)
    } else {
        s
    };
    if t.len() > 0 && spec_all_digits(t) && spec_digits_value(t) <= u64::MAX {
        spec_digits_value(t) as u64
    } else {
        0
    }
}

/// A longer run of digits never has a smaller value.
proof fn lemma_digits_prefix_le(s: Seq<u8>, k: int)
    requires
        0 <= k <= s.len(),
        spec_all_digits(s),
    ensures
        0 <= spec_digits_value(s.take(k)) <= spec_digits_value(s),
    decreases s.len(),
{
    if k == s.len() {
        assert(s.take(k) =~= s);
        lemma_digits_nonneg(s);
    } else {
        let butlast = s.drop_last();
        assert(spec_all_digits(butlast));
        lemma_digits_prefix_le(butlast, k);
        assert(butlast.take(k) =~= s.take(k));
        assert(spec_digits_value(butlast) * 10 >= spec_digits_value(butlast));
    }
}

/// A run of digits has a non-negative value.
proof fn lemma_digits_nonneg(s: Seq<u8>)
    requires
        spec_all_digits(s),
    ensures
        spec_digits_value(s) >= 0,
    decreases s.len(),
{
    if s.len() > 0 {
        assert(spec_all_digits(s.drop_last()));
        lemma_digits_nonneg(s.drop_last());
    }
}

/// Parses decimal digits as the standard library's integer parse would,
/// yielding zero for text that is not a number or does not fit.
pub fn parse_u64_or_zero(data: &[u8]) -> (r: u64)
    ensures
        r == spec_parse_u64_or_zero(data@),
{
    let ghost whole = data@;
    let rest = if data.len() > 0 && data[0] == 0x2b {
        vstd::slice::slice_subrange(data, 1, data.len())
    } else {
        data
    };
    let ghost t = rest@;
    let ghost goal: u64 = if t.len() > 0 && spec_all_digits(t) && spec_digits_value(t)
        <= u64::MAX {
        spec_digits_value(t) as u64
    } else {
        0
    };
    proof {
        if whole.len() > 0 && whole[0] == 0x2b {
            assert(t =~= whole.skip(1));
        }
        assert(spec_parse_u64_or_zero(whole) == goal);
    }
    if rest.len() == 0 {
        return 0;
    }
    let n = rest.len();
    let mut acc: u64 = 0;
    let mut i: usize = 0;
    while i < n
        invariant
            i <= n,
            n == t.len(),
            n >= 1,
            rest@ == t,
            whole == data@,
            spec_all_digits(t.take(i as int)),
            acc == spec_digits_value(t.take(i as int)),
            goal == (if t.len() > 0 && spec_all_digits(t) && spec_digits_value(t) <= u64::MAX {
                spec_digits_value(t) as u64
            } else {
                0u64
            }),
            spec_parse_u64_or_zero(whole) == goal,
        decreases n - i,
    {
        let b = rest[i];
        if b < 0x30 || b > 0x39 {
            proof {
                assert(t[i as int] == b);
                assert(!spec_all_digits(t));
            }
            return 0;
        }
        let d = b - 0x30;
        if acc > 0xffff_ffff_ffff_ffff / 10 || (acc == 0xffff_ffff_ffff_ffff / 10 && d > 5) {
            // the value cannot fit; the standard parse would overflow
            proof {
                assert(t.take(i + 1).drop_last() =~= t.take(i as int));
                assert(t.take(i + 1).last() == b);
                assert(spec_digits_value(t.take(i + 1)) == acc * 10 + d);
                assert(spec_digits_value(t.take(i + 1)) > u64::MAX);
                if spec_all_digits(t) {
                    lemma_digits_prefix_le(t, i + 1);
                }
            }
            return 0;
        }
        proof {
            assert(t.take(i + 1).drop_last() =~= t.take(i as int));
            assert(t.take(i + 1).last() == b);
        }
        acc = acc * 10 + (d as u64);
        i = i + 1;
    }
    proof {
        assert(t.take(n as int) =~= t);
    }
    acc
}

} // verus!
