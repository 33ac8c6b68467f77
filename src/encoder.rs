use vstd::prelude::*;

use crate::error::EncodingError;

verus! {

/// Tag of a byte-sequence key in structured mode.
pub const BYTES_TAG: u8 = 1;
/// Tag of a boolean key in structured mode.
pub const BOOL_TAG: u8 = 2;
/// Tag of a string key in structured mode.
pub const STR_TAG: u8 = 3;
/// Tag of an integer key in structured mode.
pub const INT_TAG: u8 = 4;

/// A caller-level key or value, before encoding.
pub enum Object {
    Bytes(Vec<u8>),
    Str(String),
    Int(i64),
    Bool(bool),
    /// Any other object (a float, a list, a mapping, none): no key, and no
    /// byte sequence.
    Other,
}

/// Eight big-endian bytes of `x` offset by 2^63, so that byte order follows
/// the order of the integers.
pub open spec fn int_key_bytes(x: i64) -> Seq<u8> {
    let u = x as int + 0x8000_0000_0000_0000;
    seq![
        (u / 0x100_0000_0000_0000) as u8,
        (u / 0x1_0000_0000_0000 % 256) as u8,
        (u / 0x100_0000_0000 % 256) as u8,
        (u / 0x1_0000_0000 % 256) as u8,
        (u / 0x100_0000 % 256) as u8,
        (u / 0x1_0000 % 256) as u8,
        (u / 0x100 % 256) as u8,
        (u % 256) as u8,
    ]
}

/// The bytes of a key: in raw mode the byte sequence itself; in structured
/// mode a tag byte for the kind followed by the payload.
pub open spec fn encode_key(key: Object, raw_mode: bool) -> Result<Seq<u8>, EncodingError> {
    if raw_mode {
        match key {
            Object::Bytes(b) => Ok(b@),
            _ => Err(EncodingError::RawModeNeedsBytes),
        }
    } else {
        match key {
            Object::Bytes(b) => Ok(seq![BYTES_TAG] + b@),
            Object::Bool(b) => Ok(seq![BOOL_TAG, if b { 1u8 } else { 0u8 }]),
            Object::Str(s) => Ok(seq![STR_TAG] + vstd::utf8::encode_utf8(s@)),
            Object::Int(x) => Ok(seq![INT_TAG] + int_key_bytes(x)),
            Object::Other => Err(EncodingError::UnsupportedKey),
        }
    }
}

/// The bytes of a value. In raw mode `value` is the value itself; in
/// structured mode it is what the serializer made of the value. Either way
/// it must be a byte sequence, which is taken as it is.
pub open spec fn encode_value(value: Object, raw_mode: bool) -> Result<Seq<u8>, EncodingError> {
    match value {
        Object::Bytes(b) => Ok(b@),
        _ => if raw_mode {
            Err(EncodingError::RawModeNeedsBytes)
        } else {
            Err(EncodingError::SerializerNotBytes)
        },
    }
}

/// `a` comes before `b` in byte order: at the first place where they differ,
/// the byte of `a` is the smaller.
pub open spec fn bytes_precede(a: Seq<u8>, b: Seq<u8>) -> bool {
    exists|i: int|
        0 <= i < a.len() && i < b.len() && a.subrange(0, i) == b.subrange(0, i) && a[i] < b[i]
}

/// Dividing by `c * 256` drops the last base-256 digit of `u / c`.
proof fn lemma_next_digit(u: int, c: int)
    requires
        0 <= u,
        0 < c,
    ensures
        u / (c * 256) == (u / c) / 256,
        u / c == 256 * (u / (c * 256)) + (u / c) % 256,
{
    vstd::arithmetic::div_mod::lemma_div_denominator(u, c, 256);
    vstd::arithmetic::div_mod::lemma_fundamental_div_mod(u / c, 256);
}

/// The key bytes of an integer spell out its offset value in base 256.
proof fn lemma_int_key_digits(x: i64)
    ensures
        ({
            let d = int_key_bytes(x);
            x as int + 0x8000_0000_0000_0000 == d[0] * 0x100_0000_0000_0000 + d[1] * 0x1_0000_0000_0000
                + d[2] * 0x100_0000_0000 + d[3] * 0x1_0000_0000 + d[4] * 0x100_0000 + d[5] * 0x1_0000
                + d[6] * 0x100 + d[7] as int
        }),
{
    let u = x as int + 0x8000_0000_0000_0000;
    lemma_next_digit(u, 1);
    lemma_next_digit(u, 0x100);
    lemma_next_digit(u, 0x1_0000);
    lemma_next_digit(u, 0x100_0000);
    lemma_next_digit(u, 0x1_0000_0000);
    lemma_next_digit(u, 0x100_0000_0000);
    lemma_next_digit(u, 0x1_0000_0000_0000);
    assert(u / 0x100_0000_0000_0000 < 256);
}

/// Structured integer keys keep the order of the integers.
pub proof fn lemma_int_keys_ordered(x: i64, y: i64)
    requires
        x < y,
    ensures
        bytes_precede(int_key_bytes(x), int_key_bytes(y)),
        encode_key(Object::Int(x), false) matches Ok(a) && encode_key(Object::Int(y), false) matches Ok(b)
            && bytes_precede(a, b),
{
    let a = int_key_bytes(x);
    let b = int_key_bytes(y);
    lemma_int_key_digits(x);
    lemma_int_key_digits(y);
    let i: int = if a[0] != b[0] {
        0
    } else if a[1] != b[1] {
        1
    } else if a[2] != b[2] {
        2
    } else if a[3] != b[3] {
        3
    } else if a[4] != b[4] {
        4
    } else if a[5] != b[5] {
        5
    } else if a[6] != b[6] {
        6
    } else {
        7
    };
    assert(a.subrange(0, i) =~= b.subrange(0, i));
    assert(a[i] < b[i]);
    let ta = seq![INT_TAG] + a;
    let tb = seq![INT_TAG] + b;
    assert(ta.subrange(0, i + 1) =~= tb.subrange(0, i + 1));
    assert(ta[i + 1] == a[i] && tb[i + 1] == b[i]);
}

/// `prefix` followed by `payload`.
fn concat(prefix: &[u8], payload: &[u8]) -> (r: Vec<u8>)
    ensures
        r@ == prefix@ + payload@,
{
    let mut out: Vec<u8> = Vec::new();
    let mut i: usize = 0;
    while i < prefix.len()
        invariant
            i <= prefix@.len(),
            out@ == prefix@.subrange(0, i as int),
        decreases prefix@.len() - i,
    {
        out.push(prefix[i]);
        i = i + 1;
        assert(out@ =~= prefix@.subrange(0, i as int));
    }
    assert(prefix@.subrange(0, prefix@.len() as int) =~= prefix@);
    let mut j: usize = 0;
    while j < payload.len()
        invariant
            j <= payload@.len(),
            out@ == prefix@ + payload@.subrange(0, j as int),
        decreases payload@.len() - j,
    {
        out.push(payload[j]);
        j = j + 1;
        assert(out@ =~= prefix@ + payload@.subrange(0, j as int));
    }
    assert(payload@.subrange(0, payload@.len() as int) =~= payload@);
    out
}

/// The eight key bytes of an integer.
fn int_bytes(x: i64) -> (r: [u8; 8])
    ensures
        r@ == int_key_bytes(x),
{
    let u: u64 = if x >= 0 {
        (x as u64) + 0x8000_0000_0000_0000
    } else {
        ((x + 0x7fff_ffff_ffff_ffff) + 1) as u64
    };
    let r = [
        (u / 0x100_0000_0000_0000) as u8,
        (u / 0x1_0000_0000_0000 % 256) as u8,
        (u / 0x100_0000_0000 % 256) as u8,
        (u / 0x1_0000_0000 % 256) as u8,
        (u / 0x100_0000 % 256) as u8,
        (u / 0x1_0000 % 256) as u8,
        (u / 0x100 % 256) as u8,
        (u % 256) as u8,
    ];
    assert(r@ =~= int_key_bytes(x));
    r
}

/// Encodes a key under the given mode.
pub fn key_bytes(key: &Object, raw_mode: bool) -> (r: Result<Vec<u8>, EncodingError>)
    ensures
        match encode_key(*key, raw_mode) {
            Ok(k) => r matches Ok(rk) && rk@ == k,
            Err(e) => r == Err::<Vec<u8>, EncodingError>(e),
        },
{
    if raw_mode {
        match key {
            Object::Bytes(b) => Ok(concat(&[], b.as_slice())),
            _ => Err(EncodingError::RawModeNeedsBytes),
        }
    } else {
        match key {
            Object::Bytes(b) => Ok(concat(&[BYTES_TAG], b.as_slice())),
            Object::Bool(b) => {
                let v: u8 = if *b { 1 } else { 0 };
                Ok(concat(&[BOOL_TAG, v], &[]))
            },
            Object::Str(s) => {
                let bytes = s.as_str().as_bytes();
                Ok(concat(&[STR_TAG], bytes))
            },
            Object::Int(x) => {
                let digits = int_bytes(*x);
                Ok(concat(&[INT_TAG], &digits))
            },
            Object::Other => Err(EncodingError::UnsupportedKey),
        }
    }
}

/// Encodes a value under the given mode (in structured mode: the
/// serializer's output).
pub fn value_bytes(value: &Object, raw_mode: bool) -> (r: Result<Vec<u8>, EncodingError>)
    ensures
        match encode_value(*value, raw_mode) {
            Ok(v) => r matches Ok(rv) && rv@ == v,
            Err(e) => r == Err::<Vec<u8>, EncodingError>(e),
        },
{
    match value {
        Object::Bytes(b) => Ok(concat(&[], b.as_slice())),
        _ => if raw_mode {
            Err(EncodingError::RawModeNeedsBytes)
        } else {
            Err(EncodingError::SerializerNotBytes)
        },
    }
}

} // verus!
