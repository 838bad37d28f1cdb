use vstd::prelude::*;

verus! {

use vstd::string::StringExecFns;
use crate::errors::DecodeError;

/// The character written between nibbles of a serialized flag register.
pub open spec fn spec_separator() -> char {
    '_'
}

/// The digit standing for bit `k` of `v`.
pub open spec fn spec_bit_char(v: u32, k: u32) -> char {
    if (v >> k) & 1 == 1 {
        '1'
    } else {
        '0'
    }
}

/// The lowest `n` bits of `v` as digits, most-significant first.
pub open spec fn spec_bits_n(v: u32, n: int) -> Seq<char> {
    Seq::new(n as nat, |i: int| spec_bit_char(v, (n - 1 - i) as u32))
}

/// All 32 bits of `v` as digits, most-significant first.
pub open spec fn spec_bits(v: u32) -> Seq<char> {
    spec_bits_n(v, 32)
}

/// The serialized image of `v`: 32 digits, most-significant first, with a
/// separator after every nibble but the last (39 characters in all).
pub open spec fn spec_encoded(v: u32) -> Seq<char> {
    Seq::new(39, |i: int| if i % 5 == 4 {
        spec_separator()
    } else {
        spec_bit_char(v, (31 - (i - i / 5)) as u32)
    })
}

pub open spec fn is_binary_char(c: char) -> bool {
    c == '0' || c == '1'
}

/// The characters that may appear in a serialized image.
pub open spec fn is_codec_char(c: char) -> bool {
    is_binary_char(c) || c == spec_separator()
}

/// The digits of `s` with every separator removed.
pub open spec fn spec_stripped(s: Seq<char>) -> Seq<char>
    decreases s.len(),
{
    if s.len() == 0 {
        Seq::empty()
    } else if s.last() == spec_separator() {
        spec_stripped(s.drop_last())
    } else {
        spec_stripped(s.drop_last()).push(s.last())
    }
}

/// The value of a digit string, most-significant digit first.
pub open spec fn spec_bits_value(s: Seq<char>) -> nat
    decreases s.len(),
{
    if s.len() == 0 {
        0
    } else {
        2 * spec_bits_value(s.drop_last()) + (if s.last() == '1' {
            1nat
        } else {
            0nat
        })
    }
}

/// What decoding a serialized image yields: every character must be a binary
/// digit or a separator, and exactly 32 digits must remain once separators
/// are removed.
pub open spec fn spec_decode(s: Seq<char>) -> Result<u32, DecodeError> {
    if exists|i: int| 0 <= i < s.len() && !is_codec_char(s[i]) {
        Err(DecodeError::NonBinaryCharacter)
    } else if spec_stripped(s).len() != 32 {
        Err(DecodeError::WrongLength)
    } else {
        Ok(spec_bits_value(spec_stripped(s)) as u32)
    }
}

/// A digit string of length at most 32 denotes a value below `2^len`.
pub proof fn lemma_bits_value_bound(s: Seq<char>)
    requires
        s.len() <= 32,
    ensures
        spec_bits_value(s) < (1u64 << (s.len() as u64)),
    decreases s.len(),
{
    if s.len() == 0 {
        assert((1u64 << 0u64) == 1) by (bit_vector);
    } else {
        lemma_bits_value_bound(s.drop_last());
        assert(forall|n: u64| 1 <= n <= 32 ==> #[trigger] (1u64 << n) == 2 * (1u64 << ((n - 1) as u64)))
            by (bit_vector);
    }
}

/// The digits of the lowest `n` bits of `v` read back as exactly `v`,
/// provided `v` fits in `n` bits.
pub proof fn lemma_bits_n_value(v: u32, n: u32)
    requires
        n <= 32,
        (v as u64) < (1u64 << (n as u64)),
    ensures
        spec_bits_value(spec_bits_n(v, n as int)) == v,
    decreases n,
{
    if n == 0 {
        let v64 = v as u64;
        assert(v64 < (1u64 << 0u64) ==> v64 == 0) by (bit_vector);
        assert(spec_bits_n(v, 0) =~= Seq::<char>::empty());
    } else {
        let w = v >> 1;
        assert(1 <= n <= 32 && (v as u64) < (1u64 << (n as u64)) ==> ((v >> 1) as u64) < (1u64
            << ((n - 1) as u64))) by (bit_vector);
        assert((w as u64) < (1u64 << ((n - 1) as u64)));
        lemma_bits_n_value(w, (n - 1) as u32);
        assert(forall|x: u32, k: u32| k < 31 ==> #[trigger] ((x >> 1) >> k) == x >> (k + 1))
            by (bit_vector);
        assert(spec_bits_n(v, n as int).drop_last() =~= spec_bits_n(w, n as int - 1)) by {
            assert forall|i: int| 0 <= i < n as int - 1 implies spec_bits_n(v, n as int)[i]
                == spec_bits_n(w, n as int - 1)[i] by {
                let k = (n - 2 - i) as u32;
                assert((w >> k) == v >> (k + 1));
            }
        }
        assert(spec_bits_n(v, n as int).last() == spec_bit_char(v, 0));
        assert(((v >> 0u32) & 1 == 1 ==> v == 2 * (v >> 1) + 1) && ((v >> 0u32) & 1 != 1 ==> v == 2
            * (v >> 1))) by (bit_vector);
    }
}

/// Removing the separators from the first `n` characters of the serialized
/// image of `v` leaves exactly its leading digits.
pub proof fn lemma_stripped_encoded(v: u32, n: int)
    requires
        0 <= n <= 39,
    ensures
        spec_stripped(spec_encoded(v).take(n)) =~= spec_bits(v).take(n - n / 5),
    decreases n,
{
    if n == 0 {
    } else {
        lemma_stripped_encoded(v, n - 1);
        let enc = spec_encoded(v);
        assert(enc.take(n).drop_last() =~= enc.take(n - 1));
        assert(enc.take(n).last() == enc[n - 1]);
        if (n - 1) % 5 == 4 {
            assert(n - n / 5 == (n - 1) - (n - 1) / 5);
        } else {
            assert(n - n / 5 == (n - 1) - (n - 1) / 5 + 1);
            assert(enc[n - 1] == spec_bit_char(v, (31 - ((n - 1) - (n - 1) / 5)) as u32));
            assert(spec_bits(v).take(n - n / 5) =~= spec_bits(v).take(
                (n - 1) - (n - 1) / 5,
            ).push(spec_bits(v)[(n - 1) - (n - 1) / 5]));
        }
    }
}

/// Decoding a serialized image recovers the exact register value, reserved
/// bits included.
pub proof fn lemma_register_round_trip(v: u32)
    ensures
        spec_decode(spec_encoded(v)) == Ok::<u32, DecodeError>(v),
{
    let enc = spec_encoded(v);
    assert forall|i: int| 0 <= i < enc.len() implies is_codec_char(enc[i]) by {
        if i % 5 != 4 {
            assert(enc[i] == spec_bit_char(v, (31 - (i - i / 5)) as u32));
        }
    }
    lemma_stripped_encoded(v, 39);
    assert(enc.take(39) =~= enc);
    assert(spec_bits(v).take(32) =~= spec_bits(v));
    assert((v as u64) < (1u64 << 32u64)) by (bit_vector);
    lemma_bits_n_value(v, 32);
}

/// The four bytes of `v`, least-significant first.
pub open spec fn spec_u32_le_bytes(v: u32) -> Seq<u8> {
    seq![
        (v & 0xff) as u8,
        ((v >> 8) & 0xff) as u8,
        ((v >> 16) & 0xff) as u8,
        ((v >> 24) & 0xff) as u8,
    ]
}

/// The value of four bytes read least-significant first.
pub open spec fn spec_u32_from_le_bytes(b: Seq<u8>) -> u32
    recommends
        b.len() == 4,
{
    (b[0] as u32) | ((b[1] as u32) << 8u32) | ((b[2] as u32) << 16u32) | ((b[3] as u32) << 24u32)
}

/// Four little-endian bytes read back as the value they were taken from.
pub proof fn lemma_u32_le_round_trip(v: u32)
    ensures
        spec_u32_from_le_bytes(spec_u32_le_bytes(v)) == v,
{
    assert(((((v & 0xff) as u8) as u32) | (((((v >> 8) & 0xff) as u8) as u32) << 8u32) | (((((v
        >> 16) & 0xff) as u8) as u32) << 16u32) | (((((v >> 24) & 0xff) as u8) as u32) << 24u32))
        == v) by (bit_vector);
}

/// Appends the four bytes of `x`, least-significant first.
pub fn push_u32_le(v: &mut Vec<u8>, x: u32)
    ensures
        final(v)@ == old(v)@ + spec_u32_le_bytes(x),
{
    v.push((x & 0xff) as u8);
    v.push(((x >> 8) & 0xff) as u8);
    v.push(((x >> 16) & 0xff) as u8);
    v.push(((x >> 24) & 0xff) as u8);
    proof {
        assert(v@ =~= old(v)@ + spec_u32_le_bytes(x));
    }
}

/// Reads the four bytes at `off`, least-significant first.
pub fn read_u32_le(b: &Vec<u8>, off: usize) -> (r: u32)
    requires
        off + 4 <= b@.len(),
    ensures
        r == spec_u32_from_le_bytes(b@.subrange(off as int, off as int + 4)),
{
    // The exec length pins `b@.len()` below `usize::MAX`, so the offset
    // arithmetic below cannot wrap.
    let _len: usize = b.len();
    (b[off] as u32) | ((b[off + 1] as u32) << 8u32) | ((b[off + 2] as u32) << 16u32) | ((b[off + 3]
        as u32) << 24u32)
}

/// Renders the 32 bits of `v`, most-significant first, a separator between
/// nibbles.
pub fn encode_register(v: u32) -> (r: String)
    ensures
        r@ == spec_encoded(v),
{
    let mut s = String::new();
    let mut i: usize = 0;
    while i < 39
        invariant
            i <= 39,
            s@ =~= spec_encoded(v).take(i as int),
        decreases 39 - i,
    {
        proof {
            reveal_strlit("0");
            reveal_strlit("1");
            reveal_strlit("_");
        }
        if i % 5 == 4 {
            s.append("_");
        } else {
            let k: u32 = (31 - (i - i / 5)) as u32;
            if (v >> k) & 1 == 1 {
                s.append("1");
            } else {
                s.append("0");
            }
        }
        i = i + 1;
        proof {
            assert(s@ =~= spec_encoded(v).take(i as int));
        }
    }
    proof {
        assert(spec_encoded(v).take(39) =~= spec_encoded(v));
    }
    s
}

/// Parses a serialized image back to its 32-bit value: separators are
/// ignored wherever they stand, and exactly 32 binary digits must remain.
pub fn decode_register(s: &str) -> (r: Result<u32, DecodeError>)
    ensures
        r == spec_decode(s@),
{
    let n = s.unicode_len();
    let mut i: usize = 0;
    let mut count: usize = 0;
    let mut value: u32 = 0;
    while i < n
        invariant
            n == s@.len(),
            i <= n,
            count <= i,
            forall|j: int| 0 <= j < i ==> is_codec_char(s@[j]),
            count == spec_stripped(s@.take(i as int)).len(),
            count <= 32 ==> value == spec_bits_value(spec_stripped(s@.take(i as int))),
        decreases n - i,
    {
        let c = s.get_char(i);
        proof {
            assert(s@.take(i + 1).drop_last() =~= s@.take(i as int));
            assert(s@.take(i + 1).last() == s@[i as int]);
        }
        if c == '_' {
        } else if c == '0' || c == '1' {
            proof {
                let st = spec_stripped(s@.take(i as int));
                assert(st.push(c).drop_last() =~= st);
                assert(st.push(c).last() == c);
            }
            if count < 32 {
                proof {
                    lemma_bits_value_bound(spec_stripped(s@.take(i as int)));
                    assert(forall|m: u64| m <= 31 ==> #[trigger] (1u64 << m) <= 0x8000_0000u64)
                        by (bit_vector);
                }
                value = value * 2 + (if c == '1' {
                    1
                } else {
                    0
                });
            }
            count = count + 1;
        } else {
            proof {
                assert(!is_codec_char(s@[i as int]));
            }
            return Err(DecodeError::NonBinaryCharacter);
        }
        i = i + 1;
    }
    proof {
        assert(s@.take(n as int) =~= s@);
    }
    if count != 32 {
        Err(DecodeError::WrongLength)
    } else {
        Ok(value)
    }
}

} // verus!
