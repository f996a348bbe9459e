//! Verified UTF-8 validation for text crossing the flat calling boundary.
//!
//! Text reaches the host boundary as raw bytes; the lifecycle rules treat a
//! byte sequence that is not valid UTF-8 as a fatal error for the call that
//! carried it. This module decides validity against `vstd::utf8::valid_utf8`.

use vstd::prelude::*;
use vstd::utf8::*;

verus! {

proof fn lemma_scalar_width1(s: Seq<u8>)
    requires
        s.len() >= 1,
        s[0] < 0x80,
    ensures
        valid_first_scalar(s),
        length_of_first_scalar(s) == 1,
{
    let b0 = s[0];
    assert(b0 < 0x80 ==> ((b0 & 0x7f) as u32) < 0xd800) by (bit_vector);
}

proof fn lemma_scalar_width2(s: Seq<u8>)
    requires
        s.len() >= 2,
        0xc2 <= s[0] <= 0xdf,
        is_continuation_byte(s[1]),
    ensures
        valid_first_scalar(s),
        length_of_first_scalar(s) == 2,
{
    let b0 = s[0];
    let b1 = s[1];
    assert((0xc2 <= b0 <= 0xdf && 0x80 <= b1 <= 0xbf) ==> 0x80 <= ((((b0 & 0x1f) as u32) << 6) | (
    (b1 & 0x3f) as u32)) <= 0x7ff) by (bit_vector);
}

proof fn lemma_scalar_width3(s: Seq<u8>)
    requires
        s.len() >= 3,
        0xe0 <= s[0] <= 0xef,
        is_continuation_byte(s[1]),
        is_continuation_byte(s[2]),
        s[0] == 0xe0 ==> s[1] >= 0xa0,
        s[0] == 0xed ==> s[1] <= 0x9f,
    ensures
        valid_first_scalar(s),
        length_of_first_scalar(s) == 3,
{
    let b0 = s[0];
    let b1 = s[1];
    let b2 = s[2];
    assert((0xe0 <= b0 <= 0xef && 0x80 <= b1 <= 0xbf && 0x80 <= b2 <= 0xbf && (b0 == 0xe0 ==> b1
        >= 0xa0) && (b0 == 0xed ==> b1 <= 0x9f)) ==> {
        let cp = ((((b0 & 0x0f) as u32) << 12) | (((b1 & 0x3f) as u32) << 6) | ((
        b2 & 0x3f) as u32));
        0x800 <= cp <= 0xffff && !(0xd800 <= cp <= 0xdfff)
    }) by (bit_vector);
}

proof fn lemma_scalar_width4(s: Seq<u8>)
    requires
        s.len() >= 4,
        0xf0 <= s[0] <= 0xf4,
        is_continuation_byte(s[1]),
        is_continuation_byte(s[2]),
        is_continuation_byte(s[3]),
        s[0] == 0xf0 ==> s[1] >= 0x90,
        s[0] == 0xf4 ==> s[1] <= 0x8f,
    ensures
        valid_first_scalar(s),
        length_of_first_scalar(s) == 4,
{
    let b0 = s[0];
    let b1 = s[1];
    let b2 = s[2];
    let b3 = s[3];
    assert((0xf0 <= b0 <= 0xf4 && 0x80 <= b1 <= 0xbf && 0x80 <= b2 <= 0xbf && 0x80 <= b3 <= 0xbf
        && (b0 == 0xf0 ==> b1 >= 0x90) && (b0 == 0xf4 ==> b1 <= 0x8f)) ==> {
        let cp = ((((b0 & 0x07) as u32) << 18) | (((b1 & 0x3f) as u32) << 12) | (((
        b2 & 0x3f) as u32) << 6) | ((b3 & 0x3f) as u32));
        0x10000 <= cp <= 0x10ffff
    }) by (bit_vector);
}

/// Decides whether the given bytes are a valid UTF-8 encoding.
pub fn is_valid_utf8_bytes(v: &Vec<u8>) -> (r: bool)
    ensures
        r == valid_utf8(v@),
{
    let n = v.len();
    let mut i: usize = 0;
    while i < n
        invariant
            n == v@.len(),
            0 <= i <= n,
            partial_valid_utf8(v@, i as int),
        decreases n - i,
    {
        let ghost s = v@.subrange(i as int, n as int);
        let b0: u8 = v[i];
        proof {
            assert(s[0] == b0);
            assert(s.len() == n - i);
        }
        if b0 < 0x80 {
            proof {
                lemma_scalar_width1(s);
                partial_valid_utf8_extend(v@, i as int);
            }
            i += 1;
        } else if b0 < 0xc2 {
            // A continuation byte in leading position, or an overlong
            // two-byte leader (0xc0, 0xc1).
            proof {
                if 0xc0 <= b0 && s.len() >= 2 && is_continuation_byte(s[1]) {
                    let b1 = s[1];
                    assert((0xc0 <= b0 <= 0xc1 && 0x80 <= b1 <= 0xbf) ==> ((((b0 & 0x1f) as u32)
                        << 6) | ((b1 & 0x3f) as u32)) < 0x80) by (bit_vector);
                }
                assert(!valid_first_scalar(s));
                partial_valid_partial_invalid_utf8(v@, i as int);
            }
            return false;
        } else if b0 < 0xe0 {
            if n - i < 2 {
                proof {
                    partial_valid_partial_invalid_utf8(v@, i as int);
                }
                return false;
            }
            let b1: u8 = v[i + 1];
            proof {
                assert(s[1] == b1);
            }
            if b1 < 0x80 || b1 > 0xbf {
                proof {
                    partial_valid_partial_invalid_utf8(v@, i as int);
                }
                return false;
            }
            proof {
                lemma_scalar_width2(s);
                partial_valid_utf8_extend(v@, i as int);
            }
            i += 2;
        } else if b0 < 0xf0 {
            if n - i < 3 {
                proof {
                    partial_valid_partial_invalid_utf8(v@, i as int);
                }
                return false;
            }
            let b1: u8 = v[i + 1];
            let b2: u8 = v[i + 2];
            proof {
                assert(s[1] == b1 && s[2] == b2);
            }
            if b1 < 0x80 || b1 > 0xbf || b2 < 0x80 || b2 > 0xbf {
                proof {
                    partial_valid_partial_invalid_utf8(v@, i as int);
                }
                return false;
            }
            if b0 == 0xe0 && b1 < 0xa0 {
                // Overlong three-byte encoding.
                proof {
                    assert((0x80 <= b1 <= 0xbf && 0x80 <= b2 <= 0xbf && b1 < 0xa0) ==> ((((
                    0xe0u8 & 0x0f) as u32) << 12) | (((b1 & 0x3f) as u32) << 6) | ((
                    b2 & 0x3f) as u32)) < 0x800) by (bit_vector);
                    assert(!valid_first_scalar(s));
                    partial_valid_partial_invalid_utf8(v@, i as int);
                }
                return false;
            }
            if b0 == 0xed && b1 > 0x9f {
                // Encoded codepoint falls in the surrogate range.
                proof {
                    assert((0x80 <= b1 <= 0xbf && 0x80 <= b2 <= 0xbf && b1 > 0x9f) ==> 0xd800 <= ((
                    ((0xedu8 & 0x0f) as u32) << 12) | (((b1 & 0x3f) as u32) << 6) | ((
                    b2 & 0x3f) as u32)) <= 0xdfff) by (bit_vector);
                    assert(!valid_first_scalar(s));
                    partial_valid_partial_invalid_utf8(v@, i as int);
                }
                return false;
            }
            proof {
                lemma_scalar_width3(s);
                partial_valid_utf8_extend(v@, i as int);
            }
            i += 3;
        } else if b0 < 0xf5 {
            if n - i < 4 {
                proof {
                    partial_valid_partial_invalid_utf8(v@, i as int);
                }
                return false;
            }
            let b1: u8 = v[i + 1];
            let b2: u8 = v[i + 2];
            let b3: u8 = v[i + 3];
            proof {
                assert(s[1] == b1 && s[2] == b2 && s[3] == b3);
            }
            if b1 < 0x80 || b1 > 0xbf || b2 < 0x80 || b2 > 0xbf || b3 < 0x80 || b3 > 0xbf {
                proof {
                    partial_valid_partial_invalid_utf8(v@, i as int);
                }
                return false;
            }
            if b0 == 0xf0 && b1 < 0x90 {
                // Overlong four-byte encoding.
                proof {
                    assert((0x80 <= b1 <= 0xbf && b1 < 0x90) ==> ((((0xf0u8 & 0x07) as u32) << 18)
                        | (((b1 & 0x3f) as u32) << 12) | (((b2 & 0x3f) as u32) << 6) | ((
                    b3 & 0x3f) as u32)) < 0x10000) by (bit_vector);
                    assert(!valid_first_scalar(s));
                    partial_valid_partial_invalid_utf8(v@, i as int);
                }
                return false;
            }
            if b0 == 0xf4 && b1 > 0x8f {
                // Codepoint above the Unicode maximum.
                proof {
                    assert((0x80 <= b1 <= 0xbf && b1 > 0x8f) ==> ((((0xf4u8 & 0x07) as u32) << 18)
                        | (((b1 & 0x3f) as u32) << 12) | (((b2 & 0x3f) as u32) << 6) | ((
                    b3 & 0x3f) as u32)) > 0x10ffff) by (bit_vector);
                    assert(!valid_first_scalar(s));
                    partial_valid_partial_invalid_utf8(v@, i as int);
                }
                return false;
            }
            proof {
                lemma_scalar_width4(s);
                partial_valid_utf8_extend(v@, i as int);
            }
            i += 4;
        } else {
            // 0xf5..=0xf7 always encode past the Unicode maximum; 0xf8 and
            // above match no leading-byte form.
            proof {
                if s.len() >= 4 && b0 <= 0xf7 && is_continuation_byte(s[1]) && is_continuation_byte(
                    s[2],
                ) && is_continuation_byte(s[3]) {
                    let b1 = s[1];
                    let b2 = s[2];
                    let b3 = s[3];
                    assert((0xf5 <= b0 <= 0xf7) ==> ((((b0 & 0x07) as u32) << 18) | (((b1
                        & 0x3f) as u32) << 12) | (((b2 & 0x3f) as u32) << 6) | ((b3
                        & 0x3f) as u32)) > 0x10ffff) by (bit_vector);
                }
                assert(!valid_first_scalar(s));
                partial_valid_partial_invalid_utf8(v@, i as int);
            }
            return false;
        }
    }
    proof {
        assert(v@.subrange(0, n as int) =~= v@);
    }
    true
}

} // verus!
