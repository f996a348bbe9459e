//! Wide strings at the windowing-system boundary: UTF-16 encoding with a
//! NUL terminator for text handed to the OS, and recovery of the code units
//! of a NUL-terminated wide string received from it. Turning received code
//! units back into the host's own text encoding is the host's conversion.

use vstd::prelude::*;
use vstd::utf8::{char_is_scalar, is_scalar};

verus! {

/// UTF-16 encoding of one Unicode scalar: a single code unit below
/// 0x10000, a surrogate pair above.
pub open spec fn utf16_encode_char(c: char) -> Seq<u16> {
    let v = c as u32;
    if v < 0x10000 {
        seq![v as u16]
    } else {
        seq![
            (0xd800 + ((v - 0x10000) / 0x400)) as u16,
            (0xdc00 + ((v - 0x10000) % 0x400)) as u16,
        ]
    }
}

/// UTF-16 encoding of a character sequence.
pub open spec fn utf16_encode(s: Seq<char>) -> Seq<u16>
    decreases s.len(),
{
    if s.len() == 0 {
        seq![]
    } else {
        utf16_encode_char(s[0]) + utf16_encode(s.skip(1))
    }
}

proof fn lemma_utf16_encode_push(s: Seq<char>, c: char)
    ensures
        utf16_encode(s.push(c)) == utf16_encode(s) + utf16_encode_char(c),
    decreases s.len(),
{
    if s.len() == 0 {
        assert(s.push(c)[0] == c);
        assert(s.push(c).skip(1) =~= Seq::<char>::empty());
        assert(utf16_encode(s.push(c).skip(1)) == Seq::<u16>::empty());
        assert(utf16_encode(s.push(c)) == utf16_encode_char(c) + utf16_encode(s.push(c).skip(1)));
        assert(utf16_encode(s.push(c)) =~= utf16_encode(s) + utf16_encode_char(c));
    } else {
        assert(s.push(c)[0] == s[0]);
        assert(s.push(c).skip(1) =~= s.skip(1).push(c));
        lemma_utf16_encode_push(s.skip(1), c);
        assert(utf16_encode(s.push(c)) =~= utf16_encode(s) + utf16_encode_char(c));
    }
}

/// Encodes the text as UTF-16 and appends the NUL terminator, the form the
/// OS's wide-string calls take.
pub fn to_wstring(s: &Vec<char>) -> (r: Vec<u16>)
    ensures
        r@ == utf16_encode(s@).push(0u16),
{
    let mut r: Vec<u16> = Vec::new();
    let mut i: usize = 0;
    while i < s.len()
        invariant
            0 <= i <= s@.len(),
            r@ == utf16_encode(s@.take(i as int)),
        decreases s@.len() - i,
    {
        let c: char = s[i];
        let v: u32 = c as u32;
        proof {
            char_is_scalar(c);
            assert(is_scalar(v));
        }
        if v < 0x10000 {
            r.push(v as u16);
        } else {
            let w: u32 = v - 0x10000;
            proof {
                assert(w <= 0xfffff);
                assert(w / 0x400 <= 0x3ff) by (nonlinear_arith)
                    requires
                        w <= 0xfffff,
                ;
                assert(w % 0x400 <= 0x3ff) by (nonlinear_arith);
            }
            r.push((0xd800 + (w / 0x400)) as u16);
            r.push((0xdc00 + (w % 0x400)) as u16);
        }
        proof {
            assert(s@.take(i + 1) =~= s@.take(i as int).push(s@[i as int]));
            lemma_utf16_encode_push(s@.take(i as int), s@[i as int]);
            assert(r@ =~= utf16_encode(s@.take(i + 1)));
        }
        i += 1;
    }
    proof {
        assert(s@.take(s@.len() as int) =~= s@);
    }
    r.push(0u16);
    r
}

/// Reads a NUL-terminated wide string received from the OS: returns the
/// code units strictly before the first NUL terminator.
pub fn nul_terminated_prefix(wide: &Vec<u16>) -> (r: Vec<u16>)
    requires
        wide@.contains(0u16),
    ensures
        r@.len() < wide@.len(),
        r@ == wide@.take(r@.len() as int),
        !r@.contains(0u16),
        wide@[r@.len() as int] == 0u16,
{
    let mut r: Vec<u16> = Vec::new();
    let mut i: usize = 0;
    let n: usize = wide.len();
    while wide[i] != 0
        invariant
            wide@.contains(0u16),
            n == wide@.len(),
            0 <= i < wide@.len(),
            i == r@.len(),
            r@ == wide@.take(i as int),
            !r@.contains(0u16),
            exists|k: int| i <= k < wide@.len() && wide@[k] == 0u16,
        decreases wide@.len() - i,
    {
        r.push(wide[i]);
        proof {
            assert(r@ =~= wide@.take(i + 1));
            let k = choose|k: int| i <= k < wide@.len() && wide@[k] == 0u16;
            assert(k != i);
            assert(i + 1 <= k < wide@.len() && wide@[k] == 0u16);
            assert(!r@.contains(0u16)) by {
                assert(forall|j: int|
                    0 <= j < r@.len() ==> r@[j] == wide@.take(i + 1)[j] && r@[j] != 0u16);
            }
        }
        i += 1;
    }
    r
}

} // verus!
