//! URL routing: recognising the inline-content scheme and percent-decoding
//! its payload.

use vstd::prelude::*;

verus! {

/// A byte is an ASCII hexadecimal digit (`0-9`, `A-F` or `a-f`).
pub open spec fn is_hex_digit(b: u8) -> bool {
    (0x30 <= b <= 0x39) || (0x41 <= b <= 0x46) || (0x61 <= b <= 0x66)
}

/// Numeric value of an ASCII hexadecimal digit.
pub open spec fn hex_value(b: u8) -> u8
    recommends
        is_hex_digit(b),
{
    if 0x30 <= b <= 0x39 {
        (b - 0x30) as u8
    } else if 0x41 <= b <= 0x46 {
        ((b - 0x41) + 10) as u8
    } else {
        ((b - 0x61) + 10) as u8
    }
}

/// Percent-decoding: every `%` followed by two hexadecimal digits becomes
/// the byte those digits spell; every other byte passes through unchanged.
/// A `%` not followed by two hexadecimal digits passes through as itself.
pub open spec fn percent_decode_spec(s: Seq<u8>) -> Seq<u8>
    decreases s.len(),
{
    if s.len() == 0 {
        seq![]
    } else if s[0] == 0x25 && s.len() >= 3 && is_hex_digit(s[1]) && is_hex_digit(s[2]) {
        seq![(16 * hex_value(s[1]) + hex_value(s[2])) as u8] + percent_decode_spec(s.skip(3))
    } else {
        seq![s[0]] + percent_decode_spec(s.skip(1))
    }
}

/// Relies on `percent_encoding::percent_decode`: any `%` followed by two
/// hexadecimal digits is decoded to the byte they spell; a `%` not followed
/// by two hexadecimal digits, and every other byte, passes through unchanged.
#[verifier::external_body]
pub(crate) fn percent_decode_bytes(s: &Vec<u8>) -> (r: Vec<u8>)
    ensures
        r@ == percent_decode_spec(s@),
{
    percent_encoding::percent_decode(s.as_slice()).collect()
}

/// The bytes of `data:text/html,`, the scheme prefix that marks a URL as
/// carrying inline document content.
pub open spec fn data_prefix() -> Seq<u8> {
    seq![
        0x64u8, 0x61u8, 0x74u8, 0x61u8, 0x3au8, 0x74u8, 0x65u8, 0x78u8, 0x74u8, 0x2fu8, 0x68u8,
        0x74u8, 0x6du8, 0x6cu8, 0x2cu8,
    ]
}

/// A URL selects inline-content mode when it starts with the inline scheme
/// prefix.
pub open spec fn is_inline_url(url: Seq<u8>) -> bool {
    url.len() >= 15 && url.subrange(0, 15) == data_prefix()
}

/// The document content carried by an inline-content URL: everything after
/// the scheme prefix, percent-decoded.
pub open spec fn inline_payload(url: Seq<u8>) -> Seq<u8>
    recommends
        is_inline_url(url),
{
    percent_decode_spec(url.skip(15))
}

/// Decides whether a URL selects inline-content mode.
pub fn has_inline_prefix(url: &Vec<u8>) -> (r: bool)
    ensures
        r == is_inline_url(url@),
{
    let prefix: Vec<u8> = vec![
        0x64u8, 0x61u8, 0x74u8, 0x61u8, 0x3au8, 0x74u8, 0x65u8, 0x78u8, 0x74u8, 0x2fu8, 0x68u8,
        0x74u8, 0x6du8, 0x6cu8, 0x2cu8,
    ];
    proof {
        assert(prefix@ =~= data_prefix());
    }
    if url.len() < 15 {
        return false;
    }
    let mut i: usize = 0;
    while i < 15
        invariant
            prefix@ =~= data_prefix(),
            prefix@.len() == 15,
            url@.len() >= 15,
            0 <= i <= 15,
            forall|j: int| 0 <= j < i ==> url@[j] == data_prefix()[j],
        decreases 15 - i,
    {
        if url[i] != prefix[i] {
            proof {
                assert(url@.subrange(0, 15)[i as int] == url@[i as int]);
                assert(url@.subrange(0, 15) != data_prefix());
            }
            return false;
        }
        i += 1;
    }
    proof {
        assert(url@.subrange(0, 15) =~= data_prefix());
    }
    true
}

/// Copies the bytes of `v` from position `start` on.
pub fn bytes_from(v: &Vec<u8>, start: usize) -> (r: Vec<u8>)
    requires
        start <= v@.len(),
    ensures
        r@ == v@.skip(start as int),
{
    let mut r: Vec<u8> = Vec::new();
    let mut i: usize = start;
    while i < v.len()
        invariant
            start <= i <= v@.len(),
            r@ =~= v@.subrange(start as int, i as int),
        decreases v@.len() - i,
    {
        r.push(v[i]);
        i += 1;
    }
    proof {
        assert(r@ =~= v@.skip(start as int));
    }
    r
}

} // verus!
