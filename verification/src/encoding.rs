//! UTF-8 validation of bytes read back through the boundary.
//!
//! The host interprets bytes it copies out of guest linear memory as
//! UTF-8. The guest is untrusted, so the host must check the bytes before
//! treating them as text; `validate_utf8` decides validity and is verified
//! against vstd's specification of the encoding.
use vstd::prelude::*;
use vstd::utf8::*;

verus! {

/// Decides whether `bytes` form a valid UTF-8 encoding, scanning one
/// encoded scalar at a time.
pub fn validate_utf8(bytes: &[u8]) -> (r: bool)
    ensures
        r == valid_utf8(bytes@),
{
    let n = bytes.len();
    let mut i: usize = 0;
    proof {
        assert(bytes@.skip(0) =~= bytes@);
    }
    while i < n
        invariant
            i <= n,
            n == bytes@.len(),
            valid_utf8(bytes@) == valid_utf8(bytes@.skip(i as int)),
        decreases n - i,
    {
        let ghost rest = bytes@.skip(i as int);
        proof {
            assert(forall|k: int| 0 <= k < rest.len() ==> rest[k] == bytes@[i + k]);
        }
        let b0 = bytes[i];
        let width: usize;
        if b0 <= 0x7f {
            width = 1;
        } else if 0xc0 <= b0 && b0 <= 0xdf {
            width = 2;
        } else if 0xe0 <= b0 && b0 <= 0xef {
            width = 3;
        } else if 0xf0 <= b0 && b0 <= 0xf7 {
            width = 4;
        } else {
            // No leading-byte bit pattern matches: a stray continuation
            // byte or a byte no encoding uses.
            proof {
                assert(!valid_leading_and_continuation_bytes_first_codepoint(rest));
            }
            return false;
        }
        if n - i < width {
            // The sequence ends in the middle of an encoded scalar.
            proof {
                assert(!valid_leading_and_continuation_bytes_first_codepoint(rest));
            }
            return false;
        }
        let cp: u32;
        if width == 1 {
            cp = (b0 & 0x7f) as u32;
        } else if width == 2 {
            let b1 = bytes[i + 1];
            if !(0x80 <= b1 && b1 <= 0xbf) {
                proof {
                    assert(!valid_leading_and_continuation_bytes_first_codepoint(rest));
                }
                return false;
            }
            cp = (((b0 & 0x1f) as u32) << 6) | ((b1 & 0x3f) as u32);
        } else if width == 3 {
            let b1 = bytes[i + 1];
            let b2 = bytes[i + 2];
            if !(0x80 <= b1 && b1 <= 0xbf) || !(0x80 <= b2 && b2 <= 0xbf) {
                proof {
                    assert(!valid_leading_and_continuation_bytes_first_codepoint(rest));
                }
                return false;
            }
            cp = (((b0 & 0x0f) as u32) << 12) | (((b1 & 0x3f) as u32) << 6) | ((b2
                & 0x3f) as u32);
        } else {
            let b1 = bytes[i + 1];
            let b2 = bytes[i + 2];
            let b3 = bytes[i + 3];
            if !(0x80 <= b1 && b1 <= 0xbf) || !(0x80 <= b2 && b2 <= 0xbf) || !(0x80 <= b3 && b3
                <= 0xbf) {
                proof {
                    assert(!valid_leading_and_continuation_bytes_first_codepoint(rest));
                }
                return false;
            }
            cp = (((b0 & 0x07) as u32) << 18) | (((b1 & 0x3f) as u32) << 12) | (((b2
                & 0x3f) as u32) << 6) | ((b3 & 0x3f) as u32);
        }
        proof {
            assert(valid_leading_and_continuation_bytes_first_codepoint(rest));
            assert(length_of_first_codepoint(rest) == width);
            assert(decode_first_codepoint(rest) == cp);
        }
        // Overlong encodings use more bytes than the value needs; the
        // 4-byte form is also capped at the last Unicode scalar.
        if width == 2 && cp < 0x80 {
            return false;
        }
        if width == 3 && cp < 0x800 {
            return false;
        }
        if width == 4 && !(0x10000 <= cp && cp <= 0x10ffff) {
            return false;
        }
        // The surrogate range encodes no scalar.
        if 0xd800 <= cp && cp <= 0xdfff {
            return false;
        }
        proof {
            assert(valid_first_scalar(rest));
            assert(pop_first_scalar(rest) =~= bytes@.skip(i + width));
        }
        i = i + width;
    }
    proof {
        assert(bytes@.skip(n as int) =~= Seq::<u8>::empty());
    }
    true
}

/// Bytes that are all ASCII form a valid UTF-8 encoding: each byte is a
/// complete 1-byte scalar.
pub proof fn lemma_ascii_valid_utf8(bytes: Seq<u8>)
    requires
        forall|k: int| 0 <= k < bytes.len() ==> bytes[k] <= 0x7f,
    ensures
        valid_utf8(bytes),
    decreases bytes.len(),
{
    if bytes.len() != 0 {
        let b = bytes[0];
        assert(b & 0x7f <= 0x7f) by (bit_vector);
        assert(valid_first_scalar(bytes));
        assert(pop_first_scalar(bytes) =~= bytes.skip(1));
        lemma_ascii_valid_utf8(bytes.skip(1));
    }
}

/// Relies on `alloc::string::String::from_utf8`: on UTF-8 valid bytes it
/// returns, without copying, the string whose byte representation is
/// exactly those bytes, that is, the sequence of characters they encode.
#[verifier::external_body]
pub(crate) fn utf8_to_string(bytes: Vec<u8>) -> (r: String)
    requires
        valid_utf8(bytes@),
    ensures
        r@ == decode_utf8(bytes@),
{
    String::from_utf8(bytes).unwrap()
}

} // verus!
