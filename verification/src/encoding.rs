//! Encoding
//!
//! How terminal literals turn into the input units they are compared
//! against: fixed-width numeric literals into their big- or little-endian
//! bytes, characters into their UTF-8 bytes, and the element-by-element
//! comparison that terminal matching runs on the input.

use crate::symbols::Element;
use vstd::prelude::*;
use vstd::utf8::encode_scalar;

verus! {

/// The little-endian encoding of `v`, `width` bytes long: least
/// significant byte first.
pub open spec fn spec_le_bytes(v: int, width: nat) -> Seq<u8>
    decreases width,
{
    if width == 0 {
        Seq::empty()
    } else {
        seq![(v % 256) as u8] + spec_le_bytes(v / 256, (width - 1) as nat)
    }
}

/// The big-endian encoding of `v`, `width` bytes long: most significant
/// byte first.
pub open spec fn spec_be_bytes(v: int, width: nat) -> Seq<u8>
    decreases width,
{
    if width == 0 {
        Seq::empty()
    } else {
        spec_be_bytes(v / 256, (width - 1) as nat) + seq![(v % 256) as u8]
    }
}

/// The little-endian bytes of `v`, `width` bytes long.
pub fn le_bytes(v: u128, width: usize) -> (out: Vec<u8>)
    ensures
        out@ == spec_le_bytes(v as int, width as nat),
    decreases width,
{
    if width == 0 {
        let out: Vec<u8> = Vec::new();
        proof {
            assert(out@ =~= spec_le_bytes(v as int, 0));
        }
        out
    } else {
        let mut out: Vec<u8> = Vec::new();
        out.push((v % 256) as u8);
        let mut rest = le_bytes(v / 256, width - 1);
        out.append(&mut rest);
        proof {
            assert(out@ =~= spec_le_bytes(v as int, width as nat));
        }
        out
    }
}

/// The big-endian bytes of `v`, `width` bytes long.
pub fn be_bytes(v: u128, width: usize) -> (out: Vec<u8>)
    ensures
        out@ == spec_be_bytes(v as int, width as nat),
    decreases width,
{
    if width == 0 {
        let out: Vec<u8> = Vec::new();
        proof {
            assert(out@ =~= spec_be_bytes(v as int, 0));
        }
        out
    } else {
        let mut out = be_bytes(v / 256, width - 1);
        out.push((v % 256) as u8);
        proof {
            assert(out@ =~= spec_be_bytes(v as int, width as nat));
        }
        out
    }
}

/// The UTF-8 bytes of one character, as [`vstd::utf8::encode_scalar`]
/// describes them.
pub fn encode_scalar_bytes(c: char) -> (out: Vec<u8>)
    ensures
        out@ == encode_scalar(c as u32),
{
    proof {
        vstd::utf8::char_is_scalar(c);
    }
    let u = c as u32;
    let mut out: Vec<u8> = Vec::new();
    if u <= 0x7F {
        out.push((u & 0x7F) as u8);
    } else if u <= 0x7FF {
        out.push(0xC0u8 | ((u >> 6) & 0x1F) as u8);
        out.push(0x80u8 | (u & 0x3F) as u8);
    } else if u <= 0xFFFF {
        out.push(0xE0u8 | ((u >> 12) & 0x0F) as u8);
        out.push(0x80u8 | ((u >> 6) & 0x3F) as u8);
        out.push(0x80u8 | (u & 0x3F) as u8);
    } else {
        out.push(0xF0u8 | ((u >> 18) & 0x7) as u8);
        out.push(0x80u8 | ((u >> 12) & 0x3F) as u8);
        out.push(0x80u8 | ((u >> 6) & 0x3F) as u8);
        out.push(0x80u8 | (u & 0x3F) as u8);
    }
    proof {
        assert(out@ =~= encode_scalar(c as u32));
    }
    out
}

/// Compares `lit` against the input at `start`, element by element.
pub fn slice_eq_at<T: Element>(input: &[T], start: usize, lit: &Vec<T>) -> (b: bool)
    requires
        start + lit@.len() <= input@.len(),
    ensures
        b == (input@.subrange(start as int, start as int + lit@.len() as int) == lit@),
{
    let ghost s = start as int;
    let ghost n = lit@.len() as int;
    let input_len = input.len();
    let mut i: usize = 0;
    while i < lit.len()
        invariant
            i <= lit@.len(),
            s == start as int,
            n == lit@.len() as int,
            s + n <= input@.len(),
            input_len == input@.len(),
            forall|j: int| 0 <= j < i ==> input@[s + j] == lit@[j],
        decreases lit@.len() - i,
    {
        if !(input[start + i].elem_eq(&lit[i])) {
            proof {
                assert(input@.subrange(s, s + n)[i as int] == input@[s + i as int]);
            }
            return false;
        }
        i = i + 1;
    }
    proof {
        assert(input@.subrange(s, s + n) =~= lit@);
    }
    true
}

} // verus!
