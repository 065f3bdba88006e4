//! Wide-string conversion: the channel's endpoint name, and every other
//! string handed to the system, crosses as UTF-16 code units.

use vstd::prelude::*;

verus! {

/// The UTF-16 code units of one character: one unit below the supplementary
/// planes, else a high and a low surrogate.
pub open spec fn spec_utf16_units(c: char) -> Seq<u16> {
    if (c as u32) < 0x10000 {
        seq![(c as u32) as u16]
    } else {
        let v = ((c as u32) - 0x10000) as u32;
        seq![(0xD800 + (v >> 10)) as u16, (0xDC00 + (v & 0x3FF)) as u16]
    }
}

/// The UTF-16 code units of a string, character by character, in order.
pub open spec fn spec_utf16(s: Seq<char>) -> Seq<u16>
    decreases s.len(),
{
    if s.len() == 0 {
        Seq::empty()
    } else {
        spec_utf16(s.drop_last()) + spec_utf16_units(s.last())
    }
}

/// The string's UTF-16 code units, without a terminator.
pub fn str_to_u16_vec_no_trailing_zero(a: &str) -> (r: Vec<u16>)
    ensures
        r@ == spec_utf16(a@),
{
    let len = a.unicode_len();
    let mut out: Vec<u16> = Vec::new();
    let mut i: usize = 0;
    proof {
        assert(a@.take(0) =~= Seq::<char>::empty());
    }
    while i < len
        invariant
            0 <= i <= len,
            len == a@.len(),
            out@ == spec_utf16(a@.take(i as int)),
        decreases len - i,
    {
        let c = a.get_char(i);
        let cv: u32 = c as u32;
        assert(cv <= 0x10FFFF);
        if cv < 0x10000 {
            out.push(cv as u16);
        } else {
            let v: u32 = cv - 0x10000;
            assert(v >> 10 <= 0x3FF) by (bit_vector)
                requires
                    v <= 0xFFFFF,
            ;
            assert(v & 0x3FF <= 0x3FF) by (bit_vector);
            out.push((0xD800 + (v >> 10)) as u16);
            out.push((0xDC00 + (v & 0x3FF)) as u16);
        }
        proof {
            assert(a@.take(i + 1).drop_last() =~= a@.take(i as int));
            assert(a@.take(i + 1).last() == a@[i as int]);
            assert(out@ =~= spec_utf16(a@.take(i + 1)));
        }
        i = i + 1;
    }
    proof {
        assert(a@.take(len as int) =~= a@);
    }
    out
}

/// The string's UTF-16 code units with the zero terminator the system's
/// wide-string calls expect.
pub fn str_to_u16_vec(a: &str) -> (r: Vec<u16>)
    ensures
        r@ == spec_utf16(a@).push(0u16),
        r@.len() == spec_utf16(a@).len() + 1,
{
    let mut out = str_to_u16_vec_no_trailing_zero(a);
    out.push(0u16);
    out
}

} // verus!
