//! The fixed-layout parameter record handed to the injected module, and its
//! wire encoding.
//!
//! The layout is a contract shared with the injected module: an 8-byte
//! little-endian window-handle value, then a 4-byte little-endian affinity
//! code, then the 4 bytes of natural-alignment tail padding the in-memory
//! record carries, sent as zero. Nothing may be reordered or padded
//! differently.

use vstd::prelude::*;
use crate::capture::WDA_EXCLUDEFROMCAPTURE;

verus! {

/// Size of the wire record in bytes: handle, affinity, tail padding.
pub const RECORD_SIZE: usize = 16;

/// The one record written over the parameter channel: which window to act
/// on and which capture-affinity value to apply to it.
#[derive(Clone, Copy, PartialEq, Eq, Structural, Debug)]
pub struct InjectionParameters {
    /// Handle value of the target window.
    pub target_window: u64,
    /// Affinity code the injected module applies to that window.
    pub desired_affinity: u32,
}

impl InjectionParameters {
    /// The record for one hide attempt: the target window with the
    /// "excluded from capture" affinity.
    pub fn exclude_from_capture(target_window: u64) -> (r: InjectionParameters)
        ensures
            r.target_window == target_window,
            r.desired_affinity == WDA_EXCLUDEFROMCAPTURE,
    {
        InjectionParameters { target_window, desired_affinity: WDA_EXCLUDEFROMCAPTURE }
    }

    /// The record's bytes on the wire, least-significant byte first within
    /// each field, padding zero.
    pub open spec fn spec_encode(self) -> Seq<u8> {
        seq![
            (self.target_window & 0xff) as u8,
            ((self.target_window >> 8) & 0xff) as u8,
            ((self.target_window >> 16) & 0xff) as u8,
            ((self.target_window >> 24) & 0xff) as u8,
            ((self.target_window >> 32) & 0xff) as u8,
            ((self.target_window >> 40) & 0xff) as u8,
            ((self.target_window >> 48) & 0xff) as u8,
            ((self.target_window >> 56) & 0xff) as u8,
            (self.desired_affinity & 0xff) as u8,
            ((self.desired_affinity >> 8) & 0xff) as u8,
            ((self.desired_affinity >> 16) & 0xff) as u8,
            ((self.desired_affinity >> 24) & 0xff) as u8,
            0u8,
            0u8,
            0u8,
            0u8,
        ]
    }

    /// Serialise the record for the single channel write.
    pub fn encode(&self) -> (r: Vec<u8>)
        ensures
            r@ == self.spec_encode(),
            r@.len() == RECORD_SIZE,
    {
        let mut out: Vec<u8> = Vec::new();
        out.push((self.target_window & 0xff) as u8);
        out.push(((self.target_window >> 8) & 0xff) as u8);
        out.push(((self.target_window >> 16) & 0xff) as u8);
        out.push(((self.target_window >> 24) & 0xff) as u8);
        out.push(((self.target_window >> 32) & 0xff) as u8);
        out.push(((self.target_window >> 40) & 0xff) as u8);
        out.push(((self.target_window >> 48) & 0xff) as u8);
        out.push(((self.target_window >> 56) & 0xff) as u8);
        out.push((self.desired_affinity & 0xff) as u8);
        out.push(((self.desired_affinity >> 8) & 0xff) as u8);
        out.push(((self.desired_affinity >> 16) & 0xff) as u8);
        out.push(((self.desired_affinity >> 24) & 0xff) as u8);
        out.push(0u8);
        out.push(0u8);
        out.push(0u8);
        out.push(0u8);
        proof {
            assert(out@ =~= self.spec_encode());
        }
        out
    }

    /// The record a well-formed run of wire bytes denotes.
    pub open spec fn spec_decode(s: Seq<u8>) -> InjectionParameters {
        InjectionParameters {
            target_window: (s[0] as u64) | (s[1] as u64) << 8 | (s[2] as u64) << 16 | (s[3] as u64)
                << 24 | (s[4] as u64) << 32 | (s[5] as u64) << 40 | (s[6] as u64) << 48 | (
            s[7] as u64) << 56,
            desired_affinity: (s[8] as u32) | (s[9] as u32) << 8 | (s[10] as u32) << 16 | (
            s[11] as u32) << 24,
        }
    }

    /// Read a record back from wire bytes; nothing unless the run has
    /// exactly the record size.
    pub fn decode(bytes: &Vec<u8>) -> (r: Option<InjectionParameters>)
        ensures
            r is Some <==> bytes@.len() == RECORD_SIZE,
            r matches Some(p) ==> p == Self::spec_decode(bytes@),
    {
        if bytes.len() != RECORD_SIZE {
            return None;
        }
        let target_window: u64 = (bytes[0] as u64) | (bytes[1] as u64) << 8 | (bytes[2] as u64)
            << 16 | (bytes[3] as u64) << 24 | (bytes[4] as u64) << 32 | (bytes[5] as u64) << 40 | (
        bytes[6] as u64) << 48 | (bytes[7] as u64) << 56;
        let desired_affinity: u32 = (bytes[8] as u32) | (bytes[9] as u32) << 8 | (bytes[10] as u32)
            << 16 | (bytes[11] as u32) << 24;
        Some(InjectionParameters { target_window, desired_affinity })
    }
}

/// A 64-bit value is exactly the little-endian composition of its eight
/// bytes.
proof fn lemma_u64_byte_round_trip(x: u64)
    ensures
        ((x & 0xff) as u8 as u64) | (((x >> 8) & 0xff) as u8 as u64) << 8 | (((x >> 16)
            & 0xff) as u8 as u64) << 16 | (((x >> 24) & 0xff) as u8 as u64) << 24 | (((x >> 32)
            & 0xff) as u8 as u64) << 32 | (((x >> 40) & 0xff) as u8 as u64) << 40 | (((x >> 48)
            & 0xff) as u8 as u64) << 48 | (((x >> 56) & 0xff) as u8 as u64) << 56 == x,
{
    assert(((x & 0xff) as u8 as u64) | (((x >> 8) & 0xff) as u8 as u64) << 8 | (((x >> 16)
        & 0xff) as u8 as u64) << 16 | (((x >> 24) & 0xff) as u8 as u64) << 24 | (((x >> 32)
        & 0xff) as u8 as u64) << 32 | (((x >> 40) & 0xff) as u8 as u64) << 40 | (((x >> 48)
        & 0xff) as u8 as u64) << 48 | (((x >> 56) & 0xff) as u8 as u64) << 56 == x) by (bit_vector);
}

/// A 32-bit value is exactly the little-endian composition of its four
/// bytes.
proof fn lemma_u32_byte_round_trip(x: u32)
    ensures
        ((x & 0xff) as u8 as u32) | (((x >> 8) & 0xff) as u8 as u32) << 8 | (((x >> 16)
            & 0xff) as u8 as u32) << 16 | (((x >> 24) & 0xff) as u8 as u32) << 24 == x,
{
    assert(((x & 0xff) as u8 as u32) | (((x >> 8) & 0xff) as u8 as u32) << 8 | (((x >> 16)
        & 0xff) as u8 as u32) << 16 | (((x >> 24) & 0xff) as u8 as u32) << 24 == x) by (bit_vector);
}

/// The wire layout is faithful: decoding an encoded record gives the record
/// back, so no information is reordered or lost on the wire.
pub proof fn lemma_record_round_trip(p: InjectionParameters)
    ensures
        InjectionParameters::spec_decode(p.spec_encode()) == p,
{
    lemma_u64_byte_round_trip(p.target_window);
    lemma_u32_byte_round_trip(p.desired_affinity);
}

} // verus!
