//! The relative pointer: the address-independent pointer primitive.
//!
//! A relative pointer stored at buffer position `p` holds a signed 32-bit
//! byte displacement `offset` and 32-bit `metadata` for its unsized pointee
//! (for a slice, the element count). It designates the buffer position
//! `p + offset`. Because the displacement is relative to the pointer's own
//! storage position, the whole buffer can be moved without rewriting any
//! pointer.
//!
//! On the wire a relative pointer occupies [`REL_PTR_SIZE`] bytes: the
//! offset as a little-endian two's-complement 32-bit value, then the
//! metadata as a little-endian 32-bit value.

use vstd::prelude::*;
use vstd::bytes::{
    lemma_auto_spec_u32_to_from_le_bytes, spec_u32_from_le_bytes, spec_u32_to_le_bytes,
    u32_from_le_bytes, u32_to_le_bytes,
};
use vstd::slice::slice_subrange;
use crate::Error;

verus! {

/// The number of bytes a relative pointer occupies on the wire.
pub const REL_PTR_SIZE: usize = 8;

/// The smallest displacement the 32-bit offset field can hold.
pub const OFFSET_MIN: i64 = -0x8000_0000;

/// The largest displacement the 32-bit offset field can hold.
pub const OFFSET_MAX: i64 = 0x7fff_ffff;

/// A pointer encoded as a byte displacement from its own storage position,
/// together with the pointee's metadata.
#[derive(Clone, Copy, Debug, PartialEq, Eq, Structural)]
pub struct RelPtr {
    /// Byte displacement from this pointer's own storage position.
    pub offset: i32,
    /// Metadata of the unsized pointee (for a slice, its element count).
    pub metadata: u32,
}

impl RelPtr {
    /// The buffer position this pointer designates when stored at
    /// `self_pos`.
    pub open spec fn target(self, self_pos: int) -> int {
        self_pos + self.offset
    }

    /// Computes the relative pointer that, stored at `out_pos`, designates
    /// `position` with the given pointee `metadata`.
    ///
    /// The displacement `position - out_pos` must fit the 32-bit offset
    /// field; exceeding it is a hard serialization error.
    pub fn emplace_unsized(position: usize, metadata: u32, out_pos: usize) -> (r: Result<
        RelPtr,
        Error,
    >)
        ensures
            r matches Ok(p) ==> {
                &&& OFFSET_MIN <= position - out_pos <= OFFSET_MAX
                &&& p.offset == position - out_pos
                &&& p.metadata == metadata
            },
            r is Err ==> !(OFFSET_MIN <= position - out_pos <= OFFSET_MAX),
            r is Err ==> r == Err::<RelPtr, Error>(Error::OffsetOutOfRange),
    {
        let diff: i128 = position as i128 - out_pos as i128;
        if OFFSET_MIN as i128 <= diff && diff <= OFFSET_MAX as i128 {
            Ok(RelPtr { offset: diff as i32, metadata })
        } else {
            Err(Error::OffsetOutOfRange)
        }
    }

    /// The wire encoding of this pointer: offset then metadata, each as four
    /// little-endian bytes.
    pub open spec fn spec_bytes(self) -> Seq<u8> {
        spec_u32_to_le_bytes(spec_offset_to_u32(self.offset as int) as u32) + spec_u32_to_le_bytes(
            self.metadata,
        )
    }

    /// The pointer encoded by eight wire bytes.
    pub open spec fn spec_parse(s: Seq<u8>) -> RelPtr
        recommends
            s.len() == REL_PTR_SIZE,
    {
        RelPtr {
            offset: spec_u32_to_offset(spec_u32_from_le_bytes(s.subrange(0, 4)) as int) as i32,
            metadata: spec_u32_from_le_bytes(s.subrange(4, 8)),
        }
    }

    /// Encodes this pointer into its eight wire bytes.
    pub fn to_bytes(&self) -> (r: Vec<u8>)
        ensures
            r@ == self.spec_bytes(),
            r@.len() == REL_PTR_SIZE,
    {
        proof {
            lemma_auto_spec_u32_to_from_le_bytes();
        }
        let mut r = u32_to_le_bytes(offset_to_u32(self.offset));
        let mut meta = u32_to_le_bytes(self.metadata);
        r.append(&mut meta);
        r
    }

    /// Decodes the pointer stored at position `pos` of `bytes`.
    pub fn parse(bytes: &[u8], pos: usize) -> (r: RelPtr)
        requires
            pos + REL_PTR_SIZE <= bytes@.len(),
        ensures
            r == Self::spec_parse(bytes@.subrange(pos as int, pos + REL_PTR_SIZE)),
    {
        let _len = bytes.len();
        let off_bytes = slice_subrange(bytes, pos, pos + 4);
        let meta_bytes = slice_subrange(bytes, pos + 4, pos + 8);
        let r = RelPtr {
            offset: u32_to_offset(u32_from_le_bytes(off_bytes)),
            metadata: u32_from_le_bytes(meta_bytes),
        };
        proof {
            let s = bytes@.subrange(pos as int, pos + REL_PTR_SIZE);
            assert(off_bytes@ =~= s.subrange(0, 4));
            assert(meta_bytes@ =~= s.subrange(4, 8));
        }
        r
    }

    /// Round trip: parsing the wire bytes of a pointer gives the pointer back.
    pub proof fn lemma_bytes_parse_round_trip(self)
        ensures
            Self::spec_parse(self.spec_bytes()) == self,
            self.spec_bytes().len() == REL_PTR_SIZE,
    {
        lemma_auto_spec_u32_to_from_le_bytes();
        let s = self.spec_bytes();
        assert(s.subrange(0, 4) =~= spec_u32_to_le_bytes(
            spec_offset_to_u32(self.offset as int) as u32,
        ));
        assert(s.subrange(4, 8) =~= spec_u32_to_le_bytes(self.metadata));
    }
}

/// The unsigned 32-bit two's-complement representation of a signed offset.
pub open spec fn spec_offset_to_u32(off: int) -> int {
    if off >= 0 {
        off
    } else {
        off + 0x1_0000_0000
    }
}

/// The signed offset represented by an unsigned 32-bit two's-complement
/// value.
pub open spec fn spec_u32_to_offset(u: int) -> int {
    if u <= 0x7fff_ffff {
        u
    } else {
        u - 0x1_0000_0000
    }
}

fn offset_to_u32(off: i32) -> (r: u32)
    ensures
        r as int == spec_offset_to_u32(off as int),
{
    if off >= 0 {
        off as u32
    } else {
        let magnitude: u64 = (-(off as i64)) as u64;
        (0x1_0000_0000u64 - magnitude) as u32
    }
}

fn u32_to_offset(u: u32) -> (r: i32)
    ensures
        r as int == spec_u32_to_offset(u as int),
{
    if u <= 0x7fff_ffff {
        u as i32
    } else {
        (u as i64 - 0x1_0000_0000i64) as i32
    }
}

} // verus!
