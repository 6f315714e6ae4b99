//! Safe entry points: serialize a value into a buffer, and validate a
//! buffer before borrowing from it.
//!
//! Root-finding convention: for a root of fixed size `S`, the root record
//! occupies the last `S` bytes of the buffer; callers may also address a
//! root at an explicit byte position. Validation failure means the buffer
//! is treated as entirely untrusted and nothing borrowed from it is ever
//! produced.

use vstd::prelude::*;
use vstd::slice::slice_to_vec;
use crate::boxed::{spec_box_verifiable, ArchivedBox, BoxResolver};
use crate::rel_ptr::{RelPtr, OFFSET_MAX, REL_PTR_SIZE};
use crate::ser::{BufferAllocator, Composite, Positional, Sharing, Unify, VecWriter, Writer};
use crate::validation::{
    bounds_check_subtree_base_offset, push_prefix_subtree, ArchiveContext, DefaultValidator,
};
use crate::Error;

verus! {

/// The relative pointer of a root record placed directly after its pointee:
/// it points back over the pointee's bytes.
pub open spec fn spec_root_rel_ptr(v: Seq<u8>) -> RelPtr {
    RelPtr { offset: (0 - v.len()) as i32, metadata: v.len() as u32 }
}

/// The buffer produced by serializing `v` as a boxed root into an empty
/// writer: the pointee's bytes, then the root record.
pub open spec fn spec_to_bytes(v: Seq<u8>) -> Seq<u8> {
    v + spec_root_rel_ptr(v).spec_bytes()
}

/// The position of the root record in a buffer of `len` bytes: the last
/// [`REL_PTR_SIZE`] bytes.
pub open spec fn spec_root_pos(len: int) -> int {
    if len >= REL_PTR_SIZE {
        len - REL_PTR_SIZE
    } else {
        0
    }
}

/// The root box encoded at position `pos` of the buffer.
pub open spec fn spec_parse_root(bytes: Seq<u8>, pos: int) -> ArchivedBox {
    ArchivedBox { ptr: RelPtr::spec_parse(bytes.subrange(pos, pos + REL_PTR_SIZE)) }
}

/// The outcome of validating a boxed root at position `pos` of `bytes`
/// against an active subtree range `[start, end)`: success, or the exact
/// failure.
pub open spec fn spec_check_pos(bytes: Seq<u8>, pos: int, start: int, end: int) -> Result<
    (),
    Error,
> {
    if pos > isize::MAX as int {
        Err(Error::PointerOutOfBounds)
    } else if !(start <= pos && pos + REL_PTR_SIZE <= end) {
        Err(Error::PointerOutOfBounds)
    } else if spec_box_verifiable(spec_parse_root(bytes, pos), pos, start, pos) {
        Ok(())
    } else {
        Err(Error::PointerOutOfBounds)
    }
}

/// Checks `bytes` for a valid boxed root at position `pos` with the given
/// context: bounds-checks the root record against the active range, claims
/// it, validates the box it holds, and restores the deferred remainder.
pub fn check_pos_with_context<C: ArchiveContext>(
    bytes: &[u8],
    pos: usize,
    context: &mut C,
) -> (r: Result<(), Error>)
    requires
        old(context).wf(),
        old(context).arch_len() == bytes@.len(),
    ensures
        final(context).wf(),
        final(context).arch_len() == old(context).arch_len(),
        r == spec_check_pos(
            bytes@,
            pos as int,
            old(context).range_start(),
            old(context).range_end(),
        ),
        r is Ok ==> final(context).range_start() == pos + REL_PTR_SIZE
            && final(context).range_end() == old(context).range_end(),
{
    proof {
        context.wf_facts();
    }
    if pos > isize::MAX as usize {
        return Err(Error::PointerOutOfBounds);
    }
    let offset = pos as isize;
    let ptr = match bounds_check_subtree_base_offset::<C, ArchivedBox>(context, 0, offset, 0) {
        Ok(p) => p,
        Err(e) => {
            return Err(e);
        },
    };
    let range = match push_prefix_subtree::<C, ArchivedBox>(context, ptr, 0) {
        Ok(t) => t,
        Err(e) => {
            return Err(e);
        },
    };
    let root = ArchivedBox::parse(bytes, ptr);
    match root.verify(ptr, context) {
        Ok(()) => {},
        Err(e) => {
            return Err(e);
        },
    }
    match context.pop_subtree_range(range) {
        Ok(()) => Ok(()),
        Err(e) => Err(e),
    }
}

/// Accesses the boxed root of `bytes` at position `pos` after checking its
/// validity with the given context.
pub fn access_pos_with_context<C: ArchiveContext>(
    bytes: &[u8],
    pos: usize,
    context: &mut C,
) -> (r: Result<ArchivedBox, Error>)
    requires
        old(context).wf(),
        old(context).arch_len() == bytes@.len(),
    ensures
        final(context).wf(),
        final(context).arch_len() == old(context).arch_len(),
        r is Ok <==> spec_check_pos(
            bytes@,
            pos as int,
            old(context).range_start(),
            old(context).range_end(),
        ) is Ok,
        r is Err ==> r->Err_0 == spec_check_pos(
            bytes@,
            pos as int,
            old(context).range_start(),
            old(context).range_end(),
        )->Err_0,
        r matches Ok(b) ==> {
            &&& b == spec_parse_root(bytes@, pos as int)
            &&& 0 <= b.ptr.target(pos as int)
            &&& b.ptr.target(pos as int) + b.ptr.metadata <= pos <= bytes@.len()
        },
{
    proof {
        context.wf_facts();
    }
    match check_pos_with_context(bytes, pos, context) {
        Ok(()) => {},
        Err(e) => {
            return Err(e);
        },
    }
    Ok(ArchivedBox::parse(bytes, pos))
}

/// Accesses the boxed root of `bytes` at the trailing root position after
/// checking its validity with the given context.
pub fn access_with_context<C: ArchiveContext>(bytes: &[u8], context: &mut C) -> (r: Result<
    ArchivedBox,
    Error,
>)
    requires
        old(context).wf(),
        old(context).arch_len() == bytes@.len(),
    ensures
        final(context).wf(),
        final(context).arch_len() == old(context).arch_len(),
        r is Ok <==> spec_check_pos(
            bytes@,
            spec_root_pos(bytes@.len() as int),
            old(context).range_start(),
            old(context).range_end(),
        ) is Ok,
        r is Err ==> r->Err_0 == spec_check_pos(
            bytes@,
            spec_root_pos(bytes@.len() as int),
            old(context).range_start(),
            old(context).range_end(),
        )->Err_0,
        r matches Ok(b) ==> {
            &&& b == spec_parse_root(bytes@, spec_root_pos(bytes@.len() as int))
            &&& 0 <= b.ptr.target(spec_root_pos(bytes@.len() as int))
            &&& b.ptr.target(spec_root_pos(bytes@.len() as int)) + b.ptr.metadata <= spec_root_pos(
                bytes@.len() as int,
            ) <= bytes@.len()
        },
{
    let len = bytes.len();
    let pos: usize = if len >= REL_PTR_SIZE {
        len - REL_PTR_SIZE
    } else {
        0
    };
    access_pos_with_context(bytes, pos, context)
}

/// Accesses the boxed root of `bytes` at position `pos` after checking its
/// validity with a fresh default validation context.
pub fn access_pos(bytes: &[u8], pos: usize) -> (r: Result<ArchivedBox, Error>)
    ensures
        r is Ok <==> spec_check_pos(bytes@, pos as int, 0, bytes@.len() as int) is Ok,
        r is Err ==> r->Err_0 == spec_check_pos(
            bytes@,
            pos as int,
            0,
            bytes@.len() as int,
        )->Err_0,
        r matches Ok(b) ==> {
            &&& b == spec_parse_root(bytes@, pos as int)
            &&& 0 <= b.ptr.target(pos as int)
            &&& b.ptr.target(pos as int) + b.ptr.metadata <= pos <= bytes@.len()
        },
{
    let mut validator = DefaultValidator::new(bytes);
    access_pos_with_context(bytes, pos, &mut validator)
}

/// Accesses the boxed root of `bytes` at the trailing root position after
/// checking its validity with a fresh default validation context.
pub fn access(bytes: &[u8]) -> (r: Result<ArchivedBox, Error>)
    ensures
        r is Ok <==> spec_check_pos(
            bytes@,
            spec_root_pos(bytes@.len() as int),
            0,
            bytes@.len() as int,
        ) is Ok,
        r is Err ==> r->Err_0 == spec_check_pos(
            bytes@,
            spec_root_pos(bytes@.len() as int),
            0,
            bytes@.len() as int,
        )->Err_0,
        r matches Ok(b) ==> {
            &&& b == spec_parse_root(bytes@, spec_root_pos(bytes@.len() as int))
            &&& 0 <= b.ptr.target(spec_root_pos(bytes@.len() as int))
            &&& b.ptr.target(spec_root_pos(bytes@.len() as int)) + b.ptr.metadata <= spec_root_pos(
                bytes@.len() as int,
            ) <= bytes@.len()
        },
{
    let mut validator = DefaultValidator::new(bytes);
    access_with_context(bytes, &mut validator)
}

/// Mutably accesses the boxed root of `bytes` at position `pos` after
/// checking its validity with the given context. Validation itself never
/// changes the buffer; the exclusive borrow exists so that in-place
/// mutation of the pointee cannot race with other readers.
pub fn access_pos_with_context_mut<C: ArchiveContext>(
    bytes: &mut Vec<u8>,
    pos: usize,
    context: &mut C,
) -> (r: Result<ArchivedBox, Error>)
    requires
        old(context).wf(),
        old(context).arch_len() == old(bytes)@.len(),
    ensures
        *final(bytes) == *old(bytes),
        final(context).wf(),
        final(context).arch_len() == old(context).arch_len(),
        r is Ok <==> spec_check_pos(
            old(bytes)@,
            pos as int,
            old(context).range_start(),
            old(context).range_end(),
        ) is Ok,
        r is Err ==> r->Err_0 == spec_check_pos(
            old(bytes)@,
            pos as int,
            old(context).range_start(),
            old(context).range_end(),
        )->Err_0,
        r matches Ok(b) ==> {
            &&& b == spec_parse_root(old(bytes)@, pos as int)
            &&& 0 <= b.ptr.target(pos as int)
            &&& b.ptr.target(pos as int) + b.ptr.metadata <= pos <= old(bytes)@.len()
        },
{
    access_pos_with_context(bytes.as_slice(), pos, context)
}

/// Mutably accesses the boxed root of `bytes` at the trailing root
/// position after checking its validity with the given context.
pub fn access_with_context_mut<C: ArchiveContext>(bytes: &mut Vec<u8>, context: &mut C) -> (r:
    Result<ArchivedBox, Error>)
    requires
        old(context).wf(),
        old(context).arch_len() == old(bytes)@.len(),
    ensures
        *final(bytes) == *old(bytes),
        final(context).wf(),
        final(context).arch_len() == old(context).arch_len(),
        r is Ok <==> spec_check_pos(
            old(bytes)@,
            spec_root_pos(old(bytes)@.len() as int),
            old(context).range_start(),
            old(context).range_end(),
        ) is Ok,
        r is Err ==> r->Err_0 == spec_check_pos(
            old(bytes)@,
            spec_root_pos(old(bytes)@.len() as int),
            old(context).range_start(),
            old(context).range_end(),
        )->Err_0,
        r matches Ok(b) ==> b == spec_parse_root(
            old(bytes)@,
            spec_root_pos(old(bytes)@.len() as int),
        ),
{
    access_with_context(bytes.as_slice(), context)
}

/// Mutably accesses the boxed root of `bytes` at position `pos` after
/// checking its validity with a fresh default validation context.
pub fn access_pos_mut(bytes: &mut Vec<u8>, pos: usize) -> (r: Result<ArchivedBox, Error>)
    ensures
        *final(bytes) == *old(bytes),
        r is Ok <==> spec_check_pos(old(bytes)@, pos as int, 0, old(bytes)@.len() as int) is Ok,
        r is Err ==> r->Err_0 == spec_check_pos(
            old(bytes)@,
            pos as int,
            0,
            old(bytes)@.len() as int,
        )->Err_0,
        r matches Ok(b) ==> {
            &&& b == spec_parse_root(old(bytes)@, pos as int)
            &&& 0 <= b.ptr.target(pos as int)
            &&& b.ptr.target(pos as int) + b.ptr.metadata <= pos <= old(bytes)@.len()
        },
{
    let mut validator = DefaultValidator::new(bytes.as_slice());
    access_pos_with_context_mut(bytes, pos, &mut validator)
}

/// Mutably accesses the boxed root of `bytes` at the trailing root
/// position after checking its validity with a fresh default validation
/// context.
pub fn access_mut(bytes: &mut Vec<u8>) -> (r: Result<ArchivedBox, Error>)
    ensures
        *final(bytes) == *old(bytes),
        r is Ok <==> spec_check_pos(
            old(bytes)@,
            spec_root_pos(old(bytes)@.len() as int),
            0,
            old(bytes)@.len() as int,
        ) is Ok,
        r is Err ==> r->Err_0 == spec_check_pos(
            old(bytes)@,
            spec_root_pos(old(bytes)@.len() as int),
            0,
            old(bytes)@.len() as int,
        )->Err_0,
        r matches Ok(b) ==> b == spec_parse_root(
            old(bytes)@,
            spec_root_pos(old(bytes)@.len() as int),
        ),
{
    let mut validator = DefaultValidator::new(bytes.as_slice());
    access_with_context_mut(bytes, &mut validator)
}

/// Serializes `value` as a boxed root through the given serializer: the
/// pointee's bytes, then the root record pointing back at them.
pub fn to_bytes_in<W: Writer, A, S: Sharing>(
    value: &[u8],
    serializer: &mut Composite<W, A, S>,
) -> (r: Result<(), Error>)
    ensures
        final(serializer).capacity() == old(serializer).capacity(),
        final(serializer).allocator == old(serializer).allocator,
        final(serializer).shared() == old(serializer).shared(),
        r is Ok <==> old(serializer).bytes().len() + value@.len() + REL_PTR_SIZE
            <= old(serializer).capacity() && value@.len() <= OFFSET_MAX + 1,
        r is Ok ==> final(serializer).bytes() == old(serializer).bytes() + spec_to_bytes(value@),
        old(serializer).bytes().len() + value@.len() > old(serializer).capacity() ==> r == Err::<
            (),
            Error,
        >(Error::CapacityExhausted) && final(serializer).bytes() == old(serializer).bytes(),
        old(serializer).bytes().len() + value@.len() <= old(serializer).capacity() && value@.len()
            > u32::MAX ==> r == Err::<(), Error>(Error::LayoutOverflow),
        old(serializer).bytes().len() + value@.len() <= old(serializer).capacity() && OFFSET_MAX
            + 1 < value@.len() <= u32::MAX ==> r == Err::<(), Error>(Error::OffsetOutOfRange),
        old(serializer).bytes().len() + value@.len() <= old(serializer).capacity() && value@.len()
            <= OFFSET_MAX + 1 && old(serializer).bytes().len() + value@.len() + REL_PTR_SIZE
            > old(serializer).capacity() ==> r == Err::<(), Error>(Error::CapacityExhausted),
{
    let pos = serializer.pos();
    let resolver = BoxResolver::from_pos(pos);
    match serializer.write(value) {
        Ok(()) => {},
        Err(e) => {
            return Err(e);
        },
    }
    let root_pos = serializer.pos();
    let root = match ArchivedBox::resolve_from_ref(value, resolver, root_pos) {
        Ok(b) => b,
        Err(e) => {
            return Err(e);
        },
    };
    let record = root.ptr.to_bytes();
    match serializer.write(record.as_slice()) {
        Ok(()) => {},
        Err(e) => {
            return Err(e);
        },
    }
    proof {
        assert(final(serializer).bytes() =~= old(serializer).bytes() + spec_to_bytes(value@));
    }
    Ok(())
}

/// Serializes `value` as a boxed root into a fresh growable buffer and
/// returns the buffer.
pub fn to_bytes(value: &[u8]) -> (r: Result<Vec<u8>, Error>)
    ensures
        r is Ok <==> value@.len() + REL_PTR_SIZE <= usize::MAX && value@.len() <= OFFSET_MAX + 1,
        r matches Ok(buf) ==> buf@ == spec_to_bytes(value@),
{
    let mut serializer = Composite::new(VecWriter::new(), BufferAllocator::new(0), Unify::new());
    match to_bytes_in(value, &mut serializer) {
        Ok(()) => {},
        Err(e) => {
            return Err(e);
        },
    }
    Ok(serializer.into_writer().into_vec())
}

/// Checks `bytes` and materializes the boxed root's pointee into an owned
/// value.
pub fn from_bytes(bytes: &[u8]) -> (r: Result<Vec<u8>, Error>)
    ensures
        r is Ok <==> spec_check_pos(
            bytes@,
            spec_root_pos(bytes@.len() as int),
            0,
            bytes@.len() as int,
        ) is Ok,
        r is Err ==> r->Err_0 == spec_check_pos(
            bytes@,
            spec_root_pos(bytes@.len() as int),
            0,
            bytes@.len() as int,
        )->Err_0,
        r matches Ok(v) ==> ({
            let b = spec_parse_root(bytes@, spec_root_pos(bytes@.len() as int));
            let t = b.ptr.target(spec_root_pos(bytes@.len() as int));
            v@ == bytes@.subrange(t, t + b.ptr.metadata)
        }),
{
    let len = bytes.len();
    let pos: usize = if len >= REL_PTR_SIZE {
        len - REL_PTR_SIZE
    } else {
        0
    };
    let root = match access_pos(bytes, pos) {
        Ok(b) => b,
        Err(e) => {
            return Err(e);
        },
    };
    let pointee = root.get(bytes, pos);
    Ok(slice_to_vec(pointee))
}

/// Round trip: every value the format can encode is recovered intact. The
/// buffer serialized from `v` validates at its trailing root position, and
/// the root box designates exactly `v`'s bytes.
///
/// The bounds are exactly the round-trippable lengths: serialization
/// accepts a pointee of up to [`OFFSET_MAX`]` + 1` bytes, and validation
/// additionally needs the root position — equal to the pointee's length —
/// to fit `isize`, which only matters where `usize` is 32 bits wide.
pub proof fn lemma_round_trip(v: Seq<u8>)
    requires
        v.len() <= 0x8000_0000,
        v.len() <= isize::MAX,
    ensures
        ({
            let buf = spec_to_bytes(v);
            let pos = spec_root_pos(buf.len() as int);
            &&& pos == v.len()
            &&& spec_check_pos(buf, pos, 0, buf.len() as int) is Ok
            &&& spec_parse_root(buf, pos).ptr.target(pos) == 0
            &&& spec_parse_root(buf, pos).ptr.metadata == v.len()
            &&& buf.subrange(0, v.len() as int) == v
        }),
{
    let rp = spec_root_rel_ptr(v);
    rp.lemma_bytes_parse_round_trip();
    let buf = spec_to_bytes(v);
    let pos = v.len() as int;
    assert(buf.subrange(pos, pos + REL_PTR_SIZE) =~= rp.spec_bytes());
    assert(buf.subrange(0, v.len() as int) =~= v);
}

/// Bounds rejection: whenever the root record does not fit the active
/// subtree range, or its pointer resolves to a span that reaches outside
/// the bytes before the record, validation fails with
/// [`Error::PointerOutOfBounds`] — it never succeeds, and verified code
/// never reads out of range.
pub proof fn lemma_bounds_rejection(bytes: Seq<u8>, pos: int, start: int, end: int)
    requires
        !(start <= pos && pos + REL_PTR_SIZE <= end) || !spec_box_verifiable(
            spec_parse_root(bytes, pos),
            pos,
            start,
            pos,
        ),
    ensures
        spec_check_pos(bytes, pos, start, end) == Err::<(), Error>(Error::PointerOutOfBounds),
{
}

/// Sharing, seen from the read side: in a buffer holding one copy of `v`
/// and two records that both point back at it — the layout a deduplicating
/// serializer produces for two boxes over the same value — both records
/// validate, and both designate exactly `v`'s bytes.
pub proof fn lemma_shared_pair_round_trip(v: Seq<u8>)
    requires
        v.len() + REL_PTR_SIZE < 0x8000_0000,
    ensures
        ({
            let rec1 = spec_root_rel_ptr(v);
            let rec2 = RelPtr {
                offset: (0 - v.len() - REL_PTR_SIZE) as i32,
                metadata: v.len() as u32,
            };
            let buf = v + rec1.spec_bytes() + rec2.spec_bytes();
            let pos1 = v.len() as int;
            let pos2 = pos1 + REL_PTR_SIZE;
            &&& spec_check_pos(buf, pos1, 0, buf.len() as int) is Ok
            &&& spec_check_pos(buf, pos2, 0, buf.len() as int) is Ok
            &&& spec_parse_root(buf, pos1).ptr.target(pos1) == 0
            &&& spec_parse_root(buf, pos2).ptr.target(pos2) == 0
            &&& spec_parse_root(buf, pos1).ptr.metadata == v.len()
            &&& spec_parse_root(buf, pos2).ptr.metadata == v.len()
            &&& buf.subrange(0, v.len() as int) == v
        }),
{
    let rec1 = spec_root_rel_ptr(v);
    let rec2 = RelPtr { offset: (0 - v.len() - REL_PTR_SIZE) as i32, metadata: v.len() as u32 };
    rec1.lemma_bytes_parse_round_trip();
    rec2.lemma_bytes_parse_round_trip();
    let buf = v + rec1.spec_bytes() + rec2.spec_bytes();
    let pos1 = v.len() as int;
    let pos2 = pos1 + REL_PTR_SIZE;
    assert(buf.subrange(pos1, pos1 + REL_PTR_SIZE) =~= rec1.spec_bytes());
    assert(buf.subrange(pos2, pos2 + REL_PTR_SIZE) =~= rec2.spec_bytes());
    assert(buf.subrange(0, v.len() as int) =~= v);
}

} // verus!
