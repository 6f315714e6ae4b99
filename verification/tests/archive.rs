use rkyv::boxed::ArchivedBox;
use rkyv::rel_ptr::{RelPtr, REL_PTR_SIZE};
use rkyv::ser::{
    Allocator, BufferAllocator, BufferWriter, Composite, Duplicate, Positional, Sharing, Unify,
    VecWriter, Writer,
};
use rkyv::util::{
    access, access_mut, access_pos, check_pos_with_context, from_bytes, to_bytes, to_bytes_in,
};
use rkyv::validation::{
    bounds_check_subtree_base_offset, ArchiveContext, ArchiveValidator, DefaultValidator,
    LayoutRaw, SharedContext, SharedValidator, U32Slice,
};
use rkyv::{Error, Layout};

#[test]
fn round_trip_bytes() {
    let value: Vec<u8> = vec![10, 20, 30, 40, 50];
    let buf = to_bytes(value.as_slice()).unwrap();
    assert_eq!(buf.len(), value.len() + REL_PTR_SIZE);

    let root = access(buf.as_slice()).unwrap();
    let pointee = root.get(buf.as_slice(), buf.len() - REL_PTR_SIZE);
    assert_eq!(pointee, value.as_slice());

    let owned = from_bytes(buf.as_slice()).unwrap();
    assert_eq!(owned, value);
}

#[test]
fn round_trip_empty_value() {
    let value: Vec<u8> = Vec::new();
    let buf = to_bytes(value.as_slice()).unwrap();
    assert_eq!(buf.len(), REL_PTR_SIZE);
    let owned = from_bytes(buf.as_slice()).unwrap();
    assert_eq!(owned, value);
}

#[test]
fn access_mut_leaves_buffer_unchanged() {
    let value: Vec<u8> = vec![1, 2, 3];
    let mut buf = to_bytes(value.as_slice()).unwrap();
    let snapshot = buf.clone();
    let root = access_mut(&mut buf).unwrap();
    assert_eq!(root.ptr.metadata, 3);
    assert_eq!(buf, snapshot);
}

#[test]
fn context_consumes_checked_ranges() {
    let buf = to_bytes(&[1, 2, 3]).unwrap();
    let mut ctx = DefaultValidator::new(buf.as_slice());
    assert_eq!(check_pos_with_context(buf.as_slice(), 3, &mut ctx), Ok(()));
    // The root record and everything before it are claimed now; the same
    // root no longer fits the remaining range.
    assert_eq!(
        check_pos_with_context(buf.as_slice(), 3, &mut ctx),
        Err(Error::PointerOutOfBounds)
    );
}

#[test]
fn root_position_outside_buffer() {
    let buf = to_bytes(&[1, 2, 3]).unwrap();
    assert_eq!(access_pos(buf.as_slice(), 100), Err(Error::PointerOutOfBounds));
}

#[test]
fn bounds_rejection_oversized_metadata() {
    // The record claims a 100-byte pointee inside a 4-byte prefix.
    let rp = RelPtr::emplace_unsized(0, 100, 4).unwrap();
    let mut buf: Vec<u8> = vec![1, 2, 3, 4];
    buf.extend(rp.to_bytes());
    assert_eq!(access(buf.as_slice()), Err(Error::PointerOutOfBounds));
}

#[test]
fn bounds_rejection_forward_pointer() {
    // The pointer resolves past its own record, outside the claimable bytes.
    let rp = RelPtr::emplace_unsized(20, 1, 4).unwrap();
    let mut buf: Vec<u8> = vec![1, 2, 3, 4];
    buf.extend(rp.to_bytes());
    assert_eq!(access(buf.as_slice()), Err(Error::PointerOutOfBounds));
}

#[test]
fn bounds_rejection_negative_target() {
    // The pointer resolves before the start of the buffer.
    let rp = RelPtr::emplace_unsized(0, 1, 6).unwrap();
    let mut buf: Vec<u8> = vec![1, 2];
    buf.extend(rp.to_bytes());
    // Stored at position 2, the offset of -6 resolves to position -4.
    assert_eq!(access_pos(buf.as_slice(), 2), Err(Error::PointerOutOfBounds));
}

#[test]
fn buffer_shorter_than_root_record() {
    let buf: Vec<u8> = vec![0, 1, 2];
    assert_eq!(access(buf.as_slice()), Err(Error::PointerOutOfBounds));
}

#[test]
fn range_discipline_lifo_pops_succeed() {
    let mut v = ArchiveValidator::new(100);
    let t1 = v.push_subtree_range(90, 98).unwrap();
    let t2 = v.push_subtree_range(50, 60).unwrap();
    assert_eq!(v.pop_subtree_range(t2), Ok(()));
    assert_eq!(v.pop_subtree_range(t1), Ok(()));
}

#[test]
fn range_discipline_out_of_order_pop_fails() {
    let mut v = ArchiveValidator::new(100);
    let t1 = v.push_subtree_range(90, 98).unwrap();
    let t2 = v.push_subtree_range(50, 60).unwrap();
    // Restoring the outer token first skips the inner claim; the inner
    // token is then unrestorable.
    assert_eq!(v.pop_subtree_range(t1), Ok(()));
    assert_eq!(v.pop_subtree_range(t2), Err(Error::OutOfOrderPop));
}

#[test]
fn sharing_idempotence_one_copy() {
    let value: Vec<u8> = vec![9, 8, 7];
    let mut ser = Composite::new(VecWriter::new(), BufferAllocator::new(16), Unify::new());
    let first = ArchivedBox::serialize_from_ref(value.as_slice(), 42, &mut ser).unwrap();
    let second = ArchivedBox::serialize_from_ref(value.as_slice(), 42, &mut ser).unwrap();
    assert_eq!(first.pos, 0);
    assert_eq!(second.pos, first.pos);
    // One copy of the pointee in the buffer.
    assert_eq!(ser.pos(), value.len());

    // Finish a buffer holding the pointee and two records resolved from
    // the two resolvers.
    let rec1_pos = ser.pos();
    let b1 = ArchivedBox::resolve_from_ref(value.as_slice(), first, rec1_pos).unwrap();
    ser.write(&b1.ptr.to_bytes()).unwrap();
    let rec2_pos = ser.pos();
    let b2 = ArchivedBox::resolve_from_ref(value.as_slice(), second, rec2_pos).unwrap();
    ser.write(&b2.ptr.to_bytes()).unwrap();
    let buf = ser.into_writer().into_vec();

    // Both records validate and designate equal content.
    let r1 = access_pos(buf.as_slice(), rec1_pos).unwrap();
    assert_eq!(r1.get(buf.as_slice(), rec1_pos), value.as_slice());
    let r2 = access_pos(buf.as_slice(), rec2_pos).unwrap();
    assert_eq!(r2.get(buf.as_slice(), rec2_pos), value.as_slice());

    // Shared validation registers the shared address exactly once: the
    // second box skips the re-check instead of re-claiming the bytes.
    let mut ctx = DefaultValidator::new(buf.as_slice());
    assert_eq!(r1.verify_shared(rec1_pos, 7, &mut ctx), Ok(()));
    assert_eq!(r2.verify_shared(rec2_pos, 7, &mut ctx), Ok(()));
}

#[test]
fn duplicate_strategy_writes_two_copies() {
    let value: Vec<u8> = vec![5, 6];
    let mut ser = Composite::new(VecWriter::new(), BufferAllocator::new(16), Duplicate);
    let first = ArchivedBox::serialize_from_ref(value.as_slice(), 42, &mut ser).unwrap();
    let second = ArchivedBox::serialize_from_ref(value.as_slice(), 42, &mut ser).unwrap();
    assert_eq!(first.pos, 0);
    assert_eq!(second.pos, value.len());
    assert_eq!(ser.pos(), 2 * value.len());
}

#[test]
fn type_confusion_rejected() {
    // Two records point at the same four data bytes under different type
    // identities.
    let data: Vec<u8> = vec![1, 2, 3, 4];
    let rp_a = RelPtr::emplace_unsized(0, 4, 4).unwrap();
    let rp_b = RelPtr::emplace_unsized(0, 4, 12).unwrap();
    let mut buf = data.clone();
    buf.extend(rp_a.to_bytes());
    buf.extend(rp_b.to_bytes());

    let box_a = ArchivedBox { ptr: rp_a };
    let box_b = ArchivedBox { ptr: rp_b };
    let mut ctx = DefaultValidator::new(buf.as_slice());
    assert_eq!(box_a.verify_shared(4, 1, &mut ctx), Ok(()));
    assert_eq!(box_b.verify_shared(12, 2, &mut ctx), Err(Error::SharedTypeConflict));
}

#[test]
fn shared_registry_registers_once() {
    let mut shared = SharedValidator::new();
    assert_eq!(shared.register_shared_ptr(10, 1), Ok(true));
    assert_eq!(shared.register_shared_ptr(10, 1), Ok(false));
    assert_eq!(shared.register_shared_ptr(10, 2), Err(Error::SharedTypeConflict));
    assert_eq!(shared.register_shared_ptr(11, 2), Ok(true));
}

#[test]
fn capacity_exhaustion_on_writer() {
    let mut w = BufferWriter::new(2);
    assert_eq!(w.write(&[1, 2, 3]), Err(Error::CapacityExhausted));
    assert_eq!(w.pos(), 0);
    assert_eq!(w.write(&[1, 2]), Ok(()));
    assert_eq!(w.write(&[3]), Err(Error::CapacityExhausted));
    assert_eq!(w.pos(), 2);
}

#[test]
fn capacity_exhaustion_on_serialize() {
    // A fixed-capacity writer smaller than the encoded size: the pointee
    // fits, the root record does not.
    let value: Vec<u8> = vec![1, 2, 3, 4];
    let mut ser = Composite::new(BufferWriter::new(10), BufferAllocator::new(0), Duplicate);
    assert_eq!(to_bytes_in(value.as_slice(), &mut ser), Err(Error::CapacityExhausted));
    // The pointee bytes were already placed when capacity ran out.
    assert_eq!(ser.pos(), 4);

    // With room for pointee and record, serialization succeeds.
    let mut ser = Composite::new(BufferWriter::new(12), BufferAllocator::new(0), Duplicate);
    assert_eq!(to_bytes_in(value.as_slice(), &mut ser), Ok(()));
    let buf = ser.into_writer().into_vec();
    assert_eq!(from_bytes(buf.as_slice()).unwrap(), value);
}

#[test]
fn offset_overflow_rejected() {
    // A pointee too far behind its pointer for the 32-bit offset.
    assert_eq!(
        RelPtr::emplace_unsized(0, 0, 3_000_000_000),
        Err(Error::OffsetOutOfRange)
    );
    // And too far ahead.
    assert_eq!(
        RelPtr::emplace_unsized(3_000_000_000, 0, 0),
        Err(Error::OffsetOutOfRange)
    );
    // The widest representable displacements are accepted.
    let p = RelPtr::emplace_unsized(0, 7, 0x8000_0000).unwrap();
    assert_eq!(p.offset, i32::MIN);
    assert_eq!(p.metadata, 7);
    let q = RelPtr::emplace_unsized(0x7fff_ffff, 0, 0).unwrap();
    assert_eq!(q.offset, i32::MAX);
}

#[test]
fn rel_ptr_wire_round_trip() {
    let p = RelPtr::emplace_unsized(3, 9, 20).unwrap();
    let wire = p.to_bytes();
    assert_eq!(wire.len(), REL_PTR_SIZE);
    let q = RelPtr::parse(wire.as_slice(), 0);
    assert_eq!(q, p);
    // Little-endian two's complement: offset 3 - 20 = -17.
    assert_eq!(&wire[0..4], &[0xef, 0xff, 0xff, 0xff]);
    assert_eq!(&wire[4..8], &[9, 0, 0, 0]);
}

#[test]
fn layout_overflow_rejected() {
    assert_eq!(U32Slice::layout_raw(usize::MAX), Err(Error::LayoutOverflow));
    assert_eq!(
        U32Slice::layout_raw(3),
        Ok(Layout { size: 12, align: 4 })
    );
    let buf: Vec<u8> = vec![0; 16];
    let mut ctx = DefaultValidator::new(buf.as_slice());
    assert_eq!(
        bounds_check_subtree_base_offset::<DefaultValidator, U32Slice>(&mut ctx, 0, 0, usize::MAX),
        Err(Error::LayoutOverflow)
    );
}

#[test]
fn allocator_stack_discipline() {
    let mut alloc = BufferAllocator::new(16);
    let layout_a = Layout { size: 8, align: 1 };
    let layout_b = Layout { size: 4, align: 1 };
    let a = alloc.push_alloc(layout_a).unwrap();
    let b = alloc.push_alloc(layout_b).unwrap();
    assert_eq!(a, 0);
    assert_eq!(b, 8);
    // Scratch capacity is exhausted.
    assert_eq!(alloc.push_alloc(Layout { size: 8, align: 1 }), Err(Error::CapacityExhausted));
    // Releasing out of order fails and changes nothing.
    assert_eq!(alloc.pop_alloc(a, layout_a), Err(Error::OutOfOrderPop));
    // Strict reverse order succeeds, and the capacity is available again.
    assert_eq!(alloc.pop_alloc(b, layout_b), Ok(()));
    assert_eq!(alloc.pop_alloc(a, layout_a), Ok(()));
    assert_eq!(alloc.push_alloc(Layout { size: 16, align: 1 }), Ok(0));
}

#[test]
fn composite_parts() {
    let ser = Composite::new(VecWriter::new(), BufferAllocator::new(4), Unify::new());
    let (w, a, s) = ser.into_raw_parts();
    assert_eq!(w.pos(), 0);
    assert_eq!(a.cap, 4);
    assert_eq!(s.get_shared_ptr(0), None);

    let mut ser = Composite::new(BufferWriter::new(8), BufferAllocator::new(0), Duplicate);
    ser.write(&[1, 2, 3]).unwrap();
    assert_eq!(ser.pos(), 3);
    ser.add_shared_ptr(5, 0).unwrap();
    // The duplicate strategy records nothing.
    assert_eq!(ser.get_shared_ptr(5), None);
    let w = ser.into_writer();
    assert_eq!(w.into_vec(), vec![1, 2, 3]);
}
