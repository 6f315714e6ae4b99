//! The archived box: an owning wrapper around one relative pointer.
//!
//! An archived box owns no allocation of its own — only a relative
//! reference to a pointee that lives earlier in the same buffer. It is
//! created by resolving a [`BoxResolver`] (the position where the pointee
//! was serialized) together with the pointee's metadata into the pointer's
//! fields, and it is destroyed only with the buffer itself.

use vstd::prelude::*;
use vstd::slice::slice_subrange;
use crate::{Error, Layout};
use crate::rel_ptr::{RelPtr, OFFSET_MAX, OFFSET_MIN, REL_PTR_SIZE};
use crate::ser::{spec_shared_within, Composite, Positional, Sharing, Writer};
use crate::validation::{
    bounds_check_subtree_rel_ptr, push_prefix_subtree, spec_register,
    ArchiveContext, ByteSlice, DefaultValidator, LayoutRaw, SharedContext,
};

verus! {

/// An archived box over a byte-slice pointee: a thin wrapper around a
/// [`RelPtr`] whose metadata is the pointee's length.
#[derive(Clone, Copy, Debug, PartialEq, Eq, Structural)]
pub struct ArchivedBox {
    /// The relative pointer to the pointee.
    pub ptr: RelPtr,
}

/// The resolver for a box: the buffer position of its already-serialized
/// pointee, consumed exactly once to materialize the final pointer.
#[derive(Clone, Copy, Debug, PartialEq, Eq, Structural)]
pub struct BoxResolver {
    /// The buffer position where the pointee was serialized.
    pub pos: usize,
}

impl BoxResolver {
    /// Creates a new resolver from the position of a serialized value.
    ///
    /// In most cases this comes from [`ArchivedBox::serialize_from_ref`]
    /// rather than being built by hand.
    pub fn from_pos(pos: usize) -> (r: Self)
        ensures
            r.pos == pos,
    {
        BoxResolver { pos }
    }
}

/// What serializing a boxed pointee does under a deduplicating strategy:
/// the written bytes, the sharing registry, and the pointee's position
/// after the step.
pub open spec fn spec_serialize_step(
    bytes: Seq<u8>,
    shared: Map<usize, usize>,
    value: Seq<u8>,
    address: usize,
) -> (Seq<u8>, Map<usize, usize>, int) {
    if shared.contains_key(address) {
        (bytes, shared, shared[address] as int)
    } else {
        (bytes + value, shared.insert(address, bytes.len() as usize), bytes.len() as int)
    }
}

/// Whether the pointee of box `b`, stored at `self_pos`, lies entirely
/// within the active subtree range `[start, end)`.
pub open spec fn spec_box_verifiable(b: ArchivedBox, self_pos: int, start: int, end: int) -> bool {
    let t = b.ptr.target(self_pos);
    &&& 0 <= t
    &&& start <= t
    &&& t + b.ptr.metadata <= end
}

impl LayoutRaw for ArchivedBox {
    open spec fn spec_layout(metadata: usize) -> Option<Layout> {
        Some(Layout { size: REL_PTR_SIZE, align: 4 })
    }

    fn layout_raw(metadata: usize) -> (r: Result<Layout, Error>) {
        Ok(Layout { size: REL_PTR_SIZE, align: 4 })
    }
}

impl ArchivedBox {
    /// Serializes a boxed pointee through the serializer's writer,
    /// returning a resolver that carries the pointee's position.
    ///
    /// `address` is the identity of the original value. Under a
    /// deduplicating sharing strategy the first serialization of an
    /// identity records its position and every later one reuses it, so a
    /// value referenced by many boxes is written once.
    pub fn serialize_from_ref<W: Writer, A, S: Sharing>(
        value: &[u8],
        address: usize,
        serializer: &mut Composite<W, A, S>,
    ) -> (r: Result<BoxResolver, Error>)
        ensures
            final(serializer).allocator == old(serializer).allocator,
            final(serializer).capacity() == old(serializer).capacity(),
            r is Ok <==> old(serializer).shared().contains_key(address)
                || old(serializer).bytes().len() + value@.len() <= old(serializer).capacity(),
            old(serializer).shared().contains_key(address) ==> {
                &&& *final(serializer) == *old(serializer)
                &&& r matches Ok(res) && res.pos == old(serializer).shared()[address]
            },
            !old(serializer).shared().contains_key(address) && r is Ok ==> {
                &&& r->Ok_0.pos == old(serializer).bytes().len()
                &&& final(serializer).bytes() == old(serializer).bytes() + value@
                &&& S::dedups() ==> final(serializer).shared()
                    == old(serializer).shared().insert(address, r->Ok_0.pos)
                &&& !S::dedups() ==> final(serializer).shared() == old(serializer).shared()
            },
            r is Err ==> {
                &&& r == Err::<BoxResolver, Error>(Error::CapacityExhausted)
                &&& final(serializer).bytes() == old(serializer).bytes()
                &&& final(serializer).shared() == old(serializer).shared()
            },
            S::dedups() && r is Ok ==> ({
                let step = spec_serialize_step(
                    old(serializer).bytes(),
                    old(serializer).shared(),
                    value@,
                    address,
                );
                &&& final(serializer).bytes() == step.0
                &&& final(serializer).shared() == step.1
                &&& r->Ok_0.pos == step.2
            }),
            spec_shared_within(old(serializer).shared(), old(serializer).bytes().len() as int)
                ==> spec_shared_within(
                final(serializer).shared(),
                final(serializer).bytes().len() as int,
            ),
            spec_shared_within(old(serializer).shared(), old(serializer).bytes().len() as int)
                && r is Ok ==> r->Ok_0.pos <= final(serializer).bytes().len(),
    {
        match serializer.get_shared_ptr(address) {
            Some(pos) => Ok(BoxResolver { pos }),
            None => {
                let pos = serializer.pos();
                match serializer.write(value) {
                    Ok(()) => {},
                    Err(e) => {
                        return Err(e);
                    },
                }
                match serializer.add_shared_ptr(address, pos) {
                    Ok(()) => {},
                    Err(e) => {
                        return Err(e);
                    },
                }
                Ok(BoxResolver { pos })
            },
        }
    }

    /// Resolves an archived box from a resolver and the raw pointee
    /// metadata directly. The box is assumed stored at `out_pos`; the
    /// displacement to the pointee must fit the offset field.
    pub fn resolve_from_raw_parts(resolver: BoxResolver, metadata: u32, out_pos: usize) -> (r:
        Result<ArchivedBox, Error>)
        ensures
            r is Ok <==> OFFSET_MIN <= resolver.pos - out_pos <= OFFSET_MAX,
            r matches Ok(b) ==> b.ptr.offset == resolver.pos - out_pos && b.ptr.metadata
                == metadata,
            r is Err ==> r == Err::<ArchivedBox, Error>(Error::OffsetOutOfRange),
    {
        match RelPtr::emplace_unsized(resolver.pos, metadata, out_pos) {
            Ok(ptr) => Ok(ArchivedBox { ptr }),
            Err(e) => Err(e),
        }
    }

    /// Resolves an archived box from the pointee value and its resolver:
    /// the pointee's own metadata is its length.
    pub fn resolve_from_ref(value: &[u8], resolver: BoxResolver, out_pos: usize) -> (r: Result<
        ArchivedBox,
        Error,
    >)
        ensures
            r is Ok <==> value@.len() <= u32::MAX && OFFSET_MIN <= resolver.pos - out_pos
                <= OFFSET_MAX,
            r matches Ok(b) ==> b.ptr.offset == resolver.pos - out_pos && b.ptr.metadata
                == value@.len(),
            value@.len() > u32::MAX ==> r == Err::<ArchivedBox, Error>(Error::LayoutOverflow),
            value@.len() <= u32::MAX && !(OFFSET_MIN <= resolver.pos - out_pos <= OFFSET_MAX)
                ==> r == Err::<ArchivedBox, Error>(Error::OffsetOutOfRange),
    {
        let len = value.len();
        if len > u32::MAX as usize {
            Err(Error::LayoutOverflow)
        } else {
            Self::resolve_from_raw_parts(resolver, len as u32, out_pos)
        }
    }

    /// Returns the pointee of this archived box, stored at `self_pos` of
    /// `bytes`, as a borrow of the buffer.
    pub fn get<'a>(&self, bytes: &'a [u8], self_pos: usize) -> (r: &'a [u8])
        requires
            0 <= self.ptr.target(self_pos as int),
            self.ptr.target(self_pos as int) + self.ptr.metadata <= bytes@.len(),
        ensures
            r@ == bytes@.subrange(
                self.ptr.target(self_pos as int),
                self.ptr.target(self_pos as int) + self.ptr.metadata,
            ),
    {
        let _len = bytes.len();
        let start = (self_pos as i128 + self.ptr.offset as i128) as usize;
        slice_subrange(bytes, start, start + self.ptr.metadata as usize)
    }

    /// Decodes the archived box stored at position `pos` of `bytes`.
    pub fn parse(bytes: &[u8], pos: usize) -> (r: ArchivedBox)
        requires
            pos + REL_PTR_SIZE <= bytes@.len(),
        ensures
            r == (ArchivedBox {
                ptr: RelPtr::spec_parse(bytes@.subrange(pos as int, pos + REL_PTR_SIZE)),
            }),
    {
        ArchivedBox { ptr: RelPtr::parse(bytes, pos) }
    }

    /// Validates this archived box, stored at `self_pos`, against the
    /// active subtree range: bounds-checks the pointee, claims its span,
    /// and restores the deferred remainder.
    ///
    /// Succeeds exactly when the pointee lies within the active range;
    /// afterwards the bytes up to the pointee's end are claimed, so a later
    /// sibling can only point past them.
    pub fn verify<C: ArchiveContext>(&self, self_pos: usize, context: &mut C) -> (r: Result<
        (),
        Error,
    >)
        requires
            old(context).wf(),
        ensures
            final(context).wf(),
            final(context).arch_len() == old(context).arch_len(),
            r is Ok <==> spec_box_verifiable(
                *self,
                self_pos as int,
                old(context).range_start(),
                old(context).range_end(),
            ),
            r is Ok ==> final(context).range_start() == self.ptr.target(self_pos as int)
                + self.ptr.metadata && final(context).range_end() == old(context).range_end(),
            r is Err ==> *final(context) == *old(context) && r == Err::<(), Error>(
                Error::PointerOutOfBounds,
            ),
    {
        proof {
            context.wf_facts();
        }
        let ptr = match bounds_check_subtree_rel_ptr::<C, ByteSlice>(context, &self.ptr, self_pos) {
            Ok(p) => p,
            Err(e) => {
                return Err(e);
            },
        };
        let range = match push_prefix_subtree::<C, ByteSlice>(
            context,
            ptr,
            self.ptr.metadata as usize,
        ) {
            Ok(t) => t,
            Err(e) => {
                return Err(e);
            },
        };
        // A byte-slice pointee has no internal structure left to check.
        match context.pop_subtree_range(range) {
            Ok(()) => Ok(()),
            Err(e) => Err(e),
        }
    }
    /// Validates this archived box as a shared pointee: registers its
    /// target under `type_id`, fully checks the pointee the first time the
    /// target is seen, and skips the re-check when the same target was
    /// already validated under the same identity. A target already claimed
    /// under a different identity fails with
    /// [`Error::SharedTypeConflict`].
    pub fn verify_shared(&self, self_pos: usize, type_id: u64, context: &mut DefaultValidator) -> (r:
        Result<(), Error>)
        requires
            old(context).wf(),
        ensures
            final(context).wf(),
            final(context).arch_len() == old(context).arch_len(),
            !(0 <= self.ptr.target(self_pos as int) <= usize::MAX) ==> r == Err::<(), Error>(
                Error::PointerOutOfBounds,
            ) && *final(context) == *old(context),
            0 <= self.ptr.target(self_pos as int) <= usize::MAX ==> ({
                let target = self.ptr.target(self_pos as int) as usize;
                let reg = spec_register(old(context).shared_types(), target, type_id);
                &&& reg.1 is Err ==> r == Err::<(), Error>(Error::SharedTypeConflict)
                    && *final(context) == *old(context)
                &&& reg.1 == Ok::<bool, Error>(false) ==> r == Ok::<(), Error>(())
                    && *final(context) == *old(context)
                &&& reg.1 == Ok::<bool, Error>(true) ==> {
                    &&& final(context).shared_types() == reg.0
                    &&& r is Ok <==> spec_box_verifiable(
                        *self,
                        self_pos as int,
                        old(context).range_start(),
                        old(context).range_end(),
                    )
                    &&& r is Ok ==> final(context).range_start() == target + self.ptr.metadata
                        && final(context).range_end() == old(context).range_end()
                    &&& r is Err ==> r == Err::<(), Error>(Error::PointerOutOfBounds)
                        && final(context).ranges == old(context).ranges
                }
            }),
    {
        proof {
            context.wf_facts();
        }
        let target_wide = self_pos as i128 + self.ptr.offset as i128;
        if target_wide < 0 || target_wide > usize::MAX as i128 {
            return Err(Error::PointerOutOfBounds);
        }
        let address = target_wide as usize;
        let newly = match context.register_shared_ptr(address, type_id) {
            Ok(b) => b,
            Err(e) => {
                return Err(e);
            },
        };
        if !newly {
            return Ok(());
        }
        let layout = Layout { size: self.ptr.metadata as usize, align: 1 };
        match context.check_subtree_ptr(address, &layout) {
            Ok(()) => {},
            Err(e) => {
                return Err(e);
            },
        }
        let range = match context.push_subtree_range(address, address + layout.size) {
            Ok(t) => t,
            Err(e) => {
                return Err(e);
            },
        };
        // A byte-slice pointee has no internal structure left to check.
        match context.pop_subtree_range(range) {
            Ok(()) => Ok(()),
            Err(e) => Err(e),
        }
    }
}

/// Sharing idempotence: serializing the same pointee identity twice under a
/// deduplicating strategy writes the pointee bytes once, and both
/// serializations resolve to the same position.
pub proof fn lemma_sharing_idempotence(
    bytes0: Seq<u8>,
    shared0: Map<usize, usize>,
    value: Seq<u8>,
    address: usize,
)
    requires
        !shared0.contains_key(address),
        bytes0.len() <= usize::MAX,
    ensures
        ({
            let first = spec_serialize_step(bytes0, shared0, value, address);
            let second = spec_serialize_step(first.0, first.1, value, address);
            &&& first.0 == bytes0 + value
            &&& second.0 == first.0
            &&& second.1 == first.1
            &&& second.2 == first.2
        }),
{
}

} // verus!
