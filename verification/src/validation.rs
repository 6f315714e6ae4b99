//! The validation engine: proves an untrusted buffer safe to read in place.
//!
//! Validation walks the pointer graph of a buffer while tracking a single
//! active subtree range: the span of bytes that the value currently being
//! checked may still claim for its pointees. Every pointer dereference is
//! bounds-checked against that range ([`ArchiveContext::check_subtree_ptr`]),
//! each pointee claims its span by narrowing the range
//! ([`ArchiveContext::push_subtree_range`]), and finished claims are
//! restored in strict reverse order ([`ArchiveContext::pop_subtree_range`]).
//! Values reachable through more than one pointer are checked exactly once
//! and guarded against conflicting type interpretations by a
//! [`SharedContext`].

use vstd::prelude::*;
use crate::{assoc_map, lemma_assoc_map_absent, lemma_assoc_map_last_match, Error, Layout};
use crate::rel_ptr::RelPtr;

verus! {

/// A span of buffer bytes, as claimed and restored during validation.
#[derive(Clone, Copy, Debug, PartialEq, Eq, Structural)]
pub struct SubtreeRange {
    /// The first byte position of the span.
    pub start: usize,
    /// The first byte position past the span.
    pub end: usize,
}

/// Derives a pointee's byte layout from the metadata stored in a relative
/// pointer (for a slice, its element count).
pub trait LayoutRaw {
    /// The layout for `metadata`, or `None` when the computed size
    /// overflows the addressable range.
    spec fn spec_layout(metadata: usize) -> Option<Layout>;

    /// Computes the layout for `metadata`; fails with
    /// [`Error::LayoutOverflow`] exactly when the computed size overflows.
    fn layout_raw(metadata: usize) -> (r: Result<Layout, Error>)
        ensures
            r == match Self::spec_layout(metadata) {
                Some(l) => Ok::<Layout, Error>(l),
                None => Err::<Layout, Error>(Error::LayoutOverflow),
            },
    ;
}

/// A pointee that is a slice of bytes: its size is its element count.
pub struct ByteSlice;

impl LayoutRaw for ByteSlice {
    open spec fn spec_layout(metadata: usize) -> Option<Layout> {
        Some(Layout { size: metadata, align: 1 })
    }

    fn layout_raw(metadata: usize) -> (r: Result<Layout, Error>) {
        Ok(Layout { size: metadata, align: 1 })
    }
}

/// A pointee that is a slice of 32-bit values: its size is four times its
/// element count, which can overflow.
pub struct U32Slice;

impl LayoutRaw for U32Slice {
    open spec fn spec_layout(metadata: usize) -> Option<Layout> {
        if metadata * 4 <= usize::MAX {
            Some(Layout { size: (metadata * 4) as usize, align: 4 })
        } else {
            None
        }
    }

    fn layout_raw(metadata: usize) -> (r: Result<Layout, Error>) {
        if metadata <= usize::MAX / 4 {
            Ok(Layout { size: metadata * 4, align: 4 })
        } else {
            Err(Error::LayoutOverflow)
        }
    }
}

/// A context that validates nonlocal archive memory by tracking the active
/// subtree range.
pub trait ArchiveContext: Sized {
    /// The length of the buffer this context was created for.
    spec fn arch_len(&self) -> int;

    /// The first position of the active subtree range.
    spec fn range_start(&self) -> int;

    /// The first position past the active subtree range.
    spec fn range_end(&self) -> int;

    /// Well-formedness: the active range lies inside the buffer.
    spec fn wf(&self) -> bool;

    /// What well-formedness guarantees about the active range.
    proof fn wf_facts(&self)
        requires
            self.wf(),
        ensures
            0 <= self.range_start() <= self.range_end() <= self.arch_len() <= usize::MAX,
    ;

    /// Checks that `[ptr, ptr + layout.size)` lies completely within the
    /// active subtree range; this is the single gate that keeps a malicious
    /// offset from reaching outside the buffer or into an already-claimed
    /// region.
    fn check_subtree_ptr(&mut self, ptr: usize, layout: &Layout) -> (r: Result<(), Error>)
        requires
            old(self).wf(),
        ensures
            *final(self) == *old(self),
            r is Ok <==> old(self).range_start() <= ptr && ptr + layout.size
                <= old(self).range_end(),
            r is Err ==> r == Err::<(), Error>(Error::PointerOutOfBounds),
    ;

    /// Claims `[root, end)` for the object now being validated. Afterwards
    /// the active range keeps its start and ends at `root`, so the object's
    /// own pointees must lie before it. Returns the deferred remainder
    /// `[end, old range end)`, to be restored by
    /// [`Self::pop_subtree_range`].
    fn push_subtree_range(&mut self, root: usize, end: usize) -> (r: Result<SubtreeRange, Error>)
        requires
            old(self).wf(),
            old(self).range_start() <= root,
            root <= end,
            end <= old(self).range_end(),
        ensures
            final(self).wf(),
            final(self).arch_len() == old(self).arch_len(),
            final(self).range_start() == old(self).range_start(),
            final(self).range_end() == root,
            r matches Ok(t) && t.start == end && t.end == old(self).range_end(),
    ;

    /// Restores `range` as the active range. Fails with
    /// [`Error::OutOfOrderPop`], changing nothing, when `range` starts
    /// before the end of the currently active range — the sign that ranges
    /// were not released in strict reverse push order.
    fn pop_subtree_range(&mut self, range: SubtreeRange) -> (r: Result<(), Error>)
        requires
            old(self).wf(),
            range.start <= range.end,
            range.end <= old(self).arch_len(),
        ensures
            final(self).wf(),
            final(self).arch_len() == old(self).arch_len(),
            r is Ok <==> range.start >= old(self).range_end(),
            r is Ok ==> final(self).range_start() == range.start && final(self).range_end()
                == range.end,
            r is Err ==> *final(self) == *old(self) && r == Err::<(), Error>(Error::OutOfOrderPop),
    ;
}

/// A context that tracks values reachable through more than one pointer, so
/// each is validated exactly once and never under two type identities.
pub trait SharedContext: Sized {
    /// The registered addresses and the type identity each was claimed
    /// under.
    spec fn shared_types(&self) -> Map<usize, u64>;

    /// Registers `address` as a shared pointee claimed under `type_id`.
    ///
    /// Returns `Ok(true)` exactly once per distinct address — the caller
    /// must then validate the pointee — and `Ok(false)` on every later
    /// registration under the same identity. Registering an address under
    /// a different identity than before fails with
    /// [`Error::SharedTypeConflict`].
    fn register_shared_ptr(&mut self, address: usize, type_id: u64) -> (r: Result<bool, Error>)
        ensures
            final(self).shared_types() == spec_register(
                old(self).shared_types(),
                address,
                type_id,
            ).0,
            r == spec_register(old(self).shared_types(), address, type_id).1,
    ;
}

/// What registering a shared pointee does to the registry, and what it
/// returns.
pub open spec fn spec_register(m: Map<usize, u64>, address: usize, type_id: u64) -> (
    Map<usize, u64>,
    Result<bool, Error>,
) {
    if !m.contains_key(address) {
        (m.insert(address, type_id), Ok(true))
    } else if m[address] == type_id {
        (m, Ok(false))
    } else {
        (m, Err(Error::SharedTypeConflict))
    }
}

/// The subtree-range tracker: one active range over one buffer.
pub struct ArchiveValidator {
    /// The first position of the active range.
    pub start: usize,
    /// The first position past the active range.
    pub end: usize,
    /// The length of the buffer being validated.
    pub len: usize,
}

/// What pushing a subtree range does to the validator, and the remainder
/// token it returns.
pub open spec fn spec_push(v: ArchiveValidator, root: usize, end: usize) -> (
    ArchiveValidator,
    SubtreeRange,
) {
    (
        ArchiveValidator { start: v.start, end: root, len: v.len },
        SubtreeRange { start: end, end: v.end },
    )
}

/// What popping a subtree range does to the validator: the restored state,
/// or [`Error::OutOfOrderPop`] when `range` starts before the active end.
pub open spec fn spec_pop(v: ArchiveValidator, range: SubtreeRange) -> Result<
    ArchiveValidator,
    Error,
> {
    if range.start >= v.end {
        Ok(ArchiveValidator { start: range.start, end: range.end, len: v.len })
    } else {
        Err(Error::OutOfOrderPop)
    }
}

impl ArchiveValidator {
    /// Creates a validator for a buffer of `len` bytes, with the whole
    /// buffer as the active range.
    pub fn new(len: usize) -> (r: ArchiveValidator)
        ensures
            r.wf(),
            r.arch_len() == len,
            r.range_start() == 0,
            r.range_end() == len,
    {
        ArchiveValidator { start: 0, end: len, len }
    }
}

impl ArchiveContext for ArchiveValidator {
    open spec fn arch_len(&self) -> int {
        self.len as int
    }

    open spec fn range_start(&self) -> int {
        self.start as int
    }

    open spec fn range_end(&self) -> int {
        self.end as int
    }

    open spec fn wf(&self) -> bool {
        self.start <= self.end <= self.len
    }

    proof fn wf_facts(&self) {
    }

    fn check_subtree_ptr(&mut self, ptr: usize, layout: &Layout) -> (r: Result<(), Error>) {
        if ptr >= self.start && ptr <= self.end && layout.size <= self.end - ptr {
            Ok(())
        } else {
            Err(Error::PointerOutOfBounds)
        }
    }

    fn push_subtree_range(&mut self, root: usize, end: usize) -> (r: Result<SubtreeRange, Error>)
        ensures
            *final(self) == spec_push(*old(self), root, end).0,
            r == Ok::<SubtreeRange, Error>(spec_push(*old(self), root, end).1),
    {
        let token = SubtreeRange { start: end, end: self.end };
        self.end = root;
        Ok(token)
    }

    fn pop_subtree_range(&mut self, range: SubtreeRange) -> (r: Result<(), Error>)
        ensures
            match spec_pop(*old(self), range) {
                Ok(v) => r is Ok && *final(self) == v,
                Err(e) => r == Err::<(), Error>(e) && *final(self) == *old(self),
            },
    {
        if range.start >= self.end {
            self.start = range.start;
            self.end = range.end;
            Ok(())
        } else {
            Err(Error::OutOfOrderPop)
        }
    }
}

/// The shared-pointer registry used during validation: which addresses were
/// already claimed, and under which type identity.
pub struct SharedValidator {
    /// The registered entries, in registration order.
    pub entries: Vec<(usize, u64)>,
}

impl SharedValidator {
    /// Creates an empty registry.
    pub fn new() -> (r: SharedValidator)
        ensures
            r.shared_types() == Map::<usize, u64>::empty(),
    {
        SharedValidator { entries: Vec::new() }
    }

    fn find(&self, address: usize) -> (r: Option<u64>)
        ensures
            r == if self.shared_types().contains_key(address) {
                Some(self.shared_types()[address])
            } else {
                None::<u64>
            },
    {
        let n = self.entries.len();
        let mut i: usize = n;
        while i > 0
            invariant
                i <= n,
                n == self.entries@.len(),
                forall|j: int| i <= j < n ==> (#[trigger] self.entries@[j]).0 != address,
            decreases i,
        {
            i = i - 1;
            let (key, tid) = self.entries[i];
            if key == address {
                proof {
                    lemma_assoc_map_last_match(self.entries@, address, i as int);
                }
                return Some(tid);
            }
        }
        proof {
            lemma_assoc_map_absent(self.entries@, address);
        }
        None
    }
}

impl SharedContext for SharedValidator {
    open spec fn shared_types(&self) -> Map<usize, u64> {
        assoc_map(self.entries@)
    }

    fn register_shared_ptr(&mut self, address: usize, type_id: u64) -> (r: Result<bool, Error>)
        ensures
            spec_register(old(self).shared_types(), address, type_id).1 != Ok::<bool, Error>(true)
                ==> *final(self) == *old(self),
    {
        match self.find(address) {
            None => {
                self.entries.push((address, type_id));
                proof {
                    assert(self.entries@.drop_last() =~= old(self).entries@);
                }
                Ok(true)
            },
            Some(tid) => {
                if tid == type_id {
                    Ok(false)
                } else {
                    Err(Error::SharedTypeConflict)
                }
            },
        }
    }
}

/// The default validation context: a subtree-range tracker and a
/// shared-pointer registry for one buffer.
pub struct DefaultValidator {
    /// The subtree-range state.
    pub ranges: ArchiveValidator,
    /// The shared-pointer registry.
    pub shared: SharedValidator,
}

impl DefaultValidator {
    /// Creates a validation context for the given buffer.
    pub fn new(bytes: &[u8]) -> (r: DefaultValidator)
        ensures
            r.wf(),
            r.arch_len() == bytes@.len(),
            r.range_start() == 0,
            r.range_end() == bytes@.len(),
            r.shared_types() == Map::<usize, u64>::empty(),
    {
        DefaultValidator { ranges: ArchiveValidator::new(bytes.len()), shared: SharedValidator::new() }
    }
}

impl ArchiveContext for DefaultValidator {
    open spec fn arch_len(&self) -> int {
        self.ranges.arch_len()
    }

    open spec fn range_start(&self) -> int {
        self.ranges.range_start()
    }

    open spec fn range_end(&self) -> int {
        self.ranges.range_end()
    }

    open spec fn wf(&self) -> bool {
        self.ranges.wf()
    }

    proof fn wf_facts(&self) {
    }

    fn check_subtree_ptr(&mut self, ptr: usize, layout: &Layout) -> (r: Result<(), Error>) {
        self.ranges.check_subtree_ptr(ptr, layout)
    }

    fn push_subtree_range(&mut self, root: usize, end: usize) -> (r: Result<SubtreeRange, Error>)
        ensures
            final(self).ranges == spec_push(old(self).ranges, root, end).0,
            final(self).shared == old(self).shared,
            r == Ok::<SubtreeRange, Error>(spec_push(old(self).ranges, root, end).1),
    {
        self.ranges.push_subtree_range(root, end)
    }

    fn pop_subtree_range(&mut self, range: SubtreeRange) -> (r: Result<(), Error>)
        ensures
            final(self).shared == old(self).shared,
            match spec_pop(old(self).ranges, range) {
                Ok(v) => r is Ok && final(self).ranges == v,
                Err(e) => r == Err::<(), Error>(e) && *final(self) == *old(self),
            },
    {
        self.ranges.pop_subtree_range(range)
    }
}

impl SharedContext for DefaultValidator {
    open spec fn shared_types(&self) -> Map<usize, u64> {
        self.shared.shared_types()
    }

    fn register_shared_ptr(&mut self, address: usize, type_id: u64) -> (r: Result<bool, Error>)
        ensures
            final(self).ranges == old(self).ranges,
            spec_register(old(self).shared_types(), address, type_id).1 != Ok::<bool, Error>(true)
                ==> *final(self) == *old(self),
    {
        self.shared.register_shared_ptr(address, type_id)
    }
}

/// The outcome of resolving `base + offset` against an active range
/// `[start, end)` and bounds-checking it under `T`'s layout for `metadata`:
/// the resolved position, or the exact failure.
pub open spec fn spec_bounds_check<T: LayoutRaw>(
    start: int,
    end: int,
    base: int,
    offset: int,
    metadata: usize,
) -> Result<usize, Error> {
    let candidate = base + offset;
    if !(0 <= candidate <= usize::MAX) {
        Err(Error::PointerOutOfBounds)
    } else {
        match T::spec_layout(metadata) {
            None => Err(Error::LayoutOverflow),
            Some(l) => if start <= candidate && candidate + l.size <= end {
                Ok(candidate as usize)
            } else {
                Err(Error::PointerOutOfBounds)
            },
        }
    }
}

/// Computes the candidate position `base + offset`, derives `T`'s layout
/// from `metadata`, and checks the span against the active subtree range.
pub fn bounds_check_subtree_base_offset<C: ArchiveContext, T: LayoutRaw>(
    context: &mut C,
    base: usize,
    offset: isize,
    metadata: usize,
) -> (r: Result<usize, Error>)
    requires
        old(context).wf(),
    ensures
        *final(context) == *old(context),
        r == spec_bounds_check::<T>(
            old(context).range_start(),
            old(context).range_end(),
            base as int,
            offset as int,
            metadata,
        ),
{
    let candidate = base as i128 + offset as i128;
    if candidate < 0 || candidate > usize::MAX as i128 {
        return Err(Error::PointerOutOfBounds);
    }
    let ptr = candidate as usize;
    let layout = match T::layout_raw(metadata) {
        Ok(l) => l,
        Err(e) => {
            return Err(e);
        },
    };
    match context.check_subtree_ptr(ptr, &layout) {
        Ok(()) => Ok(ptr),
        Err(e) => Err(e),
    }
}

/// Checks that the pointee a relative pointer stored at `rel_ptr_pos`
/// designates can be dereferenced within the active subtree range, and
/// returns its position.
pub fn bounds_check_subtree_rel_ptr<C: ArchiveContext, T: LayoutRaw>(
    context: &mut C,
    rel_ptr: &RelPtr,
    rel_ptr_pos: usize,
) -> (r: Result<usize, Error>)
    requires
        old(context).wf(),
    ensures
        *final(context) == *old(context),
        r == spec_bounds_check::<T>(
            old(context).range_start(),
            old(context).range_end(),
            rel_ptr_pos as int,
            rel_ptr.offset as int,
            rel_ptr.metadata as usize,
        ),
{
    bounds_check_subtree_base_offset::<C, T>(
        context,
        rel_ptr_pos,
        rel_ptr.offset as isize,
        rel_ptr.metadata as usize,
    )
}

/// Claims a prefix of the remaining unclaimed bytes for a pointee at
/// `root` whose size is exactly `T`'s layout for `metadata`, deferring the
/// remainder for later restoration.
pub fn push_prefix_subtree<C: ArchiveContext, T: LayoutRaw>(
    context: &mut C,
    root: usize,
    metadata: usize,
) -> (r: Result<SubtreeRange, Error>)
    requires
        old(context).wf(),
        T::spec_layout(metadata) matches Some(l) ==> old(context).range_start() <= root && root
            + l.size <= old(context).range_end(),
    ensures
        final(context).wf(),
        final(context).arch_len() == old(context).arch_len(),
        match T::spec_layout(metadata) {
            Some(l) => {
                &&& r matches Ok(t) && t.start == root + l.size && t.end == old(
                    context,
                ).range_end()
                &&& final(context).range_start() == old(context).range_start()
                &&& final(context).range_end() == root
            },
            None => r == Err::<SubtreeRange, Error>(Error::LayoutOverflow) && *final(context)
                == *old(context),
        },
{
    proof {
        context.wf_facts();
    }
    let layout = match T::layout_raw(metadata) {
        Ok(l) => l,
        Err(e) => {
            return Err(e);
        },
    };
    let end = root + layout.size;
    context.push_subtree_range(root, end)
}

/// Range discipline: with an outer claim `[root1, end1)` and an inner claim
/// `[root2, end2)` pushed in that order, restoring the tokens in reverse
/// push order succeeds, while restoring the outer token first leaves the
/// inner token unrestorable: its pop fails with
/// [`Error::OutOfOrderPop`].
pub proof fn lemma_range_discipline(
    v0: ArchiveValidator,
    root1: usize,
    end1: usize,
    root2: usize,
    end2: usize,
)
    requires
        v0.wf(),
        v0.range_start() <= root2 <= end2 <= root1 <= end1 <= v0.range_end(),
        end2 < v0.range_end(),
    ensures
        ({
            let (v1, t1) = spec_push(v0, root1, end1);
            let (v2, t2) = spec_push(v1, root2, end2);
            &&& spec_pop(v2, t2) is Ok
            &&& spec_pop(spec_pop(v2, t2)->Ok_0, t1) is Ok
            &&& spec_pop(spec_pop(v2, t1)->Ok_0, t2) == Err::<ArchiveValidator, Error>(
                Error::OutOfOrderPop,
            )
        }),
{
}

/// Type-confusion rejection: an address registered under one type identity
/// can never be registered under a different one — the second registration
/// fails with [`Error::SharedTypeConflict`].
pub proof fn lemma_type_confusion_rejected(
    m0: Map<usize, u64>,
    address: usize,
    tid1: u64,
    tid2: u64,
)
    requires
        !m0.contains_key(address),
        tid1 != tid2,
    ensures
        ({
            let (m1, r1) = spec_register(m0, address, tid1);
            &&& r1 == Ok::<bool, Error>(true)
            &&& spec_register(m1, address, tid2).1 == Err::<bool, Error>(Error::SharedTypeConflict)
            &&& spec_register(m1, address, tid2).0 == m1
        }),
{
}

/// Shared validation happens exactly once: the first registration of an
/// address returns `true`, and every repeat under the same type identity
/// returns `false` and leaves the registry unchanged.
pub proof fn lemma_shared_registered_once(m0: Map<usize, u64>, address: usize, type_id: u64)
    requires
        !m0.contains_key(address),
    ensures
        ({
            let (m1, r1) = spec_register(m0, address, type_id);
            &&& r1 == Ok::<bool, Error>(true)
            &&& spec_register(m1, address, type_id) == (m1, Ok::<bool, Error>(false))
        }),
{
}

} // verus!
