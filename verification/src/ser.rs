//! Serialization contexts and adapters.
//!
//! A serialization pass threads a single context through the whole encode:
//! a [`Writer`] that appends bytes and reports the current position, an
//! [`Allocator`] that provides stack-disciplined scratch memory, and a
//! [`Sharing`] strategy that records where multiply-referenced values were
//! first placed. [`Composite`] combines one of each into the context passed
//! through a pass.

use vstd::prelude::*;
use vstd::slice::slice_to_vec;
use crate::{assoc_map, lemma_assoc_map_absent, lemma_assoc_map_last_match, Error, Layout};

verus! {

/// Reports a position inside a byte sink.
pub trait Positional: Sized {
    /// The bytes written so far.
    spec fn bytes(&self) -> Seq<u8>;

    /// Reports the current write position: the number of bytes written.
    fn pos(&self) -> (r: usize)
        ensures
            r == self.bytes().len(),
    ;
}

/// An append-only byte sink. There is no random-access rewrite: a value's
/// position is final once written.
pub trait Writer: Positional {
    /// The most bytes this writer can ever hold.
    spec fn capacity(&self) -> int;

    /// Appends `data` to the written bytes.
    ///
    /// Fails with [`Error::CapacityExhausted`] exactly when the backing
    /// storage cannot hold the new bytes, leaving the written bytes
    /// unchanged.
    fn write(&mut self, data: &[u8]) -> (r: Result<(), Error>)
        ensures
            final(self).capacity() == old(self).capacity(),
            r is Ok <==> old(self).bytes().len() + data@.len() <= old(self).capacity(),
            r is Ok ==> final(self).bytes() == old(self).bytes() + data@,
            r is Err ==> final(self).bytes() == old(self).bytes() && r == Err::<(), Error>(
                Error::CapacityExhausted,
            ),
    ;
}

/// A stack-discipline scratch-memory provider for transient serialization
/// state. Allocations must be released in exact reverse order of
/// acquisition.
pub trait Allocator: Sized {
    /// The live scratch allocations, oldest first.
    spec fn allocs(&self) -> Seq<(usize, Layout)>;

    /// Whether one more allocation of `layout` fits the scratch capacity.
    spec fn can_alloc(&self, layout: Layout) -> bool;

    /// Acquires scratch space of `layout`, returning its address.
    ///
    /// Fails with [`Error::CapacityExhausted`] exactly when the scratch
    /// capacity is exhausted.
    fn push_alloc(&mut self, layout: Layout) -> (r: Result<usize, Error>)
        ensures
            r is Ok <==> old(self).can_alloc(layout),
            r matches Ok(addr) ==> final(self).allocs() == old(self).allocs().push(
                (addr, layout),
            ),
            r is Err ==> *final(self) == *old(self) && r == Err::<usize, Error>(
                Error::CapacityExhausted,
            ),
    ;

    /// Releases the most recent live allocation, which must be `(ptr,
    /// layout)`; releasing out of order fails with
    /// [`Error::OutOfOrderPop`] and changes nothing.
    fn pop_alloc(&mut self, ptr: usize, layout: Layout) -> (r: Result<(), Error>)
        ensures
            r is Ok <==> old(self).allocs().len() > 0 && old(self).allocs().last() == (
            ptr,
            layout,
            ),
            r is Ok ==> final(self).allocs() == old(self).allocs().drop_last(),
            r is Err ==> *final(self) == *old(self) && r == Err::<(), Error>(
                Error::OutOfOrderPop,
            ),
    ;
}

/// A shared-pointer strategy: maps an original value's identity to the
/// buffer position where it was first serialized.
pub trait Sharing: Sized {
    /// The recorded identity-to-position map.
    spec fn shared(&self) -> Map<usize, usize>;

    /// Whether this strategy records positions at all. A strategy that does
    /// not keeps its map empty and serializes every reference
    /// independently.
    spec fn dedups() -> bool;

    /// Looks up the recorded position for `address`.
    fn get_shared_ptr(&self, address: usize) -> (r: Option<usize>)
        ensures
            r == if self.shared().contains_key(address) {
                Some(self.shared()[address])
            } else {
                None::<usize>
            },
    ;

    /// Records that the value identified by `address` was serialized at
    /// `pos`.
    fn add_shared_ptr(&mut self, address: usize, pos: usize) -> (r: Result<(), Error>)
        ensures
            r is Ok,
            Self::dedups() ==> final(self).shared() == old(self).shared().insert(address, pos),
            !Self::dedups() ==> *final(self) == *old(self),
    ;
}

/// Whether every position recorded in a sharing registry lies within the
/// first `len` written bytes. Serialization records a value's start
/// position, so an empty value's position can equal `len` itself.
pub open spec fn spec_shared_within(shared: Map<usize, usize>, len: int) -> bool {
    forall|a: usize| #[trigger] shared.contains_key(a) ==> shared[a] <= len
}

/// An append-only writer over a fixed-capacity buffer; it reports
/// [`Error::CapacityExhausted`] instead of growing.
pub struct BufferWriter {
    /// The bytes written so far.
    pub buf: Vec<u8>,
    /// The fixed capacity in bytes.
    pub cap: usize,
}

impl BufferWriter {
    /// Creates an empty writer that can hold at most `cap` bytes.
    pub fn new(cap: usize) -> (r: BufferWriter)
        ensures
            r.bytes() == Seq::<u8>::empty(),
            r.capacity() == cap,
    {
        BufferWriter { buf: Vec::new(), cap }
    }

    /// Consumes the writer and returns the written bytes.
    pub fn into_vec(self) -> (r: Vec<u8>)
        ensures
            r@ == self.bytes(),
    {
        self.buf
    }
}

impl Positional for BufferWriter {
    open spec fn bytes(&self) -> Seq<u8> {
        self.buf@
    }

    fn pos(&self) -> (r: usize) {
        self.buf.len()
    }
}

impl Writer for BufferWriter {
    open spec fn capacity(&self) -> int {
        self.cap as int
    }

    fn write(&mut self, data: &[u8]) -> (r: Result<(), Error>) {
        let n = data.len();
        let len = self.buf.len();
        if len <= self.cap && n <= self.cap - len {
            let mut tail = slice_to_vec(data);
            self.buf.append(&mut tail);
            Ok(())
        } else {
            Err(Error::CapacityExhausted)
        }
    }
}

/// An append-only writer over growable storage, for environments where
/// allocations can be made.
pub struct VecWriter {
    /// The bytes written so far.
    pub buf: Vec<u8>,
}

impl VecWriter {
    /// Creates an empty growable writer.
    pub fn new() -> (r: VecWriter)
        ensures
            r.bytes() == Seq::<u8>::empty(),
    {
        VecWriter { buf: Vec::new() }
    }

    /// Consumes the writer and returns the written bytes.
    pub fn into_vec(self) -> (r: Vec<u8>)
        ensures
            r@ == self.bytes(),
    {
        self.buf
    }
}

impl Positional for VecWriter {
    open spec fn bytes(&self) -> Seq<u8> {
        self.buf@
    }

    fn pos(&self) -> (r: usize) {
        self.buf.len()
    }
}

impl Writer for VecWriter {
    open spec fn capacity(&self) -> int {
        usize::MAX as int
    }

    fn write(&mut self, data: &[u8]) -> (r: Result<(), Error>) {
        let n = data.len();
        let len = self.buf.len();
        if n <= usize::MAX - len {
            let mut tail = slice_to_vec(data);
            self.buf.append(&mut tail);
            Ok(())
        } else {
            Err(Error::CapacityExhausted)
        }
    }
}

/// A scratch allocator over a fixed capacity. Addresses are byte offsets
/// into the scratch arena; acquisitions stack up from offset zero.
pub struct BufferAllocator {
    /// The live allocations, oldest first.
    pub stack: Vec<(usize, Layout)>,
    /// The arena offset where the next allocation would start.
    pub used: usize,
    /// The fixed scratch capacity in bytes.
    pub cap: usize,
}

impl BufferAllocator {
    /// Well-formedness of the arena: every live allocation ends at or
    /// before the arena cursor, earlier allocations end at or before later
    /// ones begin — so live spans never overlap — and the cursor stays
    /// within the capacity.
    pub open spec fn arena_wf(&self) -> bool {
        &&& self.used <= self.cap
        &&& forall|i: int|
            0 <= i < self.stack@.len() ==> (#[trigger] self.stack@[i]).0 + self.stack@[i].1.size
                <= self.used
        &&& forall|i: int, j: int|
            0 <= i < j < self.stack@.len() ==> (#[trigger] self.stack@[i]).0
                + self.stack@[i].1.size <= (#[trigger] self.stack@[j]).0
    }

    /// Creates an empty allocator with `cap` bytes of scratch capacity.
    pub fn new(cap: usize) -> (r: BufferAllocator)
        ensures
            r.allocs() == Seq::<(usize, Layout)>::empty(),
            r.used == 0,
            r.cap == cap,
            r.arena_wf(),
    {
        BufferAllocator { stack: Vec::new(), used: 0, cap }
    }
}

impl Allocator for BufferAllocator {
    open spec fn allocs(&self) -> Seq<(usize, Layout)> {
        self.stack@
    }

    open spec fn can_alloc(&self, layout: Layout) -> bool {
        self.used + layout.size <= self.cap
    }

    fn push_alloc(&mut self, layout: Layout) -> (r: Result<usize, Error>)
        ensures
            old(self).arena_wf() ==> final(self).arena_wf(),
            r matches Ok(addr) ==> addr == old(self).used && final(self).used == old(self).used
                + layout.size,
            old(self).arena_wf() && r is Ok ==> forall|i: int|
                0 <= i < old(self).stack@.len() ==> (#[trigger] old(self).stack@[i]).0
                    + old(self).stack@[i].1.size <= r->Ok_0,
    {
        if self.used <= self.cap && layout.size <= self.cap - self.used {
            let addr = self.used;
            self.used = self.used + layout.size;
            self.stack.push((addr, layout));
            Ok(addr)
        } else {
            Err(Error::CapacityExhausted)
        }
    }

    fn pop_alloc(&mut self, ptr: usize, layout: Layout) -> (r: Result<(), Error>)
        ensures
            old(self).arena_wf() ==> final(self).arena_wf(),
            r is Ok ==> final(self).used == ptr,
            old(self).arena_wf() && r is Ok ==> final(self).can_alloc(layout),
    {
        let n = self.stack.len();
        if n > 0 {
            let (addr, lay) = self.stack[n - 1];
            if addr == ptr && lay.size == layout.size && lay.align == layout.align {
                let _ = self.stack.pop();
                self.used = ptr;
                return Ok(());
            }
        }
        Err(Error::OutOfOrderPop)
    }
}

/// The deduplicating shared-pointer strategy: the first serialization of a
/// value records its position, and every later reference reuses it.
pub struct Unify {
    /// The recorded identity-to-position entries, in insertion order.
    pub entries: Vec<(usize, usize)>,
}

impl Unify {
    /// Creates an empty registry.
    pub fn new() -> (r: Unify)
        ensures
            r.shared() == Map::<usize, usize>::empty(),
    {
        Unify { entries: Vec::new() }
    }
}

impl Sharing for Unify {
    open spec fn shared(&self) -> Map<usize, usize> {
        assoc_map(self.entries@)
    }

    open spec fn dedups() -> bool {
        true
    }

    fn get_shared_ptr(&self, address: usize) -> (r: Option<usize>) {
        let n = self.entries.len();
        let mut i: usize = n;
        while i > 0
            invariant
                i <= n,
                n == self.entries@.len(),
                forall|j: int| i <= j < n ==> (#[trigger] self.entries@[j]).0 != address,
            decreases i,
        {
            i = i - 1;
            let (key, pos) = self.entries[i];
            if key == address {
                proof {
                    lemma_assoc_map_last_match(self.entries@, address, i as int);
                }
                return Some(pos);
            }
        }
        proof {
            lemma_assoc_map_absent(self.entries@, address);
        }
        None
    }

    fn add_shared_ptr(&mut self, address: usize, pos: usize) -> (r: Result<(), Error>) {
        self.entries.push((address, pos));
        proof {
            assert(self.entries@.drop_last() =~= old(self).entries@);
        }
        Ok(())
    }
}

/// The always-duplicate strategy: nothing is recorded, and every reference
/// to a value serializes its own copy.
pub struct Duplicate;

impl Sharing for Duplicate {
    open spec fn shared(&self) -> Map<usize, usize> {
        Map::empty()
    }

    open spec fn dedups() -> bool {
        false
    }

    fn get_shared_ptr(&self, address: usize) -> (r: Option<usize>) {
        None
    }

    fn add_shared_ptr(&mut self, address: usize, pos: usize) -> (r: Result<(), Error>) {
        Ok(())
    }
}

/// A serializer built from composable pieces: one writer, one allocator and
/// one shared-pointer strategy, each forwarded to by the corresponding
/// capability.
pub struct Composite<W, A, S> {
    /// The writer of the composite serializer.
    pub writer: W,
    /// The allocator of the composite serializer.
    pub allocator: A,
    /// The shared pointer strategy of the composite serializer.
    pub share: S,
}

impl<W, A, S> Composite<W, A, S> {
    /// Creates a new composite serializer from a writer, an allocator and a
    /// shared pointer strategy.
    pub fn new(writer: W, allocator: A, share: S) -> (r: Self)
        ensures
            r.writer == writer,
            r.allocator == allocator,
            r.share == share,
    {
        Composite { writer, allocator, share }
    }

    /// Consumes the composite serializer and returns the components.
    pub fn into_raw_parts(self) -> (r: (W, A, S))
        ensures
            r == (self.writer, self.allocator, self.share),
    {
        (self.writer, self.allocator, self.share)
    }

    /// Consumes the composite serializer and returns the writer.
    ///
    /// The allocator and shared pointer strategy are discarded.
    pub fn into_writer(self) -> (r: W)
        ensures
            r == self.writer,
    {
        self.writer
    }
}

/// A serializer for environments where allocations cannot be made: a
/// fixed-capacity writer and scratch arena, and no shared-pointer
/// deduplication. Running out of either space reports
/// [`Error::CapacityExhausted`].
pub type CoreSerializer = Composite<BufferWriter, BufferAllocator, Duplicate>;

/// A general-purpose serializer backed by growable storage, with
/// shared-pointer deduplication.
pub type AllocSerializer = Composite<VecWriter, BufferAllocator, Unify>;

impl<W: Positional, A, S> Positional for Composite<W, A, S> {
    open spec fn bytes(&self) -> Seq<u8> {
        self.writer.bytes()
    }

    fn pos(&self) -> (r: usize) {
        self.writer.pos()
    }
}

impl<W: Writer, A, S> Writer for Composite<W, A, S> {
    open spec fn capacity(&self) -> int {
        self.writer.capacity()
    }

    fn write(&mut self, data: &[u8]) -> (r: Result<(), Error>)
        ensures
            final(self).allocator == old(self).allocator,
            final(self).share == old(self).share,
    {
        self.writer.write(data)
    }
}

impl<W, A: Allocator, S> Allocator for Composite<W, A, S> {
    open spec fn allocs(&self) -> Seq<(usize, Layout)> {
        self.allocator.allocs()
    }

    open spec fn can_alloc(&self, layout: Layout) -> bool {
        self.allocator.can_alloc(layout)
    }

    fn push_alloc(&mut self, layout: Layout) -> (r: Result<usize, Error>)
        ensures
            final(self).writer == old(self).writer,
            final(self).share == old(self).share,
    {
        self.allocator.push_alloc(layout)
    }

    fn pop_alloc(&mut self, ptr: usize, layout: Layout) -> (r: Result<(), Error>)
        ensures
            final(self).writer == old(self).writer,
            final(self).share == old(self).share,
    {
        self.allocator.pop_alloc(ptr, layout)
    }
}

impl<W, A, S: Sharing> Sharing for Composite<W, A, S> {
    open spec fn shared(&self) -> Map<usize, usize> {
        self.share.shared()
    }

    open spec fn dedups() -> bool {
        S::dedups()
    }

    fn get_shared_ptr(&self, address: usize) -> (r: Option<usize>) {
        self.share.get_shared_ptr(address)
    }

    fn add_shared_ptr(&mut self, address: usize, pos: usize) -> (r: Result<(), Error>)
        ensures
            final(self).writer == old(self).writer,
            final(self).allocator == old(self).allocator,
    {
        self.share.add_shared_ptr(address, pos)
    }
}

} // verus!
