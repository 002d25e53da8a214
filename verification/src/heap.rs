//! Typed heap management: reallocation by element count and explicit
//! release, over single-owner allocation handles.
//!
//! The heap hands out opaque pointers and tracks, for each one, how many
//! elements of the heap's element size it is valid for. Reallocation
//! computes its byte need as element size times count, either returns a
//! pointer valid for exactly the requested count or reports exhaustion
//! with an absent result, and on exhaustion leaves the heap — including
//! the block being grown — untouched. A pointer handed to `free`, or
//! retired by a successful reallocation, is dead from then on: the
//! contract refuses it everywhere, and no later allocation ever returns
//! it again. New memory is never initialized, so only validity and
//! extent are tracked, not contents.

use vstd::prelude::*;
use vstd::pervasive::VecAdditionalExecFns;

verus! {

/// An allocation handle: stands for a typed pointer obtained from the
/// heap. Two handles are the same pointer exactly when their ids agree.
#[derive(Clone, Copy, PartialEq, Eq, Structural)]
pub struct Ptr {
    pub id: usize,
}

/// A typed allocator with a fixed element size and a byte capacity; the
/// capacity bound is what makes exhaustion observable.
pub struct Heap {
    blocks: Vec<Option<usize>>,
    elem_size: usize,
    limit: usize,
    in_use: usize,
}

/// Total bytes of the live blocks: the sum of count times element size
/// over every slot still holding an allocation.
spec fn live_bytes(blocks: Seq<Option<usize>>, esz: nat) -> nat
    decreases blocks.len(),
{
    if blocks.len() == 0 {
        0
    } else {
        live_bytes(blocks.drop_last(), esz) + match blocks.last() {
            Some(c) => (c as nat) * esz,
            None => 0,
        }
    }
}

proof fn lemma_live_bytes_push(blocks: Seq<Option<usize>>, c: usize, esz: nat)
    ensures
        live_bytes(blocks.push(Some(c)), esz) == live_bytes(blocks, esz) + c * esz,
{
    let b2 = blocks.push(Some(c));
    assert(b2.drop_last() =~= blocks);
    assert(b2.last() == Some(c));
}

proof fn lemma_live_bytes_lower(blocks: Seq<Option<usize>>, i: int, esz: nat)
    requires
        0 <= i < blocks.len(),
        blocks[i] is Some,
    ensures
        blocks[i]->Some_0 * esz <= live_bytes(blocks, esz),
    decreases blocks.len(),
{
    if i == blocks.len() - 1 {
        assert(blocks.last() == blocks[i]);
    } else {
        assert(blocks.drop_last()[i] == blocks[i]);
        lemma_live_bytes_lower(blocks.drop_last(), i, esz);
    }
}

proof fn lemma_live_bytes_update_none(blocks: Seq<Option<usize>>, i: int, esz: nat)
    requires
        0 <= i < blocks.len(),
        blocks[i] is Some,
    ensures
        live_bytes(blocks.update(i, None), esz) == live_bytes(blocks, esz) - blocks[i]->Some_0
            * esz,
    decreases blocks.len(),
{
    let b2 = blocks.update(i, None);
    assert(b2.len() == blocks.len());
    if i == blocks.len() - 1 {
        assert(b2.drop_last() =~= blocks.drop_last());
        assert(b2.last() == None::<usize>);
    } else {
        assert(b2.drop_last() =~= blocks.drop_last().update(i, None));
        assert(b2.last() == blocks.last());
        assert(blocks.drop_last()[i] == blocks[i]);
        lemma_live_bytes_update_none(blocks.drop_last(), i, esz);
    }
}

impl Heap {
    /// Bytes each element occupies.
    pub closed spec fn elem_size(self) -> nat {
        self.elem_size as nat
    }

    /// The byte capacity the heap was created with.
    pub closed spec fn capacity(self) -> nat {
        self.limit as nat
    }

    /// Bytes currently held by live allocations.
    pub closed spec fn used_bytes(self) -> nat {
        self.in_use as nat
    }

    /// How many pointers the heap has ever handed out.
    pub closed spec fn issued(self) -> nat {
        self.blocks@.len()
    }

    /// True while `p` is a pointer this heap handed out and has not yet
    /// retired: only such a pointer may be dereferenced, grown or freed.
    pub closed spec fn live(self, p: Ptr) -> bool {
        p.id < self.blocks@.len() && self.blocks@[p.id as int] is Some
    }

    /// True once `p` has been handed out and then freed or retired by a
    /// reallocation; a retired pointer never comes back.
    pub closed spec fn retired(self, p: Ptr) -> bool {
        p.id < self.blocks@.len() && self.blocks@[p.id as int] is None
    }

    /// The element count the live pointer `p` is valid for.
    pub closed spec fn count_of(self, p: Ptr) -> nat {
        self.blocks@[p.id as int]->Some_0 as nat
    }

    /// The heap's internal accounting is consistent.
    pub closed spec fn wf(self) -> bool {
        &&& self.elem_size >= 1
        &&& self.in_use == live_bytes(self.blocks@, self.elem_size as nat)
        &&& self.in_use <= self.limit
    }

    /// The byte size a block of `count` elements requires: element size
    /// times count.
    pub open spec fn byte_size(self, count: nat) -> nat {
        count * self.elem_size()
    }

    /// The bytes a reallocation gives back by retiring its old block.
    pub open spec fn released_bytes(self, ptr: Option<Ptr>) -> nat {
        match ptr {
            Some(p) => self.byte_size(self.count_of(p)),
            None => 0,
        }
    }

    /// Exactly when a reallocation succeeds: the byte need is
    /// representable and, with the old block's bytes given back, fits
    /// the capacity.
    pub open spec fn can_alloc(self, ptr: Option<Ptr>, count: nat) -> bool {
        &&& self.byte_size(count) <= usize::MAX
        &&& self.used_bytes() - self.released_bytes(ptr) + self.byte_size(count) <= self.capacity()
    }

    /// An empty heap for elements of `elem_size` bytes, with `capacity`
    /// bytes to hand out before it reports exhaustion.
    pub fn new(elem_size: usize, capacity: usize) -> (h: Heap)
        requires
            elem_size >= 1,
        ensures
            h.wf(),
            h.elem_size() == elem_size,
            h.capacity() == capacity,
            h.used_bytes() == 0,
            h.issued() == 0,
            forall|p: Ptr| !h.live(p) && !h.retired(p),
    {
        Heap { blocks: Vec::new(), elem_size, limit: capacity, in_use: 0 }
    }

    /// Typed reallocation: an absent `ptr` requests a fresh block, a live
    /// one is grown or shrunk by moving. Either returns a fresh pointer
    /// valid for exactly `count` elements — never fewer — retiring the
    /// old block, or reports exhaustion with `None` and changes nothing,
    /// not even the old block. The result is distinct from every pointer
    /// retired before the call.
    pub fn realloc_items(&mut self, ptr: Option<Ptr>, count: usize) -> (r: Option<Ptr>)
        requires
            old(self).wf(),
            count >= 1,
            ptr matches Some(p) ==> old(self).live(p),
        ensures
            final(self).wf(),
            final(self).elem_size() == old(self).elem_size(),
            final(self).capacity() == old(self).capacity(),
            r is Some <==> old(self).can_alloc(ptr, count as nat),
            match r {
                Some(q) => {
                    &&& q.id == old(self).issued()
                    &&& final(self).issued() == old(self).issued() + 1
                    &&& final(self).live(q)
                    &&& final(self).count_of(q) == count
                    &&& (ptr matches Some(p) ==> final(self).retired(p))
                    &&& forall|p2: Ptr| old(self).retired(p2) ==> final(self).retired(p2)
                    &&& forall|p2: Ptr| old(self).retired(p2) ==> p2 != q
                    &&& forall|p2: Ptr|
                        #![trigger final(self).live(p2)]
                        (old(self).live(p2) && (ptr matches Some(p) ==> p2 != p)) ==> (final(
                            self).live(p2) && final(self).count_of(p2) == old(self).count_of(p2))
                    &&& final(self).used_bytes() == old(self).used_bytes() - old(
                        self).released_bytes(ptr) + old(self).byte_size(count as nat)
                },
                None => *final(self) == *old(self),
            },
    {
        let released: usize = match ptr {
            Some(p) => {
                proof {
                    lemma_live_bytes_lower(self.blocks@, p.id as int, self.elem_size as nat);
                }
                let c = self.blocks[p.id].unwrap();
                c * self.elem_size
            },
            None => 0,
        };
        let base = self.in_use - released;
        match count.checked_mul(self.elem_size) {
            None => None,
            Some(need) => {
                if need <= self.limit - base {
                    match ptr {
                        Some(p) => {
                            proof {
                                lemma_live_bytes_update_none(
                                    self.blocks@,
                                    p.id as int,
                                    self.elem_size as nat,
                                );
                            }
                            self.blocks.set(p.id, None);
                        },
                        None => {},
                    }
                    proof {
                        lemma_live_bytes_push(self.blocks@, count, self.elem_size as nat);
                    }
                    self.blocks.push(Some(count));
                    self.in_use = base + need;
                    let q = Ptr { id: self.blocks.len() - 1 };
                    Some(q)
                } else {
                    None
                }
            },
        }
    }

    /// Explicit release of a live pointer: retires it for good. Passing a
    /// pointer that is not live — freed already, or never issued here —
    /// is outside the contract, exactly as a double free is for the C
    /// deallocation primitive.
    pub fn free(&mut self, ptr: Ptr)
        requires
            old(self).wf(),
            old(self).live(ptr),
        ensures
            final(self).wf(),
            final(self).elem_size() == old(self).elem_size(),
            final(self).capacity() == old(self).capacity(),
            final(self).issued() == old(self).issued(),
            final(self).retired(ptr),
            !final(self).live(ptr),
            forall|p2: Ptr|
                #![trigger final(self).live(p2)]
                p2 != ptr ==> (final(self).live(p2) == old(self).live(p2)) && (old(self).live(p2)
                    ==> final(self).count_of(p2) == old(self).count_of(p2)),
            forall|p2: Ptr| old(self).retired(p2) ==> final(self).retired(p2),
            final(self).used_bytes() == old(self).used_bytes() - old(self).byte_size(
                old(self).count_of(ptr),
            ),
    {
        proof {
            lemma_live_bytes_lower(self.blocks@, ptr.id as int, self.elem_size as nat);
            lemma_live_bytes_update_none(self.blocks@, ptr.id as int, self.elem_size as nat);
        }
        let c = self.blocks[ptr.id].unwrap();
        let bytes = c * self.elem_size;
        self.blocks.set(ptr.id, None);
        self.in_use = self.in_use - bytes;
    }

    /// Whether `p` is still live: issued by this heap and not yet freed
    /// or retired.
    pub fn is_live(&self, p: Ptr) -> (b: bool)
        ensures
            b == self.live(p),
    {
        p.id < self.blocks.len() && self.blocks[p.id].is_some()
    }

    /// The element count a live pointer is valid for.
    pub fn live_count(&self, p: Ptr) -> (c: usize)
        requires
            self.live(p),
        ensures
            c == self.count_of(p),
    {
        self.blocks[p.id].unwrap()
    }

    /// Bytes currently held by live allocations.
    pub fn used(&self) -> (u: usize)
        ensures
            u == self.used_bytes(),
    {
        self.in_use
    }

    /// Every live pointer was issued by this heap: its id lies below the
    /// issue counter.
    pub proof fn lemma_live_id_bounded(self, p: Ptr)
        requires
            self.live(p),
        ensures
            p.id < self.issued(),
    {
    }

    /// A pointer allocated and then freed is never returned again: any
    /// pointer a later allocation hands out differs from every pointer
    /// the heap had already issued — in particular from every freed one —
    /// because issue counters only grow.
    pub proof fn lemma_freed_never_reissued(pre: Heap, post: Heap, p: Ptr, q: Ptr)
        requires
            p.id < pre.issued(),
            pre.issued() <= post.issued(),
            q.id == post.issued(),
        ensures
            q != p,
    {
    }
}

} // verus!
