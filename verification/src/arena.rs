//! A growable arena that hands out stable handles: values are stored in a
//! list of chunks, a new chunk (of doubled budget) is begun when the last
//! one is full, and existing entries are never moved or removed — so every
//! handle ever returned stays valid and keeps denoting the same slot.
//!
//! The module ends with two small demonstrations that build a cyclic list,
//! one over a plain vector of index-linked nodes and one over the arena.

use vstd::prelude::*;

verus! {

/// A stable handle into an arena: which chunk, and which slot within it.
#[derive(Clone, Copy, Debug, PartialEq, Eq, Structural)]
pub struct Handle {
    pub chunk: usize,
    pub slot: usize,
}

pub struct SArena<T> {
    chunks: Vec<Vec<T>>,
    chunk_cap: usize,
}

impl<T> SArena<T> {
    /// The stored contents, chunk by chunk.
    pub closed spec fn chunks_spec(&self) -> Seq<Seq<T>> {
        self.chunks@.map(|i: int, c: Vec<T>| c@)
    }

    /// There is always a chunk to fill.
    pub open spec fn wf(&self) -> bool {
        self.chunks_spec().len() >= 1
    }

    /// Whether a handle denotes a filled slot.
    pub open spec fn valid(&self, h: Handle) -> bool {
        h.chunk < self.chunks_spec().len() && h.slot < self.chunks_spec()[h.chunk as int].len()
    }

    /// The value a handle denotes.
    pub open spec fn get_spec(&self, h: Handle) -> T {
        self.chunks_spec()[h.chunk as int][h.slot as int]
    }

    pub fn new() -> (r: SArena<T>)
        ensures
            r.wf(),
            r.chunks_spec().len() == 1,
            r.chunks_spec()[0].len() == 0,
    {
        let mut chunks: Vec<Vec<T>> = Vec::new();
        chunks.push(Vec::new());
        SArena { chunks, chunk_cap: 10 }
    }

    /// Stores a value and returns its handle. Every handle that was valid
    /// stays valid and keeps denoting the value it denoted: entries never
    /// move.
    pub fn allocate(&mut self, value: T) -> (h: Handle)
        requires
            old(self).wf(),
        ensures
            final(self).wf(),
            final(self).valid(h),
            final(self).get_spec(h) == value,
            forall|h0: Handle|
                old(self).valid(h0) ==> final(self).valid(h0) && final(self).get_spec(h0) == old(
                    self,
                ).get_spec(h0),
    {
        let last = self.chunks.len() - 1;
        if self.chunks[last].len() >= self.chunk_cap {
            if self.chunk_cap <= usize::MAX / 2 {
                self.chunk_cap = self.chunk_cap * 2;
            }
            self.chunks.push(Vec::new());
        }
        let chunk = self.chunks.len() - 1;
        let target = &mut self.chunks[chunk];
        let slot = target.len();
        target.push(value);
        Handle { chunk, slot }
    }

    /// Reads the value a handle denotes.
    pub fn get(&self, h: Handle) -> (r: &T)
        requires
            self.valid(h),
        ensures
            r == self.get_spec(h),
    {
        &self.chunks[h.chunk][h.slot]
    }

    /// Borrows the value a handle denotes for mutation; only that slot
    /// changes.
    pub fn get_mut(&mut self, h: Handle) -> (r: &mut T)
        requires
            old(self).wf(),
            old(self).valid(h),
        ensures
            *r == old(self).get_spec(h),
            final(self).wf(),
            final(self).chunks_spec() == old(self).chunks_spec().update(
                h.chunk as int,
                old(self).chunks_spec()[h.chunk as int].update(h.slot as int, *final(r)),
            ),
    {
        let chunk = &mut self.chunks[h.chunk];
        &mut chunk[h.slot]
    }
}

/// A node of a cyclic list, linked by vector indices.
#[derive(Clone, Copy, Debug)]
struct NaiveNode {
    value: u32,
    next: usize,
}

/// Builds three index-linked nodes whose links form a cycle (the third
/// points back at the second) and walks five steps from the first,
/// collecting the values seen: 0, 1, 2, then around the cycle 1, 2.
pub fn naive() {
    let mut nodes: Vec<NaiveNode> = Vec::new();
    nodes.push(NaiveNode { value: 0, next: 1 });
    nodes.push(NaiveNode { value: 1, next: 2 });
    nodes.push(NaiveNode { value: 2, next: 1 });

    let mut vals: Vec<u32> = Vec::new();
    let mut cur: usize = 0;
    let mut step: usize = 0;
    while step < 5
        invariant
            nodes@.len() == 3,
            nodes@[0] == (NaiveNode { value: 0, next: 1 }),
            nodes@[1] == (NaiveNode { value: 1, next: 2 }),
            nodes@[2] == (NaiveNode { value: 2, next: 1 }),
            step <= 5,
            cur < 3,
            vals@.len() == step,
            forall|i: int|
                0 <= i < step ==> vals@[i] == nodes@[walk_pos(i)].value,
            cur == walk_pos(step as int),
        decreases 5 - step,
    {
        let node = nodes[cur];
        vals.push(node.value);
        cur = node.next;
        step = step + 1;
    }
    assert(vals@ =~= seq![0u32, 1u32, 2u32, 1u32, 2u32]);
}

/// The position reached after the given number of steps of the walk in
/// [`naive`] and [`sarena`]: the head, then the second and third nodes in
/// alternation.
pub open spec fn walk_pos(step: int) -> int {
    if step == 0 {
        0
    } else if step % 2 == 1 {
        1
    } else {
        2
    }
}

/// A node of a cyclic list held in an arena, linked by handles.
#[derive(Clone, Copy, Debug)]
struct ArenaNode {
    value: u32,
    next: Option<Handle>,
}

/// Builds the same three-node cycle inside an arena — closing the cycle by
/// mutating the first-allocated node through its handle — and walks five
/// steps, collecting 0, 1, 2, 1, 2.
pub fn sarena() {
    let mut arena: SArena<ArenaNode> = SArena::new();
    let c = arena.allocate(ArenaNode { value: 2, next: None });
    let b = arena.allocate(ArenaNode { value: 1, next: Some(c) });
    let a = arena.allocate(ArenaNode { value: 0, next: Some(b) });

    let c_node = arena.get_mut(c);
    c_node.next = Some(b);

    let mut vals: Vec<u32> = Vec::new();
    let n0 = *arena.get(a);
    vals.push(n0.value);
    let n1 = *arena.get(n0.next.unwrap());
    vals.push(n1.value);
    let n2 = *arena.get(n1.next.unwrap());
    vals.push(n2.value);
    let n3 = *arena.get(n2.next.unwrap());
    vals.push(n3.value);
    let n4 = *arena.get(n3.next.unwrap());
    vals.push(n4.value);

    assert(vals@ =~= seq![0u32, 1u32, 2u32, 1u32, 2u32]);
}

} // verus!
