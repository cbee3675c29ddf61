use vstd::prelude::*;

use crate::errors::SupplyError;
use crate::paths::copy_bytes;
use crate::pedersen::fold_sum;
use crate::pedersen::sum_commitments;
use crate::pedersen::views_of;
use crate::pedersen::Commitment;

verus! {

/// A snapshot of one block header: its height, its hash, and the chain's
/// cumulative kernel-offset scalar through it.  The tip's snapshot is
/// captured once and held fixed so that both traversals read one logical
/// chain state.
pub struct HeaderInfo {
    /// Height of the block this header belongs to.
    pub height: u64,
    /// The 32-byte header hash.
    pub hash: Vec<u8>,
    /// The 32-byte cumulative kernel-offset scalar through this block.
    pub total_kernel_offset: Vec<u8>,
}

impl HeaderInfo {
    /// A header snapshot is well formed when hash and offset have their
    /// fixed widths.
    pub open spec fn wf(&self) -> bool {
        self.hash@.len() == 32 && self.total_kernel_offset@.len() == 32
    }
}

/// What the caller found when asked for the block the walk wants next: the
/// block with its kernel excesses and its parent header's hash (absent only
/// at genesis), or a loud report that the block, or its parent header, could
/// not be read.
pub enum FetchOutcome {
    /// The block was read; its kernel excesses and the parent header's hash.
    Block { kernel_excesses: Vec<Commitment>, parent_hash: Option<Vec<u8>> },
    /// The block at the walk's next height could not be read.
    BlockMissing,
    /// The parent header of the walk's next block could not be read.
    ParentMissing,
}

/// The walk from the pinned tip back to genesis.  The caller fetches the
/// block the walk asks for next — `next_hash` at `next_height` — and hands
/// back what it found; the walk owns the bookkeeping: the excesses collected
/// so far, how many blocks were visited, and when the walk is complete.
pub struct KernelWalk {
    /// Height of the pinned tip where the walk started.
    pub tip_height: u64,
    /// Height of the block to visit next; meaningful while not done.
    pub next_height: u64,
    /// Header hash of the block to visit next; meaningful while not done.
    pub next_hash: Vec<u8>,
    /// Kernel excess commitments collected so far, in visit order.
    pub excesses: Vec<Commitment>,
    /// How many blocks have been visited so far.
    pub blocks_visited: u64,
    /// True once the genesis block has been visited.
    pub done: bool,
    /// The heights visited so far, in visit order.
    pub visited: Ghost<Seq<u64>>,
}

/// What the walk asks of a fetch outcome before it is fed in: a found
/// block's kernel excesses are all well formed and its parent hash is a
/// present 32-byte hash whenever a parent exists (the next height is above
/// genesis), and a missing parent can only be reported above genesis.
pub open spec fn feedable(fetched: FetchOutcome, next_height: u64) -> bool {
    &&& (fetched matches FetchOutcome::Block { kernel_excesses, parent_hash } ==> ((forall|i: int|
        0 <= i < kernel_excesses@.len() ==> (#[trigger] kernel_excesses@[i]).wf()) && (next_height
        > 0 ==> (parent_hash matches Some(h) && h@.len() == 32))))
    &&& (fetched is ParentMissing ==> next_height > 0)
}

/// Two walk states that agree on every field.
pub open spec fn walk_unchanged(a: KernelWalk, b: KernelWalk) -> bool {
    &&& a.tip_height == b.tip_height
    &&& a.next_height == b.next_height
    &&& a.next_hash@ == b.next_hash@
    &&& a.excesses@ == b.excesses@
    &&& a.blocks_visited == b.blocks_visited
    &&& a.done == b.done
    &&& a.visited@ == b.visited@
}

impl KernelWalk {
    /// The walk's bookkeeping invariant: heights descend one by one from the
    /// tip, so the blocks visited so far are exactly the heights from the
    /// tip down to just above `next_height` — and all of them once the walk
    /// is done.
    pub open spec fn wf(&self) -> bool {
        &&& self.next_hash@.len() == 32
        &&& self.tip_height < u64::MAX
        &&& (!self.done ==> self.next_height <= self.tip_height && self.blocks_visited
            == self.tip_height - self.next_height)
        &&& (self.done ==> self.blocks_visited == self.tip_height + 1)
        &&& self.visited@.len() == self.blocks_visited
        &&& (forall|i: int|
            0 <= i < self.visited@.len() ==> self.visited@[i] as int == self.tip_height - i)
        &&& (forall|i: int| 0 <= i < self.excesses@.len() ==> (#[trigger] self.excesses@[i]).wf())
    }

    /// Starts the walk at the pinned tip.
    pub fn new(tip: &HeaderInfo) -> (w: KernelWalk)
        requires
            tip.wf(),
            tip.height < u64::MAX,
        ensures
            w.wf(),
            !w.done,
            w.tip_height == tip.height,
            w.next_height == tip.height,
            w.next_hash@ == tip.hash@,
            w.excesses@.len() == 0,
            w.blocks_visited == 0,
            w.visited@.len() == 0,
    {
        KernelWalk {
            tip_height: tip.height,
            next_height: tip.height,
            next_hash: copy_bytes(&tip.hash),
            excesses: Vec::new(),
            blocks_visited: 0,
            done: false,
            visited: Ghost(Seq::empty()),
        }
    }

    /// Feeds the walk what the caller found for the block it asked for.  A
    /// found block has its kernel excesses appended and moves the walk to
    /// the parent, finishing once genesis was visited.  A missing block or
    /// parent header is fatal: the walk is left unchanged and the error
    /// carries the height that could not be read, so an operator can tell
    /// "still syncing" from a damaged database.
    pub fn step(&mut self, fetched: FetchOutcome) -> (r: Result<(), SupplyError>)
        requires
            old(self).wf(),
            !old(self).done,
            feedable(fetched, old(self).next_height),
        ensures
            final(self).wf(),
            final(self).tip_height == old(self).tip_height,
            match fetched {
                FetchOutcome::Block { kernel_excesses, parent_hash } => {
                    &&& r is Ok
                    &&& final(self).excesses@ == old(self).excesses@ + kernel_excesses@
                    &&& final(self).blocks_visited == old(self).blocks_visited + 1
                    &&& final(self).visited@ == old(self).visited@.push(old(self).next_height)
                    &&& (old(self).next_height == 0 ==> final(self).done)
                    &&& (old(self).next_height > 0 ==> (!final(self).done && final(self).next_height
                        == old(self).next_height - 1 && final(self).next_hash@
                        == parent_hash->Some_0@))
                },
                FetchOutcome::BlockMissing => {
                    &&& (r matches Err(SupplyError::NotSynced { height })
                        && height == old(self).next_height)
                    &&& walk_unchanged(*old(self), *final(self))
                },
                FetchOutcome::ParentMissing => {
                    &&& (r matches Err(SupplyError::NotSynced { height })
                        && height as int == old(self).next_height - 1)
                    &&& walk_unchanged(*old(self), *final(self))
                },
            },
    {
        match fetched {
            FetchOutcome::Block { mut kernel_excesses, parent_hash } => {
                let h = self.next_height;
                self.excesses.append(&mut kernel_excesses);
                self.blocks_visited = self.blocks_visited + 1;
                self.visited = Ghost(self.visited@.push(h));
                if h == 0 {
                    self.done = true;
                } else {
                    self.next_height = h - 1;
                    match parent_hash {
                        Some(ph) => {
                            self.next_hash = ph;
                        },
                        None => {
                            proof {
                                assert(false);
                            }
                        },
                    }
                }
                Ok(())
            },
            FetchOutcome::BlockMissing => Err(
                SupplyError::NotSynced { height: self.next_height },
            ),
            FetchOutcome::ParentMissing => Err(
                SupplyError::NotSynced { height: self.next_height - 1 },
            ),
        }
    }
}

/// Traversal completeness: a finished walk has visited exactly the heights
/// from the tip down to genesis, each exactly once and in descending order —
/// the count of visited blocks is the tip height plus one.
pub proof fn lemma_walk_complete(w: &KernelWalk)
    requires
        w.wf(),
        w.done,
    ensures
        w.blocks_visited == w.tip_height + 1,
        w.visited@.len() == w.tip_height + 1,
        forall|i: int| 0 <= i < w.visited@.len() ==> w.visited@[i] as int == w.tip_height - i,
        forall|h: u64| h <= w.tip_height ==> #[trigger] w.visited@.contains(h),
        forall|i: int, j: int|
            0 <= i < j < w.visited@.len() ==> w.visited@[i] != w.visited@[j],
{
    assert forall|h: u64| h <= w.tip_height implies #[trigger] w.visited@.contains(h) by {
        let i = w.tip_height - h;
        assert(0 <= i < w.visited@.len());
        assert(w.visited@[i] == h);
    }
}

/// Folds the unspent-output commitments enumerated at the pinned header into
/// one running sum and reports how many outputs went in: every element of
/// the list, each exactly once.
pub fn sum_outputs(outputs: &Vec<Commitment>) -> (r: Result<(Commitment, u64), SupplyError>)
    requires
        forall|i: int| 0 <= i < outputs@.len() ==> (#[trigger] outputs@[i]).wf(),
    ensures
        fold_sum(outputs@) matches Some(b) ==> (r matches Ok(p) && p.0@ == b && p.0.wf() && p.1
            == outputs@.len()),
        fold_sum(outputs@) is None ==> (r matches Err(e) && e is MalformedData),
{
    let empty: Vec<Commitment> = Vec::new();
    proof {
        assert(views_of(empty@) =~= Seq::<Seq<u8>>::empty());
    }
    match sum_commitments(outputs, &empty) {
        Ok(s) => Ok((s, outputs.len() as u64)),
        Err(e) => Err(e),
    }
}

} // verus!
