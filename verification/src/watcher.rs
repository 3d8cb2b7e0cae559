//! The reload contract of render pipelines and the registry that maps watched
//! shader files to the pipeline slots built from them.

use vstd::prelude::*;
use crate::gpu::{BindGroupLayoutEntry, ShaderModuleId, TextureFormat};
use crate::utils::ContiniousHashMap;

verus! {

/// A render pipeline that can be rebuilt in place from a newly compiled
/// shader program.
///
/// A reload replaces the pipeline state and nothing else: the slot that
/// holds the pipeline, its bind group layouts and its target format stay as
/// they were, so every holder of the slot sees the new program on its next
/// use.
pub trait ReloadablePipeline {
    /// The pipeline's description is the one that its target format and its
    /// shader program determine.
    spec fn wf(&self) -> bool;

    /// The format of the target this pipeline draws into.
    spec fn target_format(&self) -> TextureFormat;

    /// The bind group layouts of the pipeline layout, in bind group order.
    spec fn bind_group_layouts(&self) -> Seq<BindGroupLayoutEntry>;

    /// The program that the pipeline state was built from.
    spec fn shader_module(&self) -> ShaderModuleId;

    /// Rebuilds the pipeline state from `module`.
    fn reload(&mut self, module: ShaderModuleId)
        requires
            old(self).wf(),
        ensures
            final(self).wf(),
            final(self).target_format() == old(self).target_format(),
            final(self).bind_group_layouts() == old(self).bind_group_layouts(),
            final(self).shader_module() == module,
    ;
}

/// `after` is `before` rebuilt from `module`: same target format, same bind
/// group layouts, new program.
pub open spec fn reloaded_from<P: ReloadablePipeline>(
    before: P,
    after: P,
    module: ShaderModuleId,
) -> bool {
    &&& after.wf()
    &&& after.target_format() == before.target_format()
    &&& after.bind_group_layouts() == before.bind_group_layouts()
    &&& after.shader_module() == module
}

/// The slots of `slots` that exist in an arena of `len` pipelines, in the
/// order of `slots`.
pub open spec fn live_slots(slots: Seq<usize>, len: nat) -> Seq<usize> {
    slots.filter(|slot: usize| slot < len)
}

/// Filtering a sequence that grew by one element either keeps or drops that
/// element and treats the rest as before.
proof fn lemma_live_slots_push(slots: Seq<usize>, slot: usize, len: nat)
    ensures
        live_slots(slots.push(slot), len) == if slot < len {
            live_slots(slots, len).push(slot)
        } else {
            live_slots(slots, len)
        },
{
    reveal(Seq::filter);
    assert(slots.push(slot).drop_last() =~= slots);
}

/// Where every slot exists, all of them are live.
pub proof fn lemma_live_slots_all(slots: Seq<usize>, len: nat)
    requires
        forall|k: int| 0 <= k < slots.len() ==> slots[k] < len,
    ensures
        live_slots(slots, len) == slots,
    decreases slots.len(),
{
    reveal(Seq::filter);
    if slots.len() > 0 {
        lemma_live_slots_all(slots.drop_last(), len);
        assert(slots.drop_last().push(slots.last()) =~= slots);
    }
}

/// Registration and notification agree: once `slot` is registered under
/// `path`, a notification for `path` rebuilds what it rebuilt before and then
/// `slot`, if that slot exists; a notification for any other path rebuilds what
/// it rebuilt before.
pub proof fn lemma_register_then_notify(
    before: Watcher,
    after: Watcher,
    path: Seq<char>,
    slot: usize,
    other: Seq<char>,
    len: nat,
)
    requires
        after.hash_dump@ == before.hash_dump@.insert(path, before.slots(path).push(slot)),
        other != path,
    ensures
        live_slots(after.slots(path), len) == if slot < len {
            live_slots(before.slots(path), len).push(slot)
        } else {
            live_slots(before.slots(path), len)
        },
        live_slots(after.slots(other), len) == live_slots(before.slots(other), len),
{
    lemma_live_slots_push(before.slots(path), slot, len);
}

/// The registry of watched shader files.  Each path maps to the slots of the
/// pipelines that were built from that file, in registration order.
#[derive(Debug)]
pub struct Watcher {
    pub hash_dump: ContiniousHashMap<usize>,
}

impl Watcher {
    /// The registry's map is well formed.
    pub open spec fn wf(&self) -> bool {
        self.hash_dump.wf()
    }

    /// The slots registered under `path`, in registration order.
    pub open spec fn slots(&self, path: Seq<char>) -> Seq<usize> {
        self.hash_dump.values(path)
    }

    /// Creates a registry that watches nothing.
    pub fn new() -> (watcher: Self)
        ensures
            watcher.wf(),
            watcher.hash_dump@ == Map::<Seq<char>, Seq<usize>>::empty(),
            forall|path: Seq<char>| watcher.slots(path) == Seq::<usize>::empty(),
    {
        Watcher { hash_dump: ContiniousHashMap::new() }
    }

    /// Appends `slot` to the slots of `path`.  A slot registered twice under
    /// one path is reloaded twice per notification.
    pub fn register(&mut self, path: String, slot: usize)
        requires
            old(self).wf(),
        ensures
            final(self).wf(),
            final(self).hash_dump@ == old(self).hash_dump@.insert(
                path@,
                old(self).slots(path@).push(slot),
            ),
            final(self).slots(path@) == old(self).slots(path@).push(slot),
            forall|other: Seq<char>|
                other != path@ ==> final(self).slots(other) == old(self).slots(other),
    {
        self.hash_dump.push_value(path, slot);
    }

    /// Applies a reload notification for `path`: rebuilds from `module`, in
    /// registration order, every pipeline of `pipelines` whose slot is
    /// registered under `path`, and returns the slots it rebuilt.
    ///
    /// A path that was never registered rebuilds nothing.  A registered slot
    /// beyond the end of `pipelines` is passed over.
    pub fn notify<P: ReloadablePipeline>(
        &self,
        path: &String,
        module: ShaderModuleId,
        pipelines: &mut Vec<P>,
    ) -> (reloaded: Vec<usize>)
        requires
            self.wf(),
            forall|i: int| 0 <= i < old(pipelines).len() ==> (#[trigger] old(pipelines)[i]).wf(),
        ensures
            final(pipelines).len() == old(pipelines).len(),
            reloaded@ == live_slots(self.slots(path@), old(pipelines).len() as nat),
            forall|i: int|
                0 <= i < old(pipelines).len() ==> if self.slots(path@).contains(i as usize) {
                    reloaded_from(old(pipelines)[i], #[trigger] final(pipelines)[i], module)
                } else {
                    final(pipelines)[i] == old(pipelines)[i]
                },
    {
        let mut reloaded: Vec<usize> = Vec::new();
        let ghost len = pipelines.len() as nat;
        match self.hash_dump.get(path) {
            None => {
                proof {
                    reveal(Seq::filter);
                }
            },
            Some(slots) => {
                assert(slots@ == self.slots(path@));
                assert(slots@.take(0) =~= Seq::<usize>::empty());
                proof {
                    reveal(Seq::filter);
                }
                let mut k: usize = 0;
                while k < slots.len()
                    invariant
                        k <= slots.len(),
                        len == old(pipelines).len(),
                        pipelines.len() == len,
                        reloaded@ == live_slots(slots@.take(k as int), len),
                        forall|i: int| 0 <= i < len ==> (#[trigger] pipelines[i]).wf(),
                        forall|i: int|
                            0 <= i < len ==> if slots@.take(k as int).contains(i as usize) {
                                reloaded_from(old(pipelines)[i], #[trigger] pipelines[i], module)
                            } else {
                                pipelines[i] == old(pipelines)[i]
                            },
                    decreases slots.len() - k,
                {
                    let slot: usize = slots[k];
                    let ghost before = pipelines@;
                    proof {
                        assert(slots@.take(k as int + 1) =~= slots@.take(k as int).push(slot));
                        lemma_live_slots_push(slots@.take(k as int), slot, len);
                    }
                    if slot < pipelines.len() {
                        pipelines[slot].reload(module);
                        reloaded.push(slot);
                    }
                    proof {
                        let seen = slots@.take(k as int);
                        let grown = slots@.take(k as int + 1);
                        assert forall|i: int| 0 <= i < len implies if grown.contains(i as usize) {
                            reloaded_from(old(pipelines)[i], #[trigger] pipelines[i], module)
                        } else {
                            pipelines[i] == old(pipelines)[i]
                        } by {
                            if i == slot {
                                assert(grown[k as int] == slot);
                                assert(grown.contains(i as usize));
                            } else {
                                assert(pipelines[i] == before[i]);
                                if grown.contains(i as usize) {
                                    let j = choose|j: int|
                                        0 <= j < grown.len() && grown[j] == i as usize;
                                    assert(j < k);
                                    assert(seen[j] == i as usize);
                                    assert(seen.contains(i as usize));
                                } else {
                                    if seen.contains(i as usize) {
                                        let j = choose|j: int|
                                            0 <= j < seen.len() && seen[j] == i as usize;
                                        assert(grown[j] == i as usize);
                                    }
                                }
                            }
                        }
                    }
                    k += 1;
                }
                assert(slots@.take(k as int) =~= slots@);
            },
        }
        reloaded
    }
}

} // verus!
