//! The SealerPool: exclusive scheduling of independent sealing jobs over
//! a fixed set of compute devices.
//!
//! Each device hosts at most one job at a time; a device whose engine
//! construction or job fails is marked dead and excluded from future
//! scheduling, without affecting other devices. The pool here is the
//! scheduling core: claiming the first available device, running one job
//! end to end, and returning the device to service (or marking it dead).
//! A threaded front end can drive `claim`/`release`/`mark_dead` itself
//! to stream results concurrently; the per-job output stream is the same
//! either way.

use crate::config::Config;
use crate::engine::NarrowStackedExpander;
use crate::engine::TreeOptions;
use crate::error::NSEError;
use crate::node::LayerOutput;
use crate::node::Node;
use crate::node::ReplicaId;
use crate::node::SealerInput;
use crate::sealer::is_sealer_output;
use crate::sealer::same_output;
use crate::sealer::Sealer;
use vstd::prelude::*;

verus! {

/// The outcome of constructing an engine on one device: the engine, or
/// the construction error, to be reported to the first job claiming the
/// device.
pub enum EngineSource<E> {
    Available(E),
    Failed(NSEError),
}

/// One device's place in the pool.
pub enum Slot<E> {
    /// Engine construction outcome not yet inspected by any job.
    Fresh(EngineSource<E>),
    /// A constructed engine, idle between jobs.
    Idle(E),
    /// A job currently runs on this device.
    Busy,
    /// Construction or a job failed here; excluded from scheduling.
    Dead,
}

/// A slot a new job may take.
pub open spec fn claimable<E>(s: Slot<E>) -> bool {
    s is Fresh || s is Idle
}

/// The first claimable slot at or after position `k`, or -1.
pub open spec fn first_claimable_from<E>(slots: Seq<Slot<E>>, k: int) -> int
    decreases slots.len() - k,
{
    if k < 0 || k >= slots.len() {
        -1
    } else if claimable(slots[k]) {
        k
    } else {
        first_claimable_from(slots, k + 1)
    }
}

/// The slot the next job is dispatched to, or -1 when none is claimable.
pub open spec fn first_claimable_idx<E>(slots: Seq<Slot<E>>) -> int {
    first_claimable_from(slots, 0)
}

proof fn lemma_first_claimable_in_range<E>(slots: Seq<Slot<E>>, k: int)
    requires
        0 <= k <= slots.len(),
    ensures
        first_claimable_from(slots, k) == -1 || (k <= first_claimable_from(slots, k)
            < slots.len() && claimable(slots[first_claimable_from(slots, k)])),
    decreases slots.len() - k,
{
    if k < slots.len() && !claimable(slots[k]) {
        lemma_first_claimable_in_range(slots, k + 1);
    }
}

/// If any slot is claimable, dispatch finds one.
proof fn lemma_first_claimable_exists<E>(slots: Seq<Slot<E>>, k: int, j: int)
    requires
        0 <= k <= j < slots.len(),
        claimable(slots[j]),
    ensures
        first_claimable_from(slots, k) != -1,
    decreases j - k,
{
    if !claimable(slots[k]) {
        lemma_first_claimable_exists(slots, k + 1, j);
    }
}

/// Schedules independent sealing jobs across a fixed set of devices,
/// each device hosting one engine and at most one job at a time.
pub struct SealerPool<E: NarrowStackedExpander> {
    pub slots: Vec<Slot<E>>,
    pub config: Config,
    pub tree_options: TreeOptions,
}

/// What a job dispatch found.
pub enum ClaimOutcome<E> {
    /// A device was claimed; run the job on this engine, then `release`
    /// or `mark_dead` the device.
    Claimed(usize, E),
    /// The claimed device's engine construction had failed; the device
    /// is now dead and the job observes the error.
    ConstructionFailed(usize, NSEError),
    /// Every device is busy; retry once one frees up or dies.
    AllBusy,
    /// Every device is dead; dispatch fails fatally.
    NoDevices,
}

impl<E: NarrowStackedExpander> SealerPool<E> {
    /// Tree building is on for every job of this pool.
    pub open spec fn build_trees(&self) -> bool {
        self.tree_options is Enabled
    }

    /// An engine sitting in the pool fits the pool's configuration.
    pub open spec fn engine_ok(&self, e: E) -> bool {
        &&& e.leaf_count_spec() == self.config.num_nodes_window
        &&& (self.build_trees() ==> e.trees_enabled())
    }

    pub open spec fn slot_ok(&self, s: Slot<E>) -> bool {
        match s {
            Slot::Fresh(EngineSource::Available(e)) => self.engine_ok(e),
            Slot::Idle(e) => self.engine_ok(e),
            _ => true,
        }
    }

    pub open spec fn wf(&self) -> bool {
        &&& self.config.valid()
        &&& forall|j: int| 0 <= j < self.slots@.len() ==> self.slot_ok(#[trigger] self.slots@[j])
    }

    /// Build a pool with one slot per device, each holding that device's
    /// engine construction outcome.
    pub fn new(engines: Vec<EngineSource<E>>, config: Config, tree_options: TreeOptions) -> (r:
        Result<Self, NSEError>)
        requires
            config.valid(),
            forall|j: int|
                0 <= j < engines@.len() ==> (#[trigger] engines@[j] matches EngineSource::Available(
                    e,
                ) ==> e.leaf_count_spec() == config.num_nodes_window && ((
                tree_options is Enabled) ==> e.trees_enabled())),
        ensures
            (match r {
                Ok(p) => {
                    &&& p.wf()
                    &&& p.config == config
                    &&& p.tree_options == tree_options
                    &&& p.slots@.len() == engines@.len()
                    &&& forall|j: int|
                        0 <= j < engines@.len() ==> p.slots@[j] == Slot::Fresh(engines@[j])
                },
                Err(_) => false,
            }),
    {
        let mut engines = engines;
        let ghost all = engines@;
        let mut slots: Vec<Slot<E>> = Vec::new();
        let n = engines.len();
        for i in 0..n
            invariant
                n == all.len(),
                engines@.len() == n - i,
                engines@ =~= all.subrange(i as int, n as int),
                slots@.len() == i,
                forall|j: int| 0 <= j < i ==> slots@[j] == Slot::Fresh(all[j]),
        {
            let src = engines.remove(0);
            slots.push(Slot::Fresh(src));
        }
        Ok(SealerPool { slots, config, tree_options })
    }

    /// Claim the first device that can take a job. A claimed device is
    /// busy until `release` or `mark_dead`; a device whose engine
    /// construction failed is marked dead here, and the error goes to
    /// this job.
    pub fn claim(&mut self) -> (r: ClaimOutcome<E>)
        requires
            old(self).wf(),
        ensures
            final(self).wf(),
            final(self).config == old(self).config,
            final(self).tree_options == old(self).tree_options,
            final(self).slots@.len() == old(self).slots@.len(),
            (match r {
                ClaimOutcome::Claimed(d, e) => {
                    &&& d == first_claimable_idx(old(self).slots@)
                    &&& 0 <= d < old(self).slots@.len()
                    &&& final(self).slots@ == old(self).slots@.update(d as int, Slot::<E>::Busy)
                    &&& final(self).engine_ok(e)
                    &&& (old(self).slots@[d as int] matches Slot::Fresh(
                        EngineSource::Available(_,
                    )) || old(self).slots@[d as int] is Idle)
                    &&& (old(self).slots@[d as int] matches Slot::Fresh(
                        EngineSource::Available(en),
                    ) ==> e == en)
                    &&& (old(self).slots@[d as int] matches Slot::Idle(en) ==> e == en)
                },
                ClaimOutcome::ConstructionFailed(d, err) => {
                    &&& d == first_claimable_idx(old(self).slots@)
                    &&& 0 <= d < old(self).slots@.len()
                    &&& old(self).slots@[d as int] == Slot::<E>::Fresh(
                        EngineSource::<E>::Failed(err),
                    )
                    &&& final(self).slots@ == old(self).slots@.update(d as int, Slot::<E>::Dead)
                },
                ClaimOutcome::AllBusy => {
                    &&& first_claimable_idx(old(self).slots@) == -1
                    &&& exists|j: int|
                        0 <= j < old(self).slots@.len() && (#[trigger] old(self).slots@[j])
                            is Busy
                    &&& final(self).slots@ == old(self).slots@
                },
                ClaimOutcome::NoDevices => {
                    &&& first_claimable_idx(old(self).slots@) == -1
                    &&& forall|j: int|
                        0 <= j < old(self).slots@.len() ==> (#[trigger] old(self).slots@[j])
                            is Dead
                    &&& final(self).slots@ == old(self).slots@
                },
            }),
    {
        let n = self.slots.len();
        let mut i: usize = 0;
        let mut saw_busy = false;
        while i < n
            invariant
                old(self).wf(),
                self == old(self),
                n == self.slots@.len(),
                i <= n,
                forall|m: int| 0 <= m < i ==> !claimable(#[trigger] self.slots@[m]),
                first_claimable_from(self.slots@, 0) == first_claimable_from(
                    self.slots@,
                    i as int,
                ),
                saw_busy <==> exists|m: int|
                    0 <= m < i && (#[trigger] self.slots@[m]) is Busy,
            decreases n - i,
        {
            let here_claimable = match &self.slots[i] {
                Slot::Fresh(_) => true,
                Slot::Idle(_) => true,
                _ => false,
            };
            if here_claimable {
                let ghost pre = self.slots@;
                let slot = self.slots.remove(i);
                self.slots.insert(i, Slot::Busy);
                proof {
                    assert(pre == old(self).slots@);
                    assert(claimable(pre[i as int]));
                    assert(first_claimable_idx(pre) == i as int);
                    assert(slot == pre[i as int]);
                    assert(old(self).slot_ok(old(self).slots@[i as int]));
                    assert(self.slots@ =~= pre.update(i as int, Slot::<E>::Busy));
                    assert forall|j: int|
                        0 <= j < self.slots@.len() implies self.slot_ok(
                        #[trigger] self.slots@[j],
                    ) by {
                        if j != i {
                            assert(self.slots@[j] == pre[j]);
                            assert(old(self).slot_ok(old(self).slots@[j]));
                        }
                    }
                }
                match slot {
                    Slot::Fresh(EngineSource::Available(e)) => {
                        return ClaimOutcome::Claimed(i, e);
                    },
                    Slot::Fresh(EngineSource::Failed(err)) => {
                        let _ = self.slots.remove(i);
                        self.slots.insert(i, Slot::Dead);
                        proof {
                            assert(self.slots@ =~= pre.update(i as int, Slot::<E>::Dead));
                            assert forall|j: int|
                                0 <= j < self.slots@.len() implies self.slot_ok(
                                #[trigger] self.slots@[j],
                            ) by {
                                if j != i {
                                    assert(self.slots@[j] == pre[j]);
                                    assert(old(self).slot_ok(pre[j]));
                                }
                            }
                        }
                        return ClaimOutcome::ConstructionFailed(i, err);
                    },
                    Slot::Idle(e) => {
                        return ClaimOutcome::Claimed(i, e);
                    },
                    _ => {
                        proof {
                            assert(false);
                        }
                        return ClaimOutcome::NoDevices;
                    },
                }
            }
            let here_busy = match &self.slots[i] {
                Slot::Busy => true,
                _ => false,
            };
            saw_busy = saw_busy || here_busy;
            i = i + 1;
        }
        if saw_busy {
            ClaimOutcome::AllBusy
        } else {
            proof {
                assert forall|j: int|
                    0 <= j < self.slots@.len() implies (#[trigger] self.slots@[j]) is Dead by {
                    assert(!claimable(self.slots@[j]));
                    assert(!(self.slots@[j] is Busy));
                }
            }
            ClaimOutcome::NoDevices
        }
    }

    /// Return a claimed device to service with its engine.
    pub fn release(&mut self, device: usize, engine: E)
        requires
            old(self).wf(),
            device < old(self).slots@.len(),
            old(self).slots@[device as int] is Busy,
            old(self).engine_ok(engine),
        ensures
            final(self).wf(),
            final(self).config == old(self).config,
            final(self).tree_options == old(self).tree_options,
            final(self).slots@ == old(self).slots@.update(device as int, Slot::Idle(engine)),
    {
        let ghost pre = self.slots@;
        let _ = self.slots.remove(device);
        self.slots.insert(device, Slot::Idle(engine));
        proof {
            assert(self.slots@ =~= pre.update(device as int, Slot::Idle(engine)));
        }
    }

    /// Exclude a device from future scheduling. No other slot changes:
    /// one device's failure never touches another device's job.
    pub fn mark_dead(&mut self, device: usize)
        requires
            old(self).wf(),
            device < old(self).slots@.len(),
        ensures
            final(self).wf(),
            final(self).config == old(self).config,
            final(self).tree_options == old(self).tree_options,
            final(self).slots@ == old(self).slots@.update(device as int, Slot::<E>::Dead),
    {
        let ghost pre = self.slots@;
        let _ = self.slots.remove(device);
        self.slots.insert(device, Slot::Dead);
        proof {
            assert(self.slots@ =~= pre.update(device as int, Slot::<E>::Dead));
        }
    }

    /// Run one sealing job on the first available device and return its
    /// output stream: one entry per layer in order, ending after the
    /// last layer or right after the first error. A job dispatched to a
    /// device whose engine construction failed observes that error; if
    /// no device can ever take the job, it observes `NoDevices`. The
    /// device is busy exactly for the duration of the job and is marked
    /// dead if the job fails.
    pub fn seal_on_gpu(&mut self, inp: SealerInput) -> (r: Vec<Result<LayerOutput, NSEError>>)
        requires
            old(self).wf(),
            inp.original_data@.len() == old(self).config.num_nodes_window,
        ensures
            final(self).wf(),
            final(self).config == old(self).config,
            final(self).tree_options == old(self).tree_options,
            final(self).slots@.len() == old(self).slots@.len(),
            r@.len() >= 1,
            forall|j: int|
                0 <= j < old(self).slots@.len() && j != first_claimable_idx(old(self).slots@)
                    ==> final(self).slots@[j] == old(self).slots@[j],
            first_claimable_idx(old(self).slots@) == -1 ==> final(self).slots@ == old(self).slots@
                && r@.len() == 1 && r@[0] == Result::<LayerOutput, NSEError>::Err(
                NSEError::NoDevices,
            ),
            first_claimable_idx(old(self).slots@) >= 0 ==> (old(self).slots@[first_claimable_idx(
                old(self).slots@,
            )] matches Slot::Fresh(EngineSource::Failed(err)) ==> r@.len() == 1 && r@[0]
                == Result::<LayerOutput, NSEError>::Err(err) && final(
                self).slots@[first_claimable_idx(old(self).slots@)] is Dead),
            (first_claimable_idx(old(self).slots@) >= 0 && (old(self).slots@[first_claimable_idx(
                old(self).slots@,
            )] matches Slot::Fresh(EngineSource::Available(_)) || old(
                self,
            ).slots@[first_claimable_idx(old(self).slots@)] is Idle)) ==> {
                &&& r@.len() <= old(self).config.num_layers()
                &&& (forall|j: int| 0 <= j < r@.len() - 1 ==> r@[j] is Ok)
                &&& ((forall|j: int| 0 <= j < r@.len() ==> r@[j] is Ok) ==> r@.len() == old(
                    self).config.num_layers())
                &&& r@.len() < old(self).config.num_layers() ==> r@[r@.len() - 1] is Err
                &&& (forall|j: int|
                    #![trigger r@[j]]
                    0 <= j < r@.len() ==> (r@[j] matches Ok(out) ==> is_sealer_output::<E>(
                        old(self).config,
                        inp.replica_id,
                        inp.window_index,
                        inp.original_data@,
                        old(self).build_trees(),
                        j + 1,
                        out,
                    )))
                &&& (r@[r@.len() - 1] is Ok ==> final(self).slots@[first_claimable_idx(
                    old(self).slots@,
                )] is Idle)
                &&& (r@[r@.len() - 1] is Err ==> final(self).slots@[first_claimable_idx(
                    old(self).slots@,
                )] is Dead)
            },
    {
        proof {
            lemma_first_claimable_in_range(self.slots@, 0);
        }
        let build_trees = match self.tree_options {
            TreeOptions::Enabled { .. } => true,
            TreeOptions::Disabled => false,
        };
        match self.claim() {
            ClaimOutcome::Claimed(device, engine) => {
                let mut sealer = match Sealer::new(self.config, inp, engine, build_trees) {
                    Ok(s) => s,
                    Err(e) => {
                        proof {
                            assert(false);
                        }
                        let mut out: Vec<Result<LayerOutput, NSEError>> = Vec::new();
                        out.push(Err(e));
                        return out;
                    },
                };
                let outputs = sealer.seal_to_completion();
                let last_is_err = match &outputs[outputs.len() - 1] {
                    Ok(_) => false,
                    Err(_) => true,
                };
                if last_is_err {
                    self.mark_dead(device);
                } else {
                    self.release(device, sealer.into_engine());
                }
                outputs
            },
            ClaimOutcome::ConstructionFailed(_, err) => {
                let mut out: Vec<Result<LayerOutput, NSEError>> = Vec::new();
                out.push(Err(err));
                out
            },
            ClaimOutcome::AllBusy => {
                // The synchronous runner frees every device it claims
                // before returning, so a busy slot can only be one the
                // caller claimed directly and still holds; it cannot
                // serve this job either.
                let mut out: Vec<Result<LayerOutput, NSEError>> = Vec::new();
                out.push(Err(NSEError::NoDevices));
                out
            },
            ClaimOutcome::NoDevices => {
                let mut out: Vec<Result<LayerOutput, NSEError>> = Vec::new();
                out.push(Err(NSEError::NoDevices));
                out
            },
        }
    }

    /// Run a batch of independent jobs, one after the other, returning
    /// each job's output stream in input order.
    pub fn seal_batch(&mut self, inputs: Vec<SealerInput>) -> (r: Vec<
        Vec<Result<LayerOutput, NSEError>>,
    >)
        requires
            old(self).wf(),
            forall|j: int|
                0 <= j < inputs@.len() ==> (#[trigger] inputs@[j]).original_data@.len() == old(
                    self).config.num_nodes_window,
        ensures
            final(self).wf(),
            final(self).config == old(self).config,
            final(self).tree_options == old(self).tree_options,
            r@.len() == inputs@.len(),
            forall|k: int|
                #![trigger r@[k]]
                0 <= k < r@.len() ==> (forall|j: int|
                    #![trigger r@[k]@[j]]
                    0 <= j < r@[k]@.len() ==> (r@[k]@[j] matches Ok(out) ==> is_sealer_output::<
                        E,
                    >(
                        old(self).config,
                        inputs@[k].replica_id,
                        inputs@[k].window_index,
                        inputs@[k].original_data@,
                        old(self).build_trees(),
                        j + 1,
                        out,
                    ))),
    {
        let mut inputs = inputs;
        let ghost all = inputs@;
        let n = inputs.len();
        let mut results: Vec<Vec<Result<LayerOutput, NSEError>>> = Vec::new();
        for k in 0..n
            invariant
                self.wf(),
                self.config == old(self).config,
                self.tree_options == old(self).tree_options,
                n == all.len(),
                inputs@.len() == n - k,
                inputs@ =~= all.subrange(k as int, n as int),
                forall|j: int|
                    0 <= j < all.len() ==> (#[trigger] all[j]).original_data@.len()
                        == self.config.num_nodes_window,
                results@.len() == k,
                forall|m: int|
                    #![trigger results@[m]]
                    0 <= m < k ==> (forall|j: int|
                        #![trigger results@[m]@[j]]
                        0 <= j < results@[m]@.len() ==> (results@[m]@[j] matches Ok(out)
                            ==> is_sealer_output::<E>(
                            self.config,
                            all[m].replica_id,
                            all[m].window_index,
                            all[m].original_data@,
                            self.build_trees(),
                            j + 1,
                            out,
                        ))),
        {
            let inp = inputs.remove(0);
            proof {
                lemma_first_claimable_in_range(self.slots@, 0);
            }
            let stream = self.seal_on_gpu(inp);
            results.push(stream);
        }
        results
    }
}

/// Pool equivalence: a job's successful output stream through the pool
/// and the same job run directly on a single engine agree step for step;
/// both are pinned to the one output specification of the seed and data.
pub proof fn lemma_pool_equivalence<E: NarrowStackedExpander>(
    c: Config,
    replica_id: ReplicaId,
    window_index: usize,
    data: Seq<Node>,
    build_trees: bool,
    pool_run: Seq<LayerOutput>,
    direct_run: Seq<LayerOutput>,
)
    requires
        pool_run.len() == c.num_layers(),
        direct_run.len() == c.num_layers(),
        forall|j: int|
            0 <= j < pool_run.len() ==> is_sealer_output::<E>(
                c,
                replica_id,
                window_index,
                data,
                build_trees,
                j + 1,
                #[trigger] pool_run[j],
            ),
        forall|j: int|
            0 <= j < direct_run.len() ==> is_sealer_output::<E>(
                c,
                replica_id,
                window_index,
                data,
                build_trees,
                j + 1,
                #[trigger] direct_run[j],
            ),
    ensures
        forall|j: int| 0 <= j < c.num_layers() ==> same_output(pool_run[j], direct_run[j]),
{
}

/// Fault isolation: marking one device dead leaves every other slot
/// untouched, and as long as some other device is claimable, dispatch
/// still finds one (a waiting job is never stranded by a dead device).
pub proof fn lemma_fault_isolation<E: NarrowStackedExpander>(
    slots: Seq<Slot<E>>,
    dead: int,
    other: int,
)
    requires
        0 <= dead < slots.len(),
        0 <= other < slots.len(),
        other != dead,
        claimable(slots[other]),
    ensures
        slots.update(dead, Slot::<E>::Dead)[other] == slots[other],
        first_claimable_idx(slots.update(dead, Slot::<E>::Dead)) != -1,
{
    let after = slots.update(dead, Slot::<E>::Dead);
    lemma_first_claimable_exists(after, 0, other);
}

} // verus!
