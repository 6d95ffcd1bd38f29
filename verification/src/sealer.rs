//! The Sealer: turns the raw key-layer sequence into the sealing output
//! sequence, substituting the final key layer with the encoded replica
//! and optionally accumulating a Merkle root per emitted layer.

use crate::config::Config;
use crate::engine::combine_seq_spec;
use crate::engine::key_layer_at;
use crate::engine::NarrowStackedExpander;
use crate::error::NSEError;
use crate::keygen::KeyGenerator;
use crate::node::Layer;
use crate::node::LayerOutput;
use crate::node::Node;
use crate::node::ReplicaId;
use crate::node::SealerInput;
use vstd::prelude::*;

verus! {

/// The whole window encoded against the finalized key: node `i` of the
/// caller's data combined with node `i` of the last key layer.
pub open spec fn sealed_layer_spec<E: NarrowStackedExpander>(
    c: Config,
    replica_id: ReplicaId,
    window_index: usize,
    data: Seq<Node>,
) -> Seq<Node> {
    combine_seq_spec::<E>(
        key_layer_at::<E>(c, replica_id, window_index, c.num_layers()),
        data,
        0,
        false,
    )
}

/// The base layer emitted by the `i`-th sealing step (1-indexed): the
/// `i`-th key layer, except that the last step yields the encoded
/// replica instead of the raw key.
pub open spec fn sealer_base_at<E: NarrowStackedExpander>(
    c: Config,
    replica_id: ReplicaId,
    window_index: usize,
    data: Seq<Node>,
    i: int,
) -> Seq<Node> {
    if i == c.num_layers() {
        sealed_layer_spec::<E>(c, replica_id, window_index, data)
    } else {
        key_layer_at::<E>(c, replica_id, window_index, i)
    }
}

/// `out` is exactly what the `i`-th sealing step emits: the base layer
/// of that step, and its Merkle root iff tree building is enabled.
pub open spec fn is_sealer_output<E: NarrowStackedExpander>(
    c: Config,
    replica_id: ReplicaId,
    window_index: usize,
    data: Seq<Node>,
    build_trees: bool,
    i: int,
    out: LayerOutput,
) -> bool {
    &&& out.base@ == sealer_base_at::<E>(c, replica_id, window_index, data, i)
    &&& out.tree@ == (if build_trees {
        seq![E::tree_root_spec(sealer_base_at::<E>(c, replica_id, window_index, data, i))]
    } else {
        Seq::<Node>::empty()
    })
}

/// Produces, layer by layer, the sealing output sequence for one window:
/// a lazy, single-pass, finite sequence of as many steps as there are
/// key layers, each yielding a [`LayerOutput`].
pub struct Sealer<E: NarrowStackedExpander> {
    pub original_data: Layer,
    pub key_generator: KeyGenerator<E>,
    pub build_trees: bool,
}

impl<E: NarrowStackedExpander> Sealer<E> {
    /// Well-formed: the generator is, the caller data fills the window,
    /// and a tree builder is attached when tree building is on.
    pub open spec fn wf(&self) -> bool {
        &&& self.key_generator.wf()
        &&& self.original_data@.len() == self.key_generator.config.num_nodes_window
        &&& self.build_trees ==> self.key_generator.engine.trees_enabled()
    }

    /// The generator's engine holds what its cursor says.
    pub open spec fn on_track(&self) -> bool {
        self.key_generator.on_track()
    }

    /// Build a sealer over an engine; fails with a configuration
    /// mismatch when the engine's window size differs from the config.
    pub fn new(config: Config, input: SealerInput, engine: E, build_trees: bool) -> (r: Result<
        Self,
        NSEError,
    >)
        requires
            config.valid(),
            input.original_data@.len() == config.num_nodes_window,
            build_trees ==> engine.trees_enabled(),
        ensures
            (match r {
                Ok(s) => {
                    &&& engine.leaf_count_spec() == config.num_nodes_window
                    &&& s.wf()
                    &&& s.on_track()
                    &&& s.key_generator.config == config
                    &&& s.key_generator.replica_id == input.replica_id
                    &&& s.key_generator.window_index == input.window_index
                    &&& s.key_generator.current_layer_index == 0
                    &&& s.original_data == input.original_data
                    &&& s.build_trees == build_trees
                },
                Err(e) => {
                    &&& e == NSEError::ConfigMismatch
                    &&& engine.leaf_count_spec() != config.num_nodes_window
                },
            }),
    {
        let key_generator = match KeyGenerator::new(
            config,
            input.replica_id,
            input.window_index,
            engine,
        ) {
            Ok(kg) => kg,
            Err(e) => {
                return Err(e);
            },
        };
        Ok(Self { original_data: input.original_data, key_generator, build_trees })
    }

    /// Resume a previously checkpointed run: delegate to the generator's
    /// seek.
    pub fn seek(&mut self, target_layer_index: usize, target_layer_data: &Layer) -> (r: Result<
        (),
        NSEError,
    >)
        requires
            old(self).wf(),
            target_layer_data@.len() == old(self).key_generator.config.num_nodes_window,
            target_layer_index < usize::MAX,
        ensures
            final(self).wf(),
            final(self).key_generator.config == old(self).key_generator.config,
            final(self).key_generator.replica_id == old(self).key_generator.replica_id,
            final(self).key_generator.window_index == old(self).key_generator.window_index,
            final(self).original_data == old(self).original_data,
            final(self).build_trees == old(self).build_trees,
            final(self).key_generator.current_layer_index == target_layer_index + 1,
            (match r {
                Ok(_) => (target_layer_index + 1 <= old(self).key_generator.len_spec()
                    && target_layer_data@ == old(self).key_generator.expected_layer(
                    target_layer_index + 1,
                ) ==> final(self).on_track()),
                Err(_) => true,
            }),
    {
        self.key_generator.seek(target_layer_index, target_layer_data)
    }

    /// Build a sealer already seeked to a provided checkpoint layer.
    pub fn new_from_layer(
        provided_layer_index: usize,
        provided_layer: &Layer,
        config: Config,
        input: SealerInput,
        engine: E,
        build_trees: bool,
    ) -> (r: Result<Self, NSEError>)
        requires
            config.valid(),
            input.original_data@.len() == config.num_nodes_window,
            build_trees ==> engine.trees_enabled(),
            provided_layer@.len() == config.num_nodes_window,
            provided_layer_index < usize::MAX,
        ensures
            (match r {
                Ok(s) => {
                    &&& s.wf()
                    &&& s.key_generator.config == config
                    &&& s.key_generator.replica_id == input.replica_id
                    &&& s.key_generator.window_index == input.window_index
                    &&& s.key_generator.current_layer_index == provided_layer_index + 1
                    &&& s.original_data == input.original_data
                    &&& s.build_trees == build_trees
                    &&& (provided_layer_index + 1 <= config.num_layers() && provided_layer@
                        == key_layer_at::<E>(
                        config,
                        input.replica_id,
                        input.window_index,
                        provided_layer_index + 1,
                    ) ==> s.on_track())
                },
                Err(_) => true,
            }),
    {
        let mut sealer = match Self::new(config, input, engine, build_trees) {
            Ok(s) => s,
            Err(e) => {
                return Err(e);
            },
        };
        match sealer.seek(provided_layer_index, provided_layer) {
            Ok(_) => Ok(sealer),
            Err(e) => Err(e),
        }
    }

    /// Total number of sealing steps: one per key layer, independent of
    /// progress.
    pub fn len(&self) -> (n: usize)
        requires
            self.key_generator.config.layers_fit(),
        ensures
            n == self.key_generator.len_spec(),
    {
        self.key_generator.len()
    }

    /// Produce the next sealing output: the next key layer, except that
    /// the last step instead encodes the caller's data against the
    /// just-finalized key; when tree building is enabled, the emitted
    /// base layer's Merkle root is attached. Returns `None` once the
    /// sequence is exhausted; on an error the iteration should be
    /// treated as terminated.
    pub fn next(&mut self) -> (r: Option<Result<LayerOutput, NSEError>>)
        requires
            old(self).wf(),
        ensures
            final(self).wf(),
            final(self).key_generator.config == old(self).key_generator.config,
            final(self).key_generator.replica_id == old(self).key_generator.replica_id,
            final(self).key_generator.window_index == old(self).key_generator.window_index,
            final(self).original_data == old(self).original_data,
            final(self).build_trees == old(self).build_trees,
            old(self).key_generator.current_layer_index >= old(self).key_generator.len_spec()
                ==> r is None && *final(self) == *old(self),
            old(self).key_generator.current_layer_index < old(self).key_generator.len_spec()
                ==> r is Some && final(self).key_generator.current_layer_index == old(
                self).key_generator.current_layer_index + 1,
            (match r {
                Some(Ok(out)) => {
                    let i = old(self).key_generator.current_layer_index + 1;
                    &&& out.base@.len() == old(self).key_generator.config.num_nodes_window
                    &&& out.tree@.len() == (if old(self).build_trees {
                        1int
                    } else {
                        0int
                    })
                    &&& (old(self).on_track() ==> final(self).on_track() && is_sealer_output::<E>(
                        old(self).key_generator.config,
                        old(self).key_generator.replica_id,
                        old(self).key_generator.window_index,
                        old(self).original_data@,
                        old(self).build_trees,
                        i,
                        out,
                    ))
                },
                _ => true,
            }),
    {
        let next_key_layer = match self.key_generator.next() {
            Some(res) => res,
            None => {
                return None;
            },
        };

        let result = self.step_output(next_key_layer);
        Some(result)
    }

    /// Turn one key-layer step result into this step's sealing output.
    fn step_output(&mut self, next_key_layer: Result<Layer, NSEError>) -> (r: Result<
        LayerOutput,
        NSEError,
    >)
        requires
            old(self).wf(),
            1 <= old(self).key_generator.current_layer_index <= old(self).key_generator.len_spec(),
            (match next_key_layer {
                Ok(l) => {
                    &&& l@.len() == old(self).key_generator.config.num_nodes_window
                    &&& old(self).key_generator.engine.current_layer() == l@
                    &&& (old(self).key_generator.current_layer_index == old(
                        self).key_generator.len_spec() ==> old(self).key_generator.engine.finalized())
                },
                Err(_) => true,
            }),
        ensures
            final(self).wf(),
            final(self).key_generator.config == old(self).key_generator.config,
            final(self).key_generator.replica_id == old(self).key_generator.replica_id,
            final(self).key_generator.window_index == old(self).key_generator.window_index,
            final(self).key_generator.current_layer_index == old(
                self).key_generator.current_layer_index,
            final(self).key_generator.engine.current_layer() == old(
                self).key_generator.engine.current_layer(),
            final(self).original_data == old(self).original_data,
            final(self).build_trees == old(self).build_trees,
            (match r {
                Ok(out) => {
                    let i = old(self).key_generator.current_layer_index as int;
                    let c = old(self).key_generator.config;
                    &&& next_key_layer is Ok
                    &&& out.base@.len() == c.num_nodes_window
                    &&& out.tree@.len() == (if old(self).build_trees {
                        1int
                    } else {
                        0int
                    })
                    &&& (i < c.num_layers() ==> out.base@ == next_key_layer->Ok_0@)
                    &&& (i == c.num_layers() ==> out.base@ == combine_seq_spec::<E>(
                        old(self).key_generator.engine.current_layer(),
                        old(self).original_data@,
                        0,
                        false,
                    ))
                    &&& (old(self).build_trees ==> out.tree@ == seq![
                        E::tree_root_spec(out.base@),
                    ])
                    &&& (!old(self).build_trees ==> out.tree@ == Seq::<Node>::empty())
                },
                Err(_) => true,
            }),
    {
        let layer = match next_key_layer {
            Ok(key_layer) => {
                if self.key_generator.layers_remaining() == 0 {
                    // This was the last key layer: emit the encoded
                    // replica in its place.
                    match self.key_generator.combine_layer(&self.original_data, false) {
                        Ok(l) => l,
                        Err(e) => {
                            return Err(e);
                        },
                    }
                } else {
                    key_layer
                }
            },
            Err(e) => {
                return Err(e);
            },
        };
        if self.build_trees {
            let tree = match self.key_generator.build_tree(&layer) {
                Ok(t) => t,
                Err(e) => {
                    return Err(e);
                },
            };
            Ok(LayerOutput { base: layer, tree })
        } else {
            Ok(LayerOutput { base: layer, tree: Vec::new() })
        }
    }

    /// Give the engine back, consuming the sealer.
    pub fn into_engine(self) -> (e: E)
        ensures
            e == self.key_generator.engine,
    {
        self.key_generator.into_engine()
    }

    /// Drive a fresh sealer to completion, collecting every step's
    /// result in order. The stream holds one entry per successful step
    /// and ends after the last step, or right after the first error:
    /// a consumer sees either a complete ordered run of successes or a
    /// stream that terminates early with an error, never silent
    /// truncation.
    pub fn seal_to_completion(&mut self) -> (r: Vec<Result<LayerOutput, NSEError>>)
        requires
            old(self).wf(),
            old(self).key_generator.current_layer_index == 0,
        ensures
            final(self).wf(),
            final(self).key_generator.config == old(self).key_generator.config,
            final(self).key_generator.replica_id == old(self).key_generator.replica_id,
            final(self).key_generator.window_index == old(self).key_generator.window_index,
            final(self).original_data == old(self).original_data,
            final(self).build_trees == old(self).build_trees,
            r@.len() <= old(self).key_generator.len_spec(),
            r@.len() >= 1,
            forall|j: int| 0 <= j < r@.len() - 1 ==> r@[j] is Ok,
            (forall|j: int| 0 <= j < r@.len() ==> r@[j] is Ok) ==> r@.len() == old(
                self).key_generator.len_spec(),
            r@.len() < old(self).key_generator.len_spec() ==> r@[r@.len() - 1] is Err,
            old(self).on_track() ==> (forall|j: int|
                #![trigger r@[j]]
                0 <= j < r@.len() ==> (r@[j] matches Ok(out) ==> is_sealer_output::<E>(
                    old(self).key_generator.config,
                    old(self).key_generator.replica_id,
                    old(self).key_generator.window_index,
                    old(self).original_data@,
                    old(self).build_trees,
                    j + 1,
                    out,
                ))),
    {
        let total = self.len();
        let mut out: Vec<Result<LayerOutput, NSEError>> = Vec::new();
        let mut k: usize = 0;
        proof {
            assert(total >= 2);
        }
        while k < total
            invariant
                self.wf(),
                self.key_generator.config == old(self).key_generator.config,
                self.key_generator.replica_id == old(self).key_generator.replica_id,
                self.key_generator.window_index == old(self).key_generator.window_index,
                self.original_data == old(self).original_data,
                self.build_trees == old(self).build_trees,
                total == old(self).key_generator.len_spec(),
                k <= total,
                k == out@.len(),
                self.key_generator.current_layer_index == k,
                forall|j: int| 0 <= j < k ==> out@[j] is Ok,
                old(self).on_track() ==> self.on_track() && (forall|j: int|
                    #![trigger out@[j]]
                    0 <= j < k ==> (out@[j] matches Ok(o) ==> is_sealer_output::<E>(
                        old(self).key_generator.config,
                        old(self).key_generator.replica_id,
                        old(self).key_generator.window_index,
                        old(self).original_data@,
                        old(self).build_trees,
                        j + 1,
                        o,
                    ))),
            decreases total - k,
        {
            let step = match self.next() {
                Some(res) => res,
                None => {
                    proof {
                        assert(false);
                    }
                    return out;
                },
            };
            match step {
                Ok(o) => {
                    out.push(Ok(o));
                    k = k + 1;
                },
                Err(e) => {
                    out.push(Err(e));
                    return out;
                },
            }
        }
        out
    }
}

/// Two layer outputs carry the same data.
pub open spec fn same_output(a: LayerOutput, b: LayerOutput) -> bool {
    a.base@ == b.base@ && a.tree@ == b.tree@
}

/// Seek/resume equivalence: a sealer resumed from the recorded layer at
/// position `t` of a complete run produces exactly the remaining tail of
/// that run, step for step.
pub proof fn lemma_seek_resume_equivalence<E: NarrowStackedExpander>(
    c: Config,
    replica_id: ReplicaId,
    window_index: usize,
    data: Seq<Node>,
    build_trees: bool,
    t: int,
    full: Seq<LayerOutput>,
    resumed: Seq<LayerOutput>,
)
    requires
        1 <= t < c.num_layers(),
        full.len() == c.num_layers(),
        forall|j: int|
            0 <= j < full.len() ==> is_sealer_output::<E>(
                c,
                replica_id,
                window_index,
                data,
                build_trees,
                j + 1,
                full[j],
            ),
        resumed.len() == c.num_layers() - t - 1,
        forall|j: int|
            0 <= j < resumed.len() ==> is_sealer_output::<E>(
                c,
                replica_id,
                window_index,
                data,
                build_trees,
                t + 2 + j,
                resumed[j],
            ),
    ensures
        forall|j: int|
            0 <= j < resumed.len() ==> same_output(resumed[j], full[t + 1 + j]),
{
}

} // verus!
