//! The deterministic, resumable key-layer generator.

use crate::config::Config;
use crate::engine::key_layer_at;
use crate::engine::NarrowStackedExpander;
use crate::error::NSEError;
use crate::node::Layer;
use crate::node::Node;
use crate::node::ReplicaId;
use vstd::prelude::*;

verus! {

/// Produces, on demand, the i-th key layer (1-indexed) for a fixed seed,
/// or resumes generation from an externally supplied checkpoint layer.
///
/// `current_layer_index` is the sole progress cursor: 0 before anything
/// was generated, up to the total layer count once the sequence is
/// exhausted. The generator exclusively owns its engine; the fields are
/// public for specification purposes and are managed by the generator.
pub struct KeyGenerator<E: NarrowStackedExpander> {
    pub config: Config,
    pub replica_id: ReplicaId,
    pub window_index: usize,
    pub current_layer_index: usize,
    pub engine: E,
}

impl<E: NarrowStackedExpander> KeyGenerator<E> {
    /// Total number of key layers (independent of progress).
    pub open spec fn len_spec(&self) -> int {
        self.config.num_layers()
    }

    /// The engine window matches the configuration and the layer count
    /// fits in a `usize`.
    pub open spec fn wf(&self) -> bool {
        &&& self.engine.leaf_count_spec() == self.config.num_nodes_window
        &&& self.config.valid()
    }

    /// The `i`-th key layer for this generator's seed.
    pub open spec fn expected_layer(&self, i: int) -> Seq<Node> {
        key_layer_at::<E>(self.config, self.replica_id, self.window_index, i)
    }

    /// The engine holds exactly the key layer the cursor says it should.
    pub open spec fn on_track(&self) -> bool {
        &&& self.current_layer_index <= self.len_spec()
        &&& self.current_layer_index >= 1 ==> self.engine.current_layer() == self.expected_layer(
            self.current_layer_index as int,
        )
    }

    /// Build a generator over an engine; the engine's window size must
    /// match the configuration, else the engine is rejected.
    pub fn new(
        config: Config,
        replica_id: ReplicaId,
        window_index: usize,
        engine: E,
    ) -> (r: Result<Self, NSEError>)
        requires
            config.valid(),
        ensures
            (match r {
                Ok(kg) => {
                    &&& engine.leaf_count_spec() == config.num_nodes_window
                    &&& kg == (KeyGenerator {
                        config,
                        replica_id,
                        window_index,
                        current_layer_index: 0,
                        engine,
                    })
                    &&& kg.wf()
                    &&& kg.on_track()
                },
                Err(e) => {
                    &&& e == NSEError::ConfigMismatch
                    &&& engine.leaf_count_spec() != config.num_nodes_window
                },
            }),
    {
        if engine.leaf_count() != config.num_nodes_window {
            return Err(NSEError::ConfigMismatch);
        }
        Ok(KeyGenerator { config, replica_id, window_index, current_layer_index: 0, engine })
    }

    /// Total number of key layers, regardless of progress.
    pub fn len(&self) -> (n: usize)
        requires
            self.config.layers_fit(),
        ensures
            n == self.len_spec(),
    {
        self.config.num_expander_layers + self.config.num_butterfly_layers
    }

    /// The configuration this generator runs under.
    pub fn config(&self) -> (c: Config)
        ensures
            c == self.config,
    {
        self.config
    }

    fn last_index(&self) -> (n: usize)
        requires
            self.config.layers_fit(),
        ensures
            n == self.len_spec(),
    {
        self.config.num_expander_layers + self.config.num_butterfly_layers
    }

    /// How many layers are still to be produced.
    pub fn layers_remaining(&self) -> (n: usize)
        requires
            self.config.layers_fit(),
            self.current_layer_index <= self.len_spec(),
        ensures
            n == self.len_spec() - self.current_layer_index,
    {
        self.last_index() - self.current_layer_index
    }

    /// Resume from an externally cached layer: set the cursor just past
    /// `target_layer_index` and push the supplied data into the engine,
    /// discarding engine progress. No validation that the data is a
    /// valid key layer at that index is performed.
    pub fn seek(&mut self, target_layer_index: usize, target_layer_data: &Layer) -> (r: Result<
        (),
        NSEError,
    >)
        requires
            old(self).wf(),
            target_layer_data@.len() == old(self).config.num_nodes_window,
            target_layer_index < usize::MAX,
        ensures
            final(self).wf(),
            final(self).config == old(self).config,
            final(self).replica_id == old(self).replica_id,
            final(self).window_index == old(self).window_index,
            final(self).engine.trees_enabled() == old(self).engine.trees_enabled(),
            final(self).current_layer_index == target_layer_index + 1,
            (match r {
                Ok(_) => {
                    &&& final(self).engine.current_layer() == target_layer_data@
                    &&& !final(self).engine.finalized()
                    &&& (target_layer_index + 1 <= old(self).len_spec() && target_layer_data@
                        == old(self).expected_layer(target_layer_index + 1) ==> final(
                        self).on_track())
                },
                Err(_) => true,
            }),
    {
        self.current_layer_index = target_layer_index + 1;
        let r = self.engine.push_layer(target_layer_data);
        r
    }

    fn generate_mask_layer(&mut self) -> (r: Result<Layer, NSEError>)
        requires
            old(self).wf(),
        ensures
            final(self).wf(),
            final(self).config == old(self).config,
            final(self).replica_id == old(self).replica_id,
            final(self).window_index == old(self).window_index,
            final(self).engine.trees_enabled() == old(self).engine.trees_enabled(),
            final(self).current_layer_index == old(self).current_layer_index,
            (match r {
                Ok(l) => {
                    &&& l@ == E::mask_layer_spec(
                        old(self).replica_id,
                        old(self).window_index,
                        old(self).config.num_nodes_window as nat,
                    )
                    &&& l@.len() == old(self).config.num_nodes_window
                    &&& final(self).engine.current_layer() == l@
                    &&& !final(self).engine.finalized()
                },
                Err(_) => true,
            }),
    {
        self.engine.generate_mask_layer(self.replica_id, self.window_index)
    }

    fn generate_expander_layer(&mut self) -> (r: Result<Layer, NSEError>)
        requires
            old(self).wf(),
        ensures
            final(self).wf(),
            final(self).config == old(self).config,
            final(self).replica_id == old(self).replica_id,
            final(self).window_index == old(self).window_index,
            final(self).engine.trees_enabled() == old(self).engine.trees_enabled(),
            final(self).current_layer_index == old(self).current_layer_index,
            (match r {
                Ok(l) => {
                    &&& l@ == E::expander_layer_spec(
                        old(self).replica_id,
                        old(self).window_index,
                        old(self).current_layer_index,
                        old(self).engine.current_layer(),
                    )
                    &&& l@.len() == old(self).config.num_nodes_window
                    &&& final(self).engine.current_layer() == l@
                    &&& !final(self).engine.finalized()
                },
                Err(_) => true,
            }),
    {
        self.engine.generate_expander_layer(
            self.replica_id,
            self.window_index,
            self.current_layer_index,
        )
    }

    fn generate_butterfly_layer(&mut self) -> (r: Result<Layer, NSEError>)
        requires
            old(self).wf(),
        ensures
            final(self).wf(),
            final(self).config == old(self).config,
            final(self).replica_id == old(self).replica_id,
            final(self).window_index == old(self).window_index,
            final(self).engine.trees_enabled() == old(self).engine.trees_enabled(),
            final(self).current_layer_index == old(self).current_layer_index,
            (match r {
                Ok(l) => {
                    &&& l@ == E::butterfly_layer_spec(
                        old(self).replica_id,
                        old(self).window_index,
                        old(self).current_layer_index,
                        old(self).engine.current_layer(),
                    )
                    &&& l@.len() == old(self).config.num_nodes_window
                    &&& final(self).engine.current_layer() == l@
                    &&& !final(self).engine.finalized()
                },
                Err(_) => true,
            }),
    {
        self.engine.generate_butterfly_layer(
            self.replica_id,
            self.window_index,
            self.current_layer_index,
        )
    }

    /// Advance the cursor and derive the next key layer: the mask first,
    /// then expander layers, then butterfly layers; the engine is
    /// finalized immediately after the last one. Returns `None` once all
    /// layers have been produced (the sequence stays exhausted). A
    /// failed step leaves the cursor advanced; callers wanting to retry
    /// must `seek` back.
    pub fn next(&mut self) -> (r: Option<Result<Layer, NSEError>>)
        requires
            old(self).wf(),
        ensures
            final(self).wf(),
            final(self).config == old(self).config,
            final(self).replica_id == old(self).replica_id,
            final(self).window_index == old(self).window_index,
            final(self).engine.trees_enabled() == old(self).engine.trees_enabled(),
            old(self).current_layer_index >= old(self).len_spec() ==> r is None && *final(self)
                == *old(self),
            old(self).current_layer_index < old(self).len_spec() ==> r is Some && final(
                self).current_layer_index == old(self).current_layer_index + 1,
            (match r {
                Some(Ok(l)) => {
                    let i = old(self).current_layer_index + 1;
                    &&& l@.len() == old(self).config.num_nodes_window
                    &&& final(self).engine.current_layer() == l@
                    &&& (i == 1 ==> l@ == E::mask_layer_spec(
                        old(self).replica_id,
                        old(self).window_index,
                        old(self).config.num_nodes_window as nat,
                    ))
                    &&& (2 <= i && i <= old(self).config.num_expander_layers ==> l@
                        == E::expander_layer_spec(
                        old(self).replica_id,
                        old(self).window_index,
                        i as usize,
                        old(self).engine.current_layer(),
                    ))
                    &&& (old(self).config.num_expander_layers < i ==> l@
                        == E::butterfly_layer_spec(
                        old(self).replica_id,
                        old(self).window_index,
                        i as usize,
                        old(self).engine.current_layer(),
                    ))
                    &&& (i == old(self).len_spec() ==> final(self).engine.finalized())
                    &&& (i < old(self).len_spec() ==> !final(self).engine.finalized())
                    &&& (old(self).on_track() ==> final(self).on_track() && l@ == old(
                        self).expected_layer(i))
                },
                _ => true,
            }),
    {
        let last_index = self.last_index();

        // Once the cursor has reached the last index, the sequence is
        // exhausted for good.
        if self.current_layer_index >= last_index {
            return None;
        }
        self.current_layer_index = self.current_layer_index + 1;

        // The first layer is the mask layer.
        if self.current_layer_index == 1 {
            let r = self.generate_mask_layer();
            return Some(r);
        }

        // Expander layers follow the mask, up to the expander count.
        if self.current_layer_index <= self.config.num_expander_layers {
            let r = self.generate_expander_layer();
            return Some(r);
        }

        // Butterfly layers close the sequence; the engine is finalized
        // right after the last one so that combining uses this exact key.
        let r = self.generate_butterfly_layer();
        match r {
            Ok(l) => {
                if self.current_layer_index == last_index {
                    match self.finalize() {
                        Ok(_) => Some(Ok(l)),
                        Err(e) => Some(Err(e)),
                    }
                } else {
                    Some(Ok(l))
                }
            },
            Err(e) => Some(Err(e)),
        }
    }

    fn finalize(&mut self) -> (r: Result<(), NSEError>)
        requires
            old(self).wf(),
        ensures
            final(self).wf(),
            final(self).config == old(self).config,
            final(self).replica_id == old(self).replica_id,
            final(self).window_index == old(self).window_index,
            final(self).engine.trees_enabled() == old(self).engine.trees_enabled(),
            final(self).current_layer_index == old(self).current_layer_index,
            (match r {
                Ok(_) => final(self).engine.finalized() && final(self).engine.current_layer()
                    == old(self).engine.current_layer(),
                Err(_) => true,
            }),
    {
        self.engine.finalize()
    }

    /// Combine a whole layer of caller data with the finalized key.
    pub fn combine_layer(&mut self, layer: &Layer, is_decode: bool) -> (r: Result<
        Layer,
        NSEError,
    >)
        requires
            old(self).wf(),
            old(self).engine.finalized(),
            layer@.len() == old(self).config.num_nodes_window,
        ensures
            final(self).wf(),
            final(self).config == old(self).config,
            final(self).replica_id == old(self).replica_id,
            final(self).window_index == old(self).window_index,
            final(self).engine.trees_enabled() == old(self).engine.trees_enabled(),
            final(self).current_layer_index == old(self).current_layer_index,
            final(self).engine.current_layer() == old(self).engine.current_layer(),
            final(self).engine.finalized(),
            (match r {
                Ok(l) => {
                    &&& l@.len() == layer@.len()
                    &&& forall|i: int|
                        0 <= i < l@.len() ==> l@[i] == E::combine_node_spec(
                            old(self).engine.current_layer()[i],
                            layer@[i],
                            is_decode,
                        )
                },
                Err(_) => true,
            }),
    {
        self.engine.combine_layer(layer, is_decode)
    }

    /// Combine a contiguous sub-range of caller data with the finalized key.
    pub fn combine_segment(&mut self, offset: usize, segment: &[Node], is_decode: bool) -> (r:
        Result<Vec<Node>, NSEError>)
        requires
            old(self).wf(),
            old(self).engine.finalized(),
            offset + segment@.len() <= old(self).config.num_nodes_window,
        ensures
            final(self).wf(),
            final(self).config == old(self).config,
            final(self).replica_id == old(self).replica_id,
            final(self).window_index == old(self).window_index,
            final(self).engine.trees_enabled() == old(self).engine.trees_enabled(),
            final(self).current_layer_index == old(self).current_layer_index,
            final(self).engine.current_layer() == old(self).engine.current_layer(),
            final(self).engine.finalized(),
            (match r {
                Ok(v) => {
                    &&& v@.len() == segment@.len()
                    &&& forall|i: int|
                        0 <= i < v@.len() ==> v@[i] == E::combine_node_spec(
                            old(self).engine.current_layer()[offset + i],
                            segment@[i],
                            is_decode,
                        )
                },
                Err(_) => true,
            }),
    {
        self.engine.combine_segment(offset, segment, is_decode)
    }

    /// Feed one layer of leaves to the engine's tree builder and return
    /// the flushed root.
    pub fn build_tree(&mut self, layer: &Layer) -> (r: Result<Vec<Node>, NSEError>)
        requires
            old(self).wf(),
            old(self).engine.trees_enabled(),
            layer@.len() == old(self).config.num_nodes_window,
        ensures
            final(self).wf(),
            final(self).config == old(self).config,
            final(self).replica_id == old(self).replica_id,
            final(self).window_index == old(self).window_index,
            final(self).engine.trees_enabled() == old(self).engine.trees_enabled(),
            final(self).current_layer_index == old(self).current_layer_index,
            final(self).engine.current_layer() == old(self).engine.current_layer(),
            final(self).engine.finalized() == old(self).engine.finalized(),
            final(self).engine.trees_enabled(),
            (match r {
                Ok(v) => v@.len() == 1 && v@[0] == E::tree_root_spec(layer@),
                Err(_) => true,
            }),
    {
        self.engine.build_tree(layer)
    }

    /// Give the engine back, consuming the generator.
    pub fn into_engine(self) -> (e: E)
        ensures
            e == self.engine,
    {
        self.engine
    }
}

/// Determinism: two complete key-derivation runs for identical
/// configuration, replica id and window index on the same engine type
/// yield bit-identical layers at every index.
pub proof fn lemma_key_derivation_deterministic<E: NarrowStackedExpander>(
    c: Config,
    replica_id: ReplicaId,
    window_index: usize,
    first: Seq<Seq<Node>>,
    second: Seq<Seq<Node>>,
)
    requires
        first.len() == c.num_layers(),
        second.len() == c.num_layers(),
        forall|i: int|
            0 <= i < first.len() ==> first[i] == key_layer_at::<E>(
                c,
                replica_id,
                window_index,
                i + 1,
            ),
        forall|i: int|
            0 <= i < second.len() ==> second[i] == key_layer_at::<E>(
                c,
                replica_id,
                window_index,
                i + 1,
            ),
    ensures
        first == second,
{
    assert(first =~= second);
}

} // verus!
