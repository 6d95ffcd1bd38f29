//! The compute-engine capability set consumed by the sealing pipeline.

use crate::config::Config;
use crate::error::NSEError;
use crate::node::Layer;
use crate::node::Node;
use crate::node::ReplicaId;
use vstd::prelude::*;

verus! {

/// Whether a sealing run accumulates Merkle trees over its layers.
#[derive(Debug, Clone, Copy)]
pub enum TreeOptions {
    Enabled { rows_to_discard: usize },
    Disabled,
}

/// One step of layer derivation or combination, executed against
/// device-resident state.
///
/// An engine holds the most recently produced layer (the "current"
/// layer) and, once [`finalize`](Self::finalize) has run, the
/// combine-ready key. Every derivation result is a function of the seed
/// and the current layer alone, fixed per engine type, so that two
/// engines of the same backend agree bit for bit on every output. An
/// engine is exclusively owned by one generator at a time; its state is
/// single-threaded and step-local.
///
/// A failing operation returns an error; the engine then keeps its
/// window size and tree attachment, but its current layer is
/// unspecified until the caller pushes a fresh one.
pub trait NarrowStackedExpander: Sized {
    /// Number of nodes of the window this engine was built for.
    spec fn leaf_count_spec(&self) -> usize;

    /// The layer currently held by the engine.
    spec fn current_layer(&self) -> Seq<Node>;

    /// Whether the key has been finalized for combining.
    spec fn finalized(&self) -> bool;

    /// Whether a tree builder is attached.
    spec fn trees_enabled(&self) -> bool;

    /// The mask layer over `n` nodes, derived from the seed alone.
    spec fn mask_layer_spec(replica_id: ReplicaId, window_index: usize, n: nat) -> Seq<Node>;

    /// The expander layer derived from the previous layer and the seed.
    spec fn expander_layer_spec(
        replica_id: ReplicaId,
        window_index: usize,
        layer_index: usize,
        prev: Seq<Node>,
    ) -> Seq<Node>;

    /// The butterfly layer derived from the previous layer and the seed.
    spec fn butterfly_layer_spec(
        replica_id: ReplicaId,
        window_index: usize,
        layer_index: usize,
        prev: Seq<Node>,
    ) -> Seq<Node>;

    /// One node of caller data combined with one node of the finalized
    /// key: encoding for `is_decode == false`, decoding for `true`.
    spec fn combine_node_spec(key: Node, data: Node, is_decode: bool) -> Node;

    /// The Merkle root over one layer of leaves.
    spec fn tree_root_spec(leaves: Seq<Node>) -> Node;

    /// Decoding inverts encoding against the same key node.
    proof fn lemma_combine_inverse(key: Node, data: Node)
        ensures
            Self::combine_node_spec(key, Self::combine_node_spec(key, data, false), true) == data,
    ;

    fn leaf_count(&self) -> (n: usize)
        ensures
            n == self.leaf_count_spec(),
    ;

    /// Advisory batching granularity for large combine operations;
    /// chunking by it must not change results.
    fn combine_batch_size(&self) -> (n: usize)
        ensures
            n >= 1,
    ;

    /// Overwrite the current layer with caller-supplied data.
    fn push_layer(&mut self, layer: &Layer) -> (r: Result<(), NSEError>)
        requires
            layer@.len() == old(self).leaf_count_spec(),
        ensures
            final(self).leaf_count_spec() == old(self).leaf_count_spec(),
            final(self).trees_enabled() == old(self).trees_enabled(),
            r is Ok ==> final(self).current_layer() == layer@ && !final(self).finalized(),
    ;

    fn generate_mask_layer(&mut self, replica_id: ReplicaId, window_index: usize) -> (r: Result<
        Layer,
        NSEError,
    >)
        ensures
            final(self).leaf_count_spec() == old(self).leaf_count_spec(),
            final(self).trees_enabled() == old(self).trees_enabled(),
            (match r {
                Ok(l) => {
                    &&& l@ == Self::mask_layer_spec(
                        replica_id,
                        window_index,
                        old(self).leaf_count_spec() as nat,
                    )
                    &&& l@.len() == old(self).leaf_count_spec()
                    &&& final(self).current_layer() == l@
                    &&& !final(self).finalized()
                },
                Err(_) => true,
            }),
    ;

    fn generate_expander_layer(
        &mut self,
        replica_id: ReplicaId,
        window_index: usize,
        layer_index: usize,
    ) -> (r: Result<Layer, NSEError>)
        ensures
            final(self).leaf_count_spec() == old(self).leaf_count_spec(),
            final(self).trees_enabled() == old(self).trees_enabled(),
            (match r {
                Ok(l) => {
                    &&& l@ == Self::expander_layer_spec(
                        replica_id,
                        window_index,
                        layer_index,
                        old(self).current_layer(),
                    )
                    &&& l@.len() == old(self).leaf_count_spec()
                    &&& final(self).current_layer() == l@
                    &&& !final(self).finalized()
                },
                Err(_) => true,
            }),
    ;

    fn generate_butterfly_layer(
        &mut self,
        replica_id: ReplicaId,
        window_index: usize,
        layer_index: usize,
    ) -> (r: Result<Layer, NSEError>)
        ensures
            final(self).leaf_count_spec() == old(self).leaf_count_spec(),
            final(self).trees_enabled() == old(self).trees_enabled(),
            (match r {
                Ok(l) => {
                    &&& l@ == Self::butterfly_layer_spec(
                        replica_id,
                        window_index,
                        layer_index,
                        old(self).current_layer(),
                    )
                    &&& l@.len() == old(self).leaf_count_spec()
                    &&& final(self).current_layer() == l@
                    &&& !final(self).finalized()
                },
                Err(_) => true,
            }),
    ;

    /// Transition the current layer into its combine-ready key form;
    /// called exactly once, after the last key layer.
    fn finalize(&mut self) -> (r: Result<(), NSEError>)
        ensures
            final(self).leaf_count_spec() == old(self).leaf_count_spec(),
            final(self).trees_enabled() == old(self).trees_enabled(),
            r is Ok ==> final(self).finalized() && final(self).current_layer() == old(
                self,
            ).current_layer(),
    ;

    /// Combine a contiguous sub-range of caller data with the finalized
    /// key, node by node; `is_decode` selects decoding.
    fn combine_segment(&mut self, offset: usize, segment: &[Node], is_decode: bool) -> (r: Result<
        Vec<Node>,
        NSEError,
    >)
        requires
            old(self).finalized(),
            offset + segment@.len() <= old(self).leaf_count_spec(),
        ensures
            final(self).leaf_count_spec() == old(self).leaf_count_spec(),
            final(self).trees_enabled() == old(self).trees_enabled(),
            final(self).current_layer() == old(self).current_layer(),
            final(self).finalized(),
            (match r {
                Ok(v) => {
                    &&& v@.len() == segment@.len()
                    &&& forall|i: int|
                        0 <= i < v@.len() ==> v@[i] == Self::combine_node_spec(
                            old(self).current_layer()[offset + i],
                            segment@[i],
                            is_decode,
                        )
                },
                Err(_) => true,
            }),
    ;

    /// Combine a whole layer against the finalized key.
    fn combine_layer(&mut self, layer: &Layer, is_decode: bool) -> (r: Result<Layer, NSEError>)
        requires
            old(self).finalized(),
            layer@.len() == old(self).leaf_count_spec(),
        ensures
            final(self).leaf_count_spec() == old(self).leaf_count_spec(),
            final(self).trees_enabled() == old(self).trees_enabled(),
            final(self).current_layer() == old(self).current_layer(),
            final(self).finalized(),
            (match r {
                Ok(l) => {
                    &&& l@.len() == layer@.len()
                    &&& forall|i: int|
                        0 <= i < l@.len() ==> l@[i] == Self::combine_node_spec(
                            old(self).current_layer()[i],
                            layer@[i],
                            is_decode,
                        )
                },
                Err(_) => true,
            }),
    {
        match self.combine_segment(0, layer.0.as_slice(), is_decode) {
            Ok(nodes) => Ok(Layer(nodes)),
            Err(e) => Err(e),
        }
    }

    /// Feed one full layer of leaves to the attached tree builder; the
    /// builder's leaf capacity equals the window size, so each layer
    /// flushes exactly one root.
    fn build_tree(&mut self, layer: &Layer) -> (r: Result<Vec<Node>, NSEError>)
        requires
            old(self).trees_enabled(),
            layer@.len() == old(self).leaf_count_spec(),
        ensures
            final(self).leaf_count_spec() == old(self).leaf_count_spec(),
            final(self).trees_enabled() == old(self).trees_enabled(),
            final(self).current_layer() == old(self).current_layer(),
            final(self).finalized() == old(self).finalized(),
            (match r {
                Ok(v) => v@.len() == 1 && v@[0] == Self::tree_root_spec(layer@),
                Err(_) => true,
            }),
    ;
}

/// A run of caller data combined node by node against the key nodes
/// starting at `offset`.
pub open spec fn combine_seq_spec<E: NarrowStackedExpander>(
    key: Seq<Node>,
    data: Seq<Node>,
    offset: int,
    is_decode: bool,
) -> Seq<Node> {
    Seq::new(data.len(), |i: int| E::combine_node_spec(key[offset + i], data[i], is_decode))
}

/// The `i`-th key layer (1-indexed) for a fixed seed, as engine type `E`
/// derives it: layer 1 is the mask, layers up to the expander count are
/// expander layers, the rest are butterfly layers.
pub open spec fn key_layer_at<E: NarrowStackedExpander>(
    c: Config,
    replica_id: ReplicaId,
    window_index: usize,
    i: int,
) -> Seq<Node>
    decreases i,
{
    if i <= 1 {
        E::mask_layer_spec(replica_id, window_index, c.num_nodes_window as nat)
    } else if i <= c.num_expander_layers {
        E::expander_layer_spec(
            replica_id,
            window_index,
            i as usize,
            key_layer_at::<E>(c, replica_id, window_index, i - 1),
        )
    } else {
        E::butterfly_layer_spec(
            replica_id,
            window_index,
            i as usize,
            key_layer_at::<E>(c, replica_id, window_index, i - 1),
        )
    }
}

} // verus!
