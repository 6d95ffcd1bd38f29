//! A self-contained, pure-software compute engine.
//!
//! Its kernels are simple arithmetic mixers over the node limbs — not
//! the production hashing kernels of a device backend — but they satisfy
//! the whole engine contract: deterministic derivation from the seed and
//! the current layer, node-wise invertible combining, and one Merkle
//! root per full layer of leaves. It exercises the sealing pipeline
//! end to end without any device.

use crate::config::Config;
use crate::engine::NarrowStackedExpander;
use crate::engine::TreeOptions;
use crate::error::NSEError;
use crate::node::Layer;
use crate::node::Node;
use crate::node::ReplicaId;
use vstd::bytes::spec_u64_from_le_bytes;
use vstd::bytes::u64_from_le_bytes;
use vstd::prelude::*;
use vstd::slice::slice_subrange;
use vstd::slice::slice_to_vec;
use vstd::wrapping::u64_specs;

verus! {

/// Advisory batching granularity for large combine operations.
pub const COMBINE_BATCH_SIZE: usize = 500000;

/// Multiplier of the limb mixer (the golden-ratio constant).
pub const MIX_MULTIPLIER: u64 = 0x9e3779b97f4a7c15;

/// One mixing step: multiply, then fold in the shifted operand.
pub open spec fn spec_mix(a: u64, b: u64) -> u64 {
    u64_specs::wrapping_add(u64_specs::wrapping_mul(a, MIX_MULTIPLIER), b ^ (b >> 31))
}

fn mix(a: u64, b: u64) -> (r: u64)
    ensures
        r == spec_mix(a, b),
{
    a.wrapping_mul(MIX_MULTIPLIER).wrapping_add(b ^ (b >> 31))
}

/// The `k`-th 64-bit limb of a replica id, little-endian.
pub open spec fn spec_rid_limb(replica_id: ReplicaId, k: int) -> u64 {
    spec_u64_from_le_bytes(replica_id.0@.subrange(8 * k, 8 * k + 8))
}

/// The seed every kernel of this engine mixes in: the four replica-id
/// limbs and the window index, folded together.
pub open spec fn spec_seed(replica_id: ReplicaId, window_index: usize) -> u64 {
    spec_mix(
        spec_mix(
            spec_mix(
                spec_mix(
                    spec_mix(1, spec_rid_limb(replica_id, 0)),
                    spec_rid_limb(replica_id, 1),
                ),
                spec_rid_limb(replica_id, 2),
            ),
            spec_rid_limb(replica_id, 3),
        ),
        window_index as u64,
    )
}

fn seed_of(replica_id: &ReplicaId, window_index: usize) -> (r: u64)
    ensures
        r == spec_seed(*replica_id, window_index),
{
    let bytes = replica_id.0.as_slice();
    let l0 = u64_from_le_bytes(slice_subrange(bytes, 0, 8));
    let l1 = u64_from_le_bytes(slice_subrange(bytes, 8, 16));
    let l2 = u64_from_le_bytes(slice_subrange(bytes, 16, 24));
    let l3 = u64_from_le_bytes(slice_subrange(bytes, 24, 32));
    proof {
        assert(replica_id.0@.subrange(0int, 8int) =~= replica_id.0@.subrange(
            8 * 0int,
            8 * 0int + 8,
        ));
        assert(replica_id.0@.subrange(8int, 16int) =~= replica_id.0@.subrange(
            8 * 1int,
            8 * 1int + 8,
        ));
        assert(replica_id.0@.subrange(16int, 24int) =~= replica_id.0@.subrange(
            8 * 2int,
            8 * 2int + 8,
        ));
        assert(replica_id.0@.subrange(24int, 32int) =~= replica_id.0@.subrange(
            8 * 3int,
            8 * 3int + 8,
        ));
    }
    mix(mix(mix(mix(mix(1, l0), l1), l2), l3), window_index as u64)
}

/// Node `i` of the mask layer for a given seed.
pub open spec fn spec_mask_node(seed: u64, i: int) -> Node {
    let base = spec_mix(seed, i as u64);
    Node(spec_mix(base, 1), spec_mix(base, 2), spec_mix(base, 3), spec_mix(base, 4))
}

fn mask_node(seed: u64, i: usize) -> (n: Node)
    ensures
        n == spec_mask_node(seed, i as int),
{
    let base = mix(seed, i as u64);
    Node(mix(base, 1), mix(base, 2), mix(base, 3), mix(base, 4))
}

/// Node `i` of a derived layer: the previous layer's node folded with a
/// tag of the layer kind, the layer index and the position.
pub open spec fn spec_step_node(
    seed: u64,
    kind: u64,
    layer_index: usize,
    prev: Node,
    i: int,
) -> Node {
    let t = spec_mix(spec_mix(seed, kind), layer_index as u64);
    let base = spec_mix(t, i as u64);
    Node(
        spec_mix(base ^ prev.0, 1),
        spec_mix(base ^ prev.1, 2),
        spec_mix(base ^ prev.2, 3),
        spec_mix(base ^ prev.3, 4),
    )
}

fn step_node(seed: u64, kind: u64, layer_index: usize, prev: Node, i: usize) -> (n: Node)
    ensures
        n == spec_step_node(seed, kind, layer_index, prev, i as int),
{
    let t = mix(mix(seed, kind), layer_index as u64);
    let base = mix(t, i as u64);
    Node(mix(base ^ prev.0, 1), mix(base ^ prev.1, 2), mix(base ^ prev.2, 3), mix(base ^ prev.3, 4))
}

/// One accumulation step of the layer tree root.
pub open spec fn spec_root_step(acc: Node, leaf: Node) -> Node {
    Node(
        spec_mix(acc.0, leaf.0),
        spec_mix(acc.1, leaf.1),
        spec_mix(acc.2, leaf.2),
        spec_mix(acc.3, leaf.3),
    )
}

fn root_step(acc: Node, leaf: Node) -> (n: Node)
    ensures
        n == spec_root_step(acc, leaf),
{
    Node(mix(acc.0, leaf.0), mix(acc.1, leaf.1), mix(acc.2, leaf.2), mix(acc.3, leaf.3))
}

/// The root accumulated over a layer of leaves, left to right.
pub open spec fn spec_tree_root(leaves: Seq<Node>) -> Node
    decreases leaves.len(),
{
    if leaves.len() == 0 {
        Node(0, 0, 0, 0)
    } else {
        spec_root_step(spec_tree_root(leaves.drop_last()), leaves.last())
    }
}

/// A compute engine living entirely in host memory: the current layer
/// is a plain vector, finalize is a flag flip, and the kernels are the
/// mixers above.
pub struct CpuEngine {
    leaf_count: usize,
    current: Vec<Node>,
    is_finalized: bool,
    trees: bool,
}

impl CpuEngine {
    #[verifier::type_invariant]
    spec fn type_inv(self) -> bool {
        self.current@.len() == self.leaf_count
    }

    /// Build an engine for one window of the configured size.
    pub fn new(config: Config, tree_options: TreeOptions) -> (e: CpuEngine)
        ensures
            e.leaf_count_spec() == config.num_nodes_window,
            !e.finalized(),
            e.trees_enabled() == (tree_options is Enabled),
    {
        let n = config.num_nodes_window;
        let mut current: Vec<Node> = Vec::new();
        for i in 0..n
            invariant
                current@.len() == i,
        {
            current.push(Node(0, 0, 0, 0));
        }
        let trees = match tree_options {
            TreeOptions::Enabled { .. } => true,
            TreeOptions::Disabled => false,
        };
        CpuEngine { leaf_count: n, current, is_finalized: false, trees }
    }
}

impl NarrowStackedExpander for CpuEngine {
    closed spec fn leaf_count_spec(&self) -> usize {
        self.leaf_count
    }

    closed spec fn current_layer(&self) -> Seq<Node> {
        self.current@
    }

    closed spec fn finalized(&self) -> bool {
        self.is_finalized
    }

    closed spec fn trees_enabled(&self) -> bool {
        self.trees
    }

    open spec fn mask_layer_spec(replica_id: ReplicaId, window_index: usize, n: nat) -> Seq<Node> {
        Seq::new(n, |i: int| spec_mask_node(spec_seed(replica_id, window_index), i))
    }

    open spec fn expander_layer_spec(
        replica_id: ReplicaId,
        window_index: usize,
        layer_index: usize,
        prev: Seq<Node>,
    ) -> Seq<Node> {
        Seq::new(
            prev.len(),
            |i: int|
                spec_step_node(spec_seed(replica_id, window_index), 2, layer_index, prev[i], i),
        )
    }

    open spec fn butterfly_layer_spec(
        replica_id: ReplicaId,
        window_index: usize,
        layer_index: usize,
        prev: Seq<Node>,
    ) -> Seq<Node> {
        Seq::new(
            prev.len(),
            |i: int|
                spec_step_node(spec_seed(replica_id, window_index), 3, layer_index, prev[i], i),
        )
    }

    open spec fn combine_node_spec(key: Node, data: Node, is_decode: bool) -> Node {
        if is_decode {
            Node(
                u64_specs::wrapping_sub(data.0, key.0),
                u64_specs::wrapping_sub(data.1, key.1),
                u64_specs::wrapping_sub(data.2, key.2),
                u64_specs::wrapping_sub(data.3, key.3),
            )
        } else {
            Node(
                u64_specs::wrapping_add(data.0, key.0),
                u64_specs::wrapping_add(data.1, key.1),
                u64_specs::wrapping_add(data.2, key.2),
                u64_specs::wrapping_add(data.3, key.3),
            )
        }
    }

    open spec fn tree_root_spec(leaves: Seq<Node>) -> Node {
        spec_tree_root(leaves)
    }

    proof fn lemma_combine_inverse(key: Node, data: Node) {
    }

    fn leaf_count(&self) -> (n: usize) {
        self.leaf_count
    }

    fn combine_batch_size(&self) -> (n: usize) {
        COMBINE_BATCH_SIZE
    }

    fn push_layer(&mut self, layer: &Layer) -> (r: Result<(), NSEError>)
        ensures
            r is Ok,
    {
        self.current = slice_to_vec(layer.0.as_slice());
        self.is_finalized = false;
        Ok(())
    }

    fn generate_mask_layer(&mut self, replica_id: ReplicaId, window_index: usize) -> (r: Result<
        Layer,
        NSEError,
    >)
        ensures
            r is Ok,
    {
        let seed = seed_of(&replica_id, window_index);
        let n = self.leaf_count;
        let mut nodes: Vec<Node> = Vec::new();
        for i in 0..n
            invariant
                seed == spec_seed(replica_id, window_index),
                nodes@.len() == i,
                forall|j: int| 0 <= j < i ==> nodes@[j] == spec_mask_node(seed, j),
        {
            nodes.push(mask_node(seed, i));
        }
        proof {
            assert(nodes@ =~= Self::mask_layer_spec(replica_id, window_index, n as nat));
        }
        self.current = slice_to_vec(nodes.as_slice());
        self.is_finalized = false;
        Ok(Layer(nodes))
    }

    fn generate_expander_layer(
        &mut self,
        replica_id: ReplicaId,
        window_index: usize,
        layer_index: usize,
    ) -> (r: Result<Layer, NSEError>)
        ensures
            r is Ok,
    {
        proof {
            use_type_invariant(&*self);
        }
        let seed = seed_of(&replica_id, window_index);
        let n = self.leaf_count;
        let mut nodes: Vec<Node> = Vec::new();
        for i in 0..n
            invariant
                self == old(self),
                self.current@.len() == n,
                seed == spec_seed(replica_id, window_index),
                nodes@.len() == i,
                forall|j: int|
                    0 <= j < i ==> nodes@[j] == spec_step_node(
                        seed,
                        2,
                        layer_index,
                        self.current@[j],
                        j,
                    ),
        {
            let prev = self.current[i];
            nodes.push(step_node(seed, 2, layer_index, prev, i));
        }
        proof {
            assert(nodes@ =~= Self::expander_layer_spec(
                replica_id,
                window_index,
                layer_index,
                self.current@,
            ));
        }
        self.current = slice_to_vec(nodes.as_slice());
        self.is_finalized = false;
        Ok(Layer(nodes))
    }

    fn generate_butterfly_layer(
        &mut self,
        replica_id: ReplicaId,
        window_index: usize,
        layer_index: usize,
    ) -> (r: Result<Layer, NSEError>)
        ensures
            r is Ok,
    {
        proof {
            use_type_invariant(&*self);
        }
        let seed = seed_of(&replica_id, window_index);
        let n = self.leaf_count;
        let mut nodes: Vec<Node> = Vec::new();
        for i in 0..n
            invariant
                self == old(self),
                self.current@.len() == n,
                seed == spec_seed(replica_id, window_index),
                nodes@.len() == i,
                forall|j: int|
                    0 <= j < i ==> nodes@[j] == spec_step_node(
                        seed,
                        3,
                        layer_index,
                        self.current@[j],
                        j,
                    ),
        {
            let prev = self.current[i];
            nodes.push(step_node(seed, 3, layer_index, prev, i));
        }
        proof {
            assert(nodes@ =~= Self::butterfly_layer_spec(
                replica_id,
                window_index,
                layer_index,
                self.current@,
            ));
        }
        self.current = slice_to_vec(nodes.as_slice());
        self.is_finalized = false;
        Ok(Layer(nodes))
    }

    fn finalize(&mut self) -> (r: Result<(), NSEError>)
        ensures
            r is Ok,
    {
        proof {
            use_type_invariant(&*self);
        }
        self.is_finalized = true;
        Ok(())
    }

    fn combine_segment(&mut self, offset: usize, segment: &[Node], is_decode: bool) -> (r: Result<
        Vec<Node>,
        NSEError,
    >)
        ensures
            r is Ok,
    {
        proof {
            use_type_invariant(&*self);
        }
        let len = segment.len();
        let mut out: Vec<Node> = Vec::new();
        for i in 0..len
            invariant
                self == old(self),
                self.current@.len() == self.leaf_count,
                len == segment@.len(),
                offset + len <= self.leaf_count,
                out@.len() == i,
                forall|j: int|
                    0 <= j < i ==> out@[j] == Self::combine_node_spec(
                        self.current@[offset + j],
                        segment@[j],
                        is_decode,
                    ),
        {
            let key = self.current[offset + i];
            let data = *vstd::slice::slice_index_get(segment, i);
            let node = if is_decode {
                Node(
                    data.0.wrapping_sub(key.0),
                    data.1.wrapping_sub(key.1),
                    data.2.wrapping_sub(key.2),
                    data.3.wrapping_sub(key.3),
                )
            } else {
                Node(
                    data.0.wrapping_add(key.0),
                    data.1.wrapping_add(key.1),
                    data.2.wrapping_add(key.2),
                    data.3.wrapping_add(key.3),
                )
            };
            out.push(node);
        }
        Ok(out)
    }

    fn build_tree(&mut self, layer: &Layer) -> (r: Result<Vec<Node>, NSEError>)
        ensures
            r is Ok,
    {
        let len = layer.0.len();
        let mut acc = Node(0, 0, 0, 0);
        for i in 0..len
            invariant
                len == layer@.len(),
                acc == spec_tree_root(layer@.take(i as int)),
        {
            let leaf = layer.0[i];
            acc = root_step(acc, leaf);
            proof {
                assert(layer@.take(i + 1).drop_last() =~= layer@.take(i as int));
                assert(layer@.take(i + 1).last() == layer@[i as int]);
            }
        }
        proof {
            assert(layer@.take(len as int) =~= layer@);
        }
        let mut out: Vec<Node> = Vec::new();
        out.push(acc);
        proof {
            assert(out@ =~= seq![spec_tree_root(layer@)]);
        }
        Ok(out)
    }
}

} // verus!
