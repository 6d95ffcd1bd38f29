//! Nodes, layers and the byte serialization between them.
//!
//! A node is one field element of the window, held in its canonical
//! 32-byte representation as four little-endian 64-bit limbs. A layer is
//! an ordered sequence of nodes whose position in the window is
//! meaningful. Serialization to and from a flat byte buffer is a pure,
//! total, invertible function, independent of which compute engine
//! produced the nodes.

use vstd::bytes::*;
use vstd::prelude::*;

verus! {

/// Size in bytes of one serialized node.
pub const NODE_SIZE: usize = 32;

/// One field element, as four 64-bit limbs (least significant first).
#[derive(PartialEq, Eq, Structural, Debug, Clone, Copy)]
pub struct Node(pub u64, pub u64, pub u64, pub u64);

impl Node {
    /// Relies on rand::random: four freshly drawn limbs. Nothing can be
    /// promised of a random value.
    #[verifier::external_body]
    pub fn random() -> Node {
        Node(rand::random(), rand::random(), rand::random(), rand::random())
    }
}

impl Default for Node {
    /// The zero node.
    fn default() -> (r: Self)
        ensures
            r == (Node(0, 0, 0, 0)),
    {
        Node(0, 0, 0, 0)
    }
}

/// Opaque 32-byte replica seed; never interpreted arithmetically here.
#[derive(PartialEq, Eq, Debug, Clone, Copy)]
pub struct ReplicaId(pub [u8; 32]);

impl ReplicaId {
    /// Relies on rand::random: 32 freshly drawn seed bytes. Nothing can
    /// be promised of a random value.
    #[verifier::external_body]
    pub fn random() -> ReplicaId {
        ReplicaId(rand::random())
    }
}

impl Default for ReplicaId {
    /// The all-zero replica id.
    fn default() -> (r: Self)
        ensures
            forall|i: int| 0 <= i < 32 ==> r.0[i] == 0,
    {
        ReplicaId([0u8; 32])
    }
}

/// Ordered sequence of nodes; node `i` belongs to position `i` in the window.
#[derive(PartialEq, Debug, Clone, Default)]
pub struct Layer(pub Vec<Node>);

impl View for Layer {
    type V = Seq<Node>;

    open spec fn view(&self) -> Seq<Node> {
        self.0@
    }
}

/// The 32 bytes of one node: the four limbs, each little-endian.
pub open spec fn spec_node_bytes(n: Node) -> Seq<u8> {
    spec_u64_to_le_bytes(n.0) + spec_u64_to_le_bytes(n.1) + spec_u64_to_le_bytes(n.2)
        + spec_u64_to_le_bytes(n.3)
}

/// The node read back from 32 bytes.
pub open spec fn spec_node_from_bytes(b: Seq<u8>) -> Node
    recommends
        b.len() == 32,
{
    Node(
        spec_u64_from_le_bytes(b.subrange(0, 8)),
        spec_u64_from_le_bytes(b.subrange(8, 16)),
        spec_u64_from_le_bytes(b.subrange(16, 24)),
        spec_u64_from_le_bytes(b.subrange(24, 32)),
    )
}

/// The flat byte buffer of a whole layer, node after node.
pub open spec fn spec_layer_bytes(nodes: Seq<Node>) -> Seq<u8>
    decreases nodes.len(),
{
    if nodes.len() == 0 {
        Seq::empty()
    } else {
        spec_layer_bytes(nodes.drop_last()) + spec_node_bytes(nodes.last())
    }
}

/// The nodes read back from a flat buffer; a trailing fragment shorter
/// than one node is ignored.
pub open spec fn spec_layer_from_bytes(b: Seq<u8>) -> Seq<Node> {
    Seq::new((b.len() / 32) as nat, |i: int| spec_node_from_bytes(b.subrange(32 * i, 32 * i + 32)))
}

pub proof fn lemma_node_bytes_len(n: Node)
    ensures
        spec_node_bytes(n).len() == 32,
{
    lemma_auto_spec_u64_to_from_le_bytes();
}

pub proof fn lemma_layer_bytes_len(nodes: Seq<Node>)
    ensures
        spec_layer_bytes(nodes).len() == 32 * nodes.len(),
    decreases nodes.len(),
{
    if nodes.len() > 0 {
        lemma_layer_bytes_len(nodes.drop_last());
        lemma_node_bytes_len(nodes.last());
    }
}

/// Reading one node's 32 bytes back gives the node.
pub proof fn lemma_node_bytes_roundtrip(n: Node)
    ensures
        spec_node_bytes(n).len() == 32,
        spec_node_from_bytes(spec_node_bytes(n)) == n,
{
    lemma_auto_spec_u64_to_from_le_bytes();
    let b = spec_node_bytes(n);
    assert(b.subrange(0, 8) =~= spec_u64_to_le_bytes(n.0));
    assert(b.subrange(8, 16) =~= spec_u64_to_le_bytes(n.1));
    assert(b.subrange(16, 24) =~= spec_u64_to_le_bytes(n.2));
    assert(b.subrange(24, 32) =~= spec_u64_to_le_bytes(n.3));
}

/// The bytes of node `i` sit at offset `32 * i` of the layer buffer.
pub proof fn lemma_layer_bytes_at(nodes: Seq<Node>, i: int)
    requires
        0 <= i < nodes.len(),
    ensures
        spec_layer_bytes(nodes).subrange(32 * i, 32 * i + 32) == spec_node_bytes(nodes[i]),
    decreases nodes.len(),
{
    lemma_layer_bytes_len(nodes);
    lemma_layer_bytes_len(nodes.drop_last());
    lemma_node_bytes_len(nodes.last());
    if i == nodes.len() - 1 {
        assert(spec_layer_bytes(nodes).subrange(32 * i, 32 * i + 32) =~= spec_node_bytes(
            nodes.last(),
        ));
    } else {
        lemma_layer_bytes_at(nodes.drop_last(), i);
        assert(spec_layer_bytes(nodes).subrange(32 * i, 32 * i + 32) =~= spec_layer_bytes(
            nodes.drop_last(),
        ).subrange(32 * i, 32 * i + 32));
    }
}

/// Serialization round trip: a layer written to bytes reads back unchanged.
pub proof fn lemma_layer_bytes_roundtrip(nodes: Seq<Node>)
    ensures
        spec_layer_from_bytes(spec_layer_bytes(nodes)) == nodes,
{
    lemma_layer_bytes_len(nodes);
    let b = spec_layer_bytes(nodes);
    assert forall|i: int| 0 <= i < nodes.len() implies spec_node_from_bytes(
        b.subrange(32 * i, 32 * i + 32),
    ) == nodes[i] by {
        lemma_layer_bytes_at(nodes, i);
        lemma_node_bytes_roundtrip(nodes[i]);
    }
    assert(spec_layer_from_bytes(b) =~= nodes);
}

impl Layer {
    /// A layer of freshly drawn random nodes.
    pub fn random(node_count: usize) -> (l: Layer)
        ensures
            l@.len() == node_count,
    {
        let mut nodes: Vec<Node> = Vec::new();
        for i in 0..node_count
            invariant
                nodes@.len() == i,
        {
            nodes.push(Node::random());
        }
        Layer(nodes)
    }

    /// Serialize the layer into a flat byte buffer, 32 bytes per node.
    pub fn to_bytes(&self) -> (r: Vec<u8>)
        ensures
            r@ == spec_layer_bytes(self@),
            r@.len() == 32 * self@.len(),
    {
        proof {
            lemma_layer_bytes_len(self@);
        }
        let mut out: Vec<u8> = Vec::new();
        let n = self.0.len();
        for i in 0..n
            invariant
                n == self@.len(),
                out@ == spec_layer_bytes(self@.take(i as int)),
        {
            let node = self.0[i];
            let mut b0 = u64_to_le_bytes(node.0);
            let mut b1 = u64_to_le_bytes(node.1);
            let mut b2 = u64_to_le_bytes(node.2);
            let mut b3 = u64_to_le_bytes(node.3);
            out.append(&mut b0);
            out.append(&mut b1);
            out.append(&mut b2);
            out.append(&mut b3);
            proof {
                assert(self@.take(i + 1).drop_last() =~= self@.take(i as int));
                assert(out@ =~= spec_layer_bytes(self@.take(i as int)) + spec_node_bytes(
                    self@[i as int],
                ));
            }
        }
        proof {
            assert(self@.take(n as int) =~= self@);
        }
        out
    }

    /// Deserialize a layer from a flat byte buffer; any trailing fragment
    /// shorter than one node is ignored.
    pub fn from_bytes(data: &Vec<u8>) -> (r: Layer)
        ensures
            r@ == spec_layer_from_bytes(data@),
            r@.len() == data@.len() / 32,
    {
        let count = data.len() / NODE_SIZE;
        proof {
            assert(data@.len() == data.len());
        }
        let mut nodes: Vec<Node> = Vec::new();
        for i in 0..count
            invariant
                count == data@.len() / 32,
                data@.len() <= usize::MAX,
                nodes@.len() == i,
                forall|j: int|
                    0 <= j < i ==> nodes@[j] == spec_node_from_bytes(
                        data@.subrange(32 * j, 32 * j + 32),
                    ),
        {
            proof {
                vstd::arithmetic::div_mod::lemma_fundamental_div_mod(data@.len() as int, 32);
                vstd::arithmetic::div_mod::lemma_mod_bound(data@.len() as int, 32);
            }
            let off = i * NODE_SIZE;
            let s = data.as_slice();
            let l0 = u64_from_le_bytes(vstd::slice::slice_subrange(s, off, off + 8));
            let l1 = u64_from_le_bytes(vstd::slice::slice_subrange(s, off + 8, off + 16));
            let l2 = u64_from_le_bytes(vstd::slice::slice_subrange(s, off + 16, off + 24));
            let l3 = u64_from_le_bytes(vstd::slice::slice_subrange(s, off + 24, off + 32));
            let node = Node(l0, l1, l2, l3);
            proof {
                let b = data@.subrange(32 * i, 32 * i + 32);
                assert(data@.subrange(off as int, off + 8) =~= b.subrange(0, 8));
                assert(data@.subrange(off + 8, off + 16) =~= b.subrange(8, 16));
                assert(data@.subrange(off + 16, off + 24) =~= b.subrange(16, 24));
                assert(data@.subrange(off + 24, off + 32) =~= b.subrange(24, 32));
            }
            nodes.push(node);
        }
        proof {
            assert(nodes@ =~= spec_layer_from_bytes(data@));
        }
        Layer(nodes)
    }
}

/// One independent unit of sealing work.
#[derive(PartialEq, Debug, Clone)]
pub struct SealerInput {
    pub replica_id: ReplicaId,
    pub window_index: usize,
    pub original_data: Layer,
}

/// One step's emitted layer, plus the Merkle root(s) contributed by it
/// when tree building is enabled (empty otherwise).
#[derive(PartialEq, Debug, Clone)]
pub struct LayerOutput {
    pub base: Layer,
    pub tree: Vec<Node>,
}

} // verus!
