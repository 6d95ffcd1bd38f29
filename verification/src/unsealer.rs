//! The Unsealer: recovers original data, or decodes an arbitrary
//! sub-range, from sealed data by replaying the identical deterministic
//! key derivation.

use crate::config::Config;
use crate::engine::combine_seq_spec;
use crate::engine::key_layer_at;
use crate::engine::NarrowStackedExpander;
use crate::error::NSEError;
use crate::keygen::KeyGenerator;
use crate::node::Layer;
use crate::node::Node;
use crate::node::ReplicaId;
use crate::sealer::sealed_layer_spec;
use vstd::prelude::*;

verus! {

/// The whole window decoded against the final key.
pub open spec fn unsealed_layer_spec<E: NarrowStackedExpander>(
    c: Config,
    replica_id: ReplicaId,
    window_index: usize,
    sealed: Seq<Node>,
) -> Seq<Node> {
    combine_seq_spec::<E>(
        key_layer_at::<E>(c, replica_id, window_index, c.num_layers()),
        sealed,
        0,
        true,
    )
}

/// Replays key derivation to completion, then decodes sealed data;
/// repeated decode calls on one unsealer skip the exhausted generator
/// and are pure given the fixed finalized key.
pub struct Unsealer<E: NarrowStackedExpander> {
    pub key_generator: KeyGenerator<E>,
}

impl<E: NarrowStackedExpander> Unsealer<E> {
    /// The generator is well-formed.
    pub open spec fn wf(&self) -> bool {
        self.key_generator.wf()
    }

    /// The generator's engine holds what its cursor says.
    pub open spec fn on_track(&self) -> bool {
        self.key_generator.on_track()
    }

    /// If the generator is already exhausted, the engine holds the
    /// finalized key (as it does after one complete replay).
    pub open spec fn key_ready_if_done(&self) -> bool {
        self.key_generator.current_layer_index >= self.key_generator.len_spec() ==> (
        self.key_generator.engine.finalized() && self.key_generator.current_layer_index
            == self.key_generator.len_spec())
    }

    /// Build an unsealer over an engine, identically to a sealer's
    /// internal generator.
    pub fn new(
        config: Config,
        replica_id: ReplicaId,
        window_index: usize,
        engine: E,
    ) -> (r: Result<Self, NSEError>)
        requires
            config.valid(),
        ensures
            (match r {
                Ok(u) => {
                    &&& engine.leaf_count_spec() == config.num_nodes_window
                    &&& u.wf()
                    &&& u.on_track()
                    &&& u.key_ready_if_done()
                    &&& u.key_generator.config == config
                    &&& u.key_generator.replica_id == replica_id
                    &&& u.key_generator.window_index == window_index
                    &&& u.key_generator.current_layer_index == 0
                },
                Err(e) => {
                    &&& e == NSEError::ConfigMismatch
                    &&& engine.leaf_count_spec() != config.num_nodes_window
                },
            }),
    {
        match KeyGenerator::new(config, replica_id, window_index, engine) {
            Ok(key_generator) => Ok(Self { key_generator }),
            Err(e) => Err(e),
        }
    }

    /// Decode a contiguous sub-range of sealed data, first driving key
    /// derivation to completion (discarding the intermediate layers) if
    /// it has not finished yet.
    pub fn unseal_range(&mut self, offset: usize, sealed_data: &[Node]) -> (r: Result<
        Vec<Node>,
        NSEError,
    >)
        requires
            old(self).wf(),
            old(self).key_ready_if_done(),
            offset + sealed_data@.len() <= old(self).key_generator.config.num_nodes_window,
        ensures
            final(self).wf(),
            final(self).key_generator.config == old(self).key_generator.config,
            final(self).key_generator.replica_id == old(self).key_generator.replica_id,
            final(self).key_generator.window_index == old(self).key_generator.window_index,
            (match r {
                Ok(v) => {
                    &&& v@.len() == sealed_data@.len()
                    &&& final(self).key_generator.current_layer_index == old(
                        self).key_generator.len_spec()
                    &&& final(self).key_generator.engine.finalized()
                    &&& final(self).key_ready_if_done()
                    &&& (old(self).on_track() ==> final(self).on_track() && v@
                        == combine_seq_spec::<E>(
                        key_layer_at::<E>(
                            old(self).key_generator.config,
                            old(self).key_generator.replica_id,
                            old(self).key_generator.window_index,
                            old(self).key_generator.config.num_layers(),
                        ),
                        sealed_data@,
                        offset as int,
                        true,
                    ))
                },
                Err(_) => true,
            }),
    {
        loop
            invariant
                self.wf(),
                self.key_generator.config == old(self).key_generator.config,
                self.key_generator.replica_id == old(self).key_generator.replica_id,
                self.key_generator.window_index == old(self).key_generator.window_index,
                self.key_ready_if_done(),
                old(self).on_track() ==> self.on_track(),
                offset + sealed_data@.len() <= self.key_generator.config.num_nodes_window,
            ensures
                self.wf(),
                self.key_generator.config == old(self).key_generator.config,
                self.key_generator.replica_id == old(self).key_generator.replica_id,
                self.key_generator.window_index == old(self).key_generator.window_index,
                self.key_generator.current_layer_index == self.key_generator.len_spec(),
                self.key_generator.engine.finalized(),
                old(self).on_track() ==> self.on_track(),
                offset + sealed_data@.len() <= self.key_generator.config.num_nodes_window,
            decreases self.key_generator.len_spec() - self.key_generator.current_layer_index,
        {
            match self.key_generator.next() {
                Some(res) => {
                    match res {
                        Ok(_) => (),
                        Err(e) => {
                            return Err(e);
                        },
                    }
                },
                None => {
                    break ;
                },
            }
        }
        self.key_generator.combine_segment(offset, sealed_data, true)
    }

    /// Decode a whole sealed layer, recovering the original data.
    pub fn unseal_layer(&mut self, sealed: &Layer) -> (r: Result<Layer, NSEError>)
        requires
            old(self).wf(),
            old(self).key_ready_if_done(),
            sealed@.len() == old(self).key_generator.config.num_nodes_window,
        ensures
            final(self).wf(),
            final(self).key_generator.config == old(self).key_generator.config,
            final(self).key_generator.replica_id == old(self).key_generator.replica_id,
            final(self).key_generator.window_index == old(self).key_generator.window_index,
            (match r {
                Ok(l) => {
                    &&& l@.len() == sealed@.len()
                    &&& final(self).key_ready_if_done()
                    &&& (old(self).on_track() ==> final(self).on_track() && l@
                        == unsealed_layer_spec::<E>(
                        old(self).key_generator.config,
                        old(self).key_generator.replica_id,
                        old(self).key_generator.window_index,
                        sealed@,
                    ))
                },
                Err(_) => true,
            }),
    {
        match self.unseal_range(0, sealed.0.as_slice()) {
            Ok(nodes) => Ok(Layer(nodes)),
            Err(e) => Err(e),
        }
    }

    /// Give the engine back, consuming the unsealer.
    pub fn into_engine(self) -> (e: E)
        ensures
            e == self.key_generator.engine,
    {
        self.key_generator.into_engine()
    }
}

/// Round trip: decoding an encoded window against the same key recovers
/// the original data, whatever the data and seed.
pub proof fn lemma_seal_unseal_roundtrip<E: NarrowStackedExpander>(
    c: Config,
    replica_id: ReplicaId,
    window_index: usize,
    data: Seq<Node>,
)
    ensures
        unsealed_layer_spec::<E>(
            c,
            replica_id,
            window_index,
            sealed_layer_spec::<E>(c, replica_id, window_index, data),
        ) == data,
{
    let key = key_layer_at::<E>(c, replica_id, window_index, c.num_layers());
    let sealed = sealed_layer_spec::<E>(c, replica_id, window_index, data);
    let unsealed = unsealed_layer_spec::<E>(c, replica_id, window_index, sealed);
    assert forall|i: int| 0 <= i < data.len() implies unsealed[i] == data[i] by {
        E::lemma_combine_inverse(key[i], data[i]);
    }
    assert(unsealed =~= data);
}

/// Decoding a sub-range of the sealed layer yields exactly the matching
/// sub-range of the whole decoded window.
pub proof fn lemma_range_decode_consistency<E: NarrowStackedExpander>(
    key: Seq<Node>,
    sealed: Seq<Node>,
    offset: int,
    len: int,
)
    requires
        0 <= offset,
        0 <= len,
        offset + len <= sealed.len(),
    ensures
        combine_seq_spec::<E>(key, sealed.subrange(offset, offset + len), offset, true)
            == combine_seq_spec::<E>(key, sealed, 0, true).subrange(offset, offset + len),
{
    assert(combine_seq_spec::<E>(key, sealed.subrange(offset, offset + len), offset, true)
        =~= combine_seq_spec::<E>(key, sealed, 0, true).subrange(offset, offset + len));
}

/// Decoding a range in two consecutive chunks equals decoding it whole:
/// chunk size has no behavioral effect.
pub proof fn lemma_chunked_decode_concat<E: NarrowStackedExpander>(
    key: Seq<Node>,
    seg1: Seq<Node>,
    seg2: Seq<Node>,
    offset: int,
    is_decode: bool,
)
    ensures
        combine_seq_spec::<E>(key, seg1 + seg2, offset, is_decode) == combine_seq_spec::<E>(
            key,
            seg1,
            offset,
            is_decode,
        ) + combine_seq_spec::<E>(key, seg2, offset + seg1.len(), is_decode),
{
    assert(combine_seq_spec::<E>(key, seg1 + seg2, offset, is_decode) =~= combine_seq_spec::<E>(
        key,
        seg1,
        offset,
        is_decode,
    ) + combine_seq_spec::<E>(key, seg2, offset + seg1.len(), is_decode));
}

} // verus!
