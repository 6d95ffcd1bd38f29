use nse::Config;
use nse::CpuEngine;
use nse::KeyGenerator;
use nse::Layer;
use nse::LayerOutput;
use nse::NSEError;
use nse::Node;
use nse::ReplicaId;
use nse::Sealer;
use nse::SealerInput;
use nse::TreeOptions;
use nse::Unsealer;

const TEST_CONFIG: Config = Config {
    k: 2,
    num_nodes_window: 512,
    degree_expander: 96,
    degree_butterfly: 4,
    num_expander_layers: 4,
    num_butterfly_layers: 3,
};
const TEST_WINDOW_INDEX: usize = 1234567890;
const TEST_REPLICA_ID: ReplicaId = ReplicaId([123u8; 32]);

fn incrementing_layer(start: usize, count: usize) -> Layer {
    Layer(
        (start..start + count)
            .map(|i| Node(i as u64, 0, 0, 0))
            .collect(),
    )
}

fn collect_outputs(sealer: &mut Sealer<CpuEngine>) -> Vec<LayerOutput> {
    let mut outputs = Vec::new();
    while let Some(res) = sealer.next() {
        outputs.push(res.unwrap());
    }
    outputs
}

#[test]
fn test_sealer() {
    let engine = CpuEngine::new(TEST_CONFIG, TreeOptions::Enabled { rows_to_discard: 2 });
    let original_data = incrementing_layer(123, TEST_CONFIG.num_nodes_window);
    let mut sealer = Sealer::new(
        TEST_CONFIG,
        SealerInput {
            replica_id: TEST_REPLICA_ID,
            window_index: TEST_WINDOW_INDEX,
            original_data: original_data.clone(),
        },
        engine,
        true,
    )
    .unwrap();

    let layer_index_to_restart = 3;
    let layers = collect_outputs(&mut sealer);
    assert_eq!(
        layers.len(),
        TEST_CONFIG.num_expander_layers + TEST_CONFIG.num_butterfly_layers
    );
    let roots: Vec<Node> = layers
        .iter()
        .map(|l| {
            assert_eq!(1, l.tree.len());
            l.tree[l.tree.len() - 1]
        })
        .collect();

    let layer_to_restart = &layers[layer_index_to_restart].base;

    let engine = CpuEngine::new(TEST_CONFIG, TreeOptions::Enabled { rows_to_discard: 2 });
    let mut restarted_sealer = Sealer::new_from_layer(
        layer_index_to_restart,
        layer_to_restart,
        TEST_CONFIG,
        SealerInput {
            replica_id: TEST_REPLICA_ID,
            window_index: TEST_WINDOW_INDEX,
            original_data: original_data.clone(),
        },
        engine,
        true,
    )
    .unwrap();

    let mut restarted_roots = Vec::new();
    while let Some(r) = restarted_sealer.next() {
        let l = r.unwrap();
        assert_eq!(1, l.tree.len());
        restarted_roots.push(l.tree[l.tree.len() - 1]);
    }

    assert_eq!(
        &roots[layer_index_to_restart + 1..],
        restarted_roots.as_slice()
    );

    let seek_target = 2;
    restarted_sealer
        .seek(seek_target, &layers[seek_target].base)
        .unwrap();

    let mut sought_roots = Vec::new();
    while let Some(r) = restarted_sealer.next() {
        let l = r.unwrap();
        assert_eq!(1, l.tree.len());
        sought_roots.push(l.tree[l.tree.len() - 1]);
    }

    assert_eq!(&roots[seek_target + 1..], sought_roots.as_slice());
}

#[test]
fn test_sealer_unsealer_consistency() {
    let original_data = Layer::random(TEST_CONFIG.num_nodes_window);
    let replica_id = ReplicaId::random();
    let window_index: usize = 987654321;

    let engine = CpuEngine::new(TEST_CONFIG, TreeOptions::Disabled);
    let mut sealer = Sealer::new(
        TEST_CONFIG,
        SealerInput {
            replica_id,
            window_index,
            original_data: original_data.clone(),
        },
        engine,
        false,
    )
    .unwrap();

    let sealed_data = collect_outputs(&mut sealer).pop().unwrap().base;

    let engine = CpuEngine::new(TEST_CONFIG, TreeOptions::Disabled);
    let mut unsealer = Unsealer::new(TEST_CONFIG, replica_id, window_index, engine).unwrap();

    let unsealed_data = unsealer.unseal_layer(&sealed_data).unwrap();
    assert_eq!(unsealed_data, original_data);

    // Repeated decoding on the same unsealer skips the exhausted
    // generator and must give identical results.
    let unsealed_data2 = unsealer.unseal_layer(&sealed_data).unwrap();
    assert_eq!(original_data, unsealed_data2);

    // Chunked range decoding covers the window and agrees with the
    // whole-layer decode restricted to the same indices.
    let chunk_size = 50;
    let mut offset = 0;
    for chunk in sealed_data.0.chunks(chunk_size) {
        let unsealed = unsealer.unseal_range(offset, chunk).unwrap();
        let end = offset + chunk.len();
        assert_eq!(&original_data.0[offset..end], unsealed.as_slice());
        offset = end;
    }
    assert_eq!(offset, TEST_CONFIG.num_nodes_window);
}

#[test]
fn test_keygen_len_independent_of_progress() {
    let engine = CpuEngine::new(TEST_CONFIG, TreeOptions::Disabled);
    let mut kg = KeyGenerator::new(TEST_CONFIG, TEST_REPLICA_ID, TEST_WINDOW_INDEX, engine)
        .unwrap();
    let total = TEST_CONFIG.num_expander_layers + TEST_CONFIG.num_butterfly_layers;
    assert_eq!(kg.len(), total);
    let mut produced = 0;
    while let Some(res) = kg.next() {
        res.unwrap();
        produced += 1;
        assert_eq!(kg.len(), total);
    }
    assert_eq!(produced, total);
    assert!(kg.next().is_none());
    assert_eq!(kg.len(), total);
}

#[test]
fn test_key_derivation_deterministic() {
    let mut runs = Vec::new();
    for _ in 0..2 {
        let engine = CpuEngine::new(TEST_CONFIG, TreeOptions::Disabled);
        let mut kg = KeyGenerator::new(TEST_CONFIG, TEST_REPLICA_ID, TEST_WINDOW_INDEX, engine)
            .unwrap();
        let mut layers = Vec::new();
        while let Some(res) = kg.next() {
            layers.push(res.unwrap());
        }
        runs.push(layers);
    }
    assert_eq!(runs[0], runs[1]);
}

#[test]
fn test_distinct_seeds_give_distinct_masks() {
    let engine = CpuEngine::new(TEST_CONFIG, TreeOptions::Disabled);
    let mut kg = KeyGenerator::new(TEST_CONFIG, TEST_REPLICA_ID, TEST_WINDOW_INDEX, engine)
        .unwrap();
    let mask_a = kg.next().unwrap().unwrap();

    let engine = CpuEngine::new(TEST_CONFIG, TreeOptions::Disabled);
    let mut kg = KeyGenerator::new(TEST_CONFIG, TEST_REPLICA_ID, TEST_WINDOW_INDEX + 1, engine)
        .unwrap();
    let mask_b = kg.next().unwrap().unwrap();

    assert_ne!(mask_a, mask_b);
}

#[test]
fn test_config_mismatch_is_rejected() {
    let mut smaller = TEST_CONFIG;
    smaller.num_nodes_window = 256;
    let engine = CpuEngine::new(smaller, TreeOptions::Disabled);
    let err = match Sealer::new(
        TEST_CONFIG,
        SealerInput {
            replica_id: TEST_REPLICA_ID,
            window_index: TEST_WINDOW_INDEX,
            original_data: incrementing_layer(0, TEST_CONFIG.num_nodes_window),
        },
        engine,
        false,
    ) {
        Ok(_) => panic!("a mismatched engine must be rejected"),
        Err(e) => e,
    };
    assert_eq!(err, NSEError::ConfigMismatch);

    let engine = CpuEngine::new(smaller, TreeOptions::Disabled);
    let err = match Unsealer::new(TEST_CONFIG, TEST_REPLICA_ID, TEST_WINDOW_INDEX, engine) {
        Ok(_) => panic!("a mismatched engine must be rejected"),
        Err(e) => e,
    };
    assert_eq!(err, NSEError::ConfigMismatch);
}

#[test]
fn test_sealed_layer_combines_final_key_with_data() {
    // The last emitted base layer is exactly the caller's data encoded
    // node by node against the final key layer.
    let engine = CpuEngine::new(TEST_CONFIG, TreeOptions::Disabled);
    let mut kg = KeyGenerator::new(TEST_CONFIG, TEST_REPLICA_ID, TEST_WINDOW_INDEX, engine)
        .unwrap();
    let mut final_key = None;
    while let Some(res) = kg.next() {
        final_key = Some(res.unwrap());
    }
    let final_key = final_key.unwrap();

    let original_data = incrementing_layer(11, TEST_CONFIG.num_nodes_window);
    let engine = CpuEngine::new(TEST_CONFIG, TreeOptions::Disabled);
    let mut sealer = Sealer::new(
        TEST_CONFIG,
        SealerInput {
            replica_id: TEST_REPLICA_ID,
            window_index: TEST_WINDOW_INDEX,
            original_data: original_data.clone(),
        },
        engine,
        false,
    )
    .unwrap();
    let outputs = collect_outputs(&mut sealer);
    let sealed = &outputs[outputs.len() - 1].base;

    for i in 0..TEST_CONFIG.num_nodes_window {
        let k = final_key.0[i];
        let d = original_data.0[i];
        let s = sealed.0[i];
        assert_eq!(
            s,
            Node(
                d.0.wrapping_add(k.0),
                d.1.wrapping_add(k.1),
                d.2.wrapping_add(k.2),
                d.3.wrapping_add(k.3)
            )
        );
    }
}

#[test]
fn test_sealed_layer_differs_from_data_and_keys() {
    let engine = CpuEngine::new(TEST_CONFIG, TreeOptions::Disabled);
    let original_data = incrementing_layer(7, TEST_CONFIG.num_nodes_window);
    let mut sealer = Sealer::new(
        TEST_CONFIG,
        SealerInput {
            replica_id: TEST_REPLICA_ID,
            window_index: TEST_WINDOW_INDEX,
            original_data: original_data.clone(),
        },
        engine,
        false,
    )
    .unwrap();
    let outputs = collect_outputs(&mut sealer);
    let sealed = &outputs[outputs.len() - 1].base;
    assert_ne!(sealed, &original_data);
    for earlier in &outputs[..outputs.len() - 1] {
        assert_ne!(&earlier.base, sealed);
    }
}
