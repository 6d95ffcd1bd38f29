use nse::Config;
use nse::CpuEngine;
use nse::EngineSource;
use nse::GPUError;
use nse::Layer;
use nse::LayerOutput;
use nse::NSEError;
use nse::ReplicaId;
use nse::Sealer;
use nse::SealerInput;
use nse::SealerPool;
use nse::TreeOptions;

const TEST_CONFIG: Config = Config {
    k: 2,
    num_nodes_window: 512,
    degree_expander: 96,
    degree_butterfly: 4,
    num_expander_layers: 4,
    num_butterfly_layers: 3,
};

const TREES: TreeOptions = TreeOptions::Enabled { rows_to_discard: 2 };

fn test_inputs(count: usize) -> Vec<SealerInput> {
    (0..count)
        .map(|i| SealerInput {
            replica_id: ReplicaId([i as u8; 32]),
            window_index: 1000 + i,
            original_data: Layer::random(TEST_CONFIG.num_nodes_window),
        })
        .collect()
}

fn cpu_sources(count: usize) -> Vec<EngineSource<CpuEngine>> {
    (0..count)
        .map(|_| EngineSource::Available(CpuEngine::new(TEST_CONFIG, TREES)))
        .collect()
}

#[test]
fn test_sealer_pool() {
    const NUM_RUNS: usize = 10;
    let inputs = test_inputs(NUM_RUNS);

    let pool_outputs: Vec<Vec<LayerOutput>> = {
        let mut pool = SealerPool::new(cpu_sources(3), TEST_CONFIG, TREES).unwrap();
        inputs
            .iter()
            .map(|inp| {
                pool.seal_on_gpu(inp.clone())
                    .into_iter()
                    .collect::<Result<Vec<_>, _>>()
                    .unwrap()
            })
            .collect()
    };

    let normal_outputs: Vec<Vec<LayerOutput>> = inputs
        .iter()
        .map(|inp| {
            let engine = CpuEngine::new(TEST_CONFIG, TREES);
            let mut sealer = Sealer::new(TEST_CONFIG, inp.clone(), engine, true).unwrap();
            let mut outputs = Vec::new();
            while let Some(r) = sealer.next() {
                outputs.push(r.unwrap());
            }
            outputs
        })
        .collect();

    assert_eq!(pool_outputs, normal_outputs);
}

#[test]
fn test_seal_batch_matches_single_jobs() {
    let inputs = test_inputs(4);
    let mut pool = SealerPool::new(cpu_sources(2), TEST_CONFIG, TREES).unwrap();
    let batch = pool.seal_batch(inputs.clone());
    assert_eq!(batch.len(), inputs.len());

    let mut pool2 = SealerPool::new(cpu_sources(2), TEST_CONFIG, TREES).unwrap();
    for (inp, streamed) in inputs.iter().zip(batch.iter()) {
        let single = pool2.seal_on_gpu(inp.clone());
        assert_eq!(&single, streamed);
    }
}

#[test]
fn test_pool_fault_isolation() {
    // One device fails engine construction; jobs routed to the other
    // devices still complete, and the job routed to the failed device
    // observes the error instead of hanging.
    let construction_error = NSEError::GPU(GPUError::Other(String::from("no device")));
    let sources: Vec<EngineSource<CpuEngine>> = vec![
        EngineSource::Failed(construction_error.clone()),
        EngineSource::Available(CpuEngine::new(TEST_CONFIG, TREES)),
    ];
    let mut pool = SealerPool::new(sources, TEST_CONFIG, TREES).unwrap();
    let inputs = test_inputs(3);

    // The first job claims the broken device and sees its error.
    let first = pool.seal_on_gpu(inputs[0].clone());
    assert_eq!(first, vec![Err(construction_error)]);

    // Later jobs run on the surviving device and succeed in full.
    let total = TEST_CONFIG.num_expander_layers + TEST_CONFIG.num_butterfly_layers;
    for inp in &inputs[1..] {
        let stream = pool.seal_on_gpu(inp.clone());
        assert_eq!(stream.len(), total);
        for item in stream {
            let out = item.unwrap();
            assert_eq!(out.tree.len(), 1);
        }
    }
}

#[test]
fn test_pool_all_devices_dead() {
    let construction_error = NSEError::GPU(GPUError::Other(String::from("no device")));
    let sources: Vec<EngineSource<CpuEngine>> =
        vec![EngineSource::Failed(construction_error.clone())];
    let mut pool = SealerPool::new(sources, TEST_CONFIG, TREES).unwrap();
    let inputs = test_inputs(2);

    // The only device dies on first use; dispatch then fails fatally
    // instead of blocking forever.
    let first = pool.seal_on_gpu(inputs[0].clone());
    assert_eq!(first, vec![Err(construction_error)]);
    let second = pool.seal_on_gpu(inputs[1].clone());
    assert_eq!(second, vec![Err(NSEError::NoDevices)]);
}
