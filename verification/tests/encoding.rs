use nse::config;
use nse::Config;
use nse::Layer;
use nse::Node;
use nse::NODE_SIZE;

const TEST_CONFIG: Config = Config {
    k: 2,
    num_nodes_window: 512,
    degree_expander: 96,
    degree_butterfly: 4,
    num_expander_layers: 4,
    num_butterfly_layers: 3,
};

#[test]
fn test_node_size() {
    assert_eq!(NODE_SIZE, 32);
}

#[test]
fn test_layer_to_bytes_exact() {
    let layer = Layer(vec![Node(1, 2, 3, 0x0102030405060708)]);
    let bytes = layer.to_bytes();
    let mut expected = vec![0u8; 32];
    expected[0] = 1;
    expected[8] = 2;
    expected[16] = 3;
    expected[24..32].copy_from_slice(&[8, 7, 6, 5, 4, 3, 2, 1]);
    assert_eq!(bytes, expected);
}

#[test]
fn test_layer_from_bytes_exact() {
    let mut bytes = vec![0u8; 64];
    bytes[0] = 0xff;
    bytes[39] = 1;
    let layer = Layer::from_bytes(&bytes);
    assert_eq!(
        layer,
        Layer(vec![Node(0xff, 0, 0, 0), Node(1 << 56, 0, 0, 0)])
    );
}

#[test]
fn test_layer_bytes_roundtrip() {
    let layer = Layer::random(97);
    let bytes = layer.to_bytes();
    assert_eq!(bytes.len(), 97 * NODE_SIZE);
    let back = Layer::from_bytes(&bytes);
    assert_eq!(back, layer);
}

#[test]
fn test_from_bytes_ignores_trailing_fragment() {
    let layer = Layer::random(5);
    let mut bytes = layer.to_bytes();
    bytes.extend_from_slice(&[1, 2, 3]);
    let back = Layer::from_bytes(&bytes);
    assert_eq!(back, layer);
}

#[test]
fn test_dec_str() {
    assert_eq!(nse::config::dec_str(0), "0");
    assert_eq!(nse::config::dec_str(7), "7");
    assert_eq!(nse::config::dec_str(10), "10");
    assert_eq!(nse::config::dec_str(500000), "500000");
    assert_eq!(nse::config::dec_str(u64::MAX), "18446744073709551615");
}

#[test]
fn test_log2_pow2() {
    assert_eq!(nse::config::log2_pow2(1), 0);
    assert_eq!(nse::config::log2_pow2(2), 1);
    assert_eq!(nse::config::log2_pow2(512), 9);
    assert_eq!(nse::config::log2_pow2(1 << 20), 20);
}

#[test]
fn test_config_defines_exact() {
    let s = config::config(&TEST_CONFIG);
    let expected = "#define N (512)\n         #define K (2)\n         #define LOG2_K (1)\n         #define DEGREE_EXPANDER (96)\n         #define DEGREE_BUTTERFLY (4)\n         #define LOG2_DEGREE_BUTTERFLY (2)\n         #define NUM_EXPANDER_LAYERS (4)\n         #define NUM_BUTTERFLY_LAYERS (3)\n         #define BIT_SIZE (8)\n         #define STREAM_HASH_COUNT (3)\n";
    assert_eq!(s, expected);
}
