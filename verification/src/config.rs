//! Configuration parameters shared by every component of the pipeline,
//! and the compile-time definitions a backend derives from them.

use vstd::prelude::*;
use vstd::string::StringExecFns;

verus! {

/// The configuration parameters for NSE.
#[derive(Debug, Clone, Copy)]
pub struct Config {
    /// Batch hashing factor.
    pub k: u32,
    /// Number of nodes per window.
    pub num_nodes_window: usize,
    /// Degree of the expander graph.
    pub degree_expander: usize,
    /// Degree of the butterfly graph.
    pub degree_butterfly: usize,
    /// Number of expander layers.
    pub num_expander_layers: usize,
    /// Number of butterfly layers.
    pub num_butterfly_layers: usize,
}

/// `n` is a power of two.
pub open spec fn is_pow2(n: nat) -> bool
    decreases n,
{
    if n == 0 {
        false
    } else if n == 1 {
        true
    } else {
        n % 2 == 0 && is_pow2(n / 2)
    }
}

impl Config {
    /// Total number of key layers derived for one window.
    pub open spec fn num_layers(self) -> int {
        self.num_expander_layers + self.num_butterfly_layers
    }

    /// The total layer count fits in a `usize`.
    pub open spec fn layers_fit(self) -> bool {
        self.num_expander_layers + self.num_butterfly_layers <= usize::MAX
    }

    /// The structural invariants of a configuration. The mask layer
    /// occupies the first expander slot and a butterfly layer closes the
    /// sequence (triggering the finalize step), so at least one layer of
    /// each kind is present.
    pub open spec fn valid(self) -> bool {
        &&& is_pow2(self.num_nodes_window as nat)
        &&& is_pow2(self.k as nat)
        &&& self.num_nodes_window > self.k
        &&& is_pow2(self.degree_butterfly as nat)
        &&& self.num_expander_layers >= 1
        &&& self.num_butterfly_layers >= 1
        &&& self.layers_fit()
    }
}

/// The base-2 logarithm, rounded down.
pub open spec fn spec_log2(n: nat) -> nat
    decreases n,
{
    if n <= 1 {
        0
    } else {
        1 + spec_log2(n / 2)
    }
}

/// On powers of two, the logarithm is strictly monotone.
proof fn lemma_log2_monotone(a: nat, b: nat)
    requires
        is_pow2(a),
        is_pow2(b),
        a < b,
    ensures
        spec_log2(a) < spec_log2(b),
    decreases b,
{
    if a == 1 {
        assert(b >= 2);
    } else {
        lemma_log2_monotone(a / 2, b / 2);
    }
}

/// The logarithm never exceeds its argument.
proof fn lemma_log2_le(n: nat)
    ensures
        spec_log2(n) <= n,
    decreases n,
{
    if n > 1 {
        lemma_log2_le(n / 2);
    }
}

/// The exact base-2 logarithm of a power of two.
pub fn log2_pow2(n: usize) -> (r: usize)
    requires
        is_pow2(n as nat),
    ensures
        r == spec_log2(n as nat),
{
    proof {
        lemma_log2_le(n as nat);
    }
    let mut v: usize = n;
    let mut r: usize = 0;
    while v > 1
        invariant
            is_pow2(v as nat),
            r + spec_log2(v as nat) == spec_log2(n as nat),
            spec_log2(n as nat) <= n,
        decreases v,
    {
        v = v / 2;
        r = r + 1;
    }
    r
}

/// The decimal digit `d` as a character.
pub open spec fn spec_digit_char(d: nat) -> char {
    if d == 0 {
        '0'
    } else if d == 1 {
        '1'
    } else if d == 2 {
        '2'
    } else if d == 3 {
        '3'
    } else if d == 4 {
        '4'
    } else if d == 5 {
        '5'
    } else if d == 6 {
        '6'
    } else if d == 7 {
        '7'
    } else if d == 8 {
        '8'
    } else {
        '9'
    }
}

/// The decimal digits of `n`, most significant first.
pub open spec fn spec_dec_digits(n: nat) -> Seq<char>
    decreases n,
{
    if n < 10 {
        seq![spec_digit_char(n)]
    } else {
        spec_dec_digits(n / 10).push(spec_digit_char(n % 10))
    }
}

fn digit_str(d: u64) -> (s: &'static str)
    requires
        d < 10,
    ensures
        s@ == seq![spec_digit_char(d as nat)],
{
    proof {
        reveal_strlit("0");
        reveal_strlit("1");
        reveal_strlit("2");
        reveal_strlit("3");
        reveal_strlit("4");
        reveal_strlit("5");
        reveal_strlit("6");
        reveal_strlit("7");
        reveal_strlit("8");
        reveal_strlit("9");
    }
    let s: &'static str = if d == 0 {
        "0"
    } else if d == 1 {
        "1"
    } else if d == 2 {
        "2"
    } else if d == 3 {
        "3"
    } else if d == 4 {
        "4"
    } else if d == 5 {
        "5"
    } else if d == 6 {
        "6"
    } else if d == 7 {
        "7"
    } else if d == 8 {
        "8"
    } else {
        "9"
    };
    proof {
        assert(s@ =~= seq![spec_digit_char(d as nat)]);
    }
    s
}

/// Render `n` in decimal.
pub fn dec_str(n: u64) -> (s: String)
    ensures
        s@ == spec_dec_digits(n as nat),
    decreases n,
{
    if n < 10 {
        String::from_str(digit_str(n))
    } else {
        let rest = dec_str(n / 10);
        let s = rest.concat(digit_str(n % 10));
        proof {
            assert(s@ =~= spec_dec_digits(n as nat));
        }
        s
    }
}

/// The number of index bits each expander parent needs: the logarithm of
/// the window size over the batch-hashing factor.
pub open spec fn spec_bit_size(c: Config) -> nat {
    (spec_log2(c.num_nodes_window as nat) - spec_log2(c.k as nat)) as nat
}

/// How many hash blocks one expander node's parent indices occupy, at
/// 256 bits per block, rounded up.
pub open spec fn spec_stream_hash_count(c: Config) -> nat {
    ((c.degree_expander * spec_bit_size(c) + 255) / 256) as nat
}

/// The block of compile-time definitions a backend derives from a
/// configuration when it builds its node-level kernels.
pub open spec fn spec_config_defines(c: Config) -> Seq<char> {
    "#define N ("@ + spec_dec_digits(c.num_nodes_window as nat) + ")\n         #define K ("@
        + spec_dec_digits(c.k as nat) + ")\n         #define LOG2_K ("@ + spec_dec_digits(
        spec_log2(c.k as nat),
    ) + ")\n         #define DEGREE_EXPANDER ("@ + spec_dec_digits(c.degree_expander as nat)
        + ")\n         #define DEGREE_BUTTERFLY ("@ + spec_dec_digits(c.degree_butterfly as nat)
        + ")\n         #define LOG2_DEGREE_BUTTERFLY ("@ + spec_dec_digits(
        spec_log2(c.degree_butterfly as nat),
    ) + ")\n         #define NUM_EXPANDER_LAYERS ("@ + spec_dec_digits(
        c.num_expander_layers as nat,
    ) + ")\n         #define NUM_BUTTERFLY_LAYERS ("@ + spec_dec_digits(
        c.num_butterfly_layers as nat,
    ) + ")\n         #define BIT_SIZE ("@ + spec_dec_digits(spec_bit_size(c))
        + ")\n         #define STREAM_HASH_COUNT ("@ + spec_dec_digits(spec_stream_hash_count(c))
        + ")\n"@
}

/// Render the configuration's compile-time definitions, one per line.
/// The bit size must come out whole bytes, as the kernels require.
pub fn config(conf: &Config) -> (s: String)
    requires
        conf.valid(),
        spec_bit_size(*conf) % 8 == 0,
        conf.degree_expander * spec_bit_size(*conf) + 255 <= usize::MAX,
    ensures
        s@ == spec_config_defines(*conf),
{
    proof {
        lemma_log2_monotone(conf.k as nat, conf.num_nodes_window as nat);
    }
    let l2n = log2_pow2(conf.num_nodes_window);
    let l2k = log2_pow2(conf.k as usize);
    let bit_size = l2n - l2k;
    let l2b = log2_pow2(conf.degree_butterfly);
    let stream_hash_count = (conf.degree_expander * bit_size + 255) / 256;

    let mut s = String::from_str("#define N (");
    let d = dec_str(conf.num_nodes_window as u64);
    s.append(d.as_str());
    s.append(")\n         #define K (");
    let d = dec_str(conf.k as u64);
    s.append(d.as_str());
    s.append(")\n         #define LOG2_K (");
    let d = dec_str(l2k as u64);
    s.append(d.as_str());
    s.append(")\n         #define DEGREE_EXPANDER (");
    let d = dec_str(conf.degree_expander as u64);
    s.append(d.as_str());
    s.append(")\n         #define DEGREE_BUTTERFLY (");
    let d = dec_str(conf.degree_butterfly as u64);
    s.append(d.as_str());
    s.append(")\n         #define LOG2_DEGREE_BUTTERFLY (");
    let d = dec_str(l2b as u64);
    s.append(d.as_str());
    s.append(")\n         #define NUM_EXPANDER_LAYERS (");
    let d = dec_str(conf.num_expander_layers as u64);
    s.append(d.as_str());
    s.append(")\n         #define NUM_BUTTERFLY_LAYERS (");
    let d = dec_str(conf.num_butterfly_layers as u64);
    s.append(d.as_str());
    s.append(")\n         #define BIT_SIZE (");
    let d = dec_str(bit_size as u64);
    s.append(d.as_str());
    s.append(")\n         #define STREAM_HASH_COUNT (");
    let d = dec_str(stream_hash_count as u64);
    s.append(d.as_str());
    s.append(")\n");
    proof {
        assert(s@ =~= spec_config_defines(*conf));
    }
    s
}

} // verus!
