//! Narrow Stacked Expander (NSE) sealing and unsealing.
//!
//! The library drives a deterministic, resumable sequence of key-layer
//! derivations over a fixed-size window of nodes, combines the final key
//! layer with caller data to seal (encode) or unseal (decode) it, and
//! schedules independent sealing jobs over a fixed set of compute devices.
//! The node-level kernels (mask derivation, expander and butterfly graph
//! steps, combining, Merkle-tree hashing) are supplied by a compute engine
//! behind the [`NarrowStackedExpander`] trait; the sequencing, state and
//! scheduling around them are specified and verified here.

pub mod config;
pub mod cpu;
pub mod engine;
pub mod error;
pub mod keygen;
pub mod node;
pub mod pool;
pub mod sealer;
pub mod unsealer;

pub use config::Config;
pub use cpu::CpuEngine;
pub use cpu::COMBINE_BATCH_SIZE;
pub use engine::NarrowStackedExpander;
pub use engine::TreeOptions;
pub use error::GPUError;
pub use error::GPUResult;
pub use error::NSEError;
pub use error::NSEResult;
pub use keygen::KeyGenerator;
pub use node::Layer;
pub use node::LayerOutput;
pub use node::Node;
pub use node::ReplicaId;
pub use node::SealerInput;
pub use node::NODE_SIZE;
pub use pool::ClaimOutcome;
pub use pool::EngineSource;
pub use pool::SealerPool;
pub use pool::Slot;
pub use sealer::Sealer;
pub use unsealer::Unsealer;
