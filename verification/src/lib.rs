//! A fast chemical synapse as a node of a real-time simulation.
//!
//! Signal values and parameters are held as the bit patterns of IEEE 754
//! doubles, so that every rule about which value is stored where is stated
//! and proved over integers.

pub mod json;
pub mod ports;
pub mod model;
pub mod adapter;
pub mod laws;

pub use adapter::{NodeHandle, PluginState, TickContext};
pub use model::{FastChemicalSynapsePlugin, NodeMetadata, Operands};
pub use ports::{InputPort, Parameter};
