//! Layer geometry, schema validation and dispatch rules for a neural-network
//! visualisation sidecar, stated over exact fixed-point numbers.

pub mod error;
pub mod facade;
pub mod layer_processor;
pub mod neuron_math;
pub mod schema;
pub mod text;
