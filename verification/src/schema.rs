//! The network document as data, and its validation.

use crate::error::NetworkError;
use crate::layer_processor::{
    layer_name, synthetic_name, LayerConfig, LayerKind, DEFAULT_FILTERS, DEFAULT_KERNEL_SIZE,
    DEFAULT_UNITS,
};
use vstd::prelude::*;

verus! {

/// Stride that a convolution layer has when it declares none.
pub const DEFAULT_STRIDE: u32 = 1;

/// Pool size that a pooling layer has when it declares none.
pub const DEFAULT_POOL_SIZE: u32 = 2;

/// One declared layer of a network. Only `layer_type` is required.
#[derive(Debug, Clone, PartialEq, Eq)]
pub struct Layer {
    pub layer_type: String,
    pub name: Option<String>,
    pub filters: Option<u32>,
    pub kernel_size: Option<u32>,
    pub stride: Option<u32>,
    pub units: Option<u32>,
    pub activation: Option<String>,
    pub position: Option<String>,
    pub pool_size: Option<u32>,
}

/// The parameters that matter for a layer of a given family, with the
/// defaults filled in.
#[derive(Debug, Clone, PartialEq, Eq)]
pub enum LayerDetails {
    Convolution { filters: u32, kernel_size: u32, stride: u32 },
    Dense { units: u32, activation: Option<String> },
    Pooling { pool_size: u32 },
    /// A layer of any other type.
    Custom,
}

impl Layer {
    /// A layer is well formed when its type is not empty.
    pub open spec fn well_formed(&self) -> bool {
        self.layer_type@.len() > 0
    }

    /// The name under which the layer is shown: its declared name, else the
    /// synthetic name of its place in the network.
    pub open spec fn spec_display_name(&self, index: nat) -> Seq<char> {
        match self.name {
            Some(name) => name@,
            None => layer_name(index),
        }
    }

    /// The parameters of the layer's family; the families are told apart as
    /// the geometry rules do, and only three of them have parameters.
    pub open spec fn spec_details(&self) -> LayerDetails {
        match LayerKind::spec_classify(self.layer_type@) {
            LayerKind::Convolution => LayerDetails::Convolution {
                filters: self.filters.unwrap_or(DEFAULT_FILTERS),
                kernel_size: self.kernel_size.unwrap_or(DEFAULT_KERNEL_SIZE),
                stride: self.stride.unwrap_or(DEFAULT_STRIDE),
            },
            LayerKind::Dense => LayerDetails::Dense {
                units: self.units.unwrap_or(DEFAULT_UNITS),
                activation: self.activation,
            },
            LayerKind::Pooling => LayerDetails::Pooling {
                pool_size: self.pool_size.unwrap_or(DEFAULT_POOL_SIZE),
            },
            _ => LayerDetails::Custom,
        }
    }

    /// The layer as the geometry rules read it, tagged with its place in the
    /// network.
    pub fn config(&self, index: usize) -> (config: LayerConfig)
        ensures
            config.layer_type@ == self.layer_type@,
            config.filters == self.filters,
            config.kernel_size == self.kernel_size,
            config.units == self.units,
            config.index == index,
    {
        LayerConfig {
            layer_type: self.layer_type.clone(),
            filters: self.filters,
            kernel_size: self.kernel_size,
            units: self.units,
            index,
        }
    }

    /// The name under which the layer at `index` is shown.
    pub fn display_name(&self, index: usize) -> (name: String)
        ensures
            name@ == self.spec_display_name(index as nat),
    {
        match &self.name {
            Some(name) => name.clone(),
            None => synthetic_name(index),
        }
    }

    /// The parameters of the layer's family, with the defaults filled in.
    pub fn details(&self) -> (details: LayerDetails)
        ensures
            details == self.spec_details(),
    {
        match LayerKind::classify(self.layer_type.as_str()) {
            LayerKind::Convolution => LayerDetails::Convolution {
                filters: self.filters.unwrap_or(DEFAULT_FILTERS),
                kernel_size: self.kernel_size.unwrap_or(DEFAULT_KERNEL_SIZE),
                stride: self.stride.unwrap_or(DEFAULT_STRIDE),
            },
            LayerKind::Dense => LayerDetails::Dense {
                units: self.units.unwrap_or(DEFAULT_UNITS),
                activation: self.activation.clone(),
            },
            LayerKind::Pooling => LayerDetails::Pooling {
                pool_size: self.pool_size.unwrap_or(DEFAULT_POOL_SIZE),
            },
            _ => LayerDetails::Custom,
        }
    }
}

/// A network document: its layers in order, and what it is called.
#[derive(Debug, Clone, PartialEq, Eq)]
pub struct NetworkArchitecture {
    pub layers: Vec<Layer>,
    pub name: Option<String>,
    pub description: Option<String>,
}

impl NetworkArchitecture {
    /// A network is well formed when each of its layers is.
    pub open spec fn well_formed(&self) -> bool {
        forall|i: int| 0 <= i < self.layers@.len() ==> (#[trigger] self.layers@[i]).well_formed()
    }

    /// Whether the layer at `index` is the first one that is not well
    /// formed.
    pub open spec fn first_malformed_at(&self, index: nat) -> bool {
        &&& index < self.layers@.len()
        &&& !self.layers@[index as int].well_formed()
        &&& forall|j: int| 0 <= j < index ==> (#[trigger] self.layers@[j]).well_formed()
    }

    /// The name under which the network is shown: its declared name, else
    /// `Unnamed`.
    pub open spec fn spec_title(&self) -> Seq<char> {
        match self.name {
            Some(name) => name@,
            None => "Unnamed"@,
        }
    }

    /// The name under which the network is shown.
    pub fn title(&self) -> (title: String)
        ensures
            title@ == self.spec_title(),
    {
        match &self.name {
            Some(name) => name.clone(),
            None => String::from_str("Unnamed"),
        }
    }

    /// Checks that every layer has a type. The error names the first layer
    /// that has none.
    pub fn validate(&self) -> (outcome: Result<(), NetworkError>)
        ensures
            match outcome {
                Ok(()) => self.well_formed(),
                Err(error) => {
                    &&& error matches NetworkError::Validation { index }
                    &&& self.first_malformed_at(index as nat)
                },
            },
    {
        let mut i: usize = 0;
        while i < self.layers.len()
            invariant
                i <= self.layers@.len(),
                forall|j: int| 0 <= j < i ==> (#[trigger] self.layers@[j]).well_formed(),
            decreases self.layers@.len() - i,
        {
            if self.layers[i].layer_type.as_str().is_empty() {
                return Err(NetworkError::Validation { index: i });
            }
            i += 1;
        }
        Ok(())
    }
}

} // verus!
