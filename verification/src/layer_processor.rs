//! Layer geometry: the bounding box of a layer by its kind, its place on the
//! x-axis, the spacing heuristic and the chain of connections.
//!
//! Lengths are exact fixed-point numbers. Box dimensions count hundredths of
//! a unit (`264` is 2.64); spacings and x-coordinates count tenths (`50` is
//! 5.0).

use crate::text::{
    decimal, lowercase_of, push_decimal, push_tenths, str_equals, tenths_text, to_lowercase,
};
use vstd::prelude::*;

verus! {

/// Filter count of a convolution layer that declares none.
pub const DEFAULT_FILTERS: u32 = 64;

/// Kernel size of a convolution layer that declares none.
pub const DEFAULT_KERNEL_SIZE: u32 = 3;

/// Unit count of a dense layer that declares none.
pub const DEFAULT_UNITS: u32 = 128;

/// Spacing of a freshly made processor, in tenths.
pub const DEFAULT_SPACING: u32 = 50;

/// Spacing from which the layout heuristic starts, in tenths.
pub const BASE_SPACING: u32 = 40;

/// The families of layer that the geometry rules tell apart.
#[derive(Debug, Clone, Copy, PartialEq, Eq, Structural)]
pub enum LayerKind {
    Convolution,
    Pooling,
    Dense,
    Dropout,
    BatchNorm,
    /// Any layer type that the rules do not name.
    Other,
}

impl LayerKind {
    /// The kind that an already lowercased type name stands for.
    pub open spec fn spec_from_lowercase(lowered: Seq<char>) -> LayerKind {
        if lowered == "conv"@ || lowered == "convolution"@ {
            LayerKind::Convolution
        } else if lowered == "pool"@ || lowered == "maxpool"@ || lowered == "avgpool"@ {
            LayerKind::Pooling
        } else if lowered == "dense"@ || lowered == "linear"@ || lowered == "fc"@ {
            LayerKind::Dense
        } else if lowered == "dropout"@ {
            LayerKind::Dropout
        } else if lowered == "batchnorm"@ || lowered == "bn"@ {
            LayerKind::BatchNorm
        } else {
            LayerKind::Other
        }
    }

    /// The kind of a layer type in any letter case.
    pub open spec fn spec_classify(layer_type: Seq<char>) -> LayerKind {
        Self::spec_from_lowercase(lowercase_of(layer_type))
    }

    /// Matches an already lowercased type name against the known names.
    pub fn from_lowercase(lowered: &str) -> (kind: LayerKind)
        ensures
            kind == Self::spec_from_lowercase(lowered@),
    {
        if str_equals(lowered, "conv") || str_equals(lowered, "convolution") {
            LayerKind::Convolution
        } else if str_equals(lowered, "pool") || str_equals(lowered, "maxpool") || str_equals(
            lowered,
            "avgpool",
        ) {
            LayerKind::Pooling
        } else if str_equals(lowered, "dense") || str_equals(lowered, "linear") || str_equals(
            lowered,
            "fc",
        ) {
            LayerKind::Dense
        } else if str_equals(lowered, "dropout") {
            LayerKind::Dropout
        } else if str_equals(lowered, "batchnorm") || str_equals(lowered, "bn") {
            LayerKind::BatchNorm
        } else {
            LayerKind::Other
        }
    }

    /// Lowercases a layer type and matches it against the known names.
    /// Unknown names, the empty one included, are `Other`.
    pub fn classify(layer_type: &str) -> (kind: LayerKind)
        ensures
            kind == Self::spec_classify(layer_type@),
    {
        let lowered = to_lowercase(layer_type);
        Self::from_lowercase(lowered.as_str())
    }

    /// Width, height and depth of a layer of this kind, in hundredths.
    pub open spec fn spec_dimensions(
        self,
        filters: Option<u32>,
        kernel_size: Option<u32>,
        units: Option<u32>,
    ) -> (int, int, int) {
        match self {
            LayerKind::Convolution => {
                let filters = filters.unwrap_or(DEFAULT_FILTERS);
                let kernel = kernel_size.unwrap_or(DEFAULT_KERNEL_SIZE);
                (200 + filters, 1500 + 100 * kernel, 1500 + 100 * kernel)
            },
            LayerKind::Pooling => (100, 800, 800),
            LayerKind::Dense => {
                let units = units.unwrap_or(DEFAULT_UNITS);
                (150, 300 + 2 * units, 800 + units)
            },
            LayerKind::Dropout => (100, 100, 800),
            LayerKind::BatchNorm => (50, 1200, 1200),
            LayerKind::Other => (200, 1000, 1000),
        }
    }

    /// Width, height and depth of a layer of this kind, in hundredths.
    /// Parameters that the kind does not use are ignored; those that it
    /// uses and that are absent take their defaults.
    pub fn dimensions(
        self,
        filters: Option<u32>,
        kernel_size: Option<u32>,
        units: Option<u32>,
    ) -> (dims: (u64, u64, u64))
        ensures
            (dims.0 as int, dims.1 as int, dims.2 as int) == self.spec_dimensions(
                filters,
                kernel_size,
                units,
            ),
    {
        match self {
            LayerKind::Convolution => {
                let filters: u64 = filters.unwrap_or(DEFAULT_FILTERS) as u64;
                let kernel: u64 = kernel_size.unwrap_or(DEFAULT_KERNEL_SIZE) as u64;
                (200 + filters, 1500 + 100 * kernel, 1500 + 100 * kernel)
            },
            LayerKind::Pooling => (100, 800, 800),
            LayerKind::Dense => {
                let units: u64 = units.unwrap_or(DEFAULT_UNITS) as u64;
                (150, 300 + 2 * units, 800 + units)
            },
            LayerKind::Dropout => (100, 100, 800),
            LayerKind::BatchNorm => (50, 1200, 1200),
            LayerKind::Other => (200, 1000, 1000),
        }
    }
}

/// The synthetic name of the layer at `index`: `layer0`, `layer1`, ...
pub open spec fn layer_name(index: nat) -> Seq<char> {
    "layer"@ + decimal(index)
}

/// The placement text of a layer whose x-coordinate is `x` tenths; the other
/// two coordinates are always zero.
pub open spec fn position_text(x: nat) -> Seq<char> {
    "("@ + tenths_text(x) + ",0,0)"@
}

/// The spacing, in tenths, that suits `layer_count` layers: the processor's
/// default for none, a denser layout above ten layers, a sparser one below
/// four, the base spacing otherwise.
pub open spec fn optimal_spacing(layer_count: nat, default_spacing: nat) -> nat {
    if layer_count == 0 {
        default_spacing
    } else if layer_count > 10 {
        (BASE_SPACING * 8 / 10) as nat
    } else if layer_count < 4 {
        (BASE_SPACING * 13 / 10) as nat
    } else {
        BASE_SPACING as nat
    }
}

/// Builds the synthetic name of the layer at `index`.
pub fn synthetic_name(index: usize) -> (name: String)
    ensures
        name@ == layer_name(index as nat),
{
    let mut name = String::new();
    name.append("layer");
    push_decimal(&mut name, index as u128);
    assert(name@ =~= layer_name(index as nat));
    name
}

/// Builds the placement text for the x-coordinate `index * spacing`, with
/// `spacing` in tenths.
pub fn render_position(index: usize, spacing: u32) -> (position: String)
    ensures
        position@ == position_text(index as nat * spacing as nat),
{
    assert(index as nat * spacing as nat <= u128::MAX) by (nonlinear_arith)
        requires
            index <= usize::MAX,
            usize::MAX <= u64::MAX,
            spacing <= u32::MAX,
    ;
    let x: u128 = (index as u128) * (spacing as u128);
    let mut position = String::new();
    position.append("(");
    push_tenths(&mut position, x);
    position.append(",0,0)");
    assert(position@ =~= position_text(index as nat * spacing as nat));
    position
}

/// One layer as the geometry rules read it: its type, the parameters that
/// the rules use, and its zero-based place in the network.
#[derive(Debug, Clone, PartialEq, Eq)]
pub struct LayerConfig {
    pub layer_type: String,
    pub filters: Option<u32>,
    pub kernel_size: Option<u32>,
    pub units: Option<u32>,
    pub index: usize,
}

impl LayerConfig {
    /// The kind that the layer's type stands for.
    pub open spec fn kind(&self) -> LayerKind {
        LayerKind::spec_classify(self.layer_type@)
    }

    /// Width, height and depth of the layer's box, in hundredths.
    pub open spec fn dimensions(&self) -> (int, int, int) {
        self.kind().spec_dimensions(self.filters, self.kernel_size, self.units)
    }
}

/// The box and placement of one layer. `width`, `height` and `depth` are in
/// hundredths.
#[derive(Debug, Clone, PartialEq, Eq)]
pub struct ProcessedLayer {
    pub width: u64,
    pub height: u64,
    pub depth: u64,
    pub position: String,
    pub connections: Vec<String>,
}

/// Resolves layer geometry at a fixed spacing between neighbours.
pub struct LayerProcessor {
    default_spacing: u32,
}

impl LayerProcessor {
    /// The spacing between neighbouring layers, in tenths.
    pub closed spec fn spacing(&self) -> nat {
        self.default_spacing as nat
    }

    pub fn new() -> (processor: Self)
        ensures
            processor.spacing() == DEFAULT_SPACING,
    {
        LayerProcessor { default_spacing: DEFAULT_SPACING }
    }

    /// The box of a layer by its kind and its placement by its index. The
    /// list of connections is left empty.
    pub fn process_layer(&self, config: &LayerConfig) -> (layer: ProcessedLayer)
        ensures
            (layer.width as int, layer.height as int, layer.depth as int) == config.dimensions(),
            layer.position@ == position_text(config.index as nat * self.spacing()),
            layer.connections@.len() == 0,
    {
        let (width, height, depth) = self.calculate_dimensions(config);
        let position = self.calculate_position(config);
        ProcessedLayer { width, height, depth, position, connections: Vec::new() }
    }

    /// Width, height and depth of the layer's box, in hundredths.
    pub fn calculate_dimensions(&self, config: &LayerConfig) -> (dims: (u64, u64, u64))
        ensures
            (dims.0 as int, dims.1 as int, dims.2 as int) == config.dimensions(),
    {
        let kind = LayerKind::classify(config.layer_type.as_str());
        kind.dimensions(config.filters, config.kernel_size, config.units)
    }

    /// The placement text of the layer: `index * spacing` on the x-axis.
    pub fn calculate_position(&self, config: &LayerConfig) -> (position: String)
        ensures
            position@ == position_text(config.index as nat * self.spacing()),
    {
        render_position(config.index, self.default_spacing)
    }

    /// The spacing, in tenths, that suits the number of layers given.
    pub fn calculate_optimal_spacing(&self, layers: &[LayerConfig]) -> (spacing: u32)
        ensures
            spacing == optimal_spacing(layers@.len(), self.spacing()),
    {
        let total_layers = layers.len();
        if total_layers == 0 {
            self.default_spacing
        } else if total_layers > 10 {
            BASE_SPACING * 8 / 10
        } else if total_layers < 4 {
            BASE_SPACING * 13 / 10
        } else {
            BASE_SPACING
        }
    }

    /// The linear chain over the layers: one edge from each layer to the
    /// next, both named by their place in the list.
    pub fn generate_connections(&self, layers: &[LayerConfig]) -> (connections: Vec<
        (String, String),
    >)
        ensures
            connections@.len() == if layers@.len() == 0 {
                0
            } else {
                layers@.len() - 1
            },
            forall|i: int|
                0 <= i < connections@.len() ==> {
                    &&& (#[trigger] connections@[i]).0@ == layer_name(i as nat)
                    &&& connections@[i].1@ == layer_name((i + 1) as nat)
                },
    {
        let mut connections: Vec<(String, String)> = Vec::new();
        let mut i: usize = 1;
        while i < layers.len()
            invariant
                1 <= i,
                i <= layers@.len() || i == 1,
                connections@.len() == i - 1,
                forall|j: int|
                    0 <= j < connections@.len() ==> {
                        &&& (#[trigger] connections@[j]).0@ == layer_name(j as nat)
                        &&& connections@[j].1@ == layer_name((j + 1) as nat)
                    },
            decreases layers@.len() - i,
        {
            let prev_name = synthetic_name(i - 1);
            let curr_name = synthetic_name(i);
            connections.push((prev_name, curr_name));
            i += 1;
        }
        connections
    }
}

} // verus!
