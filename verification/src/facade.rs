//! The operations offered to a host: per-layer records and placement lists.

use crate::error::NetworkError;
use crate::layer_processor::{position_text, render_position, LayerProcessor, DEFAULT_SPACING};
use crate::schema::{Layer, NetworkArchitecture};
use crate::text::{hundredths_text, push_hundredths};
use vstd::prelude::*;

verus! {

/// What is reported of one layer, every value as text.
#[derive(Debug, Clone, PartialEq, Eq)]
pub struct LayerRecord {
    pub name: String,
    pub layer_type: String,
    pub width: String,
    pub height: String,
    pub depth: String,
    pub position: String,
}

impl LayerRecord {
    /// Whether the record is the one owed for `layer` at place `index`: the
    /// layer's shown name and its type as declared, the three dimensions of
    /// its box, and its placement at the default spacing.
    pub open spec fn describes(&self, layer: Layer, index: nat) -> bool {
        let dims = crate::layer_processor::LayerKind::spec_classify(
            layer.layer_type@,
        ).spec_dimensions(layer.filters, layer.kernel_size, layer.units);
        &&& self.name@ == layer.spec_display_name(index)
        &&& self.layer_type@ == layer.layer_type@
        &&& self.width@ == hundredths_text(dims.0 as nat)
        &&& self.height@ == hundredths_text(dims.1 as nat)
        &&& self.depth@ == hundredths_text(dims.2 as nat)
        &&& self.position@ == position_text(index * DEFAULT_SPACING as nat)
    }

    /// The record as pairs of key and value, in the order in which a host
    /// receives them.
    pub open spec fn spec_entries(&self) -> Seq<(Seq<char>, Seq<char>)> {
        seq![
            ("name"@, self.name@),
            ("type"@, self.layer_type@),
            ("width"@, self.width@),
            ("height"@, self.height@),
            ("depth"@, self.depth@),
            ("position"@, self.position@),
        ]
    }

    /// The record as pairs of key and value.
    pub fn entries(&self) -> (entries: Vec<(String, String)>)
        ensures
            entries@.len() == 6,
            forall|i: int|
                0 <= i < 6 ==> {
                    &&& (#[trigger] entries@[i]).0@ == self.spec_entries()[i].0
                    &&& entries@[i].1@ == self.spec_entries()[i].1
                },
    {
        let mut entries: Vec<(String, String)> = Vec::new();
        entries.push((String::from_str("name"), self.name.clone()));
        entries.push((String::from_str("type"), self.layer_type.clone()));
        entries.push((String::from_str("width"), self.width.clone()));
        entries.push((String::from_str("height"), self.height.clone()));
        entries.push((String::from_str("depth"), self.depth.clone()));
        entries.push((String::from_str("position"), self.position.clone()));
        entries
    }
}

/// Decides on a document after parsing. A parser's diagnostic becomes a
/// schema error; a parsed document is validated and handed back unchanged
/// where every layer has a type.
pub fn check_document(parsed: Result<NetworkArchitecture, String>) -> (outcome: Result<
    NetworkArchitecture,
    NetworkError,
>)
    ensures
        match parsed {
            Err(diagnostic) => outcome == Err::<NetworkArchitecture, NetworkError>(
                NetworkError::Schema { diagnostic },
            ),
            Ok(document) => match outcome {
                Ok(accepted) => accepted == document && document.well_formed(),
                Err(error) => {
                    &&& error matches NetworkError::Validation { index }
                    &&& document.first_malformed_at(index as nat)
                },
            },
        },
{
    match parsed {
        Err(diagnostic) => Err(NetworkError::Schema { diagnostic }),
        Ok(document) => match document.validate() {
            Ok(()) => Ok(document),
            Err(error) => Err(error),
        },
    }
}

fn hundredths_string(hundredths: u64) -> (text: String)
    ensures
        text@ == hundredths_text(hundredths as nat),
{
    let mut text = String::new();
    push_hundredths(&mut text, hundredths);
    assert(text@ =~= hundredths_text(hundredths as nat));
    text
}

/// Resolves the geometry of every layer, in order. Layers are not validated
/// here: one with an empty type gets the box of an unknown type.
pub fn process_layers(architecture: &NetworkArchitecture) -> (records: Vec<LayerRecord>)
    ensures
        records@.len() == architecture.layers@.len(),
        forall|i: int|
            0 <= i < records@.len() ==> (#[trigger] records@[i]).describes(
                architecture.layers@[i],
                i as nat,
            ),
{
    let processor = LayerProcessor::new();
    let mut records: Vec<LayerRecord> = Vec::new();
    let mut i: usize = 0;
    while i < architecture.layers.len()
        invariant
            i <= architecture.layers@.len(),
            records@.len() == i,
            processor.spacing() == DEFAULT_SPACING,
            forall|j: int|
                0 <= j < i ==> (#[trigger] records@[j]).describes(
                    architecture.layers@[j],
                    j as nat,
                ),
        decreases architecture.layers@.len() - i,
    {
        let layer = &architecture.layers[i];
        let config = layer.config(i);
        let processed = processor.process_layer(&config);
        let record = LayerRecord {
            name: layer.display_name(i),
            layer_type: layer.layer_type.clone(),
            width: hundredths_string(processed.width),
            height: hundredths_string(processed.height),
            depth: hundredths_string(processed.depth),
            position: processed.position,
        };
        assert(record.describes(architecture.layers@[i as int], i as nat));
        records.push(record);
        i += 1;
    }
    records
}

/// The placement texts of `layer_count` layers set `spacing` tenths apart,
/// starting at the origin.
pub fn calculate_layer_positions(layer_count: usize, spacing: u32) -> (positions: Vec<String>)
    ensures
        positions@.len() == layer_count,
        forall|i: int|
            0 <= i < layer_count ==> (#[trigger] positions@[i])@ == position_text(
                i as nat * spacing as nat,
            ),
{
    let mut positions: Vec<String> = Vec::new();
    let mut i: usize = 0;
    while i < layer_count
        invariant
            i <= layer_count,
            positions@.len() == i,
            forall|j: int|
                0 <= j < i ==> (#[trigger] positions@[j])@ == position_text(
                    j as nat * spacing as nat,
                ),
        decreases layer_count - i,
    {
        positions.push(render_position(i, spacing));
        i += 1;
    }
    positions
}

} // verus!
