use plotneuron::error::{NetworkError, ShapeFault};
use plotneuron::facade::{calculate_layer_positions, check_document, process_layers, LayerRecord};
use plotneuron::schema::{Layer, LayerDetails, NetworkArchitecture};

fn layer(layer_type: &str) -> Layer {
    Layer {
        layer_type: layer_type.to_string(),
        name: None,
        filters: None,
        kernel_size: None,
        stride: None,
        units: None,
        activation: None,
        position: None,
        pool_size: None,
    }
}

fn network(layers: Vec<Layer>) -> NetworkArchitecture {
    NetworkArchitecture { layers, name: None, description: None }
}

fn record(name: &str, layer_type: &str, dims: [&str; 3], position: &str) -> LayerRecord {
    LayerRecord {
        name: name.to_string(),
        layer_type: layer_type.to_string(),
        width: dims[0].to_string(),
        height: dims[1].to_string(),
        depth: dims[2].to_string(),
        position: position.to_string(),
    }
}

#[test]
fn empty_type_in_second_layer_fails_validation() {
    let document = network(vec![layer("conv"), layer(""), layer("dense")]);
    let outcome = document.validate();
    assert_eq!(outcome, Err(NetworkError::Validation { index: 1 }));
    assert_eq!(outcome.unwrap_err().message(), "Layer 1 has empty type");
}

#[test]
fn validation_names_the_first_empty_type() {
    let document = network(vec![layer("conv"), layer("pool"), layer(""), layer("")]);
    assert_eq!(document.validate(), Err(NetworkError::Validation { index: 2 }));
    let document = network(vec![layer(""), layer("conv")]);
    assert_eq!(document.validate(), Err(NetworkError::Validation { index: 0 }));
}

#[test]
fn validation_accepts_any_non_empty_type() {
    let document = network(vec![layer("conv"), layer("no such layer"), layer(" ")]);
    assert_eq!(document.validate(), Ok(()));
}

#[test]
fn validation_accepts_a_network_without_layers() {
    assert_eq!(network(Vec::new()).validate(), Ok(()));
}

#[test]
fn validation_leaves_the_document_unchanged() {
    let mut first = layer("conv");
    first.name = Some("stem".to_string());
    first.filters = Some(32);
    let document = network(vec![first, layer("dense")]);
    assert_eq!(document.validate(), Ok(()));
    assert_eq!(document.layers.len(), 2);
    assert_eq!(document.layers[0].name.as_deref(), Some("stem"));
    assert_eq!(document.layers[0].filters, Some(32));
    assert_eq!(document.layers[1].layer_type, "dense");
    assert_eq!(document.layers[1].name, None);
}

#[test]
fn display_name_prefers_the_declared_name() {
    let mut named = layer("conv");
    named.name = Some("stem".to_string());
    assert_eq!(named.display_name(4), "stem");
    assert_eq!(layer("conv").display_name(4), "layer4");
    assert_eq!(layer("conv").display_name(0), "layer0");
}

#[test]
fn config_keeps_what_geometry_reads() {
    let mut declared = layer("Conv");
    declared.filters = Some(16);
    declared.kernel_size = Some(7);
    declared.units = Some(10);
    declared.stride = Some(2);
    let config = declared.config(5);
    assert_eq!(config.layer_type, "Conv");
    assert_eq!(config.filters, Some(16));
    assert_eq!(config.kernel_size, Some(7));
    assert_eq!(config.units, Some(10));
    assert_eq!(config.index, 5);
}

#[test]
fn details_fill_in_defaults() {
    assert_eq!(
        layer("conv").details(),
        LayerDetails::Convolution { filters: 64, kernel_size: 3, stride: 1 }
    );
    assert_eq!(layer("FC").details(), LayerDetails::Dense { units: 128, activation: None });
    assert_eq!(layer("maxpool").details(), LayerDetails::Pooling { pool_size: 2 });
    assert_eq!(layer("dropout").details(), LayerDetails::Custom);
    assert_eq!(layer("bn").details(), LayerDetails::Custom);
    assert_eq!(layer("attention").details(), LayerDetails::Custom);
}

#[test]
fn details_keep_declared_parameters() {
    let mut conv = layer("Convolution");
    conv.filters = Some(8);
    conv.kernel_size = Some(5);
    conv.stride = Some(2);
    assert_eq!(
        conv.details(),
        LayerDetails::Convolution { filters: 8, kernel_size: 5, stride: 2 }
    );
    let mut dense = layer("linear");
    dense.units = Some(10);
    dense.activation = Some("softmax".to_string());
    assert_eq!(
        dense.details(),
        LayerDetails::Dense { units: 10, activation: Some("softmax".to_string()) }
    );
    let mut pool = layer("avgpool");
    pool.pool_size = Some(3);
    assert_eq!(pool.details(), LayerDetails::Pooling { pool_size: 3 });
}

#[test]
fn records_of_a_small_network() {
    let mut dense = layer("Dense");
    dense.name = Some("head".to_string());
    let document = network(vec![layer("conv"), layer("pool"), dense]);
    assert_eq!(
        process_layers(&document),
        vec![
            record("layer0", "conv", ["2.64", "18", "18"], "(0.0,0,0)"),
            record("layer1", "pool", ["1", "8", "8"], "(5.0,0,0)"),
            record("head", "Dense", ["1.5", "5.56", "9.28"], "(10.0,0,0)"),
        ]
    );
}

#[test]
fn records_with_declared_parameters() {
    let mut conv = layer("conv");
    conv.filters = Some(7);
    conv.kernel_size = Some(1);
    let mut dense = layer("fc");
    dense.units = Some(1000);
    let document = network(vec![conv, dense, layer("bn"), layer("dropout")]);
    assert_eq!(
        process_layers(&document),
        vec![
            record("layer0", "conv", ["2.07", "16", "16"], "(0.0,0,0)"),
            record("layer1", "fc", ["1.5", "23", "18"], "(5.0,0,0)"),
            record("layer2", "bn", ["0.5", "12", "12"], "(10.0,0,0)"),
            record("layer3", "dropout", ["1", "1", "8"], "(15.0,0,0)"),
        ]
    );
}

#[test]
fn records_pass_empty_and_unknown_types_through() {
    let document = network(vec![layer(""), layer("transformer")]);
    assert_eq!(
        process_layers(&document),
        vec![
            record("layer0", "", ["2", "10", "10"], "(0.0,0,0)"),
            record("layer1", "transformer", ["2", "10", "10"], "(5.0,0,0)"),
        ]
    );
}

#[test]
fn no_records_for_no_layers() {
    assert!(process_layers(&network(Vec::new())).is_empty());
}

#[test]
fn positions_at_the_default_spacing() {
    assert_eq!(
        calculate_layer_positions(3, 50),
        vec!["(0.0,0,0)".to_string(), "(5.0,0,0)".to_string(), "(10.0,0,0)".to_string()]
    );
}

#[test]
fn positions_at_a_fractional_spacing() {
    assert_eq!(
        calculate_layer_positions(4, 32),
        vec![
            "(0.0,0,0)".to_string(),
            "(3.2,0,0)".to_string(),
            "(6.4,0,0)".to_string(),
            "(9.6,0,0)".to_string(),
        ]
    );
}

#[test]
fn no_positions_for_no_layers() {
    assert!(calculate_layer_positions(0, 50).is_empty());
}

#[test]
fn messages_of_every_error() {
    assert_eq!(
        NetworkError::Schema { diagnostic: "expected value at line 1 column 1".to_string() }
            .message(),
        "JSON parsing error: expected value at line 1 column 1"
    );
    assert_eq!(NetworkError::Validation { index: 0 }.message(), "Layer 0 has empty type");
    assert_eq!(NetworkError::Validation { index: 12 }.message(), "Layer 12 has empty type");
    assert_eq!(
        NetworkError::IncompatibleDimensions { fault: ShapeFault::EmptyOperand }.message(),
        "Empty matrices"
    );
    assert_eq!(
        NetworkError::IncompatibleDimensions { fault: ShapeFault::InnerMismatch }.message(),
        "Incompatible matrix dimensions"
    );
    assert_eq!(
        NetworkError::UnsupportedActivation { name: "bogus".to_string() }.message(),
        "Unsupported activation function: bogus"
    );
}

#[test]
fn parser_diagnostic_becomes_a_schema_error() {
    let outcome = check_document(Err("missing field `layers` at line 1 column 2".to_string()));
    assert_eq!(
        outcome,
        Err(NetworkError::Schema {
            diagnostic: "missing field `layers` at line 1 column 2".to_string()
        })
    );
    assert_eq!(
        outcome.unwrap_err().message(),
        "JSON parsing error: missing field `layers` at line 1 column 2"
    );
}

#[test]
fn well_formed_document_is_handed_back_unchanged() {
    let mut first = layer("conv");
    first.name = Some("stem".to_string());
    first.position = Some("left".to_string());
    let mut document = network(vec![first, layer("dense")]);
    document.description = Some("two layers".to_string());
    assert_eq!(check_document(Ok(document.clone())), Ok(document));
}

#[test]
fn parsed_document_with_an_empty_type_is_rejected() {
    let document = network(vec![layer("conv"), layer("")]);
    assert_eq!(check_document(Ok(document)), Err(NetworkError::Validation { index: 1 }));
}

#[test]
fn title_prefers_the_declared_name() {
    let mut document = network(vec![layer("conv")]);
    assert_eq!(document.title(), "Unnamed");
    document.name = Some("LeNet".to_string());
    assert_eq!(document.title(), "LeNet");
}

#[test]
fn record_entries_are_keyed_for_the_host() {
    let entries = record("head", "Dense", ["1.5", "5.56", "9.28"], "(10.0,0,0)").entries();
    let expected: Vec<(String, String)> = [
        ("name", "head"),
        ("type", "Dense"),
        ("width", "1.5"),
        ("height", "5.56"),
        ("depth", "9.28"),
        ("position", "(10.0,0,0)"),
    ]
    .iter()
    .map(|(key, value)| (key.to_string(), value.to_string()))
    .collect();
    assert_eq!(entries, expected);
}
