use nn_canvas::architecture::{
    create_and_fill_model, read_blocks, rows_from_documents, tree_rows, Block, ModelError, Row,
};
use nn_canvas::columns::{
    column_title, COLUMN_ATTRIBUTE, COLUMN_MAX_WIDTH, PARAMS_COLUMN, STRUCTURE_COLUMN,
};
use yaml_rust::Yaml;

fn top(label: &str) -> Row {
    Row { parent: None, label: String::from(label), params: 0 }
}

fn under(parent: usize, label: &str) -> Row {
    Row { parent: Some(parent), label: String::from(label), params: 0 }
}

fn block(name: &str, layers: &[&str]) -> Block {
    Block {
        name: String::from(name),
        layers: layers.iter().map(|class| String::from(*class)).collect(),
    }
}

fn string(text: &str) -> Yaml {
    Yaml::String(String::from(text))
}

fn hash(entries: Vec<(&str, Yaml)>) -> Yaml {
    let mut map = yaml_rust::yaml::Hash::new();
    for (key, value) in entries {
        map.insert(string(key), value);
    }
    Yaml::Hash(map)
}

const VGG_HEAD: &str = "
nnblocks:
  - name: block1
    layers:
      - class: Conv2D
        filters: 64
      - class: Conv2D
        filters: 64
      - class: MaxPooling2D
  - name: block2
    layers:
      - class: Conv2D
      - class: MaxPooling2D
  - name: top
    layers: []
";

#[test]
fn column_titles() {
    assert_eq!(column_title(0), "Structure");
    assert_eq!(column_title(1), "Params");
    assert_eq!(column_title(2), "..");
    assert_eq!(column_title(-1), "..");
    assert_eq!(column_title(i32::MAX), "..");
    assert_eq!(column_title(i32::MIN), "..");
}

#[test]
fn column_layout() {
    assert_eq!(COLUMN_MAX_WIDTH, 250);
    assert_eq!(COLUMN_ATTRIBUTE, "text");
    assert_eq!(column_title(STRUCTURE_COLUMN), "Structure");
    assert_eq!(column_title(PARAMS_COLUMN), "Params");
}

#[test]
fn description_becomes_rows_block_by_block() {
    assert_eq!(
        create_and_fill_model(VGG_HEAD),
        Ok(vec![
            top("block1"),
            under(0, "Conv2D"),
            under(0, "Conv2D"),
            under(0, "MaxPooling2D"),
            top("block2"),
            under(4, "Conv2D"),
            under(4, "MaxPooling2D"),
            top("top"),
        ])
    );
}

#[test]
fn description_without_blocks_is_an_empty_tree() {
    assert_eq!(create_and_fill_model("nnblocks: []"), Ok(Vec::new()));
}

#[test]
fn only_the_first_document_counts() {
    let text = "
nnblocks:
  - name: a
    layers: []
---
nnblocks:
  - name: b
    layers: []
";
    assert_eq!(create_and_fill_model(text), Ok(vec![top("a")]));
    let text = "other: 1\n---\nnnblocks: []\n";
    assert_eq!(create_and_fill_model(text), Err(ModelError::Blocks));
}

#[test]
fn text_that_is_not_yaml_is_a_syntax_error() {
    assert_eq!(create_and_fill_model("nnblocks: [a, b"), Err(ModelError::Syntax));
    assert_eq!(create_and_fill_model("a: b: c: d"), Err(ModelError::Syntax));
}

#[test]
fn text_without_a_document_has_no_tree() {
    assert_eq!(create_and_fill_model(""), Err(ModelError::NoDocument));
    assert_eq!(rows_from_documents(&Vec::new()), Err(ModelError::NoDocument));
}

#[test]
fn document_without_a_list_of_blocks_has_no_tree() {
    assert_eq!(create_and_fill_model("blocks: []"), Err(ModelError::Blocks));
    assert_eq!(create_and_fill_model("nnblocks: 3"), Err(ModelError::Blocks));
    assert_eq!(create_and_fill_model("nnblocks: {name: a}"), Err(ModelError::Blocks));
    assert_eq!(create_and_fill_model("- nnblocks"), Err(ModelError::Blocks));
    assert_eq!(create_and_fill_model("just text"), Err(ModelError::Blocks));
    assert_eq!(read_blocks(&Yaml::Null), Err(ModelError::Blocks));
    assert_eq!(read_blocks(&Yaml::BadValue), Err(ModelError::Blocks));
}

#[test]
fn block_without_a_name_is_reported_with_its_index() {
    let text = "nnblocks:\n  - name: a\n    layers: []\n  - layers: []\n";
    assert_eq!(create_and_fill_model(text), Err(ModelError::BlockName { block: 1 }));
    let text = "nnblocks:\n  - name: 12\n    layers: []\n";
    assert_eq!(create_and_fill_model(text), Err(ModelError::BlockName { block: 0 }));
    let text = "nnblocks:\n  - just a string\n";
    assert_eq!(create_and_fill_model(text), Err(ModelError::BlockName { block: 0 }));
}

#[test]
fn block_without_layers_is_reported_with_its_index() {
    let text = "nnblocks:\n  - name: a\n    layers: []\n  - name: b\n  - name: c\n";
    assert_eq!(create_and_fill_model(text), Err(ModelError::BlockLayers { block: 1 }));
    let text = "nnblocks:\n  - name: a\n    layers: none\n";
    assert_eq!(create_and_fill_model(text), Err(ModelError::BlockLayers { block: 0 }));
}

#[test]
fn layer_without_a_class_is_reported_with_both_indices() {
    let text = "nnblocks:
  - name: a
    layers:
      - class: Conv2D
  - name: b
    layers:
      - class: Conv2D
      - class: Dense
      - kind: Dense
      - class: 7
";
    assert_eq!(create_and_fill_model(text), Err(ModelError::LayerClass { block: 1, layer: 2 }));
    let text = "nnblocks:\n  - name: a\n    layers:\n      - class: true\n";
    assert_eq!(create_and_fill_model(text), Err(ModelError::LayerClass { block: 0, layer: 0 }));
}

#[test]
fn the_first_fault_in_reading_order_is_the_one_reported() {
    let text = "nnblocks:\n  - layers: 3\n  - name: b\n";
    assert_eq!(create_and_fill_model(text), Err(ModelError::BlockName { block: 0 }));
    let text = "nnblocks:\n  - name: a\n    layers:\n      - {}\n  - {}\n";
    assert_eq!(create_and_fill_model(text), Err(ModelError::LayerClass { block: 0, layer: 0 }));
    let text = "nnblocks:\n  - name: a\n  - {}\n";
    assert_eq!(create_and_fill_model(text), Err(ModelError::BlockLayers { block: 0 }));
}

#[test]
fn other_keys_and_their_order_do_not_matter() {
    let text = "
version: 2
nnblocks:
  - layers:
      - units: 10
        class: Dense
    trainable: false
    name: head
";
    assert_eq!(create_and_fill_model(text), Ok(vec![top("head"), under(0, "Dense")]));
}

#[test]
fn blocks_are_read_from_a_built_document() {
    let document = hash(vec![
        ("nnblocks", Yaml::Array(vec![
            hash(vec![
                ("name", string("stem")),
                ("layers", Yaml::Array(vec![
                    hash(vec![("class", string("Conv2D"))]),
                    hash(vec![("class", string("ReLU"))]),
                ])),
            ]),
            hash(vec![("name", string("head")), ("layers", Yaml::Array(Vec::new()))]),
        ])),
    ]);
    assert_eq!(
        read_blocks(&document),
        Ok(vec![block("stem", &["Conv2D", "ReLU"]), block("head", &[])])
    );
    assert_eq!(
        rows_from_documents(&vec![document, Yaml::Null]),
        Ok(vec![top("stem"), under(0, "Conv2D"), under(0, "ReLU"), top("head")])
    );
}

#[test]
fn keys_are_looked_up_by_name() {
    let document = hash(vec![
        ("name", Yaml::Array(Vec::new())),
        ("layers", string("x")),
        ("class", string("y")),
    ]);
    assert_eq!(read_blocks(&document), Err(ModelError::Blocks));
    let layer = hash(vec![("name", string("wrong")), ("class", string("right"))]);
    let block_node = hash(vec![
        ("class", string("wrong")),
        ("name", string("right")),
        ("layers", Yaml::Array(vec![layer])),
    ]);
    let document = hash(vec![("nnblocks", Yaml::Array(vec![block_node]))]);
    assert_eq!(read_blocks(&document), Ok(vec![block("right", &["right"])]));
}

#[test]
fn values_of_other_types_are_no_names() {
    for value in [
        Yaml::Integer(3),
        Yaml::Real(String::from("1.5")),
        Yaml::Boolean(true),
        Yaml::Null,
        Yaml::BadValue,
        Yaml::Array(vec![string("a")]),
    ] {
        let document = hash(vec![("nnblocks", Yaml::Array(vec![
            hash(vec![("name", value), ("layers", Yaml::Array(Vec::new()))]),
        ]))]);
        assert_eq!(read_blocks(&document), Err(ModelError::BlockName { block: 0 }));
    }
}

#[test]
fn rows_of_no_blocks() {
    assert_eq!(tree_rows(&Vec::new()), Vec::new());
}

#[test]
fn rows_name_the_row_of_their_block_as_parent() {
    let blocks = vec![
        block("a", &[]),
        block("b", &["x", "y"]),
        block("c", &["z"]),
        block("d", &[]),
    ];
    assert_eq!(
        tree_rows(&blocks),
        vec![
            top("a"),
            top("b"),
            under(1, "x"),
            under(1, "y"),
            top("c"),
            under(4, "z"),
            top("d"),
        ]
    );
}

#[test]
fn every_row_has_zero_parameters_and_a_parent_before_it() {
    let rows = create_and_fill_model(VGG_HEAD).unwrap();
    assert_eq!(rows.len(), 3 + 5);
    for (index, row) in rows.iter().enumerate() {
        assert_eq!(row.params, 0);
        if let Some(parent) = row.parent {
            assert!(parent < index);
            assert_eq!(rows[parent].parent, None);
        }
    }
}
