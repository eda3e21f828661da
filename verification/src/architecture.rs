//! The rows of the architecture tree, read from a YAML description.
//!
//! A description is a document with a list `nnblocks`. Each block of the list
//! has a `name` and a list `layers`, and each layer has a `class`:
//!
//! ```yaml
//! nnblocks:
//!   - name: block1
//!     layers:
//!       - class: Conv2D
//!       - class: MaxPooling2D
//! ```
//!
//! The tree shows one top-level row per block and under it one row per layer.

use crate::nesting::{depth_of, is_shallow, NESTING_LIMIT};
use crate::yaml::{items, load_documents, member, text};
use crate::yaml::{yaml_documents, yaml_events, yaml_items, yaml_member, yaml_text};
use vstd::prelude::*;
use yaml_rust::Yaml;

verus! {

/// Why a text yields no tree.
#[derive(Clone, Copy, Debug, PartialEq, Eq, Structural)]
pub enum ModelError {
    /// A node of the text nests deeper than the limit; the text was not
    /// loaded.
    Nesting,
    /// The text is not YAML.
    Syntax,
    /// The text holds no document.
    NoDocument,
    /// The first document has no list `nnblocks`.
    Blocks,
    /// The block at this index has no string `name`.
    BlockName { block: usize },
    /// The block at this index has no list `layers`.
    BlockLayers { block: usize },
    /// The layer at this index of this block has no string `class`.
    LayerClass { block: usize, layer: usize },
}

/// A block of layers.
#[derive(Debug, PartialEq, Eq)]
pub struct Block {
    pub name: String,
    /// The class of each layer, in order.
    pub layers: Vec<String>,
}

/// The mathematical content of a [`Block`].
pub struct BlockView {
    pub name: Seq<char>,
    pub layers: Seq<Seq<char>>,
}

impl View for Block {
    type V = BlockView;

    open spec fn view(&self) -> BlockView {
        BlockView { name: self.name@, layers: self.layers.deep_view() }
    }
}

impl DeepView for Block {
    type V = BlockView;

    open spec fn deep_view(&self) -> BlockView {
        self@
    }
}

/// A row of the tree.
#[derive(Debug, PartialEq, Eq)]
pub struct Row {
    /// The index of the row that this one hangs under, `None` at top level.
    pub parent: Option<usize>,
    /// What the structure column shows.
    pub label: String,
    /// What the parameter column shows.
    pub params: u32,
}

/// The mathematical content of a [`Row`].
pub struct RowView {
    pub parent: Option<usize>,
    pub label: Seq<char>,
    pub params: u32,
}

impl View for Row {
    type V = RowView;

    open spec fn view(&self) -> RowView {
        RowView { parent: self.parent, label: self.label@, params: self.params }
    }
}

impl DeepView for Row {
    type V = RowView;

    open spec fn deep_view(&self) -> RowView {
        self@
    }
}

/// The blocks listed by a document, `None` where it lists none.
pub open spec fn document_blocks(document: Yaml) -> Option<Seq<Yaml>> {
    yaml_items(yaml_member(document, "nnblocks"@))
}

/// The name of a block node.
pub open spec fn block_name(block: Yaml) -> Option<Seq<char>> {
    yaml_text(yaml_member(block, "name"@))
}

/// The layers listed by a block node.
pub open spec fn block_layers(block: Yaml) -> Option<Seq<Yaml>> {
    yaml_items(yaml_member(block, "layers"@))
}

/// The class of a layer node.
pub open spec fn layer_class(layer: Yaml) -> Option<Seq<char>> {
    yaml_text(yaml_member(layer, "class"@))
}

/// `done` followed by what `rest` yields, or the error of `rest`.
pub open spec fn followed_by<T>(done: Seq<T>, rest: Result<Seq<T>, ModelError>) -> Result<
    Seq<T>,
    ModelError,
> {
    match rest {
        Ok(more) => Ok(done + more),
        Err(error) => Err(error),
    }
}

/// The classes of the layers from index `from` on, or the error of the first
/// of them that has none.
pub open spec fn classes_from(layers: Seq<Yaml>, block: usize, from: int) -> Result<
    Seq<Seq<char>>,
    ModelError,
>
    decreases layers.len() - from,
{
    if from < 0 || from >= layers.len() {
        Ok(Seq::empty())
    } else {
        match layer_class(layers[from]) {
            None => Err(ModelError::LayerClass { block, layer: from as usize }),
            Some(class) => followed_by(seq![class], classes_from(layers, block, from + 1)),
        }
    }
}

/// The block that the node at index `block` describes, or what it lacks: its
/// name first, then its list of layers, then the class of a layer.
pub open spec fn block_of(node: Yaml, block: usize) -> Result<BlockView, ModelError> {
    match (block_name(node), block_layers(node)) {
        (None, _) => Err(ModelError::BlockName { block }),
        (Some(_), None) => Err(ModelError::BlockLayers { block }),
        (Some(name), Some(layers)) => match classes_from(layers, block, 0) {
            Ok(classes) => Ok(BlockView { name, layers: classes }),
            Err(error) => Err(error),
        },
    }
}

/// The blocks that the nodes from index `from` on describe, or the error of
/// the first of them that describes none.
pub open spec fn blocks_from(nodes: Seq<Yaml>, from: int) -> Result<Seq<BlockView>, ModelError>
    decreases nodes.len() - from,
{
    if from < 0 || from >= nodes.len() {
        Ok(Seq::empty())
    } else {
        match block_of(nodes[from], from as usize) {
            Err(error) => Err(error),
            Ok(block) => followed_by(seq![block], blocks_from(nodes, from + 1)),
        }
    }
}

/// The blocks that a document describes.
pub open spec fn document_model(document: Yaml) -> Result<Seq<BlockView>, ModelError> {
    match document_blocks(document) {
        None => Err(ModelError::Blocks),
        Some(nodes) => blocks_from(nodes, 0),
    }
}

/// The rows of one block whose own row stands at index `at`: that row, then
/// one row under it per layer.
pub open spec fn block_rows(block: BlockView, at: usize) -> Seq<RowView> {
    seq![RowView { parent: None, label: block.name, params: 0 }] + Seq::new(
        block.layers.len(),
        |j: int| RowView { parent: Some(at), label: block.layers[j], params: 0 },
    )
}

/// The rows of a tree of blocks, in the order in which they are inserted.
pub open spec fn tree_of(blocks: Seq<BlockView>) -> Seq<RowView>
    decreases blocks.len(),
{
    if blocks.len() == 0 {
        Seq::empty()
    } else {
        let before = tree_of(blocks.drop_last());
        before + block_rows(blocks.last(), before.len() as usize)
    }
}

/// The rows that a list of documents yields: those of its first document.
pub open spec fn documents_tree(documents: Seq<Yaml>) -> Result<Seq<RowView>, ModelError> {
    if documents.len() == 0 {
        Err(ModelError::NoDocument)
    } else {
        match document_model(documents[0]) {
            Ok(blocks) => Ok(tree_of(blocks)),
            Err(error) => Err(error),
        }
    }
}

/// The rows that a text yields. A text with a node that nests deeper than
/// the limit yields none.
pub open spec fn text_tree(text: Seq<char>) -> Result<Seq<RowView>, ModelError> {
    if depth_of(yaml_events(text)) > NESTING_LIMIT {
        Err(ModelError::Nesting)
    } else {
        match yaml_documents(text) {
            None => Err(ModelError::Syntax),
            Some(documents) => documents_tree(documents),
        }
    }
}

/// Whether a block node has all that a block needs: a name, a list of
/// layers, and a class for each layer.
pub open spec fn block_described(node: Yaml) -> bool {
    &&& block_name(node) is Some
    &&& block_layers(node) matches Some(layers)
    &&& forall|j: int| 0 <= j < layers.len() ==> (#[trigger] layer_class(layers[j])) is Some
}

/// Whether a document describes an architecture: it lists blocks, and each
/// of them has all that a block needs.
pub open spec fn described(document: Yaml) -> bool {
    &&& document_blocks(document) matches Some(nodes)
    &&& forall|i: int| 0 <= i < nodes.len() ==> #[trigger] block_described(nodes[i])
}

/// The classes of a list of layers are read one for one and in order, and
/// reading fails at the first layer that has none.
pub proof fn classes_read_in_order(layers: Seq<Yaml>, block: usize, from: int)
    requires
        0 <= from <= layers.len(),
    ensures
        match classes_from(layers, block, from) {
            Ok(classes) => {
                &&& classes.len() == layers.len() - from
                &&& forall|j: int|
                    from <= j < layers.len() ==> (#[trigger] layer_class(layers[j])) == Some(
                        classes[j - from],
                    )
            },
            Err(error) => exists|j: int|
                {
                    &&& from <= j < layers.len()
                    &&& error == (ModelError::LayerClass { block, layer: j as usize })
                    &&& (#[trigger] layer_class(layers[j])) is None
                    &&& forall|k: int|
                        from <= k < j ==> (#[trigger] layer_class(layers[k])) is Some
                },
        },
    decreases layers.len() - from,
{
    if from < layers.len() {
        classes_read_in_order(layers, block, from + 1);
        match layer_class(layers[from]) {
            None => {
                assert(layer_class(layers[from]) is None);
            },
            Some(class) => {
                match classes_from(layers, block, from + 1) {
                    Ok(rest) => {
                        let classes = seq![class] + rest;
                        assert forall|j: int| from <= j < layers.len() implies (
                        #[trigger] layer_class(layers[j])) == Some(classes[j - from]) by {
                            if j > from {
                                assert(classes[j - from] == rest[j - (from + 1)]);
                            }
                        }
                    },
                    Err(error) => {
                        let j = choose|j: int|
                            {
                                &&& from + 1 <= j < layers.len()
                                &&& error == (ModelError::LayerClass { block, layer: j as usize })
                                &&& (#[trigger] layer_class(layers[j])) is None
                                &&& forall|k: int|
                                    from + 1 <= k < j ==> (#[trigger] layer_class(
                                        layers[k],
                                    )) is Some
                            };
                        assert(layer_class(layers[j]) is None);
                    },
                }
            },
        }
    }
}

/// A block is read exactly when its node has all that a block needs, and
/// then with the name and the classes that the node gives.
pub proof fn block_read_when_described(node: Yaml, block: usize)
    ensures
        block_of(node, block) is Ok <==> block_described(node),
        block_of(node, block) matches Ok(found) ==> {
            &&& Some(found.name) == block_name(node)
            &&& found.layers.len() == block_layers(node).unwrap().len()
            &&& forall|j: int|
                0 <= j < found.layers.len() ==> Some(#[trigger] found.layers[j]) == layer_class(
                    block_layers(node).unwrap()[j],
                )
        },
{
    if let Some(layers) = block_layers(node) {
        classes_read_in_order(layers, block, 0);
    }
}

/// The blocks of a list of nodes are read one for one and in order, and
/// reading fails with the error of the first node that is no block.
pub proof fn blocks_read_in_order(nodes: Seq<Yaml>, from: int)
    requires
        0 <= from <= nodes.len(),
    ensures
        match blocks_from(nodes, from) {
            Ok(blocks) => {
                &&& blocks.len() == nodes.len() - from
                &&& forall|i: int|
                    from <= i < nodes.len() ==> (#[trigger] block_of(nodes[i], i as usize)) == Ok::<
                        BlockView,
                        ModelError,
                    >(blocks[i - from])
            },
            Err(error) => exists|i: int|
                {
                    &&& from <= i < nodes.len()
                    &&& (#[trigger] block_of(nodes[i], i as usize)) == Err::<BlockView, ModelError>(
                        error,
                    )
                    &&& forall|k: int|
                        from <= k < i ==> (#[trigger] block_of(nodes[k], k as usize)) is Ok
                },
        },
    decreases nodes.len() - from,
{
    if from < nodes.len() {
        blocks_read_in_order(nodes, from + 1);
        match block_of(nodes[from], from as usize) {
            Err(error) => {
                assert(block_of(nodes[from], from as usize) == Err::<BlockView, ModelError>(error));
            },
            Ok(block) => {
                match blocks_from(nodes, from + 1) {
                    Ok(rest) => {
                        let blocks = seq![block] + rest;
                        assert forall|i: int| from <= i < nodes.len() implies (#[trigger] block_of(
                            nodes[i],
                            i as usize,
                        )) == Ok::<BlockView, ModelError>(blocks[i - from]) by {
                            if i > from {
                                assert(blocks[i - from] == rest[i - (from + 1)]);
                            }
                        }
                    },
                    Err(error) => {
                        let i = choose|i: int|
                            {
                                &&& from + 1 <= i < nodes.len()
                                &&& (#[trigger] block_of(nodes[i], i as usize)) == Err::<
                                    BlockView,
                                    ModelError,
                                >(error)
                                &&& forall|k: int|
                                    from + 1 <= k < i ==> (#[trigger] block_of(
                                        nodes[k],
                                        k as usize,
                                    )) is Ok
                            };
                        assert(block_of(nodes[i], i as usize) == Err::<BlockView, ModelError>(
                            error,
                        ));
                    },
                }
            },
        }
    }
}

/// A document yields a model exactly when it describes an architecture, and
/// the model then has one block per listed node, in order.
pub proof fn model_read_when_described(document: Yaml)
    ensures
        document_model(document) is Ok <==> described(document),
        document_model(document) matches Ok(blocks) ==> {
            &&& blocks.len() == document_blocks(document).unwrap().len()
            &&& forall|i: int|
                0 <= i < blocks.len() ==> (#[trigger] block_of(
                    document_blocks(document).unwrap()[i],
                    i as usize,
                )) == Ok::<BlockView, ModelError>(blocks[i])
        },
{
    if let Some(nodes) = document_blocks(document) {
        blocks_read_in_order(nodes, 0);
        assert forall|i: int| 0 <= i < nodes.len() implies (block_of(nodes[i], i as usize) is Ok
            <==> #[trigger] block_described(nodes[i])) by {
            block_read_when_described(nodes[i], i as usize);
        }
        match blocks_from(nodes, 0) {
            Ok(blocks) => {
                assert forall|i: int| 0 <= i < nodes.len() implies #[trigger] block_described(
                    nodes[i],
                ) by {
                    assert(block_of(nodes[i], i as usize) is Ok);
                }
            },
            Err(error) => {
                let i = choose|i: int|
                    {
                        &&& 0 <= i < nodes.len()
                        &&& (#[trigger] block_of(nodes[i], i as usize)) == Err::<
                            BlockView,
                            ModelError,
                        >(error)
                        &&& forall|k: int|
                            0 <= k < i ==> (#[trigger] block_of(nodes[k], k as usize)) is Ok
                    };
                assert(!block_described(nodes[i]));
            },
        }
    }
}

/// The number of rows that a tree of blocks takes: one per block and one
/// per layer.
pub open spec fn tree_size(blocks: Seq<BlockView>) -> nat
    decreases blocks.len(),
{
    if blocks.len() == 0 {
        0
    } else {
        tree_size(blocks.drop_last()) + 1 + blocks.last().layers.len()
    }
}

/// A tree has one row per block and one per layer.
pub proof fn tree_has_a_row_for_each(blocks: Seq<BlockView>)
    ensures
        tree_of(blocks).len() == tree_size(blocks),
    decreases blocks.len(),
{
    if blocks.len() > 0 {
        tree_has_a_row_for_each(blocks.drop_last());
    }
}

/// Where each row of a tree stands. The row of block `i` comes after all
/// rows of the blocks before it and is a top-level row with the block's name;
/// the rows of its layers follow it in order, each with the layer's class
/// and the block's row as its parent.
pub proof fn tree_rows_by_position(blocks: Seq<BlockView>, i: int)
    requires
        0 <= i < blocks.len(),
        tree_size(blocks) <= usize::MAX,
    ensures
        ({
            let rows = tree_of(blocks);
            let base = tree_size(blocks.take(i));
            &&& base + blocks[i].layers.len() < rows.len()
            &&& rows[base as int] == (RowView { parent: None, label: blocks[i].name, params: 0 })
            &&& forall|j: int|
                0 <= j < blocks[i].layers.len() ==> #[trigger] rows[base + 1 + j] == (RowView {
                    parent: Some(base as usize),
                    label: blocks[i].layers[j],
                    params: 0,
                })
        }),
    decreases blocks.len(),
{
    let before = blocks.drop_last();
    tree_has_a_row_for_each(blocks);
    tree_has_a_row_for_each(before);
    if i == blocks.len() - 1 {
        assert(blocks.take(i) =~= before);
    } else {
        tree_rows_by_position(before, i);
        assert(before.take(i) =~= blocks.take(i));
        tree_has_a_row_for_each(blocks.take(i));
    }
}

fn read_layers(layers: &Vec<Yaml>, block: usize) -> (classes: Result<Vec<String>, ModelError>)
    ensures
        match classes {
            Ok(list) => classes_from(layers@, block, 0) == Ok::<Seq<Seq<char>>, ModelError>(
                list.deep_view(),
            ),
            Err(error) => classes_from(layers@, block, 0) == Err::<Seq<Seq<char>>, ModelError>(
                error,
            ),
        },
{
    let mut list: Vec<String> = Vec::new();
    let mut at: usize = 0;
    assert(list.deep_view() + Seq::<Seq<char>>::empty() =~= Seq::<Seq<char>>::empty());
    while at < layers.len()
        invariant
            at <= layers.len(),
            classes_from(layers@, block, 0) == followed_by(
                list.deep_view(),
                classes_from(layers@, block, at as int),
            ),
        decreases layers.len() - at,
    {
        let ghost before = list.deep_view();
        match text(member(&layers[at], "class")) {
            None => {
                return Err(ModelError::LayerClass { block, layer: at });
            },
            Some(class) => {
                list.push(class.to_owned());
                proof {
                    let rest = classes_from(layers@, block, at + 1);
                    assert(list.deep_view() =~= before + seq![class@]);
                    if let Ok(more) = rest {
                        assert((before + seq![class@]) + more =~= before + (seq![class@] + more));
                    }
                }
            },
        }
        at = at + 1;
    }
    assert(list.deep_view() + Seq::<Seq<char>>::empty() =~= list.deep_view());
    Ok(list)
}

fn read_block(node: &Yaml, block: usize) -> (read: Result<Block, ModelError>)
    ensures
        match read {
            Ok(found) => block_of(*node, block) == Ok::<BlockView, ModelError>(found@),
            Err(error) => block_of(*node, block) == Err::<BlockView, ModelError>(error),
        },
{
    let name = match text(member(node, "name")) {
        None => {
            return Err(ModelError::BlockName { block });
        },
        Some(name) => name.to_owned(),
    };
    let layers = match items(member(node, "layers")) {
        None => {
            return Err(ModelError::BlockLayers { block });
        },
        Some(layers) => layers,
    };
    match read_layers(layers, block) {
        Ok(classes) => Ok(Block { name, layers: classes }),
        Err(error) => Err(error),
    }
}

/// Reads the blocks that `document` describes.
pub fn read_blocks(document: &Yaml) -> (model: Result<Vec<Block>, ModelError>)
    ensures
        match model {
            Ok(blocks) => document_model(*document) == Ok::<Seq<BlockView>, ModelError>(
                blocks.deep_view(),
            ),
            Err(error) => document_model(*document) == Err::<Seq<BlockView>, ModelError>(error),
        },
{
    let nodes = match items(member(document, "nnblocks")) {
        None => {
            return Err(ModelError::Blocks);
        },
        Some(nodes) => nodes,
    };
    let mut blocks: Vec<Block> = Vec::new();
    let mut at: usize = 0;
    assert(blocks.deep_view() + Seq::<BlockView>::empty() =~= Seq::<BlockView>::empty());
    while at < nodes.len()
        invariant
            at <= nodes.len(),
            document_blocks(*document) == Some(nodes@),
            blocks_from(nodes@, 0) == followed_by(
                blocks.deep_view(),
                blocks_from(nodes@, at as int),
            ),
        decreases nodes.len() - at,
    {
        let ghost before = blocks.deep_view();
        match read_block(&nodes[at], at) {
            Err(error) => {
                return Err(error);
            },
            Ok(block) => {
                let ghost found = block@;
                blocks.push(block);
                proof {
                    let rest = blocks_from(nodes@, at + 1);
                    assert(blocks.deep_view() =~= before + seq![found]);
                    if let Ok(more) = rest {
                        assert((before + seq![found]) + more =~= before + (seq![found] + more));
                    }
                }
            },
        }
        at = at + 1;
    }
    assert(blocks.deep_view() + Seq::<BlockView>::empty() =~= blocks.deep_view());
    Ok(blocks)
}

/// Lays the blocks out as rows: each block's row, then the rows of its
/// layers, which name the block's row as their parent.
pub fn tree_rows(blocks: &Vec<Block>) -> (rows: Vec<Row>)
    ensures
        rows.deep_view() == tree_of(blocks.deep_view()),
{
    let mut rows: Vec<Row> = Vec::new();
    let mut at: usize = 0;
    assert(blocks.deep_view().take(0) =~= Seq::<BlockView>::empty());
    while at < blocks.len()
        invariant
            at <= blocks.len(),
            rows.deep_view() == tree_of(blocks.deep_view().take(at as int)),
        decreases blocks.len() - at,
    {
        let block = &blocks[at];
        let parent = rows.len();
        let ghost before = rows.deep_view();
        assert(before.len() == parent);
        rows.push(Row { parent: None, label: block.name.clone(), params: 0 });
        let mut layer: usize = 0;
        while layer < block.layers.len()
            invariant
                layer <= block.layers.len(),
                rows.deep_view() =~= before + block_rows(block@, parent).take(layer + 1),
            decreases block.layers.len() - layer,
        {
            let ghost above = rows.deep_view();
            rows.push(Row { parent: Some(parent), label: block.layers[layer].clone(), params: 0 });
            proof {
                let all = block_rows(block@, parent);
                let added = RowView {
                    parent: Some(parent),
                    label: block.layers@[layer as int]@,
                    params: 0,
                };
                assert(all[layer + 1] == added);
                assert(rows.deep_view() =~= above + seq![added]);
                assert(all.take(layer + 2) =~= all.take(layer + 1) + seq![added]);
            }
            layer = layer + 1;
        }
        proof {
            let upto = blocks.deep_view().take(at + 1);
            assert(upto.drop_last() =~= blocks.deep_view().take(at as int));
            assert(upto.last() == block@);
            assert(block_rows(block@, parent).take(layer + 1) =~= block_rows(block@, parent));
        }
        at = at + 1;
    }
    assert(blocks.deep_view().take(at as int) =~= blocks.deep_view());
    rows
}

/// The rows of the first of `documents`.
pub fn rows_from_documents(documents: &Vec<Yaml>) -> (tree: Result<Vec<Row>, ModelError>)
    ensures
        match tree {
            Ok(rows) => documents_tree(documents@) == Ok::<Seq<RowView>, ModelError>(
                rows.deep_view(),
            ),
            Err(error) => documents_tree(documents@) == Err::<Seq<RowView>, ModelError>(error),
        },
{
    if documents.len() == 0 {
        return Err(ModelError::NoDocument);
    }
    match read_blocks(&documents[0]) {
        Ok(blocks) => Ok(tree_rows(&blocks)),
        Err(error) => Err(error),
    }
}

/// Reads an architecture description and lays it out as the rows of the
/// tree.
pub fn create_and_fill_model(text: &str) -> (tree: Result<Vec<Row>, ModelError>)
    ensures
        match tree {
            Ok(rows) => text_tree(text@) == Ok::<Seq<RowView>, ModelError>(rows.deep_view()),
            Err(error) => text_tree(text@) == Err::<Seq<RowView>, ModelError>(error),
        },
{
    if !is_shallow(text) {
        return Err(ModelError::Nesting);
    }
    match load_documents(text) {
        Ok(documents) => rows_from_documents(&documents),
        Err(_) => Err(ModelError::Syntax),
    }
}

} // verus!
