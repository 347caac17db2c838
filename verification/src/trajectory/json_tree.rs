//! A JSON value as a tree whose branches can be folded.
use crate::text::{concat, concat3, decimal, decimal_text, opt_view};
use crate::text_set::TextSet;
use vstd::prelude::*;

verus! {

/// A JSON value. A number is held as it is written.
#[derive(Debug)]
pub enum Json {
    Null,
    Bool(bool),
    Number(String),
    Text(String),
    Array(Vec<Json>),
    Object(Vec<JsonEntry>),
}

/// A key of a JSON object with its value.
#[derive(Debug)]
pub struct JsonEntry {
    pub key: String,
    pub value: Json,
}

/// The contents of a JSON value.
pub ghost enum JsonView {
    Null,
    Bool(bool),
    Number(Seq<char>),
    Text(Seq<char>),
    Array(Seq<JsonView>),
    Object(Seq<JsonEntryView>),
}

/// The contents of a key of a JSON object with its value.
pub ghost struct JsonEntryView {
    pub key: Seq<char>,
    pub value: JsonView,
}

/// The contents of a JSON value.
pub open spec fn json_view(value: Json) -> JsonView
    decreases value,
{
    match value {
        Json::Null => JsonView::Null,
        Json::Bool(b) => JsonView::Bool(b),
        Json::Number(n) => JsonView::Number(n@),
        Json::Text(s) => JsonView::Text(s@),
        Json::Array(items) => JsonView::Array(
            Seq::new(
                items@.len(),
                |i: int|
                    if 0 <= i < items@.len() {
                        json_view(items@[i])
                    } else {
                        JsonView::Null
                    },
            ),
        ),
        Json::Object(entries) => JsonView::Object(
            Seq::new(
                entries@.len(),
                |i: int|
                    if 0 <= i < entries@.len() {
                        JsonEntryView {
                            key: entries@[i].key@,
                            value: json_view(entries@[i].value),
                        }
                    } else {
                        JsonEntryView { key: Seq::empty(), value: JsonView::Null }
                    },
            ),
        ),
    }
}

impl View for Json {
    type V = JsonView;

    open spec fn view(&self) -> JsonView {
        json_view(*self)
    }
}

/// A copy of a JSON value.
pub fn copy_json(value: &Json) -> (r: Json)
    ensures
        r@ == value@,
    decreases value,
{
    match value {
        Json::Null => Json::Null,
        Json::Bool(b) => Json::Bool(*b),
        Json::Number(n) => Json::Number(n.clone()),
        Json::Text(s) => Json::Text(s.clone()),
        Json::Array(items) => {
            let mut copy: Vec<Json> = Vec::new();
            for i in 0..items.len()
                invariant
                    *value == Json::Array(*items),
                    copy@.len() == i,
                    forall|k: int| 0 <= k < i ==> json_view(#[trigger] copy@[k]) == json_view(items@[k]),
            {
                assert(decreases_to!(value => value->Array_0));
                assert(decreases_to!(value => items@[i as int]));
                copy.push(copy_json(&items[i]));
            }
            let r = Json::Array(copy);
            assert(json_view(r)->Array_0 =~= json_view(*value)->Array_0);
            r
        },
        Json::Object(entries) => {
            let mut copy: Vec<JsonEntry> = Vec::new();
            for i in 0..entries.len()
                invariant
                    *value == Json::Object(*entries),
                    copy@.len() == i,
                    forall|k: int|
                        0 <= k < i ==> (#[trigger] copy@[k]).key == entries@[k].key && json_view(
                            copy@[k].value,
                        ) == json_view(entries@[k].value),
            {
                assert(decreases_to!(value => value->Object_0));
                assert(decreases_to!(value => entries@[i as int].value));
                let entry = JsonEntry {
                    key: entries[i].key.clone(),
                    value: copy_json(&entries[i].value),
                };
                copy.push(entry);
            }
            let r = Json::Object(copy);
            assert(json_view(r)->Object_0 =~= json_view(*value)->Object_0);
            r
        },
    }
}

/// The type of a JSON value.
#[derive(Clone, Copy, Debug, PartialEq, Eq, Structural)]
pub enum JsonValueType {
    Object,
    Array,
    String,
    Number,
    Boolean,
    Null,
}

/// A visible node of a JSON tree.
#[derive(Debug)]
pub struct JsonTreeNode {
    pub id: String,
    pub path: String,
    pub key: Option<String>,
    pub value_preview: String,
    pub value_type: JsonValueType,
    pub depth: usize,
    pub expandable: bool,
    pub expanded: bool,
    pub raw_value: Option<Json>,
}

/// The contents of a visible node.
pub ghost struct NodeView {
    pub id: Seq<char>,
    pub path: Seq<char>,
    pub key: Option<Seq<char>>,
    pub value_preview: Seq<char>,
    pub value_type: JsonValueType,
    pub depth: usize,
    pub expandable: bool,
    pub expanded: bool,
    pub raw_value: Option<JsonView>,
}

impl View for JsonTreeNode {
    type V = NodeView;

    open spec fn view(&self) -> NodeView {
        NodeView {
            id: self.id@,
            path: self.path@,
            key: opt_view(self.key),
            value_preview: self.value_preview@,
            value_type: self.value_type,
            depth: self.depth,
            expandable: self.expandable,
            expanded: self.expanded,
            raw_value: match self.raw_value {
                Some(value) => Some(value@),
                None => None,
            },
        }
    }
}

/// The contents of the visible nodes.
pub open spec fn node_views(nodes: Seq<JsonTreeNode>) -> Seq<NodeView> {
    Seq::new(nodes.len(), |i: int| nodes[i]@)
}

/// The type of a value.
pub open spec fn json_type(v: JsonView) -> JsonValueType {
    match v {
        JsonView::Null => JsonValueType::Null,
        JsonView::Bool(_) => JsonValueType::Boolean,
        JsonView::Number(_) => JsonValueType::Number,
        JsonView::Text(_) => JsonValueType::String,
        JsonView::Array(_) => JsonValueType::Array,
        JsonView::Object(_) => JsonValueType::Object,
    }
}

/// What a node says of its value: the value itself, or the number of its parts.
pub open spec fn json_preview(v: JsonView) -> Seq<char> {
    match v {
        JsonView::Null => "null"@,
        JsonView::Bool(b) => if b {
            "true"@
        } else {
            "false"@
        },
        JsonView::Number(n) => n,
        JsonView::Text(s) => "\""@ + s + "\""@,
        JsonView::Array(items) => "Array ("@ + decimal(items.len()) + " items)"@,
        JsonView::Object(entries) => "Object ("@ + decimal(entries.len()) + " entries)"@,
    }
}

/// The number of a value's parts.
pub open spec fn part_count(v: JsonView) -> nat {
    match v {
        JsonView::Array(items) => items.len(),
        JsonView::Object(entries) => entries.len(),
        _ => 0,
    }
}

/// The level below `depth`.
pub open spec fn deeper(depth: usize) -> usize {
    if depth < usize::MAX {
        (depth + 1) as usize
    } else {
        depth
    }
}

/// The node of a value.
pub open spec fn head_node(
    v: JsonView,
    path: Seq<char>,
    key: Option<Seq<char>>,
    depth: usize,
    expanded: Set<Seq<char>>,
) -> NodeView {
    NodeView {
        id: path,
        path,
        key,
        value_preview: json_preview(v),
        value_type: json_type(v),
        depth,
        expandable: part_count(v) > 0,
        expanded: (v is Array || v is Object) && expanded.contains(path),
        raw_value: Some(v),
    }
}

/// The visible nodes of a value: its own, and those of its parts where it is unfolded.
pub open spec fn tree_nodes(
    v: JsonView,
    path: Seq<char>,
    key: Option<Seq<char>>,
    depth: usize,
    expanded: Set<Seq<char>>,
) -> Seq<NodeView>
    decreases v, 0nat,
{
    seq![head_node(v, path, key, depth, expanded)] + (if !expanded.contains(path) {
        Seq::empty()
    } else {
        match v {
            JsonView::Array(items) => item_nodes(
                items,
                items.len(),
                path,
                deeper(depth),
                expanded,
            ),
            JsonView::Object(entries) => entry_nodes(
                entries,
                entries.len(),
                path,
                deeper(depth),
                expanded,
            ),
            _ => Seq::empty(),
        }
    })
}

/// The key that the `i`-th item of an array is shown with.
pub open spec fn item_key(i: nat) -> Seq<char> {
    "["@ + decimal(i) + "]"@
}

/// The visible nodes of the first `n` items of an array.
pub open spec fn item_nodes(
    items: Seq<JsonView>,
    n: nat,
    path: Seq<char>,
    depth: usize,
    expanded: Set<Seq<char>>,
) -> Seq<NodeView>
    decreases items, n,
{
    if n == 0 || n > items.len() {
        Seq::empty()
    } else {
        let i = (n - 1) as nat;
        item_nodes(items, i, path, depth, expanded) + tree_nodes(
            items[i as int],
            path + item_key(i),
            Some(item_key(i)),
            depth,
            expanded,
        )
    }
}

/// The visible nodes of the first `n` entries of an object.
pub open spec fn entry_nodes(
    entries: Seq<JsonEntryView>,
    n: nat,
    path: Seq<char>,
    depth: usize,
    expanded: Set<Seq<char>>,
) -> Seq<NodeView>
    decreases entries, n,
{
    if n == 0 || n > entries.len() {
        Seq::empty()
    } else {
        let i = (n - 1) as nat;
        entry_nodes(entries, i, path, depth, expanded) + tree_nodes(
            entries[i as int].value,
            path + "."@ + entries[i as int].key,
            Some(entries[i as int].key),
            depth,
            expanded,
        )
    }
}

fn push_node(
    out: &mut Vec<JsonTreeNode>,
    value: &Json,
    path: &str,
    key: &Option<String>,
    depth: usize,
    expanded: &TextSet,
)
    ensures
        node_views(final(out)@) == node_views(old(out)@) + seq![
            head_node(value@, path@, opt_view(*key), depth, expanded@),
        ],
{
    let (value_preview, value_type, parts) = match value {
        Json::Null => ("null".to_string(), JsonValueType::Null, 0usize),
        Json::Bool(b) => (
            if *b {
                "true".to_string()
            } else {
                "false".to_string()
            },
            JsonValueType::Boolean,
            0usize,
        ),
        Json::Number(n) => (n.clone(), JsonValueType::Number, 0usize),
        Json::Text(s) => (concat3("\"", s.as_str(), "\""), JsonValueType::String, 0usize),
        Json::Array(items) => (
            concat3("Array (", decimal_text(items.len() as u64).as_str(), " items)"),
            JsonValueType::Array,
            items.len(),
        ),
        Json::Object(entries) => (
            concat3("Object (", decimal_text(entries.len() as u64).as_str(), " entries)"),
            JsonValueType::Object,
            entries.len(),
        ),
    };
    let folds = value_type == JsonValueType::Array || value_type == JsonValueType::Object;
    let node = JsonTreeNode {
        id: path.to_string(),
        path: path.to_string(),
        key: key.clone(),
        value_preview,
        value_type,
        depth,
        expandable: parts > 0,
        expanded: folds && expanded.contains(path),
        raw_value: Some(copy_json(value)),
    };
    assert(node@ == head_node(value@, path@, opt_view(*key), depth, expanded@));
    out.push(node);
    assert(node_views(out@) =~= node_views(old(out)@) + seq![node@]);
}

fn flatten_json_value(
    value: &Json,
    path: &str,
    key: &Option<String>,
    depth: usize,
    expanded: &TextSet,
    out: &mut Vec<JsonTreeNode>,
)
    ensures
        node_views(final(out)@) == node_views(old(out)@) + tree_nodes(
            value@,
            path@,
            opt_view(*key),
            depth,
            expanded@,
        ),
    decreases value,
{
    let ghost start = node_views(out@);
    push_node(out, value, path, key, depth, expanded);
    let ghost head = seq![head_node(value@, path@, opt_view(*key), depth, expanded@)];
    if !expanded.contains(path) {
        assert(start + (head + Seq::empty()) =~= node_views(out@));
        return ;
    }
    let below: usize = if depth < usize::MAX {
        depth + 1
    } else {
        depth
    };
    match value {
        Json::Array(items) => {
            let ghost all = value@->Array_0;
            assert(start + head =~= start + head + item_nodes(all, 0, path@, below, expanded@));
            for i in 0..items.len()
                invariant
                    *value == Json::Array(*items),
                    all == value@->Array_0,
                    node_views(out@) == start + head + item_nodes(
                        all,
                        i as nat,
                        path@,
                        below,
                        expanded@,
                    ),
            {
                let label = concat3("[", decimal_text(i as u64).as_str(), "]");
                let child_path = concat(path, label.as_str());
                let ghost before = node_views(out@);
                let child_key = Some(label);
                assert(decreases_to!(value => items@[i as int]));
                flatten_json_value(&items[i], child_path.as_str(), &child_key, below, expanded, out);
                assert(all[i as int] == items@[i as int]@);
                assert(node_views(out@) =~= start + head + item_nodes(
                    all,
                    (i + 1) as nat,
                    path@,
                    below,
                    expanded@,
                ));
            }
            assert(start + head + item_nodes(all, all.len(), path@, below, expanded@) =~= start + (
            head + item_nodes(all, all.len(), path@, below, expanded@)));
        },
        Json::Object(entries) => {
            let ghost all = value@->Object_0;
            assert(start + head =~= start + head + entry_nodes(all, 0, path@, below, expanded@));
            for i in 0..entries.len()
                invariant
                    *value == Json::Object(*entries),
                    all == value@->Object_0,
                    node_views(out@) == start + head + entry_nodes(
                        all,
                        i as nat,
                        path@,
                        below,
                        expanded@,
                    ),
            {
                let child_path = concat3(path, ".", entries[i].key.as_str());
                let child_key = Some(entries[i].key.clone());
                assert(all[i as int].key == entries@[i as int].key@);
                assert(decreases_to!(value => entries@[i as int].value));
                flatten_json_value(
                    &entries[i].value,
                    child_path.as_str(),
                    &child_key,
                    below,
                    expanded,
                    out,
                );
                assert(node_views(out@) =~= start + head + entry_nodes(
                    all,
                    (i + 1) as nat,
                    path@,
                    below,
                    expanded@,
                ));
            }
            assert(start + head + entry_nodes(all, all.len(), path@, below, expanded@) =~= start + (
            head + entry_nodes(all, all.len(), path@, below, expanded@)));
        },
        _ => {
            assert(start + (head + Seq::empty()) =~= node_views(out@));
        },
    }
}

/// The visible nodes of a JSON value, given the paths that are unfolded. The path of the value
/// itself is `$`.
pub fn flatten_json_tree(value: &Json, expanded_paths: &TextSet) -> (nodes: Vec<JsonTreeNode>)
    ensures
        node_views(nodes@) == tree_nodes(value@, "$"@, None, 0, expanded_paths@),
{
    let mut nodes: Vec<JsonTreeNode> = Vec::new();
    flatten_json_value(value, "$", &None, 0, expanded_paths, &mut nodes);
    assert(node_views(nodes@) =~= tree_nodes(value@, "$"@, None, 0, expanded_paths@));
    nodes
}

} // verus!
