//! The folding and the selection of a JSON tree.
use crate::text::{concat, same_text};
use crate::text_set::TextSet;
use crate::trajectory::json_tree::{
    flatten_json_tree, node_views, tree_nodes, Json, JsonTreeNode, JsonValueType, JsonView, NodeView,
};
use vstd::prelude::*;

verus! {

/// Which branches of a JSON tree are unfolded, which node is selected, and the nodes that were
/// last shown.
#[derive(Debug)]
pub struct JsonTreeState {
    pub expanded_paths: TextSet,
    pub selected_index: usize,
    pub flattened_nodes: Vec<JsonTreeNode>,
}

/// The contents of the state of a JSON tree.
#[verifier::ext_equal]
pub ghost struct JsonTreeStateView {
    pub expanded_paths: Set<Seq<char>>,
    pub selected_index: usize,
    pub nodes: Seq<NodeView>,
}

impl View for JsonTreeState {
    type V = JsonTreeStateView;

    open spec fn view(&self) -> JsonTreeStateView {
        JsonTreeStateView {
            expanded_paths: self.expanded_paths@,
            selected_index: self.selected_index,
            nodes: node_views(self.flattened_nodes@),
        }
    }
}

/// The state of a tree of which nothing was shown yet.
pub open spec fn fresh_tree() -> JsonTreeStateView {
    JsonTreeStateView { expanded_paths: Set::empty(), selected_index: 0, nodes: Seq::empty() }
}

/// The state after the visible nodes of `value` were worked out.
pub open spec fn tree_shown(s: JsonTreeStateView, value: JsonView) -> JsonTreeStateView {
    JsonTreeStateView { nodes: tree_nodes(value, "$"@, None, 0, s.expanded_paths), ..s }
}

/// A set of paths with one path folded where it was unfolded, and the other way round.
pub open spec fn flipped(paths: Set<Seq<char>>, path: Seq<char>) -> Set<Seq<char>> {
    if paths.contains(path) {
        paths.remove(path)
    } else {
        paths.insert(path)
    }
}

/// The state after a node was clicked: it is selected, and flipped where it has parts.
pub open spec fn node_activated(
    s: JsonTreeStateView,
    index: usize,
    path: Seq<char>,
    expandable: bool,
) -> JsonTreeStateView {
    JsonTreeStateView {
        selected_index: index,
        expanded_paths: if expandable {
            flipped(s.expanded_paths, path)
        } else {
            s.expanded_paths
        },
        ..s
    }
}

/// Tells whether a key moves the selection.
pub open spec fn is_step_key(key: Seq<char>) -> bool {
    key == "up"@ || key == "down"@ || key == "home"@ || key == "end"@
}

/// Tells whether a key folds or unfolds the selected node.
pub open spec fn is_fold_key(key: Seq<char>) -> bool {
    key == "left"@ || key == "right"@ || key == "enter"@ || key == "space"@
}

/// Tells whether a key folds a node that is now unfolded or not.
pub open spec fn key_folds(key: Seq<char>, expanded: bool) -> bool {
    key == "left"@ || ((key == "enter"@ || key == "space"@) && expanded)
}

/// The state after a key was pressed, and whether the key meant anything to the tree. `stepped`
/// is where the key moves the selection to, if it does.
pub open spec fn tree_key(
    s: JsonTreeStateView,
    key: Seq<char>,
    stepped: Option<usize>,
) -> (JsonTreeStateView, bool) {
    if is_step_key(key) {
        match stepped {
            Some(next) => (JsonTreeStateView { selected_index: next, ..s }, true),
            None => (s, false),
        }
    } else if is_fold_key(key) && s.selected_index < s.nodes.len()
        && s.nodes[s.selected_index as int].expandable {
        let node = s.nodes[s.selected_index as int];
        (
            JsonTreeStateView {
                expanded_paths: if key_folds(key, node.expanded) {
                    s.expanded_paths.remove(node.path)
                } else {
                    s.expanded_paths.insert(node.path)
                },
                ..s
            },
            true,
        )
    } else {
        (s, false)
    }
}

impl Default for JsonTreeState {
    /// The state of a tree of which nothing was shown yet.
    fn default() -> (r: Self)
        ensures
            r@ == fresh_tree(),
    {
        let r = JsonTreeState {
            expanded_paths: TextSet::new(),
            selected_index: 0,
            flattened_nodes: Vec::new(),
        };
        assert(r@ =~= fresh_tree());
        r
    }
}

impl JsonTreeState {
    /// Works the visible nodes of a value out.
    pub fn show(&mut self, value: &Json)
        ensures
            final(self)@ == tree_shown(old(self)@, value@),
    {
        self.flattened_nodes = flatten_json_tree(value, &self.expanded_paths);
    }

    /// Selects a node that was clicked, and flips it where it has parts.
    pub fn activate_json_tree_node(&mut self, index: usize, path: &str, expandable: bool)
        ensures
            final(self)@ == node_activated(old(self)@, index, path@, expandable),
    {
        self.selected_index = index;
        if expandable && !self.expanded_paths.remove(path) {
            self.expanded_paths.insert(path.to_string());
            assert(self.expanded_paths@ =~= old(self)@.expanded_paths.insert(path@));
        }
    }

    /// Answers a key. `stepped` is where the key moves the selection to, if it does.
    pub fn handle_json_tree_key(&mut self, key: &str, stepped: Option<usize>) -> (handled: bool)
        ensures
            (final(self)@, handled) == tree_key(old(self)@, key@, stepped),
    {
        if same_text(key, "up") || same_text(key, "down") || same_text(key, "home") || same_text(
            key,
            "end",
        ) {
            return match stepped {
                Some(next) => {
                    self.selected_index = next;
                    true
                },
                None => false,
            };
        }
        let left = same_text(key, "left");
        let toggle = same_text(key, "enter") || same_text(key, "space");
        if !left && !toggle && !same_text(key, "right") {
            return false;
        }
        let index: usize = self.selected_index;
        if index >= self.flattened_nodes.len() || !self.flattened_nodes[index].expandable {
            return false;
        }
        let path = self.flattened_nodes[index].path.clone();
        assert(path@ == self@.nodes[index as int].path);
        if left || (toggle && self.flattened_nodes[index].expanded) {
            let _ = self.expanded_paths.remove(path.as_str());
        } else {
            let _ = self.expanded_paths.insert(path);
        }
        true
    }
}

/// How the value of a node is coloured.
#[derive(Clone, Copy, Debug, PartialEq, Eq, Structural)]
pub enum JsonTone {
    Text,
    Secondary,
    Tertiary,
    Accent,
}

/// What a node looks like.
#[derive(Debug)]
pub struct JsonRowView {
    pub id: String,
    pub depth: usize,
    /// The mark before a node with parts.
    pub marker: Option<&'static str>,
    /// The key, with a colon behind it.
    pub key_label: Option<String>,
    pub value: String,
    pub tone: JsonTone,
    pub selected: bool,
}

/// The colour of a type of values.
pub open spec fn json_tone(t: JsonValueType) -> JsonTone {
    match t {
        JsonValueType::Object => JsonTone::Secondary,
        JsonValueType::Array => JsonTone::Secondary,
        JsonValueType::String => JsonTone::Text,
        JsonValueType::Number => JsonTone::Accent,
        JsonValueType::Boolean => JsonTone::Accent,
        JsonValueType::Null => JsonTone::Tertiary,
    }
}

/// Tells whether a row is what a node looks like.
pub open spec fn shows_node(row: JsonRowView, node: NodeView, selected: bool) -> bool {
    &&& row.id@ == "json-node-"@ + node.id
    &&& row.depth == node.depth
    &&& match row.marker {
        Some(mark) => node.expandable && mark@ == (if node.expanded {
            "▼"@
        } else {
            "▶"@
        }),
        None => !node.expandable,
    }
    &&& match (row.key_label, node.key) {
        (Some(label), Some(key)) => label@ == key + ": "@,
        (None, None) => true,
        _ => false,
    }
    &&& row.value@ == node.value_preview
    &&& row.tone == json_tone(node.value_type)
    &&& row.selected == selected
}

/// What the node at `index` looks like.
pub fn json_row(node: &JsonTreeNode, index: usize, selected_index: usize) -> (r: JsonRowView)
    ensures
        shows_node(r, node@, index == selected_index),
{
    JsonRowView {
        id: concat("json-node-", node.id.as_str()),
        depth: node.depth,
        marker: if !node.expandable {
            None
        } else if node.expanded {
            Some("▼")
        } else {
            Some("▶")
        },
        key_label: match &node.key {
            Some(key) => Some(concat(key.as_str(), ": ")),
            None => None,
        },
        value: node.value_preview.clone(),
        tone: match node.value_type {
            JsonValueType::Object => JsonTone::Secondary,
            JsonValueType::Array => JsonTone::Secondary,
            JsonValueType::String => JsonTone::Text,
            JsonValueType::Number => JsonTone::Accent,
            JsonValueType::Boolean => JsonTone::Accent,
            JsonValueType::Null => JsonTone::Tertiary,
        },
        selected: index == selected_index,
    }
}

/// Tells whether rows are what the visible nodes of a tree look like.
pub open spec fn shows_tree(rows: Seq<JsonRowView>, s: JsonTreeStateView) -> bool {
    &&& rows.len() == s.nodes.len()
    &&& forall|i: int|
        0 <= i < rows.len() ==> shows_node(
            #[trigger] rows[i],
            s.nodes[i],
            i == s.selected_index,
        )
}

impl JsonTreeState {
    /// Works the visible nodes of a value out, and what they look like.
    pub fn render_json_tree(&mut self, value: &Json) -> (r: Vec<JsonRowView>)
        ensures
            final(self)@ == tree_shown(old(self)@, value@),
            shows_tree(r@, final(self)@),
    {
        self.show(value);
        let mut r: Vec<JsonRowView> = Vec::new();
        for i in 0..self.flattened_nodes.len()
            invariant
                r@.len() == i,
                forall|k: int|
                    0 <= k < i ==> shows_node(
                        #[trigger] r@[k],
                        self.flattened_nodes@[k]@,
                        k == self.selected_index,
                    ),
        {
            r.push(json_row(&self.flattened_nodes[i], i, self.selected_index));
        }
        r
    }
}

/// Clicking a node twice leaves the same branches unfolded.
pub proof fn activating_twice_folds_back(
    s: JsonTreeStateView,
    index: usize,
    path: Seq<char>,
    expandable: bool,
)
    ensures
        node_activated(node_activated(s, index, path, expandable), index, path, expandable)
            =~= (JsonTreeStateView { selected_index: index, ..s }),
{
    assert(s.expanded_paths.contains(path) ==> s.expanded_paths.remove(path).insert(path)
        =~= s.expanded_paths);
    assert(!s.expanded_paths.contains(path) ==> s.expanded_paths.insert(path).remove(path)
        =~= s.expanded_paths);
}

/// A tree with its root folded shows its root and nothing else.
pub proof fn folded_root_stands_alone(s: JsonTreeStateView, value: JsonView)
    requires
        !s.expanded_paths.contains("$"@),
    ensures
        tree_shown(s, value).nodes.len() == 1,
        tree_shown(s, value).nodes[0].path == "$"@,
        tree_shown(s, value).nodes[0].raw_value == Some(value),
        !tree_shown(s, value).nodes[0].expanded,
{
}

} // verus!
