//! What a tree of a JSON value promises: every part of an unfolded value has its node below it, and what is folded
//! hides its parts.
use crate::text::{decimal, opt_view};
use crate::text_set::TextSet;
use crate::trajectory::json_tree::{
    deeper, entry_nodes, flatten_json_tree, head_node, item_key, item_nodes, node_views,
    tree_nodes, Json, JsonEntryView, JsonTreeNode, JsonView, NodeView,
};
use crate::trajectory::json_tree_state::{JsonRowView, JsonTreeState};
use vstd::prelude::*;

verus! {

/// Tells whether a node is that of one part of the value of another: it has the part's key and value, its path goes
/// on from there, and it stands one deeper.
#[verifier::opaque]
pub open spec fn is_part(parent: NodeView, child: NodeView, i: int) -> bool {
    &&& parent.raw_value is Some
    &&& match parent.raw_value->0 {
        JsonView::Array(items) => {
            let key = "["@ + decimal(i as nat) + "]"@;
            &&& 0 <= i < items.len()
            &&& child.raw_value == Some(items[i])
            &&& child.key == Some(key)
            &&& child.path == parent.path + key
        },
        JsonView::Object(entries) => {
            &&& 0 <= i < entries.len()
            &&& child.raw_value == Some(entries[i].value)
            &&& child.key == Some(entries[i].key)
            &&& child.path == parent.path + "."@ + entries[i].key
        },
        _ => false,
    }
    &&& parent.depth < usize::MAX ==> child.depth == parent.depth + 1
}

/// How many parts a value has.
pub open spec fn parts_of(v: JsonView) -> int {
    match v {
        JsonView::Array(items) => items.len() as int,
        JsonView::Object(entries) => entries.len() as int,
        _ => 0,
    }
}

/// Tells whether a node says what its value is, and whether it is unfolded.
#[verifier::opaque]
pub open spec fn says_what_it_is(node: NodeView, unfolded: Set<Seq<char>>) -> bool {
    &&& node.raw_value is Some
    &&& node.id == node.path
    &&& node.expandable <==> parts_of(node.raw_value->0) > 0
    &&& node.expandable ==> (node.expanded <==> unfolded.contains(node.path))
    &&& match node.raw_value->0 {
        JsonView::Null => node.value_type is Null && node.value_preview == "null"@,
        JsonView::Bool(b) => node.value_type is Boolean && (b ==> node.value_preview == "true"@) && (
        !b ==> node.value_preview == "false"@),
        JsonView::Number(n) => node.value_type is Number && node.value_preview == n,
        JsonView::Text(s) => node.value_type is String && node.value_preview == "\""@ + s + "\""@,
        JsonView::Array(items) => node.value_type is Array && node.value_preview == "Array ("@
            + decimal(items.len()) + " items)"@,
        JsonView::Object(entries) => node.value_type is Object && node.value_preview
            == "Object ("@ + decimal(entries.len()) + " entries)"@,
    }
}

spec fn has_part(nodes: Seq<NodeView>, root: NodeView, from: int, i: int) -> bool {
    exists|k: int| from <= k < nodes.len() && #[trigger] is_part(root, nodes[k], i)
}

spec fn has_parent(nodes: Seq<NodeView>, k: int, root: NodeView, n: int) -> bool {
    ||| exists|i: int| 0 <= i < n && #[trigger] is_part(root, nodes[k], i)
    ||| exists|j: int, i: int|
        0 <= j < k && nodes[j].expanded && #[trigger] is_part(nodes[j], nodes[k], i)
}

spec fn grows_from(nodes: Seq<NodeView>, root: NodeView, n: int, unfolded: Set<Seq<char>>) -> bool {
    &&& forall|k: int| 0 <= k < nodes.len() ==> says_what_it_is(#[trigger] nodes[k], unfolded)
    &&& forall|k: int| 0 <= k < nodes.len() ==> #[trigger] has_parent(nodes, k, root, n)
    &&& forall|i: int| 0 <= i < n ==> #[trigger] has_part(nodes, root, 0, i)
    &&& forall|j: int, i: int|
        0 <= j < nodes.len() && nodes[j].expanded && 0 <= i < parts_of(nodes[j].raw_value->0)
            ==> #[trigger] has_part(nodes, nodes[j], j + 1, i)
}

proof fn grows_on(
    a: Seq<NodeView>,
    b: Seq<NodeView>,
    root: NodeView,
    n: int,
    unfolded: Set<Seq<char>>,
)
    requires
        0 <= n,
        grows_from(a, root, n, unfolded),
        b.len() > 0,
        is_part(root, b[0], n),
        says_what_it_is(b[0], unfolded),
        b[0].expanded ==> grows_from(b.skip(1), b[0], parts_of(b[0].raw_value->0), unfolded),
        !b[0].expanded ==> b.len() == 1,
    ensures
        grows_from(a + b, root, n + 1, unfolded),
{
    let all = a + b;
    let m = a.len() as int;
    let rest = b.skip(1);
    assert forall|k: int| 0 <= k < all.len() implies says_what_it_is(#[trigger] all[k], unfolded) by {
        if k < m {
            assert(all[k] == a[k]);
        } else if k > m {
            assert(all[k] == rest[k - m - 1]);
        }
    }
    assert forall|k: int| 0 <= k < all.len() implies #[trigger] has_parent(
        all,
        k,
        root,
        n + 1,
    ) by {
        if k < m {
            assert(has_parent(a, k, root, n));
            assert(all[k] == a[k]);
            if exists|i: int| 0 <= i < n && #[trigger] is_part(root, a[k], i) {
                let i = choose|i: int| 0 <= i < n && #[trigger] is_part(root, a[k], i);
                assert(is_part(root, all[k], i));
            } else {
                let (j, i) = choose|j: int, i: int|
                    0 <= j < k && a[j].expanded && #[trigger] is_part(a[j], a[k], i);
                assert(all[j] == a[j]);
                assert(is_part(all[j], all[k], i));
            }
        } else if k == m {
            assert(all[k] == b[0]);
            assert(is_part(root, all[k], n));
        } else {
            let t = k - m - 1;
            let parts = parts_of(b[0].raw_value->0);
            assert(all[k] == rest[t]);
            assert(all[m] == b[0]);
            assert(has_parent(rest, t, b[0], parts));
            if exists|i: int| 0 <= i < parts && #[trigger] is_part(b[0], rest[t], i) {
                let i = choose|i: int| 0 <= i < parts && #[trigger] is_part(b[0], rest[t], i);
                assert(is_part(all[m], all[k], i));
            } else {
                let (j, i) = choose|j: int, i: int|
                    0 <= j < t && rest[j].expanded && #[trigger] is_part(rest[j], rest[t], i);
                assert(all[m + 1 + j] == rest[j]);
                assert(is_part(all[m + 1 + j], all[k], i));
            }
        }
    }
    assert forall|i: int| 0 <= i < n + 1 implies #[trigger] has_part(all, root, 0, i) by {
        if i < n {
            assert(has_part(a, root, 0, i));
            let k = choose|k: int| 0 <= k < a.len() && #[trigger] is_part(root, a[k], i);
            assert(is_part(root, all[k], i));
        } else {
            assert(is_part(root, all[m], i));
        }
    }
    assert forall|j: int, i: int|
        0 <= j < all.len() && all[j].expanded && 0 <= i < parts_of(
            all[j].raw_value->0,
        ) implies #[trigger] has_part(all, all[j], j + 1, i) by {
        if j < m {
            assert(all[j] == a[j]);
            assert(has_part(a, a[j], j + 1, i));
            let k = choose|k: int| j + 1 <= k < a.len() && #[trigger] is_part(a[j], a[k], i);
            assert(is_part(all[j], all[k], i));
        } else if j == m {
            assert(all[j] == b[0]);
            assert(has_part(rest, b[0], 0, i));
            let k = choose|k: int| 0 <= k < rest.len() && #[trigger] is_part(b[0], rest[k], i);
            assert(all[m + 1 + k] == rest[k]);
            assert(is_part(all[j], all[m + 1 + k], i));
        } else {
            let t = j - m - 1;
            assert(all[j] == rest[t]);
            assert(has_part(rest, rest[t], t + 1, i));
            let k = choose|k: int| t + 1 <= k < rest.len() && #[trigger] is_part(rest[t], rest[k], i);
            assert(all[m + 1 + k] == rest[k]);
            assert(is_part(all[j], all[m + 1 + k], i));
        }
    }
}

proof fn tree_grows(
    v: JsonView,
    path: Seq<char>,
    key: Option<Seq<char>>,
    depth: usize,
    unfolded: Set<Seq<char>>,
)
    ensures
        ({
            let nodes = tree_nodes(v, path, key, depth, unfolded);
            &&& nodes.len() > 0
            &&& nodes[0] == head_node(v, path, key, depth, unfolded)
            &&& says_what_it_is(nodes[0], unfolded)
            &&& nodes[0].expanded ==> grows_from(
                nodes.skip(1),
                nodes[0],
                parts_of(v),
                unfolded,
            )
            &&& !nodes[0].expanded ==> nodes.len() == 1
        }),
    decreases v, 0nat,
{
    reveal(says_what_it_is);
    let nodes = tree_nodes(v, path, key, depth, unfolded);
    let head = head_node(v, path, key, depth, unfolded);
    assert(nodes[0] == head);
    if head.expanded {
        match v {
            JsonView::Array(items) => {
                items_grow(items, items.len(), head, unfolded);
                assert(nodes.skip(1) =~= item_nodes(
                    items,
                    items.len(),
                    path,
                    deeper(depth),
                    unfolded,
                ));
            },
            JsonView::Object(entries) => {
                entries_grow(entries, entries.len(), head, unfolded);
                assert(nodes.skip(1) =~= entry_nodes(
                    entries,
                    entries.len(),
                    path,
                    deeper(depth),
                    unfolded,
                ));
            },
            _ => {},
        }
    }
}

proof fn items_grow(items: Seq<JsonView>, n: nat, root: NodeView, unfolded: Set<Seq<char>>)
    requires
        n <= items.len(),
        root.raw_value == Some(JsonView::Array(items)),
    ensures
        grows_from(
            item_nodes(items, n, root.path, deeper(root.depth), unfolded),
            root,
            n as int,
            unfolded,
        ),
    decreases items, n,
{
    if n > 0 {
        reveal(is_part);
        reveal(says_what_it_is);
        let i = (n - 1) as nat;
        items_grow(items, i, root, unfolded);
        tree_grows(
            items[i as int],
            root.path + item_key(i),
            Some(item_key(i)),
            deeper(root.depth),
            unfolded,
        );
        grows_on(
            item_nodes(items, i, root.path, deeper(root.depth), unfolded),
            tree_nodes(
                items[i as int],
                root.path + item_key(i),
                Some(item_key(i)),
                deeper(root.depth),
                unfolded,
            ),
            root,
            i as int,
            unfolded,
        );
    }
}

proof fn entries_grow(
    entries: Seq<JsonEntryView>,
    n: nat,
    root: NodeView,
    unfolded: Set<Seq<char>>,
)
    requires
        n <= entries.len(),
        root.raw_value == Some(JsonView::Object(entries)),
    ensures
        grows_from(
            entry_nodes(entries, n, root.path, deeper(root.depth), unfolded),
            root,
            n as int,
            unfolded,
        ),
    decreases entries, n,
{
    if n > 0 {
        reveal(is_part);
        reveal(says_what_it_is);
        let i = (n - 1) as nat;
        let e = entries[i as int];
        entries_grow(entries, i, root, unfolded);
        tree_grows(e.value, root.path + "."@ + e.key, Some(e.key), deeper(root.depth), unfolded);
        grows_on(
            entry_nodes(entries, i, root.path, deeper(root.depth), unfolded),
            tree_nodes(
                e.value,
                root.path + "."@ + e.key,
                Some(e.key),
                deeper(root.depth),
                unfolded,
            ),
            root,
            i as int,
            unfolded,
        );
    }
}

/// The tree begins with the whole value. Every other node is a part of an unfolded node above it, every part of an
/// unfolded node has a node below it, and every node says what its value is.
pub proof fn unfolded_values_show_their_parts(
    value: &Json,
    unfolded: &TextSet,
    nodes: Vec<JsonTreeNode>,
    k: int,
    i: int,
)
    requires
        call_ensures(flatten_json_tree, (value, unfolded), nodes),
    ensures
        nodes@.len() > 0,
        nodes@[0]@.raw_value == Some(value@),
        nodes@[0].path@ == "$"@,
        nodes@[0].key is None,
        nodes@[0].depth == 0,
        0 <= k < nodes@.len() ==> says_what_it_is(nodes@[k]@, unfolded@),
        0 < k < nodes@.len() ==> exists|j: int, p: int|
            0 <= j < k && nodes@[j].expanded && #[trigger] is_part(nodes@[j]@, nodes@[k]@, p),
        0 <= k < nodes@.len() && nodes@[k].expanded && 0 <= i < parts_of(
            nodes@[k]@.raw_value->0,
        ) ==> exists|j: int|
            k < j < nodes@.len() && #[trigger] is_part(nodes@[k]@, nodes@[j]@, i),
{
    let v = node_views(nodes@);
    let rest = v.skip(1);
    assert(v == tree_nodes(value@, "$"@, None, 0, unfolded@));
    assert(v.len() == nodes@.len());
    assert forall|m: int| 0 <= m < v.len() implies #[trigger] v[m] == nodes@[m]@ by {}
    tree_grows(value@, "$"@, None, 0, unfolded@);
    assert(v[0] == nodes@[0]@);
    assert(opt_view(nodes@[0].key) is None <==> nodes@[0].key is None);
    if 0 < k < nodes@.len() {
        let t = k - 1;
        assert(rest[t] == v[k] && v[k] == nodes@[k]@);
        assert(has_parent(rest, t, v[0], parts_of(value@)));
        if exists|p: int| 0 <= p < parts_of(value@) && #[trigger] is_part(v[0], rest[t], p) {
            let p = choose|p: int| 0 <= p < parts_of(value@) && #[trigger] is_part(v[0], rest[t], p);
            assert(nodes@[0].expanded);
            assert(is_part(nodes@[0]@, nodes@[k]@, p));
        } else {
            let (j, p) = choose|j: int, p: int|
                0 <= j < t && rest[j].expanded && #[trigger] is_part(rest[j], rest[t], p);
            assert(rest[j] == v[j + 1] && v[j + 1] == nodes@[j + 1]@);
            assert(nodes@[j + 1].expanded);
            assert(is_part(nodes@[j + 1]@, nodes@[k]@, p));
        }
    }
    if 0 <= k < nodes@.len() && nodes@[k].expanded && 0 <= i < parts_of(nodes@[k]@.raw_value->0) {
        assert(v[k] == nodes@[k]@);
        if k == 0 {
            assert(has_part(rest, v[0], 0, i));
            let j = choose|j: int| 0 <= j < rest.len() && #[trigger] is_part(v[0], rest[j], i);
            assert(rest[j] == v[j + 1] && v[j + 1] == nodes@[j + 1]@);
            assert(is_part(nodes@[k]@, nodes@[j + 1]@, i));
        } else {
            let t = k - 1;
            assert(rest[t] == v[k]);
            assert(rest[t].expanded);
            assert(has_part(rest, rest[t], t + 1, i));
            let j = choose|j: int| t + 1 <= j < rest.len() && #[trigger] is_part(rest[t], rest[j], i);
            assert(rest[j] == v[j + 1] && v[j + 1] == nodes@[j + 1]@);
            assert(is_part(nodes@[k]@, nodes@[j + 1]@, i));
        }
    }
}

proof fn folded_stands_alone(
    v: JsonView,
    path: Seq<char>,
    key: Option<Seq<char>>,
    depth: usize,
    unfolded: Set<Seq<char>>,
)
    requires
        !unfolded.contains(path),
    ensures
        tree_nodes(v, path, key, depth, unfolded) == seq![
            head_node(v, path, key, depth, unfolded),
        ],
{
    assert(tree_nodes(v, path, key, depth, unfolded) =~= seq![
        head_node(v, path, key, depth, unfolded),
    ]);
}

proof fn folded_items(
    items: Seq<JsonView>,
    n: nat,
    path: Seq<char>,
    depth: usize,
    unfolded: Set<Seq<char>>,
)
    requires
        n <= items.len(),
        forall|i: int|
            0 <= i < n ==> !unfolded.contains(path + #[trigger] item_key(i as nat)),
    ensures
        item_nodes(items, n, path, depth, unfolded).len() == n,
        forall|i: int|
            0 <= i < n ==> (#[trigger] item_nodes(items, n, path, depth, unfolded)[i]).raw_value
                == Some(items[i]),
    decreases n,
{
    if n > 0 {
        let m = (n - 1) as nat;
        folded_items(items, m, path, depth, unfolded);
        let at = path + item_key(m);
        assert(!unfolded.contains(at));
        folded_stands_alone(items[m as int], at, Some(item_key(m)), depth, unfolded);
    }
}

proof fn folded_entries(
    entries: Seq<JsonEntryView>,
    n: nat,
    path: Seq<char>,
    depth: usize,
    unfolded: Set<Seq<char>>,
)
    requires
        n <= entries.len(),
        forall|i: int|
            0 <= i < n ==> !unfolded.contains(path + "."@ + (#[trigger] entries[i]).key),
    ensures
        entry_nodes(entries, n, path, depth, unfolded).len() == n,
        forall|i: int|
            0 <= i < n ==> (#[trigger] entry_nodes(entries, n, path, depth, unfolded)[i]).raw_value
                == Some(entries[i].value) && entry_nodes(entries, n, path, depth, unfolded)[i].key
                == Some(entries[i].key),
    decreases n,
{
    if n > 0 {
        let m = (n - 1) as nat;
        folded_entries(entries, m, path, depth, unfolded);
        let e = entries[m as int];
        let at = path + "."@ + e.key;
        assert(!unfolded.contains(at));
        folded_stands_alone(e.value, at, Some(e.key), depth, unfolded);
    }
}

/// The parts of a value come in their order, and nothing comes between them while they are folded.
pub proof fn parts_come_in_their_order(
    value: &Json,
    unfolded: &TextSet,
    nodes: Vec<JsonTreeNode>,
    i: int,
)
    requires
        call_ensures(flatten_json_tree, (value, unfolded), nodes),
        unfolded@.contains("$"@),
        forall|path: Seq<char>| #[trigger] unfolded@.contains(path) ==> path == "$"@,
    ensures
        *value matches Json::Array(items) ==> nodes@.len() == items@.len() + 1 && (0 <= i
            < items@.len() ==> nodes@[i + 1]@.raw_value == Some(items@[i]@)),
        *value matches Json::Object(entries) ==> nodes@.len() == entries@.len() + 1 && (0 <= i
            < entries@.len() ==> nodes@[i + 1]@.raw_value == Some(entries@[i].value@) && nodes@[i
            + 1]@.key == Some(entries@[i].key@)),
        !(*value is Array) && !(*value is Object) ==> nodes@.len() == 1,
{
    let v = node_views(nodes@);
    assert(v == tree_nodes(value@, "$"@, None, 0, unfolded@));
    assert(v.len() == nodes@.len());
    reveal_strlit("$");
    reveal_strlit(".");
    reveal_strlit("[");
    match *value {
        Json::Array(items) => {
            let parts = value@->Array_0;
            assert(parts.len() == items@.len());
            assert forall|k: int| 0 <= k < parts.len() implies !unfolded@.contains(
                "$"@ + #[trigger] item_key(k as nat),
            ) by {
                assert(("$"@ + item_key(k as nat)).len() > 1);
            }
            folded_items(parts, parts.len(), "$"@, 1, unfolded@);
            if 0 <= i < items@.len() {
                assert(v[i + 1] == item_nodes(parts, parts.len(), "$"@, 1, unfolded@)[i]);
                assert(v[i + 1] == nodes@[i + 1]@);
                assert(parts[i] == items@[i]@);
            }
        },
        Json::Object(entries) => {
            let parts = value@->Object_0;
            assert(parts.len() == entries@.len());
            assert forall|k: int| 0 <= k < parts.len() implies !unfolded@.contains(
                "$"@ + "."@ + (#[trigger] parts[k]).key,
            ) by {
                assert(("$"@ + "."@ + parts[k].key).len() > 1);
            }
            folded_entries(parts, parts.len(), "$"@, 1, unfolded@);
            if 0 <= i < entries@.len() {
                assert(v[i + 1] == entry_nodes(parts, parts.len(), "$"@, 1, unfolded@)[i]);
                assert(v[i + 1] == nodes@[i + 1]@);
                assert(parts[i].value == entries@[i].value@ && parts[i].key == entries@[i].key@);
            }
        },
        _ => {},
    }
}

/// A node that is activated is selected and turned over, if it has parts; no other node is.
pub proof fn activating_turns_a_node_over(
    s: &mut JsonTreeState,
    index: usize,
    path: &str,
    expandable: bool,
    other: Seq<char>,
)
    requires
        call_ensures(JsonTreeState::activate_json_tree_node, (s, index, path, expandable), ()),
    ensures
        final(s).selected_index == index,
        expandable ==> (final(s).expanded_paths@.contains(path@) <==> !old(
            s,
        ).expanded_paths@.contains(path@)),
        !expandable || other != path@ ==> (final(s).expanded_paths@.contains(other) <==> old(
            s,
        ).expanded_paths@.contains(other)),
{
    assert(final(s)@.expanded_paths == final(s).expanded_paths@);
    assert(old(s)@.expanded_paths == old(s).expanded_paths@);
    assert(final(s)@.selected_index == final(s).selected_index);
}

/// The left arrow folds the selected node and the right arrow unfolds it; the enter key and the space bar turn it
/// over. Other nodes stay, and a node without parts answers to none of these.
pub proof fn keys_fold_the_selected_node(
    s: &mut JsonTreeState,
    key: &str,
    stepped: Option<usize>,
    r: bool,
    other: Seq<char>,
)
    requires
        call_ensures(JsonTreeState::handle_json_tree_key, (s, key, stepped), r),
        key@ == "left"@ || key@ == "right"@ || key@ == "enter"@ || key@ == "space"@,
    ensures
        ({
            let i = old(s).selected_index as int;
            let nodes = old(s).flattened_nodes@;
            let can = i < nodes.len() && nodes[i].expandable;
            let path = nodes[i].path@;
            &&& r <==> can
            &&& !can ==> final(s)@ == old(s)@
            &&& can ==> {
                &&& key@ == "left"@ ==> !final(s).expanded_paths@.contains(path)
                &&& key@ == "right"@ ==> final(s).expanded_paths@.contains(path)
                &&& key@ == "enter"@ || key@ == "space"@ ==> (final(s).expanded_paths@.contains(
                    path,
                ) <==> !nodes[i].expanded)
                &&& other != path ==> (final(s).expanded_paths@.contains(other) <==> old(
                    s,
                ).expanded_paths@.contains(other))
                &&& final(s).selected_index == old(s).selected_index
            }
        }),
{
    let nodes = old(s).flattened_nodes@;
    let i = old(s).selected_index as int;
    assert(old(s)@.nodes == node_views(nodes));
    assert(node_views(nodes).len() == nodes.len());
    assert(final(s)@.expanded_paths == final(s).expanded_paths@);
    assert(old(s)@.expanded_paths == old(s).expanded_paths@);
    if i < nodes.len() {
        assert(node_views(nodes)[i] == nodes[i]@);
    }
    reveal_strlit("left");
    reveal_strlit("right");
    reveal_strlit("enter");
    reveal_strlit("space");
    reveal_strlit("up");
    reveal_strlit("down");
    reveal_strlit("home");
    reveal_strlit("end");
    assert("left"@[0] == 'l' && "right"@[0] == 'r' && "enter"@[0] == 'e' && "space"@[0] == 's');
    assert("up"@[0] == 'u' && "down"@[0] == 'd' && "home"@[0] == 'h' && "end"@.len() == 3
        && "enter"@.len() == 5);
}

/// A key that moves the selection selects what it leads to, and folds nothing.
pub proof fn keys_move_the_selection(
    s: &mut JsonTreeState,
    key: &str,
    stepped: Option<usize>,
    r: bool,
)
    requires
        call_ensures(JsonTreeState::handle_json_tree_key, (s, key, stepped), r),
        key@ == "up"@ || key@ == "down"@ || key@ == "home"@ || key@ == "end"@,
    ensures
        r <==> stepped is Some,
        stepped matches Some(next) ==> final(s).selected_index == next,
        stepped is None ==> final(s).selected_index == old(s).selected_index,
        final(s).expanded_paths@ == old(s).expanded_paths@,
{
    assert(final(s)@.expanded_paths == final(s).expanded_paths@);
    assert(old(s)@.expanded_paths == old(s).expanded_paths@);
    assert(final(s)@.selected_index == final(s).selected_index);
    assert(old(s)@.selected_index == old(s).selected_index);
}

/// The rows show the nodes in their order: how deep, under which key, with what value, folded or not; and the
/// selected one is marked.
pub proof fn rows_show_the_nodes(
    s: &mut JsonTreeState,
    value: &Json,
    rows: Vec<JsonRowView>,
    i: int,
)
    requires
        call_ensures(JsonTreeState::render_json_tree, (s, value), rows),
        0 <= i < rows@.len(),
    ensures
        rows@.len() == final(s).flattened_nodes@.len(),
        ({
            let node = final(s).flattened_nodes@[i];
            &&& rows@[i].depth == node.depth
            &&& rows@[i].value@ == node.value_preview@
            &&& rows@[i].selected <==> i == final(s).selected_index
            &&& rows@[i].marker is Some <==> node.expandable
            &&& rows@[i].marker is Some ==> (rows@[i].marker->0)@ == (if node.expanded {
                "▼"@
            } else {
                "▶"@
            })
            &&& rows@[i].key_label is Some <==> node.key is Some
            &&& node.key is Some ==> (rows@[i].key_label->0)@ == (node.key->0)@ + ": "@
            &&& rows@[i].tone is Text <==> node.value_type is String
            &&& rows@[i].tone is Accent <==> node.value_type is Number || node.value_type is Boolean
            &&& rows@[i].tone is Tertiary <==> node.value_type is Null
        }),
        final(s).expanded_paths@ == old(s).expanded_paths@,
        final(s).selected_index == old(s).selected_index,
{
    let nodes = final(s).flattened_nodes@;
    assert(final(s)@.nodes == node_views(nodes));
    assert(node_views(nodes).len() == nodes.len());
    assert(node_views(nodes)[i] == nodes[i]@);
    assert(crate::trajectory::json_tree_state::shows_node(
        rows@[i],
        final(s)@.nodes[i],
        i == final(s)@.selected_index,
    ));
    assert(opt_view(nodes[i].key) is Some <==> nodes[i].key is Some);
    assert(final(s)@.expanded_paths == final(s).expanded_paths@);
    assert(old(s)@.expanded_paths == old(s).expanded_paths@);
}

} // verus!
