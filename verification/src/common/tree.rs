use std::collections::HashMap;
use vstd::prelude::*;
use vstd::set_lib::lemma_len_subset;

verus! {

broadcast use vstd::std_specs::hash::group_hash_axioms;

/// A node of a tree of named things, with its subtrees in order.
#[derive(Debug)]
pub struct TreeNode {
    pub id: i64,
    pub name: String,
    pub children: Vec<TreeNode>,
}

/// One row of the table that a tree is built from: an id, a name, and the
/// id of the parent, where there is one.
pub type Row = (i64, String, Option<i64>);

/// The mathematical value of a [`TreeNode`].
pub struct Tree {
    pub id: int,
    pub name: Seq<char>,
    pub children: Seq<Tree>,
}

impl TreeNode {
    /// The value of this node: its id and name, and the values of its
    /// subtrees in order.
    pub open spec fn tree(self) -> Tree
        decreases self, 0nat,
    {
        Tree { id: self.id as int, name: self.name@, children: forest_view(self.children@) }
    }
}

/// The values of a list of nodes.
pub open spec fn forest_view(nodes: Seq<TreeNode>) -> Seq<Tree>
    decreases nodes, 1nat,
{
    if nodes.len() == 0 {
        Seq::empty()
    } else {
        forest_view(nodes.drop_last()).push(nodes.last().tree())
    }
}

impl View for TreeNode {
    type V = Tree;

    open spec fn view(&self) -> Tree {
        self.tree()
    }
}

/// Adding a node at the end adds its value at the end.
pub proof fn lemma_forest_view_push(nodes: Seq<TreeNode>, node: TreeNode)
    ensures
        forest_view(nodes.push(node)) == forest_view(nodes).push(node@),
{
    assert(nodes.push(node).drop_last() =~= nodes);
}

/// The tree below the row with `id` and `name`, where `path` holds the ids
/// from the root down to its parent: the row's children are the rows that
/// name `id` as their parent, in the order of the table, each with its own
/// tree. There is none where `id` stands on `path` already, which is a
/// cycle, nor where any tree below has none. (A path that has used up the
/// table cannot go on either: such a path holds every id.)
pub open spec fn subtree(rows: Seq<Row>, id: i64, name: Seq<char>, path: Seq<i64>) -> Option<Tree>
    decreases rows.len() - path.len(), 0nat,
{
    if path.contains(id) || path.len() >= rows.len() {
        None
    } else {
        match forest(rows, Some(id), rows.len(), path.push(id)) {
            Some(children) => Some(Tree { id: id as int, name, children }),
            None => None,
        }
    }
}

/// The trees of those among the first `upto` rows whose parent is `parent`,
/// in the order of the table. There is none where any of these rows has no
/// tree.
pub open spec fn forest(rows: Seq<Row>, parent: Option<i64>, upto: nat, path: Seq<i64>) -> Option<
    Seq<Tree>,
>
    decreases rows.len() - path.len(), upto + 1,
{
    if upto == 0 || upto > rows.len() {
        Some(Seq::empty())
    } else {
        let row = rows[upto - 1];
        match forest(rows, parent, (upto - 1) as nat, path) {
            None => None,
            Some(before) => if row.2 != parent {
                Some(before)
            } else {
                match subtree(rows, row.0, row.1@, path) {
                    Some(tree) => Some(before.push(tree)),
                    None => None,
                }
            },
        }
    }
}

/// The trees that a table stands for: those of the rows without a parent,
/// in the order of the table. An empty table has none, nor has one without
/// such a row, nor one in which an id comes up a second time on the way
/// down from a root.
pub open spec fn tree_of(rows: Seq<Row>) -> Option<Seq<Tree>> {
    match forest(rows, None, rows.len(), Seq::empty()) {
        Some(roots) => if roots.len() == 0 {
            None
        } else {
            Some(roots)
        },
        None => None,
    }
}

/// Among the first `upto` rows of a table in which every row names a
/// parent there is no root.
proof fn lemma_no_roots_upto(rows: Seq<Row>, upto: nat)
    requires
        forall|i: int| 0 <= i < rows.len() ==> (#[trigger] rows[i]).2 is Some,
    ensures
        forest(rows, None, upto, Seq::empty()) == Some(Seq::<Tree>::empty()),
    decreases upto,
{
    if upto > 0 && upto <= rows.len() {
        lemma_no_roots_upto(rows, (upto - 1) as nat);
        assert(rows[upto - 1].2 is Some);
    }
}

/// In a table in which every row names a parent, no row is a root: the
/// table has no tree.
pub proof fn lemma_no_roots(rows: Seq<Row>)
    requires
        forall|i: int| 0 <= i < rows.len() ==> (#[trigger] rows[i]).2 is Some,
    ensures
        tree_of(rows) is None,
{
    lemma_no_roots_upto(rows, rows.len());
}

/// The table has a row with this id.
spec fn known_id(rows: Seq<Row>, id: i64) -> bool {
    exists|k: int| 0 <= k < rows.len() && #[trigger] rows[k].0 == id
}

/// `path` holds ids of rows of the table, none of them twice.
spec fn path_in(rows: Seq<Row>, path: Seq<i64>) -> bool {
    &&& path.no_duplicates()
    &&& forall|i: int| 0 <= i < path.len() ==> known_id(rows, #[trigger] path[i])
}

/// A path through a table is no longer than the table.
proof fn lemma_path_bounded(rows: Seq<Row>, path: Seq<i64>)
    requires
        path_in(rows, path),
    ensures
        path.len() <= rows.len(),
{
    let ids = Seq::new(rows.len(), |k: int| rows[k].0);
    path.unique_seq_to_set();
    ids.lemma_cardinality_of_set();
    assert forall|x: i64| path.to_set().contains(x) implies ids.to_set().contains(x) by {
        let i = choose|i: int| 0 <= i < path.len() && path[i] == x;
        assert(known_id(rows, path[i]));
        let k = choose|k: int| 0 <= k < rows.len() && #[trigger] rows[k].0 == path[i];
        assert(ids[k] == x);
    }
    lemma_len_subset(path.to_set(), ids.to_set());
}

/// Once a row among the first `upto` has no tree, the whole table has none
/// for that parent.
proof fn lemma_forest_stays_none(
    rows: Seq<Row>,
    parent: Option<i64>,
    upto: nat,
    whole: nat,
    path: Seq<i64>,
)
    requires
        upto <= whole <= rows.len(),
        forest(rows, parent, upto, path) is None,
    ensures
        forest(rows, parent, whole, path) is None,
    decreases whole - upto,
{
    if upto < whole {
        lemma_forest_stays_none(rows, parent, upto, (whole - 1) as nat, path);
    }
}

/// The places in the table, in order, of those among the first `upto` rows
/// whose parent is `parent`.
spec fn children_at(rows: Seq<Row>, parent: i64, upto: nat) -> Seq<usize>
    decreases upto,
{
    if upto == 0 || upto > rows.len() {
        Seq::empty()
    } else {
        let before = children_at(rows, parent, (upto - 1) as nat);
        if rows[upto - 1].2 == Some(parent) {
            before.push((upto - 1) as usize)
        } else {
            before
        }
    }
}

/// `index` holds, for every id that the first `upto` rows name as a
/// parent, the places of the rows that name it, and nothing else.
spec fn indexes(index: Map<i64, Vec<usize>>, rows: Seq<Row>, upto: nat) -> bool {
    forall|parent: i64|
        if (#[trigger] children_at(rows, parent, upto)).len() > 0 {
            index.contains_key(parent) && index[parent]@ == children_at(rows, parent, upto)
        } else {
            !index.contains_key(parent)
        }
}

/// The trees of the rows at the first `n` of the places `places`, in order.
/// There is none where any of these rows has no tree.
spec fn forest_at(rows: Seq<Row>, places: Seq<usize>, n: nat, path: Seq<i64>) -> Option<
    Seq<Tree>,
>
    decreases n,
{
    if n == 0 || n > places.len() {
        Some(Seq::empty())
    } else {
        let row = rows[places[n - 1] as int];
        match forest_at(rows, places, (n - 1) as nat, path) {
            None => None,
            Some(before) => match subtree(rows, row.0, row.1@, path) {
                Some(tree) => Some(before.push(tree)),
                None => None,
            },
        }
    }
}

/// Every place among the children is a place in the table, below `upto`.
proof fn lemma_children_in_table(rows: Seq<Row>, parent: i64, upto: nat)
    requires
        rows.len() <= usize::MAX,
    ensures
        forall|k: int|
            0 <= k < children_at(rows, parent, upto).len() ==> (#[trigger] children_at(
                rows,
                parent,
                upto,
            )[k]) < upto && children_at(rows, parent, upto)[k] < rows.len(),
    decreases upto,
{
    if upto > 0 && upto <= rows.len() {
        lemma_children_in_table(rows, parent, (upto - 1) as nat);
        let before = children_at(rows, parent, (upto - 1) as nat);
        let now = children_at(rows, parent, upto);
        assert forall|k: int| 0 <= k < now.len() implies (#[trigger] now[k]) < upto && now[k]
            < rows.len() by {
            if k < before.len() {
                assert(now[k] == before[k]);
            }
        }
    }
}

/// The trees at some places do not depend on the places that follow.
proof fn lemma_forest_at_prefix(
    rows: Seq<Row>,
    places: Seq<usize>,
    more: Seq<usize>,
    n: nat,
    path: Seq<i64>,
)
    requires
        n <= places.len(),
        places.len() <= more.len(),
        forall|k: int| 0 <= k < places.len() ==> places[k] == more[k],
    ensures
        forest_at(rows, more, n, path) == forest_at(rows, places, n, path),
    decreases n,
{
    if n > 0 {
        lemma_forest_at_prefix(rows, places, more, (n - 1) as nat, path);
    }
}

/// The trees of the children of `parent` are the trees of the rows at the
/// places that the index holds for it.
proof fn lemma_forest_by_places(rows: Seq<Row>, parent: i64, upto: nat, path: Seq<i64>)
    requires
        upto <= rows.len() <= usize::MAX,
    ensures
        forest(rows, Some(parent), upto, path) == forest_at(
            rows,
            children_at(rows, parent, upto),
            children_at(rows, parent, upto).len(),
            path,
        ),
    decreases upto,
{
    if upto > 0 {
        let before = children_at(rows, parent, (upto - 1) as nat);
        let now = children_at(rows, parent, upto);
        lemma_forest_by_places(rows, parent, (upto - 1) as nat, path);
        if rows[upto - 1].2 == Some(parent) {
            lemma_forest_at_prefix(rows, before, now, before.len(), path);
            assert(now[now.len() - 1] == (upto - 1) as usize);
        }
    }
}

/// Once a row at one of the first `n` places has no tree, the places have
/// none as a whole.
proof fn lemma_forest_at_stays_none(
    rows: Seq<Row>,
    places: Seq<usize>,
    n: nat,
    whole: nat,
    path: Seq<i64>,
)
    requires
        n <= whole <= places.len(),
        forest_at(rows, places, n, path) is None,
    ensures
        forest_at(rows, places, whole, path) is None,
    decreases whole - n,
{
    if n < whole {
        lemma_forest_at_stays_none(rows, places, n, (whole - 1) as nat, path);
    }
}

/// Files every row under the id of its parent.
fn index_children(rows: &Vec<Row>) -> (index: HashMap<i64, Vec<usize>>)
    ensures
        indexes(index@, rows@, rows@.len()),
{
    let mut index: HashMap<i64, Vec<usize>> = HashMap::new();
    let mut i: usize = 0;
    while i < rows.len()
        invariant
            i <= rows.len(),
            indexes(index@, rows@, i as nat),
        decreases rows.len() - i,
    {
        let ghost filed = index@;
        match rows[i].2 {
            Some(parent) => {
                let mut places = match index.remove(&parent) {
                    Some(places) => places,
                    None => Vec::new(),
                };
                proof {
                    assert(children_at(rows@, parent, i as nat).len() > 0 ==> places@ == children_at(
                        rows@,
                        parent,
                        i as nat,
                    ));
                    assert(children_at(rows@, parent, i as nat).len() == 0 ==> places@
                        =~= children_at(rows@, parent, i as nat));
                }
                places.push(i);
                index.insert(parent, places);
                proof {
                    assert forall|other: i64|
                        if (#[trigger] children_at(rows@, other, (i + 1) as nat)).len() > 0 {
                            index@.contains_key(other) && index@[other]@ == children_at(
                                rows@,
                                other,
                                (i + 1) as nat,
                            )
                        } else {
                            !index@.contains_key(other)
                        } by {
                        if other != parent {
                            assert(children_at(rows@, other, (i + 1) as nat) == children_at(
                                rows@,
                                other,
                                i as nat,
                            ));
                            assert(index@.contains_key(other) == filed.contains_key(other));
                        }
                    }
                }
            },
            None => {
                proof {
                    assert forall|other: i64|
                        children_at(rows@, other, (i + 1) as nat) == #[trigger] children_at(
                            rows@,
                            other,
                            i as nat,
                        ) by {}
                    assert forall|other: i64|
                        if (#[trigger] children_at(rows@, other, (i + 1) as nat)).len() > 0 {
                            index@.contains_key(other) && index@[other]@ == children_at(
                                rows@,
                                other,
                                (i + 1) as nat,
                            )
                        } else {
                            !index@.contains_key(other)
                        } by {
                        assert(children_at(rows@, other, (i + 1) as nat) == children_at(
                            rows@,
                            other,
                            i as nat,
                        ));
                    }
                }
            },
        }
        i += 1;
    }
    index
}

/// Whether `id` stands on `path`.
fn on_path(path: &Vec<i64>, id: i64) -> (r: bool)
    ensures
        r == path@.contains(id),
{
    let mut i: usize = 0;
    while i < path.len()
        invariant
            i <= path.len(),
            forall|j: int| 0 <= j < i ==> path@[j] != id,
        decreases path.len() - i,
    {
        if path[i] == id {
            return true;
        }
        i += 1;
    }
    false
}

/// Builds the tree below one row.
fn expand(
    rows: &Vec<Row>,
    index: &HashMap<i64, Vec<usize>>,
    id: i64,
    name: String,
    path: &mut Vec<i64>,
) -> (r: Option<TreeNode>)
    requires
        indexes(index@, rows@, rows@.len()),
        path_in(rows@, old(path)@),
        known_id(rows@, id),
    ensures
        match subtree(rows@, id, name@, old(path)@) {
            Some(tree) => r matches Some(node) && node@ == tree && final(path)@ == old(path)@,
            None => r is None,
        },
    decreases rows.len() - old(path).len(),
{
    let ghost above = path@;
    if on_path(path, id) {
        return None;
    }
    path.push(id);
    proof {
        assert(path_in(rows@, path@)) by {
            assert forall|i: int| 0 <= i < path@.len() implies known_id(
                rows@,
                #[trigger] path@[i],
            ) by {
                if i < above.len() {
                    assert(path@[i] == above[i]);
                }
            }
        }
        lemma_path_bounded(rows@, path@);
        lemma_forest_by_places(rows@, id, rows@.len(), path@);
        lemma_children_in_table(rows@, id, rows@.len());
    }
    let ghost places = children_at(rows@, id, rows@.len());
    let mut children: Vec<TreeNode> = Vec::new();
    match index.get(&id) {
        None => {
            assert(places.len() == 0);
        },
        Some(filed) => {
            assert(filed@ == places);
            let mut k: usize = 0;
            while k < filed.len()
                invariant
                    k <= filed.len(),
                    filed@ == places,
                    places == children_at(rows@, id, rows@.len()),
                    forall|n: int| 0 <= n < places.len() ==> (#[trigger] places[n]) < rows.len(),
                    indexes(index@, rows@, rows@.len()),
                    above == old(path)@,
                    path@ == above.push(id),
                    path_in(rows@, path@),
                    above.len() < rows.len(),
                    forest_at(rows@, places, k as nat, path@) == Some(forest_view(children@)),
                decreases filed.len() - k,
            {
                let j = filed[k];
                assert(j == places[k as int]);
                let kid_name = rows[j].1.clone();
                assert(known_id(rows@, rows@[j as int].0));
                let ghost down = path@;
                match expand(rows, index, rows[j].0, kid_name, path) {
                    None => {
                        proof {
                            assert(forest_at(rows@, places, (k + 1) as nat, down) is None);
                            lemma_forest_at_stays_none(
                                rows@,
                                places,
                                (k + 1) as nat,
                                places.len(),
                                down,
                            );
                            lemma_forest_by_places(rows@, id, rows@.len(), down);
                        }
                        return None;
                    },
                    Some(node) => {
                        proof {
                            lemma_forest_view_push(children@, node);
                        }
                        children.push(node);
                    },
                }
                k += 1;
            }
        },
    }
    path.pop();
    assert(path@ =~= above);
    let node = TreeNode { id, name, children };
    Some(node)
}

/// Builds the trees that a table of rows stands for: the rows without a
/// parent become the roots, in the order of the table, and below each row
/// stand the rows that name it as their parent. The result is `None` for
/// an empty table, for one without a root, and for one in which an id
/// comes up a second time on the way down from a root.
pub fn build_tree(nodes: Vec<Row>) -> (r: Option<Vec<TreeNode>>)
    ensures
        match tree_of(nodes@) {
            Some(trees) => r matches Some(roots) && forest_view(roots@) == trees,
            None => r is None,
        },
{
    if nodes.len() == 0 {
        return None;
    }
    let children_by_parent = index_children(&nodes);
    let mut visited: Vec<i64> = Vec::new();
    let mut root_nodes: Vec<TreeNode> = Vec::new();
    let mut j: usize = 0;
    while j < nodes.len()
        invariant
            j <= nodes.len(),
            indexes(children_by_parent@, nodes@, nodes@.len()),
            visited@ == Seq::<i64>::empty(),
            forest(nodes@, None, j as nat, visited@) == Some(forest_view(root_nodes@)),
        decreases nodes.len() - j,
    {
        let is_root = match nodes[j].2 {
            Some(_) => false,
            None => true,
        };
        if is_root {
            let name = nodes[j].1.clone();
            assert(known_id(nodes@, nodes@[j as int].0));
            assert(path_in(nodes@, visited@));
            match expand(&nodes, &children_by_parent, nodes[j].0, name, &mut visited) {
                None => {
                    proof {
                        let top = Seq::<i64>::empty();
                        assert(forest(nodes@, None, (j + 1) as nat, top) is None);
                        lemma_forest_stays_none(nodes@, None, (j + 1) as nat, nodes@.len(), top);
                    }
                    return None;
                },
                Some(node) => {
                    proof {
                        lemma_forest_view_push(root_nodes@, node);
                    }
                    root_nodes.push(node);
                },
            }
        }
        j += 1;
    }
    if root_nodes.len() == 0 {
        None
    } else {
        Some(root_nodes)
    }
}

} // verus!
