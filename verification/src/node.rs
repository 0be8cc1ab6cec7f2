//! Node data model and the registry of all nodes.
//!
//! A node is a named point with a 3-D position and a battery level, both in
//! milli-units. The registry maps names to nodes, holds the initial
//! configuration beside the live state, and is the single source of truth
//! read by the renderer and written by the simulation ticker.

use vstd::prelude::*;
use vstd::string::StrSliceExecFns;
use vstd::string::StringExecFns;
use crate::BATTERY_LIMIT;
use crate::COORD_LIMIT;

verus! {

/// A 3-D position in milli-units; `z` is carried but never projected.
#[derive(Clone, Copy, Debug, PartialEq, Eq, Structural)]
pub struct Coords {
    pub x: i64,
    pub y: i64,
    pub z: i64,
}

impl Coords {
    /// Every component stays within the coordinate bound.
    pub open spec fn wf(self) -> bool {
        -COORD_LIMIT <= self.x <= COORD_LIMIT && -COORD_LIMIT <= self.y <= COORD_LIMIT
            && -COORD_LIMIT <= self.z <= COORD_LIMIT
    }
}

/// A named node with position and battery level, both in milli-units.
#[derive(Debug, PartialEq)]
pub struct Node {
    pub name: String,
    pub coords: Coords,
    pub battery: i64,
}

/// The mathematical value of a `Node`.
pub ghost struct NodeV {
    pub name: Seq<char>,
    pub coords: Coords,
    pub battery: i64,
}

impl NodeV {
    /// Coordinates within bounds and a nonnegative, bounded battery level.
    pub open spec fn wf(self) -> bool {
        self.coords.wf() && 0 <= self.battery <= BATTERY_LIMIT
    }
}

impl View for Node {
    type V = NodeV;

    open spec fn view(&self) -> NodeV {
        NodeV { name: self.name@, coords: self.coords, battery: self.battery }
    }
}

impl DeepView for Node {
    type V = NodeV;

    open spec fn deep_view(&self) -> NodeV {
        self@
    }
}

impl Clone for Node {
    fn clone(&self) -> (r: Self)
        ensures
            r@ == self@,
    {
        Node { name: self.name.clone(), coords: self.coords, battery: self.battery }
    }
}

/// No two nodes of the sequence share a name.
pub open spec fn unique_names(s: Seq<NodeV>) -> bool {
    forall|i: int, j: int|
        0 <= i < s.len() && 0 <= j < s.len() && i != j ==> s[i].name != s[j].name
}

/// Every node of the sequence is well formed.
pub open spec fn all_wf(s: Seq<NodeV>) -> bool {
    forall|i: int| 0 <= i < s.len() ==> (#[trigger] s[i]).wf()
}

/// The mathematical value of a `NodeRegistry`.
pub ghost struct RegistryV {
    pub nodes: Seq<NodeV>,
    pub init: Seq<NodeV>,
}

impl RegistryV {
    /// Both snapshots are well formed, names are unique, and the live state
    /// holds exactly the names of the initial configuration, in its order.
    pub open spec fn wf(self) -> bool {
        all_wf(self.nodes) && all_wf(self.init) && unique_names(self.init)
            && self.nodes.len() == self.init.len() && (forall|i: int|
            0 <= i < self.nodes.len() ==> #[trigger] self.nodes[i].name == self.init[i].name)
    }
}

/// The mapping from node name to node state: live nodes beside a copy of
/// the initial configuration that a reset restores.
#[derive(Debug)]
pub struct NodeRegistry {
    nodes: Vec<Node>,
    init: Vec<Node>,
}

impl View for NodeRegistry {
    type V = RegistryV;

    closed spec fn view(&self) -> RegistryV {
        RegistryV { nodes: self.nodes.deep_view(), init: self.init.deep_view() }
    }
}

fn clone_nodes(v: &Vec<Node>) -> (r: Vec<Node>)
    ensures
        r.deep_view() == v.deep_view(),
{
    let mut r: Vec<Node> = Vec::new();
    let n = v.len();
    for i in 0..n
        invariant
            n == v.len(),
            r.len() == i,
            forall|k: int| 0 <= k < i ==> r.deep_view()[k] == v.deep_view()[k],
    {
        r.push(v[i].clone());
    }
    assert(r.deep_view() =~= v.deep_view());
    r
}

impl NodeRegistry {
    /// Create a registry from an initial configuration; the live state starts
    /// as an exact copy of it.
    pub fn new(init: Vec<Node>) -> (r: Self)
        requires
            all_wf(init.deep_view()),
            unique_names(init.deep_view()),
        ensures
            r@.nodes == init.deep_view(),
            r@.init == init.deep_view(),
            r@.wf(),
    {
        let nodes = clone_nodes(&init);
        NodeRegistry { nodes, init }
    }

    /// The number of nodes.
    pub fn len(&self) -> (n: usize)
        ensures
            n == self@.nodes.len(),
    {
        self.nodes.len()
    }

    /// A read-only view of the live node state.
    pub fn snapshot(&self) -> (r: &Vec<Node>)
        ensures
            r.deep_view() == self@.nodes,
    {
        &self.nodes
    }

    /// The node at position `i` of the live state.
    pub fn get(&self, i: usize) -> (r: &Node)
        requires
            i < self@.nodes.len(),
        ensures
            r@ == self@.nodes[i as int],
    {
        &self.nodes[i]
    }

    /// Replace the node at position `i`; the node keeps its name.
    pub fn set_node(&mut self, i: usize, n: Node)
        requires
            i < old(self)@.nodes.len(),
            n@.name == old(self)@.nodes[i as int].name,
        ensures
            final(self)@.nodes == old(self)@.nodes.update(i as int, n@),
            final(self)@.init == old(self)@.init,
    {
        self.nodes.set(i, n);
        assert(self.nodes.deep_view() =~= old(self)@.nodes.update(i as int, n@));
    }

    /// The node of the given name: `Some` exactly when a node of that name
    /// is in the registry, `None` otherwise.
    pub fn find(&self, name: &str) -> (r: Option<&Node>)
        ensures
            match r {
                Some(node) => node@.name == name@ && exists|i: int|
                    0 <= i < self@.nodes.len() && #[trigger] self@.nodes[i] == node@,
                None => forall|i: int|
                    0 <= i < self@.nodes.len() ==> (#[trigger] self@.nodes[i]).name != name@,
            },
    {
        let name_s = name.to_owned();
        let n = self.nodes.len();
        for i in 0..n
            invariant
                n == self@.nodes.len(),
                name_s@ == name@,
                forall|k: int| 0 <= k < i ==> (#[trigger] self@.nodes[k]).name != name@,
        {
            if self.nodes[i].name == name_s {
                proof {
                    assert(self@.nodes[i as int] == self.nodes[i as int]@);
                }
                return Some(&self.nodes[i]);
            }
        }
        None
    }

    /// Restore the live state to an exact copy of the initial configuration.
    pub fn reset(&mut self)
        ensures
            final(self)@.nodes == old(self)@.init,
            final(self)@.init == old(self)@.init,
            old(self)@.wf() ==> final(self)@.wf(),
    {
        self.nodes = clone_nodes(&self.init);
    }
}

/// Lexicographic order on character sequences by code point: the empty
/// sequence comes first, and otherwise the first differing position
/// decides.
pub open spec fn lex_le(a: Seq<char>, b: Seq<char>) -> bool
    decreases a.len(),
{
    if a.len() == 0 {
        true
    } else if b.len() == 0 {
        false
    } else if a[0] == b[0] {
        lex_le(a.drop_first(), b.drop_first())
    } else {
        (a[0] as u32) < (b[0] as u32)
    }
}

/// Any two character sequences are ordered one way or the other.
pub proof fn lemma_lex_le_total(a: Seq<char>, b: Seq<char>)
    ensures
        lex_le(a, b) || lex_le(b, a),
    decreases a.len(),
{
    if a.len() > 0 && b.len() > 0 {
        if a[0] == b[0] {
            lemma_lex_le_total(a.drop_first(), b.drop_first());
        } else {
            vstd::utf8::char_u32_cast(a[0], a[0] as u32);
            vstd::utf8::char_u32_cast(b[0], b[0] as u32);
            assert((a[0] as u32) != (b[0] as u32));
        }
    }
}

/// Compare two strings in the lexicographic order of their characters.
pub fn str_lex_le(a: &str, b: &str) -> (r: bool)
    ensures
        r == lex_le(a@, b@),
{
    let alen = a.unicode_len();
    let blen = b.unicode_len();
    let mut i: usize = 0;
    proof {
        assert(a@.skip(0) =~= a@);
        assert(b@.skip(0) =~= b@);
    }
    loop
        invariant
            i <= alen,
            i <= blen,
            alen == a@.len(),
            blen == b@.len(),
            lex_le(a@, b@) == lex_le(a@.skip(i as int), b@.skip(i as int)),
        decreases alen - i,
    {
        if i == alen {
            return true;
        }
        if i == blen {
            return false;
        }
        let ca = a.get_char(i);
        let cb = b.get_char(i);
        if ca == cb {
            proof {
                assert(a@.skip(i as int).drop_first() =~= a@.skip(i as int + 1));
                assert(b@.skip(i as int).drop_first() =~= b@.skip(i as int + 1));
            }
            i = i + 1;
        } else if (ca as u32) < (cb as u32) {
            return true;
        } else {
            return false;
        }
    }
}

/// Each neighboring pair of the sequence is in lexicographic order.
pub open spec fn sorted_lex(s: Seq<Seq<char>>) -> bool {
    forall|k: int| 0 <= k < s.len() - 1 ==> lex_le(#[trigger] s[k], s[k + 1])
}

/// The names of the nodes, in the sequence's order.
pub open spec fn names_of(s: Seq<NodeV>) -> Seq<Seq<char>> {
    Seq::new(s.len(), |i: int| s[i].name)
}

/// The node names in lexicographic order: exactly the names of the given
/// nodes, each as often as it occurs, sorted.
pub fn sorted_names(nodes: &Vec<Node>) -> (r: Vec<String>)
    ensures
        sorted_lex(r.deep_view()),
        r.deep_view().to_multiset() == names_of(nodes.deep_view()).to_multiset(),
{
    let ghost s = nodes.deep_view();
    let mut r: Vec<String> = Vec::new();
    let n = nodes.len();
    proof {
        assert(names_of(s.take(0)) =~= Seq::<Seq<char>>::empty());
        assert(r.deep_view() =~= Seq::<Seq<char>>::empty());
    }
    for idx in 0..n
        invariant
            n == nodes.len() == s.len(),
            s == nodes.deep_view(),
            sorted_lex(r.deep_view()),
            r.deep_view().to_multiset() == names_of(s.take(idx as int)).to_multiset(),
    {
        let name = nodes[idx].name.clone();
        let ghost before = r.deep_view();
        let mut j: usize = 0;
        while j < r.len() && str_lex_le(&r[j], &name)
            invariant
                j <= r.len(),
                r.deep_view() == before,
                name@ == s[idx as int].name,
                forall|k: int| 0 <= k < j ==> lex_le(#[trigger] before[k], name@),
            decreases r.len() - j,
        {
            j = j + 1;
        }
        proof {
            if j < before.len() {
                lemma_lex_le_total(before[j as int], name@);
            }
        }
        r.insert(j, name);
        proof {
            assert(r.deep_view() =~= before.insert(j as int, s[idx as int].name));
            vstd::seq_lib::to_multiset_insert(before, j as int, s[idx as int].name);
            assert(names_of(s.take(idx + 1)).drop_last() =~= names_of(s.take(idx as int)));
            assert(names_of(s.take(idx + 1)).last() == s[idx as int].name);
            assert(names_of(s.take(idx + 1)) =~= names_of(s.take(idx as int)).push(
                s[idx as int].name,
            ));
            vstd::seq_lib::to_multiset_build(names_of(s.take(idx as int)), s[idx as int].name);
            let after = before.insert(j as int, s[idx as int].name);
            assert forall|k: int| 0 <= k < after.len() - 1 implies lex_le(
                #[trigger] after[k],
                after[k + 1],
            ) by {
                if k + 1 < j {
                    assert(after[k] == before[k] && after[k + 1] == before[k + 1]);
                } else if k + 1 == j {
                    assert(after[k] == before[k] && after[k + 1] == s[idx as int].name);
                } else if k == j {
                    assert(after[k] == s[idx as int].name && after[k + 1] == before[k]);
                } else {
                    assert(after[k] == before[k - 1] && after[k + 1] == before[k]);
                }
            }
        }
    }
    proof {
        assert(s.take(n as int) =~= s);
    }
    r
}

/// The fixed initial configuration: five named nodes with seed positions
/// and battery levels, in milli-units.
pub open spec fn spec_initial_nodes() -> Seq<NodeV> {
    seq![
        NodeV { name: "Node 1"@, coords: Coords { x: 1000, y: 1000, z: 0 }, battery: 100000 },
        NodeV { name: "Node 2"@, coords: Coords { x: 100000, y: 0, z: 0 }, battery: 75000 },
        NodeV { name: "Node 3"@, coords: Coords { x: 0, y: 0, z: 0 }, battery: 0 },
        NodeV { name: "Node 4"@, coords: Coords { x: 0, y: 1000, z: 0 }, battery: 10 },
        NodeV { name: "Node 5"@, coords: Coords { x: -30000i64, y: -40000i64, z: 0 }, battery: 100000 },
    ]
}

/// Build the fixed initial configuration that the process starts from.
pub fn initial_nodes() -> (r: Vec<Node>)
    ensures
        r.deep_view() == spec_initial_nodes(),
        all_wf(r.deep_view()),
        unique_names(r.deep_view()),
{
    proof {
        reveal_strlit("Node 1");
        reveal_strlit("Node 2");
        reveal_strlit("Node 3");
        reveal_strlit("Node 4");
        reveal_strlit("Node 5");
    }
    let mut r: Vec<Node> = Vec::new();
    r.push(
        Node {
            name: String::from_str("Node 1"),
            coords: Coords { x: 1000, y: 1000, z: 0 },
            battery: 100000,
        },
    );
    r.push(
        Node {
            name: String::from_str("Node 2"),
            coords: Coords { x: 100000, y: 0, z: 0 },
            battery: 75000,
        },
    );
    r.push(
        Node { name: String::from_str("Node 3"), coords: Coords { x: 0, y: 0, z: 0 }, battery: 0 },
    );
    r.push(
        Node {
            name: String::from_str("Node 4"),
            coords: Coords { x: 0, y: 1000, z: 0 },
            battery: 10,
        },
    );
    r.push(
        Node {
            name: String::from_str("Node 5"),
            coords: Coords { x: -30000, y: -40000, z: 0 },
            battery: 100000,
        },
    );
    assert(r.deep_view() =~= spec_initial_nodes());
    proof {
        let s = spec_initial_nodes();
        assert forall|i: int, j: int|
            0 <= i < s.len() && 0 <= j < s.len() && i != j implies (#[trigger] s[i]).name
            != (#[trigger] s[j]).name by {
            assert(s[i].name[5] != s[j].name[5]);
        }
    }
    r
}

} // verus!
