use vstd::prelude::*;
use indextree::{Arena, NodeError, NodeId};
use crate::entity::Entity;

verus! {

/// indextree's arena of nodes, seen only through the names below.
#[verifier::external_type_specification]
#[verifier::external_body]
#[verifier::reject_recursive_types(T)]
pub struct ExArena<T>(Arena<T>);

/// indextree's node identifier: a slot and a stamp, compared as a whole.
#[verifier::external_type_specification]
#[verifier::external_body]
pub struct ExNodeId(NodeId);

/// indextree's reason for refusing a change to the tree.
#[verifier::external_type_specification]
#[verifier::external_body]
pub struct ExNodeError(NodeError);

/// The live nodes of an arena, each with the entity it holds.
pub uninterp spec fn arena_data(a: Arena<Entity>) -> Map<NodeId, Entity>;

/// The parent link of each live node that has a parent.
pub uninterp spec fn arena_parents(a: Arena<Entity>) -> Map<NodeId, NodeId>;

/// The children of each live node, first to last.
pub uninterp spec fn arena_children(a: Arena<Entity>) -> Map<NodeId, Seq<NodeId>>;

/// The number of slots of an arena, removed ones included.
pub uninterp spec fn arena_slots(a: Arena<Entity>) -> nat;

/// `a` is reached from `n` by following at most `steps` parent links (at least one).
pub open spec fn ancestor_within(
    parents: Map<NodeId, NodeId>,
    a: NodeId,
    n: NodeId,
    steps: nat,
) -> bool
    decreases steps,
{
    steps > 0 && parents.contains_key(n) && (parents[n] == a || ancestor_within(
        parents,
        a,
        parents[n],
        (steps - 1) as nat,
    ))
}

/// `a` is a proper ancestor of `n`.
pub open spec fn is_ancestor(parents: Map<NodeId, NodeId>, a: NodeId, n: NodeId) -> bool {
    exists|k: nat| ancestor_within(parents, a, n, k)
}

/// The children lists after `child` is detached from its parent, if any, and
/// becomes the last child of `parent`.
pub open spec fn children_after_append(
    children: Map<NodeId, Seq<NodeId>>,
    parents: Map<NodeId, NodeId>,
    parent: NodeId,
    child: NodeId,
) -> Map<NodeId, Seq<NodeId>> {
    let detached = if parents.contains_key(child) {
        children.insert(parents[child], children[parents[child]].remove_value(child))
    } else {
        children
    };
    detached.insert(parent, detached[parent].push(child))
}

/// Relies on indextree's `Arena::new`: a new arena has no slot and no node.
#[verifier::external_body]
fn arena_new() -> (r: Arena<Entity>)
    ensures
        arena_data(r).dom() == Set::<NodeId>::empty(),
        arena_parents(r).dom() == Set::<NodeId>::empty(),
        arena_children(r).dom() == Set::<NodeId>::empty(),
        arena_slots(r) == 0,
{
    Arena::new()
}

/// Relies on indextree's `Arena::new_node`: a fresh detached node holding `data`, in a new
/// slot when no removed slot is there to be reused.
#[verifier::external_body]
fn arena_new_node(a: &mut Arena<Entity>, data: Entity) -> (r: NodeId)
    ensures
        !arena_data(*old(a)).contains_key(r),
        arena_data(*final(a)) == arena_data(*old(a)).insert(r, data),
        arena_parents(*final(a)) == arena_parents(*old(a)),
        arena_children(*final(a)) == arena_children(*old(a)).insert(r, Seq::<NodeId>::empty()),
        arena_slots(*old(a)) == arena_data(*old(a)).len() ==> arena_slots(*final(a))
            == arena_slots(*old(a)) + 1,
{
    a.new_node(data)
}

/// Relies on indextree's `Arena::len`: the number of slots.
#[verifier::external_body]
fn arena_len(a: &Arena<Entity>) -> (r: usize)
    ensures
        r == arena_slots(*a),
{
    a.len()
}

/// Relies on indextree's `Arena::is_empty`: whether the arena has no slot.
#[verifier::external_body]
fn arena_is_empty(a: &Arena<Entity>) -> (r: bool)
    ensures
        r == (arena_slots(*a) == 0),
{
    a.is_empty()
}

/// Relies on indextree's `Arena::get_data`: the entity of a live node, none for another id.
#[verifier::external_body]
fn arena_get(a: &Arena<Entity>, n: NodeId) -> (r: Option<Entity>)
    ensures
        r == (if arena_data(*a).contains_key(n) {
            Some(arena_data(*a)[n])
        } else {
            None::<Entity>
        }),
{
    a.get_data(n).copied()
}

/// Relies on indextree's `NodeId::parent`: the parent link of a live node.
#[verifier::external_body]
fn node_parent(n: NodeId, a: &Arena<Entity>) -> (r: Option<NodeId>)
    requires
        arena_data(*a).contains_key(n),
    ensures
        r == (if arena_parents(*a).contains_key(n) {
            Some(arena_parents(*a)[n])
        } else {
            None::<NodeId>
        }),
{
    n.parent(a)
}

/// Relies on indextree's `NodeId::child_count`: how many children a live node has.
#[verifier::external_body]
fn node_child_count(n: NodeId, a: &Arena<Entity>) -> (r: usize)
    requires
        arena_data(*a).contains_key(n),
    ensures
        r == arena_children(*a)[n].len(),
{
    n.child_count(a)
}

/// Relies on indextree's `NodeId::nth_child`: the child of a live node at a position.
#[verifier::external_body]
fn node_nth_child(n: NodeId, i: usize, a: &Arena<Entity>) -> (r: Option<NodeId>)
    requires
        arena_data(*a).contains_key(n),
    ensures
        r == (if i < arena_children(*a)[n].len() {
            Some(arena_children(*a)[n][i as int])
        } else {
            None::<NodeId>
        }),
{
    n.nth_child(i, a)
}

/// Relies on indextree's `NodeId::checked_append`: it refuses to append a node to itself, a
/// removed node, or an ancestor of `parent`; otherwise it detaches `child` and
/// makes it the last child of `parent`.
#[verifier::external_body]
fn node_checked_append(parent: NodeId, child: NodeId, a: &mut Arena<Entity>) -> (r: Result<
    (),
    NodeError,
>)
    ensures
        r is Err <==> (parent == child || !arena_data(*old(a)).contains_key(parent)
            || !arena_data(*old(a)).contains_key(child) || is_ancestor(
            arena_parents(*old(a)),
            child,
            parent,
        )),
        arena_data(*final(a)) == arena_data(*old(a)),
        arena_slots(*final(a)) == arena_slots(*old(a)),
        r is Err ==> arena_parents(*final(a)) == arena_parents(*old(a)) && arena_children(
            *final(a),
        ) == arena_children(*old(a)),
        r is Ok ==> arena_parents(*final(a)) == arena_parents(*old(a)).insert(child, parent)
            && arena_children(*final(a)) == children_after_append(
            arena_children(*old(a)),
            arena_parents(*old(a)),
            parent,
            child,
        ),
{
    parent.checked_append(child, a)
}

/// Relies on indextree's `NodeId::descendants`: the pre-order walk of the subtree of a
/// live node. It starts at the node, lists each node of the subtree once, puts every
/// other node after its parent, every first child right after its parent, and leaves
/// no child of a listed node out.
#[verifier::external_body]
fn node_descendants(n: NodeId, a: &Arena<Entity>) -> (r: Vec<NodeId>)
    requires
        arena_data(*a).contains_key(n),
    ensures
        r@.len() > 0,
        r@[0] == n,
        r@.no_duplicates(),
        forall|i: int| 0 <= i < r@.len() ==> arena_data(*a).contains_key(#[trigger] r@[i]),
        forall|i: int|
            0 < i < r@.len() ==> arena_parents(*a).contains_key(#[trigger] r@[i]) && exists|j: int|
                0 <= j < i && r@[j] == arena_parents(*a)[r@[i]],
        forall|i: int, k: int|
            0 <= i < r@.len() && 0 <= k < arena_children(*a)[r@[i]].len() ==> r@.contains(
                #[trigger] arena_children(*a)[r@[i]][k],
            ),
        forall|i: int|
            0 <= i < r@.len() && arena_children(*a)[#[trigger] r@[i]].len() > 0 ==> i + 1 < r@.len()
                && r@[i + 1] == arena_children(*a)[r@[i]][0],
{
    n.descendants(a).collect()
}

/// The parent/child relation between widgets, held in an arena of nodes that
/// each carry an entity. One entity is designated the root (the window).
pub struct EntityTree {
    arena: Arena<Entity>,
    root: Option<Entity>,
    map: Vec<(Entity, NodeId)>,
}

impl EntityTree {
    /// The registered entities, in the order they were added.
    pub closed spec fn entities(self) -> Seq<Entity> {
        self.map@.map_values(|p: (Entity, NodeId)| p.0)
    }

    pub open spec fn contains(self, e: Entity) -> bool {
        self.entities().contains(e)
    }

    pub closed spec fn spec_root(self) -> Option<Entity> {
        self.root
    }

    spec fn index_of(self, e: Entity) -> int {
        choose|i: int| 0 <= i < self.map@.len() && self.map@[i].0 == e
    }

    spec fn node_of(self, e: Entity) -> NodeId {
        self.map@[self.index_of(e)].1
    }

    /// The entity that a node holds, if the node is live in this tree.
    pub closed spec fn spec_entity_of(self, n: NodeId) -> Option<Entity> {
        if arena_data(self.arena).contains_key(n) {
            Some(arena_data(self.arena)[n])
        } else {
            None
        }
    }

    /// The parent of a registered entity, if it has one.
    pub closed spec fn spec_parent(self, e: Entity) -> Option<Entity> {
        if self.contains(e) && arena_parents(self.arena).contains_key(self.node_of(e)) {
            Some(arena_data(self.arena)[arena_parents(self.arena)[self.node_of(e)]])
        } else {
            None
        }
    }

    /// The children of a registered entity, first to last.
    pub closed spec fn spec_children(self, e: Entity) -> Seq<Entity> {
        if self.contains(e) {
            arena_children(self.arena)[self.node_of(e)].map_values(
                |n: NodeId| arena_data(self.arena)[n],
            )
        } else {
            Seq::empty()
        }
    }

    /// The first child of an entity, if it has one.
    pub open spec fn spec_child_of(self, e: Entity) -> Option<Entity> {
        if self.spec_children(e).len() > 0 {
            Some(self.spec_children(e)[0])
        } else {
            None
        }
    }

    /// `a` is a proper ancestor of `n`: a parent, a parent's parent, and so on.
    pub closed spec fn is_ancestor_of(self, a: Entity, n: Entity) -> bool {
        self.contains(a) && self.contains(n) && is_ancestor(
            arena_parents(self.arena),
            self.node_of(a),
            self.node_of(n),
        )
    }

    pub closed spec fn wf(self) -> bool {
        let data = arena_data(self.arena);
        let parents = arena_parents(self.arena);
        let children = arena_children(self.arena);
        &&& forall|i: int, j: int|
            0 <= i < j < self.map@.len() ==> self.map@[i].0 != self.map@[j].0
                && self.map@[i].1 != self.map@[j].1
        &&& forall|i: int|
            0 <= i < self.map@.len() ==> data.contains_key(#[trigger] self.map@[i].1)
                && data[self.map@[i].1] == self.map@[i].0
        &&& forall|n: NodeId|
            data.contains_key(n) ==> exists|i: int|
                0 <= i < self.map@.len() && #[trigger] self.map@[i].1 == n
        &&& data.dom().finite()
        &&& data.len() == self.map@.len()
        &&& arena_slots(self.arena) == self.map@.len()
        &&& forall|n: NodeId|
            #[trigger] parents.contains_key(n) ==> data.contains_key(n) && data.contains_key(
                parents[n],
            )
        &&& forall|n: NodeId| #[trigger] data.contains_key(n) <==> children.contains_key(n)
        &&& forall|n: NodeId, k: int|
            children.contains_key(n) && 0 <= k < children[n].len() ==> data.contains_key(
                #[trigger] children[n][k],
            )
        &&& self.root matches Some(r) ==> self.contains(r)
    }

    proof fn lemma_node_of(self, i: int)
        requires
            self.wf(),
            0 <= i < self.map@.len(),
        ensures
            self.contains(self.map@[i].0),
            self.index_of(self.map@[i].0) == i,
            self.node_of(self.map@[i].0) == self.map@[i].1,
    {
        assert(self.entities()[i] == self.map@[i].0);
        let j = self.index_of(self.map@[i].0);
        assert(0 <= j < self.map@.len() && self.map@[j].0 == self.map@[i].0);
        if j < i {
            assert(self.map@[j].0 != self.map@[i].0);
        } else if i < j {
            assert(self.map@[i].0 != self.map@[j].0);
        }
    }

    proof fn lemma_contains(self, e: Entity)
        requires
            self.wf(),
            self.contains(e),
        ensures
            0 <= self.index_of(e) < self.map@.len(),
            self.map@[self.index_of(e)].0 == e,
            arena_data(self.arena).contains_key(self.node_of(e)),
            arena_data(self.arena)[self.node_of(e)] == e,
    {
        let i = self.entities().index_of(e);
        assert(self.map@[i].0 == e);
        self.lemma_node_of(i);
    }

    proof fn lemma_live_node(self, id: NodeId)
        requires
            self.wf(),
            arena_data(self.arena).contains_key(id),
        ensures
            self.contains(arena_data(self.arena)[id]),
            self.node_of(arena_data(self.arena)[id]) == id,
    {
        let i = choose|i: int| 0 <= i < self.map@.len() && #[trigger] self.map@[i].1 == id;
        self.lemma_node_of(i);
    }

    /// An entity that is not registered has no parent and no children.
    pub proof fn lemma_unregistered(self, e: Entity)
        requires
            !self.contains(e),
        ensures
            self.spec_parent(e) is None,
            self.spec_children(e) == Seq::<Entity>::empty(),
    {
    }

    /// An entity without a parent has no ancestor.
    pub proof fn lemma_no_parent_no_ancestor(self, a: Entity, n: Entity)
        requires
            self.wf(),
            self.spec_parent(n) is None,
        ensures
            !self.is_ancestor_of(a, n),
    {
        if self.is_ancestor_of(a, n) {
            let k = choose|k: nat|
                ancestor_within(arena_parents(self.arena), self.node_of(a), self.node_of(n), k);
            assert(arena_parents(self.arena).contains_key(self.node_of(n)));
        }
    }

    pub fn new() -> (r: EntityTree)
        ensures
            r.wf(),
            r.entities() == Seq::<Entity>::empty(),
            r.spec_root() is None,
            forall|e: Entity|
                #[trigger] r.spec_parent(e) is None && r.spec_children(e) == Seq::<Entity>::empty(),
    {
        let r = EntityTree { arena: arena_new(), root: None, map: Vec::new() };
        assert(arena_data(r.arena).dom() =~= Set::<NodeId>::empty());
        assert forall|e: Entity| #[trigger] r.spec_parent(e) is None && r.spec_children(e) == Seq::<
            Entity,
        >::empty() by {
            r.lemma_unregistered(e);
        }
        r
    }

    fn find_node(&self, e: Entity) -> (r: Option<NodeId>)
        requires
            self.wf(),
        ensures
            r == (if self.contains(e) {
                Some(self.node_of(e))
            } else {
                None::<NodeId>
            }),
    {
        let mut i: usize = 0;
        while i < self.map.len()
            invariant
                self.wf(),
                0 <= i <= self.map@.len(),
                forall|j: int| 0 <= j < i ==> self.map@[j].0 != e,
            decreases self.map@.len() - i,
        {
            if self.map[i].0 == e {
                proof {
                    self.lemma_node_of(i as int);
                }
                return Some(self.map[i].1);
            }
            i = i + 1;
        }
        proof {
            if self.contains(e) {
                let k = self.entities().index_of(e);
                assert(self.map@[k].0 == e);
            }
        }
        None
    }

    /// Registers an entity; nothing happens when it is already registered.
    pub fn add_node(&mut self, node: Entity)
        requires
            old(self).wf(),
        ensures
            final(self).wf(),
            final(self).entities() == (if old(self).contains(node) {
                old(self).entities()
            } else {
                old(self).entities().push(node)
            }),
            final(self).spec_root() == old(self).spec_root(),
            forall|e: Entity|
                old(self).contains(e) ==> final(self).spec_parent(e) == old(self).spec_parent(e)
                    && final(self).spec_children(e) == old(self).spec_children(e),
            final(self).spec_parent(node) == old(self).spec_parent(node),
            final(self).spec_children(node) == old(self).spec_children(node),
            !old(self).contains(node) ==> final(self).spec_parent(node) is None
                && final(self).spec_children(node) == Seq::<Entity>::empty(),
            final(self).contains(node),
            forall|x: Entity| #[trigger] final(self).contains(x) <==> old(self).contains(x) || x == node,
    {
        proof {
            assert forall|x: Entity| old(self).contains(x) implies old(self).entities().push(node).contains(x) by {
                let k = old(self).entities().index_of(x);
                assert(old(self).entities().push(node)[k] == x);
            }
            assert(old(self).entities().push(node)[old(self).entities().len() as int] == node);
        }
        if self.find_node(node).is_none() {
            let ghost old_tree = *self;
            let id = arena_new_node(&mut self.arena, node);
            self.map.push((node, id));
            proof {
                let data0 = arena_data(old_tree.arena);
                let data = arena_data(self.arena);
                let children = arena_children(self.arena);
                let n = self.map@.len() - 1;
                assert(self.map@[n] == (node, id));
                assert forall|i: int| 0 <= i < n implies self.map@[i] == old_tree.map@[i] by {}
                assert forall|i: int, j: int|
                    0 <= i < j < self.map@.len() implies self.map@[i].0 != self.map@[j].0
                    && self.map@[i].1 != self.map@[j].1 by {
                    if j == n {
                        assert(old_tree.entities()[i] == self.map@[i].0);
                        old_tree.lemma_node_of(i);
                    }
                }
                assert forall|nd: NodeId| data.contains_key(nd) implies exists|i: int|
                    0 <= i < self.map@.len() && #[trigger] self.map@[i].1 == nd by {
                    if nd == id {
                        assert(self.map@[n].1 == nd);
                    } else {
                        let i = choose|i: int|
                            0 <= i < old_tree.map@.len() && #[trigger] old_tree.map@[i].1 == nd;
                        assert(self.map@[i].1 == nd);
                    }
                }
                assert(self.entities() =~= old_tree.entities().push(node));
                assert(data.dom() == data0.dom().insert(id));
                assert(data.len() == self.map@.len());
                assert forall|nd: NodeId, k: int|
                    children.contains_key(nd) && 0 <= k < children[nd].len() implies data.contains_key(
                    #[trigger] children[nd][k],
                ) by {
                    if nd != id {
                        assert(children[nd] == arena_children(old_tree.arena)[nd]);
                    }
                }
                assert forall|i: int| 0 <= i < self.map@.len() implies data.contains_key(
                    #[trigger] self.map@[i].1,
                ) && data[self.map@[i].1] == self.map@[i].0 by {
                    if i < n {
                        assert(self.map@[i] == old_tree.map@[i]);
                    }
                }
                if let Some(r) = self.root {
                    assert(old_tree.contains(r));
                    let k = old_tree.entities().index_of(r);
                    assert(self.entities()[k] == r);
                }
                assert forall|nd: NodeId| #[trigger] data.contains_key(nd) <==> children.contains_key(nd) by {
                    assert(data.contains_key(nd) <==> (nd == id || data0.contains_key(nd)));
                }
                assert(self.wf());
                assert forall|e: Entity| old_tree.contains(e) implies self.spec_parent(e)
                    == old_tree.spec_parent(e) && self.spec_children(e)
                    == old_tree.spec_children(e) by {
                    old_tree.lemma_contains(e);
                    let i = old_tree.index_of(e);
                    old_tree.lemma_node_of(i);
                    self.lemma_node_of(i);
                    let nd = old_tree.node_of(e);
                    assert(self.node_of(e) == nd);
                    let s = children[nd];
                    assert(s == arena_children(old_tree.arena)[nd]);
                    assert(s.map_values(|x: NodeId| data[x]) =~= s.map_values(
                        |x: NodeId| data0[x],
                    ));
                }
                self.lemma_node_of(n);
                assert(self.spec_children(node) =~= Seq::<Entity>::empty());
                assert(!old_tree.contains(node));
                old_tree.lemma_unregistered(node);
            }
        }
    }

    /// Makes `child` the last child of `parent`, detaching it from a former parent.
    pub fn append_child(&mut self, parent: Entity, child: Entity)
        requires
            old(self).wf(),
            old(self).contains(parent),
            old(self).contains(child),
            parent != child,
            !old(self).is_ancestor_of(child, parent),
        ensures
            old(self).appended(parent, child, *final(self)),
            final(self).wf(),
            final(self).entities() == old(self).entities(),
            final(self).spec_root() == old(self).spec_root(),
            final(self).spec_parent(child) == Some(parent),
            final(self).spec_children(parent).contains(child),
            old(self).spec_children(parent).len() == 0 ==> final(self).spec_children(parent)
                == seq![child],
            forall|e: Entity| e != child ==> final(self).spec_parent(e) == old(self).spec_parent(e),
    {
        let pn = self.find_node(parent);
        let cn = self.find_node(child);
        match (pn, cn) {
            (Some(pn), Some(cn)) => {
                let ghost old_tree = *self;
                proof {
                    old_tree.lemma_contains(parent);
                    old_tree.lemma_contains(child);
                    if pn == cn {
                        let i = old_tree.index_of(parent);
                        let j = old_tree.index_of(child);
                        assert(i != j);
                    }
                }
                let r = node_checked_append(pn, cn, &mut self.arena);
                proof {
                    assert(r is Ok);
                    lemma_append_child(old_tree, *self, parent, child);
                }
            },
            _ => {},
        }
    }

    /// The tree that `append_child(parent, child)` leaves: the same entities and
    /// root, with `child` detached from any former parent and made the last child
    /// of `parent`.
    pub closed spec fn appended(self, parent: Entity, child: Entity, after: EntityTree) -> bool {
        let pn = self.node_of(parent);
        let cn = self.node_of(child);
        &&& after.map == self.map
        &&& after.root == self.root
        &&& arena_data(after.arena) == arena_data(self.arena)
        &&& arena_slots(after.arena) == arena_slots(self.arena)
        &&& arena_parents(after.arena) == arena_parents(self.arena).insert(cn, pn)
        &&& arena_children(after.arena) == children_after_append(
            arena_children(self.arena),
            arena_parents(self.arena),
            pn,
            cn,
        )
    }

    proof fn lemma_append_wf(self, old_tree: EntityTree, pn: NodeId, cn: NodeId)
        requires
            old_tree.wf(),
            self.map == old_tree.map,
            self.root == old_tree.root,
            arena_data(old_tree.arena).contains_key(pn),
            arena_data(old_tree.arena).contains_key(cn),
            arena_data(self.arena) == arena_data(old_tree.arena),
            arena_slots(self.arena) == arena_slots(old_tree.arena),
            arena_parents(self.arena) == arena_parents(old_tree.arena).insert(cn, pn),
            arena_children(self.arena) == children_after_append(
                arena_children(old_tree.arena),
                arena_parents(old_tree.arena),
                pn,
                cn,
            ),
        ensures
            self.wf(),
    {
        let data = arena_data(self.arena);
        let c0 = arena_children(old_tree.arena);
        let p0 = arena_parents(old_tree.arena);
        let children = arena_children(self.arena);
        let detached = if p0.contains_key(cn) {
            c0.insert(p0[cn], c0[p0[cn]].remove_value(cn))
        } else {
            c0
        };
        assert forall|n: NodeId, k: int|
            detached.contains_key(n) && 0 <= k < detached[n].len() implies data.contains_key(
            #[trigger] detached[n][k],
        ) by {
            if p0.contains_key(cn) && n == p0[cn] {
                let s = c0[n];
                s.index_of_first_ensures(cn);
                match s.index_of_first(cn) {
                    Some(i) => {
                        assert(s.remove(i) =~= s.subrange(0, i) + s.subrange(i + 1, s.len() as int));
                        if k < i {
                            assert(detached[n][k] == s[k]);
                        } else {
                            assert(detached[n][k] == s[k + 1]);
                        }
                    },
                    None => {},
                }
            }
        }
        assert forall|n: NodeId, k: int|
            children.contains_key(n) && 0 <= k < children[n].len() implies data.contains_key(
            #[trigger] children[n][k],
        ) by {
            if n == pn {
                if k < detached[pn].len() {
                    assert(children[n][k] == detached[pn][k]);
                }
            } else {
                assert(children[n] == detached[n]);
            }
        }
        assert forall|n: NodeId| #[trigger] data.contains_key(n) <==> children.contains_key(
            n,
        ) by {}
    }

    /// Registers `root` and designates it the root of the tree.
    pub fn set_root(&mut self, root: Entity)
        requires
            old(self).wf(),
        ensures
            final(self).wf(),
            final(self).spec_root() == Some(root),
            final(self).contains(root),
            final(self).spec_parent(root) == old(self).spec_parent(root),
            final(self).spec_children(root) == old(self).spec_children(root),
            !old(self).contains(root) ==> final(self).spec_parent(root) is None
                && final(self).spec_children(root) == Seq::<Entity>::empty(),
            final(self).entities() == (if old(self).contains(root) {
                old(self).entities()
            } else {
                old(self).entities().push(root)
            }),
            forall|e: Entity|
                old(self).contains(e) ==> final(self).spec_parent(e) == old(self).spec_parent(e)
                    && final(self).spec_children(e) == old(self).spec_children(e),
    {
        proof {
            if !self.contains(root) {
                self.lemma_unregistered(root);
            }
        }
        self.add_node(root);
        self.root = Some(root);
        proof {
            assert(self.entities().contains(root) || self.entities().last() == root);
        }
    }

    /// The number of registered entities.
    pub fn count(&self) -> (r: usize)
        requires
            self.wf(),
        ensures
            r == self.entities().len(),
    {
        arena_len(&self.arena)
    }

    pub fn is_empty(&self) -> (r: bool)
        requires
            self.wf(),
        ensures
            r == (self.entities().len() == 0),
    {
        arena_is_empty(&self.arena)
    }

    pub fn root(&self) -> (r: Option<Entity>)
        ensures
            r == self.spec_root(),
    {
        self.root
    }

    /// The entity that a node of this tree holds.
    pub fn entitiy_of(&self, node: NodeId) -> (r: Option<Entity>)
        ensures
            r == self.spec_entity_of(node),
    {
        arena_get(&self.arena, node)
    }

    /// The first child of `parent`, if it is registered and has one.
    pub fn child_of(&self, parent: Entity) -> (r: Option<Entity>)
        requires
            self.wf(),
        ensures
            r == self.spec_child_of(parent),
    {
        match self.find_node(parent) {
            Some(n) => {
                proof {
                    self.lemma_contains(parent);
                }
                match node_nth_child(n, 0, &self.arena) {
                    Some(c) => arena_get(&self.arena, c),
                    None => None,
                }
            },
            None => None,
        }
    }

    /// The parent of `widget`, if it is registered and has one.
    pub fn parent(&self, widget: Entity) -> (r: Option<Entity>)
        requires
            self.wf(),
        ensures
            r == self.spec_parent(widget),
    {
        match self.find_node(widget) {
            Some(n) => {
                proof {
                    self.lemma_contains(widget);
                }
                match node_parent(n, &self.arena) {
                    Some(p) => arena_get(&self.arena, p),
                    None => None,
                }
            },
            None => None,
        }
    }

    fn children_of_node(&self, n: NodeId) -> (r: Vec<Entity>)
        requires
            self.wf(),
            arena_data(self.arena).contains_key(n),
        ensures
            r@ == arena_children(self.arena)[n].map_values(|c: NodeId| arena_data(self.arena)[c]),
    {
        let count = node_child_count(n, &self.arena);
        let ghost s = arena_children(self.arena)[n];
        let mut r: Vec<Entity> = Vec::new();
        let mut i: usize = 0;
        while i < count
            invariant
                self.wf(),
                arena_data(self.arena).contains_key(n),
                s == arena_children(self.arena)[n],
                count == s.len(),
                0 <= i <= count,
                r@ == s.subrange(0, i as int).map_values(|c: NodeId| arena_data(self.arena)[c]),
            decreases count - i,
        {
            if let Some(c) = node_nth_child(n, i, &self.arena) {
                if let Some(e) = arena_get(&self.arena, c) {
                    r.push(e);
                }
            }
            proof {
                assert(arena_data(self.arena).contains_key(s[i as int]));
                assert(s.subrange(0, i + 1) =~= s.subrange(0, i as int).push(s[i as int]));
                assert(s.subrange(0, i + 1).map_values(|c: NodeId| arena_data(self.arena)[c])
                    =~= s.subrange(0, i as int).map_values(|c: NodeId| arena_data(self.arena)[c]).push(
                    arena_data(self.arena)[s[i as int]],
                ));
            }
            i = i + 1;
        }
        assert(s.subrange(0, count as int) =~= s);
        r
    }

    /// The children of a registered entity, first to last.
    pub fn children_of(&self, parent: Entity) -> (r: Vec<Entity>)
        requires
            self.wf(),
            self.contains(parent),
        ensures
            r@ == self.spec_children(parent),
    {
        proof {
            self.lemma_contains(parent);
        }
        match self.find_node(parent) {
            Some(n) => self.children_of_node(n),
            None => Vec::new(),
        }
    }

    /// The children of `parent`, or none when it is not registered.
    pub fn try_children_of(&self, parent: Entity) -> (r: Option<Vec<Entity>>)
        requires
            self.wf(),
        ensures
            match r {
                Some(v) => self.contains(parent) && v@ == self.spec_children(parent),
                None => !self.contains(parent),
            },
    {
        proof {
            if self.contains(parent) {
                self.lemma_contains(parent);
            }
        }
        match self.find_node(parent) {
            Some(n) => Some(self.children_of_node(n)),
            None => None,
        }
    }

    /// The root and every entity below it, in pre-order: the root first, each entity
    /// once, every other entity after its parent and every first child right after
    /// its parent, and no child of a listed entity left out. Entities that are not
    /// linked under the root are not listed.
    pub fn children(&self) -> (r: Vec<Entity>)
        requires
            self.wf(),
            self.spec_root() is Some,
        ensures
            r@.len() > 0,
            r@[0] == self.spec_root()->0,
            r@.no_duplicates(),
            forall|i: int| 0 <= i < r@.len() ==> self.contains(#[trigger] r@[i]),
            forall|i: int|
                0 < i < r@.len() ==> exists|j: int|
                    0 <= j < i && #[trigger] self.spec_parent(r@[i]) == Some(r@[j]),
            forall|i: int, k: int|
                0 <= i < r@.len() && 0 <= k < self.spec_children(r@[i]).len() ==> r@.contains(
                    #[trigger] self.spec_children(r@[i])[k],
                ),
            forall|i: int|
                0 <= i < r@.len() && self.spec_children(#[trigger] r@[i]).len() > 0 ==> i + 1
                    < r@.len() && r@[i + 1] == self.spec_children(r@[i])[0],
    {
        let root = self.root.unwrap();
        proof {
            self.lemma_contains(root);
        }
        match self.find_node(root) {
            Some(n) => {
                let ids = node_descendants(n, &self.arena);
                let ghost data = arena_data(self.arena);
                let mut r: Vec<Entity> = Vec::new();
                let mut i: usize = 0;
                while i < ids.len()
                    invariant
                        self.wf(),
                        data == arena_data(self.arena),
                        forall|j: int| 0 <= j < ids@.len() ==> data.contains_key(#[trigger] ids@[j]),
                        0 <= i <= ids@.len(),
                        r@ == ids@.subrange(0, i as int).map_values(|c: NodeId| data[c]),
                    decreases ids@.len() - i,
                {
                    if let Some(e) = arena_get(&self.arena, ids[i]) {
                        r.push(e);
                    }
                    proof {
                        assert(data.contains_key(ids@[i as int]));
                        assert(ids@.subrange(0, i + 1) =~= ids@.subrange(0, i as int).push(ids@[i as int]));
                        assert(ids@.subrange(0, i + 1).map_values(|c: NodeId| data[c])
                            =~= ids@.subrange(0, i as int).map_values(|c: NodeId| data[c]).push(
                            data[ids@[i as int]],
                        ));
                    }
                    i = i + 1;
                }
                assert(ids@.subrange(0, ids@.len() as int) =~= ids@);
                proof {
                    self.lemma_walk(ids@, r@);
                }
                r
            },
            None => Vec::new(),
        }
    }

    proof fn lemma_walk(self, ids: Seq<NodeId>, r: Seq<Entity>)
        requires
            self.wf(),
            r == ids.map_values(|c: NodeId| arena_data(self.arena)[c]),
            ids.no_duplicates(),
            forall|i: int| 0 <= i < ids.len() ==> arena_data(self.arena).contains_key(#[trigger] ids[i]),
            forall|i: int|
                0 < i < ids.len() ==> arena_parents(self.arena).contains_key(#[trigger] ids[i])
                    && exists|j: int| 0 <= j < i && ids[j] == arena_parents(self.arena)[ids[i]],
            forall|i: int, k: int|
                0 <= i < ids.len() && 0 <= k < arena_children(self.arena)[ids[i]].len()
                    ==> ids.contains(#[trigger] arena_children(self.arena)[ids[i]][k]),
            forall|i: int|
                0 <= i < ids.len() && arena_children(self.arena)[#[trigger] ids[i]].len() > 0 ==> i
                    + 1 < ids.len() && ids[i + 1] == arena_children(self.arena)[ids[i]][0],
        ensures
            r.no_duplicates(),
            forall|i: int| 0 <= i < r.len() ==> self.contains(#[trigger] r[i]),
            forall|i: int|
                0 < i < r.len() ==> exists|j: int|
                    0 <= j < i && #[trigger] self.spec_parent(r[i]) == Some(r[j]),
            forall|i: int, k: int|
                0 <= i < r.len() && 0 <= k < self.spec_children(r[i]).len() ==> r.contains(
                    #[trigger] self.spec_children(r[i])[k],
                ),
            forall|i: int|
                0 <= i < r.len() && self.spec_children(#[trigger] r[i]).len() > 0 ==> i + 1 < r.len()
                    && r[i + 1] == self.spec_children(r[i])[0],
    {
        let data = arena_data(self.arena);
        let parents = arena_parents(self.arena);
        let children = arena_children(self.arena);
        assert forall|i: int| 0 <= i < r.len() implies self.contains(#[trigger] r[i])
            && self.node_of(r[i]) == ids[i] by {
            self.lemma_live_node(ids[i]);
        }
        assert forall|i: int, j: int| 0 <= i < r.len() && 0 <= j < r.len() && i != j implies r[i]
            != r[j] by {
            assert(self.node_of(r[i]) == ids[i]);
            assert(self.node_of(r[j]) == ids[j]);
        }
        assert forall|i: int| 0 < i < r.len() implies exists|j: int|
            0 <= j < i && #[trigger] self.spec_parent(r[i]) == Some(r[j]) by {
            assert(self.node_of(r[i]) == ids[i]);
            let j = choose|j: int| 0 <= j < i && ids[j] == parents[ids[i]];
            assert(self.spec_parent(r[i]) == Some(r[j]));
        }
        assert forall|i: int, k: int|
            0 <= i < r.len() && 0 <= k < self.spec_children(r[i]).len() implies r.contains(
            #[trigger] self.spec_children(r[i])[k],
        ) by {
            assert(self.node_of(r[i]) == ids[i]);
            let c = children[ids[i]][k];
            assert(ids.contains(c));
            let m = choose|m: int| 0 <= m < ids.len() && ids[m] == c;
            assert(r[m] == data[c]);
        }
        assert forall|i: int|
            0 <= i < r.len() && self.spec_children(#[trigger] r[i]).len() > 0 implies i + 1 < r.len()
            && r[i + 1] == self.spec_children(r[i])[0] by {
            assert(self.node_of(r[i]) == ids[i]);
        }
    }

    /// Appends by node ids, and reports instead of failing when the nodes are
    /// the same, not live, or `child` is an ancestor of `parent`.
    pub fn try_append_child(&mut self, parent: NodeId, child: NodeId) -> (r: Result<(), NodeError>)
        requires
            old(self).wf(),
        ensures
            final(self).wf(),
            final(self).entities() == old(self).entities(),
            final(self).spec_root() == old(self).spec_root(),
            r is Err <==> (parent == child || old(self).spec_entity_of(parent) is None
                || old(self).spec_entity_of(child) is None || old(self).is_ancestor_of(
                old(self).spec_entity_of(child)->0,
                old(self).spec_entity_of(parent)->0,
            )),
            r is Err ==> forall|e: Entity|
                final(self).spec_parent(e) == old(self).spec_parent(e) && final(self).spec_children(e)
                    == old(self).spec_children(e),
            r is Ok ==> old(self).appended(
                old(self).spec_entity_of(parent)->0,
                old(self).spec_entity_of(child)->0,
                *final(self),
            ),
            r is Ok ==> final(self).spec_parent(old(self).spec_entity_of(child)->0) == old(
                self,
            ).spec_entity_of(parent),
            r is Ok ==> final(self).spec_children(old(self).spec_entity_of(parent)->0).last() == old(
                self,
            ).spec_entity_of(child)->0,
            r is Ok ==> forall|e: Entity|
                e != old(self).spec_entity_of(child)->0 ==> final(self).spec_parent(e) == old(
                    self,
                ).spec_parent(e),
    {
        let ghost old_tree = *self;
        proof {
            if old_tree.spec_entity_of(parent) is Some && old_tree.spec_entity_of(child) is Some {
                let pi = choose|i: int| 0 <= i < old_tree.map@.len() && #[trigger] old_tree.map@[i].1 == parent;
                let ci = choose|i: int| 0 <= i < old_tree.map@.len() && #[trigger] old_tree.map@[i].1 == child;
                old_tree.lemma_node_of(pi);
                old_tree.lemma_node_of(ci);
            }
        }
        let r = node_checked_append(parent, child, &mut self.arena);
        proof {
            if r is Ok {
                let pi = choose|i: int| 0 <= i < old_tree.map@.len() && #[trigger] old_tree.map@[i].1 == parent;
                let ci = choose|i: int| 0 <= i < old_tree.map@.len() && #[trigger] old_tree.map@[i].1 == child;
                old_tree.lemma_node_of(pi);
                old_tree.lemma_node_of(ci);
                let pe = old_tree.map@[pi].0;
                let ce = old_tree.map@[ci].0;
                if pe == ce {
                    assert(pi == ci);
                }
                lemma_append_child(old_tree, *self, pe, ce);
            }
        }
        r
    }
}

/// Appending a registered child to a registered parent keeps the tree well formed
/// with the same entities and the same root; afterwards the child's parent is the
/// parent, the child is the parent's last child, and no other entity changes parent.
pub proof fn lemma_append_child(before: EntityTree, after: EntityTree, parent: Entity, child: Entity)
    requires
        before.wf(),
        before.contains(parent),
        before.contains(child),
        parent != child,
        !before.is_ancestor_of(child, parent),
        before.appended(parent, child, after),
    ensures
        after.wf(),
        after.entities() == before.entities(),
        after.spec_root() == before.spec_root(),
        after.spec_parent(child) == Some(parent),
        after.spec_children(parent).contains(child),
        after.spec_children(parent).last() == child,
        before.spec_children(parent).len() == 0 ==> after.spec_children(parent) == seq![child],
        forall|e: Entity| e != child ==> after.spec_parent(e) == before.spec_parent(e),
{
    before.lemma_contains(parent);
    before.lemma_contains(child);
    let pn = before.node_of(parent);
    let cn = before.node_of(child);
    after.lemma_append_wf(before, pn, cn);
    after.lemma_contains(parent);
    after.lemma_contains(child);
    assert(after.node_of(parent) == pn);
    assert(after.node_of(child) == cn);
    let s = arena_children(after.arena)[pn];
    let ms = s.map_values(|x: NodeId| arena_data(after.arena)[x]);
    assert(ms[ms.len() - 1] == child);
    if before.spec_children(parent).len() == 0 {
        let c0 = arena_children(before.arena)[pn];
        assert(c0.len() == 0);
        c0.index_of_first_ensures(cn);
        assert(s =~= seq![cn]);
        assert(ms =~= seq![child]);
    }
    assert forall|e: Entity| e != child implies after.spec_parent(e) == before.spec_parent(e) by {
        if after.contains(e) {
            after.lemma_contains(e);
            if after.node_of(e) == cn {
                after.lemma_node_of(after.index_of(e));
                after.lemma_node_of(after.index_of(child));
            }
        }
    }
}

} // verus!
