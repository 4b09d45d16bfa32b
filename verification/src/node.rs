//! Nodes and the store that owns them and hands out their ids.

use vstd::prelude::*;
use vstd::string::*;

verus! {

/// What a node holds, as mathematical values.
pub struct NodeView {
    pub id: int,
    pub content: Seq<char>,
    pub owner: Seq<char>,
    pub links: Seq<i64>,
}

/// A uniquely identified piece of text owned by some module.
#[derive(Debug)]
pub struct Node {
    id: i64,
    content: String,
    owner: String,
    links: Vec<i64>,
}

impl View for Node {
    type V = NodeView;

    closed spec fn view(&self) -> NodeView {
        NodeView {
            id: self.id as int,
            content: self.content@,
            owner: self.owner@,
            links: self.links@,
        }
    }
}

impl Default for Node {
    /// The placeholder node.
    fn default() -> (node: Node)
        ensures
            node@.id == -1,
            node@.content == "null"@,
            node@.owner == "null"@,
            node@.links == Seq::<i64>::empty(),
    {
        Node {
            id: -1,
            content: String::from_str("null"),
            owner: String::from_str("null"),
            links: Vec::new(),
        }
    }
}

impl Node {
    pub fn get_content(&self) -> (content: &String)
        ensures
            content@ == self@.content,
    {
        &self.content
    }

    pub fn set_content(&mut self, string: String)
        ensures
            final(self)@ == (NodeView { content: string@, ..old(self)@ }),
    {
        self.content = string;
    }

    pub fn get_owner(&self) -> (owner: &String)
        ensures
            owner@ == self@.owner,
    {
        &self.owner
    }

    pub fn set_owner(&mut self, string: String)
        ensures
            final(self)@ == (NodeView { owner: string@, ..old(self)@ }),
    {
        self.owner = string;
    }

    /// The ids of the nodes that this node links to.
    pub fn get_links(&self) -> (links: &Vec<i64>)
        ensures
            links@ == self@.links,
    {
        &self.links
    }

    pub fn get_id(&self) -> (id: i64)
        ensures
            id as int == self@.id,
    {
        self.id
    }

    /// The placeholder node: id -1, content and owner "null", no links.
    pub fn null() -> (node: Node)
        ensures
            node@.id == -1,
            node@.content == "null"@,
            node@.owner == "null"@,
            node@.links == Seq::<i64>::empty(),
    {
        Node::default()
    }

    /// A node as it was stored: the given id, content and owner, no links.
    pub fn restore(id: i64, content: String, owner: String) -> (node: Node)
        ensures
            node@ == (NodeView {
                id: id as int,
                content: content@,
                owner: owner@,
                links: Seq::<i64>::empty(),
            }),
    {
        Node { id, content, owner, links: Vec::new() }
    }

    /// An independent node with the same id, content, owner and links.
    pub fn duplicate(&self) -> (node: Node)
        ensures
            node@ == self@,
    {
        let mut links: Vec<i64> = Vec::new();
        let mut i: usize = 0;
        while i < self.links.len()
            invariant
                i <= self.links.len(),
                links@ == self.links@.take(i as int),
            decreases self.links.len() - i,
        {
            links.push(self.links[i]);
            proof {
                assert(self.links@.take(i + 1) =~= self.links@.take(i as int).push(
                    self.links@[i as int],
                ));
            }
            i += 1;
        }
        proof {
            assert(self.links@.take(i as int) =~= self.links@);
        }
        Node { id: self.id, content: self.content.clone(), owner: self.owner.clone(), links }
    }

    /// Creates a node with the next free id and appends it to `store`.
    /// Returns the id, or `None`, leaving the store as it was, where the
    /// ids are used up. The id is larger than every id that the store
    /// held, and the next one created is larger by one.
    pub fn create_and_register(content: String, owner: String, store: &mut NodeStore) -> (id: Option<
        i64,
    >)
        ensures
            final(store).well_formed(),
            id == old(store).spec_fresh_id(),
            final(store)@ == old(store)@.registered(content@, owner@),
            match id {
                Some(created) => {
                    &&& final(store)@.nodes.last().id == created
                    &&& final(store).spec_fresh_id() is Some ==> final(store).spec_fresh_id()->0
                        == created + 1
                    &&& forall|i: int|
                        0 <= i < old(store)@.nodes.len() ==> (#[trigger] old(store)@.nodes[i]).id
                            < created
                },
                None => final(store)@ == old(store)@,
            },
    {
        proof {
            use_type_invariant(&*store);
        }
        if store.next_id > 0x7fff_ffff_ffff_ffff {
            return None;
        }
        let id: i64 = store.next_id as i64;
        let node = Node { id, content, owner, links: Vec::new() };
        let mut nodes: Vec<Node> = Vec::new();
        core::mem::swap(&mut store.nodes, &mut nodes);
        store.next_id = store.next_id + 1;
        nodes.push(node);
        proof {
            assert forall|i: int| 0 <= i < nodes@.len() implies (#[trigger] nodes@[i]).id
                < store.next_id by {
                if i < nodes@.len() - 1 {
                    assert(old(store)@.nodes[i].id < old(store)@.next_id);
                }
            }
        }
        core::mem::swap(&mut store.nodes, &mut nodes);
        proof {
            assert(final(store)@.nodes =~= old(store)@.registered(content@, owner@).nodes);
        }
        Some(id)
    }
}

/// The largest id among `nodes`, and zero where none is above it.
pub open spec fn max_id(nodes: Seq<NodeView>) -> int
    decreases nodes.len(),
{
    if nodes.len() == 0 {
        0
    } else if nodes.last().id > max_id(nodes.drop_last()) {
        nodes.last().id
    } else {
        max_id(nodes.drop_last())
    }
}

/// Whether `id` is among `ids`.
pub open spec fn mentions(ids: Seq<i64>, id: int) -> bool {
    exists|k: int| 0 <= k < ids.len() && ids[k] == id
}

/// What a node store holds, as mathematical values.
pub struct NodeStoreState {
    pub nodes: Seq<NodeView>,
    pub next_id: int,
}

impl NodeStoreState {
    /// Every id in the store lies below the next id to hand out, which
    /// is at most one past the largest id that exists.
    pub open spec fn well_formed(self) -> bool {
        &&& 0 <= self.next_id <= i64::MAX as int + 1
        &&& forall|i: int| 0 <= i < self.nodes.len() ==> (#[trigger] self.nodes[i]).id < self.next_id
    }

    /// The store after one node was created for each of `contents`, in
    /// order, all for the owner `owner`.
    pub open spec fn registered_all(self, contents: Seq<Seq<char>>, owner: Seq<char>) -> NodeStoreState
        decreases contents.len(),
    {
        if contents.len() == 0 {
            self
        } else {
            self.registered_all(contents.drop_last(), owner).registered(contents.last(), owner)
        }
    }

    /// The store after a node with the next id was appended, and the
    /// store itself where the ids are used up.
    pub open spec fn registered(self, content: Seq<char>, owner: Seq<char>) -> NodeStoreState {
        if self.next_id > i64::MAX as int {
            self
        } else {
            NodeStoreState {
                nodes: self.nodes.push(
                    NodeView { id: self.next_id, content, owner, links: Seq::<i64>::empty() },
                ),
                next_id: self.next_id + 1,
            }
        }
    }

    /// The store without the nodes of the given id.
    pub open spec fn without(self, id: int) -> NodeStoreState {
        NodeStoreState { nodes: self.nodes.filter(|n: NodeView| n.id != id), ..self }
    }

    /// The store without the nodes whose id is among `ids`.
    pub open spec fn without_all(self, ids: Seq<i64>) -> NodeStoreState {
        NodeStoreState { nodes: self.nodes.filter(|n: NodeView| !mentions(ids, n.id)), ..self }
    }

    /// The content of the first node with the given id, and the empty
    /// text where there is none.
    pub open spec fn content_of(self, id: int) -> Seq<char> {
        match self.position_of(id) {
            Some(index) => self.nodes[index].content,
            None => Seq::<char>::empty(),
        }
    }

    /// The store after the first node with the given id took the content
    /// `content`, and the store itself where there is none.
    pub open spec fn with_content(self, id: int, content: Seq<char>) -> NodeStoreState {
        match self.position_of(id) {
            Some(index) => NodeStoreState {
                nodes: self.nodes.update(index, NodeView { content, ..self.nodes[index] }),
                ..self
            },
            None => self,
        }
    }

    /// Whether `index` is the first position of a node with the given id.
    pub open spec fn first_at(self, id: int, index: int) -> bool {
        &&& 0 <= index < self.nodes.len()
        &&& self.nodes[index].id == id
        &&& forall|j: int| 0 <= j < index ==> (#[trigger] self.nodes[j]).id != id
    }

    /// The first position of a node with the given id.
    pub open spec fn position_of(self, id: int) -> Option<int> {
        if exists|i: int| self.first_at(id, i) {
            Some(choose|i: int| self.first_at(id, i))
        } else {
            None
        }
    }
}

/// The collection of all nodes, with the counter that numbers new ones.
#[derive(Debug)]
pub struct NodeStore {
    nodes: Vec<Node>,
    next_id: u64,
}

impl View for NodeStore {
    type V = NodeStoreState;

    closed spec fn view(&self) -> NodeStoreState {
        NodeStoreState {
            nodes: Seq::new(self.nodes@.len(), |i: int| self.nodes@[i]@),
            next_id: self.next_id as int,
        }
    }
}

impl NodeStore {
    #[verifier::type_invariant]
    closed spec fn numbered_below_counter(&self) -> bool {
        self@.well_formed()
    }

    /// Every id in the store lies below the next id to hand out, which
    /// is at most one past the largest id that exists. This holds of
    /// every store at all times.
    pub open spec fn well_formed(&self) -> bool {
        self@.well_formed()
    }

    /// The id that the next created node gets, if one is left.
    pub open spec fn spec_fresh_id(&self) -> Option<i64> {
        if self@.next_id > i64::MAX as int {
            None
        } else {
            Some(self@.next_id as i64)
        }
    }

    /// An empty store whose first node gets id 0.
    pub fn new() -> (store: NodeStore)
        ensures
            store.well_formed(),
            store@.nodes == Seq::<NodeView>::empty(),
            store@.next_id == 0,
    {
        let store = NodeStore { nodes: Vec::new(), next_id: 0 };
        proof {
            assert(store@.nodes =~= Seq::<NodeView>::empty());
        }
        store
    }

    /// A store of the given nodes, numbering new nodes from one past the
    /// largest id among them, and from 1 where none is above zero.
    pub fn from_loaded(nodes: Vec<Node>) -> (store: NodeStore)
        ensures
            store.well_formed(),
            store@.nodes == Seq::new(nodes@.len(), |i: int| nodes@[i]@),
            store@.next_id == max_id(store@.nodes) + 1,
    {
        let ghost views = Seq::new(nodes@.len(), |i: int| nodes@[i]@);
        let mut largest: i64 = 0;
        let mut i: usize = 0;
        while i < nodes.len()
            invariant
                i <= nodes.len(),
                views == Seq::new(nodes@.len(), |i: int| nodes@[i]@),
                largest as int == max_id(views.take(i as int)),
                largest >= 0,
                forall|j: int| 0 <= j < i ==> (#[trigger] views[j]).id <= largest,
            decreases nodes.len() - i,
        {
            proof {
                assert(views.take(i + 1).drop_last() =~= views.take(i as int));
                assert(views.take(i + 1).last() == views[i as int]);
            }
            let id = nodes[i].get_id();
            if id > largest {
                largest = id;
            }
            i += 1;
        }
        proof {
            assert(views.take(i as int) =~= views);
        }
        let store = NodeStore { nodes, next_id: largest as u64 + 1 };
        proof {
            assert(store@.nodes =~= views);
        }
        store
    }

    pub fn len(&self) -> (n: usize)
        ensures
            n == self@.nodes.len(),
    {
        self.nodes.len()
    }

    /// The id that the next created node gets, if one is left.
    pub fn fresh_id(&self) -> (id: Option<i64>)
        ensures
            id == self.spec_fresh_id(),
            self.well_formed(),
    {
        proof {
            use_type_invariant(self);
        }
        if self.next_id > 0x7fff_ffff_ffff_ffff {
            None
        } else {
            Some(self.next_id as i64)
        }
    }

    pub fn get(&self, index: usize) -> (node: &Node)
        requires
            index < self@.nodes.len(),
        ensures
            node@ == self@.nodes[index as int],
    {
        &self.nodes[index]
    }

    /// The first position of a node with the given id.
    pub fn find(&self, id: i64) -> (found: Option<usize>)
        ensures
            match found {
                Some(index) => self@.position_of(id as int) == Some(index as int) && index
                    < self@.nodes.len() && self@.nodes[index as int].id == id,
                None => self@.position_of(id as int) is None,
            },
    {
        let mut i: usize = 0;
        while i < self.nodes.len()
            invariant
                i <= self.nodes.len(),
                forall|j: int| 0 <= j < i ==> (#[trigger] self@.nodes[j]).id != id,
            decreases self.nodes.len() - i,
        {
            if self.nodes[i].get_id() == id {
                proof {
                    assert(self@.first_at(id as int, i as int));
                    let c = choose|c: int| self@.first_at(id as int, c);
                    assert(self@.first_at(id as int, c));
                    if c < i {
                        assert(self@.nodes[c].id != id);
                    }
                    if c > i {
                        assert(self@.nodes[i as int].id != id);
                    }
                }
                return Some(i);
            }
            i += 1;
        }
        proof {
            assert forall|c: int| !self@.first_at(id as int, c) by {
                if 0 <= c < self@.nodes.len() {
                    assert(self@.nodes[c].id != id);
                }
            }
        }
        None
    }

    /// Replaces the content of the node at `index`.
    pub fn set_content_at(&mut self, index: usize, content: String)
        requires
            index < old(self)@.nodes.len(),
        ensures
            final(self)@.next_id == old(self)@.next_id,
            final(self)@.nodes == old(self)@.nodes.update(
                index as int,
                NodeView { content: content@, ..old(self)@.nodes[index as int] },
            ),
            final(self).well_formed(),
    {
        proof {
            use_type_invariant(&*self);
        }
        let mut node = self.nodes[index].duplicate();
        node.set_content(content);
        let mut nodes: Vec<Node> = Vec::new();
        core::mem::swap(&mut self.nodes, &mut nodes);
        nodes.set(index, node);
        proof {
            assert forall|i: int| 0 <= i < nodes@.len() implies (#[trigger] nodes@[i]).id
                < self.next_id by {
                assert(old(self)@.nodes[i].id < old(self)@.next_id);
            }
        }
        core::mem::swap(&mut self.nodes, &mut nodes);
        proof {
            assert(final(self)@.nodes =~= old(self)@.nodes.update(
                index as int,
                NodeView { content: content@, ..old(self)@.nodes[index as int] },
            ));
        }
    }

    /// Removes every node whose id is among `ids`.
    pub fn remove_all(&mut self, ids: &Vec<i64>)
        ensures
            final(self)@ == old(self)@.without_all(ids@),
            final(self).well_formed(),
    {
        let ghost views = self@.nodes;
        let ghost keep = |n: NodeView| !mentions(ids@, n.id);
        let mut kept: Vec<Node> = Vec::new();
        let mut i: usize = 0;
        while i < self.nodes.len()
            invariant
                i <= self.nodes.len(),
                *self == *old(self),
                views == self@.nodes,
                keep == |n: NodeView| !mentions(ids@, n.id),
                Seq::new(kept@.len(), |k: int| kept@[k]@) == views.take(i as int).filter(keep),
            decreases self.nodes.len() - i,
        {
            proof {
                assert(views.take(i + 1).drop_last() =~= views.take(i as int));
                assert(views.take(i + 1).last() == views[i as int]);
                reveal(Seq::filter);
            }
            let id = self.nodes[i].get_id();
            let mut listed = false;
            let mut k: usize = 0;
            while k < ids.len()
                invariant
                    k <= ids.len(),
                    listed == exists|j: int| 0 <= j < k && ids@[j] == id,
                decreases ids.len() - k,
            {
                if ids[k] == id {
                    listed = true;
                }
                k += 1;
            }
            proof {
                assert(listed == mentions(ids@, id as int));
            }
            if !listed {
                let ghost before = Seq::new(kept@.len(), |k: int| kept@[k]@);
                kept.push(self.nodes[i].duplicate());
                proof {
                    assert(Seq::new(kept@.len(), |k: int| kept@[k]@) =~= before.push(
                        views[i as int],
                    ));
                }
            }
            i += 1;
        }
        proof {
            use_type_invariant(&*self);
            let survivors = Seq::new(kept@.len(), |k: int| kept@[k]@);
            assert(views.take(i as int) =~= views);
            assert(survivors == views.filter(keep));
            assert forall|k: int| 0 <= k < kept@.len() implies (#[trigger] kept@[k]).id
                < self.next_id by {
                assert(survivors[k] == kept@[k]@);
                assert(views.filter(keep).contains(survivors[k]));
                views.lemma_filter_contains_rev(keep, survivors[k]);
                let j = choose|j: int| 0 <= j < views.len() && views[j] == survivors[k];
                assert(self@.nodes[j].id < self@.next_id);
            }
        }
        self.nodes = kept;
        proof {
            assert(final(self)@.nodes =~= views.filter(keep));
        }
    }

    /// The number of characters in the content of the first node with
    /// the given id, and zero where there is none.
    pub fn content_length(&self, id: i64) -> (length: usize)
        ensures
            length == self@.content_of(id as int).len(),
    {
        match self.find(id) {
            Some(index) => self.nodes[index].content.as_str().unicode_len(),
            None => 0,
        }
    }

    /// Removes every node with the given id.
    pub fn remove(&mut self, id: i64)
        ensures
            final(self)@ == old(self)@.without(id as int),
            final(self).well_formed(),
    {
        let ghost views = self@.nodes;
        let ghost keep = |n: NodeView| n.id != id as int;
        let mut kept: Vec<Node> = Vec::new();
        let mut i: usize = 0;
        while i < self.nodes.len()
            invariant
                i <= self.nodes.len(),
                *self == *old(self),
                views == self@.nodes,
                keep == |n: NodeView| n.id != id as int,
                Seq::new(kept@.len(), |k: int| kept@[k]@) == views.take(i as int).filter(keep),
            decreases self.nodes.len() - i,
        {
            proof {
                assert(views.take(i + 1).drop_last() =~= views.take(i as int));
                assert(views.take(i + 1).last() == views[i as int]);
                reveal(Seq::filter);
            }
            if self.nodes[i].get_id() != id {
                let ghost before = Seq::new(kept@.len(), |k: int| kept@[k]@);
                kept.push(self.nodes[i].duplicate());
                proof {
                    assert(Seq::new(kept@.len(), |k: int| kept@[k]@) =~= before.push(
                        views[i as int],
                    ));
                }
            }
            i += 1;
        }
        proof {
            use_type_invariant(&*self);
            let survivors = Seq::new(kept@.len(), |k: int| kept@[k]@);
            assert(views.take(i as int) =~= views);
            assert(survivors == views.filter(keep));
            assert forall|k: int| 0 <= k < kept@.len() implies (#[trigger] kept@[k]).id
                < self.next_id by {
                assert(survivors[k] == kept@[k]@);
                assert(views.filter(keep).contains(survivors[k]));
                views.lemma_filter_contains_rev(keep, survivors[k]);
                let j = choose|j: int| 0 <= j < views.len() && views[j] == survivors[k];
                assert(self@.nodes[j].id < self@.next_id);
            }
        }
        self.nodes = kept;
        proof {
            assert(final(self)@.nodes =~= views.filter(keep));
        }
    }
}

/// Nodes created one after another, however many, get ids that count
/// up by one from the store's next id: each is larger by one than the one
/// before, and larger than every id that the store held, so no two are
/// equal and none equals an id that was there. The nodes that the store
/// held stay as they were.
pub proof fn lemma_created_ids_increase(
    store: NodeStoreState,
    contents: Seq<Seq<char>>,
    owner: Seq<char>,
)
    requires
        store.well_formed(),
        store.next_id + contents.len() <= i64::MAX as int + 1,
    ensures
        store.registered_all(contents, owner).well_formed(),
        store.registered_all(contents, owner).next_id == store.next_id + contents.len(),
        store.registered_all(contents, owner).nodes.len() == store.nodes.len() + contents.len(),
        forall|k: int|
            0 <= k < contents.len() ==> (#[trigger] store.registered_all(
                contents,
                owner,
            ).nodes[store.nodes.len() + k]).id == store.next_id + k,
        forall|k: int|
            0 <= k < store.nodes.len() ==> (#[trigger] store.registered_all(
                contents,
                owner,
            ).nodes[k]) == store.nodes[k],
        forall|j: int, k: int|
            0 <= j < k < store.nodes.len() + contents.len() && store.nodes.len() <= k ==> (
            #[trigger] store.registered_all(contents, owner).nodes[j]).id < (
            #[trigger] store.registered_all(contents, owner).nodes[k]).id,
        forall|k: int|
            0 <= k < contents.len() - 1 ==> store.registered_all(contents, owner).nodes[store.nodes.len()
                + k + 1].id == (#[trigger] store.registered_all(contents, owner).nodes[store.nodes.len()
                + k]).id + 1,
        forall|j: int, k: int|
            0 <= j < store.nodes.len() && 0 <= k < contents.len() ==> (#[trigger] store.nodes[j]).id != (
            #[trigger] store.registered_all(contents, owner).nodes[store.nodes.len() + k]).id,
    decreases contents.len(),
{
    if contents.len() > 0 {
        lemma_created_ids_increase(store, contents.drop_last(), owner);
        let before = store.registered_all(contents.drop_last(), owner);
        let after = store.registered_all(contents, owner);
        assert(after == before.registered(contents.last(), owner));
        assert forall|k: int| 0 <= k < contents.len() implies (#[trigger] after.nodes[store.nodes.len()
            + k]).id == store.next_id + k by {
            if k < contents.len() - 1 {
                assert(after.nodes[store.nodes.len() + k] == before.nodes[store.nodes.len() + k]);
            }
        }
        assert forall|k: int| 0 <= k < store.nodes.len() implies (#[trigger] after.nodes[k])
            == store.nodes[k] by {
            assert(after.nodes[k] == before.nodes[k]);
        }
    }
    let all = store.registered_all(contents, owner);
    assert forall|j: int, k: int|
        0 <= j < k < store.nodes.len() + contents.len() && store.nodes.len() <= k implies (
    #[trigger] all.nodes[j]).id < (#[trigger] all.nodes[k]).id by {
        assert(all.nodes[store.nodes.len() + (k - store.nodes.len())].id == store.next_id + (k
            - store.nodes.len()));
        if j < store.nodes.len() {
            assert(all.nodes[j] == store.nodes[j]);
        } else {
            assert(all.nodes[store.nodes.len() + (j - store.nodes.len())].id == store.next_id + (j
                - store.nodes.len()));
        }
    }
}

/// A store that was loaded from nodes whose largest id is `largest`,
/// and not negative, numbers on right behind it: the next node created
/// gets the id `largest + 1`, if that id exists.
pub proof fn lemma_numbering_resumes(
    store: NodeStoreState,
    largest: int,
    content: Seq<char>,
    owner: Seq<char>,
)
    requires
        store.next_id == max_id(store.nodes) + 1,
        largest >= 0,
        exists|i: int| 0 <= i < store.nodes.len() && (#[trigger] store.nodes[i]).id == largest,
        forall|i: int| 0 <= i < store.nodes.len() ==> (#[trigger] store.nodes[i]).id <= largest,
    ensures
        store.next_id == largest + 1,
        largest < i64::MAX ==> store.registered(content, owner).nodes.last().id == largest + 1,
{
    lemma_max_id_bounds(store.nodes);
    let i = choose|i: int| 0 <= i < store.nodes.len() && (#[trigger] store.nodes[i]).id == largest;
    assert(store.nodes[i].id <= max_id(store.nodes));
}

/// `max_id` is at least every id and at least zero, and is zero or one
/// of the ids.
pub proof fn lemma_max_id_bounds(nodes: Seq<NodeView>)
    ensures
        max_id(nodes) >= 0,
        forall|i: int| 0 <= i < nodes.len() ==> (#[trigger] nodes[i]).id <= max_id(nodes),
        max_id(nodes) == 0 || exists|i: int|
            0 <= i < nodes.len() && (#[trigger] nodes[i]).id == max_id(nodes),
    decreases nodes.len(),
{
    if nodes.len() > 0 {
        lemma_max_id_bounds(nodes.drop_last());
        assert forall|i: int| 0 <= i < nodes.len() implies (#[trigger] nodes[i]).id <= max_id(
            nodes,
        ) by {
            if i < nodes.len() - 1 {
                assert(nodes.drop_last()[i] == nodes[i]);
            }
        }
        if max_id(nodes) != 0 {
            if nodes.last().id > max_id(nodes.drop_last()) {
                assert(nodes[nodes.len() - 1].id == max_id(nodes));
            } else {
                let i = choose|i: int|
                    0 <= i < nodes.drop_last().len() && (#[trigger] nodes.drop_last()[i]).id
                        == max_id(nodes.drop_last());
                assert(nodes[i].id == max_id(nodes));
            }
        }
    }
}

} // verus!
