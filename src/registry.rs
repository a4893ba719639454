use std::collections::HashMap;

use vstd::prelude::*;

use crate::error::SnapError;
use crate::node::{handoff_finished, handoff_started, same_node, Handoff, Node, NodeType, NodeView};
use crate::utf16::utf16z_of;

verus! {

broadcast use vstd::std_specs::hash::group_hash_axioms;

/// The cookie under which the root node stands.
pub const ROOT_COOKIE: isize = 0;

/// Bit of a display-info request mask that asks for the display string.
pub const SDI_STR: u32 = 0x2;

/// The display name of the root node.
pub open spec fn root_display_name() -> Seq<char> {
    "SMBus Snap-in"@
}

/// Whether a display-info request mask asks for the display string.
pub open spec fn wants_string(mask: u32) -> bool {
    mask & SDI_STR != 0
}

/// A fresh node of the given kind and name.
pub open spec fn fresh_node(n: NodeView, t: NodeType, name: Seq<char>) -> bool {
    &&& n.node_type == t
    &&& n.display_name == name
    &&& n.pending is None
    &&& n.tree_position is None
}

/// The tracked display buffers of the nodes under cookies `0 .. n`, in
/// cookie order.
pub open spec fn pending_upto(m: Map<isize, Node>, n: int) -> Seq<usize>
    decreases n,
{
    if n <= 0 {
        seq![]
    } else {
        let prev = pending_upto(m, n - 1);
        let c = (n - 1) as isize;
        if m.contains_key(c) && m[c]@.pending is Some {
            prev.push(m[c]@.pending->Some_0)
        } else {
            prev
        }
    }
}

/// The nodes of a snap-in instance, by cookie.
///
/// Cookie 0 is the root, made on first reference. Every other node gets the
/// next cookie from a counter that starts at 1 and only grows, so no cookie
/// is handed out twice.
#[derive(Debug)]
pub struct NodeRegistry {
    nodes: HashMap<isize, Node>,
    next_cookie: isize,
}

impl NodeRegistry {
    /// The nodes, by cookie.
    pub closed spec fn entries(&self) -> Map<isize, Node> {
        self.nodes@
    }

    /// The cookie that the next added node will get.
    pub closed spec fn next(&self) -> isize {
        self.next_cookie
    }

    /// The counter is positive; the root, and only the root, stands under
    /// cookie 0; every other cookie was handed out by the counter; no node
    /// tracks a buffer at address zero.
    pub open spec fn wf(&self) -> bool {
        &&& self.next() >= 1
        &&& forall|c: isize| #[trigger]
            self.entries().contains_key(c) ==> {
                &&& c == ROOT_COOKIE || 1 <= c < self.next()
                &&& (self.entries()[c]@.node_type == NodeType::Root <==> c == ROOT_COOKIE)
                &&& self.entries()[c].wf()
            }
    }

    /// Whether the cookie names a node that is not yet in the host's tree
    /// and is not the root.
    pub open spec fn unpositioned(&self, c: isize) -> bool {
        &&& self.entries().contains_key(c)
        &&& self.entries()[c]@.node_type != NodeType::Root
        &&& self.entries()[c]@.tree_position is None
    }

    /// What adding a node named `name` under cookie `c` makes of `pre`.
    pub open spec fn added(pre: NodeRegistry, post: NodeRegistry, name: Seq<char>, c: isize) -> bool {
        &&& c == pre.next()
        &&& post.next() == pre.next() + 1
        &&& !pre.entries().contains_key(c)
        &&& post.entries().contains_key(c)
        &&& fresh_node(post.entries()[c]@, NodeType::Folder, name)
        &&& post.entries() == pre.entries().insert(c, post.entries()[c])
    }

    /// What asking for the root makes of `pre`, with `root` the node returned.
    pub open spec fn rooted(pre: NodeRegistry, post: NodeRegistry, root: Node) -> bool {
        &&& post.next() == pre.next()
        &&& post.entries().contains_key(ROOT_COOKIE)
        &&& root == post.entries()[ROOT_COOKIE]
        &&& pre.entries().contains_key(ROOT_COOKIE) ==> post.entries() == pre.entries()
        &&& !pre.entries().contains_key(ROOT_COOKIE) ==> {
            &&& fresh_node(root@, NodeType::Root, root_display_name())
            &&& post.entries() == pre.entries().insert(ROOT_COOKIE, root)
        }
    }

    /// `post` differs from `pre` at most in the node under `c`.
    pub open spec fn only_changed(pre: NodeRegistry, post: NodeRegistry, c: isize) -> bool {
        &&& post.next() == pre.next()
        &&& post.entries().dom() == pre.entries().dom()
        &&& forall|k: isize| k != c && #[trigger] pre.entries().contains_key(k)
            ==> post.entries()[k] == pre.entries()[k]
    }

    /// A registry with no nodes, whose first added node gets cookie 1.
    pub fn new() -> (r: NodeRegistry)
        ensures
            r.wf(),
            r.entries() == Map::<isize, Node>::empty(),
            r.next() == 1,
    {
        NodeRegistry { nodes: HashMap::new(), next_cookie: 1 }
    }

    /// The cookie that the next added node will get.
    pub fn next_cookie(&self) -> (r: isize)
        ensures
            r == self.next(),
    {
        self.next_cookie
    }

    /// The number of nodes.
    pub fn len(&self) -> (r: usize)
        ensures
            r == self.entries().len(),
    {
        self.nodes.len()
    }

    /// Adds a folder node named `name` under the next cookie and returns
    /// that cookie.
    pub fn add_node(&mut self, name: &str) -> (c: isize)
        requires
            old(self).wf(),
            old(self).next() < isize::MAX,
        ensures
            final(self).wf(),
            Self::added(*old(self), *final(self), name@, c),
    {
        let c = self.next_cookie;
        let node = Node::new(name.to_owned(), NodeType::Folder);
        let ghost n = node;
        self.nodes.insert(c, node);
        self.next_cookie = c + 1;
        assert(self.entries()[c] == n);
        c
    }

    /// The root node, made and put under cookie 0 if there is none yet.
    pub fn get_or_create_root(&mut self) -> (r: &Node)
        requires
            old(self).wf(),
        ensures
            final(self).wf(),
            Self::rooted(*old(self), *final(self), *r),
    {
        if !self.nodes.contains_key(&ROOT_COOKIE) {
            let root = Node::new("SMBus Snap-in".to_owned(), NodeType::Root);
            self.nodes.insert(ROOT_COOKIE, root);
        }
        self.nodes.get(&ROOT_COOKIE).unwrap()
    }

    /// The node under `cookie`; `NotFound` where there is none.
    pub fn get(&self, cookie: isize) -> (r: Result<&Node, SnapError>)
        ensures
            match r {
                Ok(n) => self.entries().contains_key(cookie) && *n == self.entries()[cookie],
                Err(e) => e == SnapError::NotFound && !self.entries().contains_key(cookie),
            },
    {
        match self.nodes.get(&cookie) {
            Some(n) => Ok(n),
            None => Err(SnapError::NotFound),
        }
    }

    /// The node that the host asks a data object for: the root, made if need
    /// be, under cookie 0; else the node under `cookie`, or `NotFound`.
    pub fn query_data_object(&mut self, cookie: isize) -> (r: Result<&Node, SnapError>)
        requires
            old(self).wf(),
        ensures
            final(self).wf(),
            cookie == ROOT_COOKIE ==> r is Ok && Self::rooted(*old(self), *final(self), *r->Ok_0),
            cookie != ROOT_COOKIE ==> *final(self) == *old(self) && match r {
                Ok(n) => old(self).entries().contains_key(cookie) && *n
                    == old(self).entries()[cookie],
                Err(e) => e == SnapError::NotFound && !old(self).entries().contains_key(cookie),
            },
    {
        if cookie == ROOT_COOKIE {
            Ok(self.get_or_create_root())
        } else {
            self.get(cookie)
        }
    }

    /// The cookies of the nodes, the root aside, that are not yet in the
    /// host's tree, in increasing order.
    pub fn for_each_unpositioned(&self) -> (r: Vec<isize>)
        requires
            self.wf(),
        ensures
            forall|i: int, j: int| 0 <= i < j < r@.len() ==> r@[i] < r@[j],
            forall|c: isize| r@.contains(c) <==> self.unpositioned(c),
    {
        let mut r: Vec<isize> = Vec::new();
        let mut c: isize = 1;
        while c < self.next_cookie
            invariant
                self.wf(),
                1 <= c <= self.next(),
                forall|i: int, j: int| 0 <= i < j < r@.len() ==> r@[i] < r@[j],
                forall|i: int| 0 <= i < r@.len() ==> r@[i] < c,
                forall|k: isize| r@.contains(k) <==> (k < c && self.unpositioned(k)),
            decreases self.next() - c,
        {
            let ghost r0 = r@;
            if let Some(n) = self.nodes.get(&c) {
                if n.node_type() != NodeType::Root && n.tree_position().is_none() {
                    r.push(c);
                }
            }
            assert(r@ == if self.unpositioned(c) { r0.push(c) } else { r0 });
            assert forall|k: isize| r@.contains(k) <==> (k < c + 1 && self.unpositioned(k)) by {
                if r@.contains(k) {
                    let i = choose|i: int| 0 <= i < r@.len() && r@[i] == k;
                    if i < r0.len() {
                        assert(r0[i] == k);
                    }
                }
                if r0.contains(k) {
                    let i = choose|i: int| 0 <= i < r0.len() && r0[i] == k;
                    assert(r@[i] == k);
                }
                if k == c && self.unpositioned(c) {
                    assert(r@[r@.len() - 1] == c);
                }
            }
            c = c + 1;
        }
        r
    }

    /// Records the handle under which the host shows the node under `cookie`.
    pub fn set_tree_position(&mut self, cookie: isize, position: isize) -> (r: Result<(), SnapError>)
        requires
            old(self).wf(),
        ensures
            final(self).wf(),
            !old(self).entries().contains_key(cookie) ==> r == Err::<(), SnapError>(SnapError::NotFound)
                && *final(self) == *old(self),
            old(self).entries().contains_key(cookie) ==> {
                &&& r is Ok
                &&& Self::only_changed(*old(self), *final(self), cookie)
                &&& final(self).entries()[cookie]@.tree_position == Some(position)
                &&& final(self).entries()[cookie]@.pending == old(self).entries()[cookie]@.pending
                &&& final(self).entries()[cookie]@.node_type == old(self).entries()[cookie]@.node_type
                &&& final(self).entries()[cookie]@.display_name == old(self).entries()[cookie]@.display_name
            },
    {
        if !self.nodes.contains_key(&cookie) {
            return Err(SnapError::NotFound);
        }
        let mut n = self.nodes.remove(&cookie).unwrap();
        n.set_tree_position(position);
        self.nodes.insert(cookie, n);
        Ok(())
    }

    /// Answers a display-info request for the node under `cookie`: where
    /// `mask` asks for the display string, starts handing a fresh copy of the
    /// name to the host (see `Node::start_handoff`); else changes nothing.
    pub fn display_info(&mut self, cookie: isize, mask: u32) -> (r: Result<Option<Handoff>, SnapError>)
        requires
            old(self).wf(),
        ensures
            final(self).wf(),
            !old(self).entries().contains_key(cookie) ==> r is Err && r->Err_0 == SnapError::NotFound
                && *final(self) == *old(self),
            old(self).entries().contains_key(cookie) && !wants_string(mask) ==> r is Ok && r->Ok_0 is None
                && *final(self) == *old(self),
            old(self).entries().contains_key(cookie) && wants_string(mask) ==> {
                let pre = old(self).entries()[cookie]@;
                let post = final(self).entries()[cookie]@;
                &&& r is Ok && r->Ok_0 is Some
                &&& handoff_started(pre, post, r->Ok_0->Some_0.release)
                &&& r->Ok_0->Some_0.units@ == utf16z_of(pre.display_name)
                &&& Self::only_changed(*old(self), *final(self), cookie)
            },
    {
        if !self.nodes.contains_key(&cookie) {
            return Err(SnapError::NotFound);
        }
        if mask & SDI_STR == 0 {
            return Ok(None);
        }
        let mut n = self.nodes.remove(&cookie).unwrap();
        let h = n.start_handoff();
        self.nodes.insert(cookie, n);
        Ok(Some(h))
    }

    /// Tracks the display buffer that the shared allocator gave for the node
    /// under `cookie`, at `addr`, zero when it gave none.
    pub fn finish_handoff(&mut self, cookie: isize, addr: usize) -> (r: Result<usize, SnapError>)
        requires
            old(self).wf(),
            old(self).entries().contains_key(cookie) ==> old(self).entries()[cookie]@.pending is None,
        ensures
            final(self).wf(),
            !old(self).entries().contains_key(cookie) ==> r == Err::<usize, SnapError>(SnapError::NotFound)
                && *final(self) == *old(self),
            old(self).entries().contains_key(cookie) && addr == 0 ==> r == Err::<usize, SnapError>(
                SnapError::AllocationFailure,
            ) && *final(self) == *old(self),
            old(self).entries().contains_key(cookie) && addr != 0 ==> {
                &&& handoff_finished(old(self).entries()[cookie]@, final(self).entries()[cookie]@, addr, r)
                &&& Self::only_changed(*old(self), *final(self), cookie)
            },
    {
        if !self.nodes.contains_key(&cookie) {
            return Err(SnapError::NotFound);
        }
        if addr == 0 {
            return Err(SnapError::AllocationFailure);
        }
        let mut n = self.nodes.remove(&cookie).unwrap();
        let r = n.finish_handoff(addr);
        self.nodes.insert(cookie, n);
        r
    }

    /// Stops tracking every display buffer and returns them, for the caller
    /// to release: each node's buffer once, in cookie order.
    pub fn release_all(&mut self) -> (r: Vec<usize>)
        requires
            old(self).wf(),
        ensures
            final(self).wf(),
            r@ == pending_upto(old(self).entries(), old(self).next() as int),
            final(self).next() == old(self).next(),
            final(self).entries().dom() == old(self).entries().dom(),
            forall|k: isize| #[trigger] final(self).entries().contains_key(k) ==> {
                &&& final(self).entries()[k]@.pending is None
                &&& same_node(old(self).entries()[k]@, final(self).entries()[k]@)
            },
    {
        let ghost pre = *self;
        let mut r: Vec<usize> = Vec::new();
        let mut c: isize = 0;
        while c < self.next_cookie
            invariant
                pre.wf(),
                self.wf(),
                0 <= c <= self.next(),
                self.next() == pre.next(),
                self.entries().dom() == pre.entries().dom(),
                r@ == pending_upto(pre.entries(), c as int),
                forall|k: isize| #[trigger] self.entries().contains_key(k) ==> {
                    &&& same_node(pre.entries()[k]@, self.entries()[k]@)
                    &&& k < c ==> self.entries()[k]@.pending is None
                    &&& k >= c ==> self.entries()[k] == pre.entries()[k]
                },
            decreases self.next() - c,
        {
            if self.nodes.contains_key(&c) {
                let mut n = self.nodes.remove(&c).unwrap();
                let p = n.release_pcwstr();
                self.nodes.insert(c, n);
                if let Some(a) = p {
                    r.push(a);
                }
            }
            c = c + 1;
        }
        r
    }
}

/// Two additions return distinct cookies, both at least 1, the later one the
/// larger, whatever came between them that kept the cookie counter from
/// going down (no operation of the registry lowers it).
pub proof fn lemma_add_cookies_unique(
    r0: NodeRegistry,
    r1: NodeRegistry,
    r2: NodeRegistry,
    r3: NodeRegistry,
    n1: Seq<char>,
    n2: Seq<char>,
    c1: isize,
    c2: isize,
)
    requires
        r0.wf(),
        NodeRegistry::added(r0, r1, n1, c1),
        r1.next() <= r2.next(),
        NodeRegistry::added(r2, r3, n2, c2),
    ensures
        c1 != c2,
        c1 >= 1,
        c2 >= 1,
        c1 < c2,
{
}

/// Asking for the root twice in a row gives the same node, and the second
/// call changes nothing.
pub proof fn lemma_root_idempotent(r0: NodeRegistry, r1: NodeRegistry, r2: NodeRegistry, a: Node, b: Node)
    requires
        r0.wf(),
        NodeRegistry::rooted(r0, r1, a),
        NodeRegistry::rooted(r1, r2, b),
    ensures
        a == b,
        r2.entries() == r1.entries(),
        r2.next() == r1.next(),
{
}

/// Adding a node never hands out cookie 0 and leaves the root as it was.
pub proof fn lemma_add_keeps_root(r0: NodeRegistry, r1: NodeRegistry, name: Seq<char>, c: isize)
    requires
        r0.wf(),
        NodeRegistry::added(r0, r1, name, c),
    ensures
        c != ROOT_COOKIE,
        r1.entries().contains_key(ROOT_COOKIE) == r0.entries().contains_key(ROOT_COOKIE),
        r0.entries().contains_key(ROOT_COOKIE) ==> r1.entries()[ROOT_COOKIE] == r0.entries()[ROOT_COOKIE],
{
}

/// No node stands under a cookie that was never handed out: a negative one,
/// or one at or past the counter. Looking one up gives `NotFound`.
pub proof fn lemma_unissued_cookie_absent(r: NodeRegistry, c: isize)
    requires
        r.wf(),
        c < 0 || c >= r.next(),
    ensures
        !r.entries().contains_key(c),
{
}

proof fn lemma_no_pending_upto(m: Map<isize, Node>, n: int)
    requires
        forall|k: isize| #[trigger] m.contains_key(k) ==> m[k]@.pending is None,
    ensures
        pending_upto(m, n) == Seq::<usize>::empty(),
    decreases n,
{
    if n > 0 {
        lemma_no_pending_upto(m, n - 1);
    }
}

/// Once every buffer has been released, as `release_all` leaves the
/// registry, releasing all again gives nothing: no buffer is released twice.
pub proof fn lemma_release_all_once(r: NodeRegistry)
    requires
        forall|k: isize| #[trigger] r.entries().contains_key(k) ==> r.entries()[k]@.pending is None,
    ensures
        pending_upto(r.entries(), r.next() as int) == Seq::<usize>::empty(),
{
    lemma_no_pending_upto(r.entries(), r.next() as int);
}

} // verus!
