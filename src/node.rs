use vstd::prelude::*;

use crate::error::SnapError;
use crate::utf16::{utf16z_of, utf16z_units};

verus! {

/// The kind of a node in the scope tree.
#[derive(Debug, Clone, Copy, PartialEq, Eq, Structural)]
pub enum NodeType {
    Folder,
    Root,
}

/// What a node holds, as plain values.
pub struct NodeView {
    pub node_type: NodeType,
    pub display_name: Seq<char>,
    /// The address of the display buffer last handed to the host, while this
    /// node still answers for releasing it.
    pub pending: Option<usize>,
    /// The host's handle for the node once it stands in the host's tree.
    pub tree_position: Option<isize>,
}

/// An entry of the scope tree.
#[derive(Debug)]
pub struct Node {
    node_type: NodeType,
    display_name: String,
    pcwstr_name: Option<usize>,
    hscopeitem: Option<isize>,
}

/// What the caller does to hand a fresh display buffer to the host: release
/// the previous buffer, if any, then allocate one through the shared
/// allocator and copy `units` into it.
pub struct Handoff {
    pub release: Option<usize>,
    pub units: Vec<u16>,
}

/// `post` is `pre` but for the tracked buffer.
pub open spec fn same_node(pre: NodeView, post: NodeView) -> bool {
    &&& post.node_type == pre.node_type
    &&& post.display_name == pre.display_name
    &&& post.tree_position == pre.tree_position
}

/// What starting a handoff does: the previous buffer goes to the caller for
/// release and none is tracked.
pub open spec fn handoff_started(pre: NodeView, post: NodeView, release: Option<usize>) -> bool {
    &&& release == pre.pending
    &&& post.pending is None
    &&& same_node(pre, post)
}

/// What finishing a handoff with the buffer at `addr` does.
pub open spec fn handoff_finished(pre: NodeView, post: NodeView, addr: usize, r: Result<usize, SnapError>) -> bool {
    &&& same_node(pre, post)
    &&& addr == 0 ==> r == Err::<usize, SnapError>(SnapError::AllocationFailure) && post.pending is None
    &&& addr != 0 ==> r == Ok::<usize, SnapError>(addr) && post.pending == Some(addr)
}

impl View for Node {
    type V = NodeView;

    closed spec fn view(&self) -> NodeView {
        NodeView {
            node_type: self.node_type,
            display_name: self.display_name@,
            pending: self.pcwstr_name,
            tree_position: self.hscopeitem,
        }
    }
}

impl Node {
    /// A tracked buffer is never at address zero.
    pub open spec fn wf(&self) -> bool {
        self@.pending matches Some(a) ==> a != 0
    }

    /// A node that holds no buffer and is not yet in the host's tree.
    pub fn new(name: String, ntype: NodeType) -> (r: Node)
        ensures
            r@.node_type == ntype,
            r@.display_name == name@,
            r@.pending is None,
            r@.tree_position is None,
            r.wf(),
    {
        Node { node_type: ntype, display_name: name, pcwstr_name: None, hscopeitem: None }
    }

    pub fn node_type(&self) -> (r: NodeType)
        ensures
            r == self@.node_type,
    {
        self.node_type
    }

    pub fn display_name(&self) -> (r: &str)
        ensures
            r@ == self@.display_name,
    {
        self.display_name.as_str()
    }

    pub fn tree_position(&self) -> (r: Option<isize>)
        ensures
            r == self@.tree_position,
    {
        self.hscopeitem
    }

    pub fn pending_buffer(&self) -> (r: Option<usize>)
        ensures
            r == self@.pending,
    {
        self.pcwstr_name
    }

    /// Records the handle under which the host shows this node.
    pub fn set_tree_position(&mut self, position: isize)
        ensures
            final(self)@.tree_position == Some(position),
            final(self)@.node_type == old(self)@.node_type,
            final(self)@.display_name == old(self)@.display_name,
            final(self)@.pending == old(self)@.pending,
    {
        self.hscopeitem = Some(position);
    }

    /// Stops tracking the display buffer and returns it, for the caller to
    /// release.
    pub fn release_pcwstr(&mut self) -> (r: Option<usize>)
        ensures
            r == old(self)@.pending,
            final(self)@.pending is None,
            final(self)@.node_type == old(self)@.node_type,
            final(self)@.display_name == old(self)@.display_name,
            final(self)@.tree_position == old(self)@.tree_position,
    {
        let r = self.pcwstr_name;
        self.pcwstr_name = None;
        r
    }

    /// The first half of handing the display name to the host: gives up the
    /// previous buffer, to be released before the new one is allocated, and
    /// gives the units to copy into the new one.
    pub fn start_handoff(&mut self) -> (r: Handoff)
        ensures
            handoff_started(old(self)@, final(self)@, r.release),
            r.units@ == utf16z_of(old(self)@.display_name),
    {
        let release = self.release_pcwstr();
        let units = utf16z_units(self.display_name.as_str());
        Handoff { release, units }
    }

    /// The second half: tracks the buffer that the shared allocator gave, at
    /// `addr`, zero when it gave none.
    pub fn finish_handoff(&mut self, addr: usize) -> (r: Result<usize, SnapError>)
        requires
            old(self)@.pending is None,
        ensures
            handoff_finished(old(self)@, final(self)@, addr, r),
            final(self).wf(),
    {
        if addr == 0 {
            Err(SnapError::AllocationFailure)
        } else {
            self.pcwstr_name = Some(addr);
            Ok(addr)
        }
    }

    /// A copy of the node that answers for no buffer.
    pub fn detached(&self) -> (r: Node)
        ensures
            r@.node_type == self@.node_type,
            r@.display_name == self@.display_name,
            r@.tree_position == self@.tree_position,
            r@.pending is None,
            r.wf(),
    {
        Node {
            node_type: self.node_type,
            display_name: self.display_name.clone(),
            pcwstr_name: None,
            hscopeitem: self.hscopeitem,
        }
    }
}

/// Handing the display name over a second time releases the buffer of the
/// first handoff before the second one is allocated, and leaves only the
/// second one tracked: one buffer at most is ever outstanding.
pub proof fn lemma_second_handoff_releases_first(
    n0: NodeView,
    n1: NodeView,
    n2: NodeView,
    n3: NodeView,
    n4: NodeView,
    release1: Option<usize>,
    release2: Option<usize>,
    a1: usize,
    a2: usize,
    r1: Result<usize, SnapError>,
    r2: Result<usize, SnapError>,
)
    requires
        handoff_started(n0, n1, release1),
        handoff_finished(n1, n2, a1, r1),
        handoff_started(n2, n3, release2),
        handoff_finished(n3, n4, a2, r2),
        a1 != 0,
        a2 != 0,
    ensures
        release2 == Some(a1),
        n4.pending == Some(a2),
        r1 == Ok::<usize, SnapError>(a1),
        r2 == Ok::<usize, SnapError>(a2),
        same_node(n0, n4),
{
}

} // verus!
