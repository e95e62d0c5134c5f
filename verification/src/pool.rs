//! The pool of external audio-processing nodes.
//!
//! Nodes are configured once at start-up and identified by their index.
//! The pool tracks, for each node, whether its supervisor currently holds a
//! live connection and how many guilds are assigned to it (its load).
//! Selection always picks the connected node with the fewest assigned
//! guilds, ties broken by the lowest index.

use vstd::prelude::*;

verus! {

/// Connection status and guild-load of one configured node.
#[derive(Clone, Copy, Debug, PartialEq, Eq, Structural)]
pub struct NodeInfo {
    /// Whether the node's supervisor holds a live connection.
    pub connected: bool,
    /// Number of guilds currently assigned to the node.
    pub load: u64,
}

/// True when at least one node is connected.
pub open spec fn has_connected(nodes: Seq<NodeInfo>) -> bool {
    exists|i: int| 0 <= i < nodes.len() && nodes[i].connected
}

/// `i` is a connected node of minimum load, the first such index.
pub open spec fn is_best_node(nodes: Seq<NodeInfo>, i: int) -> bool {
    &&& 0 <= i < nodes.len()
    &&& nodes[i].connected
    &&& forall|j: int|
        0 <= j < nodes.len() && nodes[j].connected ==> nodes[i].load <= nodes[j].load
    &&& forall|j: int| 0 <= j < i && nodes[j].connected ==> nodes[i].load < nodes[j].load
}

/// The configured node cluster with per-node status and load.
pub struct NodePool {
    nodes: Vec<NodeInfo>,
}

impl View for NodePool {
    type V = Seq<NodeInfo>;

    closed spec fn view(&self) -> Seq<NodeInfo> {
        self.nodes@
    }
}

impl NodePool {
    /// A pool of `count` configured nodes, all disconnected and unloaded.
    pub fn new(count: usize) -> (p: NodePool)
        ensures
            p@.len() == count,
            forall|i: int|
                0 <= i < count ==> p@[i] == (NodeInfo { connected: false, load: 0 }),
    {
        let mut nodes: Vec<NodeInfo> = Vec::new();
        let mut i: usize = 0;
        while i < count
            invariant
                0 <= i <= count,
                nodes@.len() == i,
                forall|j: int|
                    0 <= j < i ==> nodes@[j] == (NodeInfo { connected: false, load: 0 }),
            decreases count - i,
        {
            nodes.push(NodeInfo { connected: false, load: 0 });
            i = i + 1;
        }
        NodePool { nodes }
    }

    /// Number of configured nodes.
    pub fn len(&self) -> (n: usize)
        ensures
            n == self@.len(),
    {
        self.nodes.len()
    }

    /// Status and load of one node.
    pub fn get(&self, id: usize) -> (info: NodeInfo)
        requires
            id < self@.len(),
        ensures
            info == self@[id as int],
    {
        self.nodes[id]
    }

    /// True when node `id` is connected.
    pub fn is_connected(&self, id: usize) -> (b: bool)
        requires
            id < self@.len(),
        ensures
            b == self@[id as int].connected,
    {
        self.nodes[id].connected
    }

    /// Marks a node as connected or disconnected; its load is untouched,
    /// since guilds keep referencing a node across reconnects.
    pub fn set_connected(&mut self, id: usize, connected: bool)
        requires
            id < old(self)@.len(),
        ensures
            final(self)@ == old(self)@.update(
                id as int,
                (NodeInfo { connected, load: old(self)@[id as int].load }),
            ),
    {
        let load = self.nodes[id].load;
        self.nodes[id] = NodeInfo { connected, load };
    }

    /// Adds one guild to a node's load.
    pub fn add_load(&mut self, id: usize)
        requires
            id < old(self)@.len(),
            old(self)@[id as int].load < u64::MAX,
        ensures
            final(self)@ == old(self)@.update(
                id as int,
                (NodeInfo {
                    connected: old(self)@[id as int].connected,
                    load: (old(self)@[id as int].load + 1) as u64,
                }),
            ),
    {
        let info = self.nodes[id];
        self.nodes[id] = NodeInfo { connected: info.connected, load: info.load + 1 };
    }

    /// Removes one guild from a node's load; a load of zero stays zero, so
    /// the count can never go negative.
    pub fn remove_load(&mut self, id: usize)
        requires
            id < old(self)@.len(),
        ensures
            final(self)@ == old(self)@.update(
                id as int,
                (NodeInfo {
                    connected: old(self)@[id as int].connected,
                    load: if old(self)@[id as int].load > 0 {
                        (old(self)@[id as int].load - 1) as u64
                    } else {
                        0
                    },
                }),
            ),
    {
        let info = self.nodes[id];
        let load = if info.load > 0 {
            info.load - 1
        } else {
            0
        };
        self.nodes[id] = NodeInfo { connected: info.connected, load };
    }

    /// The connected node with the fewest assigned guilds, ties broken by
    /// the lowest index; `None` when no node is connected.
    pub fn best_node(&self) -> (r: Option<usize>)
        ensures
            match r {
                Some(i) => is_best_node(self@, i as int),
                None => !has_connected(self@),
            },
    {
        let mut best: Option<usize> = None;
        let mut i: usize = 0;
        while i < self.nodes.len()
            invariant
                0 <= i <= self@.len(),
                match best {
                    Some(b) => {
                        &&& 0 <= b < i
                        &&& self@[b as int].connected
                        &&& forall|j: int|
                            0 <= j < i && self@[j].connected ==> self@[b as int].load
                                <= self@[j].load
                        &&& forall|j: int|
                            0 <= j < b && self@[j].connected ==> self@[b as int].load
                                < self@[j].load
                    },
                    None => forall|j: int| 0 <= j < i ==> !self@[j].connected,
                },
            decreases self@.len() - i,
        {
            if self.nodes[i].connected {
                match best {
                    Some(b) => {
                        if self.nodes[i].load < self.nodes[b].load {
                            best = Some(i);
                        }
                    },
                    None => {
                        best = Some(i);
                    },
                }
            }
            i = i + 1;
        }
        best
    }
}

} // verus!
