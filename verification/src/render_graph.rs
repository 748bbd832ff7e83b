//! The render graph: nodes and the connections from node outputs to node inputs.
use crate::renderer_node::{RendererNode, TextureFormat};
use vstd::prelude::*;

verus! {

/// A connection from output `from_output` of node `from_node` to input
/// `to_input` of node `to_node`.
#[derive(Debug, Clone, Copy, PartialEq, Eq, Structural)]
pub struct Connection {
    pub from_node: u32,
    pub from_output: u32,
    pub to_node: u32,
    pub to_input: u32,
}

/// An attachment shared between nodes (not yet described further).
pub struct VirtualAttachment {}

/// What the graph keeps of a node: its ports and attachments as it reported them.
pub struct RenderNodeInfo {
    pub outputs: Vec<u32>,
    pub inputs: Vec<u32>,
    pub attachments: Vec<TextureFormat>,
    pub color_attachment: Option<u32>,
    pub depth_attachment: Option<u32>,
    pub is_output: bool,
}

pub struct RenderGraph {
    pub nodes: Vec<RenderNodeInfo>,
    pub connections: Vec<Connection>,
    pub attachments: Vec<VirtualAttachment>,
}

/// `info` holds what the methods of `node` answered: each field is a result
/// that the matching method of `node` can give.
pub open spec fn records_node<T: RendererNode>(info: RenderNodeInfo, node: &T) -> bool {
    &&& call_ensures(T::get_outputs, (node,), info.outputs)
    &&& call_ensures(T::get_inputs, (node,), info.inputs)
    &&& call_ensures(T::get_attachments, (node,), info.attachments)
    &&& call_ensures(T::get_color_attachment, (node,), info.color_attachment)
    &&& call_ensures(T::get_depth_attachment, (node,), info.depth_attachment)
    &&& call_ensures(T::is_output, (node,), info.is_output)
}

/// The answer `add_connection` gives for `c` on a graph with the nodes
/// `nodes`. Counts are compared as `u32`, the way the connection holds them.
/// The input port is bounded by the number of outputs of the target node,
/// and a connection is refused when the two port types are equal.
pub open spec fn connection_outcome(nodes: Seq<RenderNodeInfo>, c: Connection) -> Result<(), &'static str> {
    if c.from_node >= (nodes.len() as u32) {
        Err("Connection from node out of bounds")
    } else if (nodes[c.from_node as int].outputs@.len() as u32) <= c.from_output {
        Err("Connection from output out of bounds")
    } else if c.to_node >= (nodes.len() as u32) {
        Err("Connection to node out of bounds")
    } else if (nodes[c.to_node as int].outputs@.len() as u32) <= c.to_input {
        Err("Connection to input out of bounds")
    } else if nodes[c.from_node as int].outputs@[c.from_output as int]
        == nodes[c.to_node as int].inputs@[c.to_input as int] {
        Err("Input output type does not match")
    } else {
        Ok(())
    }
}

/// `add_connection` reaches the input port of the target node for `c`
/// although the node has no such input.
pub open spec fn reads_missing_input(nodes: Seq<RenderNodeInfo>, c: Connection) -> bool {
    &&& c.from_node < (nodes.len() as u32)
    &&& c.from_output < (nodes[c.from_node as int].outputs@.len() as u32)
    &&& c.to_node < (nodes.len() as u32)
    &&& c.to_input < (nodes[c.to_node as int].outputs@.len() as u32)
    &&& c.to_input >= nodes[c.to_node as int].inputs@.len()
}

/// `c` joins an existing output port to an existing input port of the nodes `nodes`.
pub open spec fn connection_in_graph(nodes: Seq<RenderNodeInfo>, c: Connection) -> bool {
    &&& c.from_node < nodes.len()
    &&& c.to_node < nodes.len()
    &&& c.from_output < nodes[c.from_node as int].outputs@.len()
    &&& c.to_input < nodes[c.to_node as int].inputs@.len()
}

impl Connection {
    pub fn new(from_node: u32, from_output: u32, to_node: u32, to_input: u32) -> (r: Connection)
        ensures
            r.from_node == from_node,
            r.from_output == from_output,
            r.to_node == to_node,
            r.to_input == to_input,
    {
        Connection { from_node, from_output, to_node, to_input }
    }
}

impl RenderGraph {
    /// Every connection of the graph joins existing ports of existing nodes.
    pub open spec fn connections_valid(&self) -> bool {
        forall|i: int| 0 <= i < self.connections@.len() ==> connection_in_graph(self.nodes@, #[trigger] self.connections@[i])
    }

    pub fn new() -> (r: RenderGraph)
        ensures
            r.nodes@.len() == 0,
            r.connections@.len() == 0,
            r.attachments@.len() == 0,
    {
        RenderGraph { nodes: vec![], connections: vec![], attachments: vec![] }
    }

    /// Adds `node` and returns its index.
    pub fn add_node<T: RendererNode + 'static>(&mut self, node: T) -> (r: u32)
        requires
            old(self).nodes.len() < u32::MAX,
        ensures
            r == old(self).nodes@.len(),
            final(self).nodes@.len() == old(self).nodes@.len() + 1,
            forall|i: int| 0 <= i < old(self).nodes@.len() ==> final(self).nodes@[i] == old(self).nodes@[i],
            records_node(final(self).nodes@.last(), &node),
            final(self).connections@ == old(self).connections@,
            final(self).attachments@ == old(self).attachments@,
            old(self).connections_valid() ==> final(self).connections_valid(),
    {
        let info = RenderNodeInfo {
            outputs: node.get_outputs(),
            inputs: node.get_inputs(),
            attachments: node.get_attachments(),
            color_attachment: node.get_color_attachment(),
            depth_attachment: node.get_depth_attachment(),
            is_output: node.is_output(),
        };
        let ghost before = self.nodes@;
        self.nodes.push(info);
        assert forall|i: int| 0 <= i < self.connections@.len() && connection_in_graph(before, #[trigger] self.connections@[i])
            implies connection_in_graph(self.nodes@, self.connections@[i]) by {
            let c = self.connections@[i];
            assert(self.nodes@[c.from_node as int] == before[c.from_node as int]);
            assert(self.nodes@[c.to_node as int] == before[c.to_node as int]);
        }
        (self.nodes.len() - 1) as u32
    }

    /// Adds `connection` after checking it against the nodes; on refusal the
    /// graph is unchanged.
    pub fn add_connection(&mut self, connection: Connection) -> (r: Result<(), &'static str>)
        requires
            !reads_missing_input(old(self).nodes@, connection),
        ensures
            r == connection_outcome(old(self).nodes@, connection),
            final(self).nodes@ == old(self).nodes@,
            final(self).attachments@ == old(self).attachments@,
            r is Ok ==> final(self).connections@ == old(self).connections@.push(connection),
            r is Err ==> final(self).connections@ == old(self).connections@,
            old(self).connections_valid() ==> final(self).connections_valid(),
    {
        if connection.from_node >= self.nodes.len() as u32 {
            return Err("Connection from node out of bounds");
        }
        let from_node = &self.nodes[connection.from_node as usize];
        if from_node.outputs.len() as u32 <= connection.from_output {
            return Err("Connection from output out of bounds");
        }
        let from_output = from_node.outputs[connection.from_output as usize];
        if connection.to_node >= self.nodes.len() as u32 {
            return Err("Connection to node out of bounds");
        }
        let to_node = &self.nodes[connection.to_node as usize];
        if to_node.outputs.len() as u32 <= connection.to_input {
            return Err("Connection to input out of bounds");
        }
        let to_input = to_node.inputs[connection.to_input as usize];
        if from_output == to_input {
            return Err("Input output type does not match");
        }
        self.connections.push(connection);
        Ok(())
    }

    /// The connections that end at node `node`, in the order they were added.
    pub fn incoming_connections(&self, node: u32) -> (r: Vec<Connection>)
        ensures
            r@ == self.connections@.filter(|c: Connection| c.to_node == node),
    {
        let mut r: Vec<Connection> = Vec::new();
        let mut i: usize = 0;
        while i < self.connections.len()
            invariant
                i <= self.connections@.len(),
                r@ == self.connections@.take(i as int).filter(|c: Connection| c.to_node == node),
            decreases self.connections@.len() - i,
        {
            let c = self.connections[i];
            proof {
                reveal_with_fuel(Seq::filter, 1);
                assert(self.connections@.take(i + 1).drop_last() =~= self.connections@.take(i as int));
            }
            if c.to_node == node {
                r.push(c);
            }
            i = i + 1;
        }
        assert(self.connections@.take(self.connections@.len() as int) =~= self.connections@);
        r
    }
}

impl Default for RenderGraph {
    fn default() -> (r: Self)
        ensures
            r.nodes@.len() == 0,
            r.connections@.len() == 0,
            r.attachments@.len() == 0,
    {
        Self::new()
    }
}

/// What `add_connection` answers, check by check: each port index out of
/// range gives its own error, in the order from node, from output, to node,
/// to input (the input index is bounded by the target's outputs); with every
/// port in range the connection is refused exactly when the output type
/// equals the input type, and accepted otherwise.
pub proof fn law_connection_checks(nodes: Seq<RenderNodeInfo>, c: Connection)
    requires
        nodes.len() <= u32::MAX,
        forall|k: int| 0 <= k < nodes.len() ==> #[trigger] nodes[k].outputs@.len() <= u32::MAX,
    ensures
        c.from_node >= nodes.len() ==> connection_outcome(nodes, c) == Err::<(), &'static str>(
            "Connection from node out of bounds",
        ),
        (c.from_node < nodes.len() && c.from_output >= nodes[c.from_node as int].outputs@.len())
            ==> connection_outcome(nodes, c) == Err::<(), &'static str>("Connection from output out of bounds"),
        (c.from_node < nodes.len() && c.from_output < nodes[c.from_node as int].outputs@.len() && c.to_node
            >= nodes.len()) ==> connection_outcome(nodes, c) == Err::<(), &'static str>(
            "Connection to node out of bounds",
        ),
        (c.from_node < nodes.len() && c.from_output < nodes[c.from_node as int].outputs@.len() && c.to_node
            < nodes.len() && c.to_input >= nodes[c.to_node as int].outputs@.len()) ==> connection_outcome(nodes, c)
            == Err::<(), &'static str>("Connection to input out of bounds"),
        ((c.from_node < nodes.len() && c.from_output < nodes[c.from_node as int].outputs@.len() && c.to_node
            < nodes.len() && c.to_input < nodes[c.to_node as int].outputs@.len() && c.to_input
            < nodes[c.to_node as int].inputs@.len()) ==> {
            &&& (connection_outcome(nodes, c) is Ok <==> nodes[c.from_node as int].outputs@[c.from_output as int]
                != nodes[c.to_node as int].inputs@[c.to_input as int])
            &&& (connection_outcome(nodes, c) is Err ==> connection_outcome(nodes, c) == Err::<(), &'static str>(
                "Input output type does not match",
            ))
        }),
{
    assert((nodes.len() as u32) as int == nodes.len());
    if c.from_node < nodes.len() {
        assert((nodes[c.from_node as int].outputs@.len() as u32) as int == nodes[c.from_node as int].outputs@.len());
    }
    if c.to_node < nodes.len() {
        assert((nodes[c.to_node as int].outputs@.len() as u32) as int == nodes[c.to_node as int].outputs@.len());
    }
}

} // verus!
