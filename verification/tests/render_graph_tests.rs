use oxide_engine::render_graph::{Connection, RenderGraph};
use oxide_engine::renderer_node::{ColorNode, OutputNode, RendererNode, TextureFormat};

/// A node with one output of type 1 and one input of type 2.
struct Relay;

impl RendererNode for Relay {
    fn get_outputs(&self) -> Vec<u32> {
        vec![1]
    }
    fn get_inputs(&self) -> Vec<u32> {
        vec![2]
    }
    fn get_attachments(&self) -> Vec<TextureFormat> {
        vec![TextureFormat::RGBA8]
    }
    fn get_color_attachment(&self) -> Option<u32> {
        Some(0)
    }
    fn get_depth_attachment(&self) -> Option<u32> {
        None
    }
    fn is_output(&self) -> bool {
        false
    }
}

#[test]
fn connection_new_keeps_fields() {
    let c = Connection::new(1, 2, 3, 4);
    assert_eq!((c.from_node, c.from_output, c.to_node, c.to_input), (1, 2, 3, 4));
}

#[test]
fn new_graph_is_empty() {
    let g = RenderGraph::new();
    assert!(g.nodes.is_empty() && g.connections.is_empty() && g.attachments.is_empty());
    let d = RenderGraph::default();
    assert!(d.nodes.is_empty());
}

#[test]
fn add_node_returns_indices_and_records_ports() {
    let mut g = RenderGraph::new();
    assert_eq!(g.add_node(ColorNode {}), 0);
    assert_eq!(g.add_node(OutputNode {}), 1);
    assert_eq!(g.nodes[0].outputs, vec![0]);
    assert!(g.nodes[0].inputs.is_empty());
    assert_eq!(g.nodes[0].attachments, vec![TextureFormat::Display, TextureFormat::F32]);
    assert_eq!(g.nodes[0].color_attachment, Some(0));
    assert_eq!(g.nodes[0].depth_attachment, Some(1));
    assert!(g.nodes[0].is_output);
    assert_eq!(g.nodes[1].inputs, vec![0]);
    assert_eq!(g.nodes[1].attachments, vec![TextureFormat::Display]);
    assert!(!g.nodes[1].is_output);
}

#[test]
fn add_connection_errors() {
    let mut g = RenderGraph::new();
    g.add_node(ColorNode {});
    g.add_node(OutputNode {});
    g.add_node(Relay);
    assert_eq!(g.add_connection(Connection::new(3, 0, 1, 0)), Err("Connection from node out of bounds"));
    assert_eq!(g.add_connection(Connection::new(1, 0, 2, 0)), Err("Connection from output out of bounds"));
    assert_eq!(g.add_connection(Connection::new(0, 0, 7, 0)), Err("Connection to node out of bounds"));
    // the input port is bounded by the target's outputs: the output node has none
    assert_eq!(g.add_connection(Connection::new(0, 0, 1, 0)), Err("Connection to input out of bounds"));
    assert!(g.connections.is_empty());
}

#[test]
fn add_connection_refuses_equal_port_types() {
    let mut g = RenderGraph::new();
    g.add_node(Relay);
    g.add_node(Relay);
    // output type 1 and input type 2 differ: accepted
    assert_eq!(g.add_connection(Connection::new(0, 0, 1, 0)), Ok(()));
    assert_eq!(g.connections, vec![Connection::new(0, 0, 1, 0)]);

    let mut h = RenderGraph::new();
    struct Same;
    impl RendererNode for Same {
        fn get_outputs(&self) -> Vec<u32> {
            vec![5]
        }
        fn get_inputs(&self) -> Vec<u32> {
            vec![5]
        }
        fn get_attachments(&self) -> Vec<TextureFormat> {
            vec![]
        }
        fn get_color_attachment(&self) -> Option<u32> {
            None
        }
        fn get_depth_attachment(&self) -> Option<u32> {
            None
        }
        fn is_output(&self) -> bool {
            false
        }
    }
    h.add_node(Same);
    assert_eq!(h.add_connection(Connection::new(0, 0, 0, 0)), Err("Input output type does not match"));
    assert!(h.connections.is_empty());
}

#[test]
fn incoming_connections_filters_by_target() {
    let mut g = RenderGraph::new();
    g.add_node(Relay);
    g.add_node(Relay);
    g.add_node(Relay);
    g.add_connection(Connection::new(0, 0, 1, 0)).unwrap();
    g.add_connection(Connection::new(1, 0, 2, 0)).unwrap();
    g.add_connection(Connection::new(0, 0, 2, 0)).unwrap();
    assert_eq!(g.incoming_connections(2), vec![Connection::new(1, 0, 2, 0), Connection::new(0, 0, 2, 0)]);
    assert_eq!(g.incoming_connections(1), vec![Connection::new(0, 0, 1, 0)]);
    assert!(g.incoming_connections(0).is_empty());
}

struct Blank;

impl RendererNode for Blank {}

#[test]
fn default_node_methods_describe_nothing() {
    let mut g = RenderGraph::new();
    g.add_node(Blank);
    let info = &g.nodes[0];
    assert!(info.outputs.is_empty() && info.inputs.is_empty() && info.attachments.is_empty());
    assert_eq!((info.color_attachment, info.depth_attachment, info.is_output), (None, None, false));
}
