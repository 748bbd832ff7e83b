//! Verified core of a small game engine: the asset manifest and the cooking
//! command line, the render graph, the renderer's device choice, frame
//! pacing and descriptor plans, keyboard and mouse state, the index data of
//! meshes and the replacement of mesh data behind device transfers.
pub mod asset_index;
pub mod assets;
pub mod cli;
pub mod descriptors;
pub mod device;
pub mod frame;
pub mod input;
pub mod manifest;
pub mod mesh_data;
pub mod mesh_transfer;
pub mod model_files;
pub mod model_names;
pub mod paths;
pub mod physics;
pub mod render_graph;
pub mod renderer_node;
pub mod shader;
pub mod sorted_ids;
pub mod static_mesh;
pub mod ui;
