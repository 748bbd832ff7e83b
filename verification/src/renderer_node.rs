//! Render graph nodes: what a node reads, writes and draws into.
use vstd::prelude::*;

verus! {

/// The format of a texture a node draws into.
#[derive(Debug, PartialEq, Eq, Clone, Copy, Structural)]
pub enum TextureFormat {
    RGB8,
    RGBA8,
    RGB16,
    F32,
    Display,
}

/// A value that flows between nodes.
#[derive(Debug, PartialEq, Eq, Clone, Copy, Structural)]
pub enum NodeIO {
    Texture(TextureFormat),
}

/// A node of the render graph. Its outputs and inputs are lists of port
/// types; it names the textures it draws into and which of them are its
/// colour and depth attachments. A node that does not describe a part has
/// none of it: no ports, no attachments, and it is not an output node; the
/// default methods say so.
pub trait RendererNode {
    fn get_outputs(&self) -> (r: Vec<u32>)
        default_ensures
            r@ == Seq::<u32>::empty(),
    {
        Vec::new()
    }

    fn get_inputs(&self) -> (r: Vec<u32>)
        default_ensures
            r@ == Seq::<u32>::empty(),
    {
        Vec::new()
    }

    fn get_attachments(&self) -> (r: Vec<TextureFormat>)
        default_ensures
            r@ == Seq::<TextureFormat>::empty(),
    {
        Vec::new()
    }

    fn get_color_attachment(&self) -> (r: Option<u32>)
        default_ensures
            r is None,
    {
        None
    }

    fn get_depth_attachment(&self) -> (r: Option<u32>)
        default_ensures
            r is None,
    {
        None
    }

    fn is_output(&self) -> (r: bool)
        default_ensures
            !r,
    {
        false
    }
}

/// The node that draws the scene: one output, a colour and a depth attachment.
pub struct ColorNode {}

/// The node that presents to the display: one input and a display attachment.
pub struct OutputNode {}

impl RendererNode for OutputNode {
    fn get_inputs(&self) -> (r: Vec<u32>)
        ensures
            r@ == seq![0u32],
    {
        let r = vec![0];
        assert(r@ =~= seq![0u32]);
        r
    }

    fn get_attachments(&self) -> (r: Vec<TextureFormat>)
        ensures
            r@ == seq![TextureFormat::Display],
    {
        let r = vec![TextureFormat::Display];
        assert(r@ =~= seq![TextureFormat::Display]);
        r
    }
}

impl RendererNode for ColorNode {
    fn get_outputs(&self) -> (r: Vec<u32>)
        ensures
            r@ == seq![0u32],
    {
        let r = vec![0];
        assert(r@ =~= seq![0u32]);
        r
    }

    fn get_attachments(&self) -> (r: Vec<TextureFormat>)
        ensures
            r@ == seq![TextureFormat::Display, TextureFormat::F32],
    {
        let r = vec![TextureFormat::Display, TextureFormat::F32];
        assert(r@ =~= seq![TextureFormat::Display, TextureFormat::F32]);
        r
    }

    fn get_color_attachment(&self) -> (r: Option<u32>)
        ensures
            r == Some(0u32),
    {
        Some(0)
    }

    fn get_depth_attachment(&self) -> (r: Option<u32>)
        ensures
            r == Some(1u32),
    {
        Some(1)
    }

    fn is_output(&self) -> (r: bool)
        ensures
            r,
    {
        true
    }
}

} // verus!
