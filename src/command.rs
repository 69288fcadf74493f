use vstd::prelude::*;
use crate::letterbox::Scale;

verus! {

/// A surface that the graphics device can draw into or sample from.
#[derive(Clone, Copy, Debug, PartialEq, Eq, Structural)]
pub enum Surface {
    /// The compositor's fixed-resolution off-screen target.
    Virtual,
    /// The on-screen window with the given window id.
    Window(u64),
    /// A layer's private color target, by device handle.
    Layer(u64),
    /// A source texture, by device handle.
    Image(u64),
}

/// The fixed shader programs.
#[derive(Clone, Copy, Debug, PartialEq, Eq, Structural)]
pub enum ShaderKind {
    LayerBlit,
    FinalBlit,
    StaticBake,
    TileAtlas,
}

/// One call into the graphics device.
#[derive(Clone, Copy, Debug, PartialEq, Eq, Structural)]
pub enum Command {
    BindTarget(Surface),
    Clear(u32),
    BindTexture(u32, Surface),
    BindShader(ShaderKind),
    /// Sets the `u_texture` sampler uniform to a texture slot.
    SetTextureSlot(u32),
    /// Sets the `u_scale` uniform.
    SetScale(Scale),
    BindQuad,
    DrawTriangleFan(u32),
    Present(u64),
}

/// The vertices of the quad that every full-target draw uses: the unit
/// square (0,0), (1,0), (1,1), (0,1), in fan order.
pub open spec fn unit_quad() -> Seq<(u32, u32)> {
    seq![(0u32, 0u32), (1u32, 0u32), (1u32, 1u32), (0u32, 1u32)]
}

/// Builds the vertices of `unit_quad`, for the vertex buffer that
/// `Command::BindQuad` binds.
pub fn quad_vertices() -> (r: Vec<(u32, u32)>)
    ensures
        r@ == unit_quad(),
{
    let r: Vec<(u32, u32)> = vec![(0, 0), (1, 0), (1, 1), (0, 1)];
    assert(r@ =~= unit_quad());
    r
}

/// Draws the texture bound at slot 0 over the whole current target with the
/// given shader.
pub open spec fn quad_pass(shader: ShaderKind) -> Seq<Command> {
    seq![
        Command::BindShader(shader),
        Command::SetTextureSlot(0),
        Command::BindQuad,
        Command::DrawTriangleFan(4),
    ]
}

/// Pushes the commands of `quad_pass(shader)`.
pub fn push_quad_pass(out: &mut Vec<Command>, shader: ShaderKind)
    ensures
        final(out)@ == old(out)@ + quad_pass(shader),
{
    out.push(Command::BindShader(shader));
    out.push(Command::SetTextureSlot(0));
    out.push(Command::BindQuad);
    out.push(Command::DrawTriangleFan(4));
    assert(final(out)@ =~= old(out)@ + quad_pass(shader));
}

} // verus!
