use vstd::prelude::*;
use crate::command::{Command, ShaderKind, Surface, quad_pass, push_quad_pass};
use crate::engine::{Engine, EngineError};
use crate::layer::Layer;
use crate::letterbox::Size;

verus! {

/// A decoded image: `width` x `height` pixels, row by row, each packed as
/// 8-bit ARGB.
pub struct Mat {
    pub width: u32,
    pub height: u32,
    pub pixels: Vec<u32>,
}

impl Mat {
    /// The image has pixels, one per position of its grid.
    pub open spec fn wf(&self) -> bool {
        &&& self.width > 0
        &&& self.height > 0
        &&& self.pixels@.len() == self.width as int * self.height as int
    }
}

/// The color a static layer's target is cleared to before the image is
/// drawn.
pub const BAKE_CLEAR_COLOR: u32 = 0xFFFF_FF00;

/// A layer whose content is an image, drawn once into its own target.
pub struct StaticLayer {
    size: Size,
    framebuffer: u64,
    texture: u64,
}

/// The commands that draw the source texture into the layer's target.
pub open spec fn bake_spec(framebuffer: u64, texture: u64) -> Seq<Command> {
    seq![
        Command::BindTarget(Surface::Layer(framebuffer)),
        Command::Clear(BAKE_CLEAR_COLOR),
        Command::BindTexture(0, Surface::Image(texture)),
    ] + quad_pass(ShaderKind::StaticBake)
}

impl StaticLayer {
    pub closed spec fn spec_size(&self) -> Size {
        self.size
    }

    pub closed spec fn spec_framebuffer(&self) -> u64 {
        self.framebuffer
    }

    pub closed spec fn spec_texture(&self) -> u64 {
        self.texture
    }

    /// Makes a static layer of the engine's framebuffer size, whose target is
    /// device framebuffer `framebuffer` and whose source is `image`, uploaded
    /// as device texture `texture`. Returns the layer with its one bake pass,
    /// which draws the image into the layer's target. Fails when the image has
    /// no pixels or its pixel count does not match its size, so that no
    /// texture can hold it.
    pub fn new_from_mat(engine: &Engine, image: &Mat, framebuffer: u64, texture: u64) -> (r: Result<(StaticLayer, Vec<Command>), EngineError>)
        ensures
            r.is_err() <==> !image.wf(),
            r.is_err() ==> r == Err::<(StaticLayer, Vec<Command>), EngineError>(EngineError::Generic),
            r.is_ok() ==> ({
                let (l, bake) = r->Ok_0;
                &&& l.spec_size() == engine.spec_fb_size()
                &&& l.spec_framebuffer() == framebuffer
                &&& l.spec_texture() == texture
                &&& bake@ == bake_spec(framebuffer, texture)
            }),
    {
        if image.width == 0 || image.height == 0 {
            return Err(EngineError::Generic);
        }
        proof {
            assert(image.width as int * image.height as int <= u32::MAX as int * u32::MAX as int) by (nonlinear_arith)
                requires image.width <= u32::MAX, image.height <= u32::MAX;
        }
        if image.pixels.len() as u64 != image.width as u64 * image.height as u64 {
            return Err(EngineError::Generic);
        }
        let layer = StaticLayer { size: engine.framebuffer_size(), framebuffer, texture };
        let bake = layer.bake_commands();
        Ok((layer, bake))
    }

    /// The commands that bake the image into the layer's target.
    pub fn bake_commands(&self) -> (r: Vec<Command>)
        ensures
            r@ == bake_spec(self.spec_framebuffer(), self.spec_texture()),
    {
        let mut out: Vec<Command> = Vec::new();
        out.push(Command::BindTarget(Surface::Layer(self.framebuffer)));
        out.push(Command::Clear(BAKE_CLEAR_COLOR));
        out.push(Command::BindTexture(0, Surface::Image(self.texture)));
        push_quad_pass(&mut out, ShaderKind::StaticBake);
        assert(out@ =~= bake_spec(self.framebuffer, self.texture));
        out
    }

    /// The layer's size: the engine's framebuffer size.
    pub fn size(&self) -> (r: Size)
        ensures
            r == self.spec_size(),
    {
        self.size
    }
}

impl Layer for StaticLayer {
    open spec fn spec_output(&self) -> u64 {
        self.spec_framebuffer()
    }

    /// A static layer's content never changes: its step issues no commands.
    open spec fn spec_step(&self) -> Seq<Command> {
        seq![]
    }

    fn framebuffer(&self) -> (r: u64) {
        self.framebuffer
    }

    fn render(&self) -> (r: Vec<Command>) {
        Vec::new()
    }
}

} // verus!
