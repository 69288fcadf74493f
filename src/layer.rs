use vstd::prelude::*;
use crate::command::{Command, Surface};

verus! {

/// A step that keeps to a layer's own target: it never binds the
/// compositor's virtual framebuffer or a window as a target.
pub open spec fn keeps_to_own_target(cmds: Seq<Command>) -> bool {
    forall|k: int| 0 <= k < cmds.len() ==> match #[trigger] cmds[k] {
        Command::BindTarget(Surface::Virtual) => false,
        Command::BindTarget(Surface::Window(_)) => false,
        Command::Present(_) => false,
        _ => true,
    }
}

/// Anything the compositor can stack: it exposes a color target and may
/// redraw it once per frame.
pub trait Layer {
    /// The device handle of the layer's color target.
    spec fn spec_output(&self) -> u64;

    /// The commands of the layer's per-frame step.
    spec fn spec_step(&self) -> Seq<Command>;

    /// The layer's color target, sampled by the compositor.
    fn framebuffer(&self) -> (r: u64)
        ensures
            r == self.spec_output(),
    ;

    /// The layer's per-frame step; it draws only into the layer's own target.
    fn render(&self) -> (r: Vec<Command>)
        ensures
            r@ == self.spec_step(),
            keeps_to_own_target(r@),
    ;
}

} // verus!
