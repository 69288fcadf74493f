use vstd::prelude::*;
use crate::command::{Command, ShaderKind, Surface, quad_pass, push_quad_pass, quad_vertices, unit_quad};
use crate::layer::Layer;
use crate::letterbox::{Scale, Size, letterbox_scale, letterbox_spec};

verus! {

/// The single construction failure: a device resource could not be made.
#[derive(Clone, Copy, Debug, PartialEq, Eq, Structural)]
pub enum EngineError {
    Generic,
}

/// A window rectangle: position and size in screen pixels.
#[derive(Clone, Copy, Debug, PartialEq, Eq, Structural)]
pub struct Rect {
    pub x: i32,
    pub y: i32,
    pub w: i32,
    pub h: i32,
}

/// A window notification, delivered by the event source.
#[derive(Clone, Copy, Debug, PartialEq, Eq, Structural)]
pub enum Event {
    /// The user asked to close the window.
    Close,
    /// The window moved or changed size.
    Configure(Rect),
    /// Anything else; ignored.
    Other,
}

/// The compositor: a fixed-size virtual framebuffer, the window it is shown
/// in, and the running state.
pub struct Engine {
    id: u64,
    rect: Rect,
    fb_size: Size,
    quad: Vec<(u32, u32)>,
    running: bool,
}

/// Commands that draw one layer's output over the whole virtual framebuffer.
pub open spec fn layer_pass(layer: u64) -> Seq<Command> {
    seq![Command::BindTexture(0, Surface::Layer(layer))] + quad_pass(ShaderKind::LayerBlit)
}

/// The layer passes of all `layers`, in the given order.
pub open spec fn layer_passes(layers: Seq<u64>) -> Seq<Command>
    decreases layers.len(),
{
    if layers.len() == 0 {
        seq![]
    } else {
        layer_passes(layers.drop_last()) + layer_pass(layers.last())
    }
}

/// Commands that show the virtual framebuffer in the window with `scale`.
pub open spec fn final_pass(id: u64, scale: Scale) -> Seq<Command> {
    seq![
        Command::BindTarget(Surface::Window(id)),
        Command::BindTexture(0, Surface::Virtual),
        Command::SetScale(scale),
    ] + quad_pass(ShaderKind::FinalBlit)
}

/// One frame: composite the layers into the virtual framebuffer, then show it
/// letterboxed in the window, unless the window has no area.
pub open spec fn frame(id: u64, fb: Size, win: Rect, layers: Seq<u64>) -> Seq<Command> {
    let composite = seq![Command::BindTarget(Surface::Virtual)] + layer_passes(layers);
    match letterbox_spec(fb.w as int, fb.h as int, win.w as int, win.h as int) {
        Some(t) => composite + final_pass(id, Scale {
            x_num: t.0 as u64, x_den: t.1 as u64, y_num: t.2 as u64, y_den: t.3 as u64,
        }),
        None => composite,
    }
}

/// The color targets of `layers`, in order.
pub open spec fn outputs<L: Layer>(layers: Seq<L>) -> Seq<u64> {
    layers.map_values(|l: L| l.spec_output())
}

/// The per-frame steps of `layers`, in order.
pub open spec fn layer_steps<L: Layer>(layers: Seq<L>) -> Seq<Command>
    decreases layers.len(),
{
    if layers.len() == 0 {
        seq![]
    } else {
        layer_steps(layers.drop_last()) + layers.last().spec_step()
    }
}

/// The running state after handling `event`.
pub open spec fn step_running(running: bool, event: Event) -> bool {
    running && event != Event::Close
}

/// The window rectangle after handling `event`.
pub open spec fn step_rect(rect: Rect, event: Event) -> Rect {
    match event {
        Event::Configure(r) => r,
        _ => rect,
    }
}

/// The running state after `events` are handled in order.
pub open spec fn running_after(running: bool, events: Seq<Event>) -> bool
    decreases events.len(),
{
    if events.len() == 0 {
        running
    } else {
        step_running(running_after(running, events.drop_last()), events.last())
    }
}

/// The window rectangle after `events` are handled in order.
pub open spec fn rect_after(rect: Rect, events: Seq<Event>) -> Rect
    decreases events.len(),
{
    if events.len() == 0 {
        rect
    } else {
        step_rect(rect_after(rect, events.drop_last()), events.last())
    }
}

impl Engine {
    pub closed spec fn spec_id(&self) -> u64 {
        self.id
    }

    pub closed spec fn spec_rect(&self) -> Rect {
        self.rect
    }

    pub closed spec fn spec_fb_size(&self) -> Size {
        self.fb_size
    }

    pub closed spec fn spec_quad(&self) -> Seq<(u32, u32)> {
        self.quad@
    }

    pub closed spec fn spec_running(&self) -> bool {
        self.running
    }

    /// The virtual framebuffer has a positive size.
    pub closed spec fn wf(&self) -> bool {
        self.fb_size.w > 0 && self.fb_size.h > 0
    }

    /// Creates a running compositor for window `id` at `rect`, with a virtual
    /// framebuffer of `fbsize`. Fails when that framebuffer has no area.
    pub fn new(id: u64, rect: Rect, fbsize: Size) -> (r: Result<Engine, EngineError>)
        ensures
            r.is_err() <==> fbsize.w == 0 || fbsize.h == 0,
            r.is_err() ==> r == Err::<Engine, EngineError>(EngineError::Generic),
            r.is_ok() ==> ({
                let e = r->Ok_0;
                &&& e.wf()
                &&& e.spec_id() == id
                &&& e.spec_rect() == rect
                &&& e.spec_fb_size() == fbsize
                &&& e.spec_quad() == unit_quad()
                &&& e.spec_running()
            }),
    {
        if fbsize.w == 0 || fbsize.h == 0 {
            return Err(EngineError::Generic);
        }
        Ok(Engine { id, rect, fb_size: fbsize, quad: quad_vertices(), running: true })
    }

    pub fn is_running(&self) -> (r: bool)
        ensures
            r == self.spec_running(),
    {
        self.running
    }

    pub fn id(&self) -> (r: u64)
        ensures
            r == self.spec_id(),
    {
        self.id
    }

    pub fn rect(&self) -> (r: Rect)
        ensures
            r == self.spec_rect(),
    {
        self.rect
    }

    /// The vertices of the quad that every full-target draw uses.
    pub fn quad(&self) -> (r: &Vec<(u32, u32)>)
        ensures
            r@ == self.spec_quad(),
    {
        &self.quad
    }

    pub fn framebuffer_size(&self) -> (r: Size)
        ensures
            r == self.spec_fb_size(),
    {
        self.fb_size
    }

    pub fn set_rect(&mut self, r: Rect)
        ensures
            final(self).spec_rect() == r,
            final(self).spec_id() == old(self).spec_id(),
            final(self).spec_fb_size() == old(self).spec_fb_size(),
            final(self).spec_quad() == old(self).spec_quad(),
            final(self).spec_running() == old(self).spec_running(),
            final(self).wf() == old(self).wf(),
    {
        self.rect = r;
    }

    /// Reacts to one window event: `Close` stops the engine for good; every
    /// other event leaves it unchanged.
    pub fn handle(&mut self, event: Event)
        ensures
            final(self).spec_running() == step_running(old(self).spec_running(), event),
            final(self).spec_rect() == old(self).spec_rect(),
            final(self).spec_id() == old(self).spec_id(),
            final(self).spec_fb_size() == old(self).spec_fb_size(),
            final(self).spec_quad() == old(self).spec_quad(),
            final(self).wf() == old(self).wf(),
    {
        match event {
            Event::Close => {
                self.running = false;
            },
            _ => {},
        }
    }

    /// Delivers the events polled since the last frame, in order: a
    /// `Configure` moves or resizes the window through `set_rect`, and each
    /// event is then handed to `handle`.
    pub fn update(&mut self, events: &Vec<Event>)
        ensures
            final(self).spec_running() == running_after(old(self).spec_running(), events@),
            final(self).spec_rect() == rect_after(old(self).spec_rect(), events@),
            final(self).spec_id() == old(self).spec_id(),
            final(self).spec_fb_size() == old(self).spec_fb_size(),
            final(self).spec_quad() == old(self).spec_quad(),
            final(self).wf() == old(self).wf(),
    {
        let ghost start = *self;
        let mut i: usize = 0;
        while i < events.len()
            invariant
                0 <= i <= events@.len(),
                self.running == running_after(start.running, events@.take(i as int)),
                self.rect == rect_after(start.rect, events@.take(i as int)),
                self.id == start.id,
                self.fb_size == start.fb_size,
                self.quad@ == start.quad@,
            decreases events@.len() - i,
        {
            let ev = events[i];
            match ev {
                Event::Configure(r) => self.set_rect(r),
                _ => {},
            }
            self.handle(ev);
            assert(events@.take(i as int + 1).drop_last() =~= events@.take(i as int));
            i = i + 1;
        }
        assert(events@.take(events@.len() as int) =~= events@);
    }

    /// Builds one frame's device commands: every layer output drawn over the
    /// virtual framebuffer in the given order (later ones on top), then the
    /// virtual framebuffer shown letterboxed in the window. The window pass is
    /// skipped when the window has no area.
    pub fn render<L: Layer>(&self, layers: &Vec<L>) -> (r: Vec<Command>)
        requires
            self.wf(),
        ensures
            r@ == frame(self.spec_id(), self.spec_fb_size(), self.spec_rect(), outputs(layers@)),
    {
        let ghost handles = outputs(layers@);
        let mut out: Vec<Command> = Vec::new();
        out.push(Command::BindTarget(Surface::Virtual));
        let mut i: usize = 0;
        while i < layers.len()
            invariant
                0 <= i <= layers@.len(),
                handles == outputs(layers@),
                out@ == seq![Command::BindTarget(Surface::Virtual)] + layer_passes(handles.take(i as int)),
            decreases layers@.len() - i,
        {
            let ghost before = out@;
            let h = layers[i].framebuffer();
            out.push(Command::BindTexture(0, Surface::Layer(h)));
            push_quad_pass(&mut out, ShaderKind::LayerBlit);
            let ghost t = handles.take(i as int + 1);
            assert(t.drop_last() =~= handles.take(i as int));
            assert(t.last() == handles[i as int]);
            assert(out@ =~= before + layer_pass(handles[i as int]));
            i = i + 1;
        }
        assert(handles.take(handles.len() as int) =~= handles);
        match letterbox_scale(self.fb_size, self.rect.w, self.rect.h) {
            Some(scale) => {
                let ghost before = out@;
                out.push(Command::BindTarget(Surface::Window(self.id)));
                out.push(Command::BindTexture(0, Surface::Virtual));
                out.push(Command::SetScale(scale));
                push_quad_pass(&mut out, ShaderKind::FinalBlit);
                assert(out@ =~= before + final_pass(self.id, scale));
            },
            None => {},
        }
        out
    }

    /// One whole frame while the engine runs: each layer's own step, then
    /// the composite and window pass, then the buffer swap. A stopped engine
    /// issues nothing.
    pub fn run_frame<L: Layer>(&self, layers: &Vec<L>) -> (r: Vec<Command>)
        requires
            self.wf(),
        ensures
            self.spec_running() ==> r@ == layer_steps(layers@)
                + frame(self.spec_id(), self.spec_fb_size(), self.spec_rect(), outputs(layers@))
                + seq![Command::Present(self.spec_id())],
            !self.spec_running() ==> r@.len() == 0,
    {
        let mut out: Vec<Command> = Vec::new();
        if !self.running {
            return out;
        }
        let mut i: usize = 0;
        while i < layers.len()
            invariant
                0 <= i <= layers@.len(),
                out@ == layer_steps(layers@.take(i as int)),
            decreases layers@.len() - i,
        {
            let mut step = layers[i].render();
            let ghost before = out@;
            let ghost s = step@;
            out.append(&mut step);
            let ghost t = layers@.take(i as int + 1);
            assert(t.drop_last() =~= layers@.take(i as int));
            assert(t.last() == layers@[i as int]);
            assert(out@ =~= before + s);
            i = i + 1;
        }
        assert(layers@.take(layers@.len() as int) =~= layers@);
        let mut composite = self.render(layers);
        out.append(&mut composite);
        out.push(self.present());
        out
    }

    /// The command that shows the finished window surface.
    pub fn present(&self) -> (r: Command)
        ensures
            r == Command::Present(self.spec_id()),
    {
        Command::Present(self.id)
    }
}

/// `layer_passes` is five commands per layer, each layer's block in order.
pub proof fn lemma_layer_passes_blocks(layers: Seq<u64>)
    ensures
        layer_passes(layers).len() == 5 * layers.len(),
        forall|k: int, m: int| 0 <= k < layers.len() && 0 <= m < 5 ==>
            #[trigger] layer_passes(layers)[5 * k + m] == layer_pass(layers[k])[m],
    decreases layers.len(),
{
    if layers.len() > 0 {
        let init = layers.drop_last();
        lemma_layer_passes_blocks(init);
        let n = init.len();
        assert forall|k: int, m: int| 0 <= k < layers.len() && 0 <= m < 5 implies
            #[trigger] layer_passes(layers)[5 * k + m] == layer_pass(layers[k])[m] by {
            if k < n {
                assert(init[k] == layers[k]);
                assert(5 * k + m < 5 * n);
            } else {
                assert(k == n);
            }
        }
    }
}

/// Compositing keeps the caller's order: for layers `i < j`, layer `j` is
/// drawn after layer `i`, into the same virtual framebuffer (no other target
/// is bound between the first command and the last layer's draw), so the
/// later layer covers the earlier one.
pub proof fn lemma_later_layer_on_top(id: u64, fb: Size, win: Rect, layers: Seq<u64>, i: int, j: int)
    requires
        0 <= i < j < layers.len(),
    ensures
        ({
            let f = frame(id, fb, win, layers);
            &&& f[0] == Command::BindTarget(Surface::Virtual)
            &&& f[1 + 5 * i] == Command::BindTexture(0, Surface::Layer(layers[i]))
            &&& f[5 + 5 * i] == Command::DrawTriangleFan(4)
            &&& f[1 + 5 * j] == Command::BindTexture(0, Surface::Layer(layers[j]))
            &&& f[5 + 5 * j] == Command::DrawTriangleFan(4)
            &&& 5 + 5 * i < 1 + 5 * j
            &&& forall|k: int| 1 <= k <= 5 * layers.len() ==> !(#[trigger] f[k] is BindTarget)
        }),
{
    lemma_layer_passes_blocks(layers);
    let f = frame(id, fb, win, layers);
    let c = seq![Command::BindTarget(Surface::Virtual)] + layer_passes(layers);
    assert(forall|k: int| 0 <= k < c.len() ==> f[k] == c[k]);
    assert(f[1 + 5 * i] == layer_passes(layers)[5 * i + 0]);
    assert(f[5 + 5 * i] == layer_passes(layers)[5 * i + 4]);
    assert(f[1 + 5 * j] == layer_passes(layers)[5 * j + 0]);
    assert(f[5 + 5 * j] == layer_passes(layers)[5 * j + 4]);
    assert forall|k: int| 1 <= k <= 5 * layers.len() implies !(#[trigger] f[k] is BindTarget) by {
        let q = (k - 1) / 5;
        let m = (k - 1) % 5;
        assert(k - 1 == 5 * q + m);
        assert(f[k] == layer_passes(layers)[5 * q + m]);
    }
}

/// With unchanged inputs a frame is the same every time: it depends on the
/// window's size only, not its position, and on nothing that rendering
/// changes.
pub proof fn lemma_frame_repeatable(id: u64, fb: Size, a: Rect, b: Rect, layers: Seq<u64>)
    requires
        a.w == b.w,
        a.h == b.h,
    ensures
        frame(id, fb, a, layers) == frame(id, fb, b, layers),
{
}

/// A window with no area gets no blit: the frame only composites the layers
/// and never binds the window as a target.
pub proof fn lemma_empty_window_skips_blit(id: u64, fb: Size, win: Rect, layers: Seq<u64>)
    requires
        win.w <= 0 || win.h <= 0,
    ensures
        frame(id, fb, win, layers) == seq![Command::BindTarget(Surface::Virtual)] + layer_passes(layers),
        forall|k: int| 0 <= k < frame(id, fb, win, layers).len() ==>
            #[trigger] frame(id, fb, win, layers)[k] != Command::BindTarget(Surface::Window(id)),
{
    lemma_layer_passes_blocks(layers);
    let f = frame(id, fb, win, layers);
    assert forall|k: int| 0 <= k < f.len() implies #[trigger] f[k] != Command::BindTarget(Surface::Window(id)) by {
        if k > 0 {
            let q = (k - 1) / 5;
            let m = (k - 1) % 5;
            assert(k - 1 == 5 * q + m);
            assert(f[k] == layer_passes(layers)[5 * q + m]);
        }
    }
}

/// A stopped engine stays stopped, whatever events follow.
pub proof fn lemma_stopped_stays_stopped(events: Seq<Event>)
    ensures
        !running_after(false, events),
    decreases events.len(),
{
    if events.len() > 0 {
        lemma_stopped_stays_stopped(events.drop_last());
    }
}

/// Once a `Close` event has been handled, the engine is not running, and it
/// stays so for all events that follow.
pub proof fn lemma_close_is_final(running: bool, before: Seq<Event>, after: Seq<Event>)
    requires
        before.contains(Event::Close),
    ensures
        !running_after(running, before),
        !running_after(running, before + after),
    decreases before.len() + after.len(),
{
    if after.len() > 0 {
        lemma_close_is_final(running, before, after.drop_last());
        assert((before + after).drop_last() =~= before + after.drop_last());
    } else {
        assert(before + after =~= before);
        if before.last() != Event::Close {
            let init = before.drop_last();
            let k = choose|k: int| 0 <= k < before.len() && before[k] == Event::Close;
            assert(init[k] == Event::Close);
            lemma_close_is_final(running, init, seq![]);
            assert(init + seq![] =~= init);
        }
    }
}

} // verus!
