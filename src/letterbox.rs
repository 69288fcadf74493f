use vstd::prelude::*;

verus! {

/// Width and height in pixels.
#[derive(Clone, Copy, Debug, PartialEq, Eq, Structural)]
pub struct Size {
    pub w: u32,
    pub h: u32,
}

/// A scale factor per axis, each held as an exact fraction `num / den`.
#[derive(Clone, Copy, Debug, PartialEq, Eq, Structural)]
pub struct Scale {
    pub x_num: u64,
    pub x_den: u64,
    pub y_num: u64,
    pub y_den: u64,
}

/// The window is relatively wider than the virtual framebuffer:
/// `ww / wh > vw / vh`, compared without division.
pub open spec fn wider(vw: int, vh: int, ww: int, wh: int) -> bool {
    ww * vh > vw * wh
}

/// The letterbox scale for a virtual framebuffer of `vw` x `vh` shown in a
/// window of `ww` x `wh`: pillarbox when the window is wider, letterbox
/// otherwise. Undefined (`None`) when a dimension is not positive.
pub open spec fn letterbox_spec(vw: int, vh: int, ww: int, wh: int) -> Option<(int, int, int, int)> {
    if vw <= 0 || vh <= 0 || ww <= 0 || wh <= 0 {
        None
    } else if wider(vw, vh, ww, wh) {
        Some((vw * wh, vh * ww, 1, 1))
    } else {
        Some((1, 1, ww * vh, wh * vw))
    }
}

impl Scale {
    pub open spec fn as_tuple(self) -> (int, int, int, int) {
        (self.x_num as int, self.x_den as int, self.y_num as int, self.y_den as int)
    }
}

/// Computes the letterbox scale of a `fb` framebuffer shown in a `win_w` x
/// `win_h` window; `None` when either size has a non-positive dimension.
pub fn letterbox_scale(fb: Size, win_w: i32, win_h: i32) -> (r: Option<Scale>)
    ensures
        r.is_none() <==> letterbox_spec(fb.w as int, fb.h as int, win_w as int, win_h as int).is_none(),
        r.is_some() ==> letterbox_spec(fb.w as int, fb.h as int, win_w as int, win_h as int)
            == Some(r->Some_0.as_tuple()),
{
    if fb.w == 0 || fb.h == 0 || win_w <= 0 || win_h <= 0 {
        return None;
    }
    let vw = fb.w as u64;
    let vh = fb.h as u64;
    let ww = win_w as u64;
    let wh = win_h as u64;
    proof {
        assert(vw * wh <= u32::MAX as int * i32::MAX as int) by (nonlinear_arith)
            requires vw <= u32::MAX, wh <= i32::MAX;
        assert(ww * vh <= u32::MAX as int * i32::MAX as int) by (nonlinear_arith)
            requires vh <= u32::MAX, ww <= i32::MAX;
    }
    if ww * vh > vw * wh {
        Some(Scale { x_num: vw * wh, x_den: vh * ww, y_num: 1, y_den: 1 })
    } else {
        Some(Scale { x_num: 1, x_den: 1, y_num: ww * vh, y_den: wh * vw })
    }
}

/// Both components of a letterbox scale are fractions no larger than one,
/// one of them is exactly one, and the scaled window area has the virtual
/// framebuffer's aspect ratio: `(sx * ww) / (sy * wh) == vw / vh`.
pub proof fn lemma_letterbox_fits(vw: int, vh: int, ww: int, wh: int)
    requires
        vw > 0,
        vh > 0,
        ww > 0,
        wh > 0,
    ensures
        ({
            let (xn, xd, yn, yd) = letterbox_spec(vw, vh, ww, wh)->Some_0;
            &&& xd > 0 && yd > 0
            &&& 0 < xn <= xd
            &&& 0 < yn <= yd
            &&& (xn == xd || yn == yd)
            &&& xn * ww * yd * vh == yn * wh * xd * vw
        }),
{
    let (xn, xd, yn, yd) = letterbox_spec(vw, vh, ww, wh)->Some_0;
    assert(vw * wh > 0 && vh * ww > 0 && ww * vh > 0 && wh * vw > 0) by (nonlinear_arith)
        requires vw > 0, vh > 0, ww > 0, wh > 0;
    if wider(vw, vh, ww, wh) {
        assert(vw * wh <= vh * ww) by (nonlinear_arith)
            requires ww * vh > vw * wh;
        assert(xn * ww * yd * vh == yn * wh * xd * vw) by (nonlinear_arith)
            requires xn == vw * wh, xd == vh * ww, yn == 1, yd == 1;
    } else {
        assert(ww * vh <= wh * vw) by (nonlinear_arith)
            requires !(ww * vh > vw * wh);
        assert(xn * ww * yd * vh == yn * wh * xd * vw) by (nonlinear_arith)
            requires xn == 1, xd == 1, yn == ww * vh, yd == wh * vw;
    }
}

} // verus!
