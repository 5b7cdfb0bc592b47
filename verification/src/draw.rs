//! Drawing into a planar 4:2:0 frame buffer, and small pixel types.
//!
//! The buffer holds a full-resolution Y plane followed by quarter-resolution
//! U and V planes. Painting a rectangle writes the luma of every covered
//! pixel and the shared chroma byte of every covered 2-by-2 block, and
//! leaves every other byte untouched.

use vstd::prelude::*;

verus! {

/// A YUV triple.
#[derive(Copy, Clone, Debug, PartialEq, Eq, Structural)]
pub struct Yuv<T> {
    pub y: T,
    pub u: T,
    pub v: T,
}

/// An RGB colour.
#[derive(Copy, Clone, Debug, PartialEq, Eq, Structural)]
pub struct Color {
    pub r: u8,
    pub g: u8,
    pub b: u8,
}

impl Color {
    /// A colour from its three channels.
    pub fn new(r: u8, g: u8, b: u8) -> (c: Color)
        ensures
            c == (Color { r, g, b }),
    {
        Color { r, g, b }
    }

    /// The colour packed as `00RRGGBB`.
    pub fn u32(&self) -> (v: u32)
        ensures
            v == self.r * 0x10000 + self.g * 0x100 + self.b,
    {
        (self.r as u32) * 0x10000 + (self.g as u32) * 0x100 + (self.b as u32)
    }
}

/// An indexed-colour image: pixel bytes index into a palette, and an entry
/// of 0 in the transparency table marks a palette index as transparent.
pub struct PaletteImage {
    pub width: usize,
    pub height: usize,
    pub data: Vec<u8>,
    pub palette: Vec<Color>,
    pub trns: Vec<u8>,
}

/// The index of pixel (px, py) in the Y plane.
pub open spec fn y_index(width: int, px: int, py: int) -> int {
    py * width + px
}

/// The offset of pixel (px, py)'s 2-by-2 block within a chroma plane.
pub open spec fn uv_offset(width: int, px: int, py: int) -> int {
    (width / 2) * (py / 2) + px / 2
}

/// Whether byte `j` of the buffer belongs to pixel (px, py): its luma byte
/// or one of its two chroma bytes.
pub open spec fn writes_index(j: int, width: int, height: int, px: int, py: int) -> bool {
    ||| j == y_index(width, px, py)
    ||| j == width * height + uv_offset(width, px, py)
    ||| j == width * height + (width * height) / 4 + uv_offset(width, px, py)
}

/// The pixels of the rectangle already painted after `rows` full rows and
/// `cols` pixels of the next row.
pub open spec fn painted_pixel(
    px: int,
    py: int,
    x: int,
    y: int,
    w: int,
    rows: int,
    cols: int,
) -> bool {
    &&& x <= px < x + w
    &&& y <= py
    &&& py < y + rows || (py == y + rows && px < x + cols)
}

/// Pixel (px, py)'s luma and chroma bytes hold the given colour.
pub open spec fn painted_at(
    buf: Seq<u8>,
    width: int,
    height: int,
    px: int,
    py: int,
    yuv: Yuv<u8>,
) -> bool {
    &&& buf[y_index(width, px, py)] == yuv.y
    &&& buf[width * height + uv_offset(width, px, py)] == yuv.u
    &&& buf[width * height + (width * height) / 4 + uv_offset(width, px, py)] == yuv.v
}

/// Whether byte `j` belongs to some already-painted pixel.
pub open spec fn touched_upto(
    j: int,
    width: int,
    height: int,
    x: int,
    y: int,
    w: int,
    rows: int,
    cols: int,
) -> bool {
    exists|px: int, py: int|
        #![auto]
        painted_pixel(px, py, x, y, w, rows, cols) && writes_index(j, width, height, px, py)
}

/// Bounds of a pixel's bytes in an evenly-dimensioned planar buffer: the
/// luma byte lies in the Y plane and the chroma offset in a quarter plane.
proof fn lemma_plane_bounds(width: int, height: int, px: int, py: int)
    requires
        width % 2 == 0,
        height % 2 == 0,
        0 <= px < width,
        0 <= py < height,
    ensures
        0 <= y_index(width, px, py) < width * height,
        0 <= uv_offset(width, px, py) < (width * height) / 4,
        (width * height) % 4 == 0,
        (width * height) / 4 + (width * height) / 4 == (width * height) / 2,
{
    let a = width / 2;
    let b = height / 2;
    assert(width == 2 * a && height == 2 * b);
    assert(0 <= y_index(width, px, py) < width * height) by (nonlinear_arith)
        requires
            0 <= px < width,
            0 <= py < height,
    ;
    assert(width * height == 4 * (a * b)) by (nonlinear_arith)
        requires
            width == 2 * a,
            height == 2 * b,
    ;
    assert(0 <= uv_offset(width, px, py) < a * b) by (nonlinear_arith)
        requires
            width == 2 * a,
            height == 2 * b,
            0 <= px < width,
            0 <= py < height,
            a == width / 2,
    ;
}

/// A planar 4:2:0 frame buffer that rectangles are painted into.
pub struct Frameout {
    width: usize,
    height: usize,
    buffer: Vec<u8>,
}

impl Frameout {
    /// The buffer's pixel width.
    pub closed spec fn spec_width(self) -> usize {
        self.width
    }

    /// The buffer's pixel height.
    pub closed spec fn spec_height(self) -> usize {
        self.height
    }

    /// The buffer's bytes: the Y plane, then the U plane, then the V plane.
    pub closed spec fn spec_buffer(self) -> Seq<u8> {
        self.buffer@
    }

    /// Even dimensions, and a buffer sized for a full Y plane plus two
    /// quarter-sized chroma planes.
    pub open spec fn wf(self) -> bool {
        &&& self.spec_width() % 2 == 0
        &&& self.spec_height() % 2 == 0
        &&& self.spec_buffer().len() == self.spec_width() * self.spec_height() + (self.spec_width()
            * self.spec_height()) / 2
    }

    /// A black buffer of the given dimensions.
    pub fn new(width: usize, height: usize) -> (r: Frameout)
        requires
            width % 2 == 0,
            height % 2 == 0,
            width * height + (width * height) / 2 <= usize::MAX,
        ensures
            r.wf(),
            r.spec_width() == width,
            r.spec_height() == height,
            r.spec_buffer() == Seq::new(
                (width * height + (width * height) / 2) as nat,
                |i: int| 0u8,
            ),
    {
        let ysz = width * height;
        let n = ysz + ysz / 2;
        let buffer: Vec<u8> = vec![0u8; n];
        proof {
            assert(buffer@ =~= Seq::new(
                (width * height + (width * height) / 2) as nat,
                |i: int| 0u8,
            ));
        }
        Frameout { width, height, buffer }
    }

    /// The buffer's bytes.
    pub fn buffer(&self) -> (r: &Vec<u8>)
        ensures
            r@ == self.spec_buffer(),
    {
        &self.buffer
    }

    /// The buffer's pixel width.
    pub fn width(&self) -> (r: usize)
        ensures
            r == self.spec_width(),
    {
        self.width
    }

    /// The buffer's pixel height.
    pub fn height(&self) -> (r: usize)
        ensures
            r == self.spec_height(),
    {
        self.height
    }

    /// Paint an axis-aligned rectangle: the luma byte of every covered
    /// pixel takes `yuv.y`, the chroma bytes of every covered 2-by-2 block
    /// take `yuv.u` and `yuv.v`, and every byte of no covered pixel keeps
    /// its value.
    pub fn rect(&mut self, x: usize, y: usize, w: usize, h: usize, yuv: Yuv<u8>)
        requires
            old(self).wf(),
            x + w <= old(self).spec_width(),
            y + h <= old(self).spec_height(),
        ensures
            final(self).wf(),
            final(self).spec_width() == old(self).spec_width(),
            final(self).spec_height() == old(self).spec_height(),
            final(self).spec_buffer().len() == old(self).spec_buffer().len(),
            forall|px: int, py: int|
                x <= px < x + w && y <= py < y + h ==> #[trigger] painted_at(
                    final(self).spec_buffer(),
                    old(self).spec_width() as int,
                    old(self).spec_height() as int,
                    px,
                    py,
                    yuv,
                ),
            forall|j: int|
                0 <= j < old(self).spec_buffer().len() && !touched_upto(
                    j,
                    old(self).spec_width() as int,
                    old(self).spec_height() as int,
                    x as int,
                    y as int,
                    w as int,
                    h as int,
                    0,
                ) ==> #[trigger] final(self).spec_buffer()[j] == old(self).spec_buffer()[j],
    {
        let ghost wd = self.width as int;
        let ghost ht = self.height as int;
        let blen = self.buffer.len();
        let yspan = self.width * self.height;
        let quarter = yspan / 4;
        let mut yidx: usize = 0;
        while yidx < h
            invariant
                yidx <= h,
                self.width == old(self).width,
                self.height == old(self).height,
                wd == self.width as int,
                ht == self.height as int,
                self.wf(),
                x + w <= self.width,
                y + h <= self.height,
                yspan == self.width * self.height,
                quarter == yspan as int / 4,
                self.buffer@.len() == old(self).buffer@.len(),
                self.buffer@.len() <= usize::MAX,
                forall|px: int, py: int|
                    painted_pixel(px, py, x as int, y as int, w as int, yidx as int, 0)
                        ==> #[trigger] painted_at(self.buffer@, wd, ht, px, py, yuv),
                forall|j: int|
                    0 <= j < old(self).buffer@.len() && !touched_upto(
                        j,
                        wd,
                        ht,
                        x as int,
                        y as int,
                        w as int,
                        yidx as int,
                        0,
                    ) ==> #[trigger] self.buffer@[j] == old(self).buffer@[j],
            decreases h - yidx,
        {
            let py = y + yidx;
            let mut xidx: usize = 0;
            while xidx < w
                invariant
                    xidx <= w,
                    yidx < h,
                    py == y + yidx,
                    self.width == old(self).width,
                    self.height == old(self).height,
                    wd == self.width as int,
                    ht == self.height as int,
                    self.wf(),
                    x + w <= self.width,
                    y + h <= self.height,
                    yspan == self.width * self.height,
                    quarter == yspan as int / 4,
                    self.buffer@.len() == old(self).buffer@.len(),
                    self.buffer@.len() <= usize::MAX,
                    forall|px: int, pyy: int|
                        painted_pixel(
                            px,
                            pyy,
                            x as int,
                            y as int,
                            w as int,
                            yidx as int,
                            xidx as int,
                        ) ==> #[trigger] painted_at(self.buffer@, wd, ht, px, pyy, yuv),
                    forall|j: int|
                        0 <= j < old(self).buffer@.len() && !touched_upto(
                            j,
                            wd,
                            ht,
                            x as int,
                            y as int,
                            w as int,
                            yidx as int,
                            xidx as int,
                        ) ==> #[trigger] self.buffer@[j] == old(self).buffer@[j],
                decreases w - xidx,
            {
                let px = x + xidx;
                proof {
                    lemma_plane_bounds(wd, ht, px as int, py as int);
                }
                let ghost pre = self.buffer@;
                let yi = py * self.width + px;
                let sub = (self.width / 2) * (py / 2) + px / 2;
                let ui = yspan + sub;
                let vi = yspan + quarter + sub;
                self.buffer.set(yi, yuv.y);
                self.buffer.set(ui, yuv.u);
                self.buffer.set(vi, yuv.v);
                proof {
                    let xi = x as int;
                    let yi_ = y as int;
                    let wi = w as int;
                    let r = yidx as int;
                    let c = xidx as int;
                    let pxi = px as int;
                    let pyi = py as int;
                    assert(yi as int == y_index(wd, pxi, pyi));
                    assert(sub as int == uv_offset(wd, pxi, pyi));
                    assert(ui as int == wd * ht + uv_offset(wd, pxi, pyi));
                    assert(vi as int == wd * ht + (wd * ht) / 4 + uv_offset(wd, pxi, pyi));
                    assert(writes_index(yi as int, wd, ht, pxi, pyi));
                    assert(writes_index(ui as int, wd, ht, pxi, pyi));
                    assert(writes_index(vi as int, wd, ht, pxi, pyi));
                    assert(painted_pixel(pxi, pyi, xi, yi_, wi, r, c + 1));
                    assert(touched_upto(yi as int, wd, ht, xi, yi_, wi, r, c + 1));
                    assert(touched_upto(ui as int, wd, ht, xi, yi_, wi, r, c + 1));
                    assert(touched_upto(vi as int, wd, ht, xi, yi_, wi, r, c + 1));
                    assert(self.buffer@ == pre.update(yi as int, yuv.y).update(
                        ui as int,
                        yuv.u,
                    ).update(vi as int, yuv.v));
                    // A byte untouched after this pixel was untouched before
                    // it and is none of the three bytes just written.
                    assert forall|j: int|
                        0 <= j < old(self).buffer@.len() && !touched_upto(
                            j,
                            wd,
                            ht,
                            xi,
                            yi_,
                            wi,
                            r,
                            c + 1,
                        ) implies #[trigger] self.buffer@[j] == old(self).buffer@[j] by {
                        assert(!touched_upto(j, wd, ht, xi, yi_, wi, r, c));
                        assert(j != yi as int && j != ui as int && j != vi as int);
                        assert(self.buffer@[j] == pre[j]);
                    }
                    // Every pixel painted before this one keeps its bytes:
                    // any byte this pixel shares with an earlier one sits in
                    // the same plane and has just received the same value.
                    assert forall|px2: int, py2: int|
                        painted_pixel(px2, py2, xi, yi_, wi, r, c + 1) implies #[trigger]
                    painted_at(self.buffer@, wd, ht, px2, py2, yuv) by {
                        lemma_plane_bounds(wd, ht, px2, py2);
                        let yb = y_index(wd, px2, py2);
                        let ub = wd * ht + uv_offset(wd, px2, py2);
                        let vb = wd * ht + (wd * ht) / 4 + uv_offset(wd, px2, py2);
                        assert(yb < wd * ht);
                        assert(wd * ht <= ub < wd * ht + (wd * ht) / 4);
                        assert(wd * ht + (wd * ht) / 4 <= vb < wd * ht + (wd * ht) / 2);
                        if px2 == pxi && py2 == pyi {
                            assert(yb == yi as int && ub == ui as int && vb == vi as int);
                            assert(self.buffer@[yb] == yuv.y);
                            assert(self.buffer@[ub] == yuv.u);
                            assert(self.buffer@[vb] == yuv.v);
                        } else {
                            assert(painted_pixel(px2, py2, xi, yi_, wi, r, c));
                            assert(painted_at(pre, wd, ht, px2, py2, yuv));
                            assert(self.buffer@[yb] == yuv.y);
                            assert(self.buffer@[ub] == yuv.u);
                            assert(self.buffer@[vb] == yuv.v);
                        }
                    }
                }
                xidx = xidx + 1;
            }
            proof {
                let xi = x as int;
                let yi_ = y as int;
                let wi = w as int;
                let r = yidx as int;
                // A full row painted is the same set of pixels as one more
                // row and none of the next.
                assert forall|px2: int, py2: int|
                    #![auto]
                    painted_pixel(px2, py2, xi, yi_, wi, r + 1, 0) implies painted_pixel(
                    px2,
                    py2,
                    xi,
                    yi_,
                    wi,
                    r,
                    wi,
                ) by {}
                assert forall|j: int|
                    0 <= j < old(self).buffer@.len() && !touched_upto(
                        j,
                        wd,
                        ht,
                        xi,
                        yi_,
                        wi,
                        r + 1,
                        0,
                    ) implies #[trigger] self.buffer@[j] == old(self).buffer@[j] by {
                    assert forall|px2: int, py2: int|
                        #![auto]
                        painted_pixel(px2, py2, xi, yi_, wi, r, wi) && writes_index(
                            j,
                            wd,
                            ht,
                            px2,
                            py2,
                        ) implies false by {
                        assert(painted_pixel(px2, py2, xi, yi_, wi, r + 1, 0));
                    }
                    assert(!touched_upto(j, wd, ht, xi, yi_, wi, r, wi));
                }
            }
            yidx = yidx + 1;
        }
        proof {
            assert forall|px: int, py: int|
                #![auto]
                x <= px < x + w && y <= py < y + h implies painted_pixel(
                px,
                py,
                x as int,
                y as int,
                w as int,
                h as int,
                0,
            ) by {}
        }
    }
}

} // verus!
