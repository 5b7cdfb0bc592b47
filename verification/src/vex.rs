//! Per-frame pixel effects: a capability with two operations, ingest a
//! frame and produce a frame, and the trichrome transform that implements
//! it.

use vstd::prelude::*;

use crate::capture::{BorrowedFrame, Frame};

verus! {

/// A per-frame pixel transform: frames of fixed dimensions go in, and the
/// transform's current composite comes out.
pub trait Vex {
    /// The effect's own well-formedness, established by its constructors
    /// and preserved by every operation.
    spec fn fx_wf(&self) -> bool;

    /// The pixel width the effect expects and produces.
    spec fn fx_width(&self) -> usize;

    /// The pixel height the effect expects and produces.
    spec fn fx_height(&self) -> usize;

    /// Ingest one frame of the expected dimensions.
    fn frame_in(&mut self, frame: BorrowedFrame<'_>)
        requires
            old(self).fx_wf(),
            frame.width == old(self).fx_width(),
            frame.height == old(self).fx_height(),
            frame.wf(),
        ensures
            final(self).fx_wf(),
            final(self).fx_width() == old(self).fx_width(),
            final(self).fx_height() == old(self).fx_height(),
    ;

    /// Produce the current composite frame.
    fn frame_out(&mut self) -> (r: BorrowedFrame<'_>)
        requires
            old(self).fx_wf(),
        ensures
            final(self).fx_wf(),
            final(self).fx_width() == old(self).fx_width(),
            final(self).fx_height() == old(self).fx_height(),
            r.width == old(self).fx_width(),
            r.height == old(self).fx_height(),
            r.wf(),
    ;

    /// Ingest a frame and produce the resulting composite.
    fn effect(&mut self, frame: BorrowedFrame<'_>) -> (r: BorrowedFrame<'_>)
        requires
            old(self).fx_wf(),
            frame.width == old(self).fx_width(),
            frame.height == old(self).fx_height(),
            frame.wf(),
        ensures
            final(self).fx_wf(),
            final(self).fx_width() == old(self).fx_width(),
            final(self).fx_height() == old(self).fx_height(),
            r.width == old(self).fx_width(),
            r.height == old(self).fx_height(),
            r.wf(),
    {
        self.frame_in(frame);
        self.frame_out()
    }

    /// Take ownership of the effect and hand back a frame that can prime
    /// the next effect.
    fn into_frame(self) -> (r: Frame) where Self: Sized
        requires
            self.fx_wf(),
        ensures
            r.wf(),
    ;
}

/// The grayscale value the trichrome transform writes for one incoming
/// pixel: the plain average of its three channels.
pub open spec fn grey_of(rgb: Seq<u8>, p: int) -> u8 {
    ((rgb[3 * p] + rgb[3 * p + 1] + rgb[3 * p + 2]) / 3) as u8
}

/// The trichrome effect: keeps a composite frame, and on each incoming
/// frame either cycles a grayscale of it through the stored channels or
/// refreshes one colour channel, in turn.
pub struct Tricrideo {
    buffer: Frame,
    channel_idx: u8,
    coloured: bool,
}

impl Tricrideo {
    /// The composite buffer matches its dimensions and the channel cursor
    /// stays within the three channels.
    spec fn inv(self) -> bool {
        &&& self.buffer.wf()
        &&& self.channel_idx < 3
    }

    /// The composite's pixel bytes.
    pub closed spec fn spec_buffer(self) -> Seq<u8> {
        self.buffer.data@
    }

    /// Which colour channel the next coloured frame refreshes.
    pub closed spec fn spec_channel(self) -> u8 {
        self.channel_idx
    }

    /// Whether the transform refreshes colour channels rather than
    /// cycling grayscale values.
    pub closed spec fn spec_coloured(self) -> bool {
        self.coloured
    }

    /// A black composite of the given dimensions, in grayscale mode.
    pub fn new(width: usize, height: usize) -> (r: Tricrideo)
        requires
            3 * width * height <= usize::MAX,
        ensures
            r.fx_wf(),
            r.fx_width() == width,
            r.fx_height() == height,
            r.spec_channel() == 0,
            !r.spec_coloured(),
            r.spec_buffer() == Seq::new((3 * width * height) as nat, |i: int| 0u8),
    {
        proof {
            assert(width * height * 3 == 3 * width * height) by (nonlinear_arith);
        }
        let n = width * height * 3;
        let data: Vec<u8> = vec![0u8; n];
        proof {
            assert(data@ =~= Seq::new((3 * width * height) as nat, |i: int| 0u8));
        }
        Tricrideo {
            buffer: Frame { data, width, height },
            channel_idx: 0,
            coloured: false,
        }
    }

    /// Prime the composite with an existing frame, in grayscale mode.
    pub fn from_frame(frame: Frame) -> (r: Tricrideo)
        requires
            frame.wf(),
        ensures
            r.fx_wf(),
            r.fx_width() == frame.width,
            r.fx_height() == frame.height,
            r.spec_channel() == 0,
            !r.spec_coloured(),
            r.spec_buffer() == frame.data@,
    {
        Tricrideo { buffer: frame, channel_idx: 0, coloured: false }
    }

    /// Switch between refreshing colour channels and cycling grayscale.
    pub fn set_coloured(&mut self, coloured: bool)
        ensures
            final(self).fx_wf() == old(self).fx_wf(),
            final(self).spec_coloured() == coloured,
            final(self).spec_buffer() == old(self).spec_buffer(),
            final(self).spec_channel() == old(self).spec_channel(),
            final(self).fx_width() == old(self).fx_width(),
            final(self).fx_height() == old(self).fx_height(),
    {
        self.coloured = coloured;
    }

    /// Cycle a grayscale of the incoming frame through the composite: each
    /// pixel becomes (average, old red, old red).
    fn grey(&mut self, frame: BorrowedFrame<'_>)
        requires
            old(self).inv(),
            frame.wf(),
            frame.width == old(self).buffer.width,
            frame.height == old(self).buffer.height,
        ensures
            final(self).buffer.width == old(self).buffer.width,
            final(self).buffer.height == old(self).buffer.height,
            final(self).channel_idx == old(self).channel_idx,
            final(self).coloured == old(self).coloured,
            final(self).buffer.data@.len() == old(self).buffer.data@.len(),
            forall|p: int|
                0 <= 3 * p && 3 * p + 2 < final(self).buffer.data@.len() ==> {
                    &&& final(self).buffer.data@[3 * p] == grey_of(frame.data@, p)
                    &&& final(self).buffer.data@[3 * p + 1] == old(self).buffer.data@[3 * p]
                    &&& final(self).buffer.data@[3 * p + 2] == old(self).buffer.data@[3 * p]
                },
    {
        proof {
            let w = frame.width as int;
            let h = frame.height as int;
            assert(3 * w * h == 3 * (w * h)) by (nonlinear_arith);
        }
        let len = self.buffer.data.len();
        let npx = len / 3;
        let mut p: usize = 0;
        while p < npx
            invariant
                p <= npx,
                npx <= usize::MAX / 3,
                self.buffer.width == old(self).buffer.width,
                self.buffer.height == old(self).buffer.height,
                self.channel_idx == old(self).channel_idx,
                self.coloured == old(self).coloured,
                frame.wf(),
                frame.width == self.buffer.width,
                frame.height == self.buffer.height,
                self.buffer.data@.len() == 3 * (npx as int),
                frame.data@.len() == 3 * (npx as int),
                forall|q: int|
                    p <= q < npx ==> #[trigger] self.buffer.data@[3 * q] == old(
                        self,
                    ).buffer.data@[3 * q],
                forall|q: int|
                    0 <= q < p ==> {
                        &&& #[trigger] self.buffer.data@[3 * q] == grey_of(frame.data@, q)
                        &&& self.buffer.data@[3 * q + 1] == old(self).buffer.data@[3 * q]
                        &&& self.buffer.data@[3 * q + 2] == old(self).buffer.data@[3 * q]
                    },
            decreases npx - p,
        {
            proof {
                assert(self.buffer.data@[3 * (p as int)] == old(self).buffer.data@[3 * (
                p as int)]);
            }
            let r_old = self.buffer.data[3 * p];
            let a: u32 = frame.data[3 * p] as u32 + frame.data[3 * p + 1] as u32 + frame.data[3 * p
                + 2] as u32;
            let nv = (a / 3) as u8;
            self.buffer.data.set(3 * p, nv);
            self.buffer.data.set(3 * p + 1, r_old);
            self.buffer.data.set(3 * p + 2, r_old);
            proof {
                assert(self.buffer.data@[3 * (p as int)] == grey_of(frame.data@, p as int));
                assert(self.buffer.data@[3 * (p as int) + 1] == old(self).buffer.data@[3 * (
                p as int)]);
                assert(self.buffer.data@[3 * (p as int) + 2] == old(self).buffer.data@[3 * (
                p as int)]);
            }
            p = p + 1;
        }
    }

    /// Refresh one colour channel of the composite from the incoming
    /// frame, leaving the other channels untouched.
    fn colour(&mut self, frame: BorrowedFrame<'_>)
        requires
            old(self).inv(),
            frame.wf(),
            frame.width == old(self).buffer.width,
            frame.height == old(self).buffer.height,
        ensures
            final(self).buffer.width == old(self).buffer.width,
            final(self).buffer.height == old(self).buffer.height,
            final(self).channel_idx == old(self).channel_idx,
            final(self).coloured == old(self).coloured,
            final(self).buffer.data@.len() == old(self).buffer.data@.len(),
            forall|p: int|
                0 <= 3 * p && 3 * p + 2 < final(self).buffer.data@.len()
                    ==> #[trigger] final(self).buffer.data@[3 * p + old(self).channel_idx]
                    == frame.data@[3 * p + old(self).channel_idx],
            forall|j: int|
                0 <= j < old(self).buffer.data@.len() && j % 3 != old(self).channel_idx
                    ==> #[trigger] final(self).buffer.data@[j] == old(self).buffer.data@[j],
    {
        proof {
            let w = frame.width as int;
            let h = frame.height as int;
            assert(3 * w * h == 3 * (w * h)) by (nonlinear_arith);
        }
        let ch = self.channel_idx as usize;
        let len = self.buffer.data.len();
        let npx = len / 3;
        let mut p: usize = 0;
        while p < npx
            invariant
                p <= npx,
                npx <= usize::MAX / 3,
                ch == old(self).channel_idx,
                ch < 3,
                self.buffer.width == old(self).buffer.width,
                self.buffer.height == old(self).buffer.height,
                self.channel_idx == old(self).channel_idx,
                self.coloured == old(self).coloured,
                frame.wf(),
                frame.width == self.buffer.width,
                frame.height == self.buffer.height,
                self.buffer.data@.len() == 3 * (npx as int),
                frame.data@.len() == 3 * (npx as int),
                forall|q: int|
                    0 <= q < p ==> #[trigger] self.buffer.data@[3 * q + ch] == frame.data@[3 * q
                        + ch],
                forall|j: int|
                    0 <= j < self.buffer.data@.len() && j % 3 != ch
                        ==> #[trigger] self.buffer.data@[j] == old(self).buffer.data@[j],
            decreases npx - p,
        {
            let v = frame.data[3 * p + ch];
            self.buffer.data.set(3 * p + ch, v);
            proof {
                assert((3 * p + ch) % 3 == ch as int);
            }
            p = p + 1;
        }
    }
}

impl Vex for Tricrideo {
    closed spec fn fx_wf(&self) -> bool {
        self.inv()
    }

    closed spec fn fx_width(&self) -> usize {
        self.buffer.width
    }

    closed spec fn fx_height(&self) -> usize {
        self.buffer.height
    }

    fn frame_in(&mut self, frame: BorrowedFrame<'_>) {
        if self.coloured {
            self.colour(frame);
        } else {
            self.grey(frame);
        }
        self.channel_idx = (self.channel_idx + 1) % 3;
    }

    fn frame_out(&mut self) -> (r: BorrowedFrame<'_>) {
        BorrowedFrame {
            data: self.buffer.data.as_slice(),
            width: self.buffer.width,
            height: self.buffer.height,
        }
    }

    fn into_frame(self) -> (r: Frame) {
        self.buffer
    }
}

} // verus!
