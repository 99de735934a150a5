//! The display: pixels fetched by video DMA are shifted out one nibble per
//! tick into a row, and each row is turned into RGBA through the palette
//! into one of two screen buffers.
use vstd::prelude::*;
use crate::mikey::registers::{MikeyRegisters, mikey_regs_wf};

verus! {

pub const LYNX_SCREEN_WIDTH: u32 = 160;

pub const LYNX_SCREEN_HEIGHT: u32 = 102;

pub const SCREEN_BUFFER_LEN: usize = 16320;

pub const RGB_SCREEN_BUFFER_LEN: usize = 48960;

pub const RGBA_SCREEN_BUFFER_LEN: usize = 65280;

pub const RGBA_PIXEL_LEN: usize = 4;

const VBLANK_VSYNC_COUNT: u8 = 102;

/// A screen's worth of RGBA pixels and the position of the next one.
pub struct VideoBuffer {
    rgba_buffer: Vec<u8>,
    buffer_index: usize,
}

/// The abstract state of a [`VideoBuffer`].
pub struct VideoBufferView {
    pub rgba: Seq<u8>,
    pub index: usize,
}

impl View for VideoBuffer {
    type V = VideoBufferView;

    closed spec fn view(&self) -> VideoBufferView {
        VideoBufferView { rgba: self.rgba_buffer@, index: self.buffer_index }
    }
}

/// The display state.
pub struct Video {
    buffers: Vec<VideoBuffer>,
    draw_buffer: usize,
    pix_buffer: u64,
    pix_buffer_available: u8,
    redraw_requested: bool,
    display_row_buffer: [u8; 160],
    pub display_row_index: usize,
    vsync_count: u8,
}

/// The abstract state of a [`Video`].
pub struct VideoView {
    pub buffers: Seq<VideoBufferView>,
    pub draw_buffer: usize,
    pub pix_buffer: u64,
    pub pix_buffer_available: u8,
    pub redraw_requested: bool,
    pub row: Seq<u8>,
    pub row_index: usize,
    pub vsync_count: u8,
}

impl View for Video {
    type V = VideoView;

    closed spec fn view(&self) -> VideoView {
        VideoView {
            buffers: self.buffers@.map_values(|b: VideoBuffer| b@),
            draw_buffer: self.draw_buffer,
            pix_buffer: self.pix_buffer,
            pix_buffer_available: self.pix_buffer_available,
            redraw_requested: self.redraw_requested,
            row: self.display_row_buffer@,
            row_index: self.display_row_index,
            vsync_count: self.vsync_count,
        }
    }
}

/// Whether the display state is consistent: two full-size screen buffers,
/// a valid buffer being drawn, and a row of pens.
pub open spec fn video_wf(v: VideoView) -> bool {
    &&& v.buffers.len() == 2
    &&& v.draw_buffer < 2
    &&& forall|i: int| 0 <= i < 2 ==> #[trigger] v.buffers[i].rgba.len() == RGBA_SCREEN_BUFFER_LEN
    &&& v.row.len() == 160
    &&& v.row_index <= 160
    &&& forall|j: int| 0 <= j < 160 ==> #[trigger] v.row[j] < 16
    &&& v.pix_buffer_available <= 16
}

/// A byte of video memory with its two pixels swapped, so that the left
/// pixel (the high nibble) comes out first.
pub open spec fn swapped(p: u8) -> u64 {
    (((p >> 4u8) | (p << 4u8)) as u8) as u64
}

/// Eight bytes of video memory as sixteen pixels, the first pixel lowest.
pub open spec fn packed_pixels(p: Seq<u8>) -> u64 {
    swapped(p[0]) | (swapped(p[1]) << 8u64) | (swapped(p[2]) << 16u64) | (swapped(p[3]) << 24u64) | (swapped(p[4])
        << 32u64) | (swapped(p[5]) << 40u64) | (swapped(p[6]) << 48u64) | (swapped(p[7]) << 56u64)
}

/// Whether a pixel can go into the current row: not in vertical blank and
/// the row not full.
pub open spec fn row_open(v: VideoView) -> bool {
    v.vsync_count < 102 && v.row_index < 160
}

/// The screen buffer after the pens of `pixels` are appended as RGBA.
pub open spec fn rows_pushed(b: VideoBufferView, regs_r: Seq<u8>, regs_g: Seq<u8>, regs_b: Seq<u8>, pixels: Seq<u8>) -> VideoBufferView
    decreases pixels.len(),
{
    if pixels.len() == 0 {
        b
    } else {
        let last = pixels.last();
        let b1 = rows_pushed(b, regs_r, regs_g, regs_b, pixels.drop_last());
        VideoBufferView {
            rgba: b1.rgba.update(b1.index as int, regs_r[last as int]).update(b1.index + 1, regs_g[last as int]).update(
                b1.index + 2,
                regs_b[last as int],
            ).update(b1.index + 3, 0xff),
            index: (b1.index + 4) as usize,
        }
    }
}

/// `p` rotated by four bits: its two pixels swapped.
pub fn swap_nibbles(p: u8) -> (r: u8)
    ensures
        r as u64 == swapped(p),
{
    (p >> 4) | (p << 4)
}

impl VideoBuffer {
    /// A black screen, drawing from its start.
    pub fn new() -> (r: Self)
        ensures
            r@.rgba == Seq::new(RGBA_SCREEN_BUFFER_LEN as nat, |i: int| 0u8),
            r@.index == 0,
    {
        let r = Self { rgba_buffer: vec![0; RGBA_SCREEN_BUFFER_LEN], buffer_index: 0 };
        assert(r@.rgba =~= Seq::new(RGBA_SCREEN_BUFFER_LEN as nat, |i: int| 0u8));
        r
    }

    /// Draws from the start again.
    pub fn reset(&mut self)
        ensures
            final(self)@ == (VideoBufferView { index: 0, ..old(self)@ }),
    {
        self.buffer_index = 0;
    }

    /// Appends one RGBA pixel.
    pub fn push(&mut self, pix: [u8; 4])
        requires
            old(self)@.index + 4 <= old(self)@.rgba.len(),
        ensures
            final(self)@ == (VideoBufferView {
                rgba: old(self)@.rgba.update(old(self)@.index as int, pix@[0]).update(old(self)@.index + 1, pix@[1]).update(
                    old(self)@.index + 2,
                    pix@[2],
                ).update(old(self)@.index + 3, pix@[3]),
                index: (old(self)@.index + 4) as usize,
            }),
    {
        let i = self.buffer_index;
        let n = self.rgba_buffer.len();
        assert(i + 4 <= n);
        self.rgba_buffer.set(i, pix[0]);
        self.rgba_buffer.set(i + 1, pix[1]);
        self.rgba_buffer.set(i + 2, pix[2]);
        self.rgba_buffer.set(i + 3, pix[3]);
        self.buffer_index = self.buffer_index + RGBA_PIXEL_LEN;
    }

    /// The RGBA pixels.
    pub fn screen(&self) -> (r: &Vec<u8>)
        ensures
            r@ == self@.rgba,
    {
        &self.rgba_buffer
    }
}

impl Default for VideoBuffer {
    fn default() -> (r: Self)
        ensures
            r@.index == 0,
            r@.rgba.len() == RGBA_SCREEN_BUFFER_LEN,
    {
        Self::new()
    }
}

/// The video state after a horizontal sync with timer count `count` and
/// the palette `r`, `g`, `b`: the finished row is drawn; at count 104 the
/// screens swap, the new one is drawn from its start, pending pixels are
/// dropped and a redraw is reported.
pub open spec fn hsync_spec(v: VideoView, count: u8, r: Seq<u8>, g: Seq<u8>, b: Seq<u8>) -> VideoView {
    let v1 = VideoView { vsync_count: count, ..row_sent(v, r, g, b) };
    if count == 104 {
        let d = (1 - v1.draw_buffer) as usize;
        VideoView {
            draw_buffer: d,
            buffers: v1.buffers.update(d as int, VideoBufferView { index: 0, ..v1.buffers[d as int] }),
            pix_buffer_available: 0,
            redraw_requested: true,
            ..v1
        }
    } else {
        v1
    }
}

/// The video state after one pixel clock: a fetched pixel, if any, goes
/// into the row while the row is open.
pub open spec fn video_tick_spec(v: VideoView) -> VideoView {
    if v.pix_buffer_available > 0 && row_open(v) {
        VideoView {
            pix_buffer: v.pix_buffer >> 4u64,
            pix_buffer_available: (v.pix_buffer_available - 1) as u8,
            row: v.row.update(v.row_index as int, (v.pix_buffer & 0xf) as u8),
            row_index: (v.row_index + 1) as usize,
            ..v
        }
    } else {
        v
    }
}

impl Video {
    /// Two black screens, nothing fetched, an empty row.
    pub fn new() -> (r: Self)
        ensures
            video_wf(r@),
            r@.draw_buffer == 0,
            r@.pix_buffer == 0,
            r@.pix_buffer_available == 0,
            !r@.redraw_requested,
            r@.row_index == 0,
            r@.vsync_count == 0,
            r@.buffers[0].index == 0,
            r@.buffers[1].index == 0,
    {
        let mut buffers = Vec::new();
        buffers.push(VideoBuffer::new());
        buffers.push(VideoBuffer::new());
        let r = Self {
            buffers,
            draw_buffer: 0,
            pix_buffer: 0,
            pix_buffer_available: 0,
            redraw_requested: false,
            display_row_buffer: [0; 160],
            display_row_index: 0,
            vsync_count: 0,
        };
        assert(r@.buffers[0] == r.buffers@[0]@);
        r
    }

    fn swap_buffers(&mut self)
        requires
            video_wf(old(self)@),
        ensures
            final(self)@ == (VideoView { draw_buffer: (1 - old(self)@.draw_buffer) as usize, ..old(self)@ }),
    {
        self.draw_buffer = 1 - self.draw_buffer;
    }

    /// The screen buffer being drawn.
    pub fn draw_buffer(&mut self) -> (r: &mut VideoBuffer)
        requires
            video_wf(old(self)@),
        ensures
            r@ == old(self)@.buffers[old(self)@.draw_buffer as int],
            final(self)@ == (VideoView { buffers: final(self)@.buffers, ..old(self)@ }),
            final(self)@.buffers.len() == 2,
            final(self)@.buffers[old(self)@.draw_buffer as int] == final(r)@,
            forall|i: int| 0 <= i < 2 && i != old(self)@.draw_buffer ==> #[trigger] final(self)@.buffers[i] == old(
                self,
            )@.buffers[i],
    {
        let d = self.draw_buffer;
        let r = &mut self.buffers[d];
        r
    }

    /// Whether a new screen is ready since the last call; clears the report.
    pub fn redraw_requested(&mut self) -> (r: bool)
        ensures
            r == old(self)@.redraw_requested,
            final(self)@ == (VideoView { redraw_requested: false, ..old(self)@ }),
    {
        if self.redraw_requested {
            self.redraw_requested = false;
            true
        } else {
            false
        }
    }

    /// Takes eight bytes fetched from video memory as the next sixteen
    /// pixels.
    pub fn push_pix_buffer(&mut self, pixs: &[u8])
        requires
            pixs@.len() >= 8,
        ensures
            final(self)@ == (VideoView {
                pix_buffer_available: 16,
                pix_buffer: packed_pixels(pixs@),
                ..old(self)@
            }),
    {
        self.pix_buffer_available = 16;
        self.pix_buffer = (swap_nibbles(pixs[0]) as u64) | ((swap_nibbles(pixs[1]) as u64) << 8) | ((swap_nibbles(
            pixs[2],
        ) as u64) << 16) | ((swap_nibbles(pixs[3]) as u64) << 24) | ((swap_nibbles(pixs[4]) as u64) << 32) | ((
        swap_nibbles(pixs[5]) as u64) << 40) | ((swap_nibbles(pixs[6]) as u64) << 48) | ((swap_nibbles(pixs[7])
            as u64) << 56);
    }

    /// Shifts out the next pixel.
    pub fn pop_pixel(&mut self) -> (r: u8)
        requires
            old(self)@.pix_buffer_available > 0,
        ensures
            r == old(self)@.pix_buffer & 0xf,
            r < 16,
            final(self)@ == (VideoView {
                pix_buffer: old(self)@.pix_buffer >> 4u64,
                pix_buffer_available: (old(self)@.pix_buffer_available - 1) as u8,
                ..old(self)@
            }),
    {
        let pb = self.pix_buffer;
        proof {
            lemma_nibble_bits(pb, 0);
        }
        let pix = (self.pix_buffer & 0b1111) as u8;
        self.pix_buffer = self.pix_buffer >> 4;
        self.pix_buffer_available = self.pix_buffer_available - 1;
        pix
    }

    /// A horizontal sync with timer count `count`: the finished row is drawn;
    /// at count 104 the screens swap, the new one is drawn from its start,
    /// pending pixels are dropped and a redraw is reported.
    pub fn hsync(&mut self, count: u8, regs: &MikeyRegisters)
        requires
            video_wf(old(self)@),
            mikey_regs_wf(regs@),
            old(self)@.buffers[old(self)@.draw_buffer as int].index + 4 * old(self)@.row_index <= RGBA_SCREEN_BUFFER_LEN,
        ensures
            video_wf(final(self)@),
            final(self)@ == hsync_spec(old(self)@, count, regs@.palette_r, regs@.palette_g, regs@.palette_b),
    {
        self.vsync_count = count;
        self.send_row_buffer(regs);
        if count == VBLANK_VSYNC_COUNT + 2 {
            self.swap_buffers();
            let ghost v2 = self@;
            self.draw_buffer().reset();
            self.pix_buffer_available = 0;
            self.redraw_requested = true;
            proof {
                let d = v2.draw_buffer as int;
                assert(self@.buffers =~= v2.buffers.update(d, VideoBufferView { index: 0, ..v2.buffers[d] }));
            }
        }
    }

    /// Draws the finished row: each of its pens goes through the palette
    /// into the screen buffer as RGBA, and the row is emptied.
    pub fn send_row_buffer(&mut self, regs: &MikeyRegisters)
        requires
            video_wf(old(self)@),
            mikey_regs_wf(regs@),
            old(self)@.buffers[old(self)@.draw_buffer as int].index + 4 * old(self)@.row_index <= RGBA_SCREEN_BUFFER_LEN,
        ensures
            video_wf(final(self)@),
            final(self)@ == row_sent(old(self)@, regs@.palette_r, regs@.palette_g, regs@.palette_b),
    {
        if self.display_row_index == 0 {
            return;
        }
        let n = self.display_row_index;
        let d = self.draw_buffer;
        let ghost v0 = self@;
        assert(self.buffers@.map_values(|b: VideoBuffer| b@).len() == self.buffers@.len());
        let mut i: usize = 0;
        while i < n
            invariant
                i <= n,
                self.buffers@.len() == 2,
                forall|j: int| 0 <= j < 2 ==> #[trigger] self.buffers@[j]@ == self@.buffers[j],
                n == v0.row_index,
                d == v0.draw_buffer,
                video_wf(v0),
                mikey_regs_wf(regs@),
                v0.buffers[d as int].index + 4 * n <= RGBA_SCREEN_BUFFER_LEN,
                self@ == (VideoView { buffers: self@.buffers, ..v0 }),
                self@.buffers == v0.buffers.update(
                    d as int,
                    rows_pushed(v0.buffers[d as int], regs@.palette_r, regs@.palette_g, regs@.palette_b, v0.row.subrange(0, i as int)),
                ),
                rows_pushed(v0.buffers[d as int], regs@.palette_r, regs@.palette_g, regs@.palette_b, v0.row.subrange(0, i as int)).index
                    == v0.buffers[d as int].index + 4 * i,
                rows_pushed(v0.buffers[d as int], regs@.palette_r, regs@.palette_g, regs@.palette_b, v0.row.subrange(0, i as int)).rgba.len()
                    == RGBA_SCREEN_BUFFER_LEN,
            decreases n - i,
        {
            let pix = self.display_row_buffer[i];
            assert(pix < 16);
            let rgba = regs.get_pen(pix);
            assert(self.buffers@.len() == 2);
            assert(self.buffers@[d as int]@ == self@.buffers[d as int]);
            let buf = &mut self.buffers[d];
            buf.push(rgba);
            proof {
                let s = v0.row.subrange(0, i + 1);
                assert(s.drop_last() =~= v0.row.subrange(0, i as int));
                assert(s.last() == pix);
            }
            i = i + 1;
            assert(self.buffers@.map_values(|b: VideoBuffer| b@).len() == self.buffers@.len());
            assert(self@.buffers =~= v0.buffers.update(
                d as int,
                rows_pushed(v0.buffers[d as int], regs@.palette_r, regs@.palette_g, regs@.palette_b, v0.row.subrange(0, i as int)),
            ));
        }
        self.display_row_index = 0;
    }

    fn is_available(&mut self) -> (r: bool)
        ensures
            r == row_open(old(self)@),
            final(self)@ == old(self)@,
    {
        self.vsync_count < VBLANK_VSYNC_COUNT && self.display_row_index < 160
    }

    /// One pixel clock: a fetched pixel, if any, goes into the row while
    /// the row is open.
    pub fn tick(&mut self)
        requires
            video_wf(old(self)@),
        ensures
            video_wf(final(self)@),
            final(self)@ == video_tick_spec(old(self)@),
    {
        if self.pix_buffer_available > 0 && self.is_available() {
            let pixel = self.pop_pixel();
            self.display_row_buffer[self.display_row_index] = pixel;
            self.display_row_index = self.display_row_index + 1;
        }
    }

    /// When the row is open and no pixels are pending, the offset of the
    /// next bytes to fetch: the pixels drawn so far on the screen plus
    /// those in the row, two per byte.
    pub fn required_bytes(&mut self) -> (r: Option<usize>)
        requires
            video_wf(old(self)@),
        ensures
            final(self)@ == old(self)@,
            r == (if row_open(old(self)@) && old(self)@.pix_buffer_available == 0 {
                Some(
                    (old(self)@.buffers[old(self)@.draw_buffer as int].index / 8 + old(self)@.row_index / 2) as usize,
                )
            } else {
                None::<usize>
            }),
    {
        if !self.is_available() {
            return None;
        }
        if self.pix_buffer_available == 0 {
            let idx = self.buffers[self.draw_buffer].buffer_index;
            Some(idx / (RGBA_PIXEL_LEN * 2) + self.display_row_index / 2)
        } else {
            None
        }
    }

    /// The last finished screen, as RGBA.
    pub fn rgba_screen(&self) -> (r: &Vec<u8>)
        requires
            video_wf(self@),
        ensures
            r@ == self@.buffers[1 - self@.draw_buffer].rgba,
    {
        self.buffers[1 - self.draw_buffer].screen()
    }
}

/// The display after the finished row is drawn and emptied.
pub open spec fn row_sent(v: VideoView, r: Seq<u8>, g: Seq<u8>, b: Seq<u8>) -> VideoView {
    if v.row_index == 0 {
        v
    } else {
        VideoView {
            buffers: v.buffers.update(
                v.draw_buffer as int,
                rows_pushed(v.buffers[v.draw_buffer as int], r, g, b, v.row.subrange(0, v.row_index as int)),
            ),
            row_index: 0,
            ..v
        }
    }
}

/// The sixteen pixels of eight fetched bytes come out in screen order:
/// pixel `k` is the high nibble of byte `k / 2` for even `k`, its low
/// nibble for odd `k`.
pub proof fn lemma_pixel_order(p: Seq<u8>, k: u64)
    requires
        p.len() >= 8,
        k < 16,
    ensures
        (packed_pixels(p) >> (4 * k)) & 0xf == (if k % 2 == 0 {
            (p[(k / 2) as int] >> 4u8) as u64
        } else {
            (p[(k / 2) as int] & 0xf) as u64
        }),
{
    let (p0, p1, p2, p3, p4, p5, p6, p7) = (p[0], p[1], p[2], p[3], p[4], p[5], p[6], p[7]);
    assert({
        let w = swapped(p0) | (swapped(p1) << 8u64) | (swapped(p2) << 16u64) | (swapped(p3) << 24u64) | (swapped(p4)
            << 32u64) | (swapped(p5) << 40u64) | (swapped(p6) << 48u64) | (swapped(p7) << 56u64);
        let byte = if k / 2 == 0 {
            p0
        } else if k / 2 == 1 {
            p1
        } else if k / 2 == 2 {
            p2
        } else if k / 2 == 3 {
            p3
        } else if k / 2 == 4 {
            p4
        } else if k / 2 == 5 {
            p5
        } else if k / 2 == 6 {
            p6
        } else {
            p7
        };
        k < 16 ==> (w >> (4 * k)) & 0xf == (if k % 2 == 0 { (byte >> 4u8) as u64 } else { (byte & 0xf) as u64 })
    }) by (bit_vector);
}

impl Default for Video {
    fn default() -> (r: Self)
        ensures
            video_wf(r@),
    {
        Video::new()
    }
}


/// Facts of bit arithmetic on the pixel buffer: the lowest nibble as a
/// byte, and shifting the buffer a nibble at a time.
proof fn lemma_nibble_bits(pb: u64, j: u64)
    by (bit_vector)
    ensures
        (pb & 0b1111) < 16 && ((pb & 0b1111) as u8) as u64 == pb & 0xf,
        j < 16 ==> (pb >> (4 * j)) >> 4u64 == pb >> (4 * (j + 1)),
        pb >> 0u64 == pb,
{
}

/// The video after `k` pixels are shifted out of its pixel buffer.
pub open spec fn popped(v: VideoView, k: nat) -> VideoView
    decreases k,
{
    if k == 0 {
        v
    } else {
        let w = popped(v, (k - 1) as nat);
        VideoView { pix_buffer: w.pix_buffer >> 4u64, pix_buffer_available: (w.pix_buffer_available - 1) as u8, ..w }
    }
}

/// Pixels come out of a pushed buffer in screen order: after eight bytes
/// are pushed and `i` pixels (fewer than sixteen) popped, a pixel is still
/// available and the next one is the high nibble of byte `i / 2` for even
/// `i`, its low nibble for odd `i`.
pub proof fn lemma_pops_in_order(v: VideoView, p: Seq<u8>, i: nat)
    requires
        p.len() >= 8,
        i < 16,
    ensures
        ({
            let w = popped(VideoView { pix_buffer_available: 16, pix_buffer: packed_pixels(p), ..v }, i);
            &&& w.pix_buffer_available == 16 - i
            &&& w.pix_buffer & 0xf == (if i % 2 == 0 {
                (p[(i / 2) as int] >> 4u8) as u64
            } else {
                (p[(i / 2) as int] & 0xf) as u64
            })
        }),
{
    lemma_popped_shift(VideoView { pix_buffer_available: 16, pix_buffer: packed_pixels(p), ..v }, i);
    lemma_pixel_order(p, i as u64);
}

/// After `i` pops the buffer is shifted by `i` nibbles.
proof fn lemma_popped_shift(v: VideoView, i: nat)
    requires
        i <= 16,
        v.pix_buffer_available == 16,
    ensures
        popped(v, i).pix_buffer == v.pix_buffer >> (4 * (i as u64)),
        popped(v, i).pix_buffer_available == 16 - i,
    decreases i,
{
    if i == 0 {
        lemma_nibble_bits(v.pix_buffer, 0);
    } else {
        lemma_popped_shift(v, (i - 1) as nat);
        lemma_nibble_bits(v.pix_buffer, (i - 1) as u64);
        assert((4 * (((i - 1) as nat) as u64 + 1)) == 4 * (i as u64));
    }
}

} // verus!
