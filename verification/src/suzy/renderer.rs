//! The sprite engine: walks the chain of sprite control blocks, decodes each
//! sprite line by line and paints its pixels into video and collision RAM,
//! one step of the task at a time.
use vstd::prelude::*;
use crate::consts::{
    COLLADRL, COLLOFFL, HOFFL, HPOSSTRTH, HPOSSTRTL, HSIZOFFL, LINE_END, RAM_DMA_READ_TICKS, SCBADRL, SCBNEXTH,
    SCBNEXTL, SPRCOLL, SPRCOLL_DONT_COLLIDE, SPRCOLL_NUMBER, SPRCTL0, SPRCTL0_HFLIP, SPRCTL0_SPR_TYPE,
    SPRCTL0_VFLIP, SPRCTL1, SPRCTL1_RELOAD_HVS, SPRCTL1_RELOAD_HVST, SPRCTL1_REUSE_PALETTE, SPRCTL1_SKIP_SPRITE,
    SPRDLINEH, SPRDLINEL, SPRDOFFL, SPRGO, SPRGO_EVERON, SPRHSIZH, SPRHSIZL, SPRVSIZH, SPRVSIZL, STRETCHH, STRETCHL,
    SUZ_ADDR, TILTACUMH, TILTACUML, TILTH, TILTL, TMPADRH, TMPADRL, VIDADRL, VOFFL, VPOSSTRTH, VPOSSTRTL, VSIZACUMH,
    VSIZACUML, VSIZOFFL,
};
use crate::ram::{Ram, RamView, ram_wf};
use crate::suzy::SuzyTask;
use crate::suzy::registers::{
    SprSysR, SprSysW, SuzyRegisters, SuzyRegistersView, TaskStep, next_task_step, put_word, reg_at, word_at,
};
use crate::suzy::sprite_data::{LineType, SpriteData, SpriteView, get_spec, initialized, pixel_spec, sprite_wf};

verus! {

/// The height of the screen in lines.
pub const SCREEN_LINES: i16 = 102;

/// The width of the screen in pixels.
pub const SCREEN_PIXELS: i16 = 160;

/// The sprite engine's state between two steps of its task.
pub struct Renderer {
    scb_step: u8,
    scb_pen_idx: usize,
    start_quadrant: u8,
    quadrant: u8,
    ever_on_screen: bool,
    orig_vsign: i16,
    orig_hsign: i16,
    hquadoff: i16,
    vquadoff: i16,
    screen_h_start: i16,
    screen_v_start: i16,
    voff: i16,
    hoff: i16,
    vsign: i16,
    hsign: i16,
    pixel_height: u8,
    orig_pixel_height: u8,
    sprite_data: SpriteData,
    pixel: u32,
    pixel_width: u8,
    collision: u8,
    pens: [u8; 16],
    fetch_pending: bool,
}

/// The abstract state of a [`Renderer`].
pub struct RendererView {
    pub scb_step: u8,
    pub scb_pen_idx: usize,
    pub start_quadrant: u8,
    pub quadrant: u8,
    pub ever_on_screen: bool,
    pub orig_vsign: i16,
    pub orig_hsign: i16,
    pub hquadoff: i16,
    pub vquadoff: i16,
    pub screen_h_start: i16,
    pub screen_v_start: i16,
    pub voff: i16,
    pub hoff: i16,
    pub vsign: i16,
    pub hsign: i16,
    pub pixel_height: u8,
    pub orig_pixel_height: u8,
    pub sprite: SpriteView,
    pub pixel: u32,
    pub pixel_width: u8,
    pub collision: u8,
    pub pens: Seq<u8>,
    pub fetch_pending: bool,
}

impl View for Renderer {
    type V = RendererView;

    closed spec fn view(&self) -> RendererView {
        RendererView {
            scb_step: self.scb_step,
            scb_pen_idx: self.scb_pen_idx,
            start_quadrant: self.start_quadrant,
            quadrant: self.quadrant,
            ever_on_screen: self.ever_on_screen,
            orig_vsign: self.orig_vsign,
            orig_hsign: self.orig_hsign,
            hquadoff: self.hquadoff,
            vquadoff: self.vquadoff,
            screen_h_start: self.screen_h_start,
            screen_v_start: self.screen_v_start,
            voff: self.voff,
            hoff: self.hoff,
            vsign: self.vsign,
            hsign: self.hsign,
            pixel_height: self.pixel_height,
            orig_pixel_height: self.orig_pixel_height,
            sprite: self.sprite_data@,
            pixel: self.pixel,
            pixel_width: self.pixel_width,
            collision: self.collision,
            pens: self.pens@,
            fetch_pending: self.fetch_pending,
        }
    }
}

/// Whether a renderer state is consistent: a decoder of at most 64 bits,
/// a palette of 16 pens filled two at a time, quadrants numbered 0 to 3.
pub open spec fn renderer_wf(r: RendererView) -> bool {
    &&& sprite_wf(r.sprite)
    &&& r.pens.len() == 16
    &&& r.scb_pen_idx <= 16
    &&& r.scb_pen_idx % 2 == 0
    &&& r.quadrant < 4
    &&& r.start_quadrant < 4
}

/// An emptied decoder that fetches from `addr`.
pub open spec fn cleared_sprite(addr: u16) -> SpriteView {
    SpriteView {
        shift_reg: 0,
        bits_left: 0xffff,
        shift_reg_count: 0,
        repeat_count: 0,
        line_pixel: 0,
        line_type: LineType::Error,
        addr,
    }
}

/// The direction of drawing in quadrant `q`: forwards in quadrants `a` and
/// `b`, backwards in the others.
pub open spec fn quadrant_sign(q: u8, a: u8, b: u8) -> i16 {
    if q == a || q == b {
        1i16
    } else {
        -1i16
    }
}

/// The registers with the sprite engine stopped: the sprite and math busy
/// flags off and no task.
pub open spec fn stopped_regs(g: SuzyRegistersView) -> SuzyRegistersView {
    SuzyRegistersView {
        sprsys_r: g.sprsys_r & !0x01u8 & !0x80u8,
        task: SuzyTask::Idle,
        task_step: TaskStep::Idle,
        ..g
    }
}

impl Renderer {
    /// The state of a renderer with no sprite under way.
    pub open spec fn new_view() -> RendererView {
        RendererView {
            scb_step: 0,
            scb_pen_idx: 0,
            start_quadrant: 0,
            quadrant: 0,
            ever_on_screen: false,
            orig_vsign: 0,
            orig_hsign: 0,
            hquadoff: 0,
            vquadoff: 0,
            screen_h_start: 0,
            screen_v_start: 0,
            voff: 0,
            hoff: 0,
            vsign: 0,
            hsign: 0,
            pixel_height: 0,
            orig_pixel_height: 0,
            sprite: cleared_sprite(0),
            pixel: 0,
            pixel_width: 0,
            collision: 0,
            pens: Seq::new(16, |i: int| 0u8),
            fetch_pending: false,
        }
    }

    /// A renderer with no sprite under way.
    pub fn new() -> (r: Self)
        ensures
            renderer_wf(r@),
            r@ == Self::new_view(),
    {
        let r = Self {
            scb_step: 0,
            scb_pen_idx: 0,
            start_quadrant: 0,
            quadrant: 0,
            ever_on_screen: false,
            orig_vsign: 0,
            orig_hsign: 0,
            vsign: 0,
            hsign: 0,
            hquadoff: 0,
            vquadoff: 0,
            screen_h_start: 0,
            screen_v_start: 0,
            voff: 0,
            hoff: 0,
            pixel_height: 0,
            orig_pixel_height: 0,
            sprite_data: SpriteData::new(),
            pixel: 0,
            pixel_width: 0,
            collision: 0,
            pens: [0; 16],
            fetch_pending: false,
        };
        assert(r.pens@ =~= Seq::new(16, |i: int| 0u8));
        r
    }

    /// Stops the sprite engine: the busy flags go off and the task ends.
    fn stop_sprite_engine(&mut self, regs: &mut SuzyRegisters)
        ensures
            final(self)@ == (RendererView { scb_step: 0, ..old(self)@ }),
            final(regs)@ == stopped_regs(old(regs)@),
    {
        self.scb_step = 0;
        regs.sprsys_r_disable_flag(SprSysR::sprite_working());
        regs.sprsys_r_disable_flag(SprSysR::math_working());
        regs.reset_task();
    }

    /// Starts painting the next sprite of the chain: marks the engine busy
    /// and takes SCBNEXT as the current control block. A block in page zero
    /// ends the chain; otherwise its bytes are asked for.
    fn initialize_for_painting(&mut self, regs: &mut SuzyRegisters)
        requires
            renderer_wf(old(self)@),
        ensures
            renderer_wf(final(self)@),
            painting_post(old(self)@, old(regs)@, final(self)@, final(regs)@),
    {
        proof {
            old(regs).lemma_len();
        }
        regs.sprsys_r_enable_flag(SprSysR::sprite_working());
        regs.sprsys_r_enable_flag(SprSysR::math_working());

        let firstscb = regs.sbc_next();
        regs.set_scb_addr(firstscb);
        proof {
            crate::suzy::registers::lemma_word_roundtrip(old(regs)@.data, SCBADRL, firstscb);
        }

        if 0 == (firstscb & 0xFF00) {
            regs.set_task_step(TaskStep::MaxSteps);
            return ;
        }
        self.scb_step = 0;

        let scbaddr = regs.scb_addr();
        if 0 == (scbaddr & 0xFF00) {
            self.stop_sprite_engine(regs);
        } else {
            self.sprite_data.reset(regs);
            self.sprite_data.set_addr(scbaddr);
            self.fetch_pending = true;
            regs.inc_task_step();
        }
    }

    /// Ends a quadrant: a sprite without data (SPRDOFF zero) or one back at
    /// its first quadrant is done, otherwise the next quadrant starts.
    fn end_quadrant_render(&mut self, regs: &mut SuzyRegisters)
        requires
            renderer_wf(old(self)@),
        ensures
            renderer_wf(final(self)@),
            end_quadrant_post(old(self)@, old(regs)@, final(self)@, final(regs)@),
    {
        if regs.u16(SPRDOFFL) == 0 {
            regs.inc_task_step();
        } else {
            self.quadrant = self.quadrant + 1;
            self.quadrant = self.quadrant & 0x03;
            proof {
                let q = old(self)@.quadrant;
                assert(((q + 1) as u8) & 0x03 == ((q + 1) % 4) as u8) by (bit_vector)
                    requires
                        q < 4,
                ;
            }
            if self.quadrant == self.start_quadrant {
                regs.inc_task_step();
            } else {
                regs.set_task_step(TaskStep::InitializeQuadrant);
            }
        }
    }

    /// Starts rendering the loaded sprite: no collision yet, the quadrant
    /// from SPRCTL1, the screen offsets from HOFF and VOFF.
    fn initialize_quadrants_rendering(&mut self, regs: &mut SuzyRegisters)
        requires
            renderer_wf(old(self)@),
        ensures
            renderer_wf(final(self)@),
            quadrants_post(old(self)@, old(regs)@, final(self)@, final(regs)@),
    {
        self.ever_on_screen = false;
        self.collision = 0;
        let line = regs.sprdline();
        self.sprite_data.set_addr(line);
        self.start_quadrant = regs.start_quadrant();
        self.quadrant = self.start_quadrant;
        regs.set_u16(TMPADRL, 0);
        self.hoff = regs.i16(HOFFL);
        self.voff = regs.i16(VOFFL);
        self.screen_h_start = self.hoff;
        self.screen_v_start = self.voff;
        self.orig_hsign = if self.start_quadrant == 0 || self.start_quadrant == 1 {
            1
        } else {
            -1
        };
        self.orig_vsign = if self.start_quadrant == 0 || self.start_quadrant == 3 {
            1
        } else {
            -1
        };
        regs.inc_task_step();
    }

    /// Starts a quadrant: its drawing directions (flipped by SPRCTL0), the
    /// first line, the vertical size accumulator and an emptied decoder.
    fn initialize_quadrant_render(&mut self, regs: &mut SuzyRegisters)
        requires
            renderer_wf(old(self)@),
        ensures
            renderer_wf(final(self)@),
            quadrant_post(old(self)@, old(regs)@, final(self)@, final(regs)@),
    {
        self.hsign = if self.quadrant == 0 || self.quadrant == 1 {
            1
        } else {
            -1
        };
        self.vsign = if self.quadrant == 0 || self.quadrant == 3 {
            1
        } else {
            -1
        };

        if regs.sprctl0() & SPRCTL0_VFLIP == SPRCTL0_VFLIP {
            self.vsign = -self.vsign;
        }
        if regs.sprctl0() & SPRCTL0_HFLIP == SPRCTL0_HFLIP {
            self.hsign = -self.hsign;
        }

        self.voff = regs.i16(VPOSSTRTL).wrapping_sub(self.screen_v_start);

        regs.set_u16(TILTACUML, 0);

        if self.vsign == 1 {
            let off = regs.u16(VSIZOFFL);
            regs.set_u16(VSIZACUML, off);
        } else {
            regs.set_u16(VSIZACUML, 0);
        }

        if self.quadrant == self.start_quadrant {
            self.vquadoff = self.vsign;
        }
        if self.vsign != self.vquadoff {
            self.voff = self.voff.wrapping_add(self.vsign);
        }

        self.pixel_height = 0;
        self.sprite_data.reset(regs);
        regs.inc_task_step();
    }

    /// Takes the next byte of the decoder into the register `dest`.
    fn store_buffer_byte(&mut self, regs: &mut SuzyRegisters, dest: u16)
        requires
            renderer_wf(old(self)@),
            SUZ_ADDR <= dest <= 0xfcff,
            get_spec(old(self)@.sprite, 8).1 is Some,
        ensures
            renderer_wf(final(self)@),
            final(self)@ == (RendererView { sprite: get_spec(old(self)@.sprite, 8).0, ..old(self)@ }),
            final(regs)@ == (SuzyRegistersView {
                data: old(regs)@.data.update(dest - SUZ_ADDR, byte_of(old(self)@.sprite)),
                ..old(regs)@
            }),
    {
        let d = match self.sprite_data.get_bits(8) {
            Some(v) => v,
            None => 0,
        };
        regs.set_data(dest, d);
    }

    /// Loads the next part of the current sprite control block.
    #[verifier::rlimit(60)]
    fn load_scb(&mut self, regs: &mut SuzyRegisters)
        requires
            renderer_wf(old(self)@),
            scb_ready(old(self)@, old(regs)@.data),
        ensures
            renderer_wf(final(self)@),
            load_scb_post(old(self)@, old(regs)@, final(self)@, final(regs)@),
    {
        let ghost s = self@.sprite;
        proof {
            reveal_with_fuel(stored, 9);
            reveal_with_fuel(taken, 2);
            old(regs).lemma_len();
        }
        if self.scb_step == 0 {
            proof { lemma_ready_split(s, 0, 5); }
            self.store_buffer_byte(regs, SPRCTL0);
            proof { lemma_taken_step(s, 0); lemma_ready_split(s, 1, 5); }
            self.store_buffer_byte(regs, SPRCTL1);
            proof { lemma_taken_step(s, 1); lemma_ready_split(s, 2, 5); }
            self.store_buffer_byte(regs, SPRCOLL);
            proof { lemma_taken_step(s, 2); lemma_ready_split(s, 3, 5); }
            self.store_buffer_byte(regs, SCBNEXTL);
            proof { lemma_taken_step(s, 3); lemma_ready_split(s, 4, 5); }
            self.store_buffer_byte(regs, SCBNEXTH);
            proof { lemma_taken_step(s, 4); }
            if regs.sprctl1() & SPRCTL1_SKIP_SPRITE != 0 {
                self.scb_step = 0;
                self.sprite_data.reset(regs);
                regs.set_task_step(TaskStep::InitializePainting);
                return ;
            }
            proof { lemma_ready_split(s, 5, 8); }
            self.store_buffer_byte(regs, SPRDLINEL);
            proof { lemma_taken_step(s, 5); lemma_ready_split(s, 6, 8); }
            self.store_buffer_byte(regs, SPRDLINEH);
            proof { lemma_taken_step(s, 6); lemma_ready_split(s, 7, 8); }
            self.store_buffer_byte(regs, HPOSSTRTL);
            proof { lemma_taken_step(s, 7); }
            self.fetch_pending = true;
            self.scb_pen_idx = 0;
            self.scb_step = 1;
        } else if self.scb_step == 1 {
            self.load_scb_sizes(regs);
        } else if self.scb_step == 2 {
            let ghost c = reg_at(old(regs)@.data, SPRCTL1);
            let ghost need: nat = if c & SPRCTL1_RELOAD_HVST == SPRCTL1_RELOAD_HVST { 3 } else { 1 };
            proof { lemma_ready_split(s, 0, need); }
            self.store_buffer_byte(regs, STRETCHH);
            proof { lemma_taken_step(s, 0); }
            if regs.sprctl1() & SPRCTL1_RELOAD_HVST == SPRCTL1_RELOAD_HVST {
                proof { lemma_ready_split(s, 1, need); }
                self.store_buffer_byte(regs, TILTL);
                proof { lemma_taken_step(s, 1); lemma_ready_split(s, 2, need); }
                self.store_buffer_byte(regs, TILTH);
                proof { lemma_taken_step(s, 2); }
            }
            self.scb_step = 3;
        } else if self.scb_step == 3 {
            self.load_scb_palette(regs);
        }
    }

    /// The second part of loading: vertical position, then sizes and
    /// stretch as SPRCTL1 asks.
    #[verifier::rlimit(60)]
    fn load_scb_sizes(&mut self, regs: &mut SuzyRegisters)
        requires
            renderer_wf(old(self)@),
            old(self)@.scb_step == 1,
            scb_ready(old(self)@, old(regs)@.data),
        ensures
            renderer_wf(final(self)@),
            load_scb_post(old(self)@, old(regs)@, final(self)@, final(regs)@),
    {
        let ghost s = self@.sprite;
        let ghost c = reg_at(old(regs)@.data, SPRCTL1);
        let ghost need: nat = if c & SPRCTL1_RELOAD_HVST == 0 { 3 } else if c & SPRCTL1_RELOAD_HVS == SPRCTL1_RELOAD_HVS { 8 } else { 7 };
        proof {
            reveal_with_fuel(stored, 9);
            reveal_with_fuel(taken, 2);
            old(regs).lemma_len();
            lemma_ready_split(s, 0, need);
        }
        self.store_buffer_byte(regs, HPOSSTRTH);
        proof { lemma_taken_step(s, 0); lemma_ready_split(s, 1, need); }
        self.store_buffer_byte(regs, VPOSSTRTL);
        proof { lemma_taken_step(s, 1); lemma_ready_split(s, 2, need); }
        self.store_buffer_byte(regs, VPOSSTRTH);
        proof { lemma_taken_step(s, 2); }
        if regs.sprctl1() & SPRCTL1_RELOAD_HVST == 0 {
            self.scb_step = 3;
            return ;
        }
        proof { lemma_ready_split(s, 3, need); }
        self.store_buffer_byte(regs, SPRHSIZL);
        proof { lemma_taken_step(s, 3); lemma_ready_split(s, 4, need); }
        self.store_buffer_byte(regs, SPRHSIZH);
        proof { lemma_taken_step(s, 4); lemma_ready_split(s, 5, need); }
        self.store_buffer_byte(regs, SPRVSIZL);
        proof { lemma_taken_step(s, 5); lemma_ready_split(s, 6, need); }
        self.store_buffer_byte(regs, SPRVSIZH);
        proof { lemma_taken_step(s, 6); }
        if regs.sprctl1() & SPRCTL1_RELOAD_HVS == SPRCTL1_RELOAD_HVS {
            proof { lemma_ready_split(s, 7, need); }
            self.store_buffer_byte(regs, STRETCHL);
            proof { lemma_taken_step(s, 7); }
            self.fetch_pending = true;
            self.scb_step = 2;
        } else {
            self.scb_step = 3;
        }
    }

    /// The last part of loading: the palette, unless it is reused, taken
    /// while the decoder holds bytes.
    fn load_scb_palette(&mut self, regs: &mut SuzyRegisters)
        requires
            renderer_wf(old(self)@),
            old(self)@.scb_step == 3,
        ensures
            renderer_wf(final(self)@),
            load_scb_post(old(self)@, old(regs)@, final(self)@, final(regs)@),
    {
        let ghost s = self@.sprite;
        let ghost idx0 = self@.scb_pen_idx;
        let ghost m: nat = ((16 - idx0) / 2) as nat;
        if regs.sprctl1() & SPRCTL1_REUSE_PALETTE != SPRCTL1_REUSE_PALETTE {
            let ghost mut j: nat = 0;
            proof {
                assert(pens_filled(self@.pens, idx0 as int, s, 0) =~= self@.pens);
            }
            while self.scb_pen_idx < 16
                invariant
                    renderer_wf(self@),
                    idx0 == old(self)@.scb_pen_idx,
                    s == old(self)@.sprite,
                    old(self)@.scb_step == 3,
                    reg_at(old(regs)@.data, SPRCTL1) & SPRCTL1_REUSE_PALETTE != SPRCTL1_REUSE_PALETTE,
                    idx0 <= 16,
                    idx0 % 2 == 0,
                    m == (16 - idx0) / 2,
                    j <= m,
                    self@.scb_pen_idx == idx0 + 2 * j,
                    self@.sprite == taken(s, j),
                    self@.pens == pens_filled(old(self)@.pens, idx0 as int, s, j),
                    pen_bytes(s, m) == j + pen_bytes(taken(s, j), (m - j) as nat),
                    self@ == (RendererView {
                        sprite: self@.sprite,
                        pens: self@.pens,
                        scb_pen_idx: self@.scb_pen_idx,
                        ..old(self)@
                    }),
                    regs@ == old(regs)@,
                    old(self)@.pens.len() == 16,
                decreases 16 - self.scb_pen_idx,
            {
                if self.sprite_data.shift_reg_count() < 8 {
                    self.fetch_pending = true;
                    proof {
                        assert(pen_bytes(taken(s, j), (m - j) as nat) == 0);
                    }
                    return ;
                }
                proof {
                    lemma_taken_step(s, j);
                }
                let d = match self.sprite_data.get_bits(8) {
                    Some(v) => v,
                    None => 0,
                };
                let i = self.scb_pen_idx;
                self.pens[i] = d >> 4u8;
                self.pens[i + 1] = d & 0xf;
                self.scb_pen_idx = self.scb_pen_idx + 2;
                proof {
                    j = j + 1;
                    assert(self@.pens =~= pens_filled(old(self)@.pens, idx0 as int, s, j));
                }
            }
            proof {
                assert(j == m);
                assert(pen_bytes(taken(s, j), 0) == 0);
            }
        }
        regs.inc_task_step();
        self.scb_step = 0;
        self.sprite_data.reset(regs);
    }

    /// Starts the lines of a quadrant.
    #[verifier::rlimit(40)]
    fn render_lines_start(&mut self, regs: &mut SuzyRegisters)
        requires
            renderer_wf(old(self)@),
        ensures
            renderer_wf(final(self)@),
            lines_start_post(old(self)@, old(regs)@, final(self)@, final(regs)@),
    {
        proof {
            old(regs).lemma_len();
        }
        match self.sprite_data.initialize(regs, 0) {
            Result::Err(_e) => {
                self.fetch_pending = true;
                return ;
            },
            Result::Ok(v) => {
                regs.set_u16(SPRDOFFL, v);
            },
        }
        let acc = regs.u16(VSIZACUML).wrapping_add(regs.u16(SPRVSIZL));
        regs.set_u16(VSIZACUML, acc);

        self.orig_pixel_height = regs.data(VSIZACUMH);
        self.pixel_height = 0;

        regs.set_data(VSIZACUMH, 0);

        if 1 == regs.u16(SPRDOFFL) {
            let line = regs.u16(SPRDLINEL).wrapping_add(regs.u16(SPRDOFFL));
            regs.set_u16(SPRDLINEL, line);
            regs.set_task_step(TaskStep::NextQuadrant);
            return ;
        }
        if 0 == regs.u16(SPRDOFFL) {
            regs.set_task_step(TaskStep::SpriteEnd);
            return ;
        }
        self.sprite_data.reset(regs);
        regs.inc_task_step();
    }

    /// Ends a line.
    fn render_lines_end(&mut self, regs: &mut SuzyRegisters)
        requires
            renderer_wf(old(self)@),
        ensures
            renderer_wf(final(self)@),
            lines_end_post(old(self)@, old(regs)@, final(self)@, final(regs)@),
    {
        proof {
            old(regs).lemma_len();
        }
        let line = regs.u16(SPRDLINEL).wrapping_add(regs.u16(SPRDOFFL));
        regs.set_u16(SPRDLINEL, line);

        if regs.sprsys_r_is_flag_set(SprSysR::v_stretching()) {
            let size = regs.i16(SPRVSIZL);
            let stretch = regs.i16(STRETCHL);
            regs.set_i16(SPRVSIZL, size.wrapping_add(stretch.wrapping_mul(self.pixel_height as i16)));
        }
        self.sprite_data.reset(regs);
        regs.set_task_step(TaskStep::RenderLinesStart);
    }

    /// Starts a pixel row.
    #[verifier::rlimit(40)]
    fn render_pixel_height_start(&mut self, regs: &mut SuzyRegisters)
        requires
            renderer_wf(old(self)@),
        ensures
            renderer_wf(final(self)@),
            height_start_post(old(self)@, old(regs)@, final(self)@, final(regs)@),
    {
        proof {
            old(regs).lemma_len();
        }
        if (self.vsign > 0 && self.voff >= SCREEN_LINES) || (self.vsign < 0 && self.voff < 0)
            || self.orig_pixel_height == 0 {
            regs.set_task_step(TaskStep::RenderLinesEnd);
            return ;
        }
        if let Result::Err(_e) = self.sprite_data.initialize(regs, self.voff) {
            self.fetch_pending = true;
            return ;
        }
        let tilt = regs.i16(TILTACUML) >> 8i16;
        let hposstart = regs.i16(HPOSSTRTL).wrapping_add(tilt);
        regs.set_u16(HPOSSTRTL, hposstart as u16);

        regs.set_data(TILTACUMH, 0);

        self.hoff = regs.i16(HPOSSTRTL).wrapping_sub(self.screen_h_start);

        regs.set_u16(TMPADRL, 0);
        if self.hsign > 0 {
            let off = regs.u16(HSIZOFFL);
            regs.set_u16(TMPADRL, off);
        }
        if self.quadrant == self.start_quadrant {
            self.hquadoff = self.hsign;
        }
        if self.hsign != self.hquadoff {
            self.hoff = self.hoff.wrapping_add(self.hsign);
        }
        regs.inc_task_step();
    }

    /// Ends a pixel row.
    fn render_pixel_height_end(&mut self, regs: &mut SuzyRegisters)
        requires
            renderer_wf(old(self)@),
        ensures
            renderer_wf(final(self)@),
            height_end_post(old(self)@, old(regs)@, final(self)@, final(regs)@),
    {
        proof {
            old(regs).lemma_len();
        }
        self.voff = self.voff.wrapping_add(self.vsign);

        let sprctl1 = regs.sprctl1();
        if sprctl1 & SPRCTL1_RELOAD_HVS == SPRCTL1_RELOAD_HVS {
            let size = regs.u16(SPRHSIZL).wrapping_add(regs.u16(STRETCHL));
            regs.set_u16(SPRHSIZL, size);
        }
        if sprctl1 & SPRCTL1_RELOAD_HVST == SPRCTL1_RELOAD_HVST {
            let acc = regs.u16(TILTACUML).wrapping_add(regs.u16(TILTL));
            regs.set_u16(TILTACUML, acc);
        }
        self.pixel_height = self.pixel_height.wrapping_add(1);

        if self.pixel_height == self.orig_pixel_height {
            regs.inc_task_step();
        } else {
            self.sprite_data.reset(regs);
            self.fetch_pending = true;
            regs.set_task_step(TaskStep::RenderPixelHeightStart);
        }
    }

    /// Ends a sprite: records its collision and whether it reached the
    /// screen in its collision depository, then goes on to the next sprite
    /// unless SPRSYS asks to stop. Gives the number of RAM writes made for
    /// the collision.
    pub fn sprite_end(&mut self, regs: &mut SuzyRegisters, dma_ram: &mut Ram) -> (r: u16)
        requires
            ram_wf(old(dma_ram)@),
        ensures
            ram_wf(final(dma_ram)@),
            final(dma_ram)@ == (RamView { data: sprite_end_ram(old(self)@, old(regs)@, old(dma_ram)@.data), ..old(dma_ram)@ }),
            r == (if collides(old(regs)@) && records_collision(old(regs)@) { 1u16 } else { 0u16 }),
            final(self)@ == old(self)@,
            final(regs)@ == (SuzyRegistersView {
                task_step: if old(regs)@.sprsys_w & 0x02 == 0x02 {
                    next_task_step(old(regs)@.task_step)
                } else {
                    TaskStep::InitializePainting
                },
                ..old(regs)@
            }),
    {
        let mut mem_count: u16 = 0;
        if regs.sprcoll() & SPRCOLL_DONT_COLLIDE == 0 && !regs.sprsys_w_is_flag_set(SprSysW::no_collide()) {
            let t = regs.sprctl0() & SPRCTL0_SPR_TYPE;
            if t == 2 || t == 3 || t == 4 || t == 6 || t == 7 {
                let coladr = regs.scb_addr().wrapping_add(regs.u16(COLLOFFL));
                dma_ram.set(coladr, self.collision);
                mem_count = mem_count + 1;
            }
        }
        if regs.data(SPRGO) & SPRGO_EVERON != 0 {
            let coladr = regs.scb_addr().wrapping_add(regs.u16(COLLOFFL));
            let mut coldat = dma_ram.get(coladr);
            if !self.ever_on_screen {
                coldat = coldat | 0x80;
            } else {
                coldat = coldat & 0x7f;
            }
            dma_ram.set(coladr, coldat);
        }
        if regs.sprsys_w_is_flag_set(SprSysW::sprite_to_stop()) {
            regs.inc_task_step();
        } else {
            regs.set_task_step(TaskStep::InitializePainting);
        }
        mem_count
    }

    /// Writes `pixel` into the screen at the current position; two RAM
    /// accesses.
    fn write_pixel(&mut self, regs: &SuzyRegisters, dma_ram: &mut Ram, pixel: u32) -> (r: u16)
        requires
            ram_wf(old(dma_ram)@),
        ensures
            ram_wf(final(dma_ram)@),
            final(dma_ram)@ == (RamView {
                data: wrote(
                    old(dma_ram)@.data,
                    nibble_addr(word_at(regs@.data, VIDADRL), old(self)@.hoff) as int,
                    old(self)@.hoff & 1 != 0,
                    pixel as u8,
                ),
                ..old(dma_ram)@
            }),
            final(self)@ == old(self)@,
            r == 2,
    {
        let scr_addr: u16 = regs.u16(VIDADRL).wrapping_add(self.hoff as u16 / 2);
        let mut dest: u8 = dma_ram.get(scr_addr);
        if self.hoff & 0x01 == 0 {
            dest = dest & 0x0f;
            dest = dest | ((pixel as u8) << 4u8);
        } else {
            dest = dest & 0xf0;
            dest = dest | pixel as u8;
        }
        dma_ram.set(scr_addr, dest);
        2
    }

    /// Reads the screen's pen at the current position; one RAM access.
    fn read_pixel(&mut self, regs: &SuzyRegisters, dma_ram: &mut Ram) -> (r: (u8, u16))
        requires
            ram_wf(old(dma_ram)@),
        ensures
            final(dma_ram)@ == old(dma_ram)@,
            final(self)@ == old(self)@,
            r == (
                get_nibble(
                    old(dma_ram)@.data[nibble_addr(word_at(regs@.data, VIDADRL), old(self)@.hoff) as int],
                    old(self)@.hoff & 1 != 0,
                ),
                1u16,
            ),
    {
        let scr_addr: u16 = regs.u16(VIDADRL).wrapping_add(self.hoff as u16 / 2);
        let mut data: u8 = dma_ram.get(scr_addr);
        if self.hoff & 0x01 == 0 {
            data = data >> 4u8;
        } else {
            data = data & 0x0f;
        }
        (data, 1)
    }

    /// Writes the collision number `pixel` at the current position; two RAM
    /// accesses.
    fn write_collision(&mut self, regs: &SuzyRegisters, dma_ram: &mut Ram, pixel: u8) -> (r: u16)
        requires
            ram_wf(old(dma_ram)@),
        ensures
            ram_wf(final(dma_ram)@),
            final(dma_ram)@ == (RamView {
                data: wrote(
                    old(dma_ram)@.data,
                    nibble_addr(word_at(regs@.data, COLLADRL), old(self)@.hoff) as int,
                    old(self)@.hoff & 1 != 0,
                    pixel,
                ),
                ..old(dma_ram)@
            }),
            final(self)@ == old(self)@,
            r == 2,
    {
        let col_addr: u16 = regs.u16(COLLADRL).wrapping_add(self.hoff as u16 / 2);
        let mut dest: u8 = dma_ram.get(col_addr);
        if self.hoff & 0x01 == 0 {
            dest = dest & 0x0f;
            dest = dest | (pixel << 4u8);
        } else {
            dest = dest & 0xf0;
            dest = dest | pixel;
        }
        dma_ram.set(col_addr, dest);
        2
    }

    /// Reads the collision number at the current position; one RAM access.
    fn read_collision(&mut self, regs: &SuzyRegisters, dma_ram: &mut Ram) -> (r: (u8, u16))
        requires
            ram_wf(old(dma_ram)@),
        ensures
            final(dma_ram)@ == old(dma_ram)@,
            final(self)@ == old(self)@,
            r == (
                get_nibble(
                    old(dma_ram)@.data[nibble_addr(word_at(regs@.data, COLLADRL), old(self)@.hoff) as int],
                    old(self)@.hoff & 1 != 0,
                ),
                1u16,
            ),
    {
        let col_addr: u16 = regs.u16(COLLADRL).wrapping_add(self.hoff as u16 / 2);
        let mut data: u8 = dma_ram.get(col_addr);
        if self.hoff & 0x01 == 0 {
            data = data >> 4u8;
        } else {
            data = data & 0x0f;
        }
        (data, 1)
    }

    /// Reads and writes the collision buffer at the current position,
    /// keeping the highest number met.
    fn collide_pixel(&mut self, regs: &SuzyRegisters, dma_ram: &mut Ram) -> (r: u16)
        requires
            ram_wf(old(dma_ram)@),
        ensures
            ram_wf(final(dma_ram)@),
            ({
                let (m2, c2) = collided(
                    old(dma_ram)@.data,
                    nibble_addr(word_at(regs@.data, COLLADRL), old(self)@.hoff) as int,
                    old(self)@.hoff & 1 != 0,
                    reg_at(regs@.data, SPRCOLL) & SPRCOLL_NUMBER,
                    old(self)@.collision,
                );
                &&& final(dma_ram)@ == (RamView { data: m2, ..old(dma_ram)@ })
                &&& final(self)@ == (RendererView { collision: c2, ..old(self)@ })
            }),
            r == 3,
    {
        let (c, m) = self.read_collision(regs, dma_ram);
        if c > self.collision {
            self.collision = c;
        }
        let sprcoll = regs.sprcoll();
        let w = self.write_collision(regs, dma_ram, sprcoll & SPRCOLL_NUMBER);
        m + w
    }

    /// Paints the current pixel at the current position as the sprite type
    /// asks, and gives the number of RAM accesses made.
    #[verifier::rlimit(60)]
    pub fn process_pixel(&mut self, regs: &mut SuzyRegisters, dma_ram: &mut Ram) -> (r: u16)
        requires
            ram_wf(old(dma_ram)@),
        ensures
            ram_wf(final(dma_ram)@),
            ({
                let (m, c, a) = pixel_post(old(self)@, old(regs)@, old(dma_ram)@.data);
                &&& final(dma_ram)@ == (RamView { data: m, ..old(dma_ram)@ })
                &&& final(self)@ == (RendererView { collision: c, ..old(self)@ })
                &&& r == a
            }),
            final(regs)@ == old(regs)@,
            r <= 6,
    {
        let mut mem_accesses: u16 = 0;
        let sprcoll = regs.sprcoll();
        let coll = sprcoll & SPRCOLL_DONT_COLLIDE == 0 && !regs.sprsys_w_is_flag_set(SprSysW::no_collide());
        let pixel = self.pixel;
        let t = regs.sprctl0() & SPRCTL0_SPR_TYPE;
        if t == 0 {
            mem_accesses = mem_accesses + self.write_pixel(regs, dma_ram, pixel);
            if coll && pixel != 0x0e {
                mem_accesses = mem_accesses + self.write_collision(regs, dma_ram, sprcoll & SPRCOLL_NUMBER);
            }
        } else if t == 1 {
            mem_accesses = mem_accesses + self.write_pixel(regs, dma_ram, pixel);
        } else if t == 2 {
            if pixel != 0x00 && pixel != 0x0e && pixel != 0x0f {
                mem_accesses = mem_accesses + self.write_pixel(regs, dma_ram, pixel);
            }
            if pixel != 0x00 && pixel != 0x0e && coll {
                mem_accesses = mem_accesses + self.collide_pixel(regs, dma_ram);
            }
        } else if t == 3 {
            if pixel != 0x00 && pixel != 0x0f {
                mem_accesses = mem_accesses + self.write_pixel(regs, dma_ram, pixel);
            }
            if pixel != 0x00 && coll {
                mem_accesses = mem_accesses + self.collide_pixel(regs, dma_ram);
            }
        } else if t == 4 {
            if pixel != 0x00 {
                mem_accesses = mem_accesses + self.write_pixel(regs, dma_ram, pixel);
                if coll {
                    mem_accesses = mem_accesses + self.collide_pixel(regs, dma_ram);
                }
            }
        } else if t == 5 {
            if pixel != 0x00 {
                mem_accesses = mem_accesses + self.write_pixel(regs, dma_ram, pixel);
            }
        } else if t == 6 {
            if pixel != 0x00 {
                let (p, m) = self.read_pixel(regs, dma_ram);
                mem_accesses = mem_accesses + m;
                mem_accesses = mem_accesses + self.write_pixel(regs, dma_ram, p as u32 ^ pixel);
            }
            if pixel != 0x00 && pixel != 0x0e && coll {
                mem_accesses = mem_accesses + self.collide_pixel(regs, dma_ram);
            }
        } else if t == 7 {
            if pixel != 0x00 {
                mem_accesses = mem_accesses + self.write_pixel(regs, dma_ram, pixel);
            }
            if pixel != 0x00 && pixel != 0x0e && coll {
                mem_accesses = mem_accesses + self.collide_pixel(regs, dma_ram);
            }
        }
        mem_accesses
    }

    /// Paints the current pixel `width` times along the row; gives the RAM
    /// accesses made.
    fn render_run(&mut self, regs: &mut SuzyRegisters, dma_ram: &mut Ram, width: u8) -> (r: u16)
        requires
            ram_wf(old(dma_ram)@),
            renderer_wf(old(self)@),
        ensures
            ram_wf(final(dma_ram)@),
            renderer_wf(final(self)@),
            final(regs)@ == old(regs)@,
            ({
                let (r2, m2, a) = run(old(self)@, old(regs)@, old(dma_ram)@.data, width as nat);
                &&& final(self)@ == r2
                &&& final(dma_ram)@ == (RamView { data: m2, ..old(dma_ram)@ })
                &&& r == a
            }),
            r <= 6 * width,
    {
        let mut count: u16 = 0;
        let mut i: u8 = 0;
        while i < width
            invariant
                i <= width,
                ram_wf(dma_ram@),
                renderer_wf(self@),
                regs@ == old(regs)@,
                run(old(self)@, old(regs)@, old(dma_ram)@.data, i as nat) == (self@, dma_ram@.data, count as nat),
                dma_ram@ == (RamView { data: dma_ram@.data, ..old(dma_ram)@ }),
                count <= 6 * i,
            decreases width - i,
        {
            if self.hoff >= 0 && self.hoff < SCREEN_PIXELS {
                self.ever_on_screen = true;
                let a = self.process_pixel(regs, dma_ram);
                count = count + a;
            }
            self.hoff = self.hoff.wrapping_add(self.hsign);
            i = i + 1;
        }
        count
    }

    /// Draws up to four pixels of the current line.
    #[verifier::rlimit(80)]
    fn render_pixels_in_line(&mut self, regs: &mut SuzyRegisters, dma_ram: &mut Ram)
        requires
            renderer_wf(old(self)@),
            ram_wf(old(dma_ram)@),
        ensures
            renderer_wf(final(self)@),
            ram_wf(final(dma_ram)@),
            final(dma_ram)@ == (RamView { data: final(dma_ram)@.data, ..old(dma_ram)@ }),
            pixels_post(old(self)@, old(regs)@, old(dma_ram)@.data, final(self)@, final(regs)@, final(dma_ram)@.data),
    {
        proof {
            old(regs).lemma_len();
        }
        if self.voff < 0 || self.voff >= SCREEN_LINES {
            regs.inc_task_step();
            return ;
        }
        let ghost st0 = LineState {
            r: old(self)@,
            d: old(regs)@.data,
            m: old(dma_ram)@.data,
            accesses: 0,
            starved: false,
            ended: false,
        };
        let mut mem_access_count: u16 = 0;
        let mut k: u8 = 0;
        while k < 4
            invariant
                k <= 4,
                renderer_wf(self@),
                ram_wf(dma_ram@),
                dma_ram@ == (RamView { data: dma_ram@.data, ..old(dma_ram)@ }),
                regs@ == (SuzyRegistersView { data: regs@.data, ..old(regs)@ }),
                regs@.data.len() == 0x100,
                !(old(self)@.voff < 0 || old(self)@.voff >= SCREEN_LINES),
                st0 == (LineState {
                    r: old(self)@,
                    d: old(regs)@.data,
                    m: old(dma_ram)@.data,
                    accesses: 0,
                    starved: false,
                    ended: false,
                }),
                line_steps(st0, old(regs)@, k as nat) == (LineState {
                    r: self@,
                    d: regs@.data,
                    m: dma_ram@.data,
                    accesses: mem_access_count as nat,
                    starved: false,
                    ended: false,
                }),
                mem_access_count <= 6 * 255 * k,
            decreases 4 - k,
        {
            match self.sprite_data.line_get_pixel(regs, &self.pens) {
                Result::Err(_e) => {
                    self.fetch_pending = true;
                    regs.set_task_ticks_delay(mem_access_count * dma_ticks());
                    proof {
                        lemma_line_steps_stop(st0, old(regs)@, (k + 1) as nat, 4);
                    }
                    return ;
                },
                Result::Ok(v) => self.pixel = v as u32,
            }
            if self.pixel == LINE_END {
                regs.inc_task_step();
                proof {
                    lemma_line_steps_stop(st0, old(regs)@, (k + 1) as nat, 4);
                }
                return ;
            }
            let tmp = regs.u16(TMPADRL).wrapping_add(regs.u16(SPRHSIZL));
            regs.set_u16(TMPADRL, tmp);
            self.pixel_width = regs.data(TMPADRH);
            regs.set_data(TMPADRH, 0);
            let w = self.pixel_width;
            let a = self.render_run(regs, dma_ram, w);
            mem_access_count = mem_access_count + a;
            k = k + 1;
        }
        regs.set_task_ticks_delay(mem_access_count * dma_ticks());
    }

    /// Runs one step of the sprite task; true once the task is over.
    pub fn render_sprites(&mut self, regs: &mut SuzyRegisters, dma_ram: &mut Ram) -> (r: bool)
        requires
            renderer_wf(old(self)@),
            ram_wf(old(dma_ram)@),
            step_ready(old(self)@, old(regs)@),
        ensures
            renderer_wf(final(self)@),
            ram_wf(final(dma_ram)@),
            final(dma_ram)@ == (RamView { data: final(dma_ram)@.data, ..old(dma_ram)@ }),
            render_post(old(self)@, old(regs)@, old(dma_ram)@.data, final(self)@, final(regs)@, final(dma_ram)@.data),
            r == (final(regs)@.task == SuzyTask::Idle),
            final(regs)@.sign_ab == old(regs)@.sign_ab,
            final(regs)@.sign_cd == old(regs)@.sign_cd,
            final(regs)@.tmp_sign_cd == old(regs)@.tmp_sign_cd,
            final(regs)@.ir == old(regs)@.ir,
            final(regs)@.addr_r == old(regs)@.addr_r,
    {
        proof {
            reveal(render_post);
        }
        match regs.task_step() {
            TaskStep::Idle => (),
            TaskStep::InitializePainting => self.initialize_for_painting(regs),
            TaskStep::LoadSCB => self.load_scb(regs),
            TaskStep::InitializeQuadrants => self.initialize_quadrants_rendering(regs),
            TaskStep::InitializeQuadrant => self.initialize_quadrant_render(regs),
            TaskStep::RenderLinesStart => self.render_lines_start(regs),
            TaskStep::RenderPixelHeightStart => self.render_pixel_height_start(regs),
            TaskStep::RenderPixelsInLine => self.render_pixels_in_line(regs, dma_ram),
            TaskStep::RenderPixelheightEnd => self.render_pixel_height_end(regs),
            TaskStep::RenderLinesEnd => self.render_lines_end(regs),
            TaskStep::NextQuadrant => self.end_quadrant_render(regs),
            TaskStep::SpriteEnd => regs.set_task(SuzyTask::EndSprite),
            TaskStep::MaxSteps => self.stop_sprite_engine(regs),
        }
        regs.task() == SuzyTask::Idle
    }

    /// Shifts the fetched bytes `data` into the decoder and marks the fetch
    /// done.
    pub fn push_sprite_data(&mut self, data: &[u8])
        requires
            renderer_wf(old(self)@),
            old(self)@.sprite.shift_reg_count + 8 * data@.len() <= 64,
        ensures
            renderer_wf(final(self)@),
            final(self)@ == (RendererView {
                sprite: pushed_bytes(old(self)@.sprite, data@),
                fetch_pending: false,
                ..old(self)@
            }),
    {
        let mut i: usize = 0;
        while i < data.len()
            invariant
                0 <= i <= data@.len(),
                old(self)@.sprite.shift_reg_count + 8 * data@.len() <= 64,
                renderer_wf(self@),
                self@ == (RendererView { sprite: pushed_bytes(old(self)@.sprite, data@.subrange(0, i as int)), ..old(self)@ }),
            decreases data@.len() - i,
        {
            proof {
                lemma_pushed_count(old(self)@.sprite, data@.subrange(0, i as int));
                let next = data@.subrange(0, i + 1);
                assert(next.drop_last() =~= data@.subrange(0, i as int));
                assert(next.last() == data@[i as int]);
            }
            self.sprite_data.push_data(data[i]);
            i = i + 1;
        }
        proof {
            assert(data@.subrange(0, data@.len() as int) =~= data@);
        }
        self.fetch_pending = false;
    }

    /// The address of the next sprite byte to fetch.
    pub fn scb_curr_adr(&self) -> (r: u16)
        ensures
            r == self@.sprite.addr,
    {
        self.sprite_data.addr()
    }

    /// Moves the fetch address on by one byte, wrapping.
    pub fn inc_scb_curr_adr(&mut self)
        ensures
            final(self)@ == (RendererView {
                sprite: SpriteView { addr: old(self)@.sprite.addr.wrapping_add(1), ..old(self)@.sprite },
                ..old(self)@
            }),
    {
        let a = self.sprite_data.addr().wrapping_add(1);
        self.sprite_data.set_addr(a);
    }

    /// Whether the renderer waits for sprite bytes to be fetched.
    pub fn fetch_pending(&self) -> (r: bool)
        ensures
            r == self@.fetch_pending,
    {
        self.fetch_pending
    }
}

/// The byte the decoder gives next (nothing read is taken as 0).
pub open spec fn byte_of(s: SpriteView) -> u8 {
    match get_spec(s, 8).1 {
        Some(b) => b,
        None => 0,
    }
}

/// The decoder after `n` bytes are taken.
pub open spec fn taken(s: SpriteView, n: nat) -> SpriteView
    decreases n,
{
    if n == 0 {
        s
    } else {
        taken(get_spec(s, 8).0, (n - 1) as nat)
    }
}

/// The `k`-th byte taken, counting from 0.
pub open spec fn byte_taken(s: SpriteView, k: nat) -> u8 {
    byte_of(taken(s, k))
}

/// Whether the decoder holds `n` more bytes.
pub open spec fn bytes_ready(s: SpriteView, n: nat) -> bool
    decreases n,
{
    n == 0 || (get_spec(s, 8).1 is Some && bytes_ready(get_spec(s, 8).0, (n - 1) as nat))
}

/// How many palette bytes the decoder gives for `n` free pairs of pens:
/// bytes are taken while it holds at least one.
pub open spec fn pen_bytes(s: SpriteView, n: nat) -> nat
    decreases n,
{
    if n == 0 || s.shift_reg_count < 8 {
        0
    } else {
        1 + pen_bytes(get_spec(s, 8).0, (n - 1) as nat)
    }
}

/// The palette `p` with the pens from `k` bytes of `s` stored from `idx`
/// on, two pens to a byte, the high nibble first.
pub open spec fn pens_filled(p: Seq<u8>, idx: int, s: SpriteView, k: nat) -> Seq<u8> {
    Seq::new(
        p.len(),
        |i: int|
            if idx <= i < idx + 2 * k {
                let b = byte_taken(s, ((i - idx) / 2) as nat);
                if (i - idx) % 2 == 0 {
                    b >> 4u8
                } else {
                    b & 0x0f
                }
            } else {
                p[i]
            },
    )
}

/// Whether the decoder holds the control block bytes that the current
/// step of loading reads: the fixed part, then the sizes, stretch and tilt
/// that SPRCTL1 asks for.
pub open spec fn scb_ready(r: RendererView, d: Seq<u8>) -> bool {
    let s = r.sprite;
    let ctl1 = reg_at(d, SPRCTL1);
    if r.scb_step == 0 {
        bytes_ready(s, 5) && (byte_taken(s, 1) & SPRCTL1_SKIP_SPRITE != 0 || bytes_ready(s, 8))
    } else if r.scb_step == 1 {
        bytes_ready(
            s,
            if ctl1 & SPRCTL1_RELOAD_HVST == 0 {
                3
            } else if ctl1 & SPRCTL1_RELOAD_HVS == SPRCTL1_RELOAD_HVS {
                8
            } else {
                7
            },
        )
    } else if r.scb_step == 2 {
        bytes_ready(s, if ctl1 & SPRCTL1_RELOAD_HVST == SPRCTL1_RELOAD_HVST { 3 } else { 1 })
    } else {
        true
    }
}

/// `d` with the bytes of `s` from the `k`-th on stored in the registers
/// `dests`, in order.
pub open spec fn stored(d: Seq<u8>, s: SpriteView, k: nat, dests: Seq<u16>) -> Seq<u8>
    decreases dests.len(),
{
    if dests.len() == 0 {
        d
    } else {
        stored(d, s, k, dests.drop_last()).update(
            dests.last() - SUZ_ADDR,
            byte_taken(s, (k + dests.len() - 1) as nat),
        )
    }
}

/// One step of loading a sprite control block: the fixed part (control
/// bytes, next block, data address, horizontal position), then the
/// vertical position and the sizes, stretch and tilt that SPRCTL1 asks
/// for, then the palette unless it is reused. A skipped sprite goes back to
/// the next block; a step short of bytes asks for them.
pub open spec fn load_scb_post(
    o: RendererView,
    og: SuzyRegistersView,
    n: RendererView,
    ng: SuzyRegistersView,
) -> bool {
    let s = o.sprite;
    let d0 = og.data;
    let ctl1 = reg_at(d0, SPRCTL1);
    if o.scb_step == 0 {
        let d5 = stored(d0, s, 0, seq![SPRCTL0, SPRCTL1, SPRCOLL, SCBNEXTL, SCBNEXTH]);
        if byte_taken(s, 1) & SPRCTL1_SKIP_SPRITE != 0 {
            &&& ng == (SuzyRegistersView { data: d5, task_step: TaskStep::InitializePainting, ..og })
            &&& n == (RendererView { scb_step: 0, sprite: cleared_sprite(word_at(d5, SPRDLINEL)), ..o })
        } else {
            &&& ng == (SuzyRegistersView {
                data: stored(d5, s, 5, seq![SPRDLINEL, SPRDLINEH, HPOSSTRTL]),
                ..og
            })
            &&& n == (RendererView {
                sprite: taken(s, 8),
                fetch_pending: true,
                scb_pen_idx: 0,
                scb_step: 1,
                ..o
            })
        }
    } else if o.scb_step == 1 {
        let d3 = stored(d0, s, 0, seq![HPOSSTRTH, VPOSSTRTL, VPOSSTRTH]);
        if ctl1 & SPRCTL1_RELOAD_HVST == 0 {
            &&& ng == (SuzyRegistersView { data: d3, ..og })
            &&& n == (RendererView { sprite: taken(s, 3), scb_step: 3, ..o })
        } else {
            let d7 = stored(d3, s, 3, seq![SPRHSIZL, SPRHSIZH, SPRVSIZL, SPRVSIZH]);
            if ctl1 & SPRCTL1_RELOAD_HVS == SPRCTL1_RELOAD_HVS {
                &&& ng == (SuzyRegistersView { data: stored(d7, s, 7, seq![STRETCHL]), ..og })
                &&& n == (RendererView { sprite: taken(s, 8), fetch_pending: true, scb_step: 2, ..o })
            } else {
                &&& ng == (SuzyRegistersView { data: d7, ..og })
                &&& n == (RendererView { sprite: taken(s, 7), scb_step: 3, ..o })
            }
        }
    } else if o.scb_step == 2 {
        let d1 = stored(d0, s, 0, seq![STRETCHH]);
        if ctl1 & SPRCTL1_RELOAD_HVST == SPRCTL1_RELOAD_HVST {
            &&& ng == (SuzyRegistersView { data: stored(d1, s, 1, seq![TILTL, TILTH]), ..og })
            &&& n == (RendererView { sprite: taken(s, 3), scb_step: 3, ..o })
        } else {
            &&& ng == (SuzyRegistersView { data: d1, ..og })
            &&& n == (RendererView { sprite: taken(s, 1), scb_step: 3, ..o })
        }
    } else if o.scb_step == 3 {
        let done_regs = SuzyRegistersView { task_step: next_task_step(og.task_step), ..og };
        let line = cleared_sprite(word_at(d0, SPRDLINEL));
        if ctl1 & SPRCTL1_REUSE_PALETTE == SPRCTL1_REUSE_PALETTE {
            &&& ng == done_regs
            &&& n == (RendererView { scb_step: 0, sprite: line, ..o })
        } else {
            let k = pen_bytes(s, ((16 - o.scb_pen_idx) / 2) as nat);
            let pens = pens_filled(o.pens, o.scb_pen_idx as int, s, k);
            let idx = (o.scb_pen_idx + 2 * k) as usize;
            if idx == 16 {
                &&& ng == done_regs
                &&& n == (RendererView { scb_step: 0, sprite: line, pens, scb_pen_idx: idx, ..o })
            } else {
                &&& ng == og
                &&& n == (RendererView { sprite: taken(s, k), pens, scb_pen_idx: idx, fetch_pending: true, ..o })
            }
        }
    } else {
        n == o && ng == og
    }
}

/// Starting the lines of a quadrant: the line's offset byte taken (or
/// asked for), SPRDOFF set from it, the vertical size added into the
/// accumulator whose high byte becomes the height of the line in pixels.
/// An offset of 1 moves on to the next quadrant, 0 ends the sprite.
pub open spec fn lines_start_post(
    o: RendererView,
    og: SuzyRegistersView,
    n: RendererView,
    ng: SuzyRegistersView,
) -> bool {
    match get_spec(o.sprite, 8).1 {
        None => n == (RendererView { fetch_pending: true, ..o }) && ng == og,
        Some(off) => {
            let (s2, d2) = initialized(o.sprite, og.data, 0);
            let d3 = put_word(d2, SPRDOFFL, off as u16);
            let d4 = put_word(d3, VSIZACUML, word_at(d3, VSIZACUML).wrapping_add(word_at(d3, SPRVSIZL)));
            let d5 = d4.update(VSIZACUMH - SUZ_ADDR, 0);
            let base = RendererView {
                sprite: s2,
                orig_pixel_height: reg_at(d4, VSIZACUMH),
                pixel_height: 0,
                ..o
            };
            if word_at(d5, SPRDOFFL) == 1 {
                &&& ng == (SuzyRegistersView {
                    data: put_word(d5, SPRDLINEL, word_at(d5, SPRDLINEL).wrapping_add(word_at(d5, SPRDOFFL))),
                    task_step: TaskStep::NextQuadrant,
                    ..og
                })
                &&& n == base
            } else if word_at(d5, SPRDOFFL) == 0 {
                &&& ng == (SuzyRegistersView { data: d5, task_step: TaskStep::SpriteEnd, ..og })
                &&& n == base
            } else {
                &&& ng == (SuzyRegistersView { data: d5, task_step: next_task_step(og.task_step), ..og })
                &&& n == (RendererView { sprite: cleared_sprite(word_at(d5, SPRDLINEL)), ..base })
            }
        },
    }
}

/// Ending a line: SPRDLINE moves on by SPRDOFF, the vertical size grows by
/// the stretch once per pixel row drawn when vertical stretching is on,
/// and the next line starts.
pub open spec fn lines_end_post(o: RendererView, og: SuzyRegistersView, n: RendererView, ng: SuzyRegistersView) -> bool {
    let d0 = og.data;
    let d1 = put_word(d0, SPRDLINEL, word_at(d0, SPRDLINEL).wrapping_add(word_at(d0, SPRDOFFL)));
    let d2 = if og.sprsys_r & 0x10 == 0x10 {
        put_word(
            d1,
            SPRVSIZL,
            (word_at(d1, SPRVSIZL) as i16).wrapping_add(
                (word_at(d1, STRETCHL) as i16).wrapping_mul(o.pixel_height as i16),
            ) as u16,
        )
    } else {
        d1
    };
    &&& ng == (SuzyRegistersView { data: d2, task_step: TaskStep::RenderLinesStart, ..og })
    &&& n == (RendererView { sprite: cleared_sprite(word_at(d2, SPRDLINEL)), ..o })
}

/// Whether pixel row `voff` is past the screen in the drawing direction.
pub open spec fn off_screen(vsign: i16, voff: i16) -> bool {
    (vsign > 0 && voff >= SCREEN_LINES) || (vsign < 0 && voff < 0)
}

/// Starting a pixel row: rows past the screen, or a line of no height,
/// end the line; otherwise the line's offset byte is taken again (or asked
/// for), the start position moves by the tilt, and the horizontal offset
/// and size accumulator are set for the row.
pub open spec fn height_start_post(
    o: RendererView,
    og: SuzyRegistersView,
    n: RendererView,
    ng: SuzyRegistersView,
) -> bool {
    if off_screen(o.vsign, o.voff) || o.orig_pixel_height == 0 {
        ng == (SuzyRegistersView { task_step: TaskStep::RenderLinesEnd, ..og }) && n == o
    } else {
        match get_spec(o.sprite, 8).1 {
            None => n == (RendererView { fetch_pending: true, ..o }) && ng == og,
            Some(_) => {
                let (s2, d2) = initialized(o.sprite, og.data, o.voff);
                let hps = (word_at(d2, HPOSSTRTL) as i16).wrapping_add((word_at(d2, TILTACUML) as i16) >> 8i16);
                let d3 = put_word(d2, HPOSSTRTL, hps as u16);
                let d4 = d3.update(TILTACUMH - SUZ_ADDR, 0);
                let h0 = (word_at(d4, HPOSSTRTL) as i16).wrapping_sub(o.screen_h_start);
                let d5 = put_word(d4, TMPADRL, 0);
                let d6 = if o.hsign > 0 { put_word(d5, TMPADRL, word_at(d5, HSIZOFFL)) } else { d5 };
                let hq = if o.quadrant == o.start_quadrant { o.hsign } else { o.hquadoff };
                let h1 = if o.hsign != hq { h0.wrapping_add(o.hsign) } else { h0 };
                &&& ng == (SuzyRegistersView { data: d6, task_step: next_task_step(og.task_step), ..og })
                &&& n == (RendererView { sprite: s2, hoff: h1, hquadoff: hq, ..o })
            },
        }
    }
}

/// Ending a pixel row: the next row, the horizontal size grown by the
/// stretch and the tilt accumulated as SPRCTL1 asks; the line ends after
/// its height in rows, otherwise its data is fetched again for the next
/// row.
pub open spec fn height_end_post(
    o: RendererView,
    og: SuzyRegistersView,
    n: RendererView,
    ng: SuzyRegistersView,
) -> bool {
    let d0 = og.data;
    let ctl1 = reg_at(d0, SPRCTL1);
    let d1 = if ctl1 & SPRCTL1_RELOAD_HVS == SPRCTL1_RELOAD_HVS {
        put_word(d0, SPRHSIZL, word_at(d0, SPRHSIZL).wrapping_add(word_at(d0, STRETCHL)))
    } else {
        d0
    };
    let d2 = if ctl1 & SPRCTL1_RELOAD_HVST == SPRCTL1_RELOAD_HVST {
        put_word(d1, TILTACUML, word_at(d1, TILTACUML).wrapping_add(word_at(d1, TILTL)))
    } else {
        d1
    };
    let v1 = o.voff.wrapping_add(o.vsign);
    let ph = o.pixel_height.wrapping_add(1);
    if ph == o.orig_pixel_height {
        &&& ng == (SuzyRegistersView { data: d2, task_step: next_task_step(og.task_step), ..og })
        &&& n == (RendererView { voff: v1, pixel_height: ph, ..o })
    } else {
        &&& ng == (SuzyRegistersView { data: d2, task_step: TaskStep::RenderPixelHeightStart, ..og })
        &&& n == (RendererView {
            voff: v1,
            pixel_height: ph,
            sprite: cleared_sprite(word_at(d2, SPRDLINEL)),
            fetch_pending: true,
            ..o
        })
    }
}

/// Whether collisions are on for the current sprite: SPRCOLL does not turn
/// them off, nor does SPRSYS.
pub open spec fn collides(g: SuzyRegistersView) -> bool {
    reg_at(g.data, SPRCOLL) & SPRCOLL_DONT_COLLIDE == 0 && g.sprsys_w & 0x20 != 0x20
}

/// The address of the current sprite's collision depository.
pub open spec fn depository(g: SuzyRegistersView) -> u16 {
    word_at(g.data, SCBADRL).wrapping_add(word_at(g.data, COLLOFFL))
}

/// Whether the sprite type of SPRCTL0 records its collision.
pub open spec fn records_collision(g: SuzyRegistersView) -> bool {
    let t = reg_at(g.data, SPRCTL0) & SPRCTL0_SPR_TYPE;
    t == 2 || t == 3 || t == 4 || t == 6 || t == 7
}

/// The RAM after a sprite ends: the highest collision number met is stored
/// in the depository (for the types that record it, when collisions are
/// on), and when SPRGO asks, the depository's top bit tells whether the
/// sprite never reached the screen.
pub open spec fn sprite_end_ram(o: RendererView, g: SuzyRegistersView, m: Seq<u8>) -> Seq<u8> {
    let adr = depository(g) as int;
    let m1 = if collides(g) && records_collision(g) { m.update(adr, o.collision) } else { m };
    if reg_at(g.data, SPRGO) & SPRGO_EVERON != 0 {
        m1.update(adr, if !o.ever_on_screen { m1[adr] | 0x80 } else { m1[adr] & 0x7f })
    } else {
        m1
    }
}

/// `b` with the nibble that an even (`odd` false) or odd pixel uses set to
/// `v`: the high nibble for even pixels.
pub open spec fn put_nibble(b: u8, odd: bool, v: u8) -> u8 {
    if !odd {
        (b & 0x0f) | (v << 4u8)
    } else {
        (b & 0xf0) | v
    }
}

/// The nibble of `b` that an even or odd pixel uses.
pub open spec fn get_nibble(b: u8, odd: bool) -> u8 {
    if !odd {
        b >> 4u8
    } else {
        b & 0x0f
    }
}

/// The byte that holds pixel `hoff` of the line at `base`, two pixels to a
/// byte.
pub open spec fn nibble_addr(base: u16, hoff: i16) -> u16 {
    base.wrapping_add(((hoff as u16) / 2) as u16)
}

/// `m` with the pixel nibble at `a` set to `v`.
pub open spec fn wrote(m: Seq<u8>, a: int, odd: bool, v: u8) -> Seq<u8> {
    m.update(a, put_nibble(m[a], odd, v))
}

/// A collision at `a`: the number there, if higher than `c`, becomes the
/// sprite's collision, and the sprite's own number `num` is written.
pub open spec fn collided(m: Seq<u8>, a: int, odd: bool, num: u8, c: u8) -> (Seq<u8>, u8) {
    let found = get_nibble(m[a], odd);
    (wrote(m, a, odd, num), if found > c { found } else { c })
}

/// Painting the current pixel at the current position for the sprite type
/// of SPRCTL0: the RAM, the sprite's collision and the number of RAM
/// accesses. Pen 0 is transparent except for background sprites, pen 14
/// does not collide for the shadow types and pen 15 is not drawn by the
/// boundary types; the XOR type combines the pen with the screen.
pub open spec fn pixel_post(r: RendererView, g: SuzyRegistersView, m: Seq<u8>) -> (Seq<u8>, u8, u16) {
    let odd = r.hoff & 1 != 0;
    let va = nibble_addr(word_at(g.data, VIDADRL), r.hoff) as int;
    let ca = nibble_addr(word_at(g.data, COLLADRL), r.hoff) as int;
    let p = r.pixel;
    let num = reg_at(g.data, SPRCOLL) & SPRCOLL_NUMBER;
    let coll = collides(g);
    let c = r.collision;
    let t = reg_at(g.data, SPRCTL0) & SPRCTL0_SPR_TYPE;
    if t == 0 {
        let m1 = wrote(m, va, odd, p as u8);
        if coll && p != 0x0e {
            (wrote(m1, ca, odd, num), c, 4)
        } else {
            (m1, c, 2)
        }
    } else if t == 1 {
        (wrote(m, va, odd, p as u8), c, 2)
    } else if t == 4 {
        if p != 0 {
            let m1 = wrote(m, va, odd, p as u8);
            if coll {
                let (m2, c2) = collided(m1, ca, odd, num, c);
                (m2, c2, 5)
            } else {
                (m1, c, 2)
            }
        } else {
            (m, c, 0)
        }
    } else if t == 5 {
        if p != 0 {
            (wrote(m, va, odd, p as u8), c, 2)
        } else {
            (m, c, 0)
        }
    } else if t == 2 || t == 3 || t == 6 || t == 7 {
        let draws = p != 0 && (t == 6 || t == 7 || p != 0x0f) && (t != 2 || p != 0x0e);
        let v = if t == 6 { ((get_nibble(m[va], odd) as u32) ^ p) as u8 } else { p as u8 };
        let m1 = if draws { wrote(m, va, odd, v) } else { m };
        let a1: u16 = if !draws { 0 } else if t == 6 { 3 } else { 2 };
        if p != 0 && (t == 3 || p != 0x0e) && coll {
            let (m2, c2) = collided(m1, ca, odd, num, c);
            (m2, c2, (a1 + 3) as u16)
        } else {
            (m1, c, a1)
        }
    } else {
        (m, c, 0)
    }
}

/// One pixel of a run: painted when it is on the screen, then the position
/// moves in the drawing direction.
pub open spec fn run_step(r: RendererView, g: SuzyRegistersView, m: Seq<u8>) -> (RendererView, Seq<u8>, nat) {
    if 0 <= r.hoff < SCREEN_PIXELS {
        let (m1, c1, a) = pixel_post(r, g, m);
        (RendererView { ever_on_screen: true, collision: c1, hoff: r.hoff.wrapping_add(r.hsign), ..r }, m1, a as nat)
    } else {
        (RendererView { hoff: r.hoff.wrapping_add(r.hsign), ..r }, m, 0)
    }
}

/// `n` pixels of a run, with the RAM accesses they make.
pub open spec fn run(r: RendererView, g: SuzyRegistersView, m: Seq<u8>, n: nat) -> (RendererView, Seq<u8>, nat)
    decreases n,
{
    if n == 0 {
        (r, m, 0)
    } else {
        let (r1, m1, a1) = run(r, g, m, (n - 1) as nat);
        let (r2, m2, a2) = run_step(r1, g, m1);
        (r2, m2, a1 + a2)
    }
}

/// The state of drawing a stretch of a line: the renderer, the register
/// data, the RAM, the RAM accesses so far, and whether the decoder ran out
/// of bytes or the line ended.
pub struct LineState {
    pub r: RendererView,
    pub d: Seq<u8>,
    pub m: Seq<u8>,
    pub accesses: nat,
    pub starved: bool,
    pub ended: bool,
}

/// Drawing the next decoded pixel: its width comes from the horizontal
/// size accumulated in TMPADR (the high byte, which is then cleared), and
/// it is painted that many times.
pub open spec fn line_step(st: LineState, g: SuzyRegistersView) -> LineState {
    if st.starved || st.ended {
        st
    } else {
        let bpp = (reg_at(st.d, SPRCTL0) / 64 + 1) as u16;
        match pixel_spec(st.r.sprite, bpp, st.r.pens) {
            None => LineState { starved: true, ..st },
            Some((lt, bc, lp, rc)) => {
                let s1 = SpriteView { line_pixel: lp, line_type: lt, repeat_count: rc, ..st.r.sprite };
                let r1 = RendererView { sprite: get_spec(s1, bc).0, pixel: lp as u32, ..st.r };
                if lp as u32 == LINE_END {
                    LineState { r: r1, ended: true, ..st }
                } else {
                    let d1 = put_word(st.d, TMPADRL, word_at(st.d, TMPADRL).wrapping_add(word_at(st.d, SPRHSIZL)));
                    let w = reg_at(d1, TMPADRH);
                    let d2 = d1.update(TMPADRH - SUZ_ADDR, 0);
                    let (r2, m2, a2) = run(
                        RendererView { pixel_width: w, ..r1 },
                        SuzyRegistersView { data: d2, ..g },
                        st.m,
                        w as nat,
                    );
                    LineState { r: r2, d: d2, m: m2, accesses: st.accesses + a2, ..st }
                }
            },
        }
    }
}

/// `k` pixels of a line.
pub open spec fn line_steps(st: LineState, g: SuzyRegistersView, k: nat) -> LineState
    decreases k,
{
    if k == 0 {
        st
    } else {
        line_step(line_steps(st, g, (k - 1) as nat), g)
    }
}

/// Drawing up to four pixels of a line on a row of the screen (rows off
/// the screen are skipped): the task waits for the RAM accesses made, or
/// asks for bytes when the decoder runs out; the line's end moves on to the
/// next step.
pub open spec fn pixels_post(
    o: RendererView,
    og: SuzyRegistersView,
    om: Seq<u8>,
    n: RendererView,
    ng: SuzyRegistersView,
    nm: Seq<u8>,
) -> bool {
    if o.voff < 0 || o.voff >= SCREEN_LINES {
        n == o && nm == om && ng == (SuzyRegistersView { task_step: next_task_step(og.task_step), ..og })
    } else {
        let st = line_steps(
            LineState { r: o, d: og.data, m: om, accesses: 0, starved: false, ended: false },
            og,
            4,
        );
        let delay = (st.accesses * 2) as u16;
        &&& nm == st.m
        &&& if st.starved {
            &&& n == (RendererView { fetch_pending: true, ..st.r })
            &&& ng == (SuzyRegistersView { data: st.d, task_ticks_delay: delay, ..og })
        } else if st.ended {
            &&& n == st.r
            &&& ng == (SuzyRegistersView { data: st.d, task_step: next_task_step(og.task_step), ..og })
        } else {
            &&& n == st.r
            &&& ng == (SuzyRegistersView { data: st.d, task_ticks_delay: delay, ..og })
        }
    }
}

/// Starting the next sprite of the chain: the engine marked busy and
/// SCBNEXT taken as the current control block. A block in page zero ends
/// the chain; otherwise its bytes are asked for.
pub open spec fn painting_post(o: RendererView, og: SuzyRegistersView, n: RendererView, ng: SuzyRegistersView) -> bool {
    let d0 = og.data;
    let first = word_at(d0, SCBNEXTL);
    let busy = og.sprsys_r | 0x01u8 | 0x80u8;
    let d1 = put_word(d0, SCBADRL, first);
    if first & 0xff00 == 0 {
        &&& ng == (SuzyRegistersView {
            sprsys_r: busy,
            data: d1,
            task_step: TaskStep::MaxSteps,
            ..og
        })
        &&& n == o
    } else {
        &&& ng == (SuzyRegistersView {
            sprsys_r: busy,
            data: d1,
            task_step: next_task_step(og.task_step),
            ..og
        })
        &&& n == (RendererView {
            scb_step: 0,
            sprite: cleared_sprite(first),
            fetch_pending: true,
            ..o
        })
    }
}

/// Ending a quadrant: a sprite without data (SPRDOFF zero) or one back at
/// its first quadrant is done, otherwise the next quadrant starts.
pub open spec fn end_quadrant_post(o: RendererView, og: SuzyRegistersView, n: RendererView, ng: SuzyRegistersView) -> bool {
    let q = ((o.quadrant + 1) % 4) as u8;
    if word_at(og.data, SPRDOFFL) == 0 {
        &&& n == o
        &&& ng == (SuzyRegistersView {
            task_step: next_task_step(og.task_step),
            ..og
        })
    } else {
        &&& n == (RendererView { quadrant: q, ..o })
        &&& ng == (SuzyRegistersView {
            task_step: if q == o.start_quadrant {
                next_task_step(og.task_step)
            } else {
                TaskStep::InitializeQuadrant
            },
            ..og
        })
    }
}

/// Starting to render the loaded sprite: no collision yet, the first
/// quadrant from SPRCTL1, the screen offsets from HOFF and VOFF.
pub open spec fn quadrants_post(o: RendererView, og: SuzyRegistersView, n: RendererView, ng: SuzyRegistersView) -> bool {
    let d0 = og.data;
    let d1 = put_word(d0, TMPADRL, 0);
    let q = if reg_at(d0, SPRCTL1) % 4 == 0 {
        0u8
    } else if reg_at(d0, SPRCTL1) % 4 == 1 {
        3u8
    } else if reg_at(d0, SPRCTL1) % 4 == 2 {
        1u8
    } else {
        2u8
    };
    let h = word_at(d1, HOFFL) as i16;
    let v = word_at(d1, VOFFL) as i16;
    &&& ng == (SuzyRegistersView {
        data: d1,
        task_step: next_task_step(og.task_step),
        ..og
    })
    &&& n == (RendererView {
        ever_on_screen: false,
        collision: 0,
        sprite: SpriteView { addr: word_at(d0, SPRDLINEL), ..o.sprite },
        start_quadrant: q,
        quadrant: q,
        hoff: h,
        voff: v,
        screen_h_start: h,
        screen_v_start: v,
        orig_hsign: quadrant_sign(q, 0, 1),
        orig_vsign: quadrant_sign(q, 0, 3),
        ..o
    })
}

/// Starting a quadrant: its drawing directions (flipped by SPRCTL0), the
/// first line, the vertical size accumulator and an emptied decoder.
pub open spec fn quadrant_post(o: RendererView, og: SuzyRegistersView, n: RendererView, ng: SuzyRegistersView) -> bool {
    let o = o;
    let d0 = og.data;
    let ctl0 = reg_at(d0, SPRCTL0);
    let hs0 = quadrant_sign(o.quadrant, 0, 1);
    let vs0 = quadrant_sign(o.quadrant, 0, 3);
    let vs = if ctl0 & SPRCTL0_VFLIP == SPRCTL0_VFLIP { (-vs0) as i16 } else { vs0 };
    let hs = if ctl0 & SPRCTL0_HFLIP == SPRCTL0_HFLIP { (-hs0) as i16 } else { hs0 };
    let v0 = (word_at(d0, VPOSSTRTL) as i16).wrapping_sub(o.screen_v_start);
    let d1 = put_word(d0, TILTACUML, 0);
    let d2 = put_word(d1, VSIZACUML, if vs == 1 { word_at(d1, VSIZOFFL) } else { 0 });
    let vq = if o.quadrant == o.start_quadrant { vs } else { o.vquadoff };
    let v1 = if vs != vq { v0.wrapping_add(vs) } else { v0 };
    &&& ng == (SuzyRegistersView {
        data: d2,
        task_step: next_task_step(og.task_step),
        ..og
    })
    &&& n == (RendererView {
        hsign: hs,
        vsign: vs,
        voff: v1,
        vquadoff: vq,
        pixel_height: 0,
        sprite: cleared_sprite(word_at(d2, SPRDLINEL)),
        ..o
    })
}

/// Whether the current step can run: loading a control block needs the
/// bytes it reads in the decoder.
pub open spec fn step_ready(r: RendererView, g: SuzyRegistersView) -> bool {
    g.task_step == TaskStep::LoadSCB ==> scb_ready(r, g.data)
}

/// One step of the sprite task, chosen by the task step: the steps above,
/// the end of a sprite handed to the task that records its collision, and
/// a stop of the engine past the last step.
#[verifier::opaque]
pub open spec fn render_post(
    o: RendererView,
    og: SuzyRegistersView,
    om: Seq<u8>,
    n: RendererView,
    ng: SuzyRegistersView,
    nm: Seq<u8>,
) -> bool {
    match og.task_step {
        TaskStep::Idle => n == o && ng == og && nm == om,
        TaskStep::InitializePainting => painting_post(o, og, n, ng) && nm == om,
        TaskStep::LoadSCB => load_scb_post(o, og, n, ng) && nm == om,
        TaskStep::InitializeQuadrants => quadrants_post(o, og, n, ng) && nm == om,
        TaskStep::InitializeQuadrant => quadrant_post(o, og, n, ng) && nm == om,
        TaskStep::RenderLinesStart => lines_start_post(o, og, n, ng) && nm == om,
        TaskStep::RenderPixelHeightStart => height_start_post(o, og, n, ng) && nm == om,
        TaskStep::RenderPixelsInLine => pixels_post(o, og, om, n, ng, nm),
        TaskStep::RenderPixelheightEnd => height_end_post(o, og, n, ng) && nm == om,
        TaskStep::RenderLinesEnd => lines_end_post(o, og, n, ng) && nm == om,
        TaskStep::NextQuadrant => end_quadrant_post(o, og, n, ng) && nm == om,
        TaskStep::SpriteEnd => n == o && nm == om && ng == (SuzyRegistersView { task: SuzyTask::EndSprite, ..og }),
        TaskStep::MaxSteps => n == (RendererView { scb_step: 0, ..o }) && ng == stopped_regs(og) && nm == om,
    }
}

proof fn lemma_line_steps_stop(st: LineState, g: SuzyRegistersView, k: nat, n: nat)
    requires
        k <= n,
        line_steps(st, g, k).starved || line_steps(st, g, k).ended,
    ensures
        line_steps(st, g, n) == line_steps(st, g, k),
    decreases n,
{
    if n > k {
        lemma_line_steps_stop(st, g, k, (n - 1) as nat);
    }
}

proof fn lemma_taken_step(s: SpriteView, k: nat)
    ensures
        taken(s, k + 1) == get_spec(taken(s, k), 8).0,
    decreases k,
{
    reveal_with_fuel(taken, 2);
    if k > 0 {
        lemma_taken_step(get_spec(s, 8).0, (k - 1) as nat);
    }
}

proof fn lemma_ready_split(s: SpriteView, k: nat, n: nat)
    requires
        bytes_ready(s, n),
        k < n,
    ensures
        get_spec(taken(s, k), 8).1 is Some,
        k + 1 < n ==> get_spec(taken(s, k + 1), 8).1 is Some,
    decreases k,
{
    if k > 0 {
        lemma_ready_split(get_spec(s, 8).0, (k - 1) as nat, (n - 1) as nat);
    } else if 1 < n {
        assert(bytes_ready(get_spec(s, 8).0, (n - 1) as nat));
        reveal_with_fuel(taken, 2);
    }
}

/// The ticks of one DMA read of RAM.
fn dma_ticks() -> (r: u16)
    ensures
        r == 2,
{
    RAM_DMA_READ_TICKS as u16
}

/// The decoder after the bytes `b` are shifted in, the first one first.
pub open spec fn pushed_bytes(s: SpriteView, b: Seq<u8>) -> SpriteView
    decreases b.len(),
{
    if b.len() == 0 {
        s
    } else {
        let t = pushed_bytes(s, b.drop_last());
        SpriteView {
            shift_reg: ((t.shift_reg << 8u64) | (b.last() as u64)) as u64,
            shift_reg_count: (t.shift_reg_count + 8) as u16,
            ..t
        }
    }
}

proof fn lemma_pushed_count(s: SpriteView, b: Seq<u8>)
    requires
        s.shift_reg_count + 8 * b.len() <= 0xffff,
    ensures
        pushed_bytes(s, b).shift_reg_count == s.shift_reg_count + 8 * b.len(),
        pushed_bytes(s, b).bits_left == s.bits_left,
        pushed_bytes(s, b).addr == s.addr,
    decreases b.len(),
{
    if b.len() > 0 {
        lemma_pushed_count(s, b.drop_last());
    }
}

impl Default for Renderer {
    fn default() -> (r: Self)
        ensures
            renderer_wf(r@),
            r@.sprite == cleared_sprite(0),
    {
        Renderer::new()
    }
}


/// Painting a pixel sets its own nibble of the byte and leaves the other
/// pixel of the byte as it was.
pub proof fn lemma_pixel_nibble(b: u8, odd: bool, v: u8)
    requires
        v < 16,
    ensures
        get_nibble(put_nibble(b, odd, v), odd) == v,
        get_nibble(put_nibble(b, odd, v), !odd) == get_nibble(b, !odd),
{
    assert(v < 16 ==> ((b & 0x0f) | (v << 4u8)) >> 4u8 == v && ((b & 0x0f) | (v << 4u8)) & 0x0f == b & 0x0f && ((
    b & 0xf0) | v) & 0x0f == v && ((b & 0xf0) | v) >> 4u8 == b >> 4u8) by (bit_vector);
}
} // verus!

verus! {

/// Pen 0 is transparent: for every sprite type but the two background
/// types, painting a pixel of pen 0 leaves video RAM and the collision
/// buffer as they were, keeps the sprite's collision and makes no RAM
/// access.
pub proof fn lemma_pen_zero_transparent(r: RendererView, g: SuzyRegistersView, m: Seq<u8>)
    requires
        r.pixel == 0,
        reg_at(g.data, SPRCTL0) & SPRCTL0_SPR_TYPE != 0,
        reg_at(g.data, SPRCTL0) & SPRCTL0_SPR_TYPE != 1,
    ensures
        pixel_post(r, g, m) == (m, r.collision, 0u16),
{
}

} // verus!
