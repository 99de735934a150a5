//! Addresses, bit masks and timings of the Lynx hardware.
use vstd::prelude::*;

verus! {

pub const INTV_ADDR: u16 = 0xfffe;
pub const RESV_ADDR: u16 = 0xfffc;
pub const NMIV_ADDR: u16 = 0xfffa;
pub const MMC_ADDR: u16 = 0xfff9;
pub const ROM_ADDR: u16 = 0xfe00;
pub const MIK_ADDR: u16 = 0xfd00;
pub const SUZ_ADDR: u16 = 0xfc00;
pub const SUZ_ADDR_B: u16 = 0xfbff;
pub const MIK_ADDR_B: u16 = 0xfcff;
pub const ROM_ADDR_B: u16 = 0xfdff;
pub const MMC_ADDR_B: u16 = 0xfff8;
pub const INTV_ADDR_A: u16 = 0xffff;
pub const RESV_ADDR_A: u16 = 0xfffd;
pub const NMIV_ADDR_A: u16 = 0xfffb;
pub const CRYSTAL_FREQ: u32 = 0xf42400;
pub const RAM_NORMAL_READ_TICKS: i8 = 4;
pub const RAM_NORMAL_WRITE_TICKS: i8 = 4;
pub const RAM_PAGE_READ_TICKS: i8 = 3;
pub const RAM_DMA_READ_TICKS: i8 = 2;
pub const RAM_REFRESH_TICKS: u8 = 4;
pub const RAM_PEEK_DATA_OPCODE: u8 = 1;
pub const RAM_PEEK_DATA_DMA: u8 = 2;
pub const MIKEY_TIMER_READ_TICKS: u16 = 4;
pub const MIKEY_TIMER_WRITE_TICKS: u16 = 4;
pub const MIKEY_READ_TICKS: u16 = 4;
pub const MIKEY_WRITE_TICKS: u16 = 4;
pub const SUZY_WRITE_TICKS: u16 = 4;
pub const SUZY_READ_TICKS: u16 = 0xb;
/// The ticks between Mikey requesting the bus and Suzy granting it: the
/// longest process inside Suzy takes 30 ticks, and accepting the request
/// and releasing the grant bring the total to 40.
pub const SUZY_BUS_GRANT_TICKS: i8 = 40;
pub const SUZY_MULT_SIGN_TICKS: u16 = 0x35;
pub const SUZY_MULT_NON_SIGN_TICKS: u16 = 0x2b;
pub const CART_READ_TICKS: u8 = 0xe;
pub const CART_WRITE_TICKS: u8 = 4;
pub const M6502_PIN_RW: u8 = 0x18;
pub const M6502_PIN_SYNC: u8 = 0x19;
pub const M6502_PIN_IRQ: u8 = 0x1a;
pub const M6502_PIN_NMI: u8 = 0x1b;
pub const M6502_PIN_RDY: u8 = 0x1c;
pub const M6502_PIN_RES: u8 = 0x1e;
pub const M6502_RW: u32 = 0x1000000;
pub const M6502_SYNC: u32 = 0x2000000;
pub const M6502_IRQ: u32 = 0x4000000;
pub const M6502_NMI: u32 = 0x8000000;
pub const M6502_RDY: u32 = 0x10000000;
pub const M6502_RES: u32 = 0x40000000;
pub const MAPCTL_VEC_BIT: u8 = 8;
pub const MAPCTL_ROM_BIT: u8 = 4;
pub const MAPCTL_MIK_BIT: u8 = 2;
pub const MAPCTL_SUZ_BIT: u8 = 1;
pub const TIM0BKUP: u16 = 0xfd00;
pub const TIM0CTLA: u16 = 0xfd01;
pub const TIM0CNT: u16 = 0xfd02;
pub const TIM0CTLB: u16 = 0xfd03;
pub const TIM1BKUP: u16 = 0xfd04;
pub const TIM1CTLA: u16 = 0xfd05;
pub const TIM1CNT: u16 = 0xfd06;
pub const TIM1CTLB: u16 = 0xfd07;
pub const TIM2BKUP: u16 = 0xfd08;
pub const TIM2CTLA: u16 = 0xfd09;
pub const TIM2CNT: u16 = 0xfd0a;
pub const TIM2CTLB: u16 = 0xfd0b;
pub const TIM3BKUP: u16 = 0xfd0c;
pub const TIM3CTLA: u16 = 0xfd0d;
pub const TIM3CNT: u16 = 0xfd0e;
pub const TIM3CTLB: u16 = 0xfd0f;
pub const TIM4BKUP: u16 = 0xfd10;
pub const TIM4CTLA: u16 = 0xfd11;
pub const TIM4CNT: u16 = 0xfd12;
pub const TIM4CTLB: u16 = 0xfd13;
pub const TIM5BKUP: u16 = 0xfd14;
pub const TIM5CTLA: u16 = 0xfd15;
pub const TIM5CNT: u16 = 0xfd16;
pub const TIM5CTLB: u16 = 0xfd17;
pub const TIM6BKUP: u16 = 0xfd18;
pub const TIM6CTLA: u16 = 0xfd19;
pub const TIM6CNT: u16 = 0xfd1a;
pub const TIM6CTLB: u16 = 0xfd1b;
pub const TIM7BKUP: u16 = 0xfd1c;
pub const TIM7CTLA: u16 = 0xfd1d;
pub const TIM7CNT: u16 = 0xfd1e;
pub const TIM7CTLB: u16 = 0xfd1f;
pub const AUD0VOL: u16 = 0xfd20;
pub const AUD0SHFTFB: u16 = 0xfd21;
pub const AUD0OUTVAL: u16 = 0xfd22;
pub const AUD0L8SHFT: u16 = 0xfd23;
pub const AUD0TBACK: u16 = 0xfd24;
pub const AUD0CTL: u16 = 0xfd25;
pub const AUD0COUNT: u16 = 0xfd26;
pub const AUD0MISC: u16 = 0xfd27;
pub const AUD1VOL: u16 = 0xfd28;
pub const AUD1SHFTFB: u16 = 0xfd29;
pub const AUD1OUTVAL: u16 = 0xfd2a;
pub const AUD1L8SHFT: u16 = 0xfd2b;
pub const AUD1TBACK: u16 = 0xfd2c;
pub const AUD1CTL: u16 = 0xfd2d;
pub const AUD1COUNT: u16 = 0xfd2e;
pub const AUD1MISC: u16 = 0xfd2f;
pub const AUD2VOL: u16 = 0xfd30;
pub const AUD2SHFTFB: u16 = 0xfd31;
pub const AUD2OUTVAL: u16 = 0xfd32;
pub const AUD2L8SHFT: u16 = 0xfd33;
pub const AUD2TBACK: u16 = 0xfd34;
pub const AUD2CTL: u16 = 0xfd35;
pub const AUD2COUNT: u16 = 0xfd36;
pub const AUD2MISC: u16 = 0xfd37;
pub const AUD3VOL: u16 = 0xfd38;
pub const AUD3SHFTFB: u16 = 0xfd39;
pub const AUD3OUTVAL: u16 = 0xfd3a;
pub const AUD3L8SHFT: u16 = 0xfd3b;
pub const AUD3TBACK: u16 = 0xfd3c;
pub const AUD3CTL: u16 = 0xfd3d;
pub const AUD3COUNT: u16 = 0xfd3e;
pub const AUD3MISC: u16 = 0xfd3f;
pub const ATTEN_A: u16 = 0xfd40;
pub const ATTEN_B: u16 = 0xfd41;
pub const ATTEN_C: u16 = 0xfd42;
pub const ATTEN_D: u16 = 0xfd43;
pub const MPAN: u16 = 0xfd44;
pub const MSTEREO: u16 = 0xfd50;
pub const INTRST: u16 = 0xfd80;
pub const INTSET: u16 = 0xfd81;
pub const MAGRDY0: u16 = 0xfd84;
pub const MAGRDY1: u16 = 0xfd85;
pub const AUDIN: u16 = 0xfd86;
pub const SYSCTL1: u16 = 0xfd87;
pub const MIKEYHREV: u16 = 0xfd88;
pub const MIKEYSREV: u16 = 0xfd89;
pub const IODIR: u16 = 0xfd8a;
pub const IODAT: u16 = 0xfd8b;
pub const SERCTL: u16 = 0xfd8c;
pub const SERDAT: u16 = 0xfd8d;
pub const SDONEACK: u16 = 0xfd90;
pub const CPUSLEEP: u16 = 0xfd91;
pub const DISPCTL: u16 = 0xfd92;
pub const PBKUP: u16 = 0xfd93;
pub const DISPADR: u16 = 0xfd94;
pub const DISPADRL: u16 = 0xfd94;
pub const DISPADRH: u16 = 0xfd95;
pub const MTEST0: u16 = 0xfd9c;
pub const MTEST1: u16 = 0xfd9d;
pub const MTEST2: u16 = 0xfd9e;
pub const GREEN0: u16 = 0xfda0;
pub const GREEN1: u16 = 0xfda1;
pub const GREEN2: u16 = 0xfda2;
pub const GREEN3: u16 = 0xfda3;
pub const GREEN4: u16 = 0xfda4;
pub const GREEN5: u16 = 0xfda5;
pub const GREEN6: u16 = 0xfda6;
pub const GREEN7: u16 = 0xfda7;
pub const GREEN8: u16 = 0xfda8;
pub const GREEN9: u16 = 0xfda9;
pub const GREENA: u16 = 0xfdaa;
pub const GREENB: u16 = 0xfdab;
pub const GREENC: u16 = 0xfdac;
pub const GREEND: u16 = 0xfdad;
pub const GREENE: u16 = 0xfdae;
pub const GREENF: u16 = 0xfdaf;
pub const BLUERED0: u16 = 0xfdb0;
pub const BLUERED1: u16 = 0xfdb1;
pub const BLUERED2: u16 = 0xfdb2;
pub const BLUERED3: u16 = 0xfdb3;
pub const BLUERED4: u16 = 0xfdb4;
pub const BLUERED5: u16 = 0xfdb5;
pub const BLUERED6: u16 = 0xfdb6;
pub const BLUERED7: u16 = 0xfdb7;
pub const BLUERED8: u16 = 0xfdb8;
pub const BLUERED9: u16 = 0xfdb9;
pub const BLUEREDA: u16 = 0xfdba;
pub const BLUEREDB: u16 = 0xfdbb;
pub const BLUEREDC: u16 = 0xfdbc;
pub const BLUEREDD: u16 = 0xfdbd;
pub const BLUEREDE: u16 = 0xfdbe;
pub const BLUEREDF: u16 = 0xfdbf;
pub const IODAT_CAD: u8 = 2;
pub const IODAT_AUDIN: u8 = 0x10;
/// IODAT bit: external power is present.
pub const IODAT_EXTPW: u8 = 0x01;
/// IODAT bit: no expansion (no ComLynx cable) is plugged in.
pub const IODAT_NOEXP: u8 = 0x04;
/// IODAT bit: the rest line.
pub const IODAT_REST: u8 = 0x08;
/// The bytes that one video DMA fetches: sixteen pixels.
pub const VIDEO_DMA_BUFFER_LENGTH: usize = 8;
/// The ticks of a RAM refresh and a video DMA: the refresh, then one
/// normal read and seven page-mode reads.
pub const REFRESH_AND_VIDEO_DMA_TICKS: u16 = 29;
pub const SYSCTL1_CAS: u8 = 1;
pub const SYSCTL1_POWER: u8 = 2;
pub const INT_TIMER0: u8 = 1;
pub const INT_TIMER2: u8 = 4;
pub const INT_TIMER4: u8 = 0x10;
pub const CART_PIN_D3: u32 = 1;
pub const CART_PIN_D2: u32 = 2;
pub const CART_PIN_D4: u32 = 3;
pub const CART_PIN_D1: u32 = 4;
pub const CART_PIN_D5: u32 = 5;
pub const CART_PIN_D0: u32 = 6;
pub const CART_PIN_D6: u32 = 7;
pub const CART_PIN_D7: u32 = 8;
pub const CART_PIN_CE: u32 = 9;
pub const CART_PIN_A1: u32 = 0xa;
pub const CART_PIN_A2: u32 = 0xb;
pub const CART_PIN_A3: u32 = 0xc;
pub const CART_PIN_A6: u32 = 0xd;
pub const CART_PIN_A4: u32 = 0xe;
pub const CART_PIN_A5: u32 = 0xf;
pub const CART_PIN_A0: u32 = 0x10;
pub const CART_PIN_A7: u32 = 0x11;
pub const CART_PIN_A16: u32 = 0x12;
pub const CART_PIN_A17: u32 = 0x13;
pub const CART_PIN_A18: u32 = 0x14;
pub const CART_PIN_A19: u32 = 0x15;
pub const CART_PIN_A15: u32 = 0x16;
pub const CART_PIN_A14: u32 = 0x17;
pub const CART_PIN_A13: u32 = 0x18;
pub const CART_PIN_A12: u32 = 0x19;
pub const CART_PIN_WE: u32 = 0x1a;
pub const CART_PIN_A8: u32 = 0x1b;
pub const CART_PIN_A9: u32 = 0x1c;
pub const CART_PIN_A10: u32 = 0x1d;
pub const CART_PIN_AUDIN: u32 = 0x1f;
pub const TMPADRL: u16 = 0xfc00;
pub const TMPADRH: u16 = 0xfc01;
pub const TILTACUML: u16 = 0xfc02;
pub const TILTACUMH: u16 = 0xfc03;
pub const HOFFL: u16 = 0xfc04;
pub const HOFFH: u16 = 0xfc05;
pub const VOFFL: u16 = 0xfc06;
pub const VOFFH: u16 = 0xfc07;
pub const VIDBASL: u16 = 0xfc08;
pub const VIDBASH: u16 = 0xfc09;
pub const COLLBASL: u16 = 0xfc0a;
pub const COLLBASH: u16 = 0xfc0b;
pub const VIDADRL: u16 = 0xfc0c;
pub const VIDADRH: u16 = 0xfc0d;
pub const COLLADRL: u16 = 0xfc0e;
pub const COLLADRH: u16 = 0xfc0f;
pub const SCBNEXTL: u16 = 0xfc10;
pub const SCBNEXTH: u16 = 0xfc11;
pub const SPRDLINEL: u16 = 0xfc12;
pub const SPRDLINEH: u16 = 0xfc13;
pub const HPOSSTRTL: u16 = 0xfc14;
pub const HPOSSTRTH: u16 = 0xfc15;
pub const VPOSSTRTL: u16 = 0xfc16;
pub const VPOSSTRTH: u16 = 0xfc17;
pub const SPRHSIZL: u16 = 0xfc18;
pub const SPRHSIZH: u16 = 0xfc19;
pub const SPRVSIZL: u16 = 0xfc1a;
pub const SPRVSIZH: u16 = 0xfc1b;
pub const STRETCHL: u16 = 0xfc1c;
pub const STRETCHH: u16 = 0xfc1d;
pub const TILTL: u16 = 0xfc1e;
pub const TILTH: u16 = 0xfc1f;
pub const SPRDOFFL: u16 = 0xfc20;
pub const SPRDOFFH: u16 = 0xfc21;
pub const SPRVPOSL: u16 = 0xfc22;
pub const SPRVPOSH: u16 = 0xfc23;
pub const COLLOFFL: u16 = 0xfc24;
pub const COLLOFFH: u16 = 0xfc25;
pub const VSIZACUML: u16 = 0xfc26;
pub const VSIZACUMH: u16 = 0xfc27;
pub const HSIZOFFL: u16 = 0xfc28;
pub const HSIZOFFH: u16 = 0xfc29;
pub const VSIZOFFL: u16 = 0xfc2a;
pub const VSIZOFFH: u16 = 0xfc2b;
pub const SCBADRL: u16 = 0xfc2c;
pub const SCBADRH: u16 = 0xfc2d;
pub const PROCADRL: u16 = 0xfc2e;
pub const PROCADRH: u16 = 0xfc2f;
pub const MATHD: u16 = 0xfc52;
pub const MATHC: u16 = 0xfc53;
pub const MATHB: u16 = 0xfc54;
pub const MATHA: u16 = 0xfc55;
pub const MATHP: u16 = 0xfc56;
pub const MATHN: u16 = 0xfc57;
pub const MATHH: u16 = 0xfc60;
pub const MATHG: u16 = 0xfc61;
pub const MATHF: u16 = 0xfc62;
pub const MATHE: u16 = 0xfc63;
pub const MATHM: u16 = 0xfc6c;
pub const MATHL: u16 = 0xfc6d;
pub const MATHK: u16 = 0xfc6e;
pub const MATHJ: u16 = 0xfc6f;
pub const SPRCTL0: u16 = 0xfc80;
pub const SPRCTL1: u16 = 0xfc81;
pub const SPRCOLL: u16 = 0xfc82;
pub const SPRINIT: u16 = 0xfc83;
pub const SUZYBUSEN: u16 = 0xfc90;
pub const SPRGO: u16 = 0xfc91;
pub const SPRSYS: u16 = 0xfc92;
pub const SUZYHREV: u16 = 0xfc88;
pub const JOYSTICK: u16 = 0xfcb0;
pub const SWITCHES: u16 = 0xfcb1;
pub const RCART0: u16 = 0xfcb2;
pub const RCART1: u16 = 0xfcb3;
pub const SPRSYS_SIGN_MATH: u8 = 0x80;
pub const SPRSYS_ACCUMULATE: u8 = 0x40;
pub const SPRSYS_DONT_COLLIDE: u8 = 0x20;
pub const SPRSYS_VSTRETCH: u8 = 0x10;
pub const SPRSYS_LEFTHAND: u8 = 8;
pub const SPRSYS_CLEAR_UNSAFE: u8 = 4;
pub const SPRSYS_STOP_CURRENT_SPRITE: u8 = 2;
pub const SPRSYS_MATH_IN_PROGRESS: u8 = 0x80;
pub const SPRSYS_MATHBIT: u8 = 0x40;
pub const SPRSYS_LAST_CARRY: u8 = 0x20;
pub const SPRSYS_UNSAFE_ACCESS: u8 = 4;
pub const SPRSYS_SPRITE_IN_PROGRESS: u8 = 1;
pub const SPRCTL1_LITERAL: u8 = 0x80;
pub const SPRCTL1_ALGO_3: u8 = 0x40;
pub const SPRCTL1_RELOAD_HVST: u8 = 0x30;
pub const SPRCTL1_RELOAD_HVS: u8 = 0x20;
pub const SPRCTL1_RELOAD_HV: u8 = 0x10;
pub const SPRCTL1_REUSE_PALETTE: u8 = 8;
pub const SPRCTL1_SKIP_SPRITE: u8 = 4;
pub const SPRCTL1_DRAW_UP: u8 = 2;
pub const SPRCTL1_DRAW_LEFT: u8 = 1;
pub const SPRCTL1_DRAW_QUAD: u8 = 3;
pub const SPRCTL0_BPP: u8 = 0xc0;
pub const SPRCTL0_HFLIP: u8 = 0x20;
pub const SPRCTL0_VFLIP: u8 = 0x10;
pub const SPRCTL0_SPR_TYPE: u8 = 7;
pub const SPRCOLL_DONT_COLLIDE: u8 = 0x20;
pub const SPRCOLL_NUMBER: u8 = 0xf;
pub const SPRGO_GO: u8 = 1;
pub const SPRGO_EVERON: u8 = 4;
pub const R_SPRCTL0: u16 = 0;
pub const R_SPRCTL1: u16 = 1;
pub const R_SPRCOLL: u16 = 2;
pub const R_SCBNEXTL: u16 = 3;
pub const R_SCBNEXTH: u16 = 4;
pub const R_SPRDATAL: u16 = 5;
pub const R_SPRDATAH: u16 = 6;
pub const R_HPOSL: u16 = 7;
pub const R_HPOSH: u16 = 8;
pub const R_VPOSL: u16 = 9;
pub const R_VPOSH: u16 = 0xa;
pub const R_HSIZEL: u16 = 0xb;
pub const R_HSIZEH: u16 = 0xc;
pub const R_VSIZEL: u16 = 0xd;
pub const R_VSIZEH: u16 = 0xe;
pub const R_STRETCHL: u16 = 0xf;
pub const R_STRETCHH: u16 = 0x10;
pub const R_TILTL: u16 = 0x11;
pub const R_TILTH: u16 = 0x12;
pub const R_PALETTE_00: u16 = 0x13;
pub const R_PALETTE_01: u16 = 0x14;
pub const R_PALETTE_02: u16 = 0x15;
pub const R_PALETTE_03: u16 = 0x16;
pub const R_PALETTE_04: u16 = 0x17;
pub const R_PALETTE_05: u16 = 0x18;
pub const R_PALETTE_06: u16 = 0x19;
pub const R_PALETTE_07: u16 = 0x1a;
pub const LINE_END: u32 = 0x80;
pub const SUZY_DATA_BUFFER_LEN: u16 = 1;

} // verus!
