use holani::consts::{MATHB, MATHD, MATHF, MATHG, MATHH, MATHJ, MATHK, MATHL, MATHN, MATHP};
use holani::suzy::math::{divide, multiply, set_matha, set_mathc, set_mathe, set_mathm};
use holani::suzy::registers::{SprSysR, SprSysW, SuzyRegisters};

struct TestCore {
    regs: SuzyRegisters,
}

impl TestCore {
    fn new() -> Self {
        TestCore { regs: SuzyRegisters::new() }
    }

    fn mult(&mut self) {
        self.regs.backup_cd();
        multiply(&mut self.regs);
    }

    fn div(&mut self) {
        divide(&mut self.regs);
    }

    fn signed(&mut self) {
        self.regs.sprsys_w_enable_flag(SprSysW::sign_math());
    }

    fn acc(&mut self) {
        self.regs.sprsys_w_enable_flag(SprSysW::accumulate());
    }

    fn cy(&self) -> bool {
        self.regs.sprsys_r_is_flag_set(SprSysR::math_carry())
    }

    fn wn(&self) -> bool {
        self.regs.sprsys_r_is_flag_set(SprSysR::math_warning())
    }

    fn sa(&mut self, v: u16) {
        self.regs.set_data_r(v);
        set_matha(&mut self.regs);
    }

    fn sc(&mut self, v: u16) {
        self.regs.set_data_r(v);
        set_mathc(&mut self.regs);
    }

    fn se(&mut self, v: u16) {
        self.regs.set_data_r(v);
        set_mathe(&mut self.regs);
    }

    fn sm(&mut self, v: u16) {
        self.regs.set_data_r(v);
        set_mathm(&mut self.regs);
    }

    fn sab(&mut self, v: u16) {
        self.regs.set_data(MATHB, (v & 0xFF) as u8);
        self.sa(v >> 8);
    }

    fn scd(&mut self, v: u16) {
        self.regs.set_data(MATHD, (v & 0xFF) as u8);
        self.sc(v >> 8);
    }

    fn snp(&mut self, v: u16) {
        self.regs.set_data(MATHP, (v & 0xFF) as u8);
        self.regs.set_data(MATHN, (v >> 8) as u8);
    }

    fn sjklm(&mut self, v: u32) {
        self.sm((v & 0xFF) as u16);
        self.regs.set_data(MATHL, ((v >> 8) & 0xFF) as u8);
        self.regs.set_data(MATHK, ((v >> 16) & 0xFF) as u8);
        self.regs.set_data(MATHJ, ((v >> 24) & 0xFF) as u8);
    }

    fn sefgh(&mut self, v: u32) {
        self.regs.set_data(MATHH, (v & 0xFF) as u8);
        self.regs.set_data(MATHG, ((v >> 8) & 0xFF) as u8);
        self.regs.set_data(MATHF, ((v >> 16) & 0xFF) as u8);
        self.se(((v >> 24) & 0xFF) as u16);
    }

    fn tjklm(&self, v: u32, cy: bool, wn: bool) {
        assert!(v == self.regs.jklm());
        assert!(self.cy() == cy);
        assert!(self.wn() == wn);
    }

    fn mult_t(&mut self, ab: u16, cd: u16, exp: u32) {
        self.sab(ab);
        self.scd(cd);
        self.mult();
        assert!(self.regs.efgh() == exp);
    }

    fn div_t(&mut self, efgh: u32, np: u32) {
        let div = if np == 0 { u32::MAX } else { efgh / np };
        let mo = if np == 0 { 0 } else { efgh % np };
        self.sefgh(efgh);
        self.snp(np as u16);
        self.div();
        assert!(self.regs.abcd() == div);
        assert!(self.regs.jklm() == mo);
    }
}

#[test]
fn mult() {
    let mut m = TestCore::new();

    m.mult_t(0, 0, 0);
    m.mult_t(10, 0, 0);
    m.mult_t(0, 10, 0);
    m.mult_t(512, 0, 0);
    m.mult_t(0, 2048, 0);
    m.mult_t(10, 10, 100);
    m.mult_t(100, 100, 100 * 100);
    m.mult_t(12, 256, 12 * 256);
    m.mult_t(512, 256, 512 * 256);
    m.mult_t(347, 5420, 347 * 5420);
}

#[test]
fn mult_accumulator() {
    let mut m = TestCore::new();

    m.acc();

    assert!(0xffff_ffff == m.regs.jklm());

    m.sjklm(0);
    assert!(0 == m.regs.jklm());

    m.mult_t(10, 10, 100);
    m.tjklm(100, false, false);
    m.mult_t(100, 100, 100 * 100);
    m.tjklm(10100, false, false);
    m.mult_t(12, 256, 12 * 256);
    m.tjklm(13172, false, false);
    m.mult_t(512, 256, 512 * 256);
    m.tjklm(144_244, false, false);
    m.mult_t(347, 5420, 347 * 5420);
    m.tjklm(2_024_984, false, false);
    m.mult_t(16000, 35002, 16000 * 35002);
    m.tjklm(562_056_984, false, false);
    m.mult_t(50800, 35002, 50800 * 35002);
    m.tjklm(2_340_158_584, false, false);
    m.mult_t(50800, 45002, 50800_u32 * 45002_u32);
    m.tjklm(331_292_888, true, true);
    m.mult_t(12, 256, 12 * 256);
    m.tjklm(3072 + 331_292_888, false, false);
}

#[test]
fn mult_signed() {
    let mut m = TestCore::new();

    m.signed();

    m.mult_t(0, 0, 0);
    m.mult_t(10, 0, 0);
    m.mult_t(0, 10, 0);
    m.mult_t(512, 0, 0);
    m.mult_t(0, 2048, 0);
    m.mult_t(10, 10, 100);
    m.mult_t(100, 100, 100 * 100);
    m.mult_t(12, 256, 12 * 256);
    m.mult_t(512, 256, 512 * 256);
    m.mult_t(347, 5420, 347 * 5420);

    m.mult_t(0, -10_i16 as u16, 0);
    m.mult_t(-10_i16 as u16, 0, 0);
    m.mult_t(10, -10_i16 as u16, -100_i32 as u32);
    m.mult_t(-10_i16 as u16, -10_i16 as u16, 100);
    m.mult_t(-10_i16 as u16, 10, -100_i32 as u32);
    m.mult_t(512, -512_i16 as u16, (-512_i32 * 512) as u32);
    m.mult_t(-10_i16 as u16, -2048_i16 as u16, 20480_i32 as u32);
    m.mult_t(-768_i16 as u16, 10, -7680_i32 as u32);
    m.mult_t(-23768_i16 as u16, -23768_i16 as u16, (-23768_i32 * -23768) as u32);
    m.mult_t(-22768_i16 as u16, 23768_i16 as u16, (22768_i32 * -23768) as u32);
}

#[test]
fn div() {
    let mut m = TestCore::new();

    m.div_t(0_u32, 10_u32);
    m.div_t(0_u32, 5310_u32);
    m.div_t(200_u32, 10_u32);
    m.div_t(56740_u32, 24355_u32);
    m.div_t(1234_u32, 2_u32);
    m.div_t(12_u32, 512_u32);
    m.div_t(65535_u32, 512_u32);
    m.div_t(65535_u32, 2_u32);
    m.div_t(65535_u32, 65535_u32);
}

#[test]
fn div_0() {
    let mut m = TestCore::new();

    m.div_t(0_u32, 10_u32);
    m.div_t(456_u32, 0_u32);
    assert!(m.wn());
    assert!(m.cy());
    m.div_t(0_u32, 10_u32);
    assert!(!m.wn());
    assert!(!m.cy());
}
