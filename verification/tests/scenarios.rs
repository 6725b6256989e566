use rsp_vu::cop2::{CpuContext, SpCop2};
use rsp_vu::error::Cop2Error;

fn unit() -> (SpCop2, CpuContext) {
    (SpCop2::new("rsp").unwrap(), CpuContext { regs: [0; 32] })
}

fn lanes(l: [u16; 8]) -> u128 {
    let mut v: u128 = 0;
    for x in l {
        v = (v << 16) | x as u128;
    }
    v
}

fn lane(v: u128, i: usize) -> u16 {
    (v >> (16 * (7 - i))) as u16
}

fn vu(func: u32, vd: u32, vs: u32, vt: u32, e: u32) -> u32 {
    (0x12 << 26) | (1 << 25) | (e << 21) | (vt << 16) | (vs << 11) | (vd << 6) | func
}

fn mv(sub: u32, rt: u32, vs: u32, element: u32) -> u32 {
    (0x12 << 26) | (sub << 21) | (rt << 16) | (vs << 11) | (element << 7)
}

fn lwc2(base: u32, vt: u32, op: u32, element: u32, offset: u32) -> u32 {
    (0x32 << 26) | (base << 21) | (vt << 16) | (op << 11) | (element << 7) | (offset & 0x7F)
}

fn swc2(base: u32, vt: u32, op: u32, element: u32, offset: u32) -> u32 {
    (0x3A << 26) | (base << 21) | (vt << 16) | (op << 11) | (element << 7) | (offset & 0x7F)
}

fn flags_are_masks(c: &SpCop2) -> bool {
    let regs = [
        c.ctx.vco_carry,
        c.ctx.vco_ne,
        c.ctx.vce,
        c.ctx.vcc_normal,
        c.ctx.vcc_clip,
    ];
    regs.iter().all(|r| (0..8).all(|i| r.lane(i) == 0 || r.lane(i) == 0xFFFF))
}

#[test]
fn vadd_saturates_with_carry() {
    let (mut c, mut cpu) = unit();
    c.set_reg(1, lanes([0x8000; 8]));
    c.set_reg(2, lanes([0x8000; 8]));
    c.set_reg(32, 0x00FF);
    assert_eq!(c.op(&mut cpu, vu(0x10, 3, 1, 2, 0)), Ok(()));
    assert_eq!(c.reg(3), lanes([0x8000; 8]));
    assert_eq!(c.reg(35), lanes([0x0001; 8]));
    assert_eq!(c.reg(32), 0);
}

#[test]
fn vmulf_rounds_the_doubled_product() {
    let (mut c, mut cpu) = unit();
    c.set_reg(1, lanes([0x4000, 0, 0, 0, 0, 0, 0, 0]));
    c.set_reg(2, lanes([0x7FFF, 0, 0, 0, 0, 0, 0, 0]));
    assert_eq!(c.op(&mut cpu, vu(0x00, 3, 1, 2, 0)), Ok(()));
    // 2 * 0x4000 * 0x7FFF + 0x8000 = 0x4000_0000
    assert_eq!(lane(c.reg(3), 0), 0x4000);
    assert_eq!(lane(c.reg(37), 0), 0x0000);
    assert_eq!(lane(c.reg(36), 0), 0x4000);
    assert_eq!(lane(c.reg(35), 0), 0x0000);
    // the other lanes hold the rounding bias alone
    assert_eq!(lane(c.reg(3), 1), 0);
    assert_eq!(lane(c.reg(36), 1), 0);
    assert_eq!(lane(c.reg(35), 1), 0x8000);
}

#[test]
fn vmulf_without_rounding_carry() {
    let (mut c, mut cpu) = unit();
    c.set_reg(1, lanes([0x4000, 0, 0, 0, 0, 0, 0, 0]));
    c.set_reg(2, lanes([0x7FFE, 0, 0, 0, 0, 0, 0, 0]));
    assert_eq!(c.op(&mut cpu, vu(0x00, 3, 1, 2, 0)), Ok(()));
    // 2 * 0x4000 * 0x7FFE + 0x8000 = 0x3FFF_8000
    assert_eq!(lane(c.reg(3), 0), 0x3FFF);
    assert_eq!(lane(c.reg(36), 0), 0x3FFF);
    assert_eq!(lane(c.reg(35), 0), 0x8000);
}

#[test]
fn vrcp_single_precision() {
    let (mut c, mut cpu) = unit();
    c.set_reg(2, lanes([0x0002, 0, 0, 0, 0, 0, 0, 0]));
    assert_eq!(c.op(&mut cpu, vu(0x30, 3, 0, 2, 0)), Ok(()));
    // two leading bits short of the top: (0x1FFFF << 14) >> 1
    assert_eq!(c.ctx.div_out, 0x3FFF_E000);
    assert_eq!(lane(c.reg(3), 0), 0xE000);
    assert_eq!(c.reg(35), c.reg(2));
    assert_eq!(c.ctx.div_in, None);
}

#[test]
fn vrcp_leaves_a_pending_high_half() {
    let (mut c, mut cpu) = unit();
    c.set_reg(2, lanes([0x0001, 0x0002, 0, 0, 0, 0, 0, 0]));
    assert_eq!(c.op(&mut cpu, vu(0x32, 3, 0, 2, 0)), Ok(()));
    assert_eq!(c.ctx.div_in, Some(0x0001_0000));
    assert_eq!(c.op(&mut cpu, vu(0x30, 3, 0, 2, 1)), Ok(()));
    assert_eq!(c.ctx.div_in, Some(0x0001_0000));
    assert_eq!(c.ctx.div_out, 0x3FFF_E000);
}

#[test]
fn vrcph_then_vrcpl() {
    let (mut c, mut cpu) = unit();
    c.ctx.div_out = 0xABCD_1234;
    c.set_reg(2, lanes([0x0001, 0x0000, 0, 0, 0, 0, 0, 0]));
    // VRCPH reads lane 0 and writes lane 5 of v3
    assert_eq!(c.op(&mut cpu, vu(0x32, 3, 5, 2, 0)), Ok(()));
    assert_eq!(lane(c.reg(3), 5), 0xABCD);
    assert_eq!(c.ctx.div_in, Some(0x0001_0000));
    assert_eq!(c.ctx.div_out, 0xABCD_1234);
    // VRCPL reads lane 1 and writes lane 6 of v3
    assert_eq!(c.op(&mut cpu, vu(0x31, 3, 6, 2, 1)), Ok(()));
    assert_eq!(c.ctx.div_out, rsp_vu::vrcp::vrcp(0x0001_0000));
    assert_eq!(c.ctx.div_out, 0x0000_7FFF);
    assert_eq!(lane(c.reg(3), 6), 0x7FFF);
    assert_eq!(c.ctx.div_in, None);
}

#[test]
fn vrcpl_without_high_half_sign_extends() {
    let (mut c, mut cpu) = unit();
    c.set_reg(2, lanes([0xFFFE, 0, 0, 0, 0, 0, 0, 0]));
    assert_eq!(c.op(&mut cpu, vu(0x31, 3, 0, 2, 0)), Ok(()));
    assert_eq!(c.ctx.div_out, rsp_vu::vrcp::vrcp(0xFFFF_FFFE));
    assert_eq!(c.ctx.div_in, None);
}

#[test]
fn vrsqh_then_vrsql() {
    let (mut c, mut cpu) = unit();
    c.set_reg(2, lanes([0x0123, 0x4567, 0, 0, 0, 0, 0, 0]));
    assert_eq!(c.op(&mut cpu, vu(0x36, 3, 0, 2, 0)), Ok(()));
    assert_eq!(c.ctx.div_in, Some(0x0123_0000));
    assert_eq!(c.op(&mut cpu, vu(0x35, 3, 1, 2, 1)), Ok(()));
    assert_eq!(c.ctx.div_out, rsp_vu::vrcp::vrsq(0x0123_4567));
    assert_eq!(lane(c.reg(3), 1), rsp_vu::vrcp::vrsq(0x0123_4567) as u16);
    assert_eq!(c.ctx.div_in, None);
}

#[test]
fn lqv_then_sqv_round_trip() {
    let (mut c, mut cpu) = unit();
    let mut dmem = vec![0u8; 0x1010];
    for i in 0..16 {
        dmem[i] = (i * 0x11) as u8;
    }
    let before = dmem.clone();
    cpu.regs[4] = 0;
    assert_eq!(c.lwc(lwc2(4, 1, 4, 0, 0), &cpu, &mut dmem), Ok(()));
    assert_eq!(c.reg(1), 0x0011_2233_4455_6677_8899_AABB_CCDD_EEFF);
    assert_eq!(c.swc(swc2(4, 1, 4, 0, 0), &cpu, &mut dmem), Ok(()));
    assert_eq!(dmem, before);
}

#[test]
fn sqv_then_lqv_round_trip() {
    let (mut c, mut cpu) = unit();
    let mut dmem = vec![0x5Au8; 0x1010];
    cpu.regs[4] = 0x230;
    let v: u128 = 0x0123_4567_89AB_CDEF_1032_5476_98BA_DCFE;
    c.set_reg(9, v);
    assert_eq!(c.swc(swc2(4, 9, 4, 0, 2), &cpu, &mut dmem), Ok(()));
    assert_eq!(dmem[0x250], 0x01);
    assert_eq!(dmem[0x25F], 0xFE);
    assert_eq!(dmem[0x24F], 0x5A);
    assert_eq!(dmem[0x260], 0x5A);
    c.set_reg(9, 0);
    assert_eq!(c.lwc(lwc2(4, 9, 4, 0, 2), &cpu, &mut dmem), Ok(()));
    assert_eq!(c.reg(9), v);
}

#[test]
fn ltv_then_stv_transposes_back() {
    let (mut c, mut cpu) = unit();
    let mut dmem = vec![0u8; 0x1010];
    for i in 0..16 {
        dmem[i] = (0xA0 + i) as u8;
    }
    cpu.regs[4] = 0;
    assert_eq!(c.lwc(lwc2(4, 8, 11, 0, 0), &cpu, &mut dmem), Ok(()));
    for k in 0..8usize {
        let expect = ((0xA0 + 2 * k) << 8 | (0xA1 + 2 * k)) as u16;
        assert_eq!(lane(c.reg(8 + k), k), expect);
    }
    assert_eq!(c.swc(swc2(4, 8, 11, 0, 1), &cpu, &mut dmem), Ok(()));
    assert_eq!(dmem[0x10..0x20], dmem[0x00..0x10]);
}

#[test]
fn sdv_then_ldv_gives_the_register_back() {
    for element in 0..16u32 {
        for base in [0x100u64, 0xFFC, 0xFF9, 0x7] {
            let (mut c, mut cpu) = unit();
            let mut dmem = vec![0u8; 0x1010];
            cpu.regs[7] = base;
            let v: u128 = 0x0123_4567_89AB_CDEF_1032_5476_98BA_DCFE;
            c.set_reg(20, v);
            assert_eq!(c.swc(swc2(7, 20, 3, element, 0), &cpu, &mut dmem), Ok(()));
            assert_eq!(c.lwc(lwc2(7, 20, 3, element, 0), &cpu, &mut dmem), Ok(()));
            assert_eq!(c.reg(20), v);
        }
    }
}

#[test]
fn ldv_goes_on_at_byte_zero() {
    let (mut c, mut cpu) = unit();
    let mut dmem = vec![0u8; 0x1010];
    for i in 0..8 {
        dmem[0x40 + i] = (0xB0 + i) as u8;
    }
    cpu.regs[1] = 0x40;
    c.set_reg(2, 0x1111_1111_1111_1111_1111_1111_1111_1111);
    assert_eq!(c.lwc(lwc2(1, 2, 3, 12, 0), &cpu, &mut dmem), Ok(()));
    assert_eq!(c.reg(2), 0xB4B5_B6B7_1111_1111_1111_1111_B0B1_B2B3);
}

#[test]
fn lqv_leaves_what_follows_the_loaded_bytes() {
    let (mut c, mut cpu) = unit();
    let mut dmem = vec![0u8; 0x1010];
    for i in 0..32 {
        dmem[0x20 + i] = (0xC0 + i) as u8;
    }
    cpu.regs[1] = 0x2C;
    c.set_reg(2, 0x1111_1111_1111_1111_1111_1111_1111_1111);
    // four bytes lie between 0x2C and the boundary at 0x30
    assert_eq!(c.lwc(lwc2(1, 2, 4, 2, 0), &cpu, &mut dmem), Ok(()));
    assert_eq!(c.reg(2), 0x1111_CCCD_CECF_1111_1111_1111_1111_1111);
    // near the end of the register the bytes beyond byte 15 are not loaded
    c.set_reg(3, 0x2222_2222_2222_2222_2222_2222_2222_2222);
    assert_eq!(c.lwc(lwc2(1, 3, 4, 14, 0), &cpu, &mut dmem), Ok(()));
    assert_eq!(c.reg(3), 0x2222_2222_2222_2222_2222_2222_2222_CCCD);
    // an aligned address fills the register from the element on
    cpu.regs[1] = 0x20;
    c.set_reg(4, 0x3333_3333_3333_3333_3333_3333_3333_3333);
    assert_eq!(c.lwc(lwc2(1, 4, 4, 3, 0), &cpu, &mut dmem), Ok(()));
    assert_eq!(c.reg(4), 0x3333_33C0_C1C2_C3C4_C5C6_C7C8_C9CA_CBCC);
}

#[test]
fn sdv_wraps_at_the_end_of_the_scratchpad() {
    let (mut c, mut cpu) = unit();
    let mut dmem = vec![0xEEu8; 0x1010];
    cpu.regs[1] = 0xFFC;
    c.set_reg(2, 0x0102_0304_0506_0708_090A_0B0C_0D0E_0F10);
    assert_eq!(c.swc(swc2(1, 2, 3, 0, 0), &cpu, &mut dmem), Ok(()));
    assert_eq!(dmem[0xFFC..0x1000], [1, 2, 3, 4]);
    assert_eq!(dmem[0..4], [5, 6, 7, 8]);
    assert_eq!(dmem[4], 0xEE);
    assert_eq!(dmem[0x1000..0x1010], [0xEE; 16]);
}

#[test]
fn ldv_refreshes_the_mirror_where_it_straddles() {
    let (mut c, mut cpu) = unit();
    let mut dmem = vec![0u8; 0x1010];
    for i in 0..0x1000 {
        dmem[i] = (i % 251) as u8;
    }
    cpu.regs[1] = 0xFFC;
    assert_eq!(c.lwc(lwc2(1, 2, 3, 0, 0), &cpu, &mut dmem), Ok(()));
    assert_eq!(dmem[0x1000..0x1010], dmem[0..16]);
    let got = c.reg(2).to_be_bytes();
    assert_eq!(got[0..4], dmem[0xFFC..0x1000]);
    assert_eq!(got[4..8], dmem[0..4]);
    cpu.regs[1] = 0x100;
    let mut other = vec![0u8; 0x1010];
    other[3] = 9;
    assert_eq!(c.lwc(lwc2(1, 2, 3, 0, 0), &cpu, &mut other), Ok(()));
    assert_eq!(other[0x1003], 0);
}

#[test]
fn negative_offset_counts_units() {
    let (mut c, mut cpu) = unit();
    let mut dmem = vec![0u8; 0x1010];
    dmem[0x0F0] = 0x77;
    cpu.regs[3] = 0x100;
    // LQV with offset -1 reads from 0x100 - 16
    assert_eq!(c.lwc(lwc2(3, 5, 4, 0, 0x7F), &cpu, &mut dmem), Ok(()));
    assert_eq!(c.reg(5) >> 120, 0x77);
    // LBV with offset -16 reads the same byte
    c.set_reg(5, 0);
    assert_eq!(c.lwc(lwc2(3, 5, 0, 0, 0x70), &cpu, &mut dmem), Ok(()));
    assert_eq!(c.reg(5) >> 120, 0x77);
}

#[test]
fn sfv_writes_zero_for_the_other_elements() {
    for element in [1u32, 2, 3, 5, 6, 7, 9, 10, 13, 14] {
        let (c, mut cpu) = {
            let (mut c, cpu) = unit();
            c.set_reg(3, lanes([0xFFFF; 8]));
            (c, cpu)
        };
        let mut dmem = vec![0xEEu8; 0x1010];
        cpu.regs[1] = 0x80;
        assert_eq!(c.swc(swc2(1, 3, 9, element, 0), &cpu, &mut dmem), Ok(()));
        assert_eq!(dmem[0x80], 0);
        assert_eq!(dmem[0x84], 0);
        assert_eq!(dmem[0x88], 0);
        assert_eq!(dmem[0x8C], 0);
        assert_eq!(dmem[0x81], 0xEE);
    }
}

#[test]
fn veq_sets_the_compare_flags() {
    let (mut c, mut cpu) = unit();
    c.set_reg(1, lanes([1, 2, 3, 4, 5, 6, 7, 8]));
    c.set_reg(2, lanes([1, 0, 3, 0, 5, 0, 7, 0]));
    assert_eq!(c.op(&mut cpu, vu(0x21, 3, 1, 2, 0)), Ok(()));
    assert_eq!(c.reg(33), 0b0101_0101);
    for i in 0..8 {
        assert_eq!(c.ctx.vcc_normal.lane(i), if i % 2 == 0 { 0xFFFF } else { 0 });
        assert_eq!(c.ctx.vcc_clip.lane(i), 0);
    }
    assert_eq!(c.reg(3), lanes([1, 0, 3, 0, 5, 0, 7, 0]));
}

#[test]
fn vaddc_then_vsubc_restores_the_operand() {
    let (mut c, mut cpu) = unit();
    let vs = lanes([0xFFFF, 0x8000, 0x7FFF, 0, 1, 0x1234, 0xFFFE, 0x8001]);
    c.set_reg(1, vs);
    c.set_reg(2, lanes([1, 0x8000, 0x7FFF, 0xFFFF, 0xFFFF, 0xEDCC, 2, 0x8001]));
    assert_eq!(c.op(&mut cpu, vu(0x14, 3, 1, 2, 0)), Ok(()));
    assert_eq!(c.reg(3), lanes([0, 0, 0xFFFE, 0xFFFF, 0, 0, 0, 2]));
    assert_eq!(c.reg(32), 0b1111_0011);
    assert_eq!(c.op(&mut cpu, vu(0x15, 4, 3, 2, 0)), Ok(()));
    assert_eq!(c.reg(4), vs);
}

#[test]
fn flags_stay_masks_after_every_opcode() {
    let (mut c, mut cpu) = unit();
    let mut dmem = vec![0u8; 0x1010];
    let mut seed: u32 = 12345;
    for r in 0..32 {
        seed = seed.wrapping_mul(1664525).wrapping_add(1013904223);
        let hi = seed as u128;
        c.set_reg(r, (hi << 96) | (hi << 64) ^ (hi << 33) | hi.rotate_left(7));
    }
    for _ in 0..4000 {
        seed = seed.wrapping_mul(1664525).wrapping_add(1013904223);
        let op = seed ^ (seed >> 13);
        cpu.regs[((op >> 16) & 31) as usize] = (seed as u64) << 3 ^ 0x9E37;
        let _ = c.op(&mut cpu, op);
        let _ = c.lwc(op, &cpu, &mut dmem);
        let _ = c.swc(op, &cpu, &mut dmem);
        assert!(flags_are_masks(&c));
    }
}

#[test]
fn unknown_function_is_refused() {
    let (mut c, mut cpu) = unit();
    c.set_reg(3, 7);
    for func in [0x02u32, 0x03, 0x0A, 0x0B, 0x12, 0x16, 0x18, 0x1A, 0x1E, 0x2E, 0x38, 0x3E] {
        assert_eq!(c.op(&mut cpu, vu(func, 3, 1, 2, 0)), Err(Cop2Error::UnknownFunction(func)));
    }
    assert_eq!(c.reg(3), 7);
}

#[test]
fn vnop_and_vnull_do_nothing() {
    let (mut c, mut cpu) = unit();
    c.set_reg(3, 7);
    c.set_reg(35, 9);
    c.set_reg(32, 0x1234);
    assert_eq!(c.op(&mut cpu, vu(0x37, 3, 1, 2, 0)), Ok(()));
    assert_eq!(c.op(&mut cpu, vu(0x3F, 3, 1, 2, 0)), Ok(()));
    assert_eq!(c.reg(3), 7);
    assert_eq!(c.reg(35), 9);
    assert_eq!(c.reg(32), 0x1234);
}

#[test]
fn vsar_reads_the_accumulator() {
    let (mut c, mut cpu) = unit();
    c.set_reg(35, 0x1111);
    c.set_reg(36, 0x2222);
    c.set_reg(37, 0x3333);
    c.set_reg(3, 5);
    assert_eq!(c.op(&mut cpu, vu(0x1D, 3, 0, 0, 8)), Ok(()));
    assert_eq!(c.reg(3), 0x3333);
    assert_eq!(c.op(&mut cpu, vu(0x1D, 3, 0, 0, 9)), Ok(()));
    assert_eq!(c.reg(3), 0x2222);
    assert_eq!(c.op(&mut cpu, vu(0x1D, 3, 0, 0, 10)), Ok(()));
    assert_eq!(c.reg(3), 0x1111);
    for e in 0..3 {
        c.set_reg(3, 5);
        assert_eq!(c.op(&mut cpu, vu(0x1D, 3, 0, 0, e)), Ok(()));
        assert_eq!(c.reg(3), 0);
    }
    assert_eq!(c.reg(35), 0x1111);
    assert_eq!(c.reg(36), 0x2222);
    assert_eq!(c.reg(37), 0x3333);
}

#[test]
fn vsar_refuses_other_elements() {
    let (mut c, mut cpu) = unit();
    c.set_reg(3, 5);
    for e in [3u32, 4, 5, 6, 7, 11, 12, 13, 14, 15] {
        assert_eq!(c.op(&mut cpu, vu(0x1D, 3, 0, 0, e)), Err(Cop2Error::InvalidElement(e)));
    }
    assert_eq!(c.reg(3), 5);
}

#[test]
fn unknown_move_is_refused() {
    let (mut c, mut cpu) = unit();
    cpu.regs[5] = 99;
    for sub in [1u32, 3, 5, 7, 8, 15] {
        assert_eq!(c.op(&mut cpu, mv(sub, 5, 1, 0)), Err(Cop2Error::UnknownMove(sub, 1)));
    }
    assert_eq!(c.op(&mut cpu, mv(2, 5, 3, 0)), Err(Cop2Error::UnknownMove(2, 3)));
    assert_eq!(c.op(&mut cpu, mv(6, 5, 31, 0)), Err(Cop2Error::UnknownMove(6, 31)));
    assert_eq!(cpu.regs[5], 99);
}

#[test]
fn unimplemented_transfers_are_refused() {
    let (mut c, cpu) = unit();
    let mut dmem = vec![3u8; 0x1010];
    c.set_reg(1, 77);
    assert_eq!(c.lwc(lwc2(0, 1, 10, 0, 0), &cpu, &mut dmem), Err(Cop2Error::UnimplementedTransfer(10)));
    for op in 12..32 {
        assert_eq!(c.lwc(lwc2(0, 1, op, 0, 0), &cpu, &mut dmem), Err(Cop2Error::UnimplementedTransfer(op)));
        assert_eq!(c.swc(swc2(0, 1, op, 0, 0), &cpu, &mut dmem), Err(Cop2Error::UnimplementedTransfer(op)));
    }
    assert_eq!(c.reg(1), 77);
    assert_eq!(dmem, vec![3u8; 0x1010]);
}

#[test]
fn mfc2_reads_two_bytes_sign_extended() {
    let (mut c, mut cpu) = unit();
    c.set_reg(7, 0x0011_2233_4455_6677_8899_AABB_CCDD_EEFF);
    assert_eq!(c.op(&mut cpu, mv(0, 9, 7, 0)), Ok(()));
    assert_eq!(cpu.regs[9], 0x0011);
    assert_eq!(c.op(&mut cpu, mv(0, 9, 7, 9)), Ok(()));
    assert_eq!(cpu.regs[9], 0xFFFF_FFFF_FFFF_99AA);
    assert_eq!(c.op(&mut cpu, mv(0, 9, 7, 15)), Ok(()));
    assert_eq!(cpu.regs[9], 0xFFFF_FFFF_FFFF_FF00);
}

#[test]
fn mtc2_writes_two_bytes() {
    let (mut c, mut cpu) = unit();
    cpu.regs[9] = 0x1234_5678_9ABC_DEF0;
    assert_eq!(c.op(&mut cpu, mv(4, 9, 7, 3)), Ok(()));
    assert_eq!(c.reg(7), 0x0000_00DE_F000_0000_0000_0000_0000_0000);
    assert_eq!(c.op(&mut cpu, mv(4, 9, 7, 15)), Ok(()));
    assert_eq!(c.reg(7), 0x0000_00DE_F000_0000_0000_0000_0000_00DE);
}

#[test]
fn cfc2_and_ctc2_move_the_flag_registers() {
    let (mut c, mut cpu) = unit();
    cpu.regs[1] = 0xFFFF_FFFF_0000_8421;
    cpu.regs[2] = 0x7C3A;
    cpu.regs[3] = 0x1A5;
    assert_eq!(c.op(&mut cpu, mv(6, 1, 0, 0)), Ok(()));
    assert_eq!(c.op(&mut cpu, mv(6, 2, 1, 0)), Ok(()));
    assert_eq!(c.op(&mut cpu, mv(6, 3, 2, 0)), Ok(()));
    assert_eq!(c.reg(32), 0x8421);
    assert_eq!(c.reg(33), 0x7C3A);
    assert_eq!(c.reg(34), 0xA5);
    assert_eq!(c.op(&mut cpu, mv(2, 10, 0, 0)), Ok(()));
    assert_eq!(c.op(&mut cpu, mv(2, 11, 1, 0)), Ok(()));
    assert_eq!(c.op(&mut cpu, mv(2, 12, 2, 0)), Ok(()));
    assert_eq!(cpu.regs[10], 0xFFFF_FFFF_FFFF_8421);
    assert_eq!(cpu.regs[11], 0x7C3A);
    assert_eq!(cpu.regs[12], 0xA5);
    assert!(flags_are_masks(&c));
}

#[test]
fn element_selector_patterns() {
    let src = [0x10u16, 0x11, 0x12, 0x13, 0x14, 0x15, 0x16, 0x17];
    let expect: [[u16; 8]; 16] = [
        [0x10, 0x11, 0x12, 0x13, 0x14, 0x15, 0x16, 0x17],
        [0x10, 0x11, 0x12, 0x13, 0x14, 0x15, 0x16, 0x17],
        [0x10, 0x10, 0x12, 0x12, 0x14, 0x14, 0x16, 0x16],
        [0x11, 0x11, 0x13, 0x13, 0x15, 0x15, 0x17, 0x17],
        [0x10, 0x10, 0x10, 0x10, 0x14, 0x14, 0x14, 0x14],
        [0x11, 0x11, 0x11, 0x11, 0x15, 0x15, 0x15, 0x15],
        [0x12, 0x12, 0x12, 0x12, 0x16, 0x16, 0x16, 0x16],
        [0x13, 0x13, 0x13, 0x13, 0x17, 0x17, 0x17, 0x17],
        [0x10; 8],
        [0x11; 8],
        [0x12; 8],
        [0x13; 8],
        [0x14; 8],
        [0x15; 8],
        [0x16; 8],
        [0x17; 8],
    ];
    for e in 0..16u32 {
        let (mut c, mut cpu) = unit();
        c.set_reg(2, lanes(src));
        // VOR with a zero first operand shows the second operand as the lanes see it
        assert_eq!(c.op(&mut cpu, vu(0x2A, 3, 1, 2, e)), Ok(()));
        assert_eq!(c.reg(3), lanes(expect[e as usize]));
    }
}

#[test]
fn vmov_copies_one_lane() {
    let (mut c, mut cpu) = unit();
    let vt = [0x10u16, 0x11, 0x12, 0x13, 0x14, 0x15, 0x16, 0x17];
    c.set_reg(2, lanes(vt));
    c.set_reg(3, lanes([0xAAAA; 8]));
    // element 10 names lane 2; the destination lane is given by the vs field
    assert_eq!(c.op(&mut cpu, vu(0x33, 3, 5, 2, 10)), Ok(()));
    assert_eq!(c.reg(3), lanes([0xAAAA, 0xAAAA, 0xAAAA, 0xAAAA, 0xAAAA, 0x12, 0xAAAA, 0xAAAA]));
    assert_eq!(c.reg(35), lanes(vt));
    // element 3 picks the odd lane of the pair of the destination lane
    assert_eq!(c.op(&mut cpu, vu(0x33, 3, 6, 2, 3)), Ok(()));
    assert_eq!(lane(c.reg(3), 6), 0x17);
    // element 5 picks lane 1 of the half of the destination lane
    assert_eq!(c.op(&mut cpu, vu(0x33, 3, 2, 2, 5)), Ok(()));
    assert_eq!(lane(c.reg(3), 2), 0x11);
}

#[test]
fn vch_then_vcl_clips() {
    let (mut c, mut cpu) = unit();
    c.set_reg(1, lanes([0x0005, 0xFFFB, 0x0005, 0xFFF0, 0x7FFF, 0x8000, 0x0000, 0xFFFF]));
    c.set_reg(2, lanes([0x0003, 0x0003, 0x0007, 0x0007, 0x8000, 0x8000, 0x0000, 0x0000]));
    assert_eq!(c.op(&mut cpu, vu(0x25, 3, 1, 2, 0)), Ok(()));
    assert_eq!(c.reg(3), lanes([0x0003, 0xFFFD, 0x0005, 0xFFF9, 0x8000, 0x8000, 0x0000, 0x0000]));
    assert_eq!(c.reg(35), c.reg(3));
    assert_eq!(c.reg(32), 0x0F9A);
    assert_eq!(c.reg(33), 0x71BA);
    assert_eq!(c.reg(34), 0x90);
    assert_eq!(c.op(&mut cpu, vu(0x24, 4, 1, 2, 0)), Ok(()));
    assert_eq!(c.reg(4), c.reg(3));
    assert_eq!(c.reg(33), 0x71BA);
    assert_eq!(c.reg(32), 0);
    assert_eq!(c.reg(34), 0);
    assert!(flags_are_masks(&c));
}

#[test]
fn ltv_goes_on_at_the_start_of_the_scratchpad() {
    let (mut c, mut cpu) = unit();
    let mut dmem: Vec<u8> = (0..0x1010usize).map(|i| ((i * 13 + 5) & 0xFF) as u8).collect();
    cpu.regs[2] = 0xFF8;
    c.set_reg(16, lanes([0x1000, 0x1001, 0x1002, 0x1003, 0x1004, 0x1005, 0x1006, 0x1007]));
    c.set_reg(17, lanes([0x1100, 0x1101, 0x1102, 0x1103, 0x1104, 0x1105, 0x1106, 0x1107]));
    c.set_reg(18, lanes([0x1200, 0x1201, 0x1202, 0x1203, 0x1204, 0x1205, 0x1206, 0x1207]));
    c.set_reg(19, lanes([0x1300, 0x1301, 0x1302, 0x1303, 0x1304, 0x1305, 0x1306, 0x1307]));
    c.set_reg(20, lanes([0x1400, 0x1401, 0x1402, 0x1403, 0x1404, 0x1405, 0x1406, 0x1407]));
    c.set_reg(21, lanes([0x1500, 0x1501, 0x1502, 0x1503, 0x1504, 0x1505, 0x1506, 0x1507]));
    c.set_reg(22, lanes([0x1600, 0x1601, 0x1602, 0x1603, 0x1604, 0x1605, 0x1606, 0x1607]));
    c.set_reg(23, lanes([0x1700, 0x1701, 0x1702, 0x1703, 0x1704, 0x1705, 0x1706, 0x1707]));
    assert_eq!(c.lwc(lwc2(2, 19, 11, 6, 0), &cpu, &mut dmem), Ok(()));
    assert_eq!(c.reg(16), lanes([0x1000, 0x1001, 0x1002, 0x1003, 0x1004, 0x0512, 0x1006, 0x1007]));
    assert_eq!(c.reg(17), lanes([0x1100, 0x1101, 0x1102, 0x1103, 0x1104, 0x1105, 0x1F2C, 0x1107]));
    assert_eq!(c.reg(18), lanes([0x1200, 0x1201, 0x1202, 0x1203, 0x1204, 0x1205, 0x1206, 0x3946]));
    assert_eq!(c.reg(19), lanes([0x5360, 0x1301, 0x1302, 0x1303, 0x1304, 0x1305, 0x1306, 0x1307]));
    assert_eq!(c.reg(20), lanes([0x1400, 0x9DAA, 0x1402, 0x1403, 0x1404, 0x1405, 0x1406, 0x1407]));
    assert_eq!(c.reg(21), lanes([0x1500, 0x1501, 0xB7C4, 0x1503, 0x1504, 0x1505, 0x1506, 0x1507]));
    assert_eq!(c.reg(22), lanes([0x1600, 0x1601, 0x1602, 0xD1DE, 0x1604, 0x1605, 0x1606, 0x1607]));
    assert_eq!(c.reg(23), lanes([0x1700, 0x1701, 0x1702, 0x1703, 0xEBF8, 0x1705, 0x1706, 0x1707]));
}

#[test]
fn stv_wraps_at_the_end_of_the_scratchpad() {
    let (mut c, mut cpu) = unit();
    let mut dmem = vec![0xEEu8; 0x1010];
    cpu.regs[2] = 0xFFB;
    c.set_reg(8, lanes([0x5274, 0x5375, 0x5476, 0x5577, 0x5678, 0x5779, 0x587A, 0x597B]));
    c.set_reg(9, lanes([0x5A7C, 0x5B7D, 0x5C7E, 0x5D7F, 0x5E80, 0x5F81, 0x6082, 0x6183]));
    c.set_reg(10, lanes([0x6284, 0x6385, 0x6486, 0x6587, 0x6688, 0x6789, 0x688A, 0x698B]));
    c.set_reg(11, lanes([0x6A8C, 0x6B8D, 0x6C8E, 0x6D8F, 0x6E90, 0x6F91, 0x7092, 0x7193]));
    c.set_reg(12, lanes([0x7294, 0x7395, 0x7496, 0x7597, 0x7698, 0x7799, 0x789A, 0x799B]));
    c.set_reg(13, lanes([0x7A9C, 0x7B9D, 0x7C9E, 0x7D9F, 0x7EA0, 0x7FA1, 0x80A2, 0x81A3]));
    c.set_reg(14, lanes([0x82A4, 0x83A5, 0x84A6, 0x85A7, 0x86A8, 0x87A9, 0x88AA, 0x89AB]));
    c.set_reg(15, lanes([0x8AAC, 0x8BAD, 0x8CAE, 0x8DAF, 0x8EB0, 0x8FB1, 0x90B2, 0x91B3]));
    assert_eq!(c.swc(swc2(2, 13, 11, 4, 0), &cpu, &mut dmem), Ok(()));
    let mut expect = vec![0xEEu8; 0x1010];
    expect[0x000] = 0x96;
    expect[0x001] = 0x7D;
    expect[0x002] = 0x9F;
    expect[0x003] = 0x86;
    expect[0x004] = 0xA8;
    expect[0x005] = 0x8F;
    expect[0x006] = 0xB1;
    expect[0x007] = 0x58;
    expect[0xFF8] = 0x7A;
    expect[0xFF9] = 0x61;
    expect[0xFFA] = 0x83;
    expect[0xFFB] = 0x62;
    expect[0xFFC] = 0x84;
    expect[0xFFD] = 0x6B;
    expect[0xFFE] = 0x8D;
    expect[0xFFF] = 0x74;
    assert_eq!(dmem, expect);
}

#[test]
fn swv_wraps_at_the_end_of_the_scratchpad() {
    let (mut c, mut cpu) = unit();
    let mut dmem = vec![0xEEu8; 0x1010];
    cpu.regs[2] = 0xFFD;
    c.set_reg(8, lanes([0x5274, 0x5375, 0x5476, 0x5577, 0x5678, 0x5779, 0x587A, 0x597B]));
    c.set_reg(9, lanes([0x5A7C, 0x5B7D, 0x5C7E, 0x5D7F, 0x5E80, 0x5F81, 0x6082, 0x6183]));
    c.set_reg(10, lanes([0x6284, 0x6385, 0x6486, 0x6587, 0x6688, 0x6789, 0x688A, 0x698B]));
    c.set_reg(11, lanes([0x6A8C, 0x6B8D, 0x6C8E, 0x6D8F, 0x6E90, 0x6F91, 0x7092, 0x7193]));
    c.set_reg(12, lanes([0x7294, 0x7395, 0x7496, 0x7597, 0x7698, 0x7799, 0x789A, 0x799B]));
    c.set_reg(13, lanes([0x7A9C, 0x7B9D, 0x7C9E, 0x7D9F, 0x7EA0, 0x7FA1, 0x80A2, 0x81A3]));
    c.set_reg(14, lanes([0x82A4, 0x83A5, 0x84A6, 0x85A7, 0x86A8, 0x87A9, 0x88AA, 0x89AB]));
    c.set_reg(15, lanes([0x8AAC, 0x8BAD, 0x8CAE, 0x8DAF, 0x8EB0, 0x8FB1, 0x90B2, 0x91B3]));
    assert_eq!(c.swc(swc2(2, 13, 10, 3, 0), &cpu, &mut dmem), Ok(()));
    let mut expect = vec![0xEEu8; 0x1010];
    expect[0x000] = 0x7D;
    expect[0x001] = 0x9F;
    expect[0x002] = 0x7E;
    expect[0x003] = 0xA0;
    expect[0x004] = 0x7F;
    expect[0x005] = 0xA1;
    expect[0x006] = 0x80;
    expect[0x007] = 0xA2;
    expect[0xFF8] = 0x81;
    expect[0xFF9] = 0xA3;
    expect[0xFFA] = 0x7A;
    expect[0xFFB] = 0x9C;
    expect[0xFFC] = 0x7B;
    expect[0xFFD] = 0x9D;
    expect[0xFFE] = 0x7C;
    expect[0xFFF] = 0x9E;
    assert_eq!(dmem, expect);
}
