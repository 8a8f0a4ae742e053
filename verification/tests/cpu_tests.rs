use emu8080::Cpu;
use emu8080::Flags;

#[test]
fn test_new_and_init() {
    let cpu = Cpu::new();
    let addr1: u16 = 0x0123;
    let addr2: u16 = 0x4567;
    let addr3: u16 = 0xFFFE;

    assert_eq!(cpu.get_pc(), 0);
    assert_eq!(cpu.read_memory(addr1), 0);
    assert_eq!(cpu.read_memory(addr2), 0);
    assert_eq!(cpu.read_memory(addr3), 0);
}

#[test]
fn test_load_rom_into_memory() {
    let mut cpu = Cpu::new();
    let mut rom: [u8; 0x7FF] = [0; 0x7FF];
    let addr1: usize = 0x1A3;
    let addr2: usize = 0x5C7;
    let val1: u8 = 0x5A;
    let val2: u8 = 0x3C;
    rom[addr1] = val1;
    rom[addr2] = val2;
    let start_addr: usize = 0;
    let loaded = cpu.load_rom_into_memory(start_addr, &rom);

    assert!(loaded.is_ok());
    assert_eq!(cpu.read_memory(addr1 as u16), val1);
    assert_eq!(cpu.read_memory(addr2 as u16), val2);
}

// opcode tests

#[test]
fn test_lxi_operation() {
    let mut cpu = Cpu::new();
    let opcode: u8 = 0x11;
    let rand_addr: u16 = 0x103;
    cpu.set_pc(rand_addr);
    cpu.write_memory(rand_addr, opcode);
    cpu.write_memory(rand_addr + 1, 0x3);
    cpu.write_memory(rand_addr + 2, 0x1);
    cpu.lxi_operation(opcode);

    assert_eq!(cpu.get_d(), 0x1);
    assert_eq!(cpu.get_e(), 0x3);
}

#[test]
fn test_stax_operation() {
    let mut cpu = Cpu::new();
    let acc_val: u8 = 0x7D;
    cpu.set_a(acc_val);
    cpu.set_b(0x3F);
    cpu.set_c(0x16);
    cpu.stax_operation(0x02);

    assert_eq!(cpu.read_memory(0x3F16), acc_val);
}

#[test]
fn test_inx_operation() {
    let mut cpu = Cpu::new();
    cpu.set_d(0x38);
    cpu.set_e(0xFF);
    cpu.inx_operation(0x13);

    assert_eq!(cpu.get_d(), 0x39);
    assert_eq!(cpu.get_e(), 0x0);
}

#[test]
fn test_inr_operation() {
    let mut cpu = Cpu::new();
    cpu.set_c(0x99);
    cpu.inr_operation(0x0C);

    assert_eq!(cpu.get_c(), 0x9A);
}

#[test]
fn test_dcr_operation() {
    let mut cpu = Cpu::new();
    cpu.set_h(0x3A);
    cpu.set_l(0x7C);
    cpu.write_memory(0x3A7C, 0x40);
    cpu.dcr_operation(0x35);

    assert_eq!(cpu.read_memory(0x3A7C), 0x3F);
}

#[test]
fn test_mvi_operation() {
    let mut cpu = Cpu::new();
    cpu.set_d(0xF4);
    cpu.write_memory(0x1, 0x36);
    cpu.mvi_operation(0x16);

    assert_eq!(cpu.get_d(), 0x36);
}

#[test]
fn test_dad_operation() {
    let mut cpu = Cpu::new();
    cpu.set_b(0x33);
    cpu.set_c(0x9F);
    cpu.set_h(0xA1);
    cpu.set_l(0x7B);
    cpu.dad_operation(0x09);

    assert_eq!(cpu.get_h(), 0xD5);
    assert_eq!(cpu.get_l(), 0x1A);
}

#[test]
fn test_ldax_operation() {
    let mut cpu = Cpu::new();
    cpu.set_d(0x93);
    cpu.set_e(0x8B);
    cpu.set_a(0xFF);
    let val: u8 = 0x34;
    cpu.write_memory(0x938B, val);
    cpu.ldax_operation(0x1A);

    assert_eq!(cpu.get_a(), val);
}

#[test]
fn test_add_operation() {
    let mut cpu = Cpu::new();
    let val: u8 = 0x2E;
    cpu.set_b(val);
    let acc_val: u8 = 0x6C;
    cpu.set_a(acc_val);
    cpu.add_operation(0x80);

    assert_eq!(cpu.get_a(), 0x9A);
    assert_eq!(cpu.flags().cy, false);
    assert_eq!(cpu.flags().z, false);
    assert_eq!(cpu.flags().p, true);
    assert_eq!(cpu.flags().s, true);
    assert_eq!(cpu.flags().ac, true);
}

#[test]
fn test_adc_operation_not_set() {
    let mut cpu = Cpu::new();
    let val: u8 = 0x3D;
    cpu.set_b(val);
    let acc_val: u8 = 0x42;
    cpu.set_a(acc_val);
    cpu.adc_operation(0x88);

    assert_eq!(cpu.get_a(), 0x7F);
    assert_eq!(cpu.flags().cy, false);
    assert_eq!(cpu.flags().z, false);
    assert_eq!(cpu.flags().p, false);
    assert_eq!(cpu.flags().s, false);
    assert_eq!(cpu.flags().ac, false);
}

#[test]
fn test_adc_operation_set() {
    let mut cpu = Cpu::new();
    cpu.set_flags(Flags { cy: true, ..cpu.flags() });
    let val: u8 = 0x3D;
    cpu.set_b(val);
    let acc_val: u8 = 0x42;
    cpu.set_a(acc_val);
    cpu.adc_operation(0x88);

    assert_eq!(cpu.get_a(), 0x80);
    assert_eq!(cpu.flags().cy, false);
    assert_eq!(cpu.flags().z, false);
    assert_eq!(cpu.flags().p, false);
    assert_eq!(cpu.flags().s, true);
    assert_eq!(cpu.flags().ac, true);
}

#[test]
fn test_sub_operation() {
    let mut cpu = Cpu::new();
    cpu.set_flags(Flags { cy: true, ..cpu.flags() });
    let val: u8 = 0x3E;
    cpu.set_b(val);
    let acc_val: u8 = 0x3E;
    cpu.set_a(acc_val);
    cpu.sub_operation(0x80);

    assert_eq!(cpu.get_a(), 0x0);
    assert_eq!(cpu.flags().ac, true);
    assert_eq!(cpu.flags().cy, false);
    assert_eq!(cpu.flags().p, true);
    assert_eq!(cpu.flags().z, true);
}

#[test]
fn test_sbb_operation_not_set() {
    let mut cpu = Cpu::new();
    let val: u8 = 0x2;
    cpu.set_l(val);
    let acc_val: u8 = 0x4;
    cpu.set_a(acc_val);
    cpu.sbb_operation(0x9D);

    assert_eq!(cpu.get_a(), 0x2);
}

#[test]
fn test_sbb_operation_set() {
    let mut cpu = Cpu::new();
    cpu.set_flags(Flags { cy: true, ..cpu.flags() });
    let val: u8 = 0x2;
    cpu.set_l(val);
    let acc_val: u8 = 0x4;
    cpu.set_a(acc_val);
    cpu.sbb_operation(0x9D);

    assert_eq!(cpu.get_a(), 0x1);
    assert_eq!(cpu.flags().cy, false);
    assert_eq!(cpu.flags().z, false);
    assert_eq!(cpu.flags().p, false);
    assert_eq!(cpu.flags().ac, true);
}

#[test]
fn test_sui_operation() {
    let mut cpu = Cpu::new();
    let pc: u16 = 0x9B31;
    cpu.set_pc(pc);
    cpu.write_memory(pc + 1, 0x1);
    cpu.sui();

    assert_eq!(cpu.get_a(), 0xFF);
    assert_eq!(cpu.flags().cy, true);
    assert_eq!(cpu.flags().s, true);
    assert_eq!(cpu.flags().p, true);
    assert_eq!(cpu.flags().ac, false);
    assert_eq!(cpu.flags().z, false);
}

#[test]
fn test_ana_operation() {
    let mut cpu = Cpu::new();
    let reg_val: u8 = 0xF;
    let acc_val: u8 = 0xFC;
    cpu.set_a(acc_val);
    cpu.set_c(reg_val);
    cpu.ana_operation(0xA1);

    assert_eq!(cpu.get_a(), 0xC);
}

#[test]
fn test_xra_operation() {
    let mut cpu = Cpu::new();
    let acc_val: u8 = 0xF;
    cpu.set_a(acc_val);
    cpu.xra_operation(0xAF);

    assert_eq!(cpu.get_a(), 0x0);
}

#[test]
fn test_ora_operation() {
    let mut cpu = Cpu::new();
    let reg_val: u8 = 0x33;
    let acc_val: u8 = 0x0F;
    cpu.set_a(acc_val);
    cpu.set_c(reg_val);
    cpu.ora_operation(0xB1);

    assert_eq!(cpu.get_a(), 0x3F);
}

#[test]
fn test_cmp_operation() {
    let mut cpu = Cpu::new();
    let reg_val: u8 = 0x5;
    let acc_val: u8 = 0xA;
    cpu.set_a(acc_val);
    cpu.set_e(reg_val);
    cpu.cmp_operation(0xBB);

    assert_eq!(cpu.get_a(), acc_val);
    assert_eq!(cpu.get_e(), reg_val);
    assert_eq!(cpu.flags().cy, false);
    assert_eq!(cpu.flags().z, false);
}

#[test]
fn test_rlc() {
    let mut cpu = Cpu::new();
    let val: u8 = 0xF2;
    cpu.set_a(val);
    cpu.rlc();

    assert_eq!(cpu.get_a(), 0xE5);
}

#[test]
fn test_rrc() {
    let mut cpu = Cpu::new();
    let val: u8 = 0xF2;
    cpu.set_a(val);
    cpu.rrc();

    assert_eq!(cpu.get_a(), 0x79);
}

#[test]
fn test_ral() {
    let mut cpu = Cpu::new();
    cpu.set_a(0xB5);
    cpu.ral();

    assert_eq!(cpu.get_a(), 0x6A);
}

#[test]
fn test_rar() {
    let mut cpu = Cpu::new();
    cpu.set_a(0x6A);
    cpu.set_flags(Flags { cy: true, ..cpu.flags() });
    cpu.rar();

    assert_eq!(cpu.get_a(), 0xB5);
}

#[test]
fn test_shld() {
    let mut cpu = Cpu::new();
    cpu.set_h(0xAE);
    cpu.set_l(0x29);
    let rand: u16 = 0x8D42;
    cpu.set_pc(rand);
    cpu.write_memory(rand + 1, 0x0A);
    cpu.write_memory(rand + 2, 0x01);
    cpu.shld();

    assert_eq!(cpu.read_memory(0x10A), 0x29);
    assert_eq!(cpu.read_memory(0x10B), 0xAE);
}

#[test]
fn test_daa() {
    let mut cpu = Cpu::new();
    cpu.set_a(0x9B);
    cpu.daa();

    assert_eq!(cpu.get_a(), 1);
}

#[test]
fn test_lhld() {
    let mut cpu = Cpu::new();
    let rand: u16 = 0x10;
    cpu.set_pc(rand);
    cpu.write_memory(rand + 1, 0xCB);
    cpu.write_memory(rand + 2, 0x50);
    cpu.write_memory(0x50CB, 0xFF);
    cpu.write_memory(0x50CC, 0x03);
    cpu.lhld();

    assert_eq!(cpu.get_h(), 0x03);
    assert_eq!(cpu.get_l(), 0xFF);
}

#[test]
fn test_cma() {
    let mut cpu = Cpu::new();
    cpu.set_a(0x51);
    cpu.cma();

    assert_eq!(cpu.get_a(), 0xAE);
}

#[test]
fn test_sta() {
    let mut cpu = Cpu::new();
    let rand: u8 = 0xB7;
    cpu.set_a(rand);
    let pc: u16 = 0x61D5;
    cpu.set_pc(pc);
    cpu.write_memory(pc + 1, 0x23);
    cpu.write_memory(pc + 2, 0xC8);
    cpu.sta();

    assert_eq!(cpu.read_memory(0xC823), rand);
}

#[test]
fn test_stc() {
    let mut cpu = Cpu::new();
    cpu.stc();

    assert_eq!(cpu.flags().cy, true);
}

#[test]
fn test_lda() {
    let mut cpu = Cpu::new();
    let pc: u8 = 0x34;
    cpu.set_pc(pc as u16);
    cpu.write_memory(pc as u16 + 1, 0x39);
    cpu.write_memory(pc as u16 + 2, 0xB2);
    cpu.write_memory(0xB239, 0xEE);
    cpu.lda();

    assert_eq!(cpu.get_a(), 0xEE);
}

#[test]
fn test_cmc() {
    let mut cpu = Cpu::new();
    cpu.set_flags(Flags { cy: true, ..cpu.flags() });
    cpu.cmc();

    assert_eq!(cpu.flags().cy, false);
    cpu.cmc();

    assert_eq!(cpu.flags().cy, true);
}

#[test]
fn test_hlt() {
    let mut cpu = Cpu::new();
    let pc: u16 = 0x1000;
    cpu.set_pc(pc);
    cpu.write_memory(pc, 0x76);
    cpu.execute_opcode();

    assert_eq!(cpu.get_pc(), pc + 1);
}

#[test]
fn test_mov_b() {
    let mut cpu = Cpu::new();
    cpu.set_c(0x23);
    cpu.set_b(0xAA);
    cpu.mov_b_operation(0x41);

    assert_eq!(cpu.get_b(), 0x23);
}

#[test]
fn test_mov_c() {
    let mut cpu = Cpu::new();
    cpu.set_d(0x66);
    cpu.set_c(0xE3);
    cpu.mov_c_operation(0x4A);

    assert_eq!(cpu.get_c(), 0x66);
}

#[test]
fn test_mov_d() {
    let mut cpu = Cpu::new();
    cpu.set_l(0x01);
    cpu.set_h(0xA9);
    cpu.write_memory(0xA901, 0x4C);
    cpu.set_d(0x77);
    cpu.mov_d_operation(0x56);

    assert_eq!(cpu.get_d(), 0x4C);
}

#[test]
fn test_pop_non_psw() {
    let mut cpu = Cpu::new();
    cpu.write_memory(0x1239, 0x3D);
    cpu.write_memory(0x123A, 0x93);
    cpu.set_sp(0x1239);
    cpu.pop_operation(0xE1);

    assert_eq!(cpu.get_l(), 0x3D);
    assert_eq!(cpu.get_h(), 0x93);
}

#[test]
fn test_pop_psw() {
    let mut cpu = Cpu::new();
    cpu.write_memory(0x2C00, 0xC3);
    cpu.write_memory(0x2C01, 0xFF);
    cpu.set_sp(0x2C00);
    cpu.pop_operation(0xF1);

    assert_eq!(cpu.get_a(), 0xFF);
    assert_eq!(cpu.flags().s, true);
    assert_eq!(cpu.flags().z, true);
    assert_eq!(cpu.flags().ac, false);
    assert_eq!(cpu.flags().p, false);
    assert_eq!(cpu.flags().cy, true);
}

#[test]
fn test_call_subroutine() {
    let mut cpu = Cpu::new();
    let pc: u16 = 0x496B;
    let sp: u16 = 0x2E91;
    cpu.set_pc(pc);
    cpu.set_sp(sp);
    cpu.write_memory(pc + 2, 0x6E);
    cpu.write_memory(pc + 1, 0x0D);
    cpu.write_memory(sp + 1, 0x33);
    cpu.write_memory(sp + 2, 0xA9);
    cpu.call_subroutine(true);

    assert_eq!(cpu.get_pc(), 0x6E0D);
    assert_eq!(cpu.get_sp(), sp - 2);
}

#[test]
fn test_return_from_subroutine() {
    let mut cpu = Cpu::new();
    let pc: u16 = 0x77E2;
    let sp: u16 = 0x55A0;
    cpu.set_pc(pc);
    cpu.set_sp(sp);
    let msb: u16 = cpu.read_memory(sp - 1) as u16;
    let lsb: u16 = cpu.read_memory(sp - 2) as u16;
    let result = (msb << 8) | lsb;
    cpu.return_from_subroutine(true);

    assert_eq!(cpu.get_pc(), result);
}

#[test]
fn test_jmp() {
    let mut cpu = Cpu::new();
    let pc: u8 = 0x50;
    cpu.set_pc(pc as u16);
    cpu.write_memory(pc as u16 + 1, 0x00);
    cpu.write_memory(pc as u16 + 2, 0x3E);
    cpu.jump_operation(true);

    assert_eq!(cpu.get_pc(), 0x3E00);
}

#[test]
fn test_push_operation() {
    let mut cpu = Cpu::new();
    cpu.set_d(0x8F);
    cpu.set_e(0x9D);
    cpu.set_sp(0x3A2C);
    cpu.push_operation(0xD5);

    assert_eq!(cpu.get_sp(), 0x3A2A);
    assert_eq!(cpu.read_memory(0x3A2B), 0x8F);
    assert_eq!(cpu.read_memory(0x3A2A), 0x9D);
}

#[test]
fn test_push_operation_psw() {
    let mut cpu = Cpu::new();
    cpu.set_a(0x1F);
    cpu.set_sp(0x502A);
    cpu.set_flags(Flags { cy: true, z: true, p: true, s: false, ac: false });
    cpu.push_operation(0xF5);

    assert_eq!(cpu.get_sp(), 0x5028);
    assert_eq!(cpu.read_memory(0x5029), 0x1F);
    assert_eq!(cpu.read_memory(0x5028), 0x47);
}

#[test]
fn test_adi() {
    let mut cpu = Cpu::new();
    cpu.set_a(0x14);
    let pc: u16 = 0xC3A7;
    cpu.set_pc(pc);
    cpu.write_memory(pc + 1, 0x42);
    cpu.adi();

    assert_eq!(cpu.get_a(), 0x56);
    assert_eq!(cpu.flags().p, true);
    assert_eq!(cpu.flags().ac, false);
    assert_eq!(cpu.flags().cy, false);
    assert_eq!(cpu.flags().z, false);
    assert_eq!(cpu.flags().s, false);
}

#[test]
fn test_aci_carry_set() {
    let mut cpu = Cpu::new();
    cpu.set_flags(Flags { cy: true, ..cpu.flags() });
    cpu.set_a(0x14);
    let pc: u16 = 0x7F18;
    cpu.set_pc(pc);
    cpu.write_memory(pc + 1, 0x42);
    cpu.aci();

    assert_eq!(cpu.get_a(), 0x57);
}

#[test]
fn test_aci_carry_unset() {
    let mut cpu = Cpu::new();
    cpu.set_flags(Flags { cy: false, ..cpu.flags() });
    cpu.set_a(0x14);
    let pc: u16 = 0x2D60;
    cpu.set_pc(pc);
    cpu.write_memory(pc + 1, 0x42);
    cpu.aci();

    assert_eq!(cpu.get_a(), 0x56);
}

#[test]
fn test_rst_operation() {
    let mut cpu = Cpu::new();
    cpu.set_sp(0x8E24);
    cpu.set_pc(0x44B9);
    cpu.rst_operation(0xDF);

    assert_eq!(cpu.get_pc(), 0x18);
}

#[test]
fn test_xthl() {
    let mut cpu = Cpu::new();
    cpu.set_sp(0x10AD);
    cpu.set_h(0x0B);
    cpu.set_l(0x3C);
    cpu.write_memory(0x10AD, 0xF0);
    cpu.write_memory(0x10AE, 0x0D);
    cpu.xthl();

    assert_eq!(cpu.get_h(), 0x0D);
    assert_eq!(cpu.get_l(), 0xF0);
    assert_eq!(cpu.read_memory(0x10AD), 0x3C);
    assert_eq!(cpu.read_memory(0x10AE), 0x0B);
}

#[test]
fn test_xchg() {
    let mut cpu = Cpu::new();
    cpu.set_h(0x00);
    cpu.set_l(0xFF);
    cpu.set_d(0x33);
    cpu.set_e(0x55);
    cpu.xchg();

    assert_eq!(cpu.get_h(), 0x33);
    assert_eq!(cpu.get_l(), 0x55);
    assert_eq!(cpu.get_d(), 0x00);
    assert_eq!(cpu.get_e(), 0xFF);
}

#[test]
fn test_pchl() {
    let mut cpu = Cpu::new();
    cpu.set_l(0x3E);
    cpu.set_h(0x41);
    cpu.pchl();

    assert_eq!(cpu.get_pc(), 0x413E);
}

#[test]
fn test_sphl() {
    let mut cpu = Cpu::new();
    cpu.set_h(0x50);
    cpu.set_l(0x6C);
    cpu.sphl();

    assert_eq!(cpu.get_sp(), 0x506C);
}
