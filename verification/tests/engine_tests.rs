use emu8080::Cpu;
use emu8080::Flags;
use emu8080::LoadError;
use emu8080::Opcode;

fn popcount(mut v: u8) -> u32 {
    let mut n: u32 = 0;
    while v != 0 {
        n += (v & 1) as u32;
        v >>= 1;
    }
    n
}

#[test]
fn test_execute_lxi_bc_immediate() {
    // Opcode 0x01 with operand bytes 0x03, 0x01 following it in memory
    // yields B = 0x01, C = 0x03 and the program counter advanced by 3.
    let mut cpu = Cpu::new();
    cpu.write_memory(0, 0x01);
    cpu.write_memory(1, 0x03);
    cpu.write_memory(2, 0x01);
    let cycles = cpu.execute_opcode();

    assert_eq!(cpu.get_b(), 0x01);
    assert_eq!(cpu.get_c(), 0x03);
    assert_eq!(cpu.get_pc(), 3);
    assert_eq!(cycles, 10);
}

#[test]
fn test_execute_add_b() {
    // Accumulator 0x6C plus register B 0x2E gives 0x9A with Carry clear,
    // Zero clear, Parity set, Sign set and Auxiliary-Carry set.
    let mut cpu = Cpu::new();
    cpu.set_a(0x6C);
    cpu.set_b(0x2E);
    cpu.set_pc(0x1000);
    cpu.write_memory(0x1000, 0x80);
    let cycles = cpu.execute_opcode();

    assert_eq!(cpu.get_a(), 0x9A);
    assert_eq!(cpu.flags().cy, false);
    assert_eq!(cpu.flags().z, false);
    assert_eq!(cpu.flags().p, true);
    assert_eq!(cpu.flags().s, true);
    assert_eq!(cpu.flags().ac, true);
    assert_eq!(cpu.get_pc(), 0x1001);
    assert_eq!(cycles, 4);
}

#[test]
fn test_daa_sets_carry() {
    // Accumulator 0x9B decimal-adjusts to 0x01 with Carry set.
    let mut cpu = Cpu::new();
    cpu.set_a(0x9B);
    cpu.daa();

    assert_eq!(cpu.get_a(), 0x01);
    assert_eq!(cpu.flags().cy, true);
}

#[test]
fn test_push_de_exact_layout() {
    // Stack pointer 0x3A2C with D/E = 0x8F/0x9D: a push of D/E gives
    // stack pointer 0x3A2A, memory[0x3A2B] = 0x8F, memory[0x3A2A] = 0x9D.
    let mut cpu = Cpu::new();
    cpu.set_sp(0x3A2C);
    cpu.set_d(0x8F);
    cpu.set_e(0x9D);
    cpu.push_operation(0xD5);

    assert_eq!(cpu.get_sp(), 0x3A2A);
    assert_eq!(cpu.read_memory(0x3A2B), 0x8F);
    assert_eq!(cpu.read_memory(0x3A2A), 0x9D);
}

#[test]
fn test_add_flags_all_pairs() {
    // For every byte pair (a, b): the add sets Zero exactly when
    // (a + b) mod 256 == 0, Sign exactly when bit 7 of the result is
    // set, Parity exactly when the result's bit count is even, and
    // Carry exactly when the sum overflows a byte.
    let mut cpu = Cpu::new();
    for a in 0..=255u16 {
        for b in 0..=255u16 {
            cpu.set_a(a as u8);
            cpu.set_b(b as u8);
            cpu.add_operation(0x80);
            let r = ((a + b) % 256) as u8;
            assert_eq!(cpu.get_a(), r);
            assert_eq!(cpu.flags().z, r == 0);
            assert_eq!(cpu.flags().s, r & 0x80 != 0);
            assert_eq!(cpu.flags().p, popcount(r) % 2 == 0);
            assert_eq!(cpu.flags().cy, a + b > 255);
        }
    }
}

#[test]
fn test_sub_borrow_all_pairs() {
    // For every byte pair (a, b): the subtract's Carry flag equals
    // "a < b" (a borrow occurred), not the raw unsigned-subtraction
    // overflow result, and the accumulator holds (a - b) mod 256.
    let mut cpu = Cpu::new();
    for a in 0..=255u16 {
        for b in 0..=255u16 {
            cpu.set_a(a as u8);
            cpu.set_b(b as u8);
            cpu.sub_operation(0x90);
            assert_eq!(cpu.flags().cy, a < b);
            assert_eq!(cpu.get_a(), (a as u8).wrapping_sub(b as u8));
        }
    }
}

#[test]
fn test_push_pop_roundtrip_all_pairs() {
    // A push immediately followed by a pop of the same pair restores
    // the pair value and leaves the stack pointer unchanged, for every
    // general register pair.
    let codes: [(u8, u8); 3] = [(0xC5, 0xC1), (0xD5, 0xD1), (0xE5, 0xE1)];
    for (push_code, pop_code) in codes {
        let mut cpu = Cpu::new();
        cpu.set_b(0x12);
        cpu.set_c(0x34);
        cpu.set_d(0x56);
        cpu.set_e(0x78);
        cpu.set_h(0x9A);
        cpu.set_l(0xBC);
        cpu.set_sp(0x4000);
        cpu.push_operation(push_code);
        cpu.pop_operation(pop_code);

        assert_eq!(cpu.get_sp(), 0x4000);
        assert_eq!(cpu.get_b(), 0x12);
        assert_eq!(cpu.get_c(), 0x34);
        assert_eq!(cpu.get_d(), 0x56);
        assert_eq!(cpu.get_e(), 0x78);
        assert_eq!(cpu.get_h(), 0x9A);
        assert_eq!(cpu.get_l(), 0xBC);
    }
}

#[test]
fn test_push_pop_roundtrip_psw() {
    // A push of the accumulator-and-flags pair followed by its pop
    // restores the accumulator and all five flags exactly, and leaves
    // the stack pointer unchanged.
    let mut cpu = Cpu::new();
    cpu.set_a(0xA7);
    cpu.set_sp(0x2000);
    let f = Flags { z: true, s: false, p: true, cy: true, ac: false };
    cpu.set_flags(f);
    cpu.push_operation(0xF5);
    cpu.pop_operation(0xF1);

    assert_eq!(cpu.get_sp(), 0x2000);
    assert_eq!(cpu.get_a(), 0xA7);
    assert_eq!(cpu.flags(), f);
}

#[test]
fn test_call_ret_roundtrip() {
    // A call immediately followed by a return brings the program
    // counter back to exactly the instruction after the 3-byte call,
    // regardless of the called address.
    let mut cpu = Cpu::new();
    cpu.set_pc(0x1000);
    cpu.set_sp(0x3000);
    cpu.write_memory(0x1000, 0xCD);
    cpu.write_memory(0x1001, 0x00);
    cpu.write_memory(0x1002, 0x20);
    cpu.write_memory(0x2000, 0xC9);
    cpu.execute_opcode();
    assert_eq!(cpu.get_pc(), 0x2000);
    cpu.execute_opcode();

    assert_eq!(cpu.get_pc(), 0x1003);
    assert_eq!(cpu.get_sp(), 0x3000);
}

#[test]
fn test_execute_total_over_all_opcodes() {
    // Every one of the 256 opcode values executes from a fixed
    // pre-state without failing; the two port instructions return 0
    // cycles and leave the state for the host, every other opcode
    // reports its table cycle count.
    for code in 0..=255u16 {
        let mut cpu = Cpu::new();
        cpu.set_pc(0x1000);
        cpu.set_sp(0x8000);
        cpu.write_memory(0x1000, code as u8);
        let cycles = cpu.execute_opcode();
        if code == 0xD3 || code == 0xDB {
            assert_eq!(cycles, 0);
            assert_eq!(cpu.get_pc(), 0x1000);
        } else {
            assert!(cycles > 0);
        }
    }
}

#[test]
fn test_nop_aliases_only_advance_pc() {
    // The byte values documented as no-operation aliases are treated
    // uniformly as single-byte do-nothing instructions.
    let aliases: [u8; 13] = [
        0x00, 0x08, 0x10, 0x18, 0x20, 0x28, 0x30, 0x38, 0xCB, 0xD9, 0xDD, 0xED, 0xFD,
    ];
    for code in aliases {
        let mut cpu = Cpu::new();
        cpu.set_pc(0x200);
        cpu.set_a(0x42);
        cpu.write_memory(0x200, code);
        let cycles = cpu.execute_opcode();

        assert_eq!(cpu.get_pc(), 0x201);
        assert_eq!(cpu.get_a(), 0x42);
        assert_eq!(cycles, 4);
    }
}

#[test]
fn test_load_rom_does_not_fit() {
    // The load interface fails, changing nothing, when the image would
    // run past the end of the address space.
    let mut cpu = Cpu::new();
    cpu.write_memory(0xFFFF, 0x77);
    let rom: [u8; 16] = [0xAB; 16];
    let r = cpu.load_rom_into_memory(0xFFF1, &rom);

    assert_eq!(r, Err(LoadError::DoesNotFit));
    assert_eq!(cpu.read_memory(0xFFFF), 0x77);
    assert_eq!(cpu.read_memory(0xFFF1), 0x00);
}

#[test]
fn test_load_rom_fills_to_boundary() {
    // The largest placement that still fits: the image ends exactly at
    // the top of the address space.
    let mut cpu = Cpu::new();
    let rom: [u8; 16] = [0xAB; 16];
    let r = cpu.load_rom_into_memory(0x10000 - 16, &rom);

    assert!(r.is_ok());
    assert_eq!(cpu.read_memory(0xFFF0), 0xAB);
    assert_eq!(cpu.read_memory(0xFFFF), 0xAB);
}

#[test]
fn test_output_hands_port_and_accumulator() {
    let mut cpu = Cpu::new();
    cpu.set_a(0x5A);
    cpu.set_pc(0x100);
    cpu.write_memory(0x100, 0xD3);
    cpu.write_memory(0x101, 0x02);
    assert_eq!(cpu.get_current_opcode().code, 0xD3);
    let (port, value) = cpu.output();

    assert_eq!(port, 0x02);
    assert_eq!(value, 0x5A);
    assert_eq!(cpu.get_pc(), 0x102);
}

#[test]
fn test_input_fills_accumulator() {
    let mut cpu = Cpu::new();
    cpu.set_pc(0x100);
    cpu.write_memory(0x100, 0xDB);
    cpu.write_memory(0x101, 0x01);
    assert_eq!(cpu.get_current_opcode().code, 0xDB);
    assert_eq!(cpu.get_next_byte(), 0x01);
    cpu.input(0xAB);

    assert_eq!(cpu.get_a(), 0xAB);
    assert_eq!(cpu.get_pc(), 0x102);
}

#[test]
fn test_interrupt_pushes_pc_and_jumps_to_vector() {
    let mut cpu = Cpu::new();
    cpu.set_pc(0x1234);
    cpu.set_sp(0x2000);
    cpu.interrupt(2);

    assert_eq!(cpu.get_pc(), 0x10);
    assert_eq!(cpu.get_sp(), 0x1FFE);
    assert_eq!(cpu.read_memory(0x1FFF), 0x12);
    assert_eq!(cpu.read_memory(0x1FFE), 0x34);
}

#[test]
fn test_interrupt_enable_disable() {
    let mut cpu = Cpu::new();
    assert_eq!(cpu.interrupts_enabled(), false);
    cpu.set_pc(0x300);
    cpu.write_memory(0x300, 0xFB);
    cpu.write_memory(0x301, 0xF3);
    cpu.execute_opcode();
    assert_eq!(cpu.interrupts_enabled(), true);
    cpu.execute_opcode();
    assert_eq!(cpu.interrupts_enabled(), false);
    assert_eq!(cpu.get_pc(), 0x302);
}

#[test]
fn test_rst_vectors() {
    // The 8-way reset's target vector comes from bits 3-5 of the
    // opcode, one of the fixed addresses 0, 8, 16, ..., 56.
    let codes: [u8; 8] = [0xC7, 0xCF, 0xD7, 0xDF, 0xE7, 0xEF, 0xF7, 0xFF];
    for (i, code) in codes.iter().enumerate() {
        let mut cpu = Cpu::new();
        cpu.set_pc(0x1234);
        cpu.set_sp(0x4000);
        cpu.rst_operation(*code);

        assert_eq!(cpu.get_pc(), (i as u16) * 8);
        assert_eq!(cpu.read_memory(0x3FFF), 0x12);
        assert_eq!(cpu.read_memory(0x3FFE), 0x35);
    }
}

#[test]
fn test_conditional_jump_not_taken_consumes_operands() {
    // A conditional jump whose condition is false still advances the
    // program counter past the two operand bytes without jumping.
    let mut cpu = Cpu::new();
    cpu.set_flags(Flags { z: true, ..cpu.flags() });
    cpu.set_pc(0x400);
    cpu.write_memory(0x400, 0xC2);
    cpu.write_memory(0x401, 0x00);
    cpu.write_memory(0x402, 0x99);
    cpu.execute_opcode();

    assert_eq!(cpu.get_pc(), 0x403);
}

#[test]
fn test_conditional_return_taken_on_carry() {
    let mut cpu = Cpu::new();
    cpu.set_flags(Flags { cy: true, ..cpu.flags() });
    cpu.set_pc(0x400);
    cpu.set_sp(0x7000);
    cpu.write_memory(0x400, 0xD8);
    cpu.write_memory(0x7000, 0xCD);
    cpu.write_memory(0x7001, 0xAB);
    cpu.execute_opcode();

    assert_eq!(cpu.get_pc(), 0xABCD);
    assert_eq!(cpu.get_sp(), 0x7002);
}

#[test]
fn test_conditional_call_not_taken_consumes_operands() {
    let mut cpu = Cpu::new();
    cpu.set_pc(0x500);
    cpu.set_sp(0x7000);
    cpu.write_memory(0x500, 0xCC);
    cpu.write_memory(0x501, 0x00);
    cpu.write_memory(0x502, 0x20);
    cpu.execute_opcode();

    assert_eq!(cpu.get_pc(), 0x503);
    assert_eq!(cpu.get_sp(), 0x7000);
}

#[test]
fn test_logical_and_aux_carry_rule() {
    // The logical instructions force Carry clear and derive
    // Auxiliary-Carry from bit 3 of the two original operands.
    let mut cpu = Cpu::new();
    cpu.set_flags(Flags { cy: true, ..cpu.flags() });
    cpu.set_a(0x08);
    cpu.set_c(0x08);
    cpu.ana_operation(0xA1);

    assert_eq!(cpu.get_a(), 0x08);
    assert_eq!(cpu.flags().cy, false);
    assert_eq!(cpu.flags().ac, true);
}

#[test]
fn test_rotate_touches_only_carry() {
    // Rotate instructions set Carry from the bit shifted out and never
    // touch the other four flags.
    let mut cpu = Cpu::new();
    let f = Flags { z: true, s: true, p: true, cy: false, ac: true };
    cpu.set_flags(f);
    cpu.set_a(0x81);
    cpu.rlc();

    assert_eq!(cpu.get_a(), 0x03);
    assert_eq!(cpu.flags().cy, true);
    assert_eq!(cpu.flags().z, true);
    assert_eq!(cpu.flags().s, true);
    assert_eq!(cpu.flags().p, true);
    assert_eq!(cpu.flags().ac, true);
}

#[test]
fn test_inr_preserves_carry_and_wraps() {
    let mut cpu = Cpu::new();
    cpu.set_flags(Flags { cy: true, ..cpu.flags() });
    cpu.set_b(0xFF);
    cpu.inr_operation(0x04);

    assert_eq!(cpu.get_b(), 0x00);
    assert_eq!(cpu.flags().z, true);
    assert_eq!(cpu.flags().cy, true);
    assert_eq!(cpu.flags().ac, true);
}

#[test]
fn test_dcr_wraps_at_zero() {
    let mut cpu = Cpu::new();
    cpu.set_e(0x00);
    cpu.dcr_operation(0x1D);

    assert_eq!(cpu.get_e(), 0xFF);
    assert_eq!(cpu.flags().s, true);
    assert_eq!(cpu.flags().z, false);
}

#[test]
fn test_dad_sets_carry_on_overflow() {
    let mut cpu = Cpu::new();
    cpu.set_h(0xFF);
    cpu.set_l(0xFF);
    cpu.set_b(0x00);
    cpu.set_c(0x01);
    cpu.dad_operation(0x09);

    assert_eq!(cpu.get_h(), 0x00);
    assert_eq!(cpu.get_l(), 0x00);
    assert_eq!(cpu.flags().cy, true);
}

#[test]
fn test_stack_wraps_at_address_zero() {
    // The stack pointer wraps silently at the 65536 boundary; that is
    // hardware-accurate, not an error condition.
    let mut cpu = Cpu::new();
    cpu.set_sp(0x0000);
    cpu.set_b(0xAB);
    cpu.set_c(0xCD);
    cpu.push_operation(0xC5);

    assert_eq!(cpu.get_sp(), 0xFFFE);
    assert_eq!(cpu.read_memory(0xFFFF), 0xAB);
    assert_eq!(cpu.read_memory(0xFFFE), 0xCD);
}

#[test]
fn test_pc_wraps_at_top_of_memory() {
    let mut cpu = Cpu::new();
    cpu.set_pc(0xFFFF);
    cpu.write_memory(0xFFFF, 0x00);
    cpu.execute_opcode();

    assert_eq!(cpu.get_pc(), 0x0000);
}

#[test]
fn test_opcode_table_entries() {
    let call = Opcode::new(0xCD);
    assert_eq!(call.code, 0xCD);
    assert_eq!(call.operation_name, "CALL");
    assert_eq!(call.cycles, 17);
    assert_eq!(call.next_bytes, 2);

    let nop = Opcode::new(0xD9);
    assert_eq!(nop.operation_name, "NOP");
    assert_eq!(nop.cycles, 4);
    assert_eq!(nop.next_bytes, 0);

    let mvi = Opcode::new(0x3E);
    assert_eq!(mvi.operation_name, "MVI");
    assert_eq!(mvi.next_bytes, 1);
}

#[test]
fn test_mov_memory_to_register_and_back() {
    let mut cpu = Cpu::new();
    cpu.set_h(0x20);
    cpu.set_l(0x10);
    cpu.write_memory(0x2010, 0x77);
    cpu.mov_e_operation(0x5E);
    assert_eq!(cpu.get_e(), 0x77);

    cpu.set_a(0x99);
    cpu.mov_m_operation(0x77);
    assert_eq!(cpu.read_memory(0x2010), 0x99);
}

#[test]
fn test_dcx_all_pairs() {
    let mut cpu = Cpu::new();
    cpu.set_b(0x01);
    cpu.set_c(0x00);
    cpu.dcx_operation(0x0B);
    assert_eq!(cpu.get_b(), 0x00);
    assert_eq!(cpu.get_c(), 0xFF);

    cpu.set_h(0x00);
    cpu.set_l(0x00);
    cpu.dcx_operation(0x2B);
    assert_eq!(cpu.get_h(), 0xFF);
    assert_eq!(cpu.get_l(), 0xFF);

    cpu.set_sp(0x0000);
    cpu.dcx_operation(0x3B);
    assert_eq!(cpu.get_sp(), 0xFFFF);
}

#[test]
fn test_get_video_region_through_read_memory() {
    // The region used as video memory is ordinary memory, read by an
    // external collaborator through the observation interface.
    let mut cpu = Cpu::new();
    cpu.write_memory(0x2400, 0x01);
    cpu.write_memory(0x3FFF, 0x80);

    assert_eq!(cpu.read_memory(0x2400), 0x01);
    assert_eq!(cpu.read_memory(0x3FFF), 0x80);
}

#[test]
fn test_lxi_sp_immediate() {
    // Load stack pointer immediate: the two operand bytes form the new
    // stack pointer, little-endian.
    let mut cpu = Cpu::new();
    cpu.set_pc(0x600);
    cpu.write_memory(0x600, 0x31);
    cpu.write_memory(0x601, 0xCD);
    cpu.write_memory(0x602, 0xAB);
    cpu.execute_opcode();

    assert_eq!(cpu.get_sp(), 0xABCD);
    assert_eq!(cpu.get_pc(), 0x603);
}

#[test]
fn test_shld_lhld_roundtrip() {
    // Loading H and L direct is the exact inverse of storing them: a
    // store followed by a load through the same operand address
    // restores the original pair.
    let mut cpu = Cpu::new();
    cpu.set_h(0x12);
    cpu.set_l(0x34);
    cpu.set_pc(0x1000);
    cpu.write_memory(0x1001, 0x00);
    cpu.write_memory(0x1002, 0x50);
    cpu.shld();
    assert_eq!(cpu.read_memory(0x5000), 0x34);
    assert_eq!(cpu.read_memory(0x5001), 0x12);

    cpu.set_h(0x00);
    cpu.set_l(0x00);
    cpu.set_pc(0x1000);
    cpu.lhld();

    assert_eq!(cpu.get_h(), 0x12);
    assert_eq!(cpu.get_l(), 0x34);
}

#[test]
fn test_opcode_table_conditional_returns() {
    // Every conditional return, the return on not-zero included, is a
    // distinct table entry with 11 cycles and no operand bytes.
    let codes: [(u8, &str); 8] = [
        (0xC0, "RNZ"),
        (0xC8, "RZ"),
        (0xD0, "RNC"),
        (0xD8, "RC"),
        (0xE0, "RPO"),
        (0xE8, "RPE"),
        (0xF0, "RP"),
        (0xF8, "RM"),
    ];
    for (code, name) in codes {
        let op = Opcode::new(code);
        assert_eq!(op.code, code);
        assert_eq!(op.operation_name, name);
        assert_eq!(op.cycles, 11);
        assert_eq!(op.next_bytes, 0);
    }
}

#[test]
fn test_adc_folds_carry_into_operand() {
    // The add-with-carry folds the incoming Carry into the operand
    // byte with 8-bit wrap before adding: with operand 0xFF and Carry
    // set the effective operand is 0x00, so the accumulator and the
    // Carry flag stay clear of any overflow.
    let mut cpu = Cpu::new();
    cpu.set_flags(Flags { cy: true, ..cpu.flags() });
    cpu.set_a(0x10);
    cpu.set_b(0xFF);
    cpu.adc_operation(0x88);

    assert_eq!(cpu.get_a(), 0x10);
    assert_eq!(cpu.flags().cy, false);
    assert_eq!(cpu.flags().z, false);
    assert_eq!(cpu.flags().ac, false);
}

#[test]
fn test_daa_clears_carry_when_high_nibble_needs_no_overflow() {
    // Decimal adjust recomputes Carry from the high-nibble correction
    // alone: with Carry set and accumulator 0x05, six is added to the
    // high nibble without overflowing it, so the result is 0x65 and
    // Carry ends clear.
    let mut cpu = Cpu::new();
    cpu.set_flags(Flags { cy: true, ..cpu.flags() });
    cpu.set_a(0x05);
    cpu.daa();

    assert_eq!(cpu.get_a(), 0x65);
    assert_eq!(cpu.flags().cy, false);
    assert_eq!(cpu.flags().ac, false);
}
