use rumdump::rumdis::disassemble;

fn word(code: u32, a: u32, b: u32, c: u32) -> u32 {
    (code << 28) | (a << 6) | (b << 3) | c
}

#[test]
fn zero_word_is_a_conditional_move_of_register_zero() {
    assert_eq!(disassemble(0x0000_0000), "if (r0 != 0) r0 := r0;");
}

#[test]
fn load_value_reads_target_and_immediate() {
    assert_eq!(disassemble(0xD000_0007), "r0 := 7;");
}

#[test]
fn halt_has_no_operands() {
    assert_eq!(disassemble(0x7000_0000), "halt");
}

#[test]
fn code_fourteen_is_data() {
    assert_eq!(disassemble(0xE000_0000), ".data 0xe0000000");
}

#[test]
fn output_names_register_c() {
    assert_eq!(disassemble(0xA000_0003), "output r3;");
}

#[test]
fn map_segment_names_registers_b_and_c() {
    assert_eq!(disassemble(0x8000_0015), "r2 := map segment (r5 words);");
}

#[test]
fn conditional_move_tests_c_and_moves_b_to_a() {
    assert_eq!(disassemble(word(0, 1, 2, 3)), "if (r3 != 0) r1 := r2;");
}

#[test]
fn load_indexes_segment_b_at_c() {
    assert_eq!(disassemble(word(1, 4, 5, 6)), "r4 := m[r5][r6];");
}

#[test]
fn store_writes_c_into_segment_a_at_b() {
    assert_eq!(disassemble(word(2, 7, 0, 1)), "m[r7][r0] := r1;");
}

#[test]
fn arithmetic_shows_its_operator() {
    assert_eq!(disassemble(word(3, 1, 2, 3)), "r1 := r2 + r3;");
    assert_eq!(disassemble(word(4, 1, 2, 3)), "r1 := r2 * r3;");
    assert_eq!(disassemble(word(5, 1, 2, 3)), "r1 := r2 / r3;");
    assert_eq!(disassemble(word(6, 1, 2, 3)), "r1 := r2 nand r3;");
}

#[test]
fn halt_ignores_every_other_bit() {
    assert_eq!(disassemble(0x7FFF_FFFF), "halt");
}

#[test]
fn one_register_instructions_name_register_c() {
    assert_eq!(disassemble(word(9, 7, 7, 4)), "unmap r4;");
    assert_eq!(disassemble(word(10, 0, 0, 7)), "output r7;");
    assert_eq!(disassemble(word(11, 3, 2, 1)), "r1 := input();");
}

#[test]
fn load_program_jumps_to_c_in_segment_b() {
    assert_eq!(disassemble(word(12, 0, 6, 2)), "goto r2 in program m[r6];");
}

#[test]
fn load_value_does_not_read_registers_a_b_c() {
    // bits 8..0 are all ones: had A, B or C been read, a 7 would show as register
    assert_eq!(disassemble(0xD000_01FF), "r0 := 511;");
    assert_eq!(disassemble(0xDA00_0000), "r5 := 0;");
}

#[test]
fn load_value_shows_the_largest_immediate_in_full() {
    assert_eq!(disassemble(0xDFFF_FFFF), "r7 := 33554431;");
}

#[test]
fn code_fifteen_is_data() {
    assert_eq!(disassemble(0xF000_0000), ".data 0xf0000000");
    assert_eq!(disassemble(0xFFFF_FFFF), ".data 0xffffffff");
}

#[test]
fn data_is_padded_to_eight_lowercase_digits() {
    assert_eq!(disassemble(0xE000_00AB), ".data 0xe00000ab");
    assert_eq!(disassemble(0xF0C0_FFEE), ".data 0xf0c0ffee");
}

#[test]
fn reserved_bits_do_not_change_the_text() {
    assert_eq!(disassemble(0x3FFF_FE00 | 0o123), "r1 := r2 + r3;");
    assert_eq!(disassemble(0x8FFF_FFC0 | 0o25), "r2 := map segment (r5 words);");
}

#[test]
fn rendering_twice_gives_the_same_text() {
    let words: [u32; 5] = [0, 0xD000_0007, 0x7000_0000, 0xE000_0000, 0xFFFF_FFFF];
    for w in words {
        assert_eq!(disassemble(w), disassemble(w));
    }
}

#[test]
fn every_text_is_one_line_of_ascii() {
    for code in 0..16u32 {
        let text = disassemble((code << 28) | 0x0123_4567);
        assert!(text.is_ascii());
        assert!(!text.contains('\n'));
        assert!(!text.is_empty());
    }
}
