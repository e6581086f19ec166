use ansi_term::Colour;
use rumdump::highlight::spans_for;
use rumdump::highlight::tint_for;
use rumdump::highlight::Role;
use rumdump::opcode::Layout;
use rumdump::rumdis::bin_string;
use rumdump::tint::Tint;

/// The escape sequences taken out of `text`.
fn bare(text: &str) -> String {
    let mut out = String::new();
    let mut in_escape = false;
    for c in text.chars() {
        if in_escape {
            in_escape = c != 'm';
        } else if c == '\x1b' {
            in_escape = true;
        } else {
            out.push(c);
        }
    }
    out
}

fn shape(layout: Layout) -> Vec<(Role, u32, u32)> {
    spans_for(layout).iter().map(|s| (s.role, s.field.width(), s.field.lsb())).collect()
}

#[test]
fn unrecognized_word_is_bare_digits() {
    assert_eq!(bin_string(0xE000_0000), "11100000000000000000000000000000");
    assert_eq!(bin_string(0xFFFF_FFFF), "11111111111111111111111111111111");
    assert_eq!(bin_string(0xF000_0001), "11110000000000000000000000000001");
}

#[test]
fn halt_is_opcode_and_reserved_bits() {
    assert_eq!(
        bin_string(0x7000_0000),
        "\x1b[38;5;208m0111\x1b[0m\x1b[38;5;240m0000000000000000000000000000\x1b[0m"
    );
}

#[test]
fn three_registers_each_get_their_colour() {
    // add r1 := r2 + r3
    assert_eq!(
        bin_string(0x3000_0053),
        "\x1b[38;5;208m0011\x1b[0m\x1b[38;5;240m0000000000000000000\x1b[0m\
         \x1b[31m001\x1b[0m\x1b[32m010\x1b[0m\x1b[34m011\x1b[0m"
    );
}

#[test]
fn two_registers_leave_register_a_reserved() {
    // r2 := map segment (r5 words), with register A's bits set
    assert_eq!(
        bin_string(0x8000_01D5),
        "\x1b[38;5;208m1000\x1b[0m\x1b[38;5;240m0000000000000000000111\x1b[0m\
         \x1b[32m010\x1b[0m\x1b[34m101\x1b[0m"
    );
}

#[test]
fn one_register_leaves_all_but_c_reserved() {
    assert_eq!(
        bin_string(0xA000_0003),
        "\x1b[38;5;208m1010\x1b[0m\x1b[38;5;240m0000000000000000000000000\x1b[0m\
         \x1b[34m011\x1b[0m"
    );
}

#[test]
fn load_value_is_opcode_target_and_immediate() {
    assert_eq!(
        bin_string(0xD000_0007),
        "\x1b[38;5;208m1101\x1b[0m\x1b[32m000\x1b[0m\
         \x1b[35m0000000000000000000000111\x1b[0m"
    );
}

#[test]
fn highlight_agrees_with_the_painting_library() {
    let expected = format!(
        "{}{}{}{}{}",
        Colour::Fixed(208).paint("0000"),
        Colour::Fixed(240).paint("1111111111111111111"),
        Colour::Red.paint("101"),
        Colour::Green.paint("010"),
        Colour::Blue.paint("111")
    );
    assert_eq!(bin_string(0x0FFF_FF57), expected);
    let expected = format!(
        "{}{}{}",
        Colour::Fixed(208).paint("1101"),
        Colour::Green.paint("111"),
        Colour::Purple.paint("1111111111111111111111111")
    );
    assert_eq!(bin_string(0xDFFF_FFFF), expected);
}

#[test]
fn highlight_keeps_all_thirty_two_digits_in_order() {
    let words: [u32; 7] =
        [0, 0x1234_5678, 0x7FFF_FFFF, 0x8000_0015, 0xA5A5_A5A5, 0xD000_0007, 0xFFFF_FFFF];
    for w in words {
        assert_eq!(bare(&bin_string(w)), format!("{:032b}", w));
    }
}

#[test]
fn highlighting_twice_gives_the_same_text() {
    for w in [0u32, 0x3000_0053, 0xD000_0007, 0xE000_0000] {
        assert_eq!(bin_string(w), bin_string(w));
    }
}

#[test]
fn roles_have_their_colours() {
    assert_eq!(tint_for(Role::Opcode), Tint::Fixed(208));
    assert_eq!(tint_for(Role::Reserved), Tint::Fixed(240));
    assert_eq!(tint_for(Role::RegisterA), Tint::Red);
    assert_eq!(tint_for(Role::RegisterB), Tint::Green);
    assert_eq!(tint_for(Role::RegisterC), Tint::Blue);
    assert_eq!(tint_for(Role::Target), Tint::Green);
    assert_eq!(tint_for(Role::Immediate), Tint::Purple);
}

#[test]
fn spans_of_each_layout() {
    assert_eq!(
        shape(Layout::ThreeRegister),
        vec![
            (Role::Opcode, 4, 28),
            (Role::Reserved, 19, 9),
            (Role::RegisterA, 3, 6),
            (Role::RegisterB, 3, 3),
            (Role::RegisterC, 3, 0)
        ]
    );
    assert_eq!(
        shape(Layout::TwoRegister),
        vec![
            (Role::Opcode, 4, 28),
            (Role::Reserved, 22, 6),
            (Role::RegisterB, 3, 3),
            (Role::RegisterC, 3, 0)
        ]
    );
    assert_eq!(
        shape(Layout::OneRegister),
        vec![(Role::Opcode, 4, 28), (Role::Reserved, 25, 3), (Role::RegisterC, 3, 0)]
    );
    assert_eq!(shape(Layout::Halt), vec![(Role::Opcode, 4, 28), (Role::Reserved, 28, 0)]);
    assert_eq!(
        shape(Layout::Immediate),
        vec![(Role::Opcode, 4, 28), (Role::Target, 3, 25), (Role::Immediate, 25, 0)]
    );
}

#[test]
fn spans_tile_the_word_from_the_top() {
    for layout in [
        Layout::ThreeRegister,
        Layout::TwoRegister,
        Layout::OneRegister,
        Layout::Halt,
        Layout::Immediate,
    ] {
        let mut next = 32;
        for (_, width, lsb) in shape(layout) {
            assert_eq!(lsb + width, next);
            next = lsb;
        }
        assert_eq!(next, 0);
    }
}
