use rumdump::field::get;
use rumdump::field::mask;
use rumdump::field::Field;

#[test]
fn standard_fields_sit_where_the_format_puts_them() {
    assert_eq!((Field::ra().width(), Field::ra().lsb()), (3, 6));
    assert_eq!((Field::rb().width(), Field::rb().lsb()), (3, 3));
    assert_eq!((Field::rc().width(), Field::rc().lsb()), (3, 0));
    assert_eq!((Field::rl().width(), Field::rl().lsb()), (3, 25));
    assert_eq!((Field::vl().width(), Field::vl().lsb()), (25, 0));
    assert_eq!((Field::op().width(), Field::op().lsb()), (4, 28));
}

#[test]
fn get_shifts_and_masks() {
    let word: u32 = 0b1101_0000_0000_0000_0000_0001_1010_1100;
    assert_eq!(get(&Field::op(), word), 0b1101);
    assert_eq!(get(&Field::ra(), word), 0b110);
    assert_eq!(get(&Field::rb(), word), 0b101);
    assert_eq!(get(&Field::rc(), word), 0b100);
    assert_eq!(get(&Field::rl(), word), 0b000);
    assert_eq!(get(&Field::vl(), word), 0b1_1010_1100);
}

#[test]
fn get_of_the_zero_word_is_zero() {
    for f in [Field::ra(), Field::rb(), Field::rc(), Field::rl(), Field::vl(), Field::op()] {
        assert_eq!(get(&f, 0), 0);
    }
}

#[test]
fn get_of_the_full_word_is_all_ones() {
    assert_eq!(get(&Field::ra(), u32::MAX), 7);
    assert_eq!(get(&Field::rb(), u32::MAX), 7);
    assert_eq!(get(&Field::rc(), u32::MAX), 7);
    assert_eq!(get(&Field::rl(), u32::MAX), 7);
    assert_eq!(get(&Field::vl(), u32::MAX), 0x01FF_FFFF);
    assert_eq!(get(&Field::op(), u32::MAX), 15);
}

#[test]
fn extracted_values_fit_their_width() {
    let words: [u32; 6] = [0, 1, 0x8000_0000, 0xDEAD_BEEF, 0x1234_5678, u32::MAX];
    for w in words {
        for f in [Field::ra(), Field::rb(), Field::rc(), Field::rl(), Field::vl(), Field::op()] {
            assert!((get(&f, w) as u64) < (1u64 << f.width()));
        }
    }
}

#[test]
fn registers_a_b_c_do_not_overlap() {
    // each register field sees only its own three bits
    assert_eq!(get(&Field::ra(), 0b111_000_000), 7);
    assert_eq!(get(&Field::rb(), 0b111_000_000), 0);
    assert_eq!(get(&Field::rc(), 0b111_000_000), 0);
    assert_eq!(get(&Field::ra(), 0b000_111_000), 0);
    assert_eq!(get(&Field::rb(), 0b000_111_000), 7);
    assert_eq!(get(&Field::rc(), 0b000_111_000), 0);
    assert_eq!(get(&Field::ra(), 0b000_000_111), 0);
    assert_eq!(get(&Field::rb(), 0b000_000_111), 0);
    assert_eq!(get(&Field::rc(), 0b000_000_111), 7);
    // bit 9 and up belong to none of them
    assert_eq!(get(&Field::ra(), 0xFFFF_FE00), 0);
}

#[test]
fn registers_a_b_c_make_up_the_low_nine_bits() {
    let words: [u32; 4] = [0x1AC, 0xDEAD_BEEF, 0x0000_01FF, 0xFFFF_FE00];
    for w in words {
        let joined =
            (get(&Field::ra(), w) << 6) | (get(&Field::rb(), w) << 3) | get(&Field::rc(), w);
        assert_eq!(joined, w & 0x1FF);
    }
}

#[test]
fn mask_sets_the_low_bits() {
    assert_eq!(mask(0), 0);
    assert_eq!(mask(1), 1);
    assert_eq!(mask(3), 7);
    assert_eq!(mask(4), 15);
    assert_eq!(mask(25), 0x01FF_FFFF);
    assert_eq!(mask(31), 0x7FFF_FFFF);
}

#[test]
fn mask_of_a_whole_word_is_all_ones() {
    assert_eq!(mask(32), u32::MAX);
    assert_eq!(mask(33), u32::MAX);
    assert_eq!(mask(u32::MAX), u32::MAX);
}
