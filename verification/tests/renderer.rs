use boot_core::render::{chars_of, hex32, u32_to_dec};

fn string_of(v: &[char]) -> String {
    v.iter().collect()
}

#[test]
fn hex_renders_ten_characters_zero_padded() {
    assert_eq!(string_of(&hex32(0)), "0x00000000");
    assert_eq!(string_of(&hex32(0xdeadbeef)), "0xdeadbeef");
    assert_eq!(string_of(&hex32(2)), "0x00000002");
    assert_eq!(string_of(&hex32(u32::MAX)), "0xffffffff");
    assert_eq!(string_of(&hex32(0x12345678)), "0x12345678");
    assert_eq!(string_of(&hex32(0x9abcdef0)), "0x9abcdef0");
}

#[test]
fn decimal_renders_most_significant_digit_first() {
    assert_eq!(string_of(&u32_to_dec(0)), "0");
    assert_eq!(string_of(&u32_to_dec(7)), "7");
    assert_eq!(string_of(&u32_to_dec(10)), "10");
    assert_eq!(string_of(&u32_to_dec(12345)), "12345");
    assert_eq!(string_of(&u32_to_dec(u32::MAX)), "4294967295");
}

#[test]
fn chars_of_keeps_every_character_in_order() {
    assert_eq!(chars_of("Hi"), vec!['H', 'i']);
    assert_eq!(chars_of(""), Vec::<char>::new());
}
