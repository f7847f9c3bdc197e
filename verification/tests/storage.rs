use boot_core::mem::{memset, zero_bss};

#[test]
fn zeroes_every_byte_in_range_and_no_byte_outside() {
    let mut mem: Vec<u8> = (1u8..=16).collect();
    zero_bss(&mut mem, 4, 12);
    for i in 0..4 {
        assert_eq!(mem[i], (i + 1) as u8, "byte below the region changed");
    }
    for i in 4..12 {
        assert_eq!(mem[i], 0, "byte inside the region not zero");
    }
    for i in 12..16 {
        assert_eq!(mem[i], (i + 1) as u8, "byte above the region changed");
    }
}

#[test]
fn empty_region_touches_nothing() {
    let mut mem: Vec<u8> = vec![7; 8];
    zero_bss(&mut mem, 5, 5);
    assert_eq!(mem, vec![7; 8]);
}

#[test]
fn whole_vector_region() {
    let mut mem: Vec<u8> = vec![255; 10];
    zero_bss(&mut mem, 0, 10);
    assert_eq!(mem, vec![0; 10]);
}

#[test]
fn memset_writes_the_given_value() {
    let mut mem: Vec<u8> = vec![0; 6];
    memset(&mut mem, 2, 9, 3);
    assert_eq!(mem, vec![0, 0, 9, 9, 9, 0]);
}
