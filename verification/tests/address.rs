use dynsix::address::{merge_ips, Address};

#[test]
fn merge_takes_prefix_then_suffix() {
    let prefix = Address::new(0x2001, 0x0db8, 1, 2, 0, 0, 0, 0);
    let suffix = Address::new(0, 0, 0, 0xabcd, 1, 2, 3, 4);
    let merged = merge_ips(prefix, suffix);
    assert_eq!(merged, Address::new(0x2001, 0x0db8, 1, 2, 1, 2, 3, 4));
    assert_eq!(merged.segments(), [0x2001, 0x0db8, 1, 2, 1, 2, 3, 4]);
}

#[test]
fn merge_discards_the_other_halves() {
    let prefix = Address::new(0xfd00, 0x1234, 0x5678, 0x9abc, 0, 0, 0, 0);
    let noisy_prefix = Address::new(0xfd00, 0x1234, 0x5678, 0x9abc, 0xffff, 7, 8, 0x8000);
    let suffix = Address::new(0, 0, 0, 0, 0xaaaa, 0xbbbb, 0xcccc, 0xdddd);
    let noisy_suffix = Address::new(0xffff, 1, 2, 0x8000, 0xaaaa, 0xbbbb, 0xcccc, 0xdddd);
    let expected = Address::new(0xfd00, 0x1234, 0x5678, 0x9abc, 0xaaaa, 0xbbbb, 0xcccc, 0xdddd);
    assert_eq!(merge_ips(prefix, suffix), expected);
    assert_eq!(merge_ips(noisy_prefix, suffix), expected);
    assert_eq!(merge_ips(prefix, noisy_suffix), expected);
    assert_eq!(merge_ips(noisy_prefix, noisy_suffix), expected);
}

#[test]
fn merge_of_extremes() {
    let ones = Address { bits: u128::MAX };
    let zero = Address { bits: 0 };
    assert_eq!(merge_ips(ones, zero).segments(), [0xffff, 0xffff, 0xffff, 0xffff, 0, 0, 0, 0]);
    assert_eq!(merge_ips(zero, ones).segments(), [0, 0, 0, 0, 0xffff, 0xffff, 0xffff, 0xffff]);
    assert_eq!(merge_ips(ones, ones), ones);
    assert_eq!(merge_ips(zero, zero), zero);
}

#[test]
fn merge_of_an_address_with_itself_is_that_address() {
    let address = Address::new(0x2a02, 0x8071, 0x22c4, 0x5a00, 0x0211, 0x32ff, 0xfe2b, 0x4d5e);
    assert_eq!(merge_ips(address, address), address);
}

#[test]
fn new_puts_the_first_segment_highest() {
    let address = Address::new(0x2001, 0x0db8, 0x0001, 0x0002, 0xabcd, 0x00ef, 0x1000, 0x0004);
    assert_eq!(address.bits, 0x2001_0db8_0001_0002_abcd_00ef_1000_0004);
    assert_eq!(Address::new(0, 0, 0, 0, 0, 0, 0, 1).bits, 1);
    assert_eq!(Address::new(0x8000, 0, 0, 0, 0, 0, 0, 0).bits, 1 << 127);
}

#[test]
fn segments_take_an_address_apart() {
    let address = Address { bits: 0x0123_4567_89ab_cdef_fedc_ba98_7654_3210 };
    assert_eq!(
        address.segments(),
        [0x0123, 0x4567, 0x89ab, 0xcdef, 0xfedc, 0xba98, 0x7654, 0x3210]
    );
    let s = address.segments();
    assert_eq!(Address::new(s[0], s[1], s[2], s[3], s[4], s[5], s[6], s[7]), address);
}
