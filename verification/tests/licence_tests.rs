use vlfd_rs::licence::licence_gen;

#[test]
fn zero_security_key_with_full_customer_id() {
    assert_eq!(licence_gen(0x0000, 0xffff), 0x0000);
}

#[test]
fn mixed_key_spans_all_four_shift_amounts() {
    // The four 2-bit groups of 0x1234 are 0, 3, 2, 1.
    assert_eq!(licence_gen(0x1234, 0xabcd), 0x2c54);
}

#[test]
fn maximal_shift_amounts_with_zero_customer_id() {
    assert_eq!(licence_gen(0xffff, 0x0000), 0xffff);
}

#[test]
fn all_zero_inputs() {
    assert_eq!(licence_gen(0x0000, 0x0000), 0xffff);
}

#[test]
fn maximal_shifts_with_full_customer_id() {
    assert_eq!(licence_gen(0x3333, 0xffff), 0x0000);
}

#[test]
fn scattered_customer_bits() {
    assert_eq!(licence_gen(0x2222, 0x8421), 0xcf7b);
}
