use face_attendance::ident::{
    append_decimal, append_digits, append_four_digits, decimal_string, make_local_id,
    make_request_id, SUFFIX_HIGH, SUFFIX_LIMIT, SUFFIX_LOW,
};

#[test]
fn decimal_text_of_small_numbers() {
    assert_eq!(decimal_string(0), "0");
    assert_eq!(decimal_string(7), "7");
    assert_eq!(decimal_string(10), "10");
    assert_eq!(decimal_string(109), "109");
    assert_eq!(decimal_string(-1), "-1");
    assert_eq!(decimal_string(-120), "-120");
}

#[test]
fn decimal_text_agrees_with_std_formatting() {
    let samples: [i64; 12] = [
        0,
        9,
        10,
        99,
        100,
        1_000_000_000_555,
        1_700_000_000_000,
        -1_700_000_000_000,
        i64::MAX,
        i64::MIN,
        i64::MIN + 1,
        -9,
    ];
    for v in samples {
        assert_eq!(decimal_string(v), format!("{}", v));
    }
}

#[test]
fn digits_are_appended_after_what_is_there() {
    let mut s = String::from("x=");
    append_digits(&mut s, 0);
    assert_eq!(s, "x=0");
    append_digits(&mut s, u64::MAX);
    assert_eq!(s, format!("x=0{}", u64::MAX));
    let mut t = String::from("t");
    append_decimal(&mut t, -45);
    append_decimal(&mut t, 45);
    assert_eq!(t, "t-4545");
}

#[test]
fn local_id_is_tenant_time_and_suffix() {
    assert_eq!(make_local_id("acme", 1_700_000_000_123, 4821), "acme_1700000000123_4821");
    assert_eq!(make_local_id("", 0, 1000), "_0_1000");
    assert_eq!(make_local_id("a_b", -5, 9998), "a_b_-5_9998");
    assert_eq!(make_local_id("门店", 12, 1234), "门店_12_1234");
}

#[test]
fn request_id_is_time_and_suffix() {
    assert_eq!(make_request_id(1_700_000_000_123, 4821), "req_1700000000123_4821");
    assert_eq!(make_request_id(0, 1000), "req_0_1000");
}

#[test]
fn suffix_bounds_give_four_digits() {
    assert_eq!(SUFFIX_LOW, 1000);
    assert_eq!(SUFFIX_HIGH, 9999);
    for suffix in [SUFFIX_LOW, 5000, SUFFIX_HIGH - 1] {
        let id = make_local_id("t", 1, suffix);
        assert_eq!(id.rsplit('_').next().unwrap().len(), 4);
    }
}

#[test]
fn equal_inputs_give_equal_local_ids() {
    let a = make_local_id("acme", 1_700_000_000_123, 4821);
    let b = make_local_id("acme", 1_700_000_000_123, 4821);
    assert_eq!(a, b);
    assert_ne!(a, make_local_id("acme", 1_700_000_000_123, 4822));
    assert_ne!(a, make_local_id("acme", 1_700_000_000_124, 4821));
}

#[test]
fn suffix_below_one_thousand_is_written_with_leading_zeros() {
    assert_eq!(make_local_id("c1", 0, 7), "c1_0_0007");
    assert_eq!(make_local_id("c1", 0, 0), "c1_0_0000");
    assert_eq!(make_local_id("c1", 0, 42), "c1_0_0042");
    assert_eq!(make_local_id("c1", 0, 999), "c1_0_0999");
    assert_eq!(make_local_id("c1", 0, 1000), "c1_0_1000");
    assert_eq!(make_local_id("c1", 0, 9999), "c1_0_9999");
}

#[test]
fn every_suffix_has_exactly_four_digits() {
    assert_eq!(SUFFIX_LIMIT, 10000);
    for suffix in 0..SUFFIX_LIMIT {
        let id = make_local_id("t", 1, suffix);
        let written = id.rsplit('_').next().unwrap();
        assert_eq!(written.len(), 4);
        assert!(written.chars().all(|c| c.is_ascii_digit()));
        assert_eq!(written.parse::<u32>().unwrap(), suffix);
        assert_eq!(written, format!("{:04}", suffix));
    }
}

#[test]
fn four_digits_are_appended_after_what_is_there() {
    let mut s = String::from("n=");
    append_four_digits(&mut s, 305);
    assert_eq!(s, "n=0305");
    append_four_digits(&mut s, 9998);
    assert_eq!(s, "n=03059998");
}

#[test]
fn request_id_suffix_is_plain_decimal() {
    assert_eq!(make_request_id(5, 7), "req_5_7");
    assert_eq!(make_request_id(-5, 12345), "req_-5_12345");
}
