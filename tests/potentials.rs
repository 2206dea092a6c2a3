use simulation_computer_rust::potentials::Potentials;

#[test]
fn test_potentials_little_endian_2_little() {
    let cases = [
        (vec![true, true, true], "111"),
        (vec![true, true, false], "110"),
        (vec![true, false, true], "101"),
        (vec![true, false, false], "100"),
        (vec![false, true, true], "011"),
        (vec![false, true, false], "010"),
        (vec![false, false, true], "001"),
        (vec![false, false, false], "000"),
    ];
    for (data, raw) in cases {
        let potentials = Potentials::of_little_endian(data);
        assert_eq!(potentials.to_little_endian(Some(0)), raw);
    }
}

#[test]
fn test_potentials_big_endian_2_little() {
    let cases = [
        (vec![true, true, true], "111"),
        (vec![true, true, false], "011"),
        (vec![true, false, true], "101"),
        (vec![true, false, false], "001"),
        (vec![false, true, true], "110"),
        (vec![false, true, false], "010"),
        (vec![false, false, true], "100"),
        (vec![false, false, false], "000"),
    ];
    for (data, raw) in cases {
        let potentials = Potentials::of_big_endian(data);
        assert_eq!(potentials.to_little_endian(Some(0)), raw);
    }
}

#[test]
fn test_potentials_little_endian_format_4() {
    let cases = [
        (vec![true, true, true, true, false, false], "1111 0000"),
        (vec![true, true, true, true, false], "1111 0000"),
        (vec![true, true, true, true, false, false, false, false], "1111 0000"),
        (vec![true, true, true, true, false, false, false, false, false], "1111 0000 0000"),
    ];
    for (data, raw) in cases {
        let potentials = Potentials::of_little_endian(data);
        assert_eq!(potentials.to_little_endian(Some(1)), raw);
    }
}

#[test]
fn test_potentials_big_endian_format_4() {
    let cases = [
        (vec![true, true, true, true, false, false], "0011 1100"),
        (vec![true, true, true, true, false], "0001 1110"),
        (vec![true, true, true, true, false, false, false, false], "1111 0000"),
        (vec![true, true, true, true, false, false, false, false, false], "0001 1110 0000"),
    ];
    for (data, raw) in cases {
        let potentials = Potentials::of_big_endian(data);
        assert_eq!(potentials.to_big_endian(Some(1)), raw);
    }
}

#[test]
fn test_potentials_from_little_endian_str_01() {
    let cases = [
        ("1111 0000", vec![true, true, true, true, false, false, false, false]),
        ("1111 1100", vec![true, true, true, true, true, true, false, false]),
    ];
    for (raw, data) in cases {
        let potentials = Potentials::from_little_endian(raw, false);
        assert_eq!(potentials.get_data(true), data);
    }
}

#[test]
fn test_potentials_from_little_endian_str_02() {
    let cases = [
        ("0011 0000", vec![false, false, true, true]),
        ("0011 1100", vec![false, false, true, true, true, true]),
    ];
    for (raw, data) in cases {
        let potentials = Potentials::from_little_endian(raw, true);
        assert_eq!(potentials.get_data(true), data);
    }
}

#[test]
fn test_potentials_from_big_endian_str_01() {
    let cases = [
        ("0011 0000", vec![false, false, true, true, false, false, false, false]),
        ("0011 1100", vec![false, false, true, true, true, true, false, false]),
    ];
    for (raw, data) in cases {
        let potentials = Potentials::from_big_endian(raw, false);
        assert_eq!(potentials.get_data(false), data);
    }
}

#[test]
fn test_potentials_from_big_endian_str_02() {
    let cases = [
        ("0011 0000", vec![true, true, false, false, false, false]),
        ("0011 1100", vec![true, true, true, true, false, false]),
    ];
    for (raw, data) in cases {
        let potentials = Potentials::from_big_endian(raw, true);
        assert_eq!(potentials.get_data(false), data);
    }
}

#[test]
fn test_potentials_byte_grouping() {
    let potentials = Potentials::of_little_endian(vec![true, false, true]);
    assert_eq!(potentials.to_raw(true, 2), "10100000");
    assert_eq!(potentials.to_raw(false, 2), "00000101");
    let long = Potentials::of_big_endian(vec![true; 9]);
    assert_eq!(long.to_big_endian(Some(2)), "00000001 11111111");
}

#[test]
fn test_potentials_default_format_is_nibbles() {
    let potentials = Potentials::of_little_endian(vec![true, true, false, true, true]);
    assert_eq!(potentials.to_little_endian(None), "1101 1000");
    assert_eq!(potentials.to_big_endian(None), "0001 1011");
}

#[test]
fn test_potentials_empty() {
    let potentials = Potentials::of_little_endian(vec![]);
    assert_eq!(potentials.len(), 0);
    assert_eq!(potentials.to_raw(true, 1), "");
    assert_eq!(potentials.to_raw(false, 2), "");
    assert_eq!(Potentials::from_big_endian("", true).len(), 0);
    assert_eq!(Potentials::from_little_endian("0000 0000", true).len(), 0);
    assert_eq!(Potentials::from_big_endian("0000", true).len(), 0);
}

#[test]
fn test_potentials_get_data_reverses_other_endianness() {
    let potentials = Potentials::of_little_endian(vec![true, false, false]);
    assert_eq!(potentials.get_data(true), vec![true, false, false]);
    assert_eq!(potentials.get_data(false), vec![false, false, true]);
    assert_eq!(potentials.len(), 3);
}

#[test]
fn test_potentials_endianness_round_trip() {
    let p = Potentials::of_big_endian(vec![true, true, false, true, false]);
    let q = Potentials::of_little_endian(p.get_data(true));
    assert_eq!(q.get_data(false), p.get_data(false));
    assert_eq!(q.get_data(true), p.get_data(true));
}

#[test]
fn test_potentials_text_round_trip() {
    let data = vec![true, false, false, true, true, false, true, false];
    for format_type in 0..3 {
        let le = Potentials::of_little_endian(data.clone());
        let text = le.to_raw(true, format_type);
        assert_eq!(Potentials::from_little_endian(&text, false).get_data(true), data);
        let be = Potentials::of_big_endian(data.clone());
        let text = be.to_raw(false, format_type);
        assert_eq!(Potentials::from_big_endian(&text, false).get_data(false), data);
    }
    let odd = vec![true, false, true];
    let text = Potentials::of_little_endian(odd.clone()).to_raw(true, 0);
    assert_eq!(Potentials::from_little_endian(&text, false).get_data(true), odd);
}

#[test]
fn test_potentials_padding_is_kept_without_ignore() {
    let text = Potentials::of_little_endian(vec![true]).to_raw(true, 1);
    assert_eq!(text, "1000");
    assert_eq!(
        Potentials::from_little_endian(&text, false).get_data(true),
        vec![true, false, false, false]
    );
    assert_eq!(Potentials::from_little_endian(&text, true).get_data(true), vec![true]);
}
