use graph_punk::common::PunkString;

#[test]
fn the_string_ends_at_the_first_zero() {
    let log: [i8; 8] = [b'l' as i8, b'i' as i8, b'n' as i8, b'k' as i8, 0, b'x' as i8, 0, 0];

    assert_eq!(PunkString::c_bytes(&log), b"link".to_vec());
    assert_eq!(PunkString::i8_array_to_string(&log), "link");
    assert_eq!(PunkString::try_i8_array_to_string(&log), Some(String::from("link")));
}

#[test]
fn without_a_zero_the_whole_array_is_the_string() {
    let log: [i8; 2] = [b'o' as i8, b'k' as i8];

    assert_eq!(PunkString::i8_array_to_string(&log), "ok");
}

#[test]
fn an_empty_array_and_a_leading_zero_give_the_empty_string() {
    assert_eq!(PunkString::i8_array_to_string(&[]), "");
    assert_eq!(PunkString::i8_array_to_string(&[0, 65]), "");
    assert!(PunkString::c_bytes(&[0; 512]).is_empty());
}

#[test]
fn negative_chars_are_the_high_bytes() {
    // "é" is 0xC3 0xA9 in UTF-8.
    let log: [i8; 3] = [-61, -87, 0];

    assert_eq!(PunkString::c_bytes(&log), vec![0xC3, 0xA9]);
    assert_eq!(PunkString::i8_array_to_string(&log), "é");
    assert_eq!(PunkString::c_bytes(&[-1, -128, 127, 1]), vec![255, 128, 127, 1]);
}

#[test]
fn bytes_that_are_no_utf8_give_none() {
    assert_eq!(PunkString::try_i8_array_to_string(&[-1, 0]), None);
    assert_eq!(PunkString::try_i8_array_to_string(&[-61, 0]), None);
}
