use graph_punk::types::{UserData, RGB};

#[test]
fn rgb_keeps_its_channels() {
    let color = RGB::new(1, 2, 3);

    assert_eq!(color.r, 1);
    assert_eq!(color.g, 2);
    assert_eq!(color.b, 3);
}

#[test]
fn user_data_gives_back_what_it_was_made_with() {
    let data = UserData::new(42_i32);

    assert_eq!(data.get::<i32>(), Some(&42));
}

#[test]
fn user_data_of_another_type_is_none() {
    let mut data = UserData::new(42_i32);

    assert_eq!(data.get::<u32>(), None);
    assert_eq!(data.get::<String>(), None);
    assert_eq!(data.get_mut::<u32>(), None);
    assert_eq!(data.get::<i32>(), Some(&42));
}

#[test]
fn user_data_changes_through_get_mut() {
    let mut data = UserData::new(String::from("a"));

    data.get_mut::<String>().unwrap().push('b');

    assert_eq!(data.get::<String>(), Some(&String::from("ab")));
}

#[test]
fn empty_user_data_holds_nothing() {
    let mut data = UserData::empty();

    assert_eq!(data.get::<i32>(), None);
    assert_eq!(data.get_mut::<i32>(), None);
}

#[test]
fn user_data_can_hold_a_box() {
    let data = UserData::new(Box::new(7_u8));

    assert_eq!(data.get::<Box<u8>>(), Some(&Box::new(7)));
    assert_eq!(data.get::<u8>(), None);
}
