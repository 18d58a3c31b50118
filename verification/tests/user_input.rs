use graph_punk::window::user_input::{KeyStatus, Keys};

const FOLLOWED: [&str; 20] = [
    "1", "2", "3", "4", "a", "c", "d", "e", "f", "n", "o", "p", "q", "r", "s", "v", "w", "x", "z",
    " ",
];

#[test]
fn every_followed_key_starts_released() {
    let keys = Keys::new();

    for key in FOLLOWED {
        assert_eq!(
            keys.get_key_status(key),
            Some((KeyStatus::Released, KeyStatus::Released))
        );
    }
}

#[test]
fn keys_that_are_not_followed_have_no_status() {
    let mut keys = Keys::new();

    for key in ["0", "5", "b", "y", "A", "", "aa", "space", "é"] {
        keys.set_key_state(key, KeyStatus::Pressed);
        assert_eq!(keys.get_key_status(key), None);
    }
    for key in FOLLOWED {
        assert_eq!(
            keys.get_key_status(key),
            Some((KeyStatus::Released, KeyStatus::Released))
        );
    }
}

#[test]
fn pressing_a_key_changes_that_key_only() {
    for pressed in FOLLOWED {
        let mut keys = Keys::new();

        keys.set_key_state(pressed, KeyStatus::Pressed);

        for key in FOLLOWED {
            let expected = if key == pressed {
                (KeyStatus::Pressed, KeyStatus::Released)
            } else {
                (KeyStatus::Released, KeyStatus::Released)
            };
            assert_eq!(keys.get_key_status(key), Some(expected));
        }
    }
}

#[test]
fn the_end_of_a_frame_copies_current_to_last() {
    let mut keys = Keys::new();

    keys.set_key_state("a", KeyStatus::Pressed);
    keys.set_key_state(" ", KeyStatus::Pressed);
    keys.update_last_key_states();

    assert_eq!(
        keys.get_key_status("a"),
        Some((KeyStatus::Pressed, KeyStatus::Pressed))
    );
    assert_eq!(
        keys.get_key_status(" "),
        Some((KeyStatus::Pressed, KeyStatus::Pressed))
    );
    assert_eq!(
        keys.get_key_status("z"),
        Some((KeyStatus::Released, KeyStatus::Released))
    );

    keys.set_key_state("a", KeyStatus::Released);
    assert_eq!(
        keys.get_key_status("a"),
        Some((KeyStatus::Released, KeyStatus::Pressed))
    );

    keys.update_last_key_states();
    assert_eq!(
        keys.get_key_status("a"),
        Some((KeyStatus::Released, KeyStatus::Released))
    );
}
