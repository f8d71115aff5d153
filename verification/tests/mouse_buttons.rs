use gpui_web::mouse_buttons::{dom_button_from_buttons, should_handle_pointer_button_event};

#[test]
fn remaining_mouse_buttons_are_classified_over_complete_representative_sets() {
    let cases = [
        (0, None),
        (1, Some(0)),
        (2, Some(2)),
        (3, Some(0)),
        (4, Some(1)),
        (5, Some(0)),
        (6, Some(1)),
        (7, Some(0)),
        (8, Some(3)),
        (16, Some(4)),
        (24, Some(3)),
        (32, None),
        (33, Some(0)),
    ];

    for (buttons, expected) in cases {
        assert_eq!(
            dom_button_from_buttons(buttons),
            expected,
            "buttons={buttons}"
        );
    }
}

#[test]
fn mouse_pointer_edges_defer_to_per_button_mouse_events() {
    for (pointer_type, expected) in [("mouse", false), ("touch", true), ("pen", true), ("", true)] {
        assert_eq!(
            should_handle_pointer_button_event(pointer_type),
            expected,
            "pointer_type={pointer_type:?}",
        );
    }
}

#[test]
fn pointer_types_that_only_resemble_mouse_stay_on_the_pointer_path() {
    for pointer_type in ["Mouse", "mous", "mousee", " mouse", "mouse\u{e9}", "m\u{f6}use"] {
        assert!(should_handle_pointer_button_event(pointer_type), "{pointer_type:?}");
    }
}

#[test]
fn unknown_bits_do_not_change_the_classification() {
    for buttons in 0u16..=u16::MAX {
        assert_eq!(
            dom_button_from_buttons(buttons),
            dom_button_from_buttons(buttons & 31),
            "buttons={buttons}"
        );
    }
    assert_eq!(dom_button_from_buttons(0xffe0), None);
    assert_eq!(dom_button_from_buttons(0xffe4), Some(1));
}

#[test]
fn each_lone_button_round_trips_to_its_index() {
    for (mask, button) in [(1u16, 0i16), (4, 1), (2, 2), (8, 3), (16, 4)] {
        assert_eq!(dom_button_from_buttons(mask), Some(button));
    }
}

#[test]
fn releasing_another_button_of_a_chord_keeps_the_held_one() {
    let masks = [(1u16, 0i16), (4, 1), (2, 2), (8, 3), (16, 4)];
    for buttons in 0u16..64 {
        let held = dom_button_from_buttons(buttons);
        for (mask, button) in masks {
            if held != Some(button) {
                assert_eq!(dom_button_from_buttons(buttons & !mask), held, "buttons={buttons}");
            }
        }
    }
    // Primary and secondary down, primary released: secondary is recovered.
    assert_eq!(dom_button_from_buttons(3), Some(0));
    assert_eq!(dom_button_from_buttons(3 & !1), Some(2));
}
