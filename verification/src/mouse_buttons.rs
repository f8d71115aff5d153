//! Classification of DOM mouse and pointer events.
//!
//! `MouseEvent.buttons` is a bitmask of every button currently down (1 primary,
//! 2 secondary, 4 auxiliary, 8 back, 16 forward), while `MouseEvent.button` is
//! the index of one button (0 left, 1 middle, 2 right, 3 back, 4 forward).

use vstd::prelude::*;

verus! {

/// The known bits of the `buttons` mask, all together.
pub open spec fn known_buttons_mask() -> u16 {
    31u16
}

/// The `buttons` bit that stands for the button with index `button`, or `0`
/// for an index that names no button.
pub open spec fn button_mask(button: i16) -> u16 {
    if button == 0 {
        1u16
    } else if button == 1 {
        4u16
    } else if button == 2 {
        2u16
    } else if button == 3 {
        8u16
    } else if button == 4 {
        16u16
    } else {
        0u16
    }
}

/// The index of the highest-priority button held in `buttons`, in the order
/// primary, auxiliary, secondary, back, forward; `None` when no known button
/// is held.
pub open spec fn held_button(buttons: u16) -> Option<i16> {
    if buttons & 1u16 != 0 {
        Some(0i16)
    } else if buttons & 4u16 != 0 {
        Some(1i16)
    } else if buttons & 2u16 != 0 {
        Some(2i16)
    } else if buttons & 8u16 != 0 {
        Some(3i16)
    } else if buttons & 16u16 != 0 {
        Some(4i16)
    } else {
        None
    }
}

proof fn lemma_no_known_bit(buttons: u16)
    ensures
        (buttons & 1u16 == 0 && buttons & 2u16 == 0 && buttons & 4u16 == 0 && buttons & 8u16 == 0
            && buttons & 16u16 == 0) <==> buttons & 31u16 == 0,
{
    assert((buttons & 1u16 == 0 && buttons & 2u16 == 0 && buttons & 4u16 == 0 && buttons & 8u16
        == 0 && buttons & 16u16 == 0) <==> buttons & 31u16 == 0) by (bit_vector);
}

/// Reduces a DOM `buttons` bitmask to the `button` index of the
/// highest-priority button still held, or `None` when none remain.
///
/// On a chord release, where only the released bit is cleared, this recovers
/// the button that is still held. Unknown bits map to `None`.
pub fn dom_button_from_buttons(buttons: u16) -> (button: Option<i16>)
    ensures
        button == held_button(buttons),
        button is None <==> buttons & known_buttons_mask() == 0,
        button matches Some(b) ==> 0 <= b <= 4 && buttons & button_mask(b) != 0,
        forall|k: i16|
            0 <= k <= 4 && buttons & #[trigger] button_mask(k) != 0 ==> (button matches Some(b)
                && b <= k),
        buttons & 1u16 != 0 ==> button == Some(0i16),
{
    proof {
        assert forall|k: i16|
            0 <= k <= 4 && buttons & #[trigger] button_mask(k) != 0 implies (held_button(
                buttons,
            ) matches Some(b) && b <= k) by {
            lemma_reports_lowest_held_index(buttons, k);
        }
    }
    proof {
        lemma_no_known_bit(buttons);
    }
    let pairs: [(u16, i16); 5] = [(1, 0), (4, 1), (2, 2), (8, 3), (16, 4)];
    assert(pairs@ == seq![(1u16, 0i16), (4u16, 1i16), (2u16, 2i16), (8u16, 3i16), (16u16, 4i16)]);
    let mut i: usize = 0;
    while i < 5
        invariant
            i <= 5,
            pairs@ == seq![(1u16, 0i16), (4u16, 1i16), (2u16, 2i16), (8u16, 3i16), (16u16, 4i16)],
            forall|j: int| 0 <= j < i ==> buttons & #[trigger] pairs@[j].0 == 0,
        decreases 5 - i,
    {
        let (mask, button) = pairs[i];
        if buttons & mask != 0 {
            assert(pairs@[0].0 == 1u16 && pairs@[1].0 == 4u16 && pairs@[2].0 == 2u16
                && pairs@[3].0 == 8u16);
            assert(mask == 1u16 || mask == 4u16 || mask == 2u16 || mask == 8u16 || mask == 16u16);
            proof {
                lemma_no_known_bit(buttons);
            }
            return Some(button);
        }
        i = i + 1;
    }
    assert(pairs@[0].0 == 1u16 && pairs@[1].0 == 4u16 && pairs@[2].0 == 2u16 && pairs@[3].0
        == 8u16 && pairs@[4].0 == 16u16);
    None
}

/// Priority: the reported button is the held button with the lowest index, so
/// primary (0) outranks auxiliary (1), which outranks secondary (2), then back
/// (3), then forward (4). Any held button with index `k` forces a report no
/// later than `k`, and every button with a lower index is released.
pub proof fn lemma_reports_lowest_held_index(buttons: u16, held: i16)
    requires
        0 <= held <= 4,
        buttons & button_mask(held) != 0,
    ensures
        held_button(buttons) matches Some(b) && b <= held && buttons & button_mask(b) != 0,
        forall|k: i16| 0 <= k < held_button(buttons)->0 ==> buttons & #[trigger] button_mask(k) == 0,
{
    assert(held == 0 || held == 1 || held == 2 || held == 3 || held == 4);
    let b = held_button(buttons)->0;
    assert forall|k: i16| 0 <= k < b implies buttons & #[trigger] button_mask(k) == 0 by {
        assert(k == 0 || k == 1 || k == 2 || k == 3);
    }
}

/// Bits outside the known mask never change the classification.
pub proof fn lemma_unknown_bits_are_ignored(buttons: u16)
    ensures
        held_button(buttons) == held_button(buttons & known_buttons_mask()),
{
    assert((buttons & 31u16) & 1u16 == buttons & 1u16 && (buttons & 31u16) & 2u16 == buttons & 2u16
        && (buttons & 31u16) & 4u16 == buttons & 4u16 && (buttons & 31u16) & 8u16 == buttons & 8u16
        && (buttons & 31u16) & 16u16 == buttons & 16u16) by (bit_vector);
}

proof fn lemma_known_masks_are_disjoint()
    ensures
        1u16 & 1u16 != 0 && 1u16 & 2u16 == 0 && 1u16 & 4u16 == 0 && 1u16 & 8u16 == 0 && 1u16 & 16u16
            == 0,
        2u16 & 1u16 == 0 && 2u16 & 2u16 != 0 && 2u16 & 4u16 == 0 && 2u16 & 8u16 == 0 && 2u16 & 16u16
            == 0,
        4u16 & 1u16 == 0 && 4u16 & 2u16 == 0 && 4u16 & 4u16 != 0 && 4u16 & 8u16 == 0 && 4u16 & 16u16
            == 0,
        8u16 & 1u16 == 0 && 8u16 & 2u16 == 0 && 8u16 & 4u16 == 0 && 8u16 & 8u16 != 0 && 8u16 & 16u16
            == 0,
        16u16 & 1u16 == 0 && 16u16 & 2u16 == 0 && 16u16 & 4u16 == 0 && 16u16 & 8u16 == 0 && 16u16
            & 16u16 != 0,
{
    assert(1u16 & 1u16 != 0 && 1u16 & 2u16 == 0 && 1u16 & 4u16 == 0 && 1u16 & 8u16 == 0 && 1u16
        & 16u16 == 0) by (bit_vector);
    assert(2u16 & 1u16 == 0 && 2u16 & 2u16 != 0 && 2u16 & 4u16 == 0 && 2u16 & 8u16 == 0 && 2u16
        & 16u16 == 0) by (bit_vector);
    assert(4u16 & 1u16 == 0 && 4u16 & 2u16 == 0 && 4u16 & 4u16 != 0 && 4u16 & 8u16 == 0 && 4u16
        & 16u16 == 0) by (bit_vector);
    assert(8u16 & 1u16 == 0 && 8u16 & 2u16 == 0 && 8u16 & 4u16 == 0 && 8u16 & 8u16 != 0 && 8u16
        & 16u16 == 0) by (bit_vector);
    assert(16u16 & 1u16 == 0 && 16u16 & 2u16 == 0 && 16u16 & 4u16 == 0 && 16u16 & 8u16 == 0
        && 16u16 & 16u16 != 0) by (bit_vector);
}

/// A lone held button is reported under its own index: the bit layout of
/// `buttons` and the index layout of `button` correspond one to one.
pub proof fn lemma_single_button_round_trip(button: i16)
    requires
        0 <= button <= 4,
    ensures
        held_button(button_mask(button)) == Some(button),
{
    lemma_known_masks_are_disjoint();
}

proof fn lemma_clear_bit(buttons: u16, released: u16, other: u16)
    requires
        released & other == 0,
    ensures
        (buttons & !released) & other == buttons & other,
        (buttons & !released) & released == 0,
{
    assert(released & other == 0 ==> (buttons & !released) & other == buttons & other)
        by (bit_vector);
    assert((buttons & !released) & released == 0) by (bit_vector);
}

/// Chord release: releasing any button other than the one reported leaves the
/// report unchanged, so the button still held is recovered.
pub proof fn lemma_chord_release_keeps_held_button(buttons: u16, released: i16)
    requires
        0 <= released <= 4,
        held_button(buttons) != Some(released),
    ensures
        held_button(buttons & !button_mask(released)) == held_button(buttons),
{
    lemma_known_masks_are_disjoint();
    let m = button_mask(released);
    let rest = buttons & !m;
    if m != 1u16 {
        lemma_clear_bit(buttons, m, 1u16);
    } else {
        lemma_clear_bit(buttons, m, 2u16);
    }
    if m != 2u16 {
        lemma_clear_bit(buttons, m, 2u16);
    } else {
        lemma_clear_bit(buttons, m, 1u16);
    }
    if m != 4u16 {
        lemma_clear_bit(buttons, m, 4u16);
    } else {
        lemma_clear_bit(buttons, m, 1u16);
    }
    if m != 8u16 {
        lemma_clear_bit(buttons, m, 8u16);
    } else {
        lemma_clear_bit(buttons, m, 1u16);
    }
    if m != 16u16 {
        lemma_clear_bit(buttons, m, 16u16);
    } else {
        lemma_clear_bit(buttons, m, 1u16);
    }
}

/// Whether a `pointerdown`/`pointerup` should be handled on the pointer path:
/// every pointer type but `"mouse"`, whose buttons are routed through the
/// per-button mouse listeners instead.
pub fn should_handle_pointer_button_event(pointer_type: &str) -> (handle: bool)
    ensures
        handle == (pointer_type@ != "mouse"@),
{
    let given = pointer_type.as_bytes();
    let mouse = "mouse".as_bytes();
    let mut same = given.len() == mouse.len();
    if same {
        let mut i: usize = 0;
        while i < given.len()
            invariant
                given.len() == mouse.len(),
                i <= given.len(),
                same == (forall|j: int| 0 <= j < i ==> given@[j] == mouse@[j]),
            decreases given.len() - i,
        {
            if given[i] != mouse[i] {
                same = false;
            }
            i = i + 1;
        }
        assert(same ==> given@ =~= mouse@);
    }
    proof {
        vstd::utf8::encode_utf8_decode_utf8(pointer_type@);
        vstd::utf8::encode_utf8_decode_utf8("mouse"@);
    }
    !same
}

} // verus!
