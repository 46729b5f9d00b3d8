use param_knob::action::Action;
use param_knob::text_entry::{parsed_text_outcome, value_ui_actions, EntryFrame};

fn frame(entry_active: bool, escape_pressed: bool, enter_pressed: bool, label_clicked: bool) -> EntryFrame {
    EntryFrame { entry_active, escape_pressed, enter_pressed, label_clicked }
}

#[test]
fn clicking_label_starts_entry_with_current_text() {
    assert_eq!(
        value_ui_actions(&frame(false, false, false, true)),
        vec![Action::RequestFocus, Action::LoadCurrentText]
    );
}

#[test]
fn label_without_click_does_nothing() {
    // Key presses are not read while the label is shown.
    assert_eq!(value_ui_actions(&frame(false, true, true, false)), vec![]);
}

#[test]
fn escape_cancels_entry() {
    assert_eq!(value_ui_actions(&frame(true, true, false, false)), vec![Action::SurrenderFocus]);
    assert_eq!(value_ui_actions(&frame(true, true, true, false)), vec![Action::SurrenderFocus]);
}

#[test]
fn enter_applies_text_inside_gesture() {
    assert_eq!(
        value_ui_actions(&frame(true, false, true, true)),
        vec![Action::BeginGesture, Action::ApplyText, Action::EndGesture, Action::SurrenderFocus]
    );
}

#[test]
fn typing_without_keys_does_nothing() {
    assert_eq!(value_ui_actions(&frame(true, false, false, true)), vec![]);
}

#[test]
fn every_frame_obeys_the_entry_laws() {
    for bits in 0u32..16 {
        let f = frame(bits & 1 != 0, bits & 2 != 0, bits & 4 != 0, bits & 8 != 0);
        let a = value_ui_actions(&f);
        assert_eq!(a.contains(&Action::ApplyText), f.entry_active && !f.escape_pressed && f.enter_pressed);
        assert_eq!(a.contains(&Action::RequestFocus), !f.entry_active && f.label_clicked);
        assert_eq!(
            a.contains(&Action::SurrenderFocus),
            f.entry_active && (f.escape_pressed || f.enter_pressed)
        );
        for (i, x) in a.iter().enumerate() {
            if *x == Action::ApplyText {
                assert_eq!(a[i - 1], Action::BeginGesture);
                assert_eq!(a[i + 1], Action::EndGesture);
                assert_eq!(a[i + 2], Action::SurrenderFocus);
            }
        }
    }
}

#[test]
fn parsed_text_is_written_and_accepted() {
    assert_eq!(parsed_text_outcome(Some(0.4f32)), (Some(0.4f32), true));
}

#[test]
fn unparsable_text_is_rejected() {
    assert_eq!(parsed_text_outcome::<f32>(None), (None, false));
}
