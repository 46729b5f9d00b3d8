use param_knob::action::Action;
use param_knob::granular::granular_drag_start;
use param_knob::knob::{alt_entry_focus_step, slider_ui_actions, PointerFrame};

fn frame(
    drag_started: bool,
    pointer_down: bool,
    command: bool,
    shift: bool,
    double_clicked: bool,
    drag_released: bool,
) -> PointerFrame {
    PointerFrame {
        drag_started,
        pointer_down,
        command,
        shift,
        alt: false,
        draw_value: true,
        double_clicked,
        drag_released,
    }
}

fn with_alt(f: PointerFrame, alt: bool, draw_value: bool) -> PointerFrame {
    PointerFrame { alt, draw_value, ..f }
}

fn all_frames() -> Vec<PointerFrame> {
    let mut frames = Vec::new();
    for bits in 0u32..256 {
        let f = frame(
            bits & 1 != 0,
            bits & 2 != 0,
            bits & 4 != 0,
            bits & 8 != 0,
            bits & 16 != 0,
            bits & 32 != 0,
        );
        frames.push(with_alt(f, bits & 64 != 0, bits & 128 != 0));
    }
    frames
}

#[test]
fn idle_frame_does_nothing() {
    assert_eq!(slider_ui_actions(&frame(false, false, false, false, false, false)), vec![]);
}

#[test]
fn plain_press_sets_value_from_pointer() {
    assert_eq!(
        slider_ui_actions(&frame(false, true, false, false, false, false)),
        vec![Action::SetFromPointer, Action::MarkChanged, Action::ResetGranularDrag]
    );
}

#[test]
fn drag_start_opens_gesture_and_forgets_fine_drag() {
    assert_eq!(
        slider_ui_actions(&frame(true, true, false, false, false, false)),
        vec![
            Action::BeginGesture,
            Action::ResetGranularDrag,
            Action::SetFromPointer,
            Action::MarkChanged,
            Action::ResetGranularDrag,
        ]
    );
}

#[test]
fn command_click_resets_to_default() {
    assert_eq!(
        slider_ui_actions(&frame(false, true, true, false, false, false)),
        vec![Action::ResetToDefault, Action::MarkChanged]
    );
    // The command modifier wins over shift.
    assert_eq!(
        slider_ui_actions(&frame(false, true, true, true, false, false)),
        vec![Action::ResetToDefault, Action::MarkChanged]
    );
}

#[test]
fn shift_drag_is_granular() {
    assert_eq!(
        slider_ui_actions(&frame(false, true, false, true, false, false)),
        vec![Action::GranularDrag, Action::MarkChanged]
    );
}

#[test]
fn double_click_resets_to_default() {
    assert_eq!(
        slider_ui_actions(&frame(false, false, false, false, true, false)),
        vec![Action::ResetToDefault, Action::MarkChanged]
    );
    assert_eq!(
        slider_ui_actions(&frame(false, true, false, false, true, false)),
        vec![
            Action::SetFromPointer,
            Action::MarkChanged,
            Action::ResetGranularDrag,
            Action::ResetToDefault,
            Action::MarkChanged,
        ]
    );
}

#[test]
fn release_closes_gesture_last() {
    assert_eq!(
        slider_ui_actions(&frame(false, true, false, true, true, true)),
        vec![
            Action::GranularDrag,
            Action::MarkChanged,
            Action::ResetToDefault,
            Action::MarkChanged,
            Action::EndGesture,
        ]
    );
}

#[test]
fn every_frame_obeys_the_knob_laws() {
    for f in all_frames() {
        let a = slider_ui_actions(&f);
        let resets = a.contains(&Action::ResetToDefault);
        assert_eq!(resets, (f.pointer_down && f.command) || f.double_clicked);
        let entry = f.alt && f.draw_value;
        assert_eq!(
            a.contains(&Action::GranularDrag),
            f.pointer_down && !f.command && !entry && f.shift
        );
        assert_eq!(
            a.contains(&Action::SetFromPointer),
            f.pointer_down && !f.command && !entry && !f.shift
        );
        assert_eq!(
            a.contains(&Action::ResetGranularDrag),
            f.drag_started || (f.pointer_down && !f.command && !entry && !f.shift)
        );
        assert_eq!(a.contains(&Action::RequestFocus), f.pointer_down && !f.command && entry);
        assert_eq!(a.contains(&Action::BeginGesture), f.drag_started);
        assert_eq!(a.contains(&Action::EndGesture), f.drag_released);
        for (i, x) in a.iter().enumerate() {
            if *x == Action::BeginGesture {
                assert_eq!(i, 0);
            }
            if *x == Action::EndGesture {
                assert_eq!(i, a.len() - 1);
            }
            if matches!(x, Action::ResetToDefault | Action::GranularDrag | Action::SetFromPointer) {
                assert_eq!(a[i + 1], Action::MarkChanged);
            }
        }
    }
}

#[test]
fn alt_click_opens_text_entry() {
    let f = with_alt(frame(false, true, false, false, false, false), true, true);
    assert_eq!(slider_ui_actions(&f), vec![Action::RequestFocus, Action::LoadCurrentText]);
    // Alt wins over shift, as the command modifier wins over both.
    let f = with_alt(frame(false, true, false, true, false, false), true, true);
    assert_eq!(slider_ui_actions(&f), vec![Action::RequestFocus, Action::LoadCurrentText]);
    let f = with_alt(frame(false, true, true, false, false, false), true, true);
    assert_eq!(slider_ui_actions(&f), vec![Action::ResetToDefault, Action::MarkChanged]);
}

#[test]
fn alt_click_without_value_text_sets_from_pointer() {
    let f = with_alt(frame(false, true, false, false, false, false), true, false);
    assert_eq!(
        slider_ui_actions(&f),
        vec![Action::SetFromPointer, Action::MarkChanged, Action::ResetGranularDrag]
    );
}

#[test]
fn fresh_fine_drag_starts_at_current_value() {
    assert_eq!(granular_drag_start(true, 0.25f32, Some(0.75f32), 0.5f32), (0.25f32, true));
}

#[test]
fn continued_fine_drag_starts_at_remembered_value() {
    assert_eq!(granular_drag_start(false, 0.25f32, Some(0.75f32), 0.5f32), (0.75f32, false));
}

#[test]
fn continued_fine_drag_without_memory_uses_fallback() {
    assert_eq!(granular_drag_start(false, 0.25f32, None, 0.5f32), (0.5f32, false));
}

#[test]
fn fine_drag_start_is_stable_across_frames() {
    let (start, keep) = granular_drag_start(true, 0.3f32, None, 0.5f32);
    assert!(keep);
    let remembered = if keep { Some(start) } else { None };
    let (later, keep_later) = granular_drag_start(false, 0.9f32, remembered, 0.5f32);
    assert_eq!(later, 0.3f32);
    assert!(!keep_later);
}

#[test]
fn alt_entry_refocuses_once_the_press_ends() {
    // The Alt+click frame: the pointer is held, nothing to redo yet.
    assert_eq!(alt_entry_focus_step(false, true, true), (false, true));
    // Still held: keep waiting.
    assert_eq!(alt_entry_focus_step(true, false, true), (false, true));
    // Released: take the focus again, once.
    assert_eq!(alt_entry_focus_step(true, false, false), (true, false));
    // Afterwards nothing happens, held or not.
    assert_eq!(alt_entry_focus_step(false, false, false), (false, false));
    assert_eq!(alt_entry_focus_step(false, false, true), (false, false));
}
