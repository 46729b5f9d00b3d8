use vstd::prelude::*;

use crate::action::{
    lemma_occurrences_concat, lemma_occurrences_small, occurrences, one_if, writes_value, Action,
};

verus! {

/// What the knob's response reports for one frame.
#[derive(PartialEq, Eq, Structural, Clone, Copy, Debug)]
pub struct PointerFrame {
    /// A drag on the knob started this frame.
    pub drag_started: bool,
    /// The pointer is pressed on the knob (it has an interaction position).
    pub pointer_down: bool,
    /// The command modifier (Ctrl, or Cmd on macOS) is held.
    pub command: bool,
    /// The shift modifier is held.
    pub shift: bool,
    /// The alt modifier is held.
    pub alt: bool,
    /// The knob draws its value text next to it (text entry lives there).
    pub draw_value: bool,
    /// The knob was double clicked this frame.
    pub double_clicked: bool,
    /// A drag on the knob was released this frame.
    pub drag_released: bool,
}

/// Starting a drag opens a gesture and forgets any fine drag in progress.
pub open spec fn drag_start_part(f: PointerFrame) -> Seq<Action> {
    if f.drag_started {
        seq![Action::BeginGesture, Action::ResetGranularDrag]
    } else {
        seq![]
    }
}

/// Whether a press with the alt modifier opens text entry: only when the value
/// text, where the entry is shown, is drawn.
pub open spec fn alt_opens_entry(f: PointerFrame) -> bool {
    f.alt && f.draw_value
}

/// A pressed pointer resets with the command modifier, opens text entry with
/// alt (when the value text is drawn), drags finely with shift, and otherwise
/// sets the value from the pointer and forgets the fine drag.
pub open spec fn pointer_part(f: PointerFrame) -> Seq<Action> {
    if !f.pointer_down {
        seq![]
    } else if f.command {
        seq![Action::ResetToDefault, Action::MarkChanged]
    } else if alt_opens_entry(f) {
        seq![Action::RequestFocus, Action::LoadCurrentText]
    } else if f.shift {
        seq![Action::GranularDrag, Action::MarkChanged]
    } else {
        seq![Action::SetFromPointer, Action::MarkChanged, Action::ResetGranularDrag]
    }
}

/// A double click resets the parameter.
pub open spec fn double_click_part(f: PointerFrame) -> Seq<Action> {
    if f.double_clicked {
        seq![Action::ResetToDefault, Action::MarkChanged]
    } else {
        seq![]
    }
}

/// Releasing a drag closes the gesture.
pub open spec fn drag_release_part(f: PointerFrame) -> Seq<Action> {
    if f.drag_released {
        seq![Action::EndGesture]
    } else {
        seq![]
    }
}

/// The actions of one frame of knob input, in order.
pub open spec fn slider_actions_spec(f: PointerFrame) -> Seq<Action> {
    drag_start_part(f) + pointer_part(f) + double_click_part(f) + drag_release_part(f)
}

/// Decides what the knob does with one frame of pointer input.
pub fn slider_ui_actions(frame: &PointerFrame) -> (actions: Vec<Action>)
    ensures
        actions@ == slider_actions_spec(*frame),
{
    let mut actions: Vec<Action> = Vec::new();
    if frame.drag_started {
        // A new drag starts from scratch, also for the fine drag.
        actions.push(Action::BeginGesture);
        actions.push(Action::ResetGranularDrag);
    }
    assert(actions@ =~= drag_start_part(*frame));
    let ghost before_pointer = actions@;
    if frame.pointer_down {
        if frame.command {
            actions.push(Action::ResetToDefault);
            actions.push(Action::MarkChanged);
        } else if frame.alt && frame.draw_value {
            // Type the value in on an Alt+click; the entry field is part of the
            // value text, so this only makes sense when that is drawn.
            actions.push(Action::RequestFocus);
            actions.push(Action::LoadCurrentText);
        } else if frame.shift {
            actions.push(Action::GranularDrag);
            actions.push(Action::MarkChanged);
        } else {
            actions.push(Action::SetFromPointer);
            actions.push(Action::MarkChanged);
            actions.push(Action::ResetGranularDrag);
        }
    }
    assert(actions@ =~= before_pointer + pointer_part(*frame));
    let ghost before_double = actions@;
    if frame.double_clicked {
        actions.push(Action::ResetToDefault);
        actions.push(Action::MarkChanged);
    }
    assert(actions@ =~= before_double + double_click_part(*frame));
    let ghost before_release = actions@;
    if frame.drag_released {
        actions.push(Action::EndGesture);
    }
    assert(actions@ =~= before_release + drag_release_part(*frame));
    actions
}


/// Membership in a concatenation is membership in one of its halves.
proof fn lemma_contains_concat(a: Seq<Action>, b: Seq<Action>, x: Action)
    ensures
        (a + b).contains(x) <==> (a.contains(x) || b.contains(x)),
{
    if a.contains(x) {
        let i = choose|i: int| 0 <= i < a.len() && a[i] == x;
        assert((a + b)[i] == x);
    }
    if b.contains(x) {
        let j = choose|j: int| 0 <= j < b.len() && b[j] == x;
        assert((a + b)[a.len() + j] == x);
    }
    if (a + b).contains(x) {
        let k = choose|k: int| 0 <= k < (a + b).len() && (a + b)[k] == x;
        if k < a.len() {
            assert(a[k] == x);
        } else {
            assert(b[k - a.len()] == x);
        }
    }
}

/// Membership in the actions of a frame is membership in one of its four parts.
proof fn lemma_contains_parts(f: PointerFrame, x: Action)
    ensures
        slider_actions_spec(f).contains(x) <==> (drag_start_part(f).contains(x)
            || pointer_part(f).contains(x) || double_click_part(f).contains(x)
            || drag_release_part(f).contains(x)),
{
    lemma_contains_concat(drag_start_part(f), pointer_part(f), x);
    lemma_contains_concat(drag_start_part(f) + pointer_part(f), double_click_part(f), x);
    lemma_contains_concat(
        drag_start_part(f) + pointer_part(f) + double_click_part(f),
        drag_release_part(f),
        x,
    );
    lemma_small_contains(drag_start_part(f), x);
    lemma_small_contains(pointer_part(f), x);
    lemma_small_contains(double_click_part(f), x);
    lemma_small_contains(drag_release_part(f), x);
}

/// Membership in a sequence of at most three actions, spelled out.
proof fn lemma_small_contains(s: Seq<Action>, x: Action)
    requires
        s.len() <= 3,
    ensures
        s.contains(x) <==> ((s.len() > 0 && s[0] == x) || (s.len() > 1 && s[1] == x) || (
        s.len() > 2 && s[2] == x)),
{
    // Mentioning each index hands the solver the witness for membership.
    if s.len() > 0 {
        assert(s[0] == s[0]);
    }
    if s.len() > 1 {
        assert(s[1] == s[1]);
    }
    if s.len() > 2 {
        assert(s[2] == s[2]);
    }
}

/// Law: the parameter is reset to its default exactly when the knob is clicked
/// with the command modifier held or double clicked.
pub proof fn law_reset_on_command_click_or_double_click(f: PointerFrame)
    ensures
        slider_actions_spec(f).contains(Action::ResetToDefault) <==> ((f.pointer_down
            && f.command) || f.double_clicked),
{
    lemma_contains_parts(f, Action::ResetToDefault);
}

/// Law: shift-dragging (without the command modifier, and without alt opening
/// text entry) moves the value finely, and a fine drag happens in no other case;
/// it never also sets the value from the pointer position.
pub proof fn law_shift_drag_is_granular(f: PointerFrame)
    ensures
        slider_actions_spec(f).contains(Action::GranularDrag) <==> (f.pointer_down && !f.command
            && !alt_opens_entry(f) && f.shift),
        slider_actions_spec(f).contains(Action::GranularDrag) ==> !slider_actions_spec(
            f,
        ).contains(Action::SetFromPointer),
{
    lemma_contains_parts(f, Action::GranularDrag);
    lemma_contains_parts(f, Action::SetFromPointer);
}

/// Law: a plain press (no modifier that means something else) sets the value
/// from the pointer position.
pub proof fn law_plain_press_sets_from_pointer(f: PointerFrame)
    ensures
        slider_actions_spec(f).contains(Action::SetFromPointer) <==> (f.pointer_down
            && !f.command && !alt_opens_entry(f) && !f.shift),
{
    lemma_contains_parts(f, Action::SetFromPointer);
}

/// Law: the distance of a fine drag is forgotten exactly when a drag starts or the
/// knob is used in the normal way; a fine drag that continues keeps it.
pub proof fn law_granular_memory_reset(f: PointerFrame)
    ensures
        slider_actions_spec(f).contains(Action::ResetGranularDrag) <==> (f.drag_started || (
        f.pointer_down && !f.command && !alt_opens_entry(f) && !f.shift)),
{
    lemma_contains_parts(f, Action::ResetGranularDrag);
}

/// Law: an Alt+click on the knob (without the command modifier) opens text entry
/// on the value, loading the current value as text, exactly when the value text
/// is drawn; it then writes nothing to the parameter from the pointer. Text
/// entry is opened by the knob in no other case.
pub proof fn law_alt_click_opens_text_entry(f: PointerFrame)
    ensures
        slider_actions_spec(f).contains(Action::RequestFocus) <==> (f.pointer_down
            && !f.command && f.alt && f.draw_value),
        (f.pointer_down && !f.command && f.alt && f.draw_value) ==> pointer_part(f) == seq![
            Action::RequestFocus,
            Action::LoadCurrentText,
        ],
        slider_actions_spec(f).contains(Action::RequestFocus) ==> !slider_actions_spec(
            f,
        ).contains(Action::SetFromPointer) && !slider_actions_spec(f).contains(
            Action::GranularDrag,
        ),
{
    lemma_contains_parts(f, Action::RequestFocus);
    lemma_contains_parts(f, Action::SetFromPointer);
    lemma_contains_parts(f, Action::GranularDrag);
}

/// Law: every write to the parameter is directly followed by marking the widget
/// as changed.
pub proof fn law_writes_are_marked_changed(f: PointerFrame)
    ensures
        forall|i: int|
            0 <= i < slider_actions_spec(f).len() && #[trigger] writes_value(
                slider_actions_spec(f)[i],
            ) ==> i + 1 < slider_actions_spec(f).len() && slider_actions_spec(f)[i + 1]
                == Action::MarkChanged,
{
    let a = drag_start_part(f);
    let b = pointer_part(f);
    let c = double_click_part(f);
    let d = drag_release_part(f);
    let s = slider_actions_spec(f);
    assert forall|i: int| 0 <= i < s.len() && #[trigger] writes_value(s[i]) implies i + 1
        < s.len() && s[i + 1] == Action::MarkChanged by {
        if i < a.len() {
            assert(s[i] == a[i]);
        } else if i < a.len() + b.len() {
            assert(s[i] == b[i - a.len()]);
            assert(s[i + 1] == b[i + 1 - a.len()]);
        } else if i < a.len() + b.len() + c.len() {
            assert(s[i] == c[i - a.len() - b.len()]);
            assert(s[i + 1] == c[i + 1 - a.len() - b.len()]);
        } else {
            assert(s[i] == d[i - a.len() - b.len() - c.len()]);
        }
    }
}

/// Law: a gesture is opened exactly when a drag starts, and then by the first
/// action and by no other.
pub proof fn law_gesture_opens_first(f: PointerFrame)
    ensures
        slider_actions_spec(f).contains(Action::BeginGesture) <==> f.drag_started,
        forall|i: int|
            0 <= i < slider_actions_spec(f).len() && #[trigger] slider_actions_spec(f)[i]
                == Action::BeginGesture ==> i == 0,
{
    assert(slider_actions_spec(f).contains(Action::BeginGesture) <==> f.drag_started) by {
        lemma_contains_parts(f, Action::BeginGesture);
    }
    lemma_locate(f, Action::BeginGesture);
}

/// Law: a gesture is closed exactly when a drag is released, and then by the last
/// action and by no other.
pub proof fn law_gesture_closes_last(f: PointerFrame)
    ensures
        slider_actions_spec(f).contains(Action::EndGesture) <==> f.drag_released,
        forall|i: int|
            0 <= i < slider_actions_spec(f).len() && #[trigger] slider_actions_spec(f)[i]
                == Action::EndGesture ==> i == slider_actions_spec(f).len() - 1,
{
    assert(slider_actions_spec(f).contains(Action::EndGesture) <==> f.drag_released) by {
        lemma_contains_parts(f, Action::EndGesture);
        if f.drag_released {
            assert(drag_release_part(f)[0] == Action::EndGesture);
        }
    }
    lemma_locate(f, Action::EndGesture);
}

/// Where an action of a frame comes from: each index lies in one of the parts.
proof fn lemma_locate(f: PointerFrame, x: Action)
    ensures
        forall|i: int|
            0 <= i < slider_actions_spec(f).len() && #[trigger] slider_actions_spec(f)[i] == x
                ==> {
                let la = drag_start_part(f).len();
                let lb = pointer_part(f).len();
                let lc = double_click_part(f).len();
                ||| (i < la && drag_start_part(f)[i] == x)
                ||| (la <= i < la + lb && pointer_part(f)[i - la] == x)
                ||| (la + lb <= i < la + lb + lc && double_click_part(f)[i - la - lb] == x)
                ||| (la + lb + lc <= i && drag_release_part(f)[i - la - lb - lc] == x)
            },
{
    let a = drag_start_part(f);
    let b = pointer_part(f);
    let c = double_click_part(f);
    let d = drag_release_part(f);
    let s = slider_actions_spec(f);
    assert forall|i: int| 0 <= i < s.len() && #[trigger] s[i] == x implies {
        ||| (i < a.len() && a[i] == x)
        ||| (a.len() <= i < a.len() + b.len() && b[i - a.len()] == x)
        ||| (a.len() + b.len() <= i < a.len() + b.len() + c.len() && c[i - a.len() - b.len()]
            == x)
        ||| (a.len() + b.len() + c.len() <= i && d[i - a.len() - b.len() - c.len()] == x)
    } by {
        if i < a.len() {
            assert(s[i] == a[i]);
        } else if i < a.len() + b.len() {
            assert(s[i] == b[i - a.len()]);
        } else if i < a.len() + b.len() + c.len() {
            assert(s[i] == c[i - a.len() - b.len()]);
        } else {
            assert(s[i] == d[i - a.len() - b.len() - c.len()]);
        }
    }
}

/// Whether text entry opened by an Alt+click still waits for the press to end,
/// and whether the text field's focus is to be requested again this frame.
///
/// Releasing the press that opened text entry hands the keyboard focus back to
/// the knob; so the entry stays pending while the pointer is held, and on the
/// first frame the pointer is up the focus is requested again and the entry is
/// no longer pending.
pub open spec fn alt_entry_focus_spec(pending: bool, opened_now: bool, pointer_held: bool) -> (
    bool,
    bool,
) {
    let waiting = pending || opened_now;
    (waiting && !pointer_held, waiting && pointer_held)
}

/// One frame of the Alt+click text entry's focus keeping: `pending` is the state
/// left by the previous frame, `opened_now` whether this frame's actions opened
/// text entry (`RequestFocus` from the knob), `pointer_held` whether any pointer
/// button is down. Returns whether to request the text field's focus again, and
/// the state for the next frame.
pub fn alt_entry_focus_step(pending: bool, opened_now: bool, pointer_held: bool) -> (step: (
    bool,
    bool,
))
    ensures
        step == alt_entry_focus_spec(pending, opened_now, pointer_held),
{
    let waiting = pending || opened_now;
    if waiting && !pointer_held {
        (true, false)
    } else {
        (false, waiting)
    }
}

/// Law: after an Alt+click opens text entry, the focus is requested again on
/// the first frame the pointer is up, and only then: not while the press lasts,
/// and not on any frame after that until text entry is opened again.
pub proof fn law_alt_entry_refocus_once()
    ensures
        ({
            let (refocus_at_click, pending) = alt_entry_focus_spec(false, true, true);
            &&& !refocus_at_click
            &&& pending
            &&& !alt_entry_focus_spec(pending, false, true).0
            &&& alt_entry_focus_spec(pending, false, true).1
            &&& alt_entry_focus_spec(pending, false, false) == (true, false)
        }),
        forall|held: bool| #[trigger] alt_entry_focus_spec(false, false, held) == (false, false),
{
}

/// The occurrences of an action in a frame's actions are those in its four parts.
proof fn lemma_occurrences_parts(f: PointerFrame, x: Action)
    ensures
        occurrences(slider_actions_spec(f), x) == occurrences(drag_start_part(f), x)
            + occurrences(pointer_part(f), x) + occurrences(double_click_part(f), x)
            + occurrences(drag_release_part(f), x),
        occurrences(drag_start_part(f), x) == one_if(f.drag_started && x == Action::BeginGesture)
            + one_if(f.drag_started && x == Action::ResetGranularDrag),
        occurrences(double_click_part(f), x) == one_if(f.double_clicked && x
            == Action::ResetToDefault) + one_if(f.double_clicked && x == Action::MarkChanged),
        occurrences(drag_release_part(f), x) == one_if(f.drag_released && x == Action::EndGesture),
        occurrences(pointer_part(f), x) == one_if(pointer_part(f).len() > 0 && pointer_part(f)[0]
            == x) + one_if(pointer_part(f).len() > 1 && pointer_part(f)[1] == x) + one_if(
            pointer_part(f).len() > 2 && pointer_part(f)[2] == x),
{
    let a = drag_start_part(f);
    let b = pointer_part(f);
    let c = double_click_part(f);
    let d = drag_release_part(f);
    lemma_occurrences_concat(a, b, x);
    lemma_occurrences_concat(a + b, c, x);
    lemma_occurrences_concat(a + b + c, d, x);
    lemma_occurrences_small(a, x);
    lemma_occurrences_small(b, x);
    lemma_occurrences_small(c, x);
    lemma_occurrences_small(d, x);
}

/// Law: a frame opens a gesture once when a drag starts and closes one once when
/// a drag is released, and never otherwise.
pub proof fn law_gesture_counts(f: PointerFrame)
    ensures
        occurrences(slider_actions_spec(f), Action::BeginGesture) == one_if(f.drag_started),
        occurrences(slider_actions_spec(f), Action::EndGesture) == one_if(f.drag_released),
{
    lemma_occurrences_parts(f, Action::BeginGesture);
    lemma_occurrences_parts(f, Action::EndGesture);
}

/// Law: how often a frame writes the parameter. It resets once for a command
/// click and once for a double click; it drags finely at most once, on a shift
/// press (no command, no Alt text entry); it sets the value from the pointer at
/// most once, on a plain press; and it marks the widget changed once per write.
pub proof fn law_write_counts(f: PointerFrame)
    ensures
        occurrences(slider_actions_spec(f), Action::ResetToDefault) == one_if(f.pointer_down
            && f.command) + one_if(f.double_clicked),
        occurrences(slider_actions_spec(f), Action::GranularDrag) == one_if(f.pointer_down
            && !f.command && !(f.alt && f.draw_value) && f.shift),
        occurrences(slider_actions_spec(f), Action::SetFromPointer) == one_if(f.pointer_down
            && !f.command && !(f.alt && f.draw_value) && !f.shift),
        occurrences(slider_actions_spec(f), Action::MarkChanged) == one_if(f.pointer_down && (
        f.command || !(f.alt && f.draw_value))) + one_if(f.double_clicked),
{
    lemma_occurrences_parts(f, Action::ResetToDefault);
    lemma_occurrences_parts(f, Action::GranularDrag);
    lemma_occurrences_parts(f, Action::SetFromPointer);
    lemma_occurrences_parts(f, Action::MarkChanged);
}

/// Law: the fine-drag memory is cleared once when a drag starts and once on a
/// plain press; the knob opens text entry (focus, then the current text) once
/// on an Alt+click with the value text drawn; and it never applies text or
/// gives up focus itself.
pub proof fn law_memory_and_entry_counts(f: PointerFrame)
    ensures
        occurrences(slider_actions_spec(f), Action::ResetGranularDrag) == one_if(f.drag_started)
            + one_if(f.pointer_down && !f.command && !(f.alt && f.draw_value) && !f.shift),
        occurrences(slider_actions_spec(f), Action::RequestFocus) == one_if(f.pointer_down
            && !f.command && f.alt && f.draw_value),
        occurrences(slider_actions_spec(f), Action::LoadCurrentText) == one_if(f.pointer_down
            && !f.command && f.alt && f.draw_value),
        occurrences(slider_actions_spec(f), Action::ApplyText) == 0,
        occurrences(slider_actions_spec(f), Action::SurrenderFocus) == 0,
{
    lemma_occurrences_parts(f, Action::ResetGranularDrag);
    lemma_occurrences_parts(f, Action::RequestFocus);
    lemma_occurrences_parts(f, Action::LoadCurrentText);
    lemma_occurrences_parts(f, Action::ApplyText);
    lemma_occurrences_parts(f, Action::SurrenderFocus);
}

/// Law: the number of actions of a frame: two for a drag start, two or (on a
/// plain press) three for a pressed pointer, two for a double click and one for
/// a release.
pub proof fn law_frame_length(f: PointerFrame)
    ensures
        slider_actions_spec(f).len() == 2 * one_if(f.drag_started) + 2 * one_if(f.pointer_down)
            + one_if(f.pointer_down && !f.command && !(f.alt && f.draw_value) && !f.shift) + 2
            * one_if(f.double_clicked) + one_if(f.drag_released),
{
}

/// Law: a frame in which a drag starts opens the gesture and clears the
/// fine-drag memory before anything else, so a fine drag that starts with the
/// drag measures from the knob's current value. The first frame of a shift-drag
/// is exactly: open the gesture, clear the memory, drag finely, mark changed.
pub proof fn law_drag_start_clears_fine_drag_first(f: PointerFrame)
    ensures
        f.drag_started ==> slider_actions_spec(f)[0] == Action::BeginGesture
            && slider_actions_spec(f)[1] == Action::ResetGranularDrag,
        f.drag_started ==> forall|i: int|
            0 <= i < slider_actions_spec(f).len() && #[trigger] slider_actions_spec(f)[i]
                == Action::GranularDrag ==> 1 < i,
        (f.drag_started && f.pointer_down && !f.command && !(f.alt && f.draw_value) && f.shift
            && !f.double_clicked && !f.drag_released) ==> slider_actions_spec(f) == seq![
            Action::BeginGesture,
            Action::ResetGranularDrag,
            Action::GranularDrag,
            Action::MarkChanged,
        ],
{
    lemma_locate(f, Action::GranularDrag);
    let s = slider_actions_spec(f);
    if f.drag_started && f.pointer_down && !f.command && !(f.alt && f.draw_value) && f.shift
        && !f.double_clicked && !f.drag_released {
        assert(s =~= seq![
            Action::BeginGesture,
            Action::ResetGranularDrag,
            Action::GranularDrag,
            Action::MarkChanged,
        ]);
    }
}

/// Law: right after what a drag start does (two actions, or none), a plain
/// press sets the value from the pointer, marks the widget changed and clears
/// the fine-drag memory (and, by `law_write_counts`, sets it nowhere else); an
/// Alt+click asks for focus and then loads the current value as text (and, by
/// `law_memory_and_entry_counts`, does so nowhere else).
pub proof fn law_pointer_follow_ups(f: PointerFrame)
    ensures
        (f.pointer_down && !f.command && !(f.alt && f.draw_value) && !f.shift) ==> {
            let k: int = (2 * one_if(f.drag_started)) as int;
            &&& slider_actions_spec(f)[k] == Action::SetFromPointer
            &&& slider_actions_spec(f)[k + 1] == Action::MarkChanged
            &&& slider_actions_spec(f)[k + 2] == Action::ResetGranularDrag
        },
        (f.pointer_down && !f.command && f.alt && f.draw_value) ==> {
            let k: int = (2 * one_if(f.drag_started)) as int;
            &&& slider_actions_spec(f)[k] == Action::RequestFocus
            &&& slider_actions_spec(f)[k + 1] == Action::LoadCurrentText
        },
{
    let a = drag_start_part(f);
    let b = pointer_part(f);
    let s = slider_actions_spec(f);
    let la: int = a.len() as int;
    assert(la == 2 * one_if(f.drag_started));
    if f.pointer_down && !f.command && !(f.alt && f.draw_value) && !f.shift {
        assert(s[la] == b[0]);
        assert(s[la + 1] == b[1]);
        assert(s[la + 2] == b[2]);
    }
    if f.pointer_down && !f.command && f.alt && f.draw_value {
        assert(s[la] == b[0]);
        assert(s[la + 1] == b[1]);
    }
}

/// Law: the text field's focus is asked for again only while text entry opened
/// by an Alt+click is waiting and no pointer button is held, and then always;
/// after that nothing is waiting. While a button is held, a waiting entry keeps
/// waiting and nothing is asked for.
pub proof fn law_alt_entry_refocus_rule(pending: bool, opened_now: bool, pointer_held: bool)
    ensures
        alt_entry_focus_spec(pending, opened_now, pointer_held).0 <==> ((pending || opened_now)
            && !pointer_held),
        alt_entry_focus_spec(pending, opened_now, pointer_held).1 <==> ((pending || opened_now)
            && pointer_held),
        !(alt_entry_focus_spec(pending, opened_now, pointer_held).0 && alt_entry_focus_spec(
            pending,
            opened_now,
            pointer_held,
        ).1),
{
}

} // verus!
