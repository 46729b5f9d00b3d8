use vstd::prelude::*;

use crate::action::{lemma_occurrences_small, occurrences, one_if, Action};

verus! {

/// What the value text next to the knob reports for one frame.
#[derive(PartialEq, Eq, Structural, Clone, Copy, Debug)]
pub struct EntryFrame {
    /// The text field has keyboard focus: the value is being typed in.
    pub entry_active: bool,
    /// Escape was pressed this frame (read only while typing).
    pub escape_pressed: bool,
    /// Enter was pressed this frame (read only while typing).
    pub enter_pressed: bool,
    /// The value label was clicked this frame (read only while not typing).
    pub label_clicked: bool,
}

/// The actions of one frame of the value text, in order: while typing, escape
/// cancels and enter applies the text inside a gesture and then leaves; while
/// not typing, a click on the label starts typing, with the current value as
/// the initial text.
pub open spec fn value_actions_spec(f: EntryFrame) -> Seq<Action> {
    if f.entry_active {
        if f.escape_pressed {
            seq![Action::SurrenderFocus]
        } else if f.enter_pressed {
            seq![
                Action::BeginGesture,
                Action::ApplyText,
                Action::EndGesture,
                Action::SurrenderFocus,
            ]
        } else {
            seq![]
        }
    } else if f.label_clicked {
        seq![Action::RequestFocus, Action::LoadCurrentText]
    } else {
        seq![]
    }
}

/// Decides what the value text does with one frame of input.
pub fn value_ui_actions(frame: &EntryFrame) -> (actions: Vec<Action>)
    ensures
        actions@ == value_actions_spec(*frame),
{
    let mut actions: Vec<Action> = Vec::new();
    if frame.entry_active {
        if frame.escape_pressed {
            // Cancel when pressing escape.
            actions.push(Action::SurrenderFocus);
        } else if frame.enter_pressed {
            // Try to set the value from the text when pressing enter.
            actions.push(Action::BeginGesture);
            actions.push(Action::ApplyText);
            actions.push(Action::EndGesture);
            actions.push(Action::SurrenderFocus);
        }
    } else if frame.label_clicked {
        // Start typing, from the current value rather than from scratch.
        actions.push(Action::RequestFocus);
        actions.push(Action::LoadCurrentText);
    }
    assert(actions@ =~= value_actions_spec(*frame));
    actions
}

/// Law: escape while typing cancels: focus is given up and no text is applied,
/// whether or not enter was pressed too.
pub proof fn law_escape_cancels(f: EntryFrame)
    requires
        f.entry_active,
        f.escape_pressed,
    ensures
        value_actions_spec(f) == seq![Action::SurrenderFocus],
        !value_actions_spec(f).contains(Action::ApplyText),
{
    assert(value_actions_spec(f)[0] == Action::SurrenderFocus);
}

/// Law: text is applied only while typing, only on enter without escape, and
/// always inside a gesture of its own, after which typing ends.
pub proof fn law_text_applied_inside_gesture(f: EntryFrame)
    ensures
        value_actions_spec(f).contains(Action::ApplyText) <==> (f.entry_active
            && !f.escape_pressed && f.enter_pressed),
        forall|i: int|
            0 <= i < value_actions_spec(f).len() && #[trigger] value_actions_spec(f)[i]
                == Action::ApplyText ==> 0 < i && i + 2 < value_actions_spec(f).len()
                && value_actions_spec(f)[i - 1] == Action::BeginGesture
                && value_actions_spec(f)[i + 1] == Action::EndGesture
                && value_actions_spec(f)[i + 2] == Action::SurrenderFocus,
{
    let s = value_actions_spec(f);
    if f.entry_active && !f.escape_pressed && f.enter_pressed {
        assert(s[1] == Action::ApplyText);
    }
}

/// Law: typing starts only from the label, never while already typing, and the
/// field then starts from the current value; typing ends (focus is given up)
/// exactly on escape or enter while typing.
pub proof fn law_entry_focus(f: EntryFrame)
    ensures
        value_actions_spec(f).contains(Action::RequestFocus) <==> (!f.entry_active
            && f.label_clicked),
        value_actions_spec(f).contains(Action::RequestFocus) ==> value_actions_spec(f)
            == seq![Action::RequestFocus, Action::LoadCurrentText],
        value_actions_spec(f).contains(Action::SurrenderFocus) <==> (f.entry_active && (
        f.escape_pressed || f.enter_pressed)),
{
    let s = value_actions_spec(f);
    if !f.entry_active && f.label_clicked {
        assert(s[0] == Action::RequestFocus);
    }
    if f.entry_active && f.escape_pressed {
        assert(s[0] == Action::SurrenderFocus);
    } else if f.entry_active && f.enter_pressed {
        assert(s[3] == Action::SurrenderFocus);
    }
}

/// What applying typed text does once the parameter has parsed it: the parsed
/// normalized value, if any, is written, and the text is accepted exactly when
/// it parsed. `V` is the host's normalized value type.
pub fn parsed_text_outcome<V: Copy>(parsed: Option<V>) -> (outcome: (Option<V>, bool))
    ensures
        outcome == (parsed, parsed is Some),
{
    match parsed {
        Some(normalized) => (Some(normalized), true),
        None => (None, false),
    }
}

/// Law: how many actions a frame of the value text has: one when escape cancels
/// typing, four when enter applies the text, two when a click on the label
/// starts typing, and none otherwise; in particular nothing happens on a typing
/// frame without escape or enter, nor on an idle frame of the label.
pub proof fn law_entry_length(f: EntryFrame)
    ensures
        value_actions_spec(f).len() == one_if(f.entry_active && f.escape_pressed) + 4 * one_if(
            f.entry_active && !f.escape_pressed && f.enter_pressed,
        ) + 2 * one_if(!f.entry_active && f.label_clicked),
{
}

/// Law: how often each action occurs in a frame of the value text. A gesture is
/// opened and closed, and text applied, once exactly when enter is pressed
/// while typing (without escape); focus is given up once exactly when typing
/// ends by escape or enter; focus is asked for and the current value loaded as
/// text once exactly when the label is clicked while not typing. The value
/// text does nothing the knob does.
pub proof fn law_entry_counts(f: EntryFrame)
    ensures
        occurrences(value_actions_spec(f), Action::BeginGesture) == one_if(f.entry_active
            && !f.escape_pressed && f.enter_pressed),
        occurrences(value_actions_spec(f), Action::ApplyText) == one_if(f.entry_active
            && !f.escape_pressed && f.enter_pressed),
        occurrences(value_actions_spec(f), Action::EndGesture) == one_if(f.entry_active
            && !f.escape_pressed && f.enter_pressed),
        occurrences(value_actions_spec(f), Action::SurrenderFocus) == one_if(f.entry_active && (
        f.escape_pressed || f.enter_pressed)),
        occurrences(value_actions_spec(f), Action::RequestFocus) == one_if(!f.entry_active
            && f.label_clicked),
        occurrences(value_actions_spec(f), Action::LoadCurrentText) == one_if(!f.entry_active
            && f.label_clicked),
        occurrences(value_actions_spec(f), Action::ResetToDefault) == 0,
        occurrences(value_actions_spec(f), Action::GranularDrag) == 0,
        occurrences(value_actions_spec(f), Action::SetFromPointer) == 0,
        occurrences(value_actions_spec(f), Action::MarkChanged) == 0,
        occurrences(value_actions_spec(f), Action::ResetGranularDrag) == 0,
{
    let s = value_actions_spec(f);
    lemma_occurrences_small(s, Action::BeginGesture);
    lemma_occurrences_small(s, Action::ApplyText);
    lemma_occurrences_small(s, Action::EndGesture);
    lemma_occurrences_small(s, Action::SurrenderFocus);
    lemma_occurrences_small(s, Action::RequestFocus);
    lemma_occurrences_small(s, Action::LoadCurrentText);
    lemma_occurrences_small(s, Action::ResetToDefault);
    lemma_occurrences_small(s, Action::GranularDrag);
    lemma_occurrences_small(s, Action::SetFromPointer);
    lemma_occurrences_small(s, Action::MarkChanged);
    lemma_occurrences_small(s, Action::ResetGranularDrag);
}

/// Law: the current value is loaded as text only right after focus is asked
/// for, which opens typing; so it never happens while already typing.
pub proof fn law_text_loaded_only_on_entry(f: EntryFrame)
    ensures
        forall|i: int|
            0 <= i < value_actions_spec(f).len() && #[trigger] value_actions_spec(f)[i]
                == Action::LoadCurrentText ==> i == 1 && value_actions_spec(f)[0]
                == Action::RequestFocus && !f.entry_active && f.label_clicked,
{
}

} // verus!
