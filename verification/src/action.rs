use vstd::prelude::*;

verus! {

/// One effect that the knob asks its host to perform, in the order given.
#[derive(PartialEq, Eq, Structural, Clone, Copy, Debug)]
pub enum Action {
    /// Tell the host that a change gesture on the parameter begins.
    BeginGesture,
    /// Tell the host that the current change gesture ends.
    EndGesture,
    /// Forget the distance accumulated by a fine (granular) drag.
    ResetGranularDrag,
    /// Set the parameter to its default value.
    ResetToDefault,
    /// Move the parameter by a fine drag (see `granular_drag_start`).
    GranularDrag,
    /// Set the parameter to the position of the pointer along the knob.
    SetFromPointer,
    /// Report that the widget's value changed this frame.
    MarkChanged,
    /// Give up keyboard focus, leaving text entry.
    SurrenderFocus,
    /// Try to set the parameter from the text that was typed.
    ApplyText,
    /// Ask for keyboard focus, entering text entry.
    RequestFocus,
    /// Fill the text field with the parameter's current value as text.
    LoadCurrentText,
}

/// Whether an action writes a new value to the parameter.
pub open spec fn writes_value(a: Action) -> bool {
    a == Action::ResetToDefault || a == Action::GranularDrag || a == Action::SetFromPointer
}

/// How many times `x` occurs in `s`.
pub open spec fn occurrences(s: Seq<Action>, x: Action) -> nat
    decreases s.len(),
{
    if s.len() == 0 {
        0
    } else {
        occurrences(s.drop_last(), x) + if s.last() == x {
            1nat
        } else {
            0nat
        }
    }
}

/// 1 when `b` holds, 0 otherwise.
pub open spec fn one_if(b: bool) -> nat {
    if b {
        1
    } else {
        0
    }
}

/// Occurrences in a concatenation add up.
pub proof fn lemma_occurrences_concat(a: Seq<Action>, b: Seq<Action>, x: Action)
    ensures
        occurrences(a + b, x) == occurrences(a, x) + occurrences(b, x),
    decreases b.len(),
{
    if b.len() == 0 {
        assert(a + b =~= a);
    } else {
        assert((a + b).drop_last() =~= a + b.drop_last());
        assert((a + b).last() == b.last());
        lemma_occurrences_concat(a, b.drop_last(), x);
    }
}

/// Occurrences in a sequence of at most four actions, spelled out.
pub proof fn lemma_occurrences_small(s: Seq<Action>, x: Action)
    requires
        s.len() <= 4,
    ensures
        occurrences(s, x) == one_if(s.len() > 0 && s[0] == x) + one_if(s.len() > 1 && s[1] == x)
            + one_if(s.len() > 2 && s[2] == x) + one_if(s.len() > 3 && s[3] == x),
{
    reveal_with_fuel(occurrences, 5);
    if s.len() > 0 {
        let s1 = s.drop_last();
        if s1.len() > 0 {
            let s2 = s1.drop_last();
            if s2.len() > 0 {
                let s3 = s2.drop_last();
                if s3.len() > 0 {
                    assert(s3.drop_last().len() == 0);
                }
            }
        }
    }
}

} // verus!
