use vstd::prelude::*;

verus! {

/// Where a fine (granular) drag measures from, and whether that starting value
/// must be remembered for the following frames.
///
/// When no fine-drag distance has been accumulated yet, the drag starts from the
/// parameter's current value and that value is remembered; otherwise it starts
/// from the remembered value, or from `fallback` when none was remembered.
pub open spec fn granular_start_spec<V>(
    amount_is_zero: bool,
    current: V,
    remembered: Option<V>,
    fallback: V,
) -> (V, bool) {
    if amount_is_zero {
        (current, true)
    } else {
        match remembered {
            Some(v) => (v, false),
            None => (fallback, false),
        }
    }
}

/// Chooses the value a fine drag measures from; the second component tells
/// whether the caller must remember that value. `V` is the host's normalized
/// value type; the arithmetic on it (adding the scaled drag distance and
/// clamping) is the host's.
pub fn granular_drag_start<V: Copy>(
    amount_is_zero: bool,
    current: V,
    remembered: Option<V>,
    fallback: V,
) -> (start: (V, bool))
    ensures
        start == granular_start_spec(amount_is_zero, current, remembered, fallback),
{
    if amount_is_zero {
        // A fresh fine drag: start from where the knob is now.
        (current, true)
    } else {
        match remembered {
            Some(v) => (v, false),
            None => (fallback, false),
        }
    }
}

/// Law: a fine drag keeps measuring from the value it started at. The first
/// frame (nothing accumulated) starts at the current value and remembers it;
/// any later frame, with a distance accumulated and that value remembered,
/// starts from it again, whatever the parameter's value is by then.
pub proof fn law_granular_start_is_stable<V>(first: V, later: V, fallback: V)
    ensures
        ({
            let (s1, keep) = granular_start_spec(true, first, None, fallback);
            let remembered = if keep {
                Some(s1)
            } else {
                None
            };
            &&& keep
            &&& s1 == first
            &&& granular_start_spec(false, later, remembered, fallback) == (first, false)
        }),
{
}

/// Law: what a fine drag measures from, for every input. With nothing
/// accumulated it starts from the current value, whatever was remembered, and
/// asks for that value to be remembered; otherwise it never asks to remember
/// anything and starts from the remembered value, falling back to `fallback`
/// only when nothing was remembered.
pub proof fn law_granular_start_choice<V>(
    amount_is_zero: bool,
    current: V,
    remembered: Option<V>,
    fallback: V,
)
    ensures
        granular_start_spec(amount_is_zero, current, remembered, fallback).1 == amount_is_zero,
        amount_is_zero ==> granular_start_spec(amount_is_zero, current, remembered, fallback).0
            == current,
        (!amount_is_zero && remembered is Some) ==> granular_start_spec(
            amount_is_zero,
            current,
            remembered,
            fallback,
        ).0 == remembered->0,
        (!amount_is_zero && remembered is None) ==> granular_start_spec(
            amount_is_zero,
            current,
            remembered,
            fallback,
        ).0 == fallback,
{
}

} // verus!
