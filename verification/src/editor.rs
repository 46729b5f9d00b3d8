use vstd::prelude::*;

use nih_plug_egui::EguiState;
use std::sync::Arc;

verus! {

/// The editor state of `nih_plug_egui`, which the host keeps and the window is
/// opened from.
#[verifier::external_type_specification]
#[verifier::external_body]
pub struct ExEguiState(EguiState);

/// Width of the editor window in logical pixels.
pub const EDITOR_WIDTH: u32 = 300;

/// Height of the editor window in logical pixels.
pub const EDITOR_HEIGHT: u32 = 180;

/// `EguiState::from_size` of `nih_plug_egui`, with the new state's size, open
/// flag and number of holders read back from it (`EguiState::size`,
/// `EguiState::is_open`, `Arc::strong_count`) before anyone else holds it.
/// `from_size` puts a new state, holding `(width, height)` in its size cell and
/// `false` in its open flag, into a new `Arc`, so the first reads give exactly
/// those and one holder. The state's cells may change later (resizing, opening
/// the window) and the `Arc` may be shared later; only these first reads are
/// stated.
#[verifier::external_body]
fn egui_state_from_size(width: u32, height: u32) -> (created: (Arc<EguiState>, (u32, u32), bool, usize))
    ensures
        created.1 == (width, height),
        !created.2,
        created.3 == 1,
{
    let state = EguiState::from_size(width, height);
    let size = state.size();
    let open = state.is_open();
    let holders = Arc::strong_count(&state);
    (state, size, open, holders)
}

/// The editor state the plugin starts with, together with its window size, open
/// flag and number of holders as created: a fresh (singly held), closed window
/// of `EDITOR_WIDTH` by `EDITOR_HEIGHT` logical pixels.
pub fn default_state() -> (created: (Arc<EguiState>, (u32, u32), bool, usize))
    ensures
        created.1 == (EDITOR_WIDTH, EDITOR_HEIGHT),
        !created.2,
        created.3 == 1,
{
    egui_state_from_size(EDITOR_WIDTH, EDITOR_HEIGHT)
}

} // verus!
