use param_knob::arc::{arc_band_quads, arc_outline, arc_rings, arc_steps, ARC_RESOLUTION};
use param_knob::editor::{default_state, EDITOR_HEIGHT, EDITOR_WIDTH};

#[test]
fn steps_cover_the_whole_arc() {
    let steps = arc_steps();
    assert_eq!(steps.len(), 33);
    assert_eq!(steps, (0..=32).collect::<Vec<usize>>());
    assert_eq!(ARC_RESOLUTION, 32);
}

#[test]
fn rings_are_laid_out_back_to_back() {
    let (outer, inner) = arc_rings(3);
    assert_eq!(outer, vec![0, 1, 2]);
    assert_eq!(inner, vec![3, 4, 5]);
}

#[test]
fn band_quads_join_consecutive_samples() {
    let quads = arc_band_quads(&vec![0, 1, 2], &vec![3, 4, 5]);
    assert_eq!(quads, vec![(0, 3, 4, 1), (1, 4, 5, 2)]);
}

#[test]
fn band_quads_stop_at_shorter_ring() {
    assert_eq!(arc_band_quads(&vec![10, 11, 12, 13], &vec![20, 21]), vec![(10, 20, 21, 11)]);
    assert_eq!(arc_band_quads(&vec![10], &vec![20, 21]), vec![]);
    assert_eq!(arc_band_quads(&vec![], &vec![]), vec![]);
}

#[test]
fn band_quads_share_edges() {
    let (outer, inner) = arc_rings(ARC_RESOLUTION + 1);
    let quads = arc_band_quads(&outer, &inner);
    assert_eq!(quads.len(), ARC_RESOLUTION);
    for w in quads.windows(2) {
        assert_eq!(w[0].2, w[1].1);
        assert_eq!(w[0].3, w[1].0);
    }
}

#[test]
fn outline_goes_out_and_back() {
    assert_eq!(arc_outline(&vec![0, 1, 2], &vec![3, 4, 5]), vec![0, 1, 2, 5, 4, 3]);
    assert_eq!(arc_outline(&vec![7], &vec![]), vec![7]);
}

#[test]
fn knob_outline_visits_every_sample_once() {
    let (outer, inner) = arc_rings(ARC_RESOLUTION + 1);
    let outline = arc_outline(&outer, &inner);
    assert_eq!(outline.len(), 66);
    assert_eq!(outline[0], 0);
    assert_eq!(outline[65], 33);
    let mut sorted = outline.clone();
    sorted.sort();
    assert_eq!(sorted, (0..66).collect::<Vec<usize>>());
}

#[test]
fn default_editor_state_has_the_window_size() {
    let (state, size, open, holders) = default_state();
    assert_eq!(size, (300, 180));
    assert!(!open);
    assert_eq!(holders, 1);
    assert_eq!(std::sync::Arc::strong_count(&state), 1);
    assert_eq!(state.size(), (EDITOR_WIDTH, EDITOR_HEIGHT));
    assert_eq!(state.size(), (300, 180));
    assert!(!state.is_open());
}
