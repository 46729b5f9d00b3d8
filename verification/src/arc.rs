use vstd::prelude::*;

use itertools::Itertools;

verus! {

/// Number of segments each ring of the knob's arc is divided into; a ring has
/// one more sample than this.
pub const ARC_RESOLUTION: usize = 32;

/// The interpolation steps at which a ring is sampled: sample `i` lies at
/// fraction `i / ARC_RESOLUTION` between the arc's start and end angles.
pub fn arc_steps() -> (steps: Vec<usize>)
    ensures
        steps@.len() == ARC_RESOLUTION + 1,
        forall|i: int| 0 <= i < steps@.len() ==> #[trigger] steps@[i] == i,
{
    let mut steps: Vec<usize> = Vec::new();
    let mut i: usize = 0;
    while i <= ARC_RESOLUTION
        invariant
            i <= ARC_RESOLUTION + 1,
            steps@.len() == i,
            forall|j: int| 0 <= j < i ==> #[trigger] steps@[j] == j,
        decreases ARC_RESOLUTION + 1 - i,
    {
        steps.push(i);
        i = i + 1;
    }
    steps
}

/// Vertex ids of the two rings of an arc with `samples` samples each: the outer
/// ring takes `0..samples`, the inner ring `samples..2 * samples`.
pub fn arc_rings(samples: usize) -> (rings: (Vec<usize>, Vec<usize>))
    requires
        2 * samples <= usize::MAX,
    ensures
        rings.0@.len() == samples,
        rings.1@.len() == samples,
        forall|i: int| 0 <= i < samples ==> #[trigger] rings.0@[i] == i,
        forall|i: int| 0 <= i < samples ==> #[trigger] rings.1@[i] == samples + i,
{
    let mut outer: Vec<usize> = Vec::new();
    let mut inner: Vec<usize> = Vec::new();
    let mut i: usize = 0;
    while i < samples
        invariant
            i <= samples,
            2 * samples <= usize::MAX,
            outer@.len() == i,
            inner@.len() == i,
            forall|j: int| 0 <= j < i ==> #[trigger] outer@[j] == j,
            forall|j: int| 0 <= j < i ==> #[trigger] inner@[j] == samples + j,
        decreases samples - i,
    {
        outer.push(i);
        inner.push(samples + i);
        i = i + 1;
    }
    (outer, inner)
}

/// Number of samples that both rings have.
pub open spec fn shared_len(outer: Seq<usize>, inner: Seq<usize>) -> nat {
    if outer.len() <= inner.len() {
        outer.len()
    } else {
        inner.len()
    }
}

/// The filled band of the arc: one convex quad between each two consecutive
/// samples, going outer, inner, next inner, next outer.
pub open spec fn band_quads_spec(outer: Seq<usize>, inner: Seq<usize>) -> Seq<
    (usize, usize, usize, usize),
> {
    let n = shared_len(outer, inner);
    Seq::new(
        if n == 0 {
            0
        } else {
            (n - 1) as nat
        },
        |i: int| (outer[i], inner[i], inner[i + 1], outer[i + 1]),
    )
}

/// The outline of the arc: along the outer ring, then back along the inner ring.
pub open spec fn outline_spec(outer: Seq<usize>, inner: Seq<usize>) -> Seq<usize> {
    outer + inner.reverse()
}

/// Every two consecutive items, as a pair: item `i` with item `i + 1`.
/// This is `Itertools::tuple_windows` with windows of two, collected; it clones
/// the items, which for these plain integers copies them.
#[verifier::external_body]
fn consecutive_pairs(items: &Vec<(usize, usize)>) -> (windows: Vec<((usize, usize), (usize, usize))>)
    ensures
        windows@.len() == if items@.len() == 0 {
            0
        } else {
            items@.len() - 1
        },
        forall|i: int| 0 <= i < windows@.len() ==> #[trigger] windows@[i] == (items@[i], items@[i + 1]),
{
    items.iter().copied().tuple_windows::<((usize, usize), (usize, usize))>().collect()
}

/// The quads that fill the arc between its outer and inner ring; samples past
/// the shorter ring are ignored.
pub fn arc_band_quads(outer: &Vec<usize>, inner: &Vec<usize>) -> (quads: Vec<(usize, usize, usize, usize)>)
    ensures
        quads@ == band_quads_spec(outer@, inner@),
{
    let n = if outer.len() <= inner.len() {
        outer.len()
    } else {
        inner.len()
    };
    let mut paired: Vec<(usize, usize)> = Vec::new();
    let mut i: usize = 0;
    while i < n
        invariant
            i <= n,
            n == shared_len(outer@, inner@),
            paired@.len() == i,
            forall|j: int| 0 <= j < i ==> #[trigger] paired@[j] == (outer@[j], inner@[j]),
        decreases n - i,
    {
        paired.push((outer[i], inner[i]));
        i = i + 1;
    }
    let windows = consecutive_pairs(&paired);
    let mut quads: Vec<(usize, usize, usize, usize)> = Vec::new();
    let mut k: usize = 0;
    while k < windows.len()
        invariant
            k <= windows@.len(),
            n == shared_len(outer@, inner@),
            paired@.len() == n,
            forall|j: int| 0 <= j < n ==> #[trigger] paired@[j] == (outer@[j], inner@[j]),
            windows@.len() == if n == 0 {
                0
            } else {
                n - 1
            },
            forall|j: int|
                0 <= j < windows@.len() ==> #[trigger] windows@[j] == (paired@[j], paired@[j + 1]),
            quads@.len() == k,
            forall|j: int|
                0 <= j < k ==> #[trigger] quads@[j] == (outer@[j], inner@[j], inner@[j + 1], outer@[
                    j + 1
                ]),
        decreases windows@.len() - k,
    {
        let ((outer_1, inner_1), (outer_2, inner_2)) = windows[k];
        assert(paired@[k as int] == (outer@[k as int], inner@[k as int]));
        assert(paired@[k + 1] == (outer@[k + 1], inner@[k + 1]));
        quads.push((outer_1, inner_1, inner_2, outer_2));
        k = k + 1;
    }
    assert(quads@ =~= band_quads_spec(outer@, inner@));
    quads
}

/// The closed outline of the arc: the outer ring followed by the inner ring in
/// reverse.
pub fn arc_outline(outer: &Vec<usize>, inner: &Vec<usize>) -> (outline: Vec<usize>)
    ensures
        outline@ == outline_spec(outer@, inner@),
{
    let mut outline: Vec<usize> = Vec::new();
    let mut i: usize = 0;
    while i < outer.len()
        invariant
            i <= outer@.len(),
            outline@ == outer@.subrange(0, i as int),
        decreases outer@.len() - i,
    {
        outline.push(outer[i]);
        i = i + 1;
        assert(outline@ =~= outer@.subrange(0, i as int));
    }
    assert(outer@.subrange(0, outer@.len() as int) =~= outer@);
    let mut k: usize = inner.len();
    while k > 0
        invariant
            k <= inner@.len(),
            outline@ == outer@ + inner@.reverse().subrange(0, (inner@.len() - k) as int),
        decreases k,
    {
        k = k - 1;
        outline.push(inner[k]);
        assert(outline@ =~= outer@ + inner@.reverse().subrange(0, (inner@.len() - k) as int));
    }
    assert(inner@.reverse().subrange(0, inner@.len() as int) =~= inner@.reverse());
    outline
}


/// Law: the band's quads tile it without gaps: each quad's closing edge (next
/// inner, next outer) is the opening edge (outer, inner) of the following quad.
pub proof fn law_band_quads_share_edges(outer: Seq<usize>, inner: Seq<usize>)
    ensures
        forall|i: int|
            0 <= i < band_quads_spec(outer, inner).len() - 1 ==> (
            #[trigger] band_quads_spec(outer, inner)[i]).2 == band_quads_spec(outer, inner)[i
                + 1].1 && band_quads_spec(outer, inner)[i].3 == band_quads_spec(outer, inner)[i
                + 1].0,
{
}

/// Law: the knob's arc, with both rings laid out by `arc_rings` from
/// `arc_steps`, is filled by exactly `ARC_RESOLUTION` quads, and its outline
/// visits every sample of both rings once, leaving from the outer start and
/// coming back to the inner start.
pub proof fn law_knob_arc_mesh(outer: Seq<usize>, inner: Seq<usize>)
    requires
        outer.len() == ARC_RESOLUTION + 1,
        inner.len() == ARC_RESOLUTION + 1,
        forall|i: int| 0 <= i < outer.len() ==> #[trigger] outer[i] == i,
        forall|i: int| 0 <= i < inner.len() ==> #[trigger] inner[i] == outer.len() + i,
    ensures
        band_quads_spec(outer, inner).len() == ARC_RESOLUTION,
        outline_spec(outer, inner).len() == 2 * (ARC_RESOLUTION + 1),
        outline_spec(outer, inner)[0] == 0,
        outline_spec(outer, inner)[2 * ARC_RESOLUTION + 1] == ARC_RESOLUTION + 1,
        forall|v: usize| v < 2 * (ARC_RESOLUTION + 1) ==> outline_spec(outer, inner).contains(v),
{
    let o = outline_spec(outer, inner);
    assert forall|v: usize| v < 2 * (ARC_RESOLUTION + 1) implies o.contains(v) by {
        if v < ARC_RESOLUTION + 1 {
            assert(o[v as int] == v);
        } else {
            let j = (2 * ARC_RESOLUTION + 1 - v) as int;
            assert(o[(ARC_RESOLUTION + 1) + j] == inner[ARC_RESOLUTION - j]);
            assert(o[(ARC_RESOLUTION + 1) + j] == v);
        }
    }
}

/// Law: the outline goes out along the outer ring and comes back along the inner
/// ring, sample by sample.
pub proof fn law_outline_out_and_back(outer: Seq<usize>, inner: Seq<usize>)
    ensures
        outline_spec(outer, inner).len() == outer.len() + inner.len(),
        forall|i: int| 0 <= i < outer.len() ==> #[trigger] outline_spec(outer, inner)[i] == outer[i],
        forall|j: int|
            0 <= j < inner.len() ==> #[trigger] outline_spec(outer, inner)[outer.len() + j]
                == inner[inner.len() - 1 - j],
{
}

/// Law: the band has one quad fewer than the samples both rings have (none when
/// they have none), and quad `i` spans the band between samples `i` and `i + 1`:
/// it starts at outer sample `i`, crosses to inner sample `i`, runs along the
/// inner ring to inner sample `i + 1`, and crosses back to outer sample `i + 1`.
/// This holds for rings of every length.
pub proof fn law_band_quads_span_the_band(outer: Seq<usize>, inner: Seq<usize>)
    ensures
        band_quads_spec(outer, inner).len() + 1 == shared_len(outer, inner) || (shared_len(
            outer,
            inner,
        ) == 0 && band_quads_spec(outer, inner).len() == 0),
        forall|i: int|
            0 <= i < band_quads_spec(outer, inner).len() ==> {
                &&& i + 1 < outer.len()
                &&& i + 1 < inner.len()
                &&& (#[trigger] band_quads_spec(outer, inner)[i]).0 == outer[i]
                &&& band_quads_spec(outer, inner)[i].1 == inner[i]
                &&& band_quads_spec(outer, inner)[i].2 == inner[i + 1]
                &&& band_quads_spec(outer, inner)[i].3 == outer[i + 1]
            },
{
}

/// Law: on the knob's own rings (outer ids `0..=32`, inner ids `33..=65`), quad
/// `i` is `(i, 33 + i, 34 + i, i + 1)`: each joins two neighbouring outer
/// samples to the two matching inner samples.
pub proof fn law_knob_band_quads(outer: Seq<usize>, inner: Seq<usize>)
    requires
        outer.len() == ARC_RESOLUTION + 1,
        inner.len() == ARC_RESOLUTION + 1,
        forall|i: int| 0 <= i < outer.len() ==> #[trigger] outer[i] == i,
        forall|i: int| 0 <= i < inner.len() ==> #[trigger] inner[i] == outer.len() + i,
    ensures
        forall|i: int|
            0 <= i < ARC_RESOLUTION ==> #[trigger] band_quads_spec(outer, inner)[i] == (
                i as usize,
                (ARC_RESOLUTION + 1 + i) as usize,
                (ARC_RESOLUTION + 2 + i) as usize,
                (i + 1) as usize,
            ),
{
    assert forall|i: int| 0 <= i < ARC_RESOLUTION implies #[trigger] band_quads_spec(
        outer,
        inner,
    )[i] == (
        i as usize,
        (ARC_RESOLUTION + 1 + i) as usize,
        (ARC_RESOLUTION + 2 + i) as usize,
        (i + 1) as usize,
    ) by {
        assert(outer[i] == i);
        assert(outer[i + 1] == i + 1);
        assert(inner[i] == ARC_RESOLUTION + 1 + i);
        assert(inner[i + 1] == ARC_RESOLUTION + 2 + i);
    }
}

} // verus!
