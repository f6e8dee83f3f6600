use vstd::prelude::*;

use crate::anchor::Anchor;
use crate::controller::{Placement, PivotModel};

verus! {

/// With no visible, unlocked layer selected, an active handle's normalized
/// pivot returns to the centre and it has no viewport pivot, whatever it held
/// before.
pub proof fn lemma_empty_selection_resets<P, A>(s: PivotModel<P, A>, centre: P)
    requires
        s.active,
    ensures
        s.recalculated(centre, None).normalized_pivot == centre,
        s.recalculated(centre, None).pivot is None,
{
}

/// A selection with a non-empty placement gets a viewport pivot, and the
/// pivot written is the one placed.
pub proof fn lemma_placement_sets_pivot<P, A>(s: PivotModel<P, A>, centre: P, pl: Placement<P, A>)
    requires
        s.active,
    ensures
        s.recalculated(centre, Some(pl)).pivot == Some(pl.pivot),
        s.recalculated(centre, Some(pl)).normalized_pivot == pl.normalized_pivot,
        s.recalculated(centre, Some(pl)).transform_from_normalized == pl.transform_from_normalized,
{
}

/// One selected layer whose transform cannot be inverted cancels the writes
/// of every layer, the invertible ones included.
pub proof fn lemma_singular_layer_cancels_writes<P, A, L>(
    s: PivotModel<P, A>,
    layer_pivots: Seq<(L, Option<P>)>,
    i: int,
)
    requires
        0 <= i < layer_pivots.len(),
        layer_pivots[i].1 is None,
    ensures
        s.pivot_writes(layer_pivots).len() == 0,
{
}

/// When active and every layer can be inverted, one write is issued per
/// layer, carrying that layer and its local pivot.
pub proof fn lemma_writes_cover_every_layer<P, A, L>(s: PivotModel<P, A>, layer_pivots: Seq<(L, Option<P>)>)
    requires
        s.active,
        forall|i: int| 0 <= i < layer_pivots.len() ==> (#[trigger] layer_pivots[i]).1 is Some,
    ensures
        s.pivot_writes(layer_pivots).len() == layer_pivots.len(),
        forall|i: int|
            0 <= i < layer_pivots.len() ==> s.pivot_writes(layer_pivots)[i] == (
            layer_pivots[i].0,
            layer_pivots[i].1->0,
        ),
{
}

/// Asking twice in a row with the same anchor refreshes at most once: the
/// second answer is always `false`, and the first is `true` exactly when the
/// handle is active and the anchor has changed.
pub proof fn lemma_refresh_debounce<P, A>(s: PivotModel<P, A>, current: Anchor)
    ensures
        s.refreshed(current).1 == (s.active && current != s.old_pivot_position),
        !s.refreshed(current).0.refreshed(current).1,
        s.refreshed(current).0.refreshed(current).0 == s.refreshed(current).0,
{
}

/// Once an update finds the handle hidden, it is inactive and nothing else
/// has changed; after that, refreshing answers `false` and changes nothing,
/// no pivot write is issued, the pointer is over no pivot, and a further
/// recalculation changes nothing.
pub proof fn lemma_hidden_handle_is_inert<P, A, L>(
    s: PivotModel<P, A>,
    centre: P,
    placement: Option<Placement<P, A>>,
    current: Anchor,
    layer_pivots: Seq<(L, Option<P>)>,
)
    ensures
        ({
            let t = s.updated(false, centre, placement);
            &&& !t.active
            &&& t == PivotModel { active: false, ..s }
            &&& t.refreshed(current) == (t, false)
            &&& t.pivot_writes(layer_pivots).len() == 0
            &&& t.hit_target() is None
            &&& t.recalculated(centre, placement) == t
        }),
{
}

} // verus!
