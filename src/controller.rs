use vstd::prelude::*;

use crate::anchor::Anchor;

verus! {

/// Which of the three recalculation rules applies to a selection of `count`
/// visible, unlocked layers.
#[derive(Clone, Copy, Debug, PartialEq, Eq, Structural)]
pub enum RecalcMode {
    /// Nothing is selected: the pivot goes back to its default.
    Reset,
    /// One layer: its own bounding box and transform govern the pivot.
    Single,
    /// Several layers: the mean of their pivots, within their common box.
    Mean,
}

pub fn recalc_mode(count: usize) -> (r: RecalcMode)
    ensures
        r == RecalcMode::Reset <==> count == 0,
        r == RecalcMode::Single <==> count == 1,
        r == RecalcMode::Mean <==> count > 1,
{
    if count == 0 {
        RecalcMode::Reset
    } else if count == 1 {
        RecalcMode::Single
    } else {
        RecalcMode::Mean
    }
}

/// Where a recalculation over a non-empty selection puts the pivot: computed
/// by the caller from the layers' bounding boxes and transforms.
#[derive(Clone, Copy, Debug)]
pub struct Placement<P, A> {
    /// The pivot relative to the governing bounding box.
    pub normalized_pivot: P,
    /// The map from normalized coordinates to the viewport.
    pub transform_from_normalized: A,
    /// The pivot in viewport coordinates.
    pub pivot: P,
}

/// The pivot handle of the current selection. `P` is the point type and `A`
/// the affine transform type of the caller's geometry.
#[derive(Clone, Copy, Debug)]
pub struct Pivot<P, A> {
    /// Pivot relative to the governing bounding box, (0,0) to (1,1).
    normalized_pivot: P,
    /// Transform from the normalized pivot to the viewport.
    transform_from_normalized: A,
    /// The viewport pivot, when a layer is selected.
    pivot: Option<P>,
    /// The anchor last reported to the toolbar, kept to spare refreshes.
    old_pivot_position: Anchor,
    /// Whether the pivot handle is enabled.
    active: bool,
}

/// The abstract state of a `Pivot`.
pub struct PivotModel<P, A> {
    pub normalized_pivot: P,
    pub transform_from_normalized: A,
    pub pivot: Option<P>,
    pub old_pivot_position: Anchor,
    pub active: bool,
}

impl<P, A> PivotModel<P, A> {
    /// The state after a recalculation, where `centre` is the normalized
    /// centre of a box and `placement` is `None` for an empty selection.
    /// An inactive state is left as it is.
    pub open spec fn recalculated(self, centre: P, placement: Option<Placement<P, A>>) -> Self {
        if !self.active {
            self
        } else {
            match placement {
                None => PivotModel { normalized_pivot: centre, pivot: None, ..self },
                Some(pl) => PivotModel {
                    normalized_pivot: pl.normalized_pivot,
                    transform_from_normalized: pl.transform_from_normalized,
                    pivot: Some(pl.pivot),
                    ..self
                },
            }
        }
    }

    /// The state after the visibility setting has been read: when the handle
    /// is hidden it is switched off and nothing else changes; when shown it is
    /// switched on and recalculated.
    pub open spec fn updated(self, visible: bool, centre: P, placement: Option<Placement<P, A>>) -> Self {
        if !visible {
            PivotModel { active: false, ..self }
        } else {
            PivotModel { active: true, ..self }.recalculated(centre, placement)
        }
    }

    /// The circle to draw after an update: at the pivot, when there is one
    /// and a radius was asked for.
    pub open spec fn drawn<R>(self, radius: Option<R>) -> Option<(P, R)> {
        match (self.pivot, radius) {
            (Some(p), Some(d)) => Some((p, d)),
            _ => None,
        }
    }

    /// The state after reporting anchor `current`, and whether the toolbar
    /// must be refreshed: only when active and the anchor differs from the
    /// one reported last.
    pub open spec fn refreshed(self, current: Anchor) -> (Self, bool) {
        if !self.active {
            (self, false)
        } else {
            (PivotModel { old_pivot_position: current, ..self }, current != self.old_pivot_position)
        }
    }

    /// The pivot writes issued for the selected layers, each paired with its
    /// local pivot or `None` where its transform cannot be inverted: one per
    /// layer, in order, when active and every layer can be inverted; none
    /// otherwise.
    pub open spec fn pivot_writes<L>(self, layer_pivots: Seq<(L, Option<P>)>) -> Seq<(L, P)> {
        if self.active && forall|i: int| 0 <= i < layer_pivots.len() ==> (#[trigger] layer_pivots[i]).1 is Some {
            layer_pivots.map_values(|c: (L, Option<P>)| (c.0, c.1->0))
        } else {
            seq![]
        }
    }

    /// The pivot that a pointer may be over: none while inactive.
    pub open spec fn hit_target(self) -> Option<P> {
        if self.active {
            self.pivot
        } else {
            None
        }
    }
}

impl<P, A> View for Pivot<P, A> {
    type V = PivotModel<P, A>;

    closed spec fn view(&self) -> PivotModel<P, A> {
        PivotModel {
            normalized_pivot: self.normalized_pivot,
            transform_from_normalized: self.transform_from_normalized,
            pivot: self.pivot,
            old_pivot_position: self.old_pivot_position,
            active: self.active,
        }
    }
}

impl<P: Copy, A: Copy> Pivot<P, A> {
    /// A fresh, active handle: the pivot at `centre` of the box, no viewport
    /// pivot yet, anchor `Center`.
    pub fn new(centre: P, transform: A) -> (r: Self)
        ensures
            r@ == (PivotModel {
                normalized_pivot: centre,
                transform_from_normalized: transform,
                pivot: None,
                old_pivot_position: Anchor::Center,
                active: true,
            }),
    {
        Pivot {
            normalized_pivot: centre,
            transform_from_normalized: transform,
            pivot: None,
            old_pivot_position: Anchor::Center,
            active: true,
        }
    }

    /// Recomputes the pivot from the selection: `placement` is `None` when no
    /// visible, unlocked layer is selected, and `centre` is the normalized
    /// centre of a box, the default pivot.
    pub fn recalculate_pivot(&mut self, centre: P, placement: Option<Placement<P, A>>)
        ensures
            final(self)@ == old(self)@.recalculated(centre, placement),
    {
        if !self.active {
            return;
        }
        match placement {
            None => {
                self.normalized_pivot = centre;
                self.pivot = None;
            },
            Some(pl) => {
                self.normalized_pivot = pl.normalized_pivot;
                self.transform_from_normalized = pl.transform_from_normalized;
                self.pivot = Some(pl.pivot);
            },
        }
    }

    /// Reads the visibility setting, recalculates and returns the circle to
    /// draw at the pivot, if any. `placement` is as for `recalculate_pivot`
    /// and is not looked at when the handle is hidden.
    pub fn update_pivot<R: Copy>(
        &mut self,
        visible: bool,
        centre: P,
        placement: Option<Placement<P, A>>,
        draw_radius: Option<R>,
    ) -> (r: Option<(P, R)>)
        ensures
            final(self)@ == old(self)@.updated(visible, centre, placement),
            r == (if visible { final(self)@.drawn(draw_radius) } else { None }),
    {
        if !visible {
            self.active = false;
            return None;
        }
        self.active = true;
        self.recalculate_pivot(centre, placement);
        match (self.pivot, draw_radius) {
            (Some(p), Some(d)) => Some((p, d)),
            _ => None,
        }
    }

    /// Whether the toolbar must be refreshed, given the anchor of the current
    /// normalized pivot; the anchor is remembered for the next call.
    pub fn should_refresh_pivot_position(&mut self, current: Anchor) -> (r: bool)
        ensures
            (final(self)@, r) == old(self)@.refreshed(current),
    {
        if !self.active {
            return false;
        }
        let should_refresh = current != self.old_pivot_position;
        self.old_pivot_position = current;
        should_refresh
    }

    /// Issues into `responses` the pivot writes for the selected layers, given
    /// each layer's local pivot for the new position (`None` where the layer's
    /// transform is singular). A single singular layer cancels every write.
    pub fn set_viewport_position<L: Copy>(&self, layer_pivots: &Vec<(L, Option<P>)>, responses: &mut Vec<(L, P)>)
        ensures
            final(responses)@ == old(responses)@ + self@.pivot_writes(layer_pivots@),
    {
        if !self.active {
            assert(self@.pivot_writes(layer_pivots@) =~= seq![]);
            return;
        }
        let n = layer_pivots.len();
        let mut i: usize = 0;
        while i < n
            invariant
                n == layer_pivots@.len(),
                i <= n,
                forall|j: int| 0 <= j < i ==> (#[trigger] layer_pivots@[j]).1 is Some,
            decreases n - i,
        {
            if layer_pivots[i].1.is_none() {
                assert(self@.pivot_writes(layer_pivots@) =~= seq![]);
                return;
            }
            i = i + 1;
        }
        let ghost start = responses@;
        let mut k: usize = 0;
        while k < n
            invariant
                n == layer_pivots@.len(),
                k <= n,
                forall|j: int| 0 <= j < n ==> (#[trigger] layer_pivots@[j]).1 is Some,
                responses@ == start + layer_pivots@.subrange(0, k as int).map_values(
                    |c: (L, Option<P>)| (c.0, c.1->0),
                ),
            decreases n - k,
        {
            let (layer, local) = layer_pivots[k];
            match local {
                Some(q) => {
                    responses.push((layer, q));
                },
                None => {},
            }
            assert(layer_pivots@.subrange(0, k + 1).map_values(|c: (L, Option<P>)| (c.0, c.1->0))
                =~= layer_pivots@.subrange(0, k as int).map_values(|c: (L, Option<P>)| (c.0, c.1->0)).push(
                (layer, local->0),
            ));
            k = k + 1;
        }
        assert(layer_pivots@.subrange(0, n as int) =~= layer_pivots@);
    }

    /// Whether the pointer is over the pivot handle. `within_handle` tells
    /// whether a viewport pivot lies within the handle's radius of the
    /// pointer; it is asked only while active with a pivot.
    pub fn is_over<F: Fn(P) -> bool>(&self, within_handle: F) -> (r: bool)
        requires
            forall|p: P| within_handle.requires((p,)),
        ensures
            self@.hit_target() is None ==> !r,
            self@.hit_target() is Some ==> within_handle.ensures((self@.hit_target()->0,), r),
    {
        if !self.active {
            return false;
        }
        match self.pivot {
            Some(p) => within_handle(p),
            None => false,
        }
    }

    pub fn normalized_pivot(&self) -> (r: P)
        ensures
            r == self@.normalized_pivot,
    {
        self.normalized_pivot
    }

    pub fn transform_from_normalized(&self) -> (r: A)
        ensures
            r == self@.transform_from_normalized,
    {
        self.transform_from_normalized
    }

    pub fn pivot(&self) -> (r: Option<P>)
        ensures
            r == self@.pivot,
    {
        self.pivot
    }

    pub fn old_pivot_position(&self) -> (r: Anchor)
        ensures
            r == self@.old_pivot_position,
    {
        self.old_pivot_position
    }

    pub fn active(&self) -> (r: bool)
        ensures
            r == self@.active,
    {
        self.active
    }
}

} // verus!
