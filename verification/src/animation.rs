//! The animation model as the controller reads it: players hold animations,
//! animations hold tracks, tracks hold curves.

use vstd::prelude::*;
use crate::curve::{Curve, CurveModel};
use crate::handle::EntityRef;
use crate::pool::Pool;

verus! {

/// A track: a named part of an animation that owns its curves, in order.
pub struct Track {
    pub id: u128,
    pub curves: Vec<Curve>,
}

/// An animation: its tracks in display order.
pub struct Animation {
    pub tracks: Vec<Track>,
}

/// The capability of a scene node to hold and play animations.
pub struct AnimationPlayer {
    pub animations: Pool<Animation>,
}

/// The view of a curve that is there, or nothing.
pub open spec fn view_of(curve: Option<&Curve>) -> Option<CurveModel> {
    match curve {
        Some(c) => Some(c@),
        None => None,
    }
}

/// The first curve with identity `id` among `curves[from..]`.
pub open spec fn first_curve_from(curves: Seq<Curve>, id: u128, from: int) -> Option<CurveModel>
    decreases curves.len() - from,
{
    if from < 0 || from >= curves.len() {
        None
    } else if curves[from].id == id {
        Some(curves[from]@)
    } else {
        first_curve_from(curves, id, from + 1)
    }
}

/// The first curve with identity `id` in the first of `tracks[from..]` that
/// has one.
pub open spec fn first_curve_in_tracks_from(tracks: Seq<Track>, id: u128, from: int) -> Option<
    CurveModel,
>
    decreases tracks.len() - from,
{
    if from < 0 || from >= tracks.len() {
        None
    } else {
        match tracks[from].spec_find_curve(id) {
            Some(c) => Some(c),
            None => first_curve_in_tracks_from(tracks, id, from + 1),
        }
    }
}

/// `first_curve_from` finds the match at the lowest position, and finds
/// nothing only where nothing matches.
pub proof fn lemma_first_curve_from(curves: Seq<Curve>, id: u128, from: int)
    requires
        0 <= from <= curves.len(),
    ensures
        match first_curve_from(curves, id, from) {
            Some(c) => exists|i: int|
                from <= i < curves.len() && curves[i].id == id && curves[i]@ == c && (forall|
                    j: int,
                |
                    from <= j < i ==> (#[trigger] curves[j]).id != id),
            None => forall|j: int| from <= j < curves.len() ==> (#[trigger] curves[j]).id != id,
        },
    decreases curves.len() - from,
{
    if from < curves.len() && curves[from].id != id {
        lemma_first_curve_from(curves, id, from + 1);
        match first_curve_from(curves, id, from + 1) {
            Some(c) => {
                let i = choose|i: int|
                    from + 1 <= i < curves.len() && curves[i].id == id && curves[i]@ == c && (
                    forall|j: int| from + 1 <= j < i ==> (#[trigger] curves[j]).id != id);
                assert(from <= i < curves.len() && curves[i].id == id && curves[i]@ == c && (
                forall|j: int| from <= j < i ==> (#[trigger] curves[j]).id != id));
            },
            None => {},
        }
    } else if from < curves.len() {
        assert(from <= from < curves.len() && curves[from].id == id && curves[from]@
            == curves[from]@ && (forall|j: int|
            from <= j < from ==> (#[trigger] curves[j]).id != id));
    }
}

/// `first_curve_in_tracks_from` finds a curve of the first track that has a
/// match, and finds nothing only where no track has one.
pub proof fn lemma_first_curve_in_tracks_from(tracks: Seq<Track>, id: u128, from: int)
    requires
        0 <= from <= tracks.len(),
    ensures
        match first_curve_in_tracks_from(tracks, id, from) {
            Some(c) => exists|t: int|
                from <= t < tracks.len() && tracks[t].spec_find_curve(id) == Some(c) && (forall|
                    u: int,
                |
                    from <= u < t ==> (#[trigger] tracks[u]).spec_find_curve(id).is_none()),
            None => forall|u: int|
                from <= u < tracks.len() ==> (#[trigger] tracks[u]).spec_find_curve(id).is_none(),
        },
    decreases tracks.len() - from,
{
    if from < tracks.len() {
        match tracks[from].spec_find_curve(id) {
            Some(c) => {
                assert(from <= from < tracks.len() && tracks[from].spec_find_curve(id) == Some(c)
                    && (forall|u: int|
                    from <= u < from ==> (#[trigger] tracks[u]).spec_find_curve(id).is_none()));
            },
            None => {
                lemma_first_curve_in_tracks_from(tracks, id, from + 1);
                match first_curve_in_tracks_from(tracks, id, from + 1) {
                    Some(c) => {
                        let t = choose|t: int|
                            from + 1 <= t < tracks.len() && tracks[t].spec_find_curve(id) == Some(c)
                                && (forall|u: int|
                                from + 1 <= u < t ==> (#[trigger] tracks[u]).spec_find_curve(
                                    id,
                                ).is_none());
                        assert(from <= t < tracks.len() && tracks[t].spec_find_curve(id) == Some(c)
                            && (forall|u: int|
                            from <= u < t ==> (#[trigger] tracks[u]).spec_find_curve(
                                id,
                            ).is_none()));
                    },
                    None => {},
                }
            },
        }
    }
}

impl Track {
    pub fn new(id: u128, curves: Vec<Curve>) -> (r: Track)
        ensures
            r.id == id,
            r.curves == curves,
    {
        Track { id, curves }
    }

    /// The first curve of this track with identity `id`.
    pub open spec fn spec_find_curve(&self, id: u128) -> Option<CurveModel> {
        first_curve_from(self.curves@, id, 0)
    }

    /// Looks through the curves of this track, in order, for the one with
    /// identity `id`.
    pub fn find_curve(&self, id: u128) -> (r: Option<&Curve>)
        ensures
            view_of(r) == self.spec_find_curve(id),
    {
        let mut i: usize = 0;
        while i < self.curves.len()
            invariant
                i <= self.curves@.len(),
                first_curve_from(self.curves@, id, 0) == first_curve_from(
                    self.curves@,
                    id,
                    i as int,
                ),
            decreases self.curves@.len() - i,
        {
            if self.curves[i].id == id {
                return Some(&self.curves[i]);
            }
            i = i + 1;
        }
        None
    }
}

impl Animation {
    pub fn new(tracks: Vec<Track>) -> (r: Animation)
        ensures
            r.tracks == tracks,
    {
        Animation { tracks }
    }

    /// The curve with identity `id`: tracks are searched in order, and the
    /// curves of each track in order.
    pub open spec fn spec_find_curve(&self, id: u128) -> Option<CurveModel> {
        first_curve_in_tracks_from(self.tracks@, id, 0)
    }

    /// Looks through all tracks, in order, for the curve with identity `id`.
    pub fn find_curve(&self, id: u128) -> (r: Option<&Curve>)
        ensures
            view_of(r) == self.spec_find_curve(id),
    {
        let mut t: usize = 0;
        while t < self.tracks.len()
            invariant
                t <= self.tracks@.len(),
                first_curve_in_tracks_from(self.tracks@, id, 0) == first_curve_in_tracks_from(
                    self.tracks@,
                    id,
                    t as int,
                ),
            decreases self.tracks@.len() - t,
        {
            let found = self.tracks[t].find_curve(id);
            if found.is_some() {
                return found;
            }
            t = t + 1;
        }
        None
    }
}

impl AnimationPlayer {
    pub fn new(animations: Pool<Animation>) -> (r: AnimationPlayer)
        ensures
            r.animations == animations,
    {
        AnimationPlayer { animations }
    }
}

} // verus!
