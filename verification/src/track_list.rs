//! The track list of the animation editor: the tracks of an animation and
//! their curves as the items of a list.

use vstd::prelude::*;
use crate::animation::{Animation, Track};
use crate::curve::Curve;
use crate::handle::WidgetRef;

verus! {

/// One item of the list: a track, or a curve of the track above it.
#[derive(Clone, Copy, Debug, PartialEq, Eq, Structural)]
pub enum TrackListItem {
    Track(u128),
    Curve(u128),
}

/// The track list: the panel that holds the list.
#[derive(Clone, Copy, Debug, PartialEq, Eq, Structural)]
pub struct TrackList {
    pub panel: WidgetRef,
}

/// The items of one track: the track itself, then its curves in order.
pub open spec fn track_items(track: Track) -> Seq<TrackListItem> {
    seq![TrackListItem::Track(track.id)] + Seq::new(
        track.curves@.len(),
        |i: int| TrackListItem::Curve(track.curves@[i].id),
    )
}

/// The items of the first `n` tracks, track after track.
pub open spec fn items_of_first(tracks: Seq<Track>, n: int) -> Seq<TrackListItem>
    decreases n,
{
    if n <= 0 || n > tracks.len() {
        Seq::empty()
    } else {
        items_of_first(tracks, n - 1) + track_items(tracks[n - 1])
    }
}

/// The tracks that `items` names, in the order of the list.
pub open spec fn tracks_named(items: Seq<TrackListItem>) -> Seq<u128>
    decreases items.len(),
{
    if items.len() == 0 {
        Seq::empty()
    } else {
        match items.last() {
            TrackListItem::Track(id) => tracks_named(items.drop_last()).push(id),
            TrackListItem::Curve(_) => tracks_named(items.drop_last()),
        }
    }
}

/// The tracks named by a list followed by the items of one more track are
/// those of the list and then that track.
pub proof fn lemma_tracks_named_after(items: Seq<TrackListItem>, track: Track, k: int)
    requires
        0 <= k <= track.curves@.len(),
    ensures
        tracks_named(items + track_items(track).take(k + 1)) == tracks_named(items).push(track.id),
    decreases k,
{
    let whole = items + track_items(track).take(k + 1);
    if k == 0 {
        assert(whole.drop_last() =~= items);
        assert(whole.last() == TrackListItem::Track(track.id));
    } else {
        lemma_tracks_named_after(items, track, k - 1);
        assert(whole.drop_last() =~= items + track_items(track).take(k));
        assert(whole.last() == TrackListItem::Curve(track.curves@[k - 1].id));
    }
}

/// The list names the tracks in the order in which the animation holds
/// them.
pub proof fn lemma_track_order_kept(tracks: Seq<Track>, n: int)
    requires
        0 <= n <= tracks.len(),
    ensures
        tracks_named(items_of_first(tracks, n)) == Seq::new(n as nat, |i: int| tracks[i].id),
    decreases n,
{
    if n > 0 {
        lemma_track_order_kept(tracks, n - 1);
        let track = tracks[n - 1];
        lemma_tracks_named_after(items_of_first(tracks, n - 1), track, track.curves@.len() as int);
        assert(track_items(track).take(track.curves@.len() as int + 1) =~= track_items(track));
        assert(Seq::new((n - 1) as nat, |i: int| tracks[i].id).push(track.id) =~= Seq::new(
            n as nat,
            |i: int| tracks[i].id,
        ));
    } else {
        assert(tracks_named(items_of_first(tracks, n)) =~= Seq::new(
            n as nat,
            |i: int| tracks[i].id,
        ));
    }
}

impl TrackList {
    pub fn new(panel: WidgetRef) -> (r: TrackList)
        ensures
            r.panel == panel,
    {
        TrackList { panel }
    }

    /// The items that show `animation`: every track in the order of the
    /// animation, each followed by its curves.
    pub open spec fn spec_items(animation: Animation) -> Seq<TrackListItem> {
        items_of_first(animation.tracks@, animation.tracks@.len() as int)
    }

    /// Lays the tracks of `animation` and their curves out as list items.
    pub fn items(&self, animation: &Animation) -> (r: Vec<TrackListItem>)
        ensures
            r@ == TrackList::spec_items(*animation),
            tracks_named(r@) == Seq::new(
                animation.tracks@.len(),
                |i: int| animation.tracks@[i].id,
            ),
    {
        let mut out: Vec<TrackListItem> = Vec::new();
        let mut t: usize = 0;
        while t < animation.tracks.len()
            invariant
                t <= animation.tracks@.len(),
                out@ == items_of_first(animation.tracks@, t as int),
            decreases animation.tracks@.len() - t,
        {
            let track = &animation.tracks[t];
            let ghost before = out@;
            out.push(TrackListItem::Track(track.id));
            let mut c: usize = 0;
            while c < track.curves.len()
                invariant
                    c <= track.curves@.len(),
                    out@ == before + track_items(*track).take(c as int + 1),
                decreases track.curves@.len() - c,
            {
                out.push(TrackListItem::Curve(track.curves[c].id));
                c = c + 1;
                assert(out@ =~= before + track_items(*track).take(c as int + 1));
            }
            assert(track_items(*track).take(c as int + 1) =~= track_items(*track));
            t = t + 1;
        }
        proof {
            lemma_track_order_kept(animation.tracks@, animation.tracks@.len() as int);
        }
        out
    }
}

} // verus!
