use vstd::prelude::*;

use crate::album::Album;
use crate::track::{Track, TrackData};

verus! {

/// The views of a sequence of tracks, in order.
pub open spec fn track_views(tracks: Seq<Track>) -> Seq<TrackData> {
    tracks.map_values(|t: Track| t@)
}

/// The capability shared by a track and an album: list the tracks the
/// value stands for, in order, so that one batch-download algorithm
/// serves both.
pub trait TrackAccess {
    /// The tracks the value stands for.
    spec fn spec_tracks(&self) -> Seq<TrackData>;

    /// List the tracks: a track lists itself, an album its members.
    fn ls_tracks(&self) -> (r: Vec<Track>)
        ensures
            track_views(r@) == self.spec_tracks(),
    ;
}

impl TrackAccess for Track {
    open spec fn spec_tracks(&self) -> Seq<TrackData> {
        seq![self@]
    }

    fn ls_tracks(&self) -> (r: Vec<Track>) {
        let mut v: Vec<Track> = Vec::new();
        v.push(self.duplicate());
        proof {
            assert(track_views(v@) =~= seq![self@]);
        }
        v
    }
}

impl TrackAccess for Album {
    open spec fn spec_tracks(&self) -> Seq<TrackData> {
        track_views(self.tracks@)
    }

    #[verifier::loop_isolation(false)]
    fn ls_tracks(&self) -> (r: Vec<Track>) {
        let mut v: Vec<Track> = Vec::new();
        let mut i: usize = 0;
        while i < self.tracks.len()
            invariant
                i <= self.tracks.len(),
                v@.len() == i,
                forall|j: int| 0 <= j < i ==> v@[j]@ == self.tracks@[j]@,
            decreases self.tracks.len() - i,
        {
            v.push(self.tracks[i].duplicate());
            i = i + 1;
        }
        proof {
            assert(track_views(v@) =~= track_views(self.tracks@));
        }
        v
    }
}

} // verus!
