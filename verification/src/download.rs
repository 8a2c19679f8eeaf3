use vstd::prelude::*;
use vstd::string::StringExecFns;

use crate::text::dec_digits;
use crate::text::u64_string;
use crate::track::{Track, TrackData, spec_track_url};

verus! {

/// The plan for one track of a confirmed batch download: the destination
/// file to create, the fallback file to create instead when the first
/// creation fails, and the URL the audio bytes come from.
pub struct DownloadItem {
    pub primary_name: String,
    pub fallback_name: String,
    pub url: String,
}

/// The preferred destination file name: `<track name>.mp3`.
pub open spec fn spec_primary_name(t: TrackData) -> Seq<char> {
    t.name + ".mp3"@
}

/// The collision-safe fallback file name for the track at 1-indexed
/// `position` of `total`: `<position>_of_<total>_errored_<id>.mp3`.
pub open spec fn spec_fallback_name(position: nat, total: nat, id: u64) -> Seq<char> {
    dec_digits(position) + "_of_"@ + dec_digits(total) + "_errored_"@ + dec_digits(id as nat)
        + ".mp3"@
}

/// Whether a confirmation reply affirms the download: a case-insensitive
/// `Y`, and nothing else.
pub open spec fn spec_affirmed(reply: Seq<char>) -> bool {
    reply == "Y"@ || reply == "y"@
}

/// Decide a confirmation reply. Any reply but an affirming one aborts the
/// batch; the abort is a normal outcome, not an error.
pub fn affirmed(reply: &str) -> (r: bool)
    ensures
        r == spec_affirmed(reply@),
{
    let s = reply.to_owned();
    s == String::from_str("Y") || s == String::from_str("y")
}

/// The plan of a batch download: one item per track when the user
/// affirmed, in order, and no item at all when the user declined. A plan
/// over no tracks is empty. Only the files the plan names are ever
/// created.
#[verifier::loop_isolation(false)]
pub fn download_plan(tracks: &Vec<Track>, confirmed: bool) -> (r: Vec<DownloadItem>)
    ensures
        !confirmed ==> r@.len() == 0,
        confirmed ==> r@.len() == tracks@.len(),
        forall|i: int|
            0 <= i < r@.len() ==> {
                &&& r@[i].primary_name@ == spec_primary_name(tracks@[i]@)
                &&& r@[i].fallback_name@ == spec_fallback_name(
                    (i + 1) as nat,
                    tracks@.len() as nat,
                    tracks@[i]@.id,
                )
                &&& r@[i].url@ == spec_track_url(tracks@[i]@.id)
            },
{
    let mut plan: Vec<DownloadItem> = Vec::new();
    if !confirmed {
        return plan;
    }
    let total = tracks.len();
    let mut i: usize = 0;
    while i < total
        invariant
            i <= total,
            plan@.len() == i,
            forall|j: int|
                0 <= j < i ==> {
                    &&& plan@[j].primary_name@ == spec_primary_name(tracks@[j]@)
                    &&& plan@[j].fallback_name@ == spec_fallback_name(
                        (j + 1) as nat,
                        tracks@.len() as nat,
                        tracks@[j]@.id,
                    )
                    &&& plan@[j].url@ == spec_track_url(tracks@[j]@.id)
                },
        decreases total - i,
    {
        let track = &tracks[i];
        let mut primary_name = track.name.clone();
        primary_name.append(".mp3");
        let mut fallback_name = u64_string((i + 1) as u64);
        fallback_name.append("_of_");
        fallback_name.append(u64_string(total as u64).as_str());
        fallback_name.append("_errored_");
        fallback_name.append(u64_string(track.id).as_str());
        fallback_name.append(".mp3");
        let item = DownloadItem { primary_name, fallback_name, url: track.get_url() };
        plan.push(item);
        i = i + 1;
    }
    plan
}

} // verus!
