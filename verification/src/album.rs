use vstd::prelude::*;
use vstd::string::StringExecFns;

use crate::json::{DecodeError, Json, parse_json, spec_get, spec_uint_member};
use crate::resolve::{FetchOutcome, RETRY_BUDGET, ResolveError, attempt_doc, spec_album_url};
use crate::text::u64_string;
use crate::track::Track;

verus! {

/// An album: the tracks resolved from its document, in document order.
/// An album with no tracks is a valid album.
pub struct Album {
    pub tracks: Vec<Track>,
}

/// The song entries of an album document, when it carries `album.songs`.
pub open spec fn spec_album_songs(doc: Json) -> Option<Seq<Json>> {
    match spec_get(doc, "album"@) {
        Some(album_doc) => match spec_get(album_doc, "songs"@) {
            Some(Json::Arr(songs)) => Some(songs@),
            _ => None,
        },
        None => None,
    }
}

/// Whether every song entry carries a numeric id.
pub open spec fn entries_ok(entries: Seq<Json>) -> bool {
    forall|i: int| 0 <= i < entries.len() ==> spec_uint_member(entries[i], "id"@) is Some
}

/// Whether an album document is well-formed.
pub open spec fn album_doc_ok(doc: Json) -> bool {
    match spec_album_songs(doc) {
        Some(entries) => entries_ok(entries),
        None => false,
    }
}

/// The embedded track ids of a well-formed album document, in order.
pub open spec fn spec_album_ids(doc: Json) -> Seq<u64> {
    spec_album_songs(doc).unwrap().map_values(|e: Json| spec_uint_member(e, "id"@).unwrap())
}

/// Whether one fetch outcome yields a well-formed album document.
pub open spec fn album_attempt_ok(a: FetchOutcome) -> bool {
    match attempt_doc(a) {
        Some(doc) => album_doc_ok(doc),
        None => false,
    }
}

/// What one album-resolution step decides. A resolved album document
/// yields the embedded track ids, each of which is then resolved on its
/// own budget.
pub enum AlbumStep {
    Resolved(Vec<u64>),
    Retry,
    Failed(ResolveError),
}

/// The bounded-retry protocol for one album id, fed one fetch outcome per
/// attempt like a track resolution.
pub struct AlbumResolution {
    pub uid: u64,
    pub attempts: u64,
}

/// The tracks of the outcomes that resolved, in order: the best-effort
/// aggregation policy of an album, which drops a failed member silently.
pub open spec fn collect_resolved(outcomes: Seq<Option<Track>>) -> Seq<Track>
    decreases outcomes.len(),
{
    if outcomes.len() == 0 {
        Seq::empty()
    } else {
        match outcomes[0] {
            Some(t) => seq![t] + collect_resolved(outcomes.drop_first()),
            None => collect_resolved(outcomes.drop_first()),
        }
    }
}

impl AlbumResolution {
    pub open spec fn wf(&self) -> bool {
        self.attempts <= RETRY_BUDGET
    }

    pub fn new(uid: u64) -> (r: Self)
        ensures
            r.uid == uid,
            r.attempts == 0,
            r.wf(),
    {
        AlbumResolution { uid, attempts: 0 }
    }

    /// The URL every attempt of this resolution fetches.
    pub fn url(&self) -> (r: String)
        ensures
            r@ == spec_album_url(self.uid),
    {
        let mut s = String::from_str("http://music.163.com/api/album/");
        s.append(u64_string(self.uid).as_str());
        s
    }

    /// Account one fetch outcome: resolve on the first well-formed album
    /// document, otherwise retry until the budget is spent.
    pub fn feed(&mut self, a: &FetchOutcome) -> (r: AlbumStep)
        requires
            old(self).wf(),
            old(self).attempts < RETRY_BUDGET,
        ensures
            final(self).uid == old(self).uid,
            final(self).attempts == old(self).attempts + 1,
            final(self).wf(),
            match r {
                AlbumStep::Resolved(ids) => album_attempt_ok(*a) && ids@ == spec_album_ids(
                    attempt_doc(*a).unwrap(),
                ),
                AlbumStep::Retry => !album_attempt_ok(*a) && final(self).attempts < RETRY_BUDGET,
                AlbumStep::Failed(e) => !album_attempt_ok(*a) && final(self).attempts
                    == RETRY_BUDGET && e == ResolveError::ResolutionFailed(old(self).uid),
            },
    {
        self.attempts = self.attempts + 1;
        match a {
            FetchOutcome::Failure => {},
            FetchOutcome::Body(b) => match parse_json(b.as_slice()) {
                Some(doc) => match Album::ids_from_json(&doc) {
                    Ok(ids) => {
                        return AlbumStep::Resolved(ids);
                    },
                    Err(_) => {},
                },
                None => {},
            },
        }
        if self.attempts < RETRY_BUDGET {
            AlbumStep::Retry
        } else {
            AlbumStep::Failed(ResolveError::ResolutionFailed(self.uid))
        }
    }
}

/// Whether attempt `i` is the first of the recorded outcomes that yields
/// an album document; outcomes past the end of the record count as
/// failures.
pub open spec fn first_album_success(attempts: Seq<FetchOutcome>, i: int) -> bool {
    &&& 0 <= i < RETRY_BUDGET
    &&& i < attempts.len()
    &&& album_attempt_ok(attempts[i])
    &&& forall|j: int| 0 <= j < i ==> !album_attempt_ok(attempts[j])
}

/// Whether no attempt within the budget yields an album document.
pub open spec fn no_album_success(attempts: Seq<FetchOutcome>) -> bool {
    forall|i: int|
        0 <= i < RETRY_BUDGET && i < attempts.len() ==> !album_attempt_ok(attempts[i])
}

impl Album {
    /// Decode the embedded track ids from a parsed album document.
    /// Succeeds exactly on well-formed documents, and then returns every
    /// embedded id in document order.
    #[verifier::loop_isolation(false)]
    pub fn ids_from_json(doc: &Json) -> (r: Result<Vec<u64>, DecodeError>)
        ensures
            r is Ok <==> album_doc_ok(*doc),
            r is Ok ==> r.unwrap()@ == spec_album_ids(*doc),
    {
        let album_doc = match doc.get("album") {
            Some(a) => a,
            None => {
                return Err(DecodeError);
            },
        };
        let entries = match album_doc.get("songs") {
            Some(Json::Arr(v)) => v,
            _ => {
                return Err(DecodeError);
            },
        };
        let mut ids: Vec<u64> = Vec::new();
        let mut i: usize = 0;
        while i < entries.len()
            invariant
                i <= entries.len(),
                ids@.len() == i,
                forall|j: int|
                    0 <= j < i ==> spec_uint_member(entries@[j], "id"@) == Some(ids@[j]),
            decreases entries.len() - i,
        {
            match entries[i].get("id") {
                Some(Json::UInt(n)) => ids.push(*n),
                _ => {
                    return Err(DecodeError);
                },
            }
            i = i + 1;
        }
        proof {
            assert(ids@ =~= spec_album_ids(*doc));
        }
        Ok(ids)
    }

    /// Resolve an album document from a recorded sequence of fetch
    /// outcomes: the first attempt with a well-formed document yields its
    /// embedded ids, and exactly a full budget of failures yields the
    /// terminal error.
    pub fn ids_from_attempts(uid: u64, attempts: &Vec<FetchOutcome>) -> (r: Result<
        Vec<u64>,
        ResolveError,
    >)
        ensures
            match r {
                Ok(ids) => exists|i: int|
                    first_album_success(attempts@, i) && ids@ == spec_album_ids(
                        attempt_doc(attempts@[i]).unwrap(),
                    ),
                Err(e) => no_album_success(attempts@) && e == ResolveError::ResolutionFailed(uid),
            },
    {
        let mut res = AlbumResolution::new(uid);
        while res.attempts < RETRY_BUDGET
            invariant
                res.uid == uid,
                res.wf(),
                forall|j: int|
                    0 <= j < res.attempts && j < attempts@.len() ==> !album_attempt_ok(
                        attempts@[j],
                    ),
            decreases RETRY_BUDGET - res.attempts,
        {
            let ghost k = res.attempts as int;
            let i = res.attempts as usize;
            let step = if i < attempts.len() {
                res.feed(&attempts[i])
            } else {
                let missing = FetchOutcome::Failure;
                res.feed(&missing)
            };
            match step {
                AlbumStep::Resolved(ids) => {
                    proof {
                        assert(first_album_success(attempts@, k));
                    }
                    return Ok(ids);
                },
                AlbumStep::Retry => {},
                AlbumStep::Failed(e) => {
                    return Err(e);
                },
            }
        }
        Err(ResolveError::ResolutionFailed(uid))
    }

    /// Best-effort aggregation: keep each successfully resolved member
    /// track, silently drop each failed one, preserving the order of the
    /// successes. The album itself is valid whatever failed.
    pub fn assemble(outcomes: Vec<Option<Track>>) -> (r: Album)
        ensures
            r.tracks@ == collect_resolved(outcomes@),
    {
        let ghost orig = outcomes@;
        let mut remaining = outcomes;
        let mut tracks: Vec<Track> = Vec::new();
        while remaining.len() > 0
            invariant
                collect_resolved(orig) =~= tracks@ + collect_resolved(remaining@),
            decreases remaining.len(),
        {
            let ghost before = remaining@;
            let first = remaining.remove(0);
            proof {
                assert(remaining@ =~= before.drop_first());
            }
            match first {
                Some(t) => {
                    proof {
                        assert(tracks@ + collect_resolved(before) =~= (tracks@ + seq![t])
                            + collect_resolved(before.drop_first()));
                    }
                    tracks.push(t);
                },
                None => {},
            }
        }
        proof {
            assert(collect_resolved(remaining@) =~= Seq::<Track>::empty());
            assert(tracks@ + collect_resolved(remaining@) =~= tracks@);
        }
        Album { tracks }
    }
}

} // verus!
