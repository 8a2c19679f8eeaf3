use vstd::prelude::*;
use vstd::string::StringExecFns;

use crate::json::{Json, parse_json, spec_parse_json};
use crate::text::{dec_digits, u64_string};
use crate::track::{Track, spec_track_of_doc, track_doc_ok};

verus! {

/// How many attempts a resolution makes before giving up.
pub const RETRY_BUDGET: u64 = 50;

/// The outcome of one fetch from the catalog service: a transport failure,
/// or the bytes of the response body.
pub enum FetchOutcome {
    Failure,
    Body(Vec<u8>),
}

/// The terminal resolution error: every attempt of the budget failed for
/// the given identifier. Transient transport and decode failures never
/// escape the retry loop; only this error does.
#[derive(Debug)]
pub enum ResolveError {
    ResolutionFailed(u64),
}

/// The document one fetch outcome yields: the parsed body, when there is
/// a body and it parses.
pub open spec fn attempt_doc(a: FetchOutcome) -> Option<Json> {
    match a {
        FetchOutcome::Failure => None,
        FetchOutcome::Body(b) => spec_parse_json(b@),
    }
}

/// Whether one fetch outcome yields a well-formed track-detail document.
pub open spec fn track_attempt_ok(a: FetchOutcome) -> bool {
    match attempt_doc(a) {
        Some(doc) => track_doc_ok(doc),
        None => false,
    }
}

/// The track-detail request URL for an id.
pub open spec fn spec_track_detail_url(id: u64) -> Seq<char> {
    "http://music.163.com/api/song/detail/?id="@ + dec_digits(id as nat) + "&ids=%5B"@
        + dec_digits(id as nat) + "%5D"@
}

/// The album-detail request URL for an id.
pub open spec fn spec_album_url(id: u64) -> Seq<char> {
    "http://music.163.com/api/album/"@ + dec_digits(id as nat)
}

/// What one resolution step decides: the entity is resolved, the attempt
/// failed but budget remains, or the budget is exhausted.
pub enum TrackStep {
    Resolved(Track),
    Retry,
    Failed(ResolveError),
}

/// The bounded-retry protocol for one track id. The caller fetches the
/// URL and feeds the outcome back, once per attempt, until a step
/// resolves the track or exhausts the budget.
pub struct TrackResolution {
    pub uid: u64,
    pub attempts: u64,
}

impl TrackResolution {
    pub open spec fn wf(&self) -> bool {
        self.attempts <= RETRY_BUDGET
    }

    pub fn new(uid: u64) -> (r: Self)
        ensures
            r.uid == uid,
            r.attempts == 0,
            r.wf(),
    {
        TrackResolution { uid, attempts: 0 }
    }

    /// The URL every attempt of this resolution fetches.
    pub fn url(&self) -> (r: String)
        ensures
            r@ == spec_track_detail_url(self.uid),
    {
        let digits = u64_string(self.uid);
        let mut s = String::from_str("http://music.163.com/api/song/detail/?id=");
        s.append(digits.as_str());
        s.append("&ids=%5B");
        s.append(digits.as_str());
        s.append("%5D");
        s
    }

    /// Account one fetch outcome: resolve on the first well-formed
    /// document, otherwise retry until the budget is spent.
    pub fn feed(&mut self, a: &FetchOutcome) -> (r: TrackStep)
        requires
            old(self).wf(),
            old(self).attempts < RETRY_BUDGET,
        ensures
            final(self).uid == old(self).uid,
            final(self).attempts == old(self).attempts + 1,
            final(self).wf(),
            match r {
                TrackStep::Resolved(t) => track_attempt_ok(*a) && Some(t@) == spec_track_of_doc(
                    attempt_doc(*a).unwrap(),
                ) && t.wf(),
                TrackStep::Retry => !track_attempt_ok(*a) && final(self).attempts < RETRY_BUDGET,
                TrackStep::Failed(e) => !track_attempt_ok(*a) && final(self).attempts
                    == RETRY_BUDGET && e == ResolveError::ResolutionFailed(old(self).uid),
            },
    {
        self.attempts = self.attempts + 1;
        match a {
            FetchOutcome::Failure => {},
            FetchOutcome::Body(b) => match parse_json(b.as_slice()) {
                Some(doc) => match Track::from_json(&doc) {
                    Ok(t) => {
                        return TrackStep::Resolved(t);
                    },
                    Err(_) => {},
                },
                None => {},
            },
        }
        if self.attempts < RETRY_BUDGET {
            TrackStep::Retry
        } else {
            TrackStep::Failed(ResolveError::ResolutionFailed(self.uid))
        }
    }
}

/// Whether attempt `i` is the first of the recorded outcomes that yields
/// a track; outcomes past the end of the record count as failures.
pub open spec fn first_track_success(attempts: Seq<FetchOutcome>, i: int) -> bool {
    &&& 0 <= i < RETRY_BUDGET
    &&& i < attempts.len()
    &&& track_attempt_ok(attempts[i])
    &&& forall|j: int| 0 <= j < i ==> !track_attempt_ok(attempts[j])
}

/// Whether no attempt within the budget yields a track.
pub open spec fn no_track_success(attempts: Seq<FetchOutcome>) -> bool {
    forall|i: int|
        0 <= i < RETRY_BUDGET && i < attempts.len() ==> !track_attempt_ok(attempts[i])
}

impl Track {
    /// Resolve a track from a recorded sequence of fetch outcomes: the
    /// first attempt with a well-formed document wins, and exactly a full
    /// budget of failures yields the terminal error.
    pub fn from_attempts(uid: u64, attempts: &Vec<FetchOutcome>) -> (r: Result<
        Track,
        ResolveError,
    >)
        ensures
            match r {
                Ok(t) => exists|i: int|
                    first_track_success(attempts@, i) && Some(t@) == spec_track_of_doc(
                        attempt_doc(attempts@[i]).unwrap(),
                    ),
                Err(e) => no_track_success(attempts@) && e == ResolveError::ResolutionFailed(uid),
            },
    {
        let mut res = TrackResolution::new(uid);
        while res.attempts < RETRY_BUDGET
            invariant
                res.uid == uid,
                res.wf(),
                forall|j: int|
                    0 <= j < res.attempts && j < attempts@.len() ==> !track_attempt_ok(
                        attempts@[j],
                    ),
            decreases RETRY_BUDGET - res.attempts,
        {
            let ghost k = res.attempts as int;
            let i = res.attempts as usize;
            let step = if i < attempts.len() {
                res.feed(&attempts[i])
            } else {
                let missing = FetchOutcome::Failure;
                res.feed(&missing)
            };
            match step {
                TrackStep::Resolved(t) => {
                    proof {
                        assert(first_track_success(attempts@, k));
                    }
                    return Ok(t);
                },
                TrackStep::Retry => {},
                TrackStep::Failed(e) => {
                    return Err(e);
                },
            }
        }
        Err(ResolveError::ResolutionFailed(uid))
    }
}

} // verus!
