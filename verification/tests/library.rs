use netease_getter::access::TrackAccess;
use netease_getter::album::{Album, AlbumResolution, AlbumStep};
use netease_getter::download::{affirmed, download_plan};
use netease_getter::json::Json;
use netease_getter::resolve::{FetchOutcome, ResolveError, TrackResolution, TrackStep};
use netease_getter::text::u64_string;
use netease_getter::track::Track;

fn track(id: u64, name: &str, artist: &str, album: &str) -> Track {
    Track {
        id,
        name: String::from(name),
        artist: String::from(artist),
        album: String::from(album),
    }
}

fn song_doc(id: u64, name: &str, artist: &str, album: &str) -> Json {
    Json::Obj(vec![(
        String::from("songs"),
        Json::Arr(vec![Json::Obj(vec![
            (String::from("id"), Json::UInt(id)),
            (String::from("name"), Json::Str(String::from(name))),
            (
                String::from("artists"),
                Json::Arr(vec![Json::Obj(vec![(
                    String::from("name"),
                    Json::Str(String::from(artist)),
                )])]),
            ),
            (
                String::from("album"),
                Json::Obj(vec![(String::from("name"), Json::Str(String::from(album)))]),
            ),
        ])]),
    )])
}

#[test]
fn decode_track_complete_document() {
    let doc = song_doc(33894312, "Nightcall", "Kavinsky", "OutRun");
    let t = Track::from_json(&doc).unwrap();
    assert_eq!(t.id, 33894312);
    assert_eq!(t.name, "Nightcall");
    assert_eq!(t.artist, "Kavinsky");
    assert_eq!(t.album, "OutRun");
}

#[test]
fn decode_track_missing_songs() {
    let doc = Json::Obj(vec![(String::from("code"), Json::UInt(200))]);
    assert!(Track::from_json(&doc).is_err());
}

#[test]
fn decode_track_empty_songs() {
    let doc = Json::Obj(vec![(String::from("songs"), Json::Arr(vec![]))]);
    assert!(Track::from_json(&doc).is_err());
}

#[test]
fn decode_track_missing_id() {
    let doc = Json::Obj(vec![(
        String::from("songs"),
        Json::Arr(vec![Json::Obj(vec![(
            String::from("name"),
            Json::Str(String::from("Nightcall")),
        )])]),
    )]);
    assert!(Track::from_json(&doc).is_err());
}

#[test]
fn decode_track_mistyped_id() {
    let doc = Json::Obj(vec![(
        String::from("songs"),
        Json::Arr(vec![Json::Obj(vec![
            (String::from("id"), Json::Str(String::from("33894312"))),
            (String::from("name"), Json::Str(String::from("Nightcall"))),
        ])]),
    )]);
    assert!(Track::from_json(&doc).is_err());
}

#[test]
fn decode_track_empty_name() {
    let doc = song_doc(1, "", "Kavinsky", "OutRun");
    assert!(Track::from_json(&doc).is_err());
}

#[test]
fn decode_track_missing_artists() {
    let doc = Json::Obj(vec![(
        String::from("songs"),
        Json::Arr(vec![Json::Obj(vec![
            (String::from("id"), Json::UInt(1)),
            (String::from("name"), Json::Str(String::from("Nightcall"))),
            (
                String::from("album"),
                Json::Obj(vec![(String::from("name"), Json::Str(String::from("OutRun")))]),
            ),
        ])]),
    )]);
    assert!(Track::from_json(&doc).is_err());
}

#[test]
fn decode_track_non_object_document() {
    assert!(Track::from_json(&Json::Null).is_err());
    assert!(Track::from_json(&Json::Arr(vec![])).is_err());
}

#[test]
fn track_url_embeds_exactly_the_id() {
    let t = track(33894312, "Nightcall", "Kavinsky", "OutRun");
    assert_eq!(
        t.get_url(),
        "http://music.163.com/song/media/outer/url?id=33894312.mp3"
    );
}

#[test]
fn round_trip_document_to_url() {
    let doc = song_doc(42, "Song Two", "Someone", "Somewhere");
    let t = Track::from_json(&doc).unwrap();
    assert_eq!(t.get_url(), "http://music.163.com/song/media/outer/url?id=42.mp3");
}

#[test]
fn decimal_rendering() {
    assert_eq!(u64_string(0), "0");
    assert_eq!(u64_string(7), "7");
    assert_eq!(u64_string(1234567890), "1234567890");
    assert_eq!(u64_string(u64::MAX), "18446744073709551615");
}

#[test]
fn track_detail_url() {
    let res = TrackResolution::new(5);
    assert_eq!(
        res.url(),
        "http://music.163.com/api/song/detail/?id=5&ids=%5B5%5D"
    );
}

#[test]
fn album_detail_url() {
    let res = AlbumResolution::new(320);
    assert_eq!(res.url(), "http://music.163.com/api/album/320");
}

fn good_track_body() -> Vec<u8> {
    br#"{"songs":[{"id":9001,"name":"Aerodynamic","artists":[{"name":"Daft Punk"}],"album":{"name":"Discovery"}}]}"#
        .to_vec()
}

#[test]
fn resolve_track_first_attempt_good() {
    let attempts = vec![FetchOutcome::Body(good_track_body())];
    let t = Track::from_attempts(9001, &attempts).unwrap();
    assert_eq!(t.id, 9001);
    assert_eq!(t.name, "Aerodynamic");
    assert_eq!(t.artist, "Daft Punk");
    assert_eq!(t.album, "Discovery");
}

#[test]
fn resolve_track_retries_past_malformed_attempts() {
    // transport failures, unparsable bodies and incomplete documents are
    // all retryable; the first well-formed attempt wins.
    let mut attempts = vec![
        FetchOutcome::Failure,
        FetchOutcome::Body(b"not json at all".to_vec()),
        FetchOutcome::Body(br#"{"songs":[]}"#.to_vec()),
        FetchOutcome::Body(br#"{"songs":[{"id":9001}]}"#.to_vec()),
    ];
    attempts.push(FetchOutcome::Body(good_track_body()));
    let t = Track::from_attempts(9001, &attempts).unwrap();
    assert_eq!(t.name, "Aerodynamic");
}

#[test]
fn resolve_track_rejects_non_u64_ids() {
    // a negative or fractional id is not an unsigned 64-bit integer: the
    // document is malformed and the attempt counts as a failure
    let attempts = vec![
        FetchOutcome::Body(
            br#"{"songs":[{"id":-5,"name":"a","artists":[{"name":"x"}],"album":{"name":"z"}}]}"#
                .to_vec(),
        ),
        FetchOutcome::Body(
            br#"{"songs":[{"id":1.5,"name":"a","artists":[{"name":"x"}],"album":{"name":"z"}}]}"#
                .to_vec(),
        ),
    ];
    match Track::from_attempts(1, &attempts) {
        Err(ResolveError::ResolutionFailed(id)) => assert_eq!(id, 1),
        _ => panic!("expected resolution failure"),
    }
}

#[test]
fn resolve_track_keeps_the_full_id_range() {
    let body = br#"{"songs":[{"id":18446744073709551615,"name":"a","artists":[{"name":"x"}],"album":{"name":"z"}}]}"#.to_vec();
    let attempts = vec![FetchOutcome::Body(body)];
    let t = Track::from_attempts(1, &attempts).unwrap();
    assert_eq!(t.id, u64::MAX);
}

#[test]
fn resolve_track_succeeds_on_the_fiftieth_attempt() {
    let mut attempts = Vec::new();
    for _ in 0..49 {
        attempts.push(FetchOutcome::Failure);
    }
    attempts.push(FetchOutcome::Body(good_track_body()));
    let t = Track::from_attempts(9001, &attempts).unwrap();
    assert_eq!(t.id, 9001);
}

#[test]
fn resolve_track_exhausts_after_fifty_failures() {
    let mut attempts = Vec::new();
    for _ in 0..50 {
        attempts.push(FetchOutcome::Failure);
    }
    // a well-formed attempt past the budget is never reached
    attempts.push(FetchOutcome::Body(good_track_body()));
    match Track::from_attempts(77, &attempts) {
        Err(ResolveError::ResolutionFailed(id)) => assert_eq!(id, 77),
        _ => panic!("expected resolution failure"),
    }
}

#[test]
fn resolve_track_exhausts_when_attempts_run_out() {
    let attempts = vec![FetchOutcome::Failure];
    match Track::from_attempts(3, &attempts) {
        Err(ResolveError::ResolutionFailed(id)) => assert_eq!(id, 3),
        _ => panic!("expected resolution failure"),
    }
}

#[test]
fn track_resolution_steps_count_attempts() {
    let mut res = TrackResolution::new(12);
    for n in 1..=50u64 {
        let step = res.feed(&FetchOutcome::Failure);
        assert_eq!(res.attempts, n);
        match step {
            TrackStep::Retry => assert!(n < 50),
            TrackStep::Failed(ResolveError::ResolutionFailed(id)) => {
                assert_eq!(n, 50);
                assert_eq!(id, 12);
            }
            TrackStep::Resolved(_) => panic!("a failure never resolves"),
        }
    }
}

#[test]
fn decode_album_ids_in_order() {
    let doc = Json::Obj(vec![(
        String::from("album"),
        Json::Obj(vec![(
            String::from("songs"),
            Json::Arr(vec![
                Json::Obj(vec![(String::from("id"), Json::UInt(11))]),
                Json::Obj(vec![(String::from("id"), Json::UInt(5))]),
                Json::Obj(vec![(String::from("id"), Json::UInt(23))]),
            ]),
        )]),
    )]);
    let ids = Album::ids_from_json(&doc).unwrap();
    assert_eq!(ids, vec![11, 5, 23]);
}

#[test]
fn decode_album_empty_song_list_is_valid() {
    let doc = Json::Obj(vec![(
        String::from("album"),
        Json::Obj(vec![(String::from("songs"), Json::Arr(vec![]))]),
    )]);
    let ids = Album::ids_from_json(&doc).unwrap();
    assert!(ids.is_empty());
}

#[test]
fn decode_album_rejects_entry_without_id() {
    let doc = Json::Obj(vec![(
        String::from("album"),
        Json::Obj(vec![(
            String::from("songs"),
            Json::Arr(vec![
                Json::Obj(vec![(String::from("id"), Json::UInt(11))]),
                Json::Obj(vec![(String::from("title"), Json::Str(String::from("x")))]),
            ]),
        )]),
    )]);
    assert!(Album::ids_from_json(&doc).is_err());
}

#[test]
fn decode_album_missing_album_member() {
    let doc = Json::Obj(vec![(String::from("code"), Json::UInt(200))]);
    assert!(Album::ids_from_json(&doc).is_err());
}

#[test]
fn resolve_album_retries_then_succeeds() {
    let attempts = vec![
        FetchOutcome::Failure,
        FetchOutcome::Body(br#"{"album":{"songs":[{"id":4},{"id":8}]}}"#.to_vec()),
    ];
    let ids = Album::ids_from_attempts(15, &attempts).unwrap();
    assert_eq!(ids, vec![4, 8]);
}

#[test]
fn resolve_album_exhausts_after_fifty_failures() {
    let mut attempts = Vec::new();
    for _ in 0..50 {
        attempts.push(FetchOutcome::Body(b"{}".to_vec()));
    }
    match Album::ids_from_attempts(15, &attempts) {
        Err(ResolveError::ResolutionFailed(id)) => assert_eq!(id, 15),
        _ => panic!("expected resolution failure"),
    }
}

#[test]
fn album_resolution_step_resolves() {
    let mut res = AlbumResolution::new(15);
    let step = res.feed(&FetchOutcome::Body(
        br#"{"album":{"songs":[{"id":4}]}}"#.to_vec(),
    ));
    match step {
        AlbumStep::Resolved(ids) => assert_eq!(ids, vec![4]),
        _ => panic!("expected a resolved step"),
    }
}

#[test]
fn assemble_keeps_successes_in_order() {
    // five candidate ids, three resolve: the album holds exactly those
    // three, in their original relative order
    let outcomes = vec![
        Some(track(1, "a", "x", "z")),
        None,
        Some(track(2, "b", "x", "z")),
        None,
        Some(track(3, "c", "x", "z")),
    ];
    let album = Album::assemble(outcomes);
    assert_eq!(album.tracks.len(), 3);
    assert_eq!(album.tracks[0].id, 1);
    assert_eq!(album.tracks[1].id, 2);
    assert_eq!(album.tracks[2].id, 3);
}

#[test]
fn assemble_of_no_successes_is_an_empty_album() {
    let album = Album::assemble(vec![None, None]);
    assert!(album.tracks.is_empty());
}

#[test]
fn ls_tracks_of_a_track_is_a_singleton() {
    let t = track(7, "a", "x", "z");
    let listed = t.ls_tracks();
    assert_eq!(listed.len(), 1);
    assert_eq!(listed[0].id, 7);
    assert_eq!(listed[0].name, "a");
}

#[test]
fn ls_tracks_of_an_album_lists_members_in_order() {
    let album = Album {
        tracks: vec![track(1, "a", "x", "z"), track(2, "b", "x", "z")],
    };
    let listed = album.ls_tracks();
    assert_eq!(listed.len(), 2);
    assert_eq!(listed[0].id, 1);
    assert_eq!(listed[1].id, 2);
}

#[test]
fn preview_line_format() {
    let t = track(7, "Nightcall", "Kavinsky", "OutRun");
    assert_eq!(t.preview_line(), "- Nightcall by Kavinsky in OutRun");
}

#[test]
fn affirmation_is_a_case_insensitive_y() {
    assert!(affirmed("Y"));
    assert!(affirmed("y"));
    assert!(!affirmed("n"));
    assert!(!affirmed("Y\n"));
    assert!(!affirmed("yes"));
    assert!(!affirmed(""));
}

#[test]
fn plan_of_zero_tracks_is_empty() {
    let plan = download_plan(&Vec::new(), true);
    assert!(plan.is_empty());
}

#[test]
fn declined_confirmation_plans_nothing() {
    let tracks = vec![track(1, "a", "x", "z"), track(2, "b", "x", "z")];
    let plan = download_plan(&tracks, false);
    assert!(plan.is_empty());
}

#[test]
fn plan_names_and_urls() {
    let tracks = vec![track(31, "First", "x", "z")];
    let plan = download_plan(&tracks, true);
    assert_eq!(plan.len(), 1);
    assert_eq!(plan[0].primary_name, "First.mp3");
    assert_eq!(plan[0].fallback_name, "1_of_1_errored_31.mp3");
    assert_eq!(plan[0].url, "http://music.163.com/song/media/outer/url?id=31.mp3");
}

#[test]
fn colliding_names_get_a_distinct_fallback() {
    // two tracks share a name: their primary file names collide, and the
    // second one's fallback is distinct from everything the first creates
    let tracks = vec![track(10, "Same", "x", "z"), track(77, "Same", "x", "z")];
    let plan = download_plan(&tracks, true);
    assert_eq!(plan[0].primary_name, plan[1].primary_name);
    assert_eq!(plan[1].fallback_name, "2_of_2_errored_77.mp3");
    assert_ne!(plan[1].fallback_name, plan[0].primary_name);
    assert_ne!(plan[1].fallback_name, plan[0].fallback_name);
}
