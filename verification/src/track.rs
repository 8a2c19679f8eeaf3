use vstd::prelude::*;
use vstd::string::StringExecFns;

use crate::json::{DecodeError, Json, spec_get, spec_str_member, spec_uint_member};
use crate::text::{dec_digits, u64_string};

verus! {

/// One track of the remote catalog, with the fields its track-detail
/// document carries. A track is immutable once constructed, and a
/// successful construction never leaves a name field empty.
pub struct Track {
    pub id: u64,
    pub name: String,
    pub artist: String,
    pub album: String,
}

/// The mathematical content of a track.
pub ghost struct TrackData {
    pub id: u64,
    pub name: Seq<char>,
    pub artist: Seq<char>,
    pub album: Seq<char>,
}

impl View for Track {
    type V = TrackData;

    open spec fn view(&self) -> TrackData {
        TrackData {
            id: self.id,
            name: self.name@,
            artist: self.artist@,
            album: self.album@,
        }
    }
}

/// The first element of the document's `songs` array, when the document
/// carries a non-empty one.
pub open spec fn spec_song(doc: Json) -> Option<Json> {
    match spec_get(doc, "songs"@) {
        Some(Json::Arr(songs)) => if songs@.len() > 0 {
            Some(songs@[0])
        } else {
            None
        },
        _ => None,
    }
}

/// The name of the first entry of the song's `artists` array, when the
/// song carries one.
pub open spec fn spec_artist_name(song: Json) -> Option<Seq<char>> {
    match spec_get(song, "artists"@) {
        Some(Json::Arr(artists)) => if artists@.len() > 0 {
            spec_str_member(artists@[0], "name"@)
        } else {
            None
        },
        _ => None,
    }
}

/// The name of the song's `album` member, when the song carries one.
pub open spec fn spec_album_name(song: Json) -> Option<Seq<char>> {
    match spec_get(song, "album"@) {
        Some(album_doc) => spec_str_member(album_doc, "name"@),
        None => None,
    }
}

/// The track a well-formed track-detail document denotes, if any: the id,
/// name, first artist's name and album name of the first `songs` element,
/// each name non-empty. `None` is a decode failure.
pub open spec fn spec_track_of_doc(doc: Json) -> Option<TrackData> {
    match spec_song(doc) {
        Some(song) => match (
            spec_uint_member(song, "id"@),
            spec_str_member(song, "name"@),
            spec_artist_name(song),
            spec_album_name(song),
        ) {
            (Some(id), Some(name), Some(artist), Some(album)) => Some(
                TrackData { id, name, artist, album },
            ),
            _ => None,
        },
        None => None,
    }
}

/// Whether a track-detail document is well-formed.
pub open spec fn track_doc_ok(doc: Json) -> bool {
    spec_track_of_doc(doc) is Some
}

/// The audio-stream URL for a track id.
pub open spec fn spec_track_url(id: u64) -> Seq<char> {
    "http://music.163.com/song/media/outer/url?id="@ + dec_digits(id as nat) + ".mp3"@
}

/// The preview line for one track: `- <name> by <artist> in <album>`.
pub open spec fn spec_preview_line(t: TrackData) -> Seq<char> {
    "- "@ + t.name + " by "@ + t.artist + " in "@ + t.album
}

impl Track {
    /// A constructed track never carries an empty name field.
    pub open spec fn wf(&self) -> bool {
        self@.name.len() > 0 && self@.artist.len() > 0 && self@.album.len() > 0
    }

    /// The URL of the track's audio stream.
    pub fn get_url(&self) -> (r: String)
        ensures
            r@ == spec_track_url(self.id),
    {
        let mut s = String::from_str("http://music.163.com/song/media/outer/url?id=");
        s.append(u64_string(self.id).as_str());
        s.append(".mp3");
        s
    }

    /// The preview line printed for the track before a batch download.
    pub fn preview_line(&self) -> (r: String)
        ensures
            r@ == spec_preview_line(self@),
    {
        let mut s = String::from_str("- ");
        s.append(self.name.as_str());
        s.append(" by ");
        s.append(self.artist.as_str());
        s.append(" in ");
        s.append(self.album.as_str());
        s
    }

    /// A copy of the track with the same content.
    pub fn duplicate(&self) -> (r: Track)
        ensures
            r@ == self@,
    {
        Track {
            id: self.id,
            name: self.name.clone(),
            artist: self.artist.clone(),
            album: self.album.clone(),
        }
    }

    /// Decode a track from a parsed track-detail document. Succeeds exactly
    /// on well-formed documents, and then returns the fields of the first
    /// `songs` element; any missing or mistyped field is a decode failure,
    /// never a partial track.
    pub fn from_json(doc: &Json) -> (r: Result<Track, DecodeError>)
        ensures
            r is Ok <==> track_doc_ok(*doc),
            r is Ok ==> Some(r.unwrap()@) == spec_track_of_doc(*doc),
            r is Ok ==> r.unwrap().wf(),
    {
        let song = match doc.get("songs") {
            Some(Json::Arr(songs)) => {
                if songs.len() == 0 {
                    return Err(DecodeError);
                }
                &songs[0]
            },
            _ => {
                return Err(DecodeError);
            },
        };
        let id = match song.get("id") {
            Some(Json::UInt(n)) => *n,
            _ => {
                return Err(DecodeError);
            },
        };
        let name = match song.get("name") {
            Some(Json::Str(s)) => {
                if s.as_str().is_empty() {
                    return Err(DecodeError);
                }
                s.clone()
            },
            _ => {
                return Err(DecodeError);
            },
        };
        let artist = match song.get("artists") {
            Some(Json::Arr(artists)) => {
                if artists.len() == 0 {
                    return Err(DecodeError);
                }
                match artists[0].get("name") {
                    Some(Json::Str(s)) => {
                        if s.as_str().is_empty() {
                            return Err(DecodeError);
                        }
                        s.clone()
                    },
                    _ => {
                        return Err(DecodeError);
                    },
                }
            },
            _ => {
                return Err(DecodeError);
            },
        };
        let album = match song.get("album") {
            Some(album_doc) => match album_doc.get("name") {
                Some(Json::Str(s)) => {
                    if s.as_str().is_empty() {
                        return Err(DecodeError);
                    }
                    s.clone()
                },
                _ => {
                    return Err(DecodeError);
                },
            },
            None => {
                return Err(DecodeError);
            },
        };
        Ok(Track { id, name, artist, album })
    }
}

} // verus!
