use vstd::prelude::*;

use crate::json::Json;
use crate::text::{dec_digits, digit_char};
use crate::track::{Track, spec_track_of_doc, spec_track_url};

verus! {

/// A decimal rendering is never empty.
proof fn lemma_dec_digits_len(n: nat)
    ensures
        dec_digits(n).len() >= 1,
    decreases n,
{
    if n >= 10 {
        lemma_dec_digits_len(n / 10);
    }
}

/// Distinct digits render as distinct characters.
proof fn lemma_digit_char_injective(a: nat, b: nat)
    requires
        a < 10,
        b < 10,
        digit_char(a) == digit_char(b),
    ensures
        a == b,
{
}

/// Two numbers with the same decimal rendering are equal.
proof fn lemma_dec_digits_injective(a: nat, b: nat)
    requires
        dec_digits(a) == dec_digits(b),
    ensures
        a == b,
    decreases a,
{
    if a < 10 && b < 10 {
        assert(dec_digits(a) == seq![digit_char(a)]);
        assert(dec_digits(b) == seq![digit_char(b)]);
        assert(digit_char(a) == seq![digit_char(a)][0]);
        assert(digit_char(b) == seq![digit_char(b)][0]);
        lemma_digit_char_injective(a, b);
    } else if a >= 10 && b >= 10 {
        let da = dec_digits(a / 10);
        let db = dec_digits(b / 10);
        assert(dec_digits(a) == da + seq![digit_char(a % 10)]);
        assert(dec_digits(b) == db + seq![digit_char(b % 10)]);
        assert(da.len() == db.len());
        assert(da =~= dec_digits(a).subrange(0, da.len() as int));
        assert(db =~= dec_digits(b).subrange(0, db.len() as int));
        lemma_dec_digits_injective(a / 10, b / 10);
        assert(dec_digits(a).last() == digit_char(a % 10));
        assert(dec_digits(b).last() == digit_char(b % 10));
        lemma_digit_char_injective(a % 10, b % 10);
        assert(a == (a / 10) * 10 + a % 10);
        assert(b == (b / 10) * 10 + b % 10);
    } else if a < 10 {
        lemma_dec_digits_len(b / 10);
        assert(dec_digits(b).len() >= 2);
        assert(false);
    } else {
        lemma_dec_digits_len(a / 10);
        assert(dec_digits(a).len() >= 2);
        assert(false);
    }
}

/// The audio URL determines the track id: two ids derive the same URL
/// only when they are the same id.
pub proof fn lemma_url_identifies_track(a: u64, b: u64)
    requires
        spec_track_url(a) == spec_track_url(b),
    ensures
        a == b,
{
    let p = "http://music.163.com/song/media/outer/url?id="@;
    let s = ".mp3"@;
    let da = dec_digits(a as nat);
    let db = dec_digits(b as nat);
    assert((p + da + s).len() == (p + db + s).len());
    assert(da.len() == db.len());
    assert(da =~= (p + da + s).subrange(p.len() as int, (p.len() + da.len()) as int));
    assert(db =~= (p + db + s).subrange(p.len() as int, (p.len() + db.len()) as int));
    lemma_dec_digits_injective(a as nat, b as nat);
}

/// The round trip from document to track to URL: a track constructed from
/// a well-formed document derives an audio URL that embeds exactly the
/// document's id — the id the URL carries is the track's, and no other id
/// yields that URL.
pub proof fn lemma_url_round_trip(doc: Json, t: Track, other: u64)
    requires
        Some(t@) == spec_track_of_doc(doc),
        spec_track_url(other) == spec_track_url(t.id),
    ensures
        t@.id == spec_track_of_doc(doc).unwrap().id,
        other == t.id,
{
    lemma_url_identifies_track(other, t.id);
}

} // verus!
