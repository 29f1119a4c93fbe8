//! The order albums and songs are listed in: albums by artist, release year
//! and name, the names compared without regard to case; songs by release
//! year, disc and track number.
use std::cmp::Ordering;

use vstd::prelude::*;
use vstd::utf8::encode_utf8;

use crate::library::{Album, Song};

verus! {

/// The lower-case form of a string, as Unicode's case mapping gives it.
pub uninterp spec fn lowercase_of(s: Seq<char>) -> Seq<char>;

/// `str::to_lowercase`: the lower-case mapping of `s`, which depends on `s`
/// alone; what the mapping is for given characters is not stated.
#[verifier::external_body]
fn to_lowercase(s: &str) -> (r: String)
    ensures
        r@ == lowercase_of(s@),
{
    s.to_lowercase()
}

/// Byte strings compared lexicographically from position `i` on, as a sign
/// (-1, 0 or 1): the first differing byte decides, and a proper prefix comes
/// first.
pub open spec fn lex_sign_from(a: Seq<u8>, b: Seq<u8>, i: int) -> int
    decreases a.len() - i,
{
    if i >= a.len() {
        if i >= b.len() { 0 } else { -1 }
    } else if i >= b.len() {
        1
    } else if i < 0 {
        0
    } else if a[i] < b[i] {
        -1
    } else if a[i] > b[i] {
        1
    } else {
        lex_sign_from(a, b, i + 1)
    }
}

/// A sign as an order.
pub open spec fn sign_order(s: int) -> Ordering {
    if s < 0 { Ordering::Less } else if s > 0 { Ordering::Greater } else { Ordering::Equal }
}

/// The order of two strings: lexicographic on their UTF-8 bytes.
pub open spec fn text_order(a: Seq<char>, b: Seq<char>) -> Ordering {
    sign_order(lex_sign_from(encode_utf8(a), encode_utf8(b), 0))
}

/// Compares two strings byte by byte, as a sign; see [`lex_sign_from`].
pub fn text_sign(a: &str, b: &str) -> (r: i8)
    ensures
        r == lex_sign_from(encode_utf8(a@), encode_utf8(b@), 0),
{
    let x = a.as_bytes();
    let y = b.as_bytes();
    let mut i: usize = 0;
    while i < x.len() && i < y.len()
        invariant
            x@ == encode_utf8(a@),
            y@ == encode_utf8(b@),
            i <= x@.len(),
            i <= y@.len(),
            lex_sign_from(x@, y@, 0) == lex_sign_from(x@, y@, i as int),
        decreases x@.len() - i,
    {
        if x[i] < y[i] {
            return -1;
        }
        if x[i] > y[i] {
            return 1;
        }
        i = i + 1;
    }
    if i < x.len() {
        1
    } else if i < y.len() {
        -1
    } else {
        0
    }
}

/// An order, with its two sides swapped.
pub open spec fn flipped(o: Ordering) -> Ordering {
    match o {
        Ordering::Less => Ordering::Greater,
        Ordering::Equal => Ordering::Equal,
        Ordering::Greater => Ordering::Less,
    }
}

/// Lexicographic combination: `first` decides unless it is `Equal`.
pub open spec fn then_by(first: Ordering, rest: Ordering) -> Ordering {
    if first is Equal { rest } else { first }
}

/// Optional integers compared as a sign: absent before present, present ones
/// by value.
pub open spec fn opt_sign_of(a: Option<int>, b: Option<int>) -> int {
    match (a, b) {
        (None, None) => 0,
        (None, Some(_)) => -1,
        (Some(_), None) => 1,
        (Some(x), Some(y)) => if x < y { -1 } else if x > y { 1 } else { 0 },
    }
}

/// The order of optional integers: absent before present, present ones by value.
pub open spec fn opt_order(a: Option<int>, b: Option<int>) -> Ordering {
    sign_order(opt_sign_of(a, b))
}

/// An optional wide integer as an optional integer.
pub open spec fn wide_key(n: Option<i64>) -> Option<int> {
    match n {
        Some(v) => Some(v as int),
        None => None,
    }
}

/// A sign held in an `i8`, as an integer.
pub open spec fn sign_int(s: i8) -> int {
    s as int
}

/// An optional year as an optional integer.
pub open spec fn year_key(y: Option<i32>) -> Option<int> {
    match y {
        Some(v) => Some(v as int),
        None => None,
    }
}

/// An optional number as an optional integer.
pub open spec fn num_key(n: Option<u32>) -> Option<int> {
    match n {
        Some(v) => Some(v as int),
        None => None,
    }
}

/// The listing order of albums: by the lower-cased artist, then the release
/// year (albums without one first), then the lower-cased name.
pub open spec fn album_order(a: Album, b: Album) -> Ordering {
    then_by(
        text_order(lowercase_of(a.artist@), lowercase_of(b.artist@)),
        then_by(
            opt_order(year_key(a.year), year_key(b.year)),
            text_order(lowercase_of(a.name@), lowercase_of(b.name@)),
        ),
    )
}

/// Whether two albums take the same place: same artist, year and name,
/// compared exactly.
pub open spec fn album_same(a: Album, b: Album) -> bool {
    a.artist@ == b.artist@ && a.year == b.year && a.name@ == b.name@
}

/// The listing order of songs: by release year, then disc number, then track
/// number, a missing value before any present one.
pub open spec fn song_order(a: Song, b: Song) -> Ordering {
    then_by(
        opt_order(year_key(a.year), year_key(b.year)),
        then_by(
            opt_order(num_key(a.disc_number), num_key(b.disc_number)),
            opt_order(num_key(a.track), num_key(b.track)),
        ),
    )
}

/// Whether two songs take the same place: same year, disc and track.
pub open spec fn song_same(a: Song, b: Song) -> bool {
    a.year == b.year && a.disc_number == b.disc_number && a.track == b.track
}

/// A sign as an order.
fn order_of_sign(s: i8) -> (r: Ordering)
    ensures
        r == sign_order(sign_int(s)),
{
    if s < 0 {
        Ordering::Less
    } else if s > 0 {
        Ordering::Greater
    } else {
        Ordering::Equal
    }
}

/// Compares two optional values: absent before present, present ones by value.
fn opt_sign(a: Option<i64>, b: Option<i64>) -> (r: i8)
    ensures
        r as int == opt_sign_of(wide_key(a), wide_key(b)),
{
    match (a, b) {
        (None, None) => 0,
        (None, Some(_)) => -1,
        (Some(_), None) => 1,
        (Some(x), Some(y)) => if x < y { -1 } else if x > y { 1 } else { 0 },
    }
}

/// A year widened for comparison.
fn year_wide(y: Option<i32>) -> (r: Option<i64>)
    ensures
        wide_key(r) == year_key(y),
{
    match y {
        Some(v) => Some(v as i64),
        None => None,
    }
}

/// A number widened for comparison.
fn num_wide(n: Option<u32>) -> (r: Option<i64>)
    ensures
        wide_key(r) == num_key(n),
{
    match n {
        Some(v) => Some(v as i64),
        None => None,
    }
}

impl Album {
    /// Where this album is listed relative to `other`; see [`album_order`].
    pub fn cmp(&self, other: &Album) -> (r: Ordering)
        ensures
            r == album_order(*self, *other),
    {
        let a = to_lowercase(self.artist.as_str());
        let b = to_lowercase(other.artist.as_str());
        let s = text_sign(a.as_str(), b.as_str());
        if s != 0 {
            return order_of_sign(s);
        }
        let s = opt_sign(year_wide(self.year), year_wide(other.year));
        if s != 0 {
            return order_of_sign(s);
        }
        let a = to_lowercase(self.name.as_str());
        let b = to_lowercase(other.name.as_str());
        order_of_sign(text_sign(a.as_str(), b.as_str()))
    }

    /// Whether this album takes the same place as `other`; see [`album_same`].
    pub fn eq(&self, other: &Album) -> (b: bool)
        ensures
            b == album_same(*self, *other),
    {
        self.artist == other.artist && self.year == other.year && self.name == other.name
    }
}

impl Song {
    /// Where this song is listed relative to `other`; see [`song_order`].
    pub fn cmp(&self, other: &Song) -> (r: Ordering)
        ensures
            r == song_order(*self, *other),
    {
        let s = opt_sign(year_wide(self.year), year_wide(other.year));
        if s != 0 {
            return order_of_sign(s);
        }
        let s = opt_sign(num_wide(self.disc_number), num_wide(other.disc_number));
        if s != 0 {
            return order_of_sign(s);
        }
        order_of_sign(opt_sign(num_wide(self.track), num_wide(other.track)))
    }

    /// Whether this song takes the same place as `other`; see [`song_same`].
    pub fn eq(&self, other: &Song) -> (b: bool)
        ensures
            b == song_same(*self, *other),
    {
        self.year == other.year && self.disc_number == other.disc_number && self.track == other.track
    }
}

// ── The orders are total orders ──────────────────────────────────────────

/// Swapping two byte strings negates their comparison.
proof fn lemma_lex_flip(a: Seq<u8>, b: Seq<u8>, i: int)
    ensures
        lex_sign_from(b, a, i) == -lex_sign_from(a, b, i),
    decreases a.len() - i,
{
    if i < a.len() && i < b.len() && i >= 0 && a[i] == b[i] {
        lemma_lex_flip(a, b, i + 1);
    }
}

/// Byte strings that compare equal from `i` on agree from `i` on.
proof fn lemma_lex_zero(a: Seq<u8>, b: Seq<u8>, i: int)
    requires
        0 <= i <= a.len(),
        i <= b.len(),
        lex_sign_from(a, b, i) == 0,
    ensures
        a.len() == b.len(),
        forall|k: int| i <= k < a.len() ==> a[k] == b[k],
    decreases a.len() - i,
{
    if i < a.len() && i < b.len() && a[i] == b[i] {
        lemma_lex_zero(a, b, i + 1);
    }
}

/// Every byte string compares equal to itself.
proof fn lemma_lex_refl(a: Seq<u8>, i: int)
    ensures
        lex_sign_from(a, a, i) == 0,
    decreases a.len() - i,
{
    if i < a.len() && i >= 0 {
        lemma_lex_refl(a, i + 1);
    }
}

/// Comparison is transitive: `a <= b <= c` gives `a <= c`, with equality
/// only where both steps are equal.
proof fn lemma_lex_trans(a: Seq<u8>, b: Seq<u8>, c: Seq<u8>, i: int)
    requires
        0 <= i,
        lex_sign_from(a, b, i) <= 0,
        lex_sign_from(b, c, i) <= 0,
    ensures
        lex_sign_from(a, c, i) <= 0,
        lex_sign_from(a, c, i) == 0 ==> lex_sign_from(a, b, i) == 0 && lex_sign_from(b, c, i) == 0,
    decreases a.len() - i,
{
    if i < a.len() && i < b.len() && i < c.len() && a[i] == b[i] && b[i] == c[i] {
        lemma_lex_trans(a, b, c, i + 1);
    }
}

/// What the order of strings needs of three of them: it flips with its
/// sides, it is transitive, and only equal strings compare equal.
proof fn lemma_text_order_facts(x: Seq<char>, y: Seq<char>, z: Seq<char>)
    ensures
        text_order(y, x) == flipped(text_order(x, y)),
        text_order(x, y) is Equal <==> x == y,
        text_order(x, y) != Ordering::Greater && text_order(y, z) != Ordering::Greater ==> (
            text_order(x, z) != Ordering::Greater
            && (text_order(x, z) is Equal ==> text_order(x, y) is Equal && text_order(y, z) is Equal)),
{
    let (a, b, c) = (encode_utf8(x), encode_utf8(y), encode_utf8(z));
    lemma_lex_flip(a, b, 0);
    if lex_sign_from(a, b, 0) == 0 {
        lemma_lex_zero(a, b, 0);
        assert(a =~= b);
        vstd::utf8::encode_utf8_decode_utf8(x);
        vstd::utf8::encode_utf8_decode_utf8(y);
    }
    if x == y {
        lemma_lex_refl(a, 0);
    }
    if lex_sign_from(a, b, 0) <= 0 && lex_sign_from(b, c, 0) <= 0 {
        lemma_lex_trans(a, b, c, 0);
    }
}

/// Swapping two albums flips their listing order.
pub proof fn lemma_album_order_flips(a: Album, b: Album)
    ensures
        album_order(b, a) == flipped(album_order(a, b)),
{
    lemma_text_order_facts(lowercase_of(a.artist@), lowercase_of(b.artist@), lowercase_of(b.artist@));
    lemma_text_order_facts(lowercase_of(a.name@), lowercase_of(b.name@), lowercase_of(b.name@));
}

/// The listing order of albums is transitive: an album listed before (or
/// with) a second one, which is listed before (or with) a third, is listed
/// before (or with) the third, and with it only when all three tie.
pub proof fn lemma_album_order_transitive(a: Album, b: Album, c: Album)
    requires
        album_order(a, b) != Ordering::Greater,
        album_order(b, c) != Ordering::Greater,
    ensures
        album_order(a, c) != Ordering::Greater,
        album_order(a, c) is Equal ==> album_order(a, b) is Equal && album_order(b, c) is Equal,
{
    let (x, y, z) = (lowercase_of(a.artist@), lowercase_of(b.artist@), lowercase_of(c.artist@));
    let (p, q, r) = (lowercase_of(a.name@), lowercase_of(b.name@), lowercase_of(c.name@));
    lemma_text_order_facts(x, y, z);
    lemma_text_order_facts(x, z, z);
    lemma_text_order_facts(p, q, r);
    lemma_text_order_facts(p, r, r);
}

/// Albums that take the same place (same artist, year and name) compare
/// equal in the listing order.
pub proof fn lemma_album_same_is_equal(a: Album, b: Album)
    requires
        album_same(a, b),
    ensures
        album_order(a, b) is Equal,
{
    lemma_text_order_facts(lowercase_of(a.artist@), lowercase_of(b.artist@), lowercase_of(b.artist@));
    lemma_text_order_facts(lowercase_of(a.name@), lowercase_of(b.name@), lowercase_of(b.name@));
}

/// Swapping two songs flips their listing order.
pub proof fn lemma_song_order_flips(a: Song, b: Song)
    ensures
        song_order(b, a) == flipped(song_order(a, b)),
{
}

/// The listing order of songs is transitive, as for albums.
pub proof fn lemma_song_order_transitive(a: Song, b: Song, c: Song)
    requires
        song_order(a, b) != Ordering::Greater,
        song_order(b, c) != Ordering::Greater,
    ensures
        song_order(a, c) != Ordering::Greater,
        song_order(a, c) is Equal ==> song_order(a, b) is Equal && song_order(b, c) is Equal,
{
}

/// Two songs compare equal exactly when they take the same place: same
/// year, disc and track.
pub proof fn lemma_song_equal_iff_same(a: Song, b: Song)
    ensures
        song_order(a, b) is Equal <==> song_same(a, b),
{
}

/// Songs are listed by release year, oldest first, a song without a year
/// before any with one; within a year by disc, then by track number, a
/// missing number first. So a song of an earlier year comes first whatever
/// the discs and tracks, and so on down the keys.
pub proof fn lemma_song_order_is_year_disc_track(a: Song, b: Song)
    ensures
        a.year is None && b.year is Some ==> song_order(a, b) == Ordering::Less,
        (a.year matches Some(x) && b.year matches Some(y) && x < y) ==> song_order(a, b) == Ordering::Less,
        (a.year matches Some(x) && b.year matches Some(y) && x > y) ==> song_order(a, b) == Ordering::Greater,
        a.year == b.year && a.disc_number is None && b.disc_number is Some ==> song_order(a, b) == Ordering::Less,
        a.year == b.year && (a.disc_number matches Some(x) && b.disc_number matches Some(y) && x < y)
            ==> song_order(a, b) == Ordering::Less,
        a.year == b.year && a.disc_number == b.disc_number && a.track is None && b.track is Some
            ==> song_order(a, b) == Ordering::Less,
        a.year == b.year && a.disc_number == b.disc_number
            && (a.track matches Some(x) && b.track matches Some(y) && x < y) ==> song_order(a, b) == Ordering::Less,
{
}

/// Albums of one artist (compared without regard to case) are listed by
/// release year, oldest first, an album without a year before any with
/// one.
pub proof fn lemma_album_order_by_year(a: Album, b: Album)
    requires
        lowercase_of(a.artist@) == lowercase_of(b.artist@),
    ensures
        a.year is None && b.year is Some ==> album_order(a, b) == Ordering::Less,
        (a.year matches Some(x) && b.year matches Some(y) && x < y) ==> album_order(a, b) == Ordering::Less,
{
    lemma_text_order_facts(lowercase_of(a.artist@), lowercase_of(b.artist@), lowercase_of(b.artist@));
}

} // verus!
