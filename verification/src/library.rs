//! The music library as the client sees it: albums, songs and album groups,
//! and how many rows each takes in the library list.
use vstd::prelude::*;

use crate::util::{hms_string, seconds_to_hms_string};

pub mod album;
pub mod classic_group;
pub mod group;
pub mod order;

verus! {

/// An album's id.
pub struct AlbumId(pub String);

/// A song's id.
pub struct SongId(pub String);

/// A song, as the client cares about it.
pub struct Song {
    pub id: SongId,
    pub title: String,
    pub artist: Option<String>,
    pub track: Option<u32>,
    pub year: Option<i32>,
    pub genre: Option<String>,
    /// The duration in seconds.
    pub duration: Option<u32>,
    pub disc_number: Option<u32>,
    pub album_id: Option<AlbumId>,
}

/// An album, as the client cares about it.
pub struct Album {
    pub id: AlbumId,
    pub name: String,
    pub artist: String,
    pub artist_id: Option<String>,
    pub cover_art_id: Option<String>,
    /// The number of songs the server reports for the album.
    pub song_count: u32,
    /// The songs, once fetched.
    pub songs: Option<Vec<Song>>,
    /// The total duration in seconds.
    pub duration: u32,
    pub year: Option<i32>,
    pub genre: Option<String>,
}

/// The artist an album is filed under when the server names none.
pub open spec fn unknown_artist() -> Seq<char> {
    "Unknown Artist"@
}

impl Album {
    /// An album from what the server reports for it: an album without an
    /// artist is filed under "Unknown Artist"; its songs are not fetched yet.
    pub fn from_server(
        id: String,
        name: String,
        artist: Option<String>,
        artist_id: Option<String>,
        cover_art: Option<String>,
        song_count: u32,
        duration: u32,
        year: Option<i32>,
        genre: Option<String>,
    ) -> (r: Album)
        ensures
            r.id.0@ == id@,
            r.name@ == name@,
            r.artist@ == (match artist {
                Some(a) => a@,
                None => unknown_artist(),
            }),
            r.artist_id == artist_id,
            r.cover_art_id == cover_art,
            r.song_count == song_count,
            r.songs is None,
            r.duration == duration,
            r.year == year,
            r.genre == genre,
    {
        let artist = match artist {
            Some(a) => a,
            None => "Unknown Artist".to_owned(),
        };
        Album {
            id: AlbumId(id),
            name,
            artist,
            artist_id,
            cover_art_id: cover_art,
            song_count,
            songs: None,
            duration,
            year,
            genre,
        }
    }

    /// The number of songs: those fetched, or the count the server reported.
    pub open spec fn songs_shown(&self) -> int {
        match self.songs {
            Some(s) => s@.len() as int,
            None => self.song_count as int,
        }
    }

    /// The rows the album takes: its artist, its title, and one per song.
    pub fn line_count(&self) -> (n: usize)
        requires
            self.songs_shown() + 2 <= usize::MAX,
        ensures
            n == 2 + self.songs_shown(),
    {
        let artist: usize = 1;
        let album: usize = 1;
        let songs: usize = match &self.songs {
            Some(s) => s.len(),
            None => self.song_count as usize,
        };
        artist + album + songs
    }
}

impl Song {
    /// A song from what the server reports for it.
    pub fn from_server(
        id: String,
        title: String,
        artist: Option<String>,
        track: Option<u32>,
        year: Option<i32>,
        genre: Option<String>,
        duration: Option<u32>,
        disc_number: Option<u32>,
        album_id: Option<String>,
    ) -> (r: Song)
        ensures
            r.id.0@ == id@,
            r.title@ == title@,
            r.artist == artist,
            r.track == track,
            r.year == year,
            r.genre == genre,
            r.duration == duration,
            r.disc_number == disc_number,
            (r.album_id is Some) == (album_id is Some),
            album_id matches Some(a) ==> r.album_id.unwrap().0@ == a@,
    {
        let album_id = match album_id {
            Some(a) => Some(AlbumId(a)),
            None => None,
        };
        Song { id: SongId(id), title, artist, track, year, genre, duration, disc_number, album_id }
    }
}

/// A track's length as shown: its duration (0 when unknown) as `m:ss` or
/// `h:mm:ss`.
pub fn track_length_str(duration: Option<u32>) -> (s: String)
    ensures
        s@ == hms_string(match duration {
            Some(d) => d as nat,
            None => 0,
        }),
{
    let d = match duration {
        Some(d) => d,
        None => 0,
    };
    seconds_to_hms_string(d)
}

/// How album art is placed in the library.
#[derive(Debug, Clone, Copy, PartialEq, Eq, Structural)]
pub enum AlbumArtStyle {
    /// A small thumbnail left of the album title.
    LeftOfAlbum,
    /// A large image below the album title, beside the tracks.
    BelowAlbum,
}

/// A group of the library: an album's tracks, in order.
pub struct Group {
    pub album_id: String,
    pub tracks: Vec<String>,
}

/// The track ids of a group, as values.
pub open spec fn track_ids(g: Group) -> Seq<Seq<char>> {
    g.tracks@.map_values(|t: String| t@)
}

/// How many of `tracks` come before the first that is `t` (all of them if
/// none is).
pub open spec fn tracks_before(tracks: Seq<Seq<char>>, t: Seq<char>) -> int
    decreases tracks.len(),
{
    if tracks.len() == 0 {
        0
    } else if tracks[0] == t {
        0
    } else {
        1 + tracks_before(tracks.drop_first(), t)
    }
}

/// `tracks_before` counts at most all the tracks.
pub proof fn lemma_tracks_before_bound(tracks: Seq<Seq<char>>, t: Seq<char>)
    ensures
        0 <= tracks_before(tracks, t) <= tracks.len(),
    decreases tracks.len(),
{
    if tracks.len() > 0 {
        lemma_tracks_before_bound(tracks.drop_first(), t);
    }
}

/// Counts the tracks of `g` before `t`.
pub fn count_tracks_before(g: &Group, t: &String) -> (n: usize)
    ensures
        n == tracks_before(track_ids(*g), t@),
{
    let ghost ids = track_ids(*g);
    let mut i: usize = 0;
    proof {
        lemma_tracks_before_bound(ids, t@);
    }
    assert(ids.skip(0) =~= ids);
    while i < g.tracks.len()
        invariant
            i <= g.tracks.len(),
            ids == track_ids(*g),
            tracks_before(ids, t@) == i + tracks_before(ids.skip(i as int), t@),
        decreases g.tracks.len() - i,
    {
        let ghost s = ids.skip(i as int);
        assert(s[0] == g.tracks@[i as int]@);
        assert(s.drop_first() =~= ids.skip(i + 1));
        if crate::text::str_equal(g.tracks[i].as_str(), t.as_str()) {
            return i;
        }
        i = i + 1;
    }
    assert(ids.skip(i as int).len() == 0);
    i
}

} // verus!
