//! Rows of album groups in the library list, and where a track's row is.
use vstd::prelude::*;

use crate::library::{count_tracks_before, track_ids, tracks_before, AlbumArtStyle, Group};
use crate::text::{chars_of, decimal, push_char, push_decimal};

verus! {

pub const GROUP_ARTIST_LINE_COUNT: usize = 1;
pub const GROUP_ALBUM_LINE_COUNT: usize = 1;
pub const GROUP_MARGIN_BOTTOM_ROW_COUNT: usize = 1;
/// The rows the large album art takes below the album title.
pub const GROUP_ALBUM_ART_LINE_COUNT: usize = 8;

/// The rows a group takes: artist, album, its tracks (at least as many as
/// the large art takes, when the art sits below the album), and a margin.
pub open spec fn group_rows(g: Group, style: AlbumArtStyle) -> int {
    let n = g.tracks@.len() as int;
    let tracks = match style {
        AlbumArtStyle::LeftOfAlbum => n,
        AlbumArtStyle::BelowAlbum => if n >= 8 { n } else { 8 },
    };
    3 + tracks
}

/// The rows a group takes in the library.
pub fn line_count(group: &Group, album_art_style: AlbumArtStyle) -> (n: usize)
    requires
        group.tracks@.len() + 11 <= usize::MAX,
    ensures
        n == group_rows(*group, album_art_style),
{
    let track_lines = group.tracks.len();
    let min_track_lines = match album_art_style {
        AlbumArtStyle::LeftOfAlbum => track_lines,
        AlbumArtStyle::BelowAlbum => if track_lines >= GROUP_ALBUM_ART_LINE_COUNT {
            track_lines
        } else {
            GROUP_ALBUM_ART_LINE_COUNT
        },
    };
    GROUP_ARTIST_LINE_COUNT + GROUP_ALBUM_LINE_COUNT + min_track_lines + GROUP_MARGIN_BOTTOM_ROW_COUNT
}

/// A group takes its artist, album and margin rows and a row per track;
/// with the art below the album it never takes fewer track rows than the
/// art's eight, so it is `3 + max(tracks, 8)` rows: at least eleven.
pub proof fn lemma_group_rows(g: Group)
    ensures
        group_rows(g, AlbumArtStyle::LeftOfAlbum) == GROUP_ARTIST_LINE_COUNT + GROUP_ALBUM_LINE_COUNT
            + g.tracks@.len() + GROUP_MARGIN_BOTTOM_ROW_COUNT,
        group_rows(g, AlbumArtStyle::BelowAlbum) >= 3 + GROUP_ALBUM_ART_LINE_COUNT,
        group_rows(g, AlbumArtStyle::BelowAlbum) >= 3 + g.tracks@.len(),
        group_rows(g, AlbumArtStyle::BelowAlbum) == 3 + GROUP_ALBUM_ART_LINE_COUNT
            || group_rows(g, AlbumArtStyle::BelowAlbum) == 3 + g.tracks@.len(),
{
}

/// Scrolling to a track passes every whole group above its album: each adds
/// its rows, so with the art below the album each adds at least eleven.
pub proof fn lemma_rows_before_track_counts_groups(groups: Seq<Group>, album: Seq<char>, t: Seq<char>, style: AlbumArtStyle)
    requires
        groups.len() > 0,
        groups[0].album_id@ != album,
    ensures
        rows_before_track(groups, album, t, style) == group_rows(groups[0], style)
            + rows_before_track(groups.drop_first(), album, t, style),
        style == AlbumArtStyle::BelowAlbum ==> rows_before_track(groups, album, t, style)
            >= 3 + GROUP_ALBUM_ART_LINE_COUNT + rows_before_track(groups.drop_first(), album, t, style),
{
    lemma_group_rows(groups[0]);
}

/// The row of track `t` within its group: after the artist and album rows,
/// below the tracks before it.
pub fn line_count_for_group_and_track(group: &Group, track_id: &String) -> (n: usize)
    requires
        group.tracks@.len() + 2 <= usize::MAX,
    ensures
        n == 2 + tracks_before(track_ids(*group), track_id@),
{
    proof {
        crate::library::lemma_tracks_before_bound(track_ids(*group), track_id@);
    }
    GROUP_ARTIST_LINE_COUNT + GROUP_ALBUM_LINE_COUNT + count_tracks_before(group, track_id)
}

/// The rows above track `t` of album `album`: all of each group before the
/// album's, then the track's row within it (every group, when no group is
/// the album's).
pub open spec fn rows_before_track(groups: Seq<Group>, album: Seq<char>, t: Seq<char>, style: AlbumArtStyle) -> int
    decreases groups.len(),
{
    if groups.len() == 0 {
        0
    } else if groups[0].album_id@ == album {
        2 + tracks_before(track_ids(groups[0]), t)
    } else {
        group_rows(groups[0], style) + rows_before_track(groups.drop_first(), album, t, style)
    }
}

/// The rows above a track are never negative.
pub proof fn lemma_rows_before_track_nonneg(groups: Seq<Group>, album: Seq<char>, t: Seq<char>, style: AlbumArtStyle)
    ensures
        rows_before_track(groups, album, t, style) >= 0,
    decreases groups.len(),
{
    if groups.len() > 0 {
        crate::library::lemma_tracks_before_bound(track_ids(groups[0]), t);
        lemma_rows_before_track_nonneg(groups.drop_first(), album, t, style);
    }
}

/// How many rows down the library a track sits, for scrolling to it: `None`
/// when the track's album is unknown. `track_album` is the album of the
/// track, as the library's track map gives it.
pub fn target_scroll_rows_for_track(
    groups: &Vec<Group>,
    track_album: Option<&String>,
    track_id: &String,
    album_art_style: AlbumArtStyle,
) -> (r: Option<usize>)
    requires
        track_album matches Some(a) ==> rows_before_track(groups@, a@, track_id@, album_art_style) <= usize::MAX,
        forall|i: int| 0 <= i < groups@.len() ==> (#[trigger] groups@[i]).tracks@.len() + 11 <= usize::MAX,
    ensures
        track_album is None ==> r is None,
        track_album matches Some(a) ==> r == Some(rows_before_track(groups@, a@, track_id@, album_art_style) as usize),
{
    let album = match track_album {
        Some(a) => a,
        None => {
            return None;
        },
    };
    let ghost total = rows_before_track(groups@, album@, track_id@, album_art_style);
    let mut rows: usize = 0;
    let mut i: usize = 0;
    assert(groups@.skip(0) =~= groups@);
    while i < groups.len()
        invariant
            i <= groups.len(),
            track_album == Some(album),
            total == rows_before_track(groups@, album@, track_id@, album_art_style),
            total <= usize::MAX,
            forall|k: int| 0 <= k < groups@.len() ==> (#[trigger] groups@[k]).tracks@.len() + 11 <= usize::MAX,
            rows + rows_before_track(groups@.skip(i as int), album@, track_id@, album_art_style) == total,
        decreases groups.len() - i,
    {
        let ghost s = groups@.skip(i as int);
        assert(s[0] == groups@[i as int]);
        assert(s.drop_first() =~= groups@.skip(i + 1));
        proof {
            lemma_rows_before_track_nonneg(s.drop_first(), album@, track_id@, album_art_style);
            crate::library::lemma_tracks_before_bound(track_ids(groups@[i as int]), track_id@);
        }
        if crate::text::str_equal(groups[i].album_id.as_str(), album.as_str()) {
            rows = rows + line_count_for_group_and_track(&groups[i], track_id);
            return Some(rows);
        }
        rows = rows + line_count(&groups[i], album_art_style);
        i = i + 1;
    }
    assert(groups@.skip(i as int).len() == 0);
    Some(rows)
}

/// The order of the library's groups.
#[derive(Debug, Clone, Copy, PartialEq, Eq, Structural)]
pub enum SortOrder {
    /// By artist name.
    Alphabetical,
    /// By release year, newest first.
    NewestFirst,
    /// By the date added, most recent first.
    RecentlyAdded,
}

/// A year in decimal, with a minus sign when negative.
pub open spec fn year_text(y: i32) -> Seq<char> {
    if y < 0 { seq!['-'] + decimal((-y) as nat) } else { decimal(y as nat) }
}

/// The label the scroll indicator shows for a group under `order`: the
/// first letter of its artist, its release year, or the year it was added
/// (the first four characters of the date); `?` where there is none.
pub open spec fn scroll_label_spec(order: SortOrder, artist: Seq<char>, year: Option<i32>, created: Option<Seq<char>>) -> Seq<char> {
    match order {
        SortOrder::Alphabetical => if artist.len() > 0 { seq![artist[0]] } else { seq!['?'] },
        SortOrder::NewestFirst => match year {
            Some(y) => year_text(y),
            None => seq!['?'],
        },
        SortOrder::RecentlyAdded => match created {
            Some(c) => if c.len() > 0 { c.take(if c.len() < 4 { c.len() as int } else { 4 }) } else { seq!['?'] },
            None => seq!['?'],
        },
    }
}

/// The scroll-indicator label of a group; see [`scroll_label_spec`].
/// `created` is the added date of the group's album, if the album is known.
pub fn scroll_label(order: SortOrder, artist: &str, year: Option<i32>, created: Option<&str>) -> (r: String)
    ensures
        r@ == scroll_label_spec(order, artist@, year, match created {
            Some(c) => Some(c@),
            None => None,
        }),
{
    let mut r = String::new();
    match order {
        SortOrder::Alphabetical => {
            let chars = chars_of(artist);
            if chars.len() > 0 {
                push_char(&mut r, chars[0]);
                assert(r@ =~= seq![artist@[0]]);
            } else {
                push_char(&mut r, '?');
                assert(r@ =~= seq!['?']);
            }
        },
        SortOrder::NewestFirst => match year {
            Some(y) => {
                if y < 0 {
                    push_char(&mut r, '-');
                    let mag: u64 = (0i64 - y as i64) as u64;
                    push_decimal(&mut r, mag);
                } else {
                    push_decimal(&mut r, y as u64);
                }
                assert(r@ =~= year_text(y));
            },
            None => {
                push_char(&mut r, '?');
                assert(r@ =~= seq!['?']);
            },
        },
        SortOrder::RecentlyAdded => {
            let chars = match created {
                Some(c) => chars_of(c),
                None => Vec::new(),
            };
            if chars.len() == 0 {
                push_char(&mut r, '?');
                assert(r@ =~= seq!['?']);
            } else {
                let n = if chars.len() < 4 { chars.len() } else { 4 };
                let mut i: usize = 0;
                while i < n
                    invariant
                        i <= n <= chars@.len(),
                        r@ == chars@.take(i as int),
                    decreases n - i,
                {
                    push_char(&mut r, chars[i]);
                    assert(chars@.take(i + 1) =~= chars@.take(i as int).push(chars@[i as int]));
                    i = i + 1;
                }
            }
        },
    }
    r
}

} // verus!
