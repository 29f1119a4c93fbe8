//! Rows of album groups in the classic album list, where the album art
//! always sits beside the tracks.
use vstd::prelude::*;

use crate::library::{count_tracks_before, track_ids, tracks_before, Group};

verus! {

pub const GROUP_ARTIST_LINE_COUNT: usize = 1;
pub const GROUP_ALBUM_LINE_COUNT: usize = 1;
pub const GROUP_MARGIN_BOTTOM_ROW_COUNT: usize = 1;
/// The rows the album art takes beside the tracks.
pub const GROUP_ALBUM_ART_LINE_COUNT: usize = 5;

/// The rows a group takes: artist, album, its tracks (at least as many as
/// the art takes), and a margin.
pub open spec fn classic_rows(g: Group) -> int {
    let n = g.tracks@.len() as int;
    3 + if n >= 5 { n } else { 5 }
}

/// The rows a group takes in the classic list.
pub fn line_count(group: &Group) -> (n: usize)
    requires
        group.tracks@.len() + 8 <= usize::MAX,
    ensures
        n == classic_rows(*group),
{
    let track_lines = group.tracks.len();
    let shown = if track_lines >= GROUP_ALBUM_ART_LINE_COUNT { track_lines } else { GROUP_ALBUM_ART_LINE_COUNT };
    GROUP_ARTIST_LINE_COUNT + GROUP_ALBUM_LINE_COUNT + shown + GROUP_MARGIN_BOTTOM_ROW_COUNT
}

/// A classic group is `3 + max(tracks, 5)` rows: its artist, album and
/// margin rows and never fewer track rows than the art's five.
pub proof fn lemma_classic_rows(g: Group)
    ensures
        classic_rows(g) >= 3 + GROUP_ALBUM_ART_LINE_COUNT,
        classic_rows(g) >= 3 + g.tracks@.len(),
        classic_rows(g) == 3 + GROUP_ALBUM_ART_LINE_COUNT || classic_rows(g) == 3 + g.tracks@.len(),
{
}

/// The rows above track `t` of album `album` in the classic list.
pub open spec fn classic_rows_before_track(groups: Seq<Group>, album: Seq<char>, t: Seq<char>) -> int
    decreases groups.len(),
{
    if groups.len() == 0 {
        0
    } else if groups[0].album_id@ == album {
        2 + tracks_before(track_ids(groups[0]), t)
    } else {
        classic_rows(groups[0]) + classic_rows_before_track(groups.drop_first(), album, t)
    }
}

/// The rows above a track are never negative.
pub proof fn lemma_classic_rows_nonneg(groups: Seq<Group>, album: Seq<char>, t: Seq<char>)
    ensures
        classic_rows_before_track(groups, album, t) >= 0,
    decreases groups.len(),
{
    if groups.len() > 0 {
        crate::library::lemma_tracks_before_bound(track_ids(groups[0]), t);
        lemma_classic_rows_nonneg(groups.drop_first(), album, t);
    }
}

/// How many rows down the classic list a track sits: `None` when the
/// track's album is unknown.
pub fn target_scroll_rows_for_track(groups: &Vec<Group>, track_album: Option<&String>, track_id: &String)
    -> (r: Option<usize>)
    requires
        track_album matches Some(a) ==> classic_rows_before_track(groups@, a@, track_id@) <= usize::MAX,
        forall|i: int| 0 <= i < groups@.len() ==> (#[trigger] groups@[i]).tracks@.len() + 8 <= usize::MAX,
    ensures
        track_album is None ==> r is None,
        track_album matches Some(a) ==> r == Some(classic_rows_before_track(groups@, a@, track_id@) as usize),
{
    let album = match track_album {
        Some(a) => a,
        None => {
            return None;
        },
    };
    let ghost total = classic_rows_before_track(groups@, album@, track_id@);
    let mut rows: usize = 0;
    let mut i: usize = 0;
    assert(groups@.skip(0) =~= groups@);
    while i < groups.len()
        invariant
            i <= groups.len(),
            track_album == Some(album),
            total == classic_rows_before_track(groups@, album@, track_id@),
            total <= usize::MAX,
            forall|k: int| 0 <= k < groups@.len() ==> (#[trigger] groups@[k]).tracks@.len() + 8 <= usize::MAX,
            rows + classic_rows_before_track(groups@.skip(i as int), album@, track_id@) == total,
        decreases groups.len() - i,
    {
        let ghost s = groups@.skip(i as int);
        assert(s[0] == groups@[i as int]);
        assert(s.drop_first() =~= groups@.skip(i + 1));
        proof {
            lemma_classic_rows_nonneg(s.drop_first(), album@, track_id@);
            crate::library::lemma_tracks_before_bound(track_ids(groups@[i as int]), track_id@);
        }
        if crate::text::str_equal(groups[i].album_id.as_str(), album.as_str()) {
            rows = rows + GROUP_ARTIST_LINE_COUNT + GROUP_ALBUM_LINE_COUNT + count_tracks_before(&groups[i], track_id);
            return Some(rows);
        }
        rows = rows + line_count(&groups[i]);
        i = i + 1;
    }
    assert(groups@.skip(i as int).len() == 0);
    Some(rows)
}

} // verus!
