//! Rows of an album in the album list.
use vstd::prelude::*;

use crate::library::Album;

verus! {

/// The rows an album takes in the album list: its artist, its title, and one
/// per song (fetched, or as many as the server reported).
pub fn line_count(album: &Album) -> (n: usize)
    requires
        album.songs_shown() + 2 <= usize::MAX,
    ensures
        n == 2 + album.songs_shown(),
{
    let artist_lines: usize = 1;
    let album_lines: usize = 1;
    let songs_lines: usize = match &album.songs {
        Some(s) => s.len(),
        None => album.song_count as usize,
    };
    artist_lines + album_lines + songs_lines
}

/// The rows album `i` of `albums` takes with `margin` rows below it.
pub open spec fn album_rows(albums: Seq<Album>, margin: usize, i: int) -> int {
    2 + albums[i].songs_shown() + margin
}

/// The rows the first `n` albums take.
pub open spec fn rows_before(albums: Seq<Album>, margin: usize, n: int) -> int
    decreases n,
{
    if n <= 0 { 0 } else { rows_before(albums, margin, n - 1) + album_rows(albums, margin, n - 1) }
}

/// Album `i` has a row in the rows `start <= row < end`.
pub open spec fn album_visible(albums: Seq<Album>, margin: usize, start: usize, end: usize, i: int) -> bool {
    rows_before(albums, margin, i) < end && rows_before(albums, margin, i + 1) > start
}

/// The rows before an album grow with the albums before it.
pub proof fn lemma_rows_before_grows(albums: Seq<Album>, margin: usize, m: int, n: int)
    requires
        0 <= m <= n,
    ensures
        0 <= rows_before(albums, margin, m) <= rows_before(albums, margin, n),
    decreases n,
{
    if n > m {
        lemma_rows_before_grows(albums, margin, m, n - 1);
    } else if m > 0 {
        lemma_rows_before_grows(albums, margin, 0, m - 1);
    }
}

/// The rows all albums take, each with `margin` rows below it.
pub fn calculate_total_rows(albums: &Vec<Album>, margin: usize) -> (n: usize)
    requires
        rows_before(albums@, margin, albums@.len() as int) <= usize::MAX,
    ensures
        n == rows_before(albums@, margin, albums@.len() as int),
{
    let mut total: usize = 0;
    let mut i: usize = 0;
    while i < albums.len()
        invariant
            i <= albums.len(),
            total == rows_before(albums@, margin, i as int),
            rows_before(albums@, margin, albums@.len() as int) <= usize::MAX,
        decreases albums.len() - i,
    {
        proof {
            lemma_rows_before_grows(albums@, margin, i + 1, albums@.len() as int);
        }
        total = total + albums[i].line_count() + margin;
        i = i + 1;
    }
    total
}

/// The albums with a row in view, by index into the album list, and the
/// row the first of them starts on (0 when none is in view).
pub struct VisibleAlbumSet {
    pub albums: Vec<usize>,
    pub start_row: usize,
}

/// The albums with a row among the rows `start <= row < end` of the album
/// list, each taking its rows and `margin` more, in order, and the row the
/// first starts on.
pub fn get_visible_albums(albums: &Vec<Album>, start: usize, end: usize, margin: usize) -> (r: VisibleAlbumSet)
    requires
        rows_before(albums@, margin, albums@.len() as int) <= usize::MAX,
    ensures
        forall|k: int| 0 <= k < r.albums@.len() ==> (#[trigger] r.albums@[k]) < albums@.len()
            && album_visible(albums@, margin, start, end, r.albums@[k] as int),
        forall|k: int, l: int| 0 <= k < l < r.albums@.len() ==> #[trigger] r.albums@[k] < #[trigger] r.albums@[l],
        forall|i: int| 0 <= i < albums@.len() && album_visible(albums@, margin, start, end, i) ==> r.albums@.contains(
            i as usize),
        r.start_row == (if r.albums@.len() > 0 { rows_before(albums@, margin, r.albums@[0] as int) } else { 0 }),
{
    let ghost a = albums@;
    let mut current: usize = 0;
    let mut visible: Vec<usize> = Vec::new();
    let mut start_row: usize = 0;
    let mut i: usize = 0;
    while i < albums.len()
        invariant_except_break
            i <= albums.len(),
            a == albums@,
            current == rows_before(a, margin, i as int),
            rows_before(a, margin, a.len() as int) <= usize::MAX,
            forall|k: int| 0 <= k < visible@.len() ==> (#[trigger] visible@[k]) < i
                && album_visible(a, margin, start, end, visible@[k] as int),
            forall|k: int, l: int| 0 <= k < l < visible@.len() ==> #[trigger] visible@[k] < #[trigger] visible@[l],
            forall|j: int| 0 <= j < i && album_visible(a, margin, start, end, j) ==> visible@.contains(j as usize),
            start_row == (if visible@.len() > 0 { rows_before(a, margin, visible@[0] as int) } else { 0 }),
        ensures
            forall|k: int| 0 <= k < visible@.len() ==> (#[trigger] visible@[k]) < a.len()
                && album_visible(a, margin, start, end, visible@[k] as int),
            forall|k: int, l: int| 0 <= k < l < visible@.len() ==> #[trigger] visible@[k] < #[trigger] visible@[l],
            forall|j: int| 0 <= j < a.len() && album_visible(a, margin, start, end, j) ==> visible@.contains(j as usize),
            start_row == (if visible@.len() > 0 { rows_before(a, margin, visible@[0] as int) } else { 0 }),
        decreases albums.len() - i,
    {
        proof {
            lemma_rows_before_grows(a, margin, i + 1, a.len() as int);
        }
        let rows = albums[i].line_count() + margin;
        if current >= end {
            proof {
                assert forall|j: int| i <= j < a.len() implies !album_visible(a, margin, start, end, j) by {
                    lemma_rows_before_grows(a, margin, i as int, j);
                }
            }
            break;
        }
        if current + rows <= start {
            current = current + rows;
            i = i + 1;
            continue;
        }
        if visible.len() == 0 {
            start_row = current;
        }
        let ghost before = visible@;
        visible.push(i);
        proof {
            assert forall|j: int| 0 <= j < i + 1 && album_visible(a, margin, start, end, j) implies visible@.contains(j as usize) by {
                if j < i {
                    assert(before.contains(j as usize));
                    let k = choose|k: int| 0 <= k < before.len() && before[k] == j as usize;
                    assert(visible@[k] == j as usize);
                } else {
                    assert(visible@[before.len() as int] == i);
                }
            }
        }
        current = current + rows;
        i = i + 1;
    }
    VisibleAlbumSet { albums: visible, start_row }
}

} // verus!
