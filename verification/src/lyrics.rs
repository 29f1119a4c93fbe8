//! Lyrics: word wrapping by display width, the rows of the lyrics view with
//! their back-mapping to lyric lines, keyboard selection and click-to-seek.
use vstd::prelude::*;

use unicode_width::{UnicodeWidthChar, UnicodeWidthStr};

use crate::geometry::Rect;
use crate::keys::{is_white_space, is_whitespace, Action};
use crate::layout::PAGE_SCROLL_SIZE;
use crate::text::{chars_of, push_char, push_str, string_from_chars};
use crate::util::{hms_string, seconds_to_hms_string};

verus! {

// ── Display widths ───────────────────────────────────────────────────────

/// The display width, in terminal columns, that `unicode_width` gives a
/// string made of these characters.
pub uninterp spec fn str_cols(s: Seq<char>) -> usize;

/// The display width `unicode_width` gives one character; `None` for a
/// control character.
pub uninterp spec fn char_cols(c: char) -> Option<usize>;

/// Every character is printable ASCII (U+0020 to U+007E).
pub open spec fn printable_ascii(s: Seq<char>) -> bool {
    forall|i: int| 0 <= i < s.len() ==> 0x20 <= (#[trigger] s[i]) as u32 && (s[i] as u32) < 0x7f
}

/// `UnicodeWidthStr::width`: the display width of `s`. The crate folds the
/// widths of the characters from the back starting at 0, so the empty string
/// is 0 columns wide, and printable ASCII characters are one column each and
/// take part in none of its multi-character rules. What it gives any other
/// string is left to the crate's tables and is not stated here.
#[verifier::external_body]
fn display_width(s: &str) -> (w: usize)
    ensures
        w == str_cols(s@),
        s@.len() == 0 ==> w == 0,
        printable_ascii(s@) ==> w == s@.len(),
{
    UnicodeWidthStr::width(s)
}

/// `UnicodeWidthChar::width`: the display width of `c`, `None` for control
/// characters. By the crate's source, U+0020 to U+007E are one column and
/// U+0000 to U+001F and U+007F to U+009F are control characters; the width of
/// any other character comes from the crate's tables and is not stated here.
#[verifier::external_body]
fn char_width(c: char) -> (w: Option<usize>)
    ensures
        w == char_cols(c),
        0x20 <= c as u32 && (c as u32) < 0x7f ==> w == Some(1usize),
        (c as u32) < 0x20 || (0x7f <= c as u32 && (c as u32) < 0xa0) ==> w is None,
{
    UnicodeWidthChar::width(c)
}

/// The width of a string as the wrapping code sees it: one column per
/// character for printable ASCII, the crate's width otherwise.
pub open spec fn cols(s: Seq<char>) -> int {
    if printable_ascii(s) {
        s.len() as int
    } else {
        str_cols(s) as int
    }
}

/// Whether `c` is printable ASCII.
pub open spec fn ascii_printable_char(c: char) -> bool {
    0x20 <= c as u32 && (c as u32) < 0x7f
}

/// The width of one character: 1 for printable ASCII, `None` for the C0 and
/// C1 control characters, the crate's width otherwise.
pub open spec fn char_cols_of(c: char) -> Option<usize> {
    if ascii_printable_char(c) {
        Some(1usize)
    } else if (c as u32) < 0x20 || (0x7f <= c as u32 && (c as u32) < 0xa0) {
        None
    } else {
        char_cols(c)
    }
}

/// The width a character counts for when a word is broken by hand: a
/// control character counts as 0.
pub open spec fn cw(c: char) -> int {
    match char_cols_of(c) {
        Some(x) => x as int,
        None => 0,
    }
}

// ── Splitting on spaces ──────────────────────────────────────────────────

/// The pieces of `s` between single spaces, as `str::split(' ')` gives them:
/// `""` is one empty piece and each space starts a new piece.
pub open spec fn split_spaces(s: Seq<char>) -> Seq<Seq<char>>
    decreases s.len(),
{
    if s.len() == 0 {
        seq![Seq::<char>::empty()]
    } else {
        let prev = split_spaces(s.drop_last());
        if s.last() == ' ' {
            prev.push(Seq::<char>::empty())
        } else {
            prev.update(prev.len() - 1, prev.last().push(s.last()))
        }
    }
}

/// There is always at least one piece.
pub proof fn lemma_split_spaces_nonempty(s: Seq<char>)
    ensures
        split_spaces(s).len() >= 1,
    decreases s.len(),
{
    if s.len() > 0 {
        lemma_split_spaces_nonempty(s.drop_last());
    }
}

/// The views of a vector of character vectors.
pub open spec fn views(v: Seq<Vec<char>>) -> Seq<Seq<char>> {
    v.map_values(|r: Vec<char>| r@)
}

/// Splits `chars` at each space, keeping empty pieces.
fn split_words(chars: &Vec<char>) -> (words: Vec<Vec<char>>)
    ensures
        views(words@) == split_spaces(chars@),
{
    let mut words: Vec<Vec<char>> = Vec::new();
    let mut cur: Vec<char> = Vec::new();
    let mut i: usize = 0;
    assert(chars@.take(0) =~= Seq::<char>::empty());
    assert(views(words@).push(cur@) =~= split_spaces(chars@.take(0)));
    while i < chars.len()
        invariant
            i <= chars.len(),
            views(words@).push(cur@) == split_spaces(chars@.take(i as int)),
        decreases chars.len() - i,
    {
        let c = chars[i];
        let ghost before = chars@.take(i as int);
        let ghost after = chars@.take(i + 1);
        assert(after.drop_last() =~= before);
        assert(after.last() == c);
        proof {
            lemma_split_spaces_nonempty(before);
        }
        if c == ' ' {
            let done = cur;
            cur = Vec::new();
            words.push(done);
            assert(views(words@).push(cur@) =~= split_spaces(after));
        } else {
            cur.push(c);
            assert(views(words@).push(cur@) =~= split_spaces(after));
        }
        i = i + 1;
    }
    assert(chars@.take(chars.len() as int) =~= chars@);
    words.push(cur);
    assert(views(words@) =~= split_spaces(chars@));
    words
}

// ── Breaking one word that is too wide ───────────────────────────────────

/// How many leading characters of `w` fit in `m` columns when `taken`
/// columns are already used, adding per-character widths and stopping at the
/// first that does not fit; `None` where the running count would overflow.
pub open spec fn chunk_len(w: Seq<char>, m: int, taken: int) -> Option<nat>
    decreases w.len(),
{
    if w.len() == 0 {
        Some(0)
    } else {
        let t = taken + cw(w[0]);
        if t > usize::MAX {
            None
        } else if t > m {
            Some(0)
        } else {
            match chunk_len(w.drop_first(), m, t) {
                Some(k) => Some(k + 1),
                None => None,
            }
        }
    }
}

/// A chunk never holds more characters than the word.
pub proof fn lemma_chunk_len_bound(w: Seq<char>, m: int, taken: int)
    ensures
        chunk_len(w, m, taken) matches Some(k) ==> k <= w.len(),
    decreases w.len(),
{
    if w.len() > 0 {
        lemma_chunk_len_bound(w.drop_first(), m, taken + cw(w[0]));
    }
}

/// Breaks `w` into chunks while it is wider than `m`: the full chunks, and
/// what is left once it fits. A chunk holds the leading characters that fit
/// in `m` columns, or the first character alone where even that one is
/// wider than `m`. `None` where a width count would overflow.
pub open spec fn hard_break(w: Seq<char>, m: int) -> Option<(Seq<Seq<char>>, Seq<char>)>
    decreases w.len(),
{
    if cols(w) <= m || w.len() == 0 {
        Some((Seq::<Seq<char>>::empty(), w))
    } else {
        match chunk_len(w, m, 0) {
            None => None,
            Some(k0) => {
                let k: nat = if k0 == 0 { 1 } else { k0 };
                proof {
                    lemma_chunk_len_bound(w, m, 0);
                }
                match hard_break(w.skip(k as int), m) {
                    None => None,
                    Some(r) => Some((seq![w.take(k as int)] + r.0, r.1)),
                }
            },
        }
    }
}

/// Counts how many characters of `w[start..]` fit in `m` columns; `None`
/// where the running width count would overflow.
fn take_chunk(w: &Vec<char>, start: usize, m: usize) -> (k: Option<usize>)
    requires
        start <= w.len(),
    ensures
        k matches Some(n) ==> chunk_len(w@.skip(start as int), m as int, 0) == Some(n as nat) && start + n <= w.len(),
        k is None ==> chunk_len(w@.skip(start as int), m as int, 0) is None,
{
    let mut taken: usize = 0;
    let mut j: usize = start;
    let ghost whole = chunk_len(w@.skip(start as int), m as int, 0);
    assert(w@.skip(start as int) =~= w@.skip(start as int));
    while j < w.len()
        invariant_except_break
            start <= j <= w.len(),
            whole == chunk_len(w@.skip(start as int), m as int, 0),
            whole == (match chunk_len(w@.skip(j as int), m as int, taken as int) {
                Some(n) => Some((n + (j - start)) as nat),
                None => None::<nat>,
            }),
        ensures
            start <= j <= w.len(),
            whole == Some((j - start) as nat),
        decreases w.len() - j,
    {
        let ghost s = w@.skip(j as int);
        assert(s[0] == w@[j as int]);
        assert(s.drop_first() =~= w@.skip(j + 1));
        let c = char_width(w[j]);
        let c: usize = match c {
            Some(x) => x,
            None => 0,
        };
        let t = match taken.checked_add(c) {
            Some(t) => t,
            None => {
                return None;
            },
        };
        if t > m {
            break;
        }
        taken = t;
        j = j + 1;
    }
    if j == w.len() {
        assert(w@.skip(j as int).len() == 0);
    }
    Some(j - start)
}

/// Breaks `w` while it is wider than `m`, appending the chunks to `rows`;
/// returns where the rest starts and the width of the rest, or `None` where
/// a width count would overflow.
fn hard_break_word(w: &Vec<char>, m: usize, rows: &mut Vec<Vec<char>>) -> (r: Option<(usize, usize)>)
    ensures
        r is Some <==> hard_break(w@, m as int) is Some,
        r matches Some(p) ==> {
            &&& p.0 <= w.len()
            &&& views(final(rows)@) == views(old(rows)@) + hard_break(w@, m as int).unwrap().0
            &&& w@.skip(p.0 as int) == hard_break(w@, m as int).unwrap().1
            &&& p.1 == cols(w@.skip(p.0 as int))
        },
{
    let ghost total = hard_break(w@, m as int);
    let mut start: usize = 0;
    assert(w@.skip(0) =~= w@);
    loop
        invariant
            start <= w.len(),
            total == hard_break(w@, m as int),
            total is Some <==> hard_break(w@.skip(start as int), m as int) is Some,
            total is Some ==> views(rows@) + hard_break(w@.skip(start as int), m as int).unwrap().0
                == views(old(rows)@) + total.unwrap().0,
            total is Some ==> hard_break(w@.skip(start as int), m as int).unwrap().1 == total.unwrap().1,
        decreases w.len() - start,
    {
        let rest = string_from_chars(w, start, w.len());
        assert(rest@ =~= w@.skip(start as int));
        let width = display_width(rest.as_str());
        let ghost s = w@.skip(start as int);
        if width <= m {
            assert(hard_break(s, m as int) == Some((Seq::<Seq<char>>::empty(), s)));
            assert(views(rows@) + Seq::<Seq<char>>::empty() =~= views(rows@));
            return Some((start, width));
        }
        let k = match take_chunk(w, start, m) {
            Some(k) => k,
            None => {
                return None;
            },
        };
        assert(s.len() > 0);
        let k = if k == 0 { 1 } else { k };
        let chunk = slice_chars(w, start, start + k);
        let ghost next = w@.skip(start + k);
        assert(s.skip(k as int) =~= next);
        assert(s.take(k as int) =~= chunk@);
        let ghost before = views(rows@);
        rows.push(chunk);
        assert(views(rows@) =~= before.push(chunk@));
        proof {
            if total is Some {
                assert(seq![chunk@] + hard_break(next, m as int).unwrap().0
                    == hard_break(s, m as int).unwrap().0);
                assert(before.push(chunk@) + hard_break(next, m as int).unwrap().0
                    =~= before + (seq![chunk@] + hard_break(next, m as int).unwrap().0));
            }
        }
        start = start + k;
    }
}

/// The characters `v[lo..hi]`.
fn slice_chars(v: &Vec<char>, lo: usize, hi: usize) -> (r: Vec<char>)
    requires
        lo <= hi <= v.len(),
    ensures
        r@ == v@.subrange(lo as int, hi as int),
{
    let mut r: Vec<char> = Vec::new();
    let mut i = lo;
    while i < hi
        invariant
            lo <= i <= hi <= v.len(),
            r@ == v@.subrange(lo as int, i as int),
        decreases hi - i,
    {
        r.push(v[i]);
        assert(v@.subrange(lo as int, i + 1) =~= v@.subrange(lo as int, i as int).push(v@[i as int]));
        i = i + 1;
    }
    r
}

// ── Wrapping a line ──────────────────────────────────────────────────────

/// The state while a line is wrapped: the finished rows, the row being
/// filled, and the width counted for it.
pub type WrapState = (Seq<Seq<char>>, Seq<char>, int);

/// A word that starts a row, after the finished `rows`: it goes in whole
/// if it fits, and is broken into chunks (see [`hard_break`]) if not, the
/// last chunk (if any is left) becoming the row being filled. `None` where
/// a width count overflows.
pub open spec fn start_row(rows: Seq<Seq<char>>, w: Seq<char>, m: int) -> Option<WrapState> {
    let ww = cols(w);
    if ww <= m {
        Some((rows, w, ww))
    } else {
        match hard_break(w, m) {
            None => None,
            Some(hb) => if hb.1.len() > 0 {
                Some((rows + hb.0, hb.1, cols(hb.1)))
            } else {
                Some((rows + hb.0, Seq::<char>::empty(), 0))
            },
        }
    }
}

/// One word of the line added to the wrap state: a word joins the row being
/// filled after a space if it fits; otherwise that row is finished and the
/// word starts the next one (see [`start_row`]). `None` where a width count
/// overflows.
pub open spec fn wrap_step(st: WrapState, w: Seq<char>, m: int) -> Option<WrapState> {
    let ww = cols(w);
    if st.1.len() == 0 {
        start_row(st.0, w, m)
    } else if st.2 + 1 + ww > usize::MAX {
        None
    } else if st.2 + 1 + ww <= m {
        Some((st.0, st.1.push(' ') + w, st.2 + 1 + ww))
    } else {
        start_row(st.0.push(st.1), w, m)
    }
}

/// The wrap state after all of `words`, from no rows and an empty row.
pub open spec fn wrap_fold(words: Seq<Seq<char>>, m: int) -> Option<WrapState>
    decreases words.len(),
{
    if words.len() == 0 {
        Some((Seq::<Seq<char>>::empty(), Seq::<char>::empty(), 0))
    } else {
        match wrap_fold(words.drop_last(), m) {
            None => None,
            Some(st) => wrap_step(st, words.last(), m),
        }
    }
}

/// The rows `text` wraps into at `m` columns: the text itself when `m` is 0
/// or the text fits, else the rows of the word-by-word fold (the text itself
/// if that gives none). `None` where a width count would overflow.
pub open spec fn wrap_rows(text: Seq<char>, m: usize) -> Option<Seq<Seq<char>>> {
    if m == 0 || cols(text) <= m {
        Some(seq![text])
    } else {
        match wrap_fold(split_spaces(text), m as int) {
            None => None,
            Some(st) => {
                let rows = if st.1.len() > 0 { st.0.push(st.1) } else { st.0 };
                Some(if rows.len() == 0 { seq![text] } else { rows })
            },
        }
    }
}

/// Once folding a prefix of the words does not finish, folding all of them
/// does not either.
pub proof fn lemma_wrap_fold_none(words: Seq<Seq<char>>, m: int, i: int)
    requires
        0 <= i <= words.len(),
        wrap_fold(words.take(i), m) is None,
    ensures
        wrap_fold(words, m) is None,
    decreases words.len() - i,
{
    if i < words.len() {
        assert(words.take(i + 1).drop_last() =~= words.take(i));
        lemma_wrap_fold_none(words, m, i + 1);
    } else {
        assert(words.take(i) =~= words);
    }
}

/// `dst` followed by `src`.
fn append_chars(dst: &mut Vec<char>, src: &Vec<char>)
    ensures
        final(dst)@ == old(dst)@ + src@,
{
    let mut i: usize = 0;
    while i < src.len()
        invariant
            i <= src.len(),
            dst@ == old(dst)@ + src@.take(i as int),
        decreases src.len() - i,
    {
        dst.push(src[i]);
        assert(src@.take(i + 1) =~= src@.take(i as int).push(src@[i as int]));
        i = i + 1;
    }
    assert(src@.take(src.len() as int) =~= src@);
}

/// One string per row.
fn strings_of(rows: &Vec<Vec<char>>) -> (r: Vec<String>)
    ensures
        r.len() == rows.len(),
        forall|i: int| 0 <= i < rows.len() ==> #[trigger] r[i]@ == rows[i]@,
{
    let mut r: Vec<String> = Vec::new();
    let mut i: usize = 0;
    while i < rows.len()
        invariant
            i <= rows.len(),
            r.len() == i,
            forall|j: int| 0 <= j < i ==> #[trigger] r[j]@ == rows[j]@,
        decreases rows.len() - i,
    {
        let s = string_from_chars(&rows[i], 0, rows[i].len());
        assert(rows[i as int]@.subrange(0, rows[i as int]@.len() as int) =~= rows[i as int]@);
        r.push(s);
        i = i + 1;
    }
    r
}

/// A one-row result holding `text`.
fn single_row(text: &str) -> (r: Vec<String>)
    ensures
        r.len() == 1,
        r[0]@ == text@,
{
    let mut r: Vec<String> = Vec::new();
    r.push(text.to_owned());
    r
}

/// The rows `text` wraps into at `max_width` columns, or `None` exactly
/// where a width count would overflow.
pub fn wrap_lyric_line_checked(text: &str, max_width: usize) -> (rows: Option<Vec<String>>)
    ensures
        rows is Some <==> wrap_rows(text@, max_width) is Some,
        rows matches Some(r) ==> {
            &&& r.len() == wrap_rows(text@, max_width).unwrap().len()
            &&& forall|i: int| 0 <= i < r.len() ==> #[trigger] r[i]@ == wrap_rows(text@, max_width).unwrap()[i]
        },
{
    if max_width == 0 {
        return Some(single_row(text));
    }
    let full_width = display_width(text);
    if full_width <= max_width {
        return Some(single_row(text));
    }
    let chars = chars_of(text);
    let words = split_words(&chars);
    let ghost ws = views(words@);
    let ghost m = max_width as int;
    let mut rows: Vec<Vec<char>> = Vec::new();
    let mut current: Vec<char> = Vec::new();
    let mut current_width: usize = 0;
    let mut i: usize = 0;
    assert(ws.take(0) =~= Seq::<Seq<char>>::empty());
    assert(views(rows@) =~= Seq::<Seq<char>>::empty());
    while i < words.len()
        invariant
            i <= words.len(),
            ws == views(words@),
            ws == split_spaces(text@),
            m == max_width as int,
            max_width > 0,
            cols(text@) > max_width,
            wrap_fold(ws.take(i as int), m) == Some((views(rows@), current@, current_width as int)),
        decreases words.len() - i,
    {
        proof {
            assert(ws.take(i + 1).drop_last() =~= ws.take(i as int));
            assert(ws.take(i + 1).last() == words[i as int]@);
        }
        let word = &words[i];
        let word_str = string_from_chars(word, 0, word.len());
        assert(word@.subrange(0, word@.len() as int) =~= word@);
        let word_width = display_width(word_str.as_str());
        let ghost before = views(rows@);
        let mut starts_row = current.len() == 0;
        if !starts_row {
            if (current_width as u128) + 1 + (word_width as u128) > (usize::MAX as u128) {
                proof {
                    lemma_wrap_fold_none(ws, m, i as int + 1);
                }
                return None;
            } else if current_width + 1 + word_width <= max_width {
                current.push(' ');
                append_chars(&mut current, word);
                current_width = current_width + 1 + word_width;
            } else {
                let done = current;
                current = Vec::new();
                rows.push(done);
                assert(views(rows@) =~= before.push(done@));
                current_width = 0;
                starts_row = true;
            }
        }
        if starts_row {
            if word_width <= max_width {
                current = slice_chars(word, 0, word.len());
                current_width = word_width;
            } else {
                let (rest_start, rest_width) = match hard_break_word(word, max_width, &mut rows) {
                    Some(p) => p,
                    None => {
                        proof {
                            lemma_wrap_fold_none(ws, m, i as int + 1);
                        }
                        return None;
                    },
                };
                if rest_start < word.len() {
                    current = slice_chars(word, rest_start, word.len());
                    assert(current@ =~= word@.skip(rest_start as int));
                    current_width = rest_width;
                } else {
                    current_width = 0;
                }
            }
        }
        i = i + 1;
    }
    assert(ws.take(words.len() as int) =~= ws);
    if current.len() > 0 {
        let ghost before = views(rows@);
        rows.push(current);
        assert(views(rows@) =~= before.push(current@));
    }
    if rows.len() == 0 {
        return Some(single_row(text));
    }
    let r = strings_of(&rows);
    assert forall|k: int| 0 <= k < r.len() implies #[trigger] r[k]@ == wrap_rows(text@, max_width).unwrap()[k] by {
        assert(views(rows@)[k] == rows[k]@);
    }
    Some(r)
}

/// Wraps a single lyric line's text into rows that fit within `max_width`
/// display columns, breaking at spaces and breaking a word that is too wide
/// for a row on its own; a character wider than `max_width` takes a row of
/// its own. The width counts must stay within `usize` (see
/// [`wrap_lyric_line_checked`] for a version that tests this).
pub fn wrap_lyric_line(text: &str, max_width: usize) -> (rows: Vec<String>)
    requires
        wrap_rows(text@, max_width) is Some,
    ensures
        rows.len() == wrap_rows(text@, max_width).unwrap().len(),
        forall|i: int| 0 <= i < rows.len() ==> #[trigger] rows[i]@ == wrap_rows(text@, max_width).unwrap()[i],
{
    match wrap_lyric_line_checked(text, max_width) {
        Some(r) => r,
        None => Vec::new(),
    }
}

// ── What wrapping keeps ──────────────────────────────────────────────────

/// Each piece of `s` is no longer than `s`, and printable ASCII when `s` is.
pub proof fn lemma_split_spaces_pieces(s: Seq<char>)
    ensures
        forall|i: int| 0 <= i < split_spaces(s).len() ==> {
            &&& (#[trigger] split_spaces(s)[i]).len() <= s.len()
            &&& printable_ascii(s) ==> printable_ascii(split_spaces(s)[i])
        },
    decreases s.len(),
{
    if s.len() > 0 {
        let d = s.drop_last();
        lemma_split_spaces_pieces(d);
        lemma_split_spaces_nonempty(d);
        if printable_ascii(s) {
            assert forall|j: int| 0 <= j < d.len() implies 0x20 <= (#[trigger] d[j]) as u32 && (d[j] as u32) < 0x7f by {
                assert(d[j] == s[j]);
            }
            assert(ascii_printable_char(s[s.len() - 1]));
        }
        let prev = split_spaces(d);
        if s.last() != ' ' {
            let p = prev.last().push(s.last());
            if printable_ascii(s) {
                assert forall|j: int| 0 <= j < p.len() implies 0x20 <= (#[trigger] p[j]) as u32 && (p[j] as u32) < 0x7f by {
                    if j < p.len() - 1 {
                        assert(p[j] == prev.last()[j]);
                    }
                }
            }
            assert(split_spaces(s)[prev.len() - 1] == p);
        }
    }
}

/// A printable ASCII word breaks `m` columns at a time.
pub proof fn lemma_chunk_len_ascii(w: Seq<char>, m: int, t: int)
    requires
        printable_ascii(w),
        0 <= t <= m,
        m + 1 <= usize::MAX,
    ensures
        chunk_len(w, m, t) == Some((if w.len() <= m - t { w.len() as int } else { m - t }) as nat),
    decreases w.len(),
{
    if w.len() > 0 {
        assert(ascii_printable_char(w[0]));
        let rest = w.drop_first();
        assert forall|j: int| 0 <= j < rest.len() implies 0x20 <= (#[trigger] rest[j]) as u32 && (rest[j] as u32) < 0x7f by {
            assert(rest[j] == w[j + 1]);
        }
        if t + 1 <= m {
            lemma_chunk_len_ascii(rest, m, t + 1);
        }
    }
}

/// Breaking a printable ASCII word finishes, with chunks of exactly `m`
/// characters and a rest of at most `m`.
pub proof fn lemma_hard_break_ascii(w: Seq<char>, m: int)
    requires
        printable_ascii(w),
        1 <= m,
        m + 1 <= usize::MAX,
    ensures
        hard_break(w, m) matches Some(hb) && {
            &&& forall|i: int| 0 <= i < hb.0.len() ==> (#[trigger] hb.0[i]).len() == m && printable_ascii(hb.0[i])
            &&& hb.1.len() <= m
            &&& printable_ascii(hb.1)
        },
    decreases w.len(),
{
    if w.len() > m {
        lemma_chunk_len_ascii(w, m, 0);
        let rest = w.skip(m);
        let head = w.take(m);
        assert forall|j: int| 0 <= j < rest.len() implies 0x20 <= (#[trigger] rest[j]) as u32 && (rest[j] as u32) < 0x7f by {
            assert(rest[j] == w[j + m]);
        }
        assert forall|j: int| 0 <= j < head.len() implies 0x20 <= (#[trigger] head[j]) as u32 && (head[j] as u32) < 0x7f by {
            assert(head[j] == w[j]);
        }
        lemma_hard_break_ascii(rest, m);
        let hb = hard_break(w, m).unwrap();
        let hr = hard_break(rest, m).unwrap();
        assert(hb.0 == seq![head] + hr.0);
        assert forall|i: int| 0 <= i < hb.0.len() implies (#[trigger] hb.0[i]).len() == m && printable_ascii(hb.0[i]) by {
            if i > 0 {
                assert(hb.0[i] == hr.0[i - 1]);
            }
        }
    }
}

/// What holds of a wrap state for printable ASCII words: every row is
/// printable ASCII and fits in `m` columns; so is the row being filled,
/// whose counted width is its length.
pub open spec fn ascii_state_ok(st: WrapState, m: int) -> bool {
    &&& forall|i: int| 0 <= i < st.0.len() ==> printable_ascii(#[trigger] st.0[i]) && st.0[i].len() <= m
    &&& printable_ascii(st.1)
    &&& st.1.len() <= m
    &&& st.2 == st.1.len()
}

/// A printable ASCII word starting a row keeps `ascii_state_ok`.
proof fn lemma_start_row_ascii(rows: Seq<Seq<char>>, w: Seq<char>, m: int)
    requires
        m >= 1,
        m + 1 <= usize::MAX,
        printable_ascii(w),
        forall|i: int| 0 <= i < rows.len() ==> printable_ascii(#[trigger] rows[i]) && rows[i].len() <= m,
    ensures
        start_row(rows, w, m) matches Some(st) && ascii_state_ok(st, m) && rows.is_prefix_of(st.0),
{
    if w.len() > m {
        lemma_hard_break_ascii(w, m);
        let hb = hard_break(w, m).unwrap();
        let nrows = rows + hb.0;
        assert forall|i: int| 0 <= i < nrows.len() implies printable_ascii(#[trigger] nrows[i]) && nrows[i].len() <= m by {
            if i < rows.len() {
                assert(nrows[i] == rows[i]);
            } else {
                assert(nrows[i] == hb.0[i - rows.len()]);
            }
        }
        assert(rows.is_prefix_of(nrows)) by {
            assert forall|i: int| 0 <= i < rows.len() implies nrows[i] == rows[i] by {}
        }
    } else {
        assert(rows.is_prefix_of(rows)) by {
            assert forall|i: int| 0 <= i < rows.len() implies rows[i] == rows[i] by {}
        }
    }
}

/// Folding printable ASCII words finishes and keeps `ascii_state_ok`.
pub proof fn lemma_wrap_fold_ascii(words: Seq<Seq<char>>, m: int, l: int)
    requires
        1 <= m <= l,
        forall|i: int| 0 <= i < words.len() ==> printable_ascii(#[trigger] words[i]) && words[i].len() <= l,
        m + 1 + l <= usize::MAX,
    ensures
        wrap_fold(words, m) matches Some(st) && ascii_state_ok(st, m),
    decreases words.len(),
{
    if words.len() > 0 {
        let d = words.drop_last();
        assert forall|i: int| 0 <= i < d.len() implies printable_ascii(#[trigger] d[i]) && d[i].len() <= l by {
            assert(d[i] == words[i]);
        }
        lemma_wrap_fold_ascii(d, m, l);
        let st = wrap_fold(d, m).unwrap();
        let w = words.last();
        assert(words[words.len() - 1] == w);
        assert(printable_ascii(w));
        if st.1.len() == 0 {
            lemma_start_row_ascii(st.0, w, m);
        } else if st.2 + 1 + w.len() <= m {
            let nw = st.1.push(' ') + w;
            assert forall|j: int| 0 <= j < nw.len() implies 0x20 <= (#[trigger] nw[j]) as u32 && (nw[j] as u32) < 0x7f by {
                if j < st.1.len() {
                    assert(nw[j] == st.1[j]);
                } else if j > st.1.len() {
                    assert(nw[j] == w[j - st.1.len() - 1]);
                }
            }
        } else {
            let nrows = st.0.push(st.1);
            assert forall|i: int| 0 <= i < nrows.len() implies printable_ascii(#[trigger] nrows[i]) && nrows[i].len() <= m by {
                if i < st.0.len() {
                    assert(nrows[i] == st.0[i]);
                }
            }
            lemma_start_row_ascii(nrows, w, m);
        }
    }
}

/// Wrapping printable ASCII text always finishes, and every row is
/// printable ASCII and fits in `max_width` columns, unless the text is its
/// only row (it fits, or `max_width` is 0, or no row came of it).
pub proof fn lemma_wrap_ascii(text: Seq<char>, max_width: usize)
    requires
        printable_ascii(text),
        text.len() <= usize::MAX / 2,
    ensures
        wrap_rows(text, max_width) matches Some(rows) && forall|i: int| 0 <= i < rows.len() ==> {
            &&& printable_ascii(#[trigger] rows[i])
            &&& cols(rows[i]) <= max_width || rows == seq![text]
        },
{
    if !(max_width == 0 || cols(text) <= max_width) {
        let words = split_spaces(text);
        lemma_split_spaces_pieces(text);
        let l = text.len() as int;
        assert forall|i: int| 0 <= i < words.len() implies printable_ascii(#[trigger] words[i]) && words[i].len() <= l by {
        }
        lemma_wrap_fold_ascii(words, max_width as int, l);
        let st = wrap_fold(words, max_width as int).unwrap();
        let rows = if st.1.len() > 0 { st.0.push(st.1) } else { st.0 };
        assert forall|i: int| 0 <= i < rows.len() implies printable_ascii(#[trigger] rows[i])
            && rows[i].len() <= max_width by {
            if i < st.0.len() {
                assert(rows[i] == st.0[i]);
            }
        }
    }
}

/// The characters of `s` that are not spaces, in order.
pub open spec fn strip_spaces(s: Seq<char>) -> Seq<char>
    decreases s.len(),
{
    if s.len() == 0 {
        Seq::empty()
    } else {
        let p = strip_spaces(s.drop_last());
        if s.last() == ' ' { p } else { p.push(s.last()) }
    }
}

/// The rows one after another.
pub open spec fn joined(rows: Seq<Seq<char>>) -> Seq<char>
    decreases rows.len(),
{
    if rows.len() == 0 {
        Seq::empty()
    } else {
        joined(rows.drop_last()) + rows.last()
    }
}

proof fn lemma_strip_concat(a: Seq<char>, b: Seq<char>)
    ensures
        strip_spaces(a + b) == strip_spaces(a) + strip_spaces(b),
    decreases b.len(),
{
    if b.len() == 0 {
        assert(a + b =~= a);
        assert(strip_spaces(a) + strip_spaces(b) =~= strip_spaces(a));
    } else {
        assert((a + b).drop_last() =~= a + b.drop_last());
        assert((a + b).last() == b.last());
        lemma_strip_concat(a, b.drop_last());
        if b.last() != ' ' {
            assert(strip_spaces(a) + strip_spaces(b.drop_last()).push(b.last())
                =~= (strip_spaces(a) + strip_spaces(b.drop_last())).push(b.last()));
        }
    }
}

proof fn lemma_joined_concat(a: Seq<Seq<char>>, b: Seq<Seq<char>>)
    ensures
        joined(a + b) == joined(a) + joined(b),
    decreases b.len(),
{
    if b.len() == 0 {
        assert(a + b =~= a);
        assert(joined(a) + joined(b) =~= joined(a));
    } else {
        assert((a + b).drop_last() =~= a + b.drop_last());
        assert((a + b).last() == b.last());
        lemma_joined_concat(a, b.drop_last());
        assert(joined(a) + joined(b.drop_last()) + b.last() =~= joined(a) + (joined(b.drop_last()) + b.last()));
    }
}

proof fn lemma_joined_push(a: Seq<Seq<char>>, r: Seq<char>)
    ensures
        joined(a.push(r)) == joined(a) + r,
{
    assert(a.push(r).drop_last() =~= a);
}

/// The pieces between spaces hold the same non-space characters as the
/// string.
proof fn lemma_split_keeps_chars(s: Seq<char>)
    ensures
        strip_spaces(joined(split_spaces(s))) == strip_spaces(s),
    decreases s.len(),
{
    if s.len() == 0 {
        lemma_joined_push(Seq::<Seq<char>>::empty(), Seq::<char>::empty());
        assert(Seq::<Seq<char>>::empty().push(Seq::<char>::empty()) =~= seq![Seq::<char>::empty()]);
        assert(joined(seq![Seq::<char>::empty()]) =~= Seq::<char>::empty());
    } else {
        let d = s.drop_last();
        let c = s.last();
        lemma_split_keeps_chars(d);
        lemma_split_spaces_nonempty(d);
        let prev = split_spaces(d);
        if c == ' ' {
            lemma_joined_push(prev, Seq::<char>::empty());
            assert(joined(prev) + Seq::<char>::empty() =~= joined(prev));
        } else {
            let n = prev.len() - 1;
            let x = prev.last().push(c);
            let up = prev.update(n, x);
            assert(up.drop_last() =~= prev.drop_last());
            assert(up.last() == x);
            assert(joined(up) == joined(prev.drop_last()) + x);
            assert(joined(prev) == joined(prev.drop_last()) + prev.last());
            assert(joined(up) =~= joined(prev).push(c));
            assert(joined(prev).push(c).drop_last() =~= joined(prev));
        }
    }
}

/// Breaking a word into chunks keeps its characters in order.
proof fn lemma_hard_break_keeps(w: Seq<char>, m: int)
    ensures
        hard_break(w, m) matches Some(hb) ==> joined(hb.0) + hb.1 == w,
    decreases w.len(),
{
    if cols(w) <= m || w.len() == 0 {
        assert(joined(Seq::<Seq<char>>::empty()) + w =~= w);
    } else {
        if let Some(k0) = chunk_len(w, m, 0) {
            let k: nat = if k0 == 0 { 1 } else { k0 };
            {
                lemma_chunk_len_bound(w, m, 0);
                let rest = w.skip(k as int);
                lemma_hard_break_keeps(rest, m);
                if let Some(r) = hard_break(rest, m) {
                    let head = w.take(k as int);
                    lemma_joined_concat(seq![head], r.0);
                    lemma_joined_push(Seq::<Seq<char>>::empty(), head);
                    assert(Seq::<Seq<char>>::empty().push(head) =~= seq![head]);
                    assert(Seq::<char>::empty() + head =~= head);
                    assert(head + joined(r.0) + r.1 =~= head + (joined(r.0) + r.1));
                    assert(head + rest =~= w);
                }
            }
        }
    }
}

/// A word starting a row keeps the characters in order.
proof fn lemma_start_row_keeps(rows: Seq<Seq<char>>, w: Seq<char>, m: int)
    ensures
        start_row(rows, w, m) matches Some(st) ==> joined(st.0) + st.1 == joined(rows) + w,
{
    if cols(w) > m {
        lemma_hard_break_keeps(w, m);
        if let Some(hb) = hard_break(w, m) {
            lemma_joined_concat(rows, hb.0);
            assert(joined(rows) + joined(hb.0) + hb.1 =~= joined(rows) + (joined(hb.0) + hb.1));
            if hb.1.len() == 0 {
                assert(joined(rows + hb.0) + Seq::<char>::empty() =~= joined(rows + hb.0) + hb.1);
            }
        }
    }
}

/// Folding the words keeps their non-space characters in order.
proof fn lemma_wrap_fold_keeps(words: Seq<Seq<char>>, m: int)
    ensures
        wrap_fold(words, m) matches Some(st) ==> strip_spaces(joined(st.0) + st.1) == strip_spaces(joined(words)),
    decreases words.len(),
{
    if words.len() == 0 {
        assert(joined(Seq::<Seq<char>>::empty()) + Seq::<char>::empty() =~= Seq::<char>::empty());
    } else {
        let d = words.drop_last();
        let w = words.last();
        lemma_wrap_fold_keeps(d, m);
        if let Some(st0) = wrap_fold(d, m) {
            if let Some(st) = wrap_step(st0, w, m) {
                let base = joined(st0.0) + st0.1;
                lemma_strip_concat(base, w);
                lemma_strip_concat(joined(d), w);
                if st0.1.len() == 0 {
                    lemma_start_row_keeps(st0.0, w, m);
                    assert(base =~= joined(st0.0));
                } else if st0.2 + 1 + cols(w) <= m {
                    let sp = seq![' '];
                    assert(joined(st.0) + st.1 =~= (base + sp) + w);
                    lemma_strip_concat(base + sp, w);
                    lemma_strip_concat(base, sp);
                    assert(sp.drop_last() =~= Seq::<char>::empty());
                    assert(sp.last() == ' ');
                    assert(strip_spaces(Seq::<char>::empty()) == Seq::<char>::empty());
                    assert(strip_spaces(sp) =~= Seq::<char>::empty());
                    assert(strip_spaces(base) + strip_spaces(sp) =~= strip_spaces(base));
                } else {
                    lemma_start_row_keeps(st0.0.push(st0.1), w, m);
                    lemma_joined_push(st0.0, st0.1);
                }
            }
        }
    }
}

/// Wrapping loses, adds and reorders no character other than a space: the
/// rows, read one after another, hold the text's non-space characters in
/// order.
pub proof fn lemma_wrap_keeps_characters(text: Seq<char>, max_width: usize)
    ensures
        wrap_rows(text, max_width) matches Some(rows) ==> strip_spaces(joined(rows)) == strip_spaces(text),
{
    lemma_joined_push(Seq::<Seq<char>>::empty(), text);
    assert(Seq::<Seq<char>>::empty().push(text) =~= seq![text]);
    assert(Seq::<char>::empty() + text =~= text);
    if !(max_width == 0 || cols(text) <= max_width) {
        let words = split_spaces(text);
        lemma_wrap_fold_keeps(words, max_width as int);
        lemma_split_keeps_chars(text);
        if let Some(st) = wrap_fold(words, max_width as int) {
            if st.1.len() > 0 {
                lemma_joined_push(st.0, st.1);
            } else {
                assert(joined(st.0) + st.1 =~= joined(st.0));
            }
        }
    }
}

/// Wrapping never gives zero rows.
pub proof fn lemma_wrap_rows_nonempty(text: Seq<char>, max_width: usize)
    ensures
        wrap_rows(text, max_width) matches Some(rows) ==> rows.len() >= 1,
{
}

// ── Lyrics data ──────────────────────────────────────────────────────────

/// One line of lyrics: its start time in milliseconds, if the lyrics are
/// timed, and its text.
pub struct LyricLine {
    pub start: Option<i64>,
    pub value: String,
}

/// The lyrics of a track: whether the lines are timed, and the lines.
pub struct StructuredLyrics {
    pub synced: bool,
    pub line: Vec<LyricLine>,
}

/// What a key in the lyrics view asks of the application.
#[derive(Debug, Clone, Copy, PartialEq, Eq, Structural)]
pub enum LyricsAction {
    ToggleLyrics,
    Quit,
    SeekRelative(i64),
}

/// A playback command a key in the lyrics view gives.
#[derive(Debug, Clone, Copy, PartialEq, Eq, Structural)]
pub enum PlaybackCommand {
    TogglePlayback,
    Next,
    Previous,
    NextGroup,
    PreviousGroup,
    /// Seek the current track to this many milliseconds.
    SeekTo(u64),
}

/// Lyrics view state, shared by the full-panel and sidebar views: the
/// lyrics being shown (or that they are loading), the keyboard-selected
/// line (`None` follows playback), the scroll position in rendered rows and
/// the viewport height, whether the user scrolled by hand (which stops
/// auto-follow), and the row count of the last draw.
pub struct LyricsViewState {
    pub loading: bool,
    pub data: Option<StructuredLyrics>,
    pub selected_index: Option<usize>,
    pub scroll_line: usize,
    pub visible_height: usize,
    pub user_scrolled: bool,
    pub total_rows: usize,
}

/// The number of lyric lines held (0 when none are).
pub open spec fn line_count(data: Option<StructuredLyrics>) -> int {
    match data {
        Some(d) => d.line@.len() as int,
        None => 0,
    }
}

impl LyricsViewState {
    /// No lyrics, nothing selected, at the top, following playback.
    pub fn new() -> (r: Self)
        ensures
            !r.loading,
            r.data is None,
            r.selected_index is None,
            r.scroll_line == 0,
            r.visible_height == 0,
            !r.user_scrolled,
            r.total_rows == 0,
    {
        LyricsViewState {
            loading: false,
            data: None,
            selected_index: None,
            scroll_line: 0,
            visible_height: 0,
            user_scrolled: false,
            total_rows: 0,
        }
    }

    /// Resets all view-specific state (scroll, selection, auto-follow),
    /// keeping the lyrics.
    pub fn reset_view(&mut self)
        ensures
            final(self).loading == old(self).loading,
            final(self).data == old(self).data,
            final(self).selected_index is None,
            final(self).scroll_line == 0,
            final(self).visible_height == 0,
            !final(self).user_scrolled,
            final(self).total_rows == 0,
    {
        self.selected_index = None;
        self.scroll_line = 0;
        self.visible_height = 0;
        self.user_scrolled = false;
        self.total_rows = 0;
    }
}

/// `v` clamped into `[lo, hi]`.
pub open spec fn clamp_int(v: int, lo: int, hi: int) -> int {
    if v < lo { lo } else if v > hi { hi } else { v }
}

/// The line a move by `delta` selects: from the selected line, or the
/// playing one when none is selected, clamped to the lines, counted in
/// `i32`.
pub open spec fn moved_selection(selected: Option<usize>, current_line: usize, n: int, delta: i32) -> int {
    let from: usize = match selected {
        Some(i) => i,
        None => current_line,
    };
    clamp_int((from as i32) + delta, 0, (n as i32) - 1)
}

/// Moving by `delta` stays within `i32`, as the move's arithmetic needs
/// (it panics otherwise): nothing to check without lines.
pub open spec fn move_fits(lyrics: LyricsViewState, current_line: usize, delta: i32) -> bool {
    line_count(lyrics.data) > 0 ==> {
        let from: usize = match lyrics.selected_index {
            Some(i) => i,
            None => current_line,
        };
        &&& i32::MIN <= (from as i32) + delta <= i32::MAX
        &&& (line_count(lyrics.data) as i32) >= 1
    }
}

/// The selection step of a movement key: a line, or a page of 20 lines.
pub open spec fn move_delta(action: Action) -> Option<i32> {
    match action {
        Action::MoveUp => Some(-1i32),
        Action::MoveDown => Some(1i32),
        Action::PageUp => Some(-20i32),
        Action::PageDown => Some(20i32),
        _ => None,
    }
}

/// Move the lyrics selection cursor by `delta` lines. If no line is
/// selected, it starts from `current_line`, the line playing now. Without
/// lines nothing changes.
pub fn move_selection(lyrics: &mut LyricsViewState, current_line: usize, delta: i32)
    requires
        move_fits(*old(lyrics), current_line, delta),
    ensures
        line_count(old(lyrics).data) == 0 ==> *final(lyrics) == *old(lyrics),
        line_count(old(lyrics).data) > 0 ==> {
            &&& final(lyrics).selected_index == Some(
                moved_selection(old(lyrics).selected_index, current_line, line_count(old(lyrics).data), delta) as usize)
            &&& final(lyrics).data == old(lyrics).data
            &&& final(lyrics).loading == old(lyrics).loading
            &&& final(lyrics).scroll_line == old(lyrics).scroll_line
            &&& final(lyrics).visible_height == old(lyrics).visible_height
            &&& final(lyrics).user_scrolled == old(lyrics).user_scrolled
            &&& final(lyrics).total_rows == old(lyrics).total_rows
        },
{
    let count: usize = match &lyrics.data {
        Some(d) => d.line.len(),
        None => 0,
    };
    if count == 0 {
        return;
    }
    let current: usize = match lyrics.selected_index {
        Some(i) => i,
        None => current_line,
    };
    let v = current as i32 + delta;
    let hi = count as i32 - 1;
    let new_index: i32 = if v < 0 { 0 } else if v > hi { hi } else { v };
    lyrics.selected_index = Some(new_index as usize);
}

/// The start of line `line_index` in milliseconds, when there is such a line
/// and it has a start time.
pub open spec fn line_start_ms(lines: Seq<LyricLine>, line_index: int) -> Option<u64> {
    if 0 <= line_index < lines.len() {
        match lines[line_index].start {
            Some(ms) => Some(ms as u64),
            None => None,
        }
    } else {
        None
    }
}

/// The seek position, in milliseconds, for a given logical line index.
pub fn line_index_to_duration(lyrics_data: &StructuredLyrics, line_index: usize) -> (r: Option<u64>)
    ensures
        r == line_start_ms(lyrics_data.line@, line_index as int),
{
    if line_index >= lyrics_data.line.len() {
        return None;
    }
    match lyrics_data.line[line_index].start {
        Some(ms) => Some(ms as u64),
        None => None,
    }
}

/// Where to seek for line `line_index` of the lyrics held, if anywhere.
pub open spec fn seek_for(data: Option<StructuredLyrics>, line_index: int) -> Option<u64> {
    match data {
        Some(d) => line_start_ms(d.line@, line_index),
        None => None,
    }
}

/// Seeks to the start of lyric line `line_index`: returns where to seek and
/// then clears the selection and goes back to following playback; where the
/// line has no start time (or there are no lyrics), nothing changes.
pub fn seek_to_line(lyrics: &mut LyricsViewState, line_index: usize) -> (r: Option<u64>)
    ensures
        r == seek_for(old(lyrics).data, line_index as int),
        r is None ==> *final(lyrics) == *old(lyrics),
        r is Some ==> {
            &&& final(lyrics).selected_index is None
            &&& !final(lyrics).user_scrolled
            &&& final(lyrics).data == old(lyrics).data
            &&& final(lyrics).loading == old(lyrics).loading
            &&& final(lyrics).scroll_line == old(lyrics).scroll_line
            &&& final(lyrics).visible_height == old(lyrics).visible_height
            &&& final(lyrics).total_rows == old(lyrics).total_rows
        },
{
    let target = match &lyrics.data {
        Some(d) => line_index_to_duration(d, line_index),
        None => None,
    };
    if target.is_some() {
        lyrics.selected_index = None;
        lyrics.user_scrolled = false;
    }
    target
}

/// Seeks to the start of the selected lyric line, as `seek_to_line` does;
/// nothing happens without a selection.
pub fn seek_to_selected(lyrics: &mut LyricsViewState) -> (r: Option<u64>)
    ensures
        r == (match old(lyrics).selected_index {
            Some(i) => seek_for(old(lyrics).data, i as int),
            None => None,
        }),
        r is None ==> *final(lyrics) == *old(lyrics),
        r is Some ==> {
            &&& final(lyrics).selected_index is None
            &&& !final(lyrics).user_scrolled
            &&& final(lyrics).data == old(lyrics).data
            &&& final(lyrics).loading == old(lyrics).loading
            &&& final(lyrics).scroll_line == old(lyrics).scroll_line
            &&& final(lyrics).visible_height == old(lyrics).visible_height
            &&& final(lyrics).total_rows == old(lyrics).total_rows
        },
{
    match lyrics.selected_index {
        Some(i) => seek_to_line(lyrics, i),
        None => None,
    }
}

/// What a key in the lyrics view does, given the line playing now and the
/// seek step in seconds: Back leaves the view, Quit quits, the arrows and
/// page keys move the selection (20 lines a page), Select seeks to the
/// selected line, the seek keys seek by the step, and the transport keys
/// become playback commands. Other keys do nothing.
pub fn handle_key(lyrics: &mut LyricsViewState, action: Action, current_line: usize, seek_step: i64)
    -> (r: (Option<LyricsAction>, Option<PlaybackCommand>))
    requires
        action is SeekBackward ==> seek_step != i64::MIN,
        move_delta(action) matches Some(d) ==> move_fits(*old(lyrics), current_line, d),
    ensures
        match action {
            Action::Back => r == (Some(LyricsAction::ToggleLyrics), None::<PlaybackCommand>) && *final(lyrics) == *old(lyrics),
            Action::Quit => r == (Some(LyricsAction::Quit), None::<PlaybackCommand>) && *final(lyrics) == *old(lyrics),
            Action::SeekForward => r == (Some(LyricsAction::SeekRelative(seek_step)), None::<PlaybackCommand>)
                && *final(lyrics) == *old(lyrics),
            Action::SeekBackward => r == (Some(LyricsAction::SeekRelative((-seek_step) as i64)), None::<PlaybackCommand>)
                && *final(lyrics) == *old(lyrics),
            Action::MoveUp | Action::MoveDown | Action::PageUp | Action::PageDown => {
                let delta = move_delta(action).unwrap();
                &&& r == (None::<LyricsAction>, None::<PlaybackCommand>)
                &&& line_count(old(lyrics).data) == 0 ==> *final(lyrics) == *old(lyrics)
                &&& line_count(old(lyrics).data) > 0 ==> final(lyrics).selected_index == Some(
                    moved_selection(old(lyrics).selected_index, current_line, line_count(old(lyrics).data), delta) as usize)
            },
            Action::Select => {
                let target = match old(lyrics).selected_index {
                    Some(i) => seek_for(old(lyrics).data, i as int),
                    None => None,
                };
                &&& r.0 is None
                &&& r.1 == (match target {
                    Some(ms) => Some(PlaybackCommand::SeekTo(ms)),
                    None => None,
                })
                &&& target is None ==> *final(lyrics) == *old(lyrics)
                &&& target is Some ==> final(lyrics).selected_index is None && !final(lyrics).user_scrolled
            },
            Action::PlayPause => r == (None::<LyricsAction>, Some(PlaybackCommand::TogglePlayback)) && *final(lyrics) == *old(lyrics),
            Action::Next => r == (None::<LyricsAction>, Some(PlaybackCommand::Next)) && *final(lyrics) == *old(lyrics),
            Action::Previous => r == (None::<LyricsAction>, Some(PlaybackCommand::Previous)) && *final(lyrics) == *old(lyrics),
            Action::NextGroup => r == (None::<LyricsAction>, Some(PlaybackCommand::NextGroup)) && *final(lyrics) == *old(lyrics),
            Action::PreviousGroup => r == (None::<LyricsAction>, Some(PlaybackCommand::PreviousGroup))
                && *final(lyrics) == *old(lyrics),
            _ => r == (None::<LyricsAction>, None::<PlaybackCommand>) && *final(lyrics) == *old(lyrics),
        },
{
    let page = PAGE_SCROLL_SIZE as i32;
    match action {
        Action::Back => (Some(LyricsAction::ToggleLyrics), None),
        Action::Quit => (Some(LyricsAction::Quit), None),
        Action::MoveUp => {
            move_selection(lyrics, current_line, -1);
            (None, None)
        },
        Action::MoveDown => {
            move_selection(lyrics, current_line, 1);
            (None, None)
        },
        Action::PageUp => {
            move_selection(lyrics, current_line, -page);
            (None, None)
        },
        Action::PageDown => {
            move_selection(lyrics, current_line, page);
            (None, None)
        },
        Action::Select => {
            match seek_to_selected(lyrics) {
                Some(ms) => (None, Some(PlaybackCommand::SeekTo(ms))),
                None => (None, None),
            }
        },
        Action::SeekForward => (Some(LyricsAction::SeekRelative(seek_step)), None),
        Action::SeekBackward => (Some(LyricsAction::SeekRelative(-seek_step)), None),
        Action::PlayPause => (None, Some(PlaybackCommand::TogglePlayback)),
        Action::Next => (None, Some(PlaybackCommand::Next)),
        Action::Previous => (None, Some(PlaybackCommand::Previous)),
        Action::NextGroup => (None, Some(PlaybackCommand::NextGroup)),
        Action::PreviousGroup => (None, Some(PlaybackCommand::PreviousGroup)),
        _ => (None, None),
    }
}

/// The lyric line under row `y` of a view whose inner area is `inner_area`,
/// scrolled by `scroll_offset` rendered rows: the line the rendered row
/// shows, if the row is in the area and shows one.
pub open spec fn click_line(y: u16, inner_area: Rect, scroll_offset: usize, back_mapping: Seq<usize>) -> Option<usize> {
    if y < inner_area.y || y >= inner_area.y + inner_area.height {
        None
    } else {
        let row = (y - inner_area.y) + scroll_offset;
        if row < back_mapping.len() { Some(back_mapping[row]) } else { None }
    }
}

/// Maps a click at terminal row `y` to a logical lyric line index, through
/// the back-mapping from rendered rows to lines.
pub fn sidebar_click_to_line_index(y: u16, inner_area: Rect, scroll_offset: usize, back_mapping: &[usize])
    -> (r: Option<usize>)
    requires
        y >= inner_area.y ==> inner_area.y + inner_area.height <= u16::MAX,
        y >= inner_area.y ==> (y - inner_area.y) + scroll_offset <= usize::MAX,
    ensures
        r == click_line(y, inner_area, scroll_offset, back_mapping@),
{
    if y < inner_area.y || y >= inner_area.y + inner_area.height {
        return None;
    }
    let row_in_view = (y - inner_area.y) as usize;
    let rendered_row = row_in_view + scroll_offset;
    if rendered_row < back_mapping.len() {
        Some(back_mapping[rendered_row])
    } else {
        None
    }
}

/// The width a drag makes the sidebar: from its left edge to the mouse for
/// a left sidebar, from the mouse to its right edge for a right one,
/// saturating at 0, then clamped to `[min, max]`.
pub open spec fn drag_width(mouse_x: u16, sidebar_outer_x: u16, is_left: bool, min: u16, max: u16) -> int {
    let raw = if is_left {
        crate::geometry::sat_sub(mouse_x as int, sidebar_outer_x as int)
    } else {
        crate::geometry::sat_sub(sidebar_outer_x as int, mouse_x as int)
    };
    clamp_int(raw, min as int, max as int)
}

/// Computes the new sidebar width from a drag position. For a left sidebar
/// `sidebar_outer_x` is its left edge and the width grows as the mouse moves
/// right; for a right sidebar it is its right edge and the width grows as
/// the mouse moves left. The result is clamped to `[min, max]`.
pub fn compute_sidebar_width_from_drag(mouse_x: u16, sidebar_outer_x: u16, is_left: bool, min: u16, max: u16)
    -> (r: u16)
    requires
        min <= max,
    ensures
        r == drag_width(mouse_x, sidebar_outer_x, is_left, min, max),
{
    let raw_width = if is_left {
        mouse_x.saturating_sub(sidebar_outer_x)
    } else {
        sidebar_outer_x.saturating_sub(mouse_x)
    };
    crate::geometry::clamp(raw_width, min, max)
}

// ── The rows of the lyrics view ──────────────────────────────────────────

/// Width of the timestamp prefix (e.g. `"  1:23 "`).
pub const SIDEBAR_TIMESTAMP_WIDTH: usize = 7;
/// Width of the selection indicator prefix (`"> "` or two spaces).
pub const SELECTION_INDICATOR_WIDTH: usize = 2;

/// How a lyric line is emphasised: the selected line, the line playing now,
/// a line already sung, or one still to come.
#[derive(Debug, Clone, Copy, PartialEq, Eq, Structural)]
pub enum LineTone {
    Selected,
    Current,
    Past,
    Upcoming,
}

/// The timestamp column of a synced line's first row: its start time
/// (right-aligned to six columns and followed by a space), or seven blank
/// columns for a line without a start time.
pub enum TimestampCell {
    Time(String),
    Blank,
}

/// What precedes a row's text.
pub enum RowLead {
    /// The first row of a line: the selection marker (`"> "` when `marker`,
    /// two spaces otherwise) and, for synced lyrics, the timestamp column.
    First { marker: bool, timestamp: Option<TimestampCell> },
    /// A later row of a wrapped line, indented under the text.
    Continuation,
}

/// One rendered row of the lyrics view.
pub struct LyricRow {
    pub line_index: usize,
    pub lead: RowLead,
    pub text: String,
    pub tone: LineTone,
    pub underlined: bool,
}

/// Every character is whitespace, so trimming leaves nothing.
pub open spec fn all_whitespace(s: Seq<char>) -> bool {
    forall|i: int| 0 <= i < s.len() ==> is_white_space(#[trigger] s[i])
}

/// The text shown for a line: a note sign for a blank line.
pub open spec fn display_text(value: Seq<char>) -> Seq<char> {
    if all_whitespace(value) { seq!['\u{266A}'] } else { value }
}

/// The width left for a line's text once the indicator and the timestamp
/// column are reserved, at least 1.
pub open spec fn text_width(max_width: usize) -> usize {
    let f = crate::geometry::sat_sub(crate::geometry::sat_sub(max_width as int, 2), 7);
    if f >= 1 { f as usize } else { 1usize }
}

/// Every line's text wraps at width `w`.
pub open spec fn lines_wrap(lines: Seq<LyricLine>, w: usize) -> bool {
    forall|i: int| 0 <= i < lines.len() ==> (#[trigger] wrap_rows(display_text(lines[i].value@), w)) is Some
}

/// The rows one line wraps into.
pub open spec fn line_rows(l: LyricLine, w: usize) -> Seq<Seq<char>> {
    wrap_rows(display_text(l.value@), w).unwrap()
}

/// The rendered rows of `lines` at text width `w`, in order: for each, the
/// line it belongs to, its place among that line's rows, and its text.
pub open spec fn rendered_rows(lines: Seq<LyricLine>, w: usize) -> Seq<(int, int, Seq<char>)>
    decreases lines.len(),
{
    if lines.len() == 0 {
        Seq::empty()
    } else {
        let rows = line_rows(lines.last(), w);
        rendered_rows(lines.drop_last(), w) + Seq::new(rows.len(), |j: int| ((lines.len() - 1) as int, j, rows[j]))
    }
}

/// The emphasis of line `idx`.
pub open spec fn line_tone(synced: bool, current: usize, selected: Option<usize>, idx: usize) -> LineTone {
    if selected == Some(idx) {
        LineTone::Selected
    } else if synced && idx == current {
        LineTone::Current
    } else if synced && idx < current {
        LineTone::Past
    } else {
        LineTone::Upcoming
    }
}

/// `n / d` rounded toward zero, as Rust's integer division does.
pub open spec fn trunc_div(n: int, d: int) -> int {
    if n >= 0 { n / d } else { -((-n) / d) }
}

/// `s` right-aligned in six columns.
pub open spec fn pad6(s: Seq<char>) -> Seq<char> {
    if s.len() >= 6 { s } else { Seq::new((6 - s.len()) as nat, |i: int| ' ') + s }
}

/// The timestamp column for a start time in milliseconds: whole seconds
/// (as a `u32`), formatted, right-aligned in six columns, then a space.
pub open spec fn timestamp_text(start_ms: i64) -> Seq<char> {
    pad6(hms_string((trunc_div(start_ms as int, 1000) as u32) as nat)) + seq![' ']
}

/// What precedes the text of row `j` of line `idx`.
pub open spec fn lead_ok(lead: RowLead, synced: bool, start: Option<i64>, j: int, is_selected: bool, show: bool) -> bool {
    if j == 0 {
        lead matches RowLead::First { marker, timestamp } && marker == (is_selected && show) && (
            if !synced {
                timestamp is None
            } else {
                match start {
                    Some(ms) => timestamp matches Some(TimestampCell::Time(t)) && t@ == timestamp_text(ms),
                    None => timestamp matches Some(TimestampCell::Blank),
                }
            })
    } else {
        lead is Continuation
    }
}

/// Row `row`, with back-mapping entry `back`, is the rendered row `spec` of
/// the lyrics `data` under the given view parameters.
pub open spec fn row_ok(
    row: LyricRow,
    back: usize,
    spec: (int, int, Seq<char>),
    data: StructuredLyrics,
    current: usize,
    selected: Option<usize>,
    show: bool,
    hovered: Option<usize>,
) -> bool {
    let idx = spec.0;
    &&& back == idx
    &&& row.line_index == idx
    &&& row.text@ == spec.2
    &&& 0 <= idx < data.line@.len()
    &&& lead_ok(row.lead, data.synced, data.line@[idx].start, spec.1, selected == Some(idx as usize), show)
    &&& row.tone == line_tone(data.synced, current, selected, idx as usize)
    &&& row.underlined == (hovered == Some(idx as usize) && selected != Some(idx as usize))
}

/// `rows` and `back` are the rows and back-mapping of the lyrics view of
/// `data` at `max_width` columns under the given parameters.
pub open spec fn view_ok(
    rows: Seq<LyricRow>,
    back: Seq<usize>,
    data: StructuredLyrics,
    current: usize,
    max_width: usize,
    selected: Option<usize>,
    show: bool,
    hovered: Option<usize>,
) -> bool {
    let spec = rendered_rows(data.line@, text_width(max_width));
    &&& rows.len() == spec.len()
    &&& back.len() == spec.len()
    &&& forall|k: int| 0 <= k < spec.len() ==> row_ok(#[trigger] rows[k], back[k], spec[k], data,
        current, selected, show, hovered)
}

/// The timestamp column text for a start time.
fn timestamp_for(start_ms: i64) -> (t: String)
    ensures
        t@ == timestamp_text(start_ms),
{
    let q: i64 = start_ms / 1000;
    assert(q as int == trunc_div(start_ms as int, 1000));
    let secs = q as u32;
    let hms = seconds_to_hms_string(secs);
    let n = chars_of(hms.as_str()).len();
    let mut t = String::new();
    let mut i = n;
    while i < 6
        invariant
            n <= i <= 6 || (n > 6 && i == n),
            n == hms@.len(),
            t@ == Seq::new((i - n) as nat, |k: int| ' '),
        decreases 6 - i,
    {
        push_char(&mut t, ' ');
        assert(t@ =~= Seq::new((i + 1 - n) as nat, |k: int| ' '));
        i = i + 1;
    }
    push_str(&mut t, hms.as_str());
    push_char(&mut t, ' ');
    assert(t@ =~= timestamp_text(start_ms));
    t
}

/// Whether every character of `s` is whitespace.
fn blank(s: &str) -> (b: bool)
    ensures
        b == all_whitespace(s@),
{
    let v = chars_of(s);
    let mut i: usize = 0;
    while i < v.len()
        invariant
            i <= v.len(),
            v@ == s@,
            forall|k: int| 0 <= k < i ==> is_white_space(#[trigger] s@[k]),
        decreases v.len() - i,
    {
        if !is_whitespace(v[i]) {
            return false;
        }
        i = i + 1;
    }
    true
}

/// Pre-wraps all lyric lines into a flat list of rendered rows, with a
/// parallel back-mapping from rendered row to lyric line, or `None` exactly
/// where some line's width count would overflow. A line's first row carries
/// the selection marker and, for synced lyrics, the timestamp column; the
/// two-column marker space is always reserved, so the text width, and with
/// it the rows and the back-mapping, do not depend on focus or selection.
pub fn build_wrapped_lyrics_checked(
    lyrics_data: &StructuredLyrics,
    current_line_idx: usize,
    max_width: usize,
    selected_index: Option<usize>,
    show_selection_indicator: bool,
    hovered_line: Option<usize>,
) -> (r: Option<(Vec<LyricRow>, Vec<usize>)>)
    ensures
        r is Some <==> lines_wrap(lyrics_data.line@, text_width(max_width)),
        r matches Some(p) ==> view_ok(p.0@, p.1@, *lyrics_data, current_line_idx, max_width,
            selected_index, show_selection_indicator, hovered_line),
{
    let w0 = max_width.saturating_sub(SELECTION_INDICATOR_WIDTH).saturating_sub(SIDEBAR_TIMESTAMP_WIDTH);
    let w = if w0 >= 1 { w0 } else { 1 };
    let ghost lines = lyrics_data.line@;
    let ghost data = *lyrics_data;
    let mut rows: Vec<LyricRow> = Vec::new();
    let mut back: Vec<usize> = Vec::new();
    let mut i: usize = 0;
    assert(lines.take(0) =~= Seq::<LyricLine>::empty());
    while i < lyrics_data.line.len()
        invariant
            i <= lyrics_data.line.len(),
            lines == lyrics_data.line@,
            data == *lyrics_data,
            w == text_width(max_width),
            lines_wrap(lines.take(i as int), w),
            rows.len() == rendered_rows(lines.take(i as int), w).len(),
            back.len() == rows.len(),
            forall|k: int| 0 <= k < rows.len() ==> row_ok(#[trigger] rows[k], back[k],
                rendered_rows(lines.take(i as int), w)[k], data,
                current_line_idx, selected_index, show_selection_indicator, hovered_line),
        decreases lyrics_data.line.len() - i,
    {
        let line = &lyrics_data.line[i];
        let is_selected = match selected_index {
            Some(s) => s == i,
            None => false,
        };
        let is_current = lyrics_data.synced && i == current_line_idx;
        let is_past = lyrics_data.synced && i < current_line_idx;
        let is_hovered = match hovered_line {
            Some(h) => h == i && !is_selected,
            None => false,
        };
        let tone = if is_selected {
            LineTone::Selected
        } else if is_current {
            LineTone::Current
        } else if is_past {
            LineTone::Past
        } else {
            LineTone::Upcoming
        };
        let display = if blank(line.value.as_str()) {
            "\u{266A}".to_owned()
        } else {
            line.value.clone()
        };
        proof {
            reveal_strlit("\u{266A}");
        }
        assert(display@ == display_text(line.value@));
        let wrapped = match wrap_lyric_line_checked(display.as_str(), w) {
            Some(v) => v,
            None => {
                assert(lines.take(i as int + 1)[i as int] == lines[i as int]);
                return None;
            },
        };
        let ghost before = rendered_rows(lines.take(i as int), w);
        let ghost lr = line_rows(lines[i as int], w);
        let ghost after = rendered_rows(lines.take(i + 1), w);
        assert(lines.take(i + 1).drop_last() =~= lines.take(i as int));
        assert(lines.take(i + 1).last() == lines[i as int]);
        assert(after == before + Seq::new(lr.len(), |j: int| (i as int, j, lr[j])));
        let base = rows.len();
        let mut j: usize = 0;
        while j < wrapped.len()
            invariant
                j <= wrapped.len(),
                wrapped.len() == lr.len(),
                forall|q: int| 0 <= q < lr.len() ==> #[trigger] wrapped[q]@ == lr[q],
                base == before.len(),
                rows.len() == base + j,
                back.len() == rows.len(),
                i < lines.len(),
                lines == lyrics_data.line@,
                data == *lyrics_data,
                *line == lines[i as int],
                after == before + Seq::new(lr.len(), |q: int| (i as int, q, lr[q])),
                tone == line_tone(data.synced, current_line_idx, selected_index, i),
                is_selected == (selected_index == Some(i)),
                is_hovered == (hovered_line == Some(i) && selected_index != Some(i)),
                forall|k: int| 0 <= k < rows.len() ==> row_ok(#[trigger] rows[k], back[k], after[k], data,
                    current_line_idx, selected_index, show_selection_indicator, hovered_line),
            decreases wrapped.len() - j,
        {
            let lead = if j == 0 {
                let timestamp = if lyrics_data.synced {
                    match line.start {
                        Some(ms) => Some(TimestampCell::Time(timestamp_for(ms))),
                        None => Some(TimestampCell::Blank),
                    }
                } else {
                    None
                };
                RowLead::First { marker: is_selected && show_selection_indicator, timestamp }
            } else {
                RowLead::Continuation
            };
            let text = wrapped[j].clone();
            assert(text@ == lr[j as int]);
            let ghost old_rows = rows@;
            let ghost old_back = back@;
            let row = LyricRow { line_index: i, lead, text, tone, underlined: is_hovered };
            assert(after[base + j] == (i as int, j as int, lr[j as int]));
            assert(lead_ok(row.lead, data.synced, data.line@[i as int].start, j as int, selected_index == Some(i), show_selection_indicator));
            assert(row_ok(row, i, after[base + j], data, current_line_idx, selected_index, show_selection_indicator, hovered_line));
            rows.push(row);
            back.push(i);
            assert forall|k: int| 0 <= k < rows.len() implies row_ok(#[trigger] rows[k], back[k], after[k], data,
                current_line_idx, selected_index, show_selection_indicator, hovered_line) by {
                if k < base + j {
                    assert(rows[k] == old_rows[k]);
                    assert(back[k] == old_back[k]);
                }
            }
            j = j + 1;
        }
        proof {
            assert forall|q: int| 0 <= q < i + 1 implies (#[trigger] wrap_rows(display_text(lines.take(i + 1)[q].value@), w)) is Some by {
                if q < i {
                    assert(lines.take(i + 1)[q] == lines.take(i as int)[q]);
                }
            }
        }
        i = i + 1;
    }
    assert(lines.take(lyrics_data.line.len() as int) =~= lines);
    assert(view_ok(rows@, back@, *lyrics_data, current_line_idx, max_width,
        selected_index, show_selection_indicator, hovered_line));
    Some((rows, back))
}

/// Pre-wraps all lyric lines into rendered rows with their back-mapping, as
/// `build_wrapped_lyrics_checked` does, for lyrics whose every line wraps.
pub fn build_wrapped_lyrics(
    lyrics_data: &StructuredLyrics,
    current_line_idx: usize,
    max_width: usize,
    selected_index: Option<usize>,
    show_selection_indicator: bool,
    hovered_line: Option<usize>,
) -> (r: (Vec<LyricRow>, Vec<usize>))
    requires
        lines_wrap(lyrics_data.line@, text_width(max_width)),
    ensures
        view_ok(r.0@, r.1@, *lyrics_data, current_line_idx, max_width, selected_index,
            show_selection_indicator, hovered_line),
{
    match build_wrapped_lyrics_checked(lyrics_data, current_line_idx, max_width, selected_index,
        show_selection_indicator, hovered_line) {
        Some(p) => p,
        None => (Vec::new(), Vec::new()),
    }
}

/// The back-mapping of the rendered rows: the line each row belongs to.
pub open spec fn back_mapping(lines: Seq<LyricLine>, w: usize) -> Seq<usize> {
    rendered_rows(lines, w).map_values(|e: (int, int, Seq<char>)| e.0 as usize)
}

/// The rows of a prefix of the lines are a prefix of the rows.
pub proof fn lemma_rendered_rows_prefix(lines: Seq<LyricLine>, w: usize, i: int)
    requires
        0 <= i <= lines.len(),
    ensures
        rendered_rows(lines.take(i), w).len() <= rendered_rows(lines, w).len(),
        forall|k: int| 0 <= k < rendered_rows(lines.take(i), w).len() ==>
            #[trigger] rendered_rows(lines.take(i), w)[k] == rendered_rows(lines, w)[k],
    decreases lines.len(),
{
    if i == lines.len() {
        assert(lines.take(i) =~= lines);
    } else {
        let d = lines.drop_last();
        assert(d.take(i) =~= lines.take(i));
        lemma_rendered_rows_prefix(d, w, i);
    }
}

/// The rows run through the lines in order: each row belongs to a line,
/// row numbers within a line count up from 0, and row `k` of line `i` comes
/// before every row of a later line.
pub proof fn lemma_rendered_rows_order(lines: Seq<LyricLine>, w: usize)
    ensures
        forall|k: int| 0 <= k < rendered_rows(lines, w).len() ==> {
            &&& 0 <= (#[trigger] rendered_rows(lines, w)[k]).0 < lines.len()
            &&& 0 <= rendered_rows(lines, w)[k].1 <= k
        },
        forall|k1: int, k2: int| 0 <= k1 <= k2 < rendered_rows(lines, w).len() ==>
            (#[trigger] rendered_rows(lines, w)[k1]).0 <= (#[trigger] rendered_rows(lines, w)[k2]).0,
    decreases lines.len(),
{
    if lines.len() > 0 {
        let d = lines.drop_last();
        lemma_rendered_rows_order(d, w);
        let prev = rendered_rows(d, w);
        let rr = rendered_rows(lines, w);
        assert forall|k: int| 0 <= k < rr.len() implies {
            &&& 0 <= (#[trigger] rr[k]).0 < lines.len()
            &&& 0 <= rr[k].1 <= k
        } by {
            if k < prev.len() {
                assert(rr[k] == prev[k]);
            }
        }
        assert forall|k1: int, k2: int| 0 <= k1 <= k2 < rr.len() implies (#[trigger] rr[k1]).0 <= (#[trigger] rr[k2]).0 by {
            if k2 < prev.len() {
                assert(rr[k1] == prev[k1]);
                assert(rr[k2] == prev[k2]);
            } else if k1 < prev.len() {
                assert(rr[k1] == prev[k1]);
            }
        }
    }
}

/// Every line owns at least one row: line `i` starts at the row after the
/// rows of the lines before it, as its row 0, showing its first wrapped row.
pub proof fn lemma_every_line_has_a_row(lines: Seq<LyricLine>, w: usize, i: int)
    requires
        lines_wrap(lines, w),
        0 <= i < lines.len(),
    ensures
        rendered_rows(lines.take(i), w).len() < rendered_rows(lines, w).len(),
        rendered_rows(lines, w)[rendered_rows(lines.take(i), w).len() as int]
            == (i, 0int, line_rows(lines[i], w)[0]),
{
    let t = lines.take(i + 1);
    assert(t.drop_last() =~= lines.take(i));
    assert(t.last() == lines[i]);
    assert(wrap_rows(display_text(lines[i].value@), w) is Some);
    lemma_wrap_rows_nonempty(display_text(lines[i].value@), w);
    lemma_rendered_rows_prefix(lines, w, i + 1);
    let n = rendered_rows(lines.take(i), w).len() as int;
    assert(rendered_rows(t, w)[n] == (i, 0int, line_rows(lines[i], w)[0]));
}

/// The rows' texts and the back-mapping depend on the lyrics and the width
/// alone: showing or hiding the selection marker (focus), moving the
/// selection, the playing line or the hovered line never reflows the view,
/// so a click maps to the same line whatever the focus.
pub proof fn lemma_no_reflow(
    rows1: Seq<LyricRow>,
    back1: Seq<usize>,
    rows2: Seq<LyricRow>,
    back2: Seq<usize>,
    data: StructuredLyrics,
    max_width: usize,
    current1: usize,
    selected1: Option<usize>,
    show1: bool,
    hovered1: Option<usize>,
    current2: usize,
    selected2: Option<usize>,
    show2: bool,
    hovered2: Option<usize>,
)
    requires
        view_ok(rows1, back1, data, current1, max_width, selected1, show1, hovered1),
        view_ok(rows2, back2, data, current2, max_width, selected2, show2, hovered2),
    ensures
        back1 == back2,
        back1 == back_mapping(data.line@, text_width(max_width)),
        rows1.len() == rows2.len(),
        forall|k: int| 0 <= k < rows1.len() ==> (#[trigger] rows1[k]).text@ == rows2[k].text@
            && rows1[k].line_index == rows2[k].line_index,
{
    let spec = rendered_rows(data.line@, text_width(max_width));
    assert forall|k: int| 0 <= k < rows1.len() implies (#[trigger] rows1[k]).text@ == rows2[k].text@
        && rows1[k].line_index == rows2[k].line_index by {
        assert(row_ok(rows1[k], back1[k], spec[k], data, current1, selected1, show1, hovered1));
        assert(row_ok(rows2[k], back2[k], spec[k], data, current2, selected2, show2, hovered2));
    }
    assert forall|k: int| 0 <= k < back1.len() implies #[trigger] back1[k] == back2[k] by {
        assert(row_ok(rows1[k], back1[k], spec[k], data, current1, selected1, show1, hovered1));
        assert(row_ok(rows2[k], back2[k], spec[k], data, current2, selected2, show2, hovered2));
    }
    assert(back1 =~= back2);
    assert forall|k: int| 0 <= k < back1.len() implies #[trigger] back1[k] == back_mapping(data.line@, text_width(max_width))[k] by {
        assert(row_ok(rows1[k], back1[k], spec[k], data, current1, selected1, show1, hovered1));
    }
    assert(back1 =~= back_mapping(data.line@, text_width(max_width)));
}

// ── Drawing and clicking ─────────────────────────────────────────────────

/// What the lyrics view's inner area shows.
#[derive(Debug, Clone, Copy, PartialEq, Eq, Structural)]
pub enum LyricsPanel {
    /// The area has no room.
    Nothing,
    /// "Loading lyrics..."
    Loading,
    /// "No lyrics available for this track."
    NoLyrics,
    /// The wrapped lyric rows.
    Lines,
}

/// What the view shows in `inner`: nothing without room, the loading note
/// while loading, a note when there are no lyrics or no lines, else the
/// lines.
pub open spec fn panel_spec(loading: bool, data: Option<StructuredLyrics>, inner: Rect) -> LyricsPanel {
    if inner.height == 0 || inner.width == 0 {
        LyricsPanel::Nothing
    } else if loading {
        LyricsPanel::Loading
    } else if line_count(data) == 0 {
        LyricsPanel::NoLyrics
    } else {
        LyricsPanel::Lines
    }
}

/// What the lyrics view shows in its inner area.
pub fn lyrics_panel(lyrics: &LyricsViewState, inner: Rect) -> (r: LyricsPanel)
    ensures
        r == panel_spec(lyrics.loading, lyrics.data, inner),
{
    if inner.height == 0 || inner.width == 0 {
        LyricsPanel::Nothing
    } else if lyrics.loading {
        LyricsPanel::Loading
    } else {
        let n = match &lyrics.data {
            Some(d) => d.line.len(),
            None => 0,
        };
        if n == 0 { LyricsPanel::NoLyrics } else { LyricsPanel::Lines }
    }
}

/// The width the rows wrap to in an inner area `width` columns wide: one
/// column is kept for the scrollbar.
pub open spec fn content_width(width: u16) -> usize {
    crate::geometry::sat_sub(width as int, 1) as usize
}

/// The width the rows wrap to in an inner area `width` columns wide.
pub fn lyrics_content_width(width: u16) -> (r: usize)
    ensures
        r == content_width(width),
{
    (width as usize).saturating_sub(1)
}

/// The line under the mouse at `(mx, my)` in a view whose inner area is
/// `inner`, scrolled by `scroll` rendered rows.
pub open spec fn hover_line(mouse: Option<(u16, u16)>, inner: Rect, scroll: usize, back: Seq<usize>) -> Option<usize> {
    match mouse {
        None => None,
        Some(m) => {
            if m.0 < inner.x || m.0 >= inner.x + inner.width || m.1 < inner.y || m.1 >= inner.y + inner.height {
                None
            } else {
                let row = scroll + (m.1 - inner.y);
                if row < back.len() { Some(back[row]) } else { None }
            }
        },
    }
}

/// The lyric line the mouse hovers over, through the back-mapping.
pub fn hovered_lyric_line(mouse: Option<(u16, u16)>, inner: Rect, scroll: usize, back_mapping: &[usize])
    -> (r: Option<usize>)
    requires
        inner.wf(),
        scroll + u16::MAX <= usize::MAX,
    ensures
        r == hover_line(mouse, inner, scroll, back_mapping@),
{
    match mouse {
        None => None,
        Some((mx, my)) => {
            if mx < inner.x || mx >= inner.x + inner.width {
                return None;
            }
            if my < inner.y || my >= inner.y + inner.height {
                return None;
            }
            let row = scroll + (my - inner.y) as usize;
            if row < back_mapping.len() {
                Some(back_mapping[row])
            } else {
                None
            }
        },
    }
}

/// The first index of `v` in `s`, if it occurs.
pub open spec fn first_index(s: Seq<usize>, v: usize) -> Option<int>
    decreases s.len(),
{
    if s.len() == 0 {
        None
    } else {
        match first_index(s.drop_last(), v) {
            Some(k) => Some(k),
            None => if s.last() == v { Some(s.len() - 1) } else { None },
        }
    }
}

/// `first_index` finds the first occurrence, and finds none only where
/// there is none.
pub proof fn lemma_first_index(s: Seq<usize>, v: usize)
    ensures
        first_index(s, v) is None <==> forall|k: int| 0 <= k < s.len() ==> s[k] != v,
        first_index(s, v) matches Some(k) ==> 0 <= k < s.len() && s[k] == v
            && forall|j: int| 0 <= j < k ==> s[j] != v,
    decreases s.len(),
{
    if s.len() > 0 {
        let d = s.drop_last();
        lemma_first_index(d, v);
        assert forall|k: int| 0 <= k < d.len() implies d[k] == s[k] by {}
    }
}

/// The first rendered row of line `line`, if it has one.
pub fn first_row_of_line(back_mapping: &[usize], line: usize) -> (r: Option<usize>)
    ensures
        r == (match first_index(back_mapping@, line) {
            Some(k) => Some(k as usize),
            None => None::<usize>,
        }),
{
    let mut i: usize = 0;
    assert(back_mapping@.take(0) =~= Seq::<usize>::empty());
    while i < back_mapping.len()
        invariant
            i <= back_mapping.len(),
            first_index(back_mapping@.take(i as int), line) is None,
        decreases back_mapping.len() - i,
    {
        assert(back_mapping@.take(i + 1).drop_last() =~= back_mapping@.take(i as int));
        if back_mapping[i] == line {
            proof {
                lemma_first_index_prefix(back_mapping@, line, i + 1);
            }
            return Some(i);
        }
        i = i + 1;
    }
    assert(back_mapping@.take(i as int) =~= back_mapping@);
    None
}

/// Where a prefix of `s` holds `v`, its first index is that of `s`.
pub proof fn lemma_first_index_prefix(s: Seq<usize>, v: usize, j: int)
    requires
        0 <= j <= s.len(),
        first_index(s.take(j), v) is Some,
    ensures
        first_index(s, v) == first_index(s.take(j), v),
    decreases s.len() - j,
{
    if j < s.len() {
        assert(s.take(j + 1).drop_last() =~= s.take(j));
        lemma_first_index_prefix(s, v, j + 1);
    } else {
        assert(s.take(j) =~= s);
    }
}

/// The row auto-follow scrolls to: half a viewport above the first row of
/// `focus` (row 0 if it has none), or the top.
pub open spec fn follow_row(back: Seq<usize>, focus: usize, visible_height: usize) -> int {
    let row = match first_index(back, focus) {
        Some(k) => k,
        None => 0,
    };
    crate::geometry::sat_sub(row, (visible_height / 2) as int)
}

/// Keeps the focus line in view while following playback: records the row
/// count and the viewport height, and, for synced lyrics the user has not
/// scrolled, scrolls so that the first row of the focus line (the selected
/// line, else the playing one) sits half a viewport from the top.
pub fn follow_playback(
    lyrics: &mut LyricsViewState,
    back_mapping: &[usize],
    inner_height: u16,
    synced: bool,
    current_line: usize,
)
    ensures
        final(lyrics).total_rows == back_mapping@.len(),
        final(lyrics).visible_height == inner_height as usize,
        final(lyrics).loading == old(lyrics).loading,
        final(lyrics).data == old(lyrics).data,
        final(lyrics).selected_index == old(lyrics).selected_index,
        final(lyrics).user_scrolled == old(lyrics).user_scrolled,
        final(lyrics).scroll_line == (if synced && !old(lyrics).user_scrolled {
            follow_row(back_mapping@, match old(lyrics).selected_index {
                Some(i) => i,
                None => current_line,
            }, inner_height as usize)
        } else {
            old(lyrics).scroll_line as int
        }),
{
    lyrics.total_rows = back_mapping.len();
    lyrics.visible_height = inner_height as usize;
    if synced && !lyrics.user_scrolled {
        let focus = match lyrics.selected_index {
            Some(i) => i,
            None => current_line,
        };
        proof {
            lemma_first_index(back_mapping@, focus);
        }
        let row = match first_row_of_line(back_mapping, focus) {
            Some(k) => k,
            None => 0,
        };
        lyrics.scroll_line = row.saturating_sub(lyrics.visible_height / 2);
    }
}

/// The inner area of the lyrics view inside its one-cell border, as the
/// click handler computes it.
pub open spec fn click_inner(area: Rect) -> Rect {
    Rect::spec_new(
        (area.x + 1) as u16,
        (area.y + 1) as u16,
        crate::geometry::sat_sub(area.width as int, 2) as u16,
        crate::geometry::sat_sub(area.height as int, 2) as u16,
    )
}

/// The lyric line a click at row `y` of the lyrics view in `area` lands on:
/// none without lyrics or room, or outside the rows.
pub open spec fn click_target(lyrics: LyricsViewState, area: Rect, y: u16) -> Option<usize> {
    match lyrics.data {
        None => None,
        Some(d) => {
            let inner = click_inner(area);
            if d.line@.len() == 0 || inner.height == 0 || inner.width == 0 {
                None
            } else {
                click_line(y, inner, lyrics.scroll_line,
                    back_mapping(d.line@, text_width(content_width(inner.width))))
            }
        },
    }
}

/// A click can be handled without a width count that
/// never finishes or an overflowing row number.
pub open spec fn click_fits(lyrics: LyricsViewState, area: Rect, y: u16) -> bool {
    &&& area.x < u16::MAX
    &&& area.y < u16::MAX
    &&& lyrics.data matches Some(d) ==> {
        let inner = click_inner(area);
        (d.line@.len() > 0 && inner.height > 0 && inner.width > 0 && inner.y <= y < inner.y + inner.height) ==> {
            &&& lines_wrap(d.line@, text_width(content_width(inner.width)))
            &&& lyrics.scroll_line + (y - inner.y) <= usize::MAX
        }
    }
}

/// A click at row `y` of the lyrics view in `area` (its outer rectangle,
/// border included) seeks to the start of the line clicked, as
/// `seek_to_line` does, and returns where to seek.
pub fn handle_mouse_click(lyrics: &mut LyricsViewState, area: Rect, y: u16) -> (r: Option<u64>)
    requires
        click_fits(*old(lyrics), area, y),
    ensures
        r == (match click_target(*old(lyrics), area, y) {
            Some(l) => seek_for(old(lyrics).data, l as int),
            None => None,
        }),
        r is None ==> *final(lyrics) == *old(lyrics),
        r is Some ==> {
            &&& final(lyrics).selected_index is None
            &&& !final(lyrics).user_scrolled
            &&& final(lyrics).data == old(lyrics).data
            &&& final(lyrics).loading == old(lyrics).loading
            &&& final(lyrics).scroll_line == old(lyrics).scroll_line
            &&& final(lyrics).visible_height == old(lyrics).visible_height
            &&& final(lyrics).total_rows == old(lyrics).total_rows
        },
{
    let target = match &lyrics.data {
        None => None,
        Some(d) => {
            let inner = Rect::new(
                area.x + 1,
                area.y + 1,
                area.width.saturating_sub(2),
                area.height.saturating_sub(2),
            );
            if d.line.len() == 0 || inner.height == 0 || inner.width == 0 {
                None
            } else if y < inner.y || y >= inner.y + inner.height {
                None
            } else {
                let max_width = lyrics_content_width(inner.width);
                let (rows, back) = build_wrapped_lyrics(d, 0, max_width, lyrics.selected_index, true, None);
                proof {
                    assert(back@ =~= back_mapping(d.line@, text_width(content_width(inner.width)))) by {
                        let spec = rendered_rows(d.line@, text_width(max_width));
                        assert forall|k: int| 0 <= k < back@.len() implies #[trigger] back@[k]
                            == back_mapping(d.line@, text_width(max_width))[k] by {
                            assert(row_ok(rows@[k], back@[k], spec[k], *d, 0, lyrics.selected_index, true, None));
                        }
                    }
                }
                sidebar_click_to_line_index(y, inner, lyrics.scroll_line, back.as_slice())
            }
        },
    };
    match target {
        Some(line_index) => seek_to_line(lyrics, line_index),
        None => None,
    }
}

} // verus!
