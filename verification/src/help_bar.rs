//! The help bar: the line of key hints at the bottom of the screen, and the
//! columns each hint answers clicks in.
use vstd::prelude::*;
use vstd::utf8::encode_utf8;

use crate::app_state::FocusedPanel;
use crate::keys::{
    library_help, logs_help, lyrics_help, queue_help, search_help, settings_help, settings_help_entries,
    Action, Direction, HelpContext, HelpEntry, SettingsEditMode,
};
use crate::routing::help_item_at;
use crate::text::push_str;

verus! {

/// A piece of the help-bar line: its text, and whether it is highlighted
/// (keys and the separator of a key pair).
pub struct HelpSpan {
    pub text: String,
    pub highlighted: bool,
}

/// An action's help label as values: its key and its description.
pub type LabelView = Option<(Seq<char>, Seq<char>)>;

/// The labels of one entry: its first action's, and for a pair its second
/// action's.
pub type EntryLabels = (Option<(String, String)>, Option<(String, String)>);

/// The labels as values.
pub open spec fn label_view(l: Option<(String, String)>) -> LabelView {
    match l {
        Some(p) => Some((p.0@, p.1@)),
        None => None,
    }
}

/// The UTF-8 byte length of `s`, the width the help bar counts.
pub open spec fn blen(s: Seq<char>) -> int {
    encode_utf8(s).len() as int
}

/// The description text after a key: a colon, the description, a space.
pub open spec fn described(d: Seq<char>) -> Seq<char> {
    seq![':'] + d + seq![' ']
}

/// The pieces, click targets and next column of one entry drawn from column
/// `x`. A single action (or one with its own description) is a highlighted
/// key and its description, clickable over both. A pair shows both keys
/// separated by a slash and then the pair's description, each key clickable
/// on its own; when only one of the pair has a label it is drawn as a single
/// entry with its own description. Actions without a label are left out.
pub open spec fn entry_step(e: HelpEntry, labels: (LabelView, LabelView), x: int)
    -> (Seq<(Seq<char>, bool)>, Seq<(int, int, Action)>, int) {
    match e {
        HelpEntry::Single(a) => match labels.0 {
            Some((k, d)) => {
                let w = blen(k) + blen(described(d));
                (seq![(k, true), (described(d), false)], seq![(x, x + w, a)], x + w)
            },
            None => (Seq::empty(), Seq::empty(), x),
        },
        HelpEntry::Custom(a, desc) => match labels.0 {
            Some((k, _)) => {
                let w = blen(k) + blen(described(desc@));
                (seq![(k, true), (described(desc@), false)], seq![(x, x + w, a)], x + w)
            },
            None => (Seq::empty(), Seq::empty(), x),
        },
        HelpEntry::Pair(a, b, desc) => match (labels.0, labels.1) {
            (Some((ka, _)), Some((kb, _))) => {
                let xb = x + blen(ka) + 1;
                (seq![(ka, true), (seq!['/'], true), (kb, true), (described(desc@), false)],
                    seq![(x, x + blen(ka), a), (xb, xb + blen(kb), b)],
                    xb + blen(kb) + blen(described(desc@)))
            },
            (Some((k, d)), None) => {
                let w = blen(k) + blen(described(d));
                (seq![(k, true), (described(d), false)], seq![(x, x + w, a)], x + w)
            },
            (None, Some((k, d))) => {
                let w = blen(k) + blen(described(d));
                (seq![(k, true), (described(d), false)], seq![(x, x + w, b)], x + w)
            },
            (None, None) => (Seq::empty(), Seq::empty(), x),
        },
    }
}

/// The help bar of the first `n` entries drawn into a bar starting at
/// column `x0`: a leading space, then each entry in turn.
pub open spec fn bar_prefix(entries: Seq<HelpEntry>, labels: Seq<(LabelView, LabelView)>, n: int, x0: int)
    -> (Seq<(Seq<char>, bool)>, Seq<(int, int, Action)>, int)
    decreases n,
{
    if n <= 0 {
        (seq![(seq![' '], false)], Seq::empty(), x0 + 1)
    } else {
        let p = bar_prefix(entries, labels, n - 1, x0);
        let st = entry_step(entries[n - 1], labels[n - 1], p.2);
        (p.0 + st.0, p.1 + st.1, st.2)
    }
}

/// The whole help bar of `entries` with their `labels` from column `x0`.
pub open spec fn bar_spec(entries: Seq<HelpEntry>, labels: Seq<(LabelView, LabelView)>, x0: int)
    -> (Seq<(Seq<char>, bool)>, Seq<(int, int, Action)>, int) {
    bar_prefix(entries, labels, entries.len() as int, x0)
}

/// The labels of each entry, as values.
pub open spec fn labels_view(labels: Seq<EntryLabels>) -> Seq<(LabelView, LabelView)> {
    labels.map_values(|l: EntryLabels| (label_view(l.0), label_view(l.1)))
}

/// The spans as values.
pub open spec fn spans_view(spans: Seq<HelpSpan>) -> Seq<(Seq<char>, bool)> {
    spans.map_values(|s: HelpSpan| (s.text@, s.highlighted))
}

/// The click targets as integers.
pub open spec fn items_view(items: Seq<(u16, u16, Action)>) -> Seq<(int, int, Action)> {
    items.map_values(|i: (u16, u16, Action)| (i.0 as int, i.1 as int, i.2))
}

/// The bar's columns only grow from entry to entry.
pub proof fn lemma_bar_prefix_grows(entries: Seq<HelpEntry>, labels: Seq<(LabelView, LabelView)>, m: int, n: int, x0: int)
    requires
        0 <= m <= n,
    ensures
        bar_prefix(entries, labels, m, x0).2 <= bar_prefix(entries, labels, n, x0).2,
        bar_prefix(entries, labels, m, x0).2 >= x0 + 1,
    decreases n,
{
    if n > m {
        lemma_bar_prefix_grows(entries, labels, m, n - 1, x0);
    }
    if m > 0 {
        lemma_bar_prefix_grows(entries, labels, 0, m - 1, x0);
    }
}

/// Click targets lie between columns `lo` and `hi`, each one's start before
/// its end, and each one ends before the next begins.
pub open spec fn ordered_items(items: Seq<(int, int, Action)>, lo: int, hi: int) -> bool {
    &&& forall|i: int| 0 <= i < items.len() ==> lo <= (#[trigger] items[i]).0 <= items[i].1 <= hi
    &&& forall|i: int, j: int| 0 <= i < j < items.len() ==> (#[trigger] items[i]).1 <= (#[trigger] items[j]).0
}

/// The click targets of the bar come in order, without overlap, inside the
/// bar's columns.
pub proof fn lemma_bar_items_ordered(entries: Seq<HelpEntry>, labels: Seq<(LabelView, LabelView)>, n: int, x0: int)
    ensures
        ordered_items(bar_prefix(entries, labels, n, x0).1, x0 + 1, bar_prefix(entries, labels, n, x0).2),
    decreases n,
{
    if n > 0 {
        lemma_bar_items_ordered(entries, labels, n - 1, x0);
        let p = bar_prefix(entries, labels, n - 1, x0);
        let st = entry_step(entries[n - 1], labels[n - 1], p.2);
        let all = p.1 + st.1;
        lemma_bar_prefix_grows(entries, labels, n - 1, n - 1, x0);
        assert(forall|i: int| 0 <= i < st.1.len() ==> p.2 <= (#[trigger] st.1[i]).0 <= st.1[i].1 <= st.2);
        assert(forall|i: int, j: int| 0 <= i < j < st.1.len() ==> (#[trigger] st.1[i]).1 <= (#[trigger] st.1[j]).0);
        assert forall|i: int, j: int| 0 <= i < j < all.len() implies (#[trigger] all[i]).1 <= (#[trigger] all[j]).0 by {
            if j < p.1.len() {
            } else if i < p.1.len() {
                assert(all[j] == st.1[j - p.1.len()]);
            } else {
                assert(all[i] == st.1[i - p.1.len()]);
                assert(all[j] == st.1[j - p.1.len()]);
            }
        }
        assert forall|i: int| 0 <= i < all.len() implies x0 + 1 <= (#[trigger] all[i]).0 <= all[i].1 <= st.2 by {
            if i >= p.1.len() {
                assert(all[i] == st.1[i - p.1.len()]);
            }
        }
    }
}

/// A click inside a target of ordered targets finds that target.
pub proof fn lemma_click_finds_target(items: Seq<(u16, u16, Action)>, lo: int, hi: int, k: int, x: u16)
    requires
        ordered_items(items_view(items), lo, hi),
        0 <= k < items.len(),
        items[k].0 <= x < items[k].1,
    ensures
        help_item_at(items, x) == Some(items[k].2),
    decreases items.len(),
{
    let v = items_view(items);
    assert(v[0] == (items[0].0 as int, items[0].1 as int, items[0].2));
    if k > 0 {
        assert(v[k] == (items[k].0 as int, items[k].1 as int, items[k].2));
        assert(!(items[0].0 <= x < items[0].1));
        let rest = items.drop_first();
        assert(items_view(rest) =~= v.drop_first());
        lemma_click_finds_target(rest, lo, hi, k - 1, x);
    }
}

/// Each help-bar target answers clicks in its columns: a click in the
/// columns of the bar's `k`-th target runs that target's action.
pub proof fn lemma_help_bar_clicks_hit_their_target(entries: Seq<HelpEntry>, labels: Seq<(LabelView, LabelView)>,
    x0: u16, items: Seq<(u16, u16, Action)>, k: int, x: u16)
    requires
        items_view(items) == bar_spec(entries, labels, x0 as int).1,
        0 <= k < items.len(),
        items[k].0 <= x < items[k].1,
    ensures
        help_item_at(items, x) == Some(items[k].2),
{
    lemma_bar_items_ordered(entries, labels, entries.len() as int, x0 as int);
    lemma_click_finds_target(items, x0 + 1, bar_spec(entries, labels, x0 as int).2, k, x);
}

/// A character takes one to four bytes, so a text takes at least as many
/// bytes as characters and at most four times as many.
pub proof fn lemma_blen_bounds(s: Seq<char>)
    ensures
        s.len() <= blen(s) <= 4 * s.len(),
    decreases s.len(),
{
    if s.len() > 0 {
        lemma_blen_bounds(s.drop_first());
        assert(encode_utf8(s) == vstd::utf8::encode_scalar(s[0] as u32) + encode_utf8(s.drop_first()));
    }
}

/// The byte length of `s` if it is at most `limit` (itself at most
/// 65535), else `None`.
fn byte_len_upto(s: &str, limit: u64) -> (r: Option<u64>)
    requires
        limit <= 65535,
    ensures
        r matches Some(n) ==> n == blen(s@) && n <= limit,
        r is None ==> blen(s@) > limit,
{
    let chars = crate::text::chars_of(s).len() as u64;
    proof {
        lemma_blen_bounds(s@);
    }
    if chars > limit {
        return None;
    }
    let n = s.len() as u64;
    if n > limit { None } else { Some(n) }
}

/// `:` + `d` + ` ` as a string.
fn describe(d: &str) -> (r: String)
    ensures
        r@ == described(d@),
{
    let mut r = String::new();
    push_str(&mut r, ":");
    push_str(&mut r, d);
    push_str(&mut r, " ");
    proof {
        reveal_strlit(":");
        reveal_strlit(" ");
    }
    assert(r@ =~= described(d@));
    r
}

/// A span of `text`.
fn span(text: String, highlighted: bool) -> (s: HelpSpan)
    ensures
        s.text@ == text@,
        s.highlighted == highlighted,
{
    HelpSpan { text, highlighted }
}

/// Lays out the help bar from column `x0`: the spans of the line and the
/// columns `[start, end)` each action answers clicks in, given the labels
/// of each entry (see [`bar_spec`]).
pub fn help_bar_layout(entries: &Vec<HelpEntry>, labels: &Vec<EntryLabels>, x0: u16)
    -> (r: (Vec<HelpSpan>, Vec<(u16, u16, Action)>))
    requires
        labels@.len() == entries@.len(),
        bar_spec(entries@, labels_view(labels@), x0 as int).2 <= u16::MAX,
    ensures
        spans_view(r.0@) == bar_spec(entries@, labels_view(labels@), x0 as int).0,
        items_view(r.1@) == bar_spec(entries@, labels_view(labels@), x0 as int).1,
{
    let ghost lv = labels_view(labels@);
    let ghost total = bar_spec(entries@, lv, x0 as int).2;
    let mut spans: Vec<HelpSpan> = Vec::new();
    let mut items: Vec<(u16, u16, Action)> = Vec::new();
    let lead = String::from_str(" ");
    proof {
        reveal_strlit(" ");
        assert(lead@ =~= seq![' ']);
    }
    spans.push(span(lead, false));
    proof {
        lemma_bar_prefix_grows(entries@, lv, 0, entries@.len() as int, x0 as int);
    }
    assert(spans_view(spans@) =~~= bar_prefix(entries@, lv, 0, x0 as int).0);
    assert(items_view(items@) =~= bar_prefix(entries@, lv, 0, x0 as int).1);
    let mut x: u32 = x0 as u32 + 1;
    let mut i: usize = 0;
    while i < entries.len()
        invariant
            i <= entries.len(),
            labels@.len() == entries@.len(),
            lv == labels_view(labels@),
            total == bar_spec(entries@, lv, x0 as int).2,
            total <= u16::MAX,
            x == bar_prefix(entries@, lv, i as int, x0 as int).2,
            spans_view(spans@) == bar_prefix(entries@, lv, i as int, x0 as int).0,
            items_view(items@) == bar_prefix(entries@, lv, i as int, x0 as int).1,
        decreases entries.len() - i,
    {
        proof {
            lemma_bar_prefix_grows(entries@, lv, i + 1, entries@.len() as int, x0 as int);
        }
        let ghost step = entry_step(entries@[i as int], lv[i as int], x as int);
        let ghost sv0 = spans_view(spans@);
        let ghost iv0 = items_view(items@);
        let (la, lb) = (&labels[i].0, &labels[i].1);
        assert(lv[i as int] == (label_view(*la), label_view(*lb)));
        match entries[i] {
            HelpEntry::Single(a) => {
                if let Some((k, d)) = la {
                    let dd = describe(d.as_str());
                    let w = k.as_str().len() as u32 + dd.as_str().len() as u32;
                    items.push((x as u16, (x + w) as u16, a));
                    spans.push(span(k.clone(), true));
                    spans.push(span(dd, false));
                    x = x + w;
                }
            },
            HelpEntry::Custom(a, desc) => {
                if let Some((k, _)) = la {
                    let dd = describe(desc);
                    let w = k.as_str().len() as u32 + dd.as_str().len() as u32;
                    items.push((x as u16, (x + w) as u16, a));
                    spans.push(span(k.clone(), true));
                    spans.push(span(dd, false));
                    x = x + w;
                }
            },
            HelpEntry::Pair(a, b, desc) => {
                match (la, lb) {
                    (Some((ka, _)), Some((kb, _))) => {
                        let dd = describe(desc);
                        let wa = ka.as_str().len() as u32;
                        let wb = kb.as_str().len() as u32;
                        items.push((x as u16, (x + wa) as u16, a));
                        items.push(((x + wa + 1) as u16, (x + wa + 1 + wb) as u16, b));
                        let dlen = dd.as_str().len() as u32;
                        spans.push(span(ka.clone(), true));
                        let slash = String::from_str("/");
                        proof {
                            reveal_strlit("/");
                            assert(slash@ =~= seq!['/']);
                        }
                        spans.push(span(slash, true));
                        spans.push(span(kb.clone(), true));
                        spans.push(span(dd, false));
                        x = x + wa + 1 + wb + dlen;
                    },
                    (Some((k, d)), None) => {
                        let dd = describe(d.as_str());
                        let w = k.as_str().len() as u32 + dd.as_str().len() as u32;
                        items.push((x as u16, (x + w) as u16, a));
                        spans.push(span(k.clone(), true));
                        spans.push(span(dd, false));
                        x = x + w;
                    },
                    (None, Some((k, d))) => {
                        let dd = describe(d.as_str());
                        let w = k.as_str().len() as u32 + dd.as_str().len() as u32;
                        items.push((x as u16, (x + w) as u16, b));
                        spans.push(span(k.clone(), true));
                        spans.push(span(dd, false));
                        x = x + w;
                    },
                    (None, None) => {},
                }
            },
        }
        assert(spans_view(spans@) =~~= sv0 + step.0);
        assert(items_view(items@) =~= iv0 + step.1);
        i = i + 1;
    }
    (spans, items)
}

/// Whether the help bar of `entries` with `labels`, drawn from column
/// `x0`, ends within the coordinate space.
pub fn bar_fits(entries: &Vec<HelpEntry>, labels: &Vec<EntryLabels>, x0: u16) -> (b: bool)
    requires
        labels@.len() == entries@.len(),
    ensures
        b == (bar_spec(entries@, labels_view(labels@), x0 as int).2 <= u16::MAX),
{
    let ghost lv = labels_view(labels@);
    proof {
        lemma_bar_prefix_grows(entries@, lv, 0, entries@.len() as int, x0 as int);
    }
    if x0 == u16::MAX {
        return false;
    }
    let mut x: u64 = x0 as u64 + 1;
    let mut i: usize = 0;
    while i < entries.len()
        invariant
            i <= entries.len(),
            labels@.len() == entries@.len(),
            lv == labels_view(labels@),
            x == bar_prefix(entries@, lv, i as int, x0 as int).2,
            x <= u16::MAX,
        decreases entries.len() - i,
    {
        proof {
            lemma_bar_prefix_grows(entries@, lv, i + 1, entries@.len() as int, x0 as int);
        }
        let ghost step = entry_step(entries@[i as int], lv[i as int], x as int);
        let (la, lb) = (&labels[i].0, &labels[i].1);
        assert(lv[i as int] == (label_view(*la), label_view(*lb)));
        let limit: u64 = 65535;
        let next: u64 = match entries[i] {
            HelpEntry::Single(_) => match la {
                Some((k, d)) => {
                    let (kl, dl) = match (byte_len_upto(k.as_str(), limit), byte_len_upto(describe(d.as_str()).as_str(), limit)) {
                        (Some(kl), Some(dl)) => (kl, dl),
                        _ => return false,
                    };
                    x + kl + dl
                },
                None => x,
            },
            HelpEntry::Custom(_, desc) => match la {
                Some((k, _)) => {
                    let (kl, dl) = match (byte_len_upto(k.as_str(), limit), byte_len_upto(describe(desc).as_str(), limit)) {
                        (Some(kl), Some(dl)) => (kl, dl),
                        _ => return false,
                    };
                    x + kl + dl
                },
                None => x,
            },
            HelpEntry::Pair(_, _, desc) => match (la, lb) {
                (Some((ka, _)), Some((kb, _))) => {
                    let (wa, wb, dl) = match (byte_len_upto(ka.as_str(), limit), byte_len_upto(kb.as_str(), limit),
                        byte_len_upto(describe(desc).as_str(), limit)) {
                        (Some(wa), Some(wb), Some(dl)) => (wa, wb, dl),
                        _ => return false,
                    };
                    x + wa + 1 + wb + dl
                },
                (Some((k, d)), None) => {
                    let (kl, dl) = match (byte_len_upto(k.as_str(), limit), byte_len_upto(describe(d.as_str()).as_str(), limit)) {
                        (Some(kl), Some(dl)) => (kl, dl),
                        _ => return false,
                    };
                    x + kl + dl
                },
                (None, Some((k, d))) => {
                    let (kl, dl) = match (byte_len_upto(k.as_str(), limit), byte_len_upto(describe(d.as_str()).as_str(), limit)) {
                        (Some(kl), Some(dl)) => (kl, dl),
                        _ => return false,
                    };
                    x + kl + dl
                },
                (None, None) => x,
            },
        };
        assert(next == step.2);
        if next > limit {
            return false;
        }
        x = next;
        i = i + 1;
    }
    true
}

/// The help bar of `entries` with `labels` from column `x0`, or `None` when
/// it would run past the coordinate space.
pub fn help_bar(entries: &Vec<HelpEntry>, labels: &Vec<EntryLabels>, x0: u16)
    -> (r: Option<(Vec<HelpSpan>, Vec<(u16, u16, Action)>)>)
    requires
        labels@.len() == entries@.len(),
    ensures
        r is Some <==> bar_spec(entries@, labels_view(labels@), x0 as int).2 <= u16::MAX,
        r matches Some(p) ==> spans_view(p.0@) == bar_spec(entries@, labels_view(labels@), x0 as int).0
            && items_view(p.1@) == bar_spec(entries@, labels_view(labels@), x0 as int).1,
{
    if bar_fits(entries, labels, x0) {
        Some(help_bar_layout(entries, labels, x0))
    } else {
        None
    }
}

/// The labels of an entry are its actions' help labels: the first action's,
/// and for a pair the second's (none otherwise).
pub open spec fn entry_labels_ok(e: HelpEntry, l: EntryLabels, ctx: HelpContext) -> bool {
    let (a, second) = match e {
        HelpEntry::Single(a) => (a, None::<Action>),
        HelpEntry::Custom(a, _) => (a, None::<Action>),
        HelpEntry::Pair(a, b, _) => (a, Some(b)),
    };
    &&& crate::keys::help_label_ok(a, ctx, l.0)
    &&& match second {
        Some(b) => crate::keys::help_label_ok(b, ctx, l.1),
        None => l.1 is None,
    }
}

/// The help labels of each entry.
pub fn entry_labels(entries: &Vec<HelpEntry>, ctx: &HelpContext) -> (r: Vec<EntryLabels>)
    ensures
        r@.len() == entries@.len(),
        forall|i: int| 0 <= i < r@.len() ==> entry_labels_ok(entries@[i], #[trigger] r@[i], *ctx),
{
    let mut r: Vec<EntryLabels> = Vec::new();
    let mut i: usize = 0;
    while i < entries.len()
        invariant
            i <= entries.len(),
            r@.len() == i,
            forall|k: int| 0 <= k < i ==> entry_labels_ok(entries@[k], #[trigger] r@[k], *ctx),
        decreases entries.len() - i,
    {
        let l: EntryLabels = match entries[i] {
            HelpEntry::Single(a) => (a.help_label(ctx), None),
            HelpEntry::Custom(a, _) => (a.help_label(ctx), None),
            HelpEntry::Pair(a, b, _) => (a.help_label(ctx), b.help_label(ctx)),
        };
        r.push(l);
        i = i + 1;
    }
    r
}

/// The entries the help bar shows with `focused_panel` focused (the
/// settings entries depend on what the panel is editing).
pub open spec fn help_entries_spec(focused_panel: FocusedPanel, mode: SettingsEditMode) -> Seq<HelpEntry> {
    match focused_panel {
        FocusedPanel::Library => seq![
            HelpEntry::Single(Action::Quit),
            HelpEntry::Single(Action::PlayPause),
            HelpEntry::Pair(Action::Next, Action::Previous, "next/prev"),
            HelpEntry::Pair(Action::NextGroup, Action::PreviousGroup, "next/prev group"),
            HelpEntry::Single(Action::Stop),
            HelpEntry::Pair(Action::SeekBackward, Action::SeekForward, "seek-/+"),
            HelpEntry::Single(Action::Star),
            HelpEntry::Single(Action::GotoPlaying),
            HelpEntry::Single(Action::Search),
            HelpEntry::Single(Action::Lyrics),
            HelpEntry::Single(Action::ToggleSidebar),
            HelpEntry::Single(Action::Queue),
            HelpEntry::Single(Action::VolumeMode),
            HelpEntry::Single(Action::Select),
            HelpEntry::Single(Action::CyclePlaybackMode(Direction::Forward)),
            HelpEntry::Single(Action::ToggleSortOrder(Direction::Forward)),
            HelpEntry::Single(Action::Settings)
        ],
        FocusedPanel::Search => seq![
            HelpEntry::Single(Action::Back),
            HelpEntry::Single(Action::Select),
            HelpEntry::Single(Action::GotoSelected),
            HelpEntry::Pair(Action::MoveUp, Action::MoveDown, "up/down")
        ],
        FocusedPanel::Lyrics => seq![
            HelpEntry::Single(Action::Back),
            HelpEntry::Single(Action::ToggleSidebar),
            HelpEntry::Pair(Action::MoveUp, Action::MoveDown, "up/down"),
            HelpEntry::Single(Action::Select),
            HelpEntry::Pair(Action::SeekBackward, Action::SeekForward, "seek-/+"),
            HelpEntry::Single(Action::PlayPause),
            HelpEntry::Pair(Action::Next, Action::Previous, "next/prev"),
            HelpEntry::Pair(Action::NextGroup, Action::PreviousGroup, "next/prev group")
        ],
        FocusedPanel::Logs => seq![
            HelpEntry::Single(Action::Back),
            HelpEntry::Pair(Action::MoveUp, Action::MoveDown, "up/down")
        ],
        FocusedPanel::Queue => seq![
            HelpEntry::Single(Action::Back),
            HelpEntry::Pair(Action::MoveUp, Action::MoveDown, "up/down"),
            HelpEntry::Single(Action::Select),
            HelpEntry::Single(Action::PlayPause),
            HelpEntry::Pair(Action::Next, Action::Previous, "next/prev"),
            HelpEntry::Pair(Action::NextGroup, Action::PreviousGroup, "next/prev group"),
            HelpEntry::Single(Action::CyclePlaybackMode(Direction::Forward))
        ],
        FocusedPanel::Settings => settings_help_entries(mode),
    }
}

/// The entries the help bar shows with `focused_panel` focused.
pub fn help_entries(focused_panel: FocusedPanel, mode: SettingsEditMode) -> (v: Vec<HelpEntry>)
    ensures
        v@ == help_entries_spec(focused_panel, mode),
{
    match focused_panel {
        FocusedPanel::Library => library_help(),
        FocusedPanel::Search => search_help(),
        FocusedPanel::Lyrics => lyrics_help(),
        FocusedPanel::Logs => logs_help(),
        FocusedPanel::Queue => queue_help(),
        FocusedPanel::Settings => settings_help(mode),
    }
}

} // verus!
