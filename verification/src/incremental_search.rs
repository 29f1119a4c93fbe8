//! Type-ahead search in the library: typing while the search is active
//! narrows to the tracks matching the query, the arrows step through the
//! matches, Enter plays the match, and the query clears itself after a
//! pause.
use vstd::prelude::*;

use crate::text::{chars_of, push_char, without_last_char};

verus! {

/// The type-ahead search: the query, when it was last typed into (in
/// milliseconds on the caller's clock), the selected match, and whether
/// the search is active.
pub struct IncrementalSearchState {
    pub query: String,
    pub last_input_ms: Option<u64>,
    pub result_index: usize,
    pub active: bool,
}

impl IncrementalSearchState {
    /// No query, inactive.
    pub fn new() -> (r: Self)
        ensures
            r.query@.len() == 0,
            r.last_input_ms is None,
            r.result_index == 0,
            !r.active,
    {
        IncrementalSearchState { query: String::new(), last_input_ms: None, result_index: 0, active: false }
    }
}

/// The keyboard input of one frame: the texts typed, and which of
/// Backspace, Down, Up, Escape and Enter were pressed.
pub struct FrameInput {
    pub texts: Vec<String>,
    pub backspace: bool,
    pub down: bool,
    pub up: bool,
    pub escape: bool,
    pub enter: bool,
}

/// Whether the pause since the last input is longer than `timeout_ms`.
pub open spec fn expired(state_last: Option<u64>, now_ms: u64, timeout_ms: u64) -> bool {
    match state_last {
        Some(t) => now_ms - t > timeout_ms,
        None => false,
    }
}

/// Clears the query and deactivates the search once the pause since the
/// last input exceeds `timeout_ms`.
pub fn expire(state: &mut IncrementalSearchState, now_ms: u64, timeout_ms: u64)
    ensures
        expired(old(state).last_input_ms, now_ms, timeout_ms) ==> final(state).query@.len() == 0
            && final(state).last_input_ms is None && !final(state).active
            && final(state).result_index == old(state).result_index,
        !expired(old(state).last_input_ms, now_ms, timeout_ms) ==> *final(state) == *old(state),
{
    if let Some(t) = state.last_input_ms {
        if now_ms.saturating_sub(t) > timeout_ms {
            state.query = String::new();
            state.last_input_ms = None;
            state.active = false;
        }
    }
}

/// The selected match, once moved back onto the last of `results` matches
/// if it ran past them (kept as it is when there are none).
pub open spec fn clamped_index(index: usize, results: usize) -> usize {
    if index >= results && results > 0 { (results - 1) as usize } else { index }
}

/// A typed text that goes into the query: a single printable ASCII
/// character other than `/` (which opens the search).
pub open spec fn typed_char(t: Seq<char>) -> bool {
    t.len() == 1 && (t[0] as u32) < 0x80 && (t[0] as u32) >= 0x20 && t[0] != '\u{7f}' && t[0] != '/'
}

/// The query after the typed texts: the accepted ones appended in order.
pub open spec fn typed_query(query: Seq<char>, texts: Seq<Seq<char>>) -> Seq<char>
    decreases texts.len(),
{
    if texts.len() == 0 {
        query
    } else {
        let q = typed_query(query, texts.drop_last());
        if typed_char(texts.last()) { q + texts.last() } else { q }
    }
}

/// Some typed text went into the query.
pub open spec fn any_typed(texts: Seq<Seq<char>>) -> bool {
    exists|i: int| 0 <= i < texts.len() && typed_char(#[trigger] texts[i])
}

/// The texts as values.
pub open spec fn texts_view(texts: Seq<String>) -> Seq<Seq<char>> {
    texts.map_values(|t: String| t@)
}

/// The state after one frame's input, with `results` matches for the query
/// as it stood when the frame began, at time `now_ms`, and the match that
/// Enter plays (`None` without Enter or without a match). The typed texts
/// go into the query; Backspace deletes the last character, or deactivates
/// the search when the query is empty; a changed query selects the first
/// match; the arrows step through the matches; Escape, and Enter after it
/// plays the selected match, clear and deactivate the search. Every edit
/// and step records the input time.
pub open spec fn frame_spec(q0: Seq<char>, last0: Option<u64>, idx0: usize, active0: bool, texts: Seq<Seq<char>>,
    input: FrameInput, results: usize, now_ms: u64) -> (Seq<char>, Option<u64>, usize, bool, Option<usize>) {
    let matched = if idx0 < results { Some(idx0) } else { None::<usize> };
    let typed = any_typed(texts);
    let q1 = typed_query(q0, texts);
    let last1 = if typed { Some(now_ms) } else { last0 };
    let back_edits = input.backspace && q1.len() > 0;
    let q2 = if back_edits { q1.drop_last() } else { q1 };
    let last2 = if back_edits { Some(now_ms) } else { last1 };
    let active2 = if input.backspace && q1.len() == 0 { false } else { active0 };
    let idx2 = if typed || back_edits { 0 } else { idx0 };
    let idx3 = if results > 0 && input.down { if idx2 + 1 <= results - 1 { (idx2 + 1) as usize } else { (results - 1) as usize } } else { idx2 };
    let last3 = if results > 0 && input.down { Some(now_ms) } else { last2 };
    let idx4 = if results > 0 && input.up { if idx3 >= 1 { (idx3 - 1) as usize } else { 0 } } else { idx3 };
    let last4 = if results > 0 && input.up { Some(now_ms) } else { last3 };
    if input.enter {
        (Seq::empty(), None, 0, false, matched)
    } else if input.escape {
        (Seq::empty(), None, 0, false, None)
    } else {
        (q2, last4, idx4, active2, None)
    }
}

/// Whether `t` is a text that goes into the query.
fn is_typed_char(t: &String) -> (b: bool)
    ensures
        b == typed_char(t@),
{
    let v = chars_of(t.as_str());
    if v.len() != 1 {
        return false;
    }
    let c = v[0];
    (c as u32) < 0x80 && (c as u32) >= 0x20 && c != '\u{7f}' && c != '/'
}

/// Handles a frame of the type-ahead search. First the selected match is
/// moved back onto the last of the `results` matches for the current query
/// if it ran past them; then, when `input` is given (the search is active
/// and may take input), the frame's input is applied as
/// [`frame_spec`] says. Returns the match to play, if any.
pub fn handle_frame(state: &mut IncrementalSearchState, input: Option<&FrameInput>, results: usize, now_ms: u64)
    -> (play: Option<usize>)
    requires
        old(state).result_index < usize::MAX,
    ensures
        ({
            let idx0 = clamped_index(old(state).result_index, results);
            match input {
                None => final(state).query@ == old(state).query@ && final(state).last_input_ms == old(state).last_input_ms
                    && final(state).result_index == idx0 && final(state).active == old(state).active && play is None,
                Some(inp) => {
                    let r = frame_spec(old(state).query@, old(state).last_input_ms, idx0, old(state).active,
                        texts_view(inp.texts@), *inp, results, now_ms);
                    &&& final(state).query@ == r.0
                    &&& final(state).last_input_ms == r.1
                    &&& final(state).result_index == r.2
                    &&& final(state).active == r.3
                    &&& play == r.4
                },
            }
        }),
{
    if state.result_index >= results && results > 0 {
        state.result_index = results - 1;
    }
    let matched = if state.result_index < results { Some(state.result_index) } else { None };
    let inp = match input {
        Some(i) => i,
        None => return None,
    };
    let ghost q0 = state.query@;
    let ghost idx0 = state.result_index;
    let ghost last0 = state.last_input_ms;
    let ghost active0 = state.active;
    let ghost texts = texts_view(inp.texts@);
    let mut typed = false;
    let mut i: usize = 0;
    assert(inp.texts@.take(0).map_values(|t: String| t@) =~= Seq::<Seq<char>>::empty());
    while i < inp.texts.len()
        invariant
            i <= inp.texts.len(),
            texts == texts_view(inp.texts@),
            state.query@ == typed_query(q0, texts.take(i as int)),
            typed == any_typed(texts.take(i as int)),
            state.result_index == idx0,
            state.last_input_ms == last0,
            state.active == active0,
            idx0 == clamped_index(old(state).result_index, results),
            last0 == old(state).last_input_ms,
            active0 == old(state).active,
            q0 == old(state).query@,
            matched == (if idx0 < results { Some(idx0) } else { None::<usize> }),
        decreases inp.texts.len() - i,
    {
        let ghost t = texts.take(i + 1);
        assert(t.drop_last() =~= texts.take(i as int));
        assert(t.last() == inp.texts@[i as int]@);
        if is_typed_char(&inp.texts[i]) {
            let v = chars_of(inp.texts[i].as_str());
            push_char(&mut state.query, v[0]);
            assert(v@ =~= seq![v@[0]]);
            typed = true;
            assert(typed_char(t[i as int]));
        } else {
            assert(any_typed(t) == any_typed(texts.take(i as int))) by {
                if any_typed(t) {
                    let k = choose|k: int| 0 <= k < t.len() && typed_char(#[trigger] t[k]);
                    assert(k < i);
                    assert(texts.take(i as int)[k] == t[k]);
                }
            }
        }
        proof {
            if any_typed(texts.take(i as int)) {
                let k = choose|k: int| 0 <= k < i && typed_char(#[trigger] texts.take(i as int)[k]);
                assert(t[k] == texts.take(i as int)[k]);
            }
        }
        i = i + 1;
    }
    assert(texts.take(inp.texts.len() as int) =~= texts);
    if typed {
        state.last_input_ms = Some(now_ms);
    }
    let mut changed = typed;
    if inp.backspace {
        if state.query.as_str().unicode_len() > 0 {
            state.query = without_last_char(&state.query);
            state.last_input_ms = Some(now_ms);
            changed = true;
        } else {
            state.active = false;
        }
    }
    if changed {
        state.result_index = 0;
    }
    if results > 0 {
        if inp.down {
            state.result_index = if state.result_index + 1 <= results - 1 { state.result_index + 1 } else { results - 1 };
            state.last_input_ms = Some(now_ms);
        }
        if inp.up {
            state.result_index = if state.result_index >= 1 { state.result_index - 1 } else { 0 };
            state.last_input_ms = Some(now_ms);
        }
    }
    let mut play = None;
    if inp.escape {
        state.query = String::new();
        state.last_input_ms = None;
        state.result_index = 0;
        state.active = false;
    }
    if inp.enter {
        play = matched;
        state.query = String::new();
        state.last_input_ms = None;
        state.result_index = 0;
        state.active = false;
    }
    play
}

} // verus!
