//! The in-memory log the logs panel shows: the most recent entries, oldest
//! first, at most `MAX_LOG_ENTRIES` of them.
use vstd::prelude::*;

verus! {

/// Maximum number of log entries to keep in the buffer.
pub const MAX_LOG_ENTRIES: usize = 1000;

/// The severity of a log entry.
#[derive(Debug, Clone, Copy, PartialEq, Eq, Structural)]
pub enum LogLevel {
    Trace,
    Debug,
    Info,
    Warn,
    Error,
}

/// A log entry with level, target, and message.
pub struct LogEntry {
    pub level: LogLevel,
    pub target: String,
    pub message: String,
}

/// What an entry holds, as a value.
pub open spec fn entry_view(e: LogEntry) -> (LogLevel, Seq<char>, Seq<char>) {
    (e.level, e.target@, e.message@)
}

/// What a sequence of entries holds.
pub open spec fn entries_view(v: Seq<LogEntry>) -> Seq<(LogLevel, Seq<char>, Seq<char>)> {
    v.map_values(|e: LogEntry| entry_view(e))
}

impl LogEntry {
    /// A copy of the entry.
    pub fn copy(&self) -> (r: LogEntry)
        ensures
            entry_view(r) == entry_view(*self),
    {
        LogEntry { level: self.level, target: self.target.clone(), message: self.message.clone() }
    }
}

/// The log buffer: the retained entries, oldest first.
pub struct LogBuffer {
    entries: Vec<LogEntry>,
}

/// The entries kept after adding `e` to `old`: all of them, without the
/// oldest once there are more than `MAX_LOG_ENTRIES`.
pub open spec fn after_push(
    old: Seq<(LogLevel, Seq<char>, Seq<char>)>,
    e: (LogLevel, Seq<char>, Seq<char>),
) -> Seq<(LogLevel, Seq<char>, Seq<char>)> {
    if old.len() >= MAX_LOG_ENTRIES { old.drop_first().push(e) } else { old.push(e) }
}

impl LogBuffer {
    /// The retained entries, oldest first.
    pub closed spec fn view(&self) -> Seq<(LogLevel, Seq<char>, Seq<char>)> {
        entries_view(self.entries@)
    }

    /// The buffer never holds more than `MAX_LOG_ENTRIES` entries.
    pub closed spec fn wf(&self) -> bool {
        self.entries@.len() <= MAX_LOG_ENTRIES
    }

    /// An empty buffer.
    pub fn new() -> (r: Self)
        ensures
            r.view() == Seq::<(LogLevel, Seq<char>, Seq<char>)>::empty(),
            r.wf(),
    {
        let r = LogBuffer { entries: Vec::new() };
        assert(r.view() =~= Seq::<(LogLevel, Seq<char>, Seq<char>)>::empty());
        r
    }

    /// Push a new log entry, evicting the oldest entry if the buffer is
    /// full.
    pub fn push(&mut self, entry: LogEntry)
        requires
            old(self).wf(),
        ensures
            final(self).wf(),
            final(self).view() == after_push(old(self).view(), entry_view(entry)),
    {
        let ghost before = self.view();
        let ghost ev = entry_view(entry);
        if self.entries.len() >= MAX_LOG_ENTRIES {
            self.entries.remove(0);
            assert(entries_view(self.entries@) =~= before.drop_first());
        }
        let ghost mid = entries_view(self.entries@);
        self.entries.push(entry);
        assert(entries_view(self.entries@) =~= mid.push(ev));
    }

    /// A snapshot of all log entries, oldest first.
    pub fn get_entries(&self) -> (r: Vec<LogEntry>)
        ensures
            entries_view(r@) == self.view(),
    {
        let mut r: Vec<LogEntry> = Vec::new();
        let mut i: usize = 0;
        while i < self.entries.len()
            invariant
                i <= self.entries.len(),
                entries_view(r@) == entries_view(self.entries@.take(i as int)),
            decreases self.entries.len() - i,
        {
            let ghost before = entries_view(r@);
            r.push(self.entries[i].copy());
            assert(self.entries@.take(i + 1) =~= self.entries@.take(i as int).push(self.entries@[i as int]));
            assert(entries_view(r@) =~= before.push(entry_view(self.entries@[i as int])));
            assert(entries_view(self.entries@.take(i + 1)) =~= entries_view(self.entries@.take(i as int)).push(
                entry_view(self.entries@[i as int])));
            i = i + 1;
        }
        assert(self.entries@.take(self.entries.len() as int) =~= self.entries@);
        r
    }

    /// The number of log entries.
    pub fn len(&self) -> (n: usize)
        ensures
            n == self.view().len(),
    {
        self.entries.len()
    }
}

/// The buffer keeps the most recent entries in order: after a push it holds
/// the new entry last and, before it, the latest entries it held, dropping
/// only the oldest and only when it was full.
pub proof fn lemma_push_keeps_latest(
    old: Seq<(LogLevel, Seq<char>, Seq<char>)>,
    e: (LogLevel, Seq<char>, Seq<char>),
)
    requires
        old.len() <= MAX_LOG_ENTRIES,
    ensures
        after_push(old, e).len() <= MAX_LOG_ENTRIES,
        after_push(old, e).last() == e,
        after_push(old, e).len() == if old.len() == MAX_LOG_ENTRIES { old.len() } else { old.len() + 1 },
        after_push(old, e).drop_last() == old.skip(old.len() + 1 - after_push(old, e).len()),
{
    let r = after_push(old, e);
    if old.len() >= MAX_LOG_ENTRIES {
        assert(r.drop_last() =~= old.skip(1));
    } else {
        assert(r.drop_last() =~= old.skip(0));
    }
}

/// The part of logging that reaches the buffer: each event's level, target
/// and message become an entry.
pub struct LogBufferLayer {
    pub buffer: LogBuffer,
}

impl LogBufferLayer {
    /// A layer writing to `buffer`.
    pub fn new(buffer: LogBuffer) -> (r: Self)
        ensures
            r.buffer == buffer,
    {
        LogBufferLayer { buffer }
    }

    /// Records an event: its level, target and message (empty when the event
    /// had none) as a new entry.
    pub fn on_event(&mut self, level: LogLevel, target: String, message: Option<String>)
        requires
            old(self).buffer.wf(),
        ensures
            final(self).buffer.wf(),
            final(self).buffer.view() == after_push(old(self).buffer.view(), (level, target@, match message {
                Some(m) => m@,
                None => Seq::<char>::empty(),
            })),
    {
        let message = match message {
            Some(m) => m,
            None => String::new(),
        };
        self.buffer.push(LogEntry { level, target, message });
    }
}

} // verus!
