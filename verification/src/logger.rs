//! A log that records what it is told, in order, for a driver to replay on a
//! real sink.

use vstd::prelude::*;
use vstd::string::*;

verus! {

/// How a message is to be shown.
#[derive(Debug, Clone, Copy, PartialEq, Eq, Structural)]
pub enum LogLevel {
    Info,
    Success,
    Error,
    Debug,
}

/// One thing the log was told.
#[derive(Debug, Clone, PartialEq, Eq)]
pub enum LogEntry {
    /// A message at a level.
    Message { level: LogLevel, text: String },
    /// The last secondary prefix was replaced by this one.
    SecondaryPrefix { prefix: String },
    /// All secondary prefixes were dropped.
    PrefixesReset,
}

/// A `LogEntry` as a plain value.
pub enum Entry {
    Message { level: LogLevel, text: Seq<char> },
    SecondaryPrefix { prefix: Seq<char> },
    PrefixesReset,
}

impl View for LogEntry {
    type V = Entry;

    open spec fn view(&self) -> Entry {
        match self {
            LogEntry::Message { level, text } => Entry::Message { level: *level, text: text@ },
            LogEntry::SecondaryPrefix { prefix } => Entry::SecondaryPrefix { prefix: prefix@ },
            LogEntry::PrefixesReset => Entry::PrefixesReset,
        }
    }
}

/// A message entry at `level`.
pub open spec fn message(level: LogLevel, text: Seq<char>) -> Entry {
    Entry::Message { level, text }
}

/// One message at `level` for each of `lines`, in order.
pub open spec fn messages(level: LogLevel, lines: Seq<Seq<char>>) -> Seq<Entry> {
    Seq::new(lines.len(), |i: int| message(level, lines[i]))
}

/// The secondary prefix that a message logged after `entries` would carry:
/// the one set last, unless the prefixes were reset since.
pub open spec fn prefix_in_force(entries: Seq<Entry>) -> Option<Seq<char>>
    decreases entries.len(),
{
    if entries.len() == 0 {
        None
    } else {
        match entries.last() {
            Entry::SecondaryPrefix { prefix } => Some(prefix),
            Entry::PrefixesReset => None,
            Entry::Message { .. } => prefix_in_force(entries.drop_last()),
        }
    }
}

/// The log. Its view is everything it was told so far, oldest first.
pub struct Logger {
    entries: Vec<LogEntry>,
}

impl View for Logger {
    type V = Seq<Entry>;

    closed spec fn view(&self) -> Seq<Entry> {
        Seq::new(self.entries@.len(), |i: int| self.entries@[i]@)
    }
}

impl Logger {
    /// An empty log.
    pub fn new() -> (logger: Logger)
        ensures
            logger@ == Seq::<Entry>::empty(),
    {
        let logger = Logger { entries: Vec::new() };
        assert(logger@ =~= Seq::<Entry>::empty());
        logger
    }

    fn record(&mut self, entry: LogEntry)
        ensures
            final(self)@ == old(self)@.push(entry@),
    {
        self.entries.push(entry);
        assert(self@ =~= old(self)@.push(entry@));
    }

    /// Records `text` at `level`.
    pub fn log(&mut self, level: LogLevel, text: &str)
        ensures
            final(self)@ == old(self)@.push(message(level, text@)),
    {
        self.record(LogEntry::Message { level, text: String::from_str(text) });
    }

    /// Records each of `lines` at `level`, in order.
    pub fn log_each(&mut self, level: LogLevel, lines: &Vec<&'static str>)
        ensures
            final(self)@ == old(self)@ + messages(level, lines.deep_view()),
    {
        let ghost all = messages(level, lines.deep_view());
        let mut j: usize = 0;
        assert(old(self)@ + all.take(0) =~= old(self)@);
        while j < lines.len()
            invariant
                j <= lines.len(),
                all == messages(level, lines.deep_view()),
                self@ == old(self)@ + all.take(j as int),
            decreases lines.len() - j,
        {
            assert(lines.deep_view()[j as int] == lines[j as int]@);
            self.log(level, lines[j]);
            assert((old(self)@ + all.take(j as int)).push(all[j as int]) =~= old(self)@
                + all.take(j + 1));
            j += 1;
        }
        assert(all.take(lines@.len() as int) =~= all);
    }

    /// Records an informational message.
    pub fn infof(&mut self, text: &str)
        ensures
            final(self)@ == old(self)@.push(message(LogLevel::Info, text@)),
    {
        self.log(LogLevel::Info, text);
    }

    /// Records a success message.
    pub fn successf(&mut self, text: &str)
        ensures
            final(self)@ == old(self)@.push(message(LogLevel::Success, text@)),
    {
        self.log(LogLevel::Success, text);
    }

    /// Records an error message.
    pub fn errorf(&mut self, text: &str)
        ensures
            final(self)@ == old(self)@.push(message(LogLevel::Error, text@)),
    {
        self.log(LogLevel::Error, text);
    }

    /// Records a debug message.
    pub fn debugf(&mut self, text: &str)
        ensures
            final(self)@ == old(self)@.push(message(LogLevel::Debug, text@)),
    {
        self.log(LogLevel::Debug, text);
    }

    /// Records that the last secondary prefix is now `prefix`.
    pub fn update_last_secondary_prefix(&mut self, prefix: &str)
        ensures
            final(self)@ == old(self)@.push(Entry::SecondaryPrefix { prefix: prefix@ }),
            prefix_in_force(final(self)@) == Some(prefix@),
    {
        self.record(LogEntry::SecondaryPrefix { prefix: String::from_str(prefix) });
    }

    /// Records that all secondary prefixes are dropped.
    pub fn reset_secondary_prefixes(&mut self)
        ensures
            final(self)@ == old(self)@.push(Entry::PrefixesReset),
            prefix_in_force(final(self)@) == None::<Seq<char>>,
    {
        self.record(LogEntry::PrefixesReset);
    }

    /// Everything recorded so far, oldest first.
    pub fn entries(&self) -> (entries: &Vec<LogEntry>)
        ensures
            entries@.len() == self@.len(),
            forall|i: int| 0 <= i < entries@.len() ==> (#[trigger] entries@[i])@ == self@[i],
    {
        &self.entries
    }

    /// Hands out everything recorded so far and leaves the log empty.
    pub fn drain(&mut self) -> (entries: Vec<LogEntry>)
        ensures
            final(self)@ == Seq::<Entry>::empty(),
            entries@.len() == old(self)@.len(),
            forall|i: int| 0 <= i < entries@.len() ==> (#[trigger] entries@[i])@ == old(self)@[i],
    {
        let mut taken: Vec<LogEntry> = Vec::new();
        std::mem::swap(&mut taken, &mut self.entries);
        assert(self@ =~= Seq::<Entry>::empty());
        taken
    }
}

} // verus!
