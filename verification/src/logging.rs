//! Log lines on their way to the operator.

use vstd::prelude::*;
use vstd::string::*;
use crate::text::{cat, texts};

verus! {

/// Where operations report their progress.
pub trait Logger {
    fn log(&mut self, message: &str);

    fn debug_log(&mut self, message: &str);
}

/// The prefix of a debug line.
pub open spec fn debug_prefix() -> Seq<char> {
    "[DEBUG] "@
}

/// A logger that keeps its lines until someone takes them. Debug lines are
/// kept only while `debug` is on.
#[derive(Clone, Debug, PartialEq, Eq)]
pub struct OperationsLogger {
    pub pending: Vec<String>,
    pub debug: bool,
}

impl OperationsLogger {
    /// A logger that keeps nothing yet.
    pub fn new(debug: bool) -> (r: Self)
        ensures
            r.debug == debug,
            r.pending@.len() == 0,
    {
        OperationsLogger { pending: Vec::new(), debug }
    }

    /// Hands out the lines kept so far, oldest first, and keeps none of them.
    pub fn drain(&mut self) -> (lines: Vec<String>)
        ensures
            texts(lines@) == texts(old(self).pending@),
            final(self).pending@.len() == 0,
            final(self).debug == old(self).debug,
    {
        let mut lines: Vec<String> = Vec::new();
        lines.append(&mut self.pending);
        lines
    }
}

impl Logger for OperationsLogger {
    fn log(&mut self, message: &str)
        ensures
            texts(final(self).pending@) == texts(old(self).pending@).push(message@),
            final(self).debug == old(self).debug,
    {
        self.pending.push(String::from_str(message));
        assert(texts(self.pending@) =~= texts(old(self).pending@).push(message@));
    }

    fn debug_log(&mut self, message: &str)
        ensures
            texts(final(self).pending@) == if old(self).debug {
                texts(old(self).pending@).push(debug_prefix() + message@)
            } else {
                texts(old(self).pending@)
            },
            final(self).debug == old(self).debug,
    {
        if self.debug {
            self.pending.push(cat("[DEBUG] ", message));
            assert(texts(self.pending@) =~= texts(old(self).pending@).push(
                debug_prefix() + message@,
            ));
        }
    }
}

/// A line of a log file: the time stamp, a colon and a space, the message.
pub open spec fn stamped(stamp: Seq<char>, message: Seq<char>) -> Seq<char> {
    stamp + ": "@ + message
}

/// A logger that appends to a file. The library lays out the lines; writing
/// them is left to whoever owns the file.
#[derive(Clone, Debug, PartialEq, Eq)]
pub struct FileLogger {
    pub log_file: String,
    pub debug: bool,
}

impl FileLogger {
    /// A logger that appends to `log_file`.
    pub fn new(log_file: &str, debug: bool) -> (r: Self)
        ensures
            r.log_file@ == log_file@,
            r.debug == debug,
    {
        FileLogger { log_file: String::from_str(log_file), debug }
    }

    /// The line to append for `message` at the time written as `stamp`.
    pub fn line(&self, stamp: &str, message: &str) -> (r: String)
        ensures
            r@ == stamped(stamp@, message@),
    {
        String::from_str(stamp).concat(": ").concat(message)
    }

    /// The line to append for a debug message, or none while debugging is off.
    pub fn debug_line(&self, stamp: &str, message: &str) -> (r: Option<String>)
        ensures
            self.debug ==> (r matches Some(l) && l@ == stamped(stamp@, debug_prefix() + message@)),
            !self.debug ==> r is None,
    {
        if self.debug {
            let tagged = cat("[DEBUG] ", message);
            Some(self.line(stamp, tagged.as_str()))
        } else {
            None
        }
    }
}

/// A logger that hands every line to each of its loggers.
#[derive(Clone, Debug, PartialEq, Eq)]
pub struct MultiLogger {
    pub loggers: Vec<OperationsLogger>,
}

impl Logger for MultiLogger {
    fn log(&mut self, message: &str)
        ensures
            final(self).loggers@.len() == old(self).loggers@.len(),
            forall|i: int|
                0 <= i < old(self).loggers@.len() ==> texts(
                    #[trigger] final(self).loggers@[i].pending@,
                ) == texts(old(self).loggers@[i].pending@).push(message@),
            forall|i: int|
                0 <= i < old(self).loggers@.len() ==> (#[trigger] final(self).loggers@[i]).debug
                    == old(self).loggers@[i].debug,
    {
        let mut i: usize = 0;
        while i < self.loggers.len()
            invariant
                i <= self.loggers@.len(),
                self.loggers@.len() == old(self).loggers@.len(),
                forall|k: int|
                    0 <= k < i ==> texts(#[trigger] self.loggers@[k].pending@) == texts(
                        old(self).loggers@[k].pending@,
                    ).push(message@),
                forall|k: int|
                    0 <= k < i ==> (#[trigger] self.loggers@[k]).debug == old(
                        self,
                    ).loggers@[k].debug,
                forall|k: int|
                    i <= k < self.loggers@.len() ==> #[trigger] self.loggers@[k] == old(
                        self,
                    ).loggers@[k],
            decreases self.loggers@.len() - i,
        {
            self.loggers[i].log(message);
            i += 1;
        }
    }

    fn debug_log(&mut self, message: &str)
        ensures
            final(self).loggers@.len() == old(self).loggers@.len(),
            forall|i: int|
                0 <= i < old(self).loggers@.len() ==> texts(
                    #[trigger] final(self).loggers@[i].pending@,
                ) == if old(self).loggers@[i].debug {
                    texts(old(self).loggers@[i].pending@).push(debug_prefix() + message@)
                } else {
                    texts(old(self).loggers@[i].pending@)
                },
            forall|i: int|
                0 <= i < old(self).loggers@.len() ==> (#[trigger] final(self).loggers@[i]).debug
                    == old(self).loggers@[i].debug,
    {
        let mut i: usize = 0;
        while i < self.loggers.len()
            invariant
                i <= self.loggers@.len(),
                self.loggers@.len() == old(self).loggers@.len(),
                forall|k: int|
                    0 <= k < i ==> texts(#[trigger] self.loggers@[k].pending@) == if old(
                        self,
                    ).loggers@[k].debug {
                        texts(old(self).loggers@[k].pending@).push(debug_prefix() + message@)
                    } else {
                        texts(old(self).loggers@[k].pending@)
                    },
                forall|k: int|
                    0 <= k < i ==> (#[trigger] self.loggers@[k]).debug == old(
                        self,
                    ).loggers@[k].debug,
                forall|k: int|
                    i <= k < self.loggers@.len() ==> #[trigger] self.loggers@[k] == old(
                        self,
                    ).loggers@[k],
            decreases self.loggers@.len() - i,
        {
            self.loggers[i].debug_log(message);
            i += 1;
        }
    }
}

} // verus!
