use vstd::prelude::*;

use crate::node::Error;
use crate::term::Term;

verus! {

/// One entry of the replicated log: the command `log`, stored at position
/// `index`, written in term `term`.
#[derive(Debug)]
pub struct Entry<LogType> {
    pub term: Term,
    pub index: usize,
    pub log: LogType,
}

/// A batch of log entries handed from a leader to a follower.
pub type Collection<'entry, LogType> = Vec<&'entry Entry<LogType>>;

/// Durable storage of a node's log, implemented by the user of the library.
pub trait Storage<'entry, LogType> {
    /// Looks up the command stored at `index` for `term`.
    fn get(&self, term: Term, index: usize) -> Result<LogType, ()>;

    /// Appends `log` to the stored log.
    fn write(&mut self, log: &'entry Entry<LogType>) -> Result<(), Error>;
}

} // verus!
