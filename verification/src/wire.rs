//! The messages a peer reached over gRPC exchanges: the request fields as the
//! wire carries them, 32 bits wide, and the reading of a peer's reply.

use vstd::prelude::*;

use crate::node::{Error, Vote};
use crate::term::Term;

verus! {

/// A vote request as sent to a remote peer.
pub struct RequestVoteMsg {
    pub term: u32,
    pub candidate_id: u32,
    pub last_log_index: u32,
    pub last_log_term: u32,
}

/// An append-entries request as sent to a remote peer; `entries` holds the
/// serialised batch of entries.
pub struct AppendEntriesMsg {
    pub term: u32,
    pub leader_id: u32,
    pub prev_log_index: u32,
    pub prev_log_term: u32,
    pub entries: Vec<u8>,
    pub leader_commit: u32,
}

/// Builds the vote request for the given arguments, each number cut to its
/// low 32 bits.
pub fn request_vote_msg(
    term: Term,
    candidate_id: usize,
    last_log_index: usize,
    last_log_term: Term,
) -> (msg: RequestVoteMsg)
    ensures
        msg.term == term as u32,
        msg.candidate_id == candidate_id as u32,
        msg.last_log_index == last_log_index as u32,
        msg.last_log_term == last_log_term as u32,
{
    RequestVoteMsg {
        term: term as u32,
        candidate_id: candidate_id as u32,
        last_log_index: last_log_index as u32,
        last_log_term: last_log_term as u32,
    }
}

/// Builds the append-entries request for the given arguments and serialised
/// entries, each number cut to its low 32 bits.
pub fn append_entries_msg(
    term: Term,
    leader_id: usize,
    prev_log_index: usize,
    prev_log_term: Term,
    entries: Vec<u8>,
    leader_commit: usize,
) -> (msg: AppendEntriesMsg)
    ensures
        msg.term == term as u32,
        msg.leader_id == leader_id as u32,
        msg.prev_log_index == prev_log_index as u32,
        msg.prev_log_term == prev_log_term as u32,
        msg.entries@ == entries@,
        msg.leader_commit == leader_commit as u32,
{
    AppendEntriesMsg {
        term: term as u32,
        leader_id: leader_id as u32,
        prev_log_index: prev_log_index as u32,
        prev_log_term: prev_log_term as u32,
        entries,
        leader_commit: leader_commit as u32,
    }
}

/// Reads a peer's answer to a vote request: `Some(granted)` for a reply
/// that arrived, `None` for a call that failed.
pub fn vote_from_reply(reply: Option<bool>) -> (vote: Result<Vote, Error>)
    ensures
        reply == Some(true) ==> vote == Ok::<Vote, Error>(Vote::For),
        reply == Some(false) ==> vote == Ok::<Vote, Error>(Vote::Against),
        reply is None ==> vote matches Err(Error::UnknownError),
{
    match reply {
        Some(granted) => Ok(if granted {
            Vote::For
        } else {
            Vote::Against
        }),
        None => Err(Error::UnknownError),
    }
}

} // verus!
