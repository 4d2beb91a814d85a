use vstd::prelude::*;

use crate::log::{Collection, Entry, Storage};
use crate::term::Term;

verus! {

/// Failure of an operation on a node or of a call to one of its peers.
#[derive(Debug)]
pub enum Error {
    UnknownError,
}

/// A peer's answer to a vote request.
#[derive(Debug, Clone, Copy, PartialEq, Eq, Structural)]
pub enum Vote {
    For,
    Against,
}

/// The role a node plays in the cluster.
#[derive(Debug, PartialEq, Eq, Structural)]
pub enum Role {
    Follower,
    Candidate,
    Leader,
}

/// Another member of the cluster, as seen by a local node. Implemented by the
/// user of the library (over a network transport, or in memory).
pub trait Peer<'entry, LogType> {
    fn id(&self) -> usize;

    fn request_vote(
        &self,
        term: Term,
        candidate_id: usize,
        last_log_index: usize,
        last_log_term: Term,
    ) -> Result<Vote, Error>;

    fn append_entries(
        &self,
        term: Term,
        leader_id: usize,
        prev_log_index: usize,
        prev_log_term: Term,
        entries: Collection<'entry, LogType>,
        leader_commit: usize,
    ) -> Result<(), Error>;
}

/// The replicated state machine that committed commands are applied to.
/// Implemented by the user of the library.
pub trait StateMachine<LogType> {
    fn apply(&mut self, log: LogType) -> Result<(), Error>;
}

/// Static configuration of a node.
pub struct Config {
    id: usize,
    election_timeout: core::time::Duration,
}

/// The election timeout a configuration starts with: `Duration::default()`,
/// the zero-length duration. Nothing in the library reads the timeout, so no
/// clause states its value.
#[verifier::external_body]
fn default_election_timeout() -> core::time::Duration {
    core::time::Duration::default()
}

impl Config {
    /// The node id this configuration gives.
    pub closed spec fn id_spec(&self) -> usize {
        self.id
    }

    pub fn new(id: usize) -> (config: Self)
        ensures
            config.id_spec() == id,
    {
        Self { id, election_timeout: default_election_timeout() }
    }
}

impl Default for Config {
    fn default() -> (config: Self)
        ensures
            config.id_spec() == 0,
    {
        Self { id: 0, election_timeout: default_election_timeout() }
    }
}

/// The abstract state of a node: everything but its peers, storage and
/// state machine.
pub struct NodeState {
    pub id: usize,
    pub current_term: Option<Term>,
    pub voted_for: Option<usize>,
    pub leader_id: Option<usize>,
    pub role: Role,
    /// Index of the last entry this node has written to its log; 0 while it
    /// has written none (log indexes start at 1).
    pub last_log_index: usize,
    /// Term of that entry; 0 while the node has written none.
    pub last_log_term: Term,
    /// Highest log index known to be committed.
    pub commit_index: usize,
}

/// Terms ordered with "no term yet" below every term.
pub open spec fn term_rank(term: Option<Term>) -> int {
    match term {
        Some(t) => t as int,
        None => -1,
    }
}

/// The term an election started from `current` runs in: one past the
/// current term, or zero when the node has no term yet.
pub open spec fn next_term(current: Option<Term>) -> int {
    match current {
        Some(t) => t + 1,
        None => 0,
    }
}

/// A candidate holding `votes` votes (its own included) in a cluster of
/// itself and `num_peers` peers has a strict majority.
pub open spec fn wins_election(votes: int, num_peers: int) -> bool {
    votes > (num_peers + 1) / 2
}

/// A log ending with an entry of term `last_term` at `last_index` is at
/// least as up-to-date as one ending at (`own_term`, `own_index`): its last
/// term is later, or the same with a last index at least as high (§5.4.1).
pub open spec fn at_least_as_up_to_date(
    last_index: usize,
    last_term: Term,
    own_index: usize,
    own_term: Term,
) -> bool {
    last_term > own_term || (last_term == own_term && last_index >= own_index)
}

/// The term a node counts as its own when judging a leader's call: its
/// current term, with no term counting as 0.
pub open spec fn own_term(s: NodeState) -> int {
    match s.current_term {
        Some(t) => t as int,
        None => 0,
    }
}

/// A node in state `s` grants its vote to `candidate_id` for `term`: every
/// request while it has no term yet; otherwise when the term is not older
/// than its own, it has not voted for another candidate, and the
/// candidate's log, ending at (`last_log_term`, `last_log_index`), is at
/// least as up-to-date as its own.
pub open spec fn grants_vote(
    s: NodeState,
    term: Term,
    candidate_id: usize,
    last_log_index: usize,
    last_log_term: Term,
) -> bool {
    match s.current_term {
        None => true,
        Some(t) => {
            &&& t <= term
            &&& (s.voted_for is None || s.voted_for == Some(candidate_id))
            &&& at_least_as_up_to_date(
                last_log_index,
                last_log_term,
                s.last_log_index,
                s.last_log_term,
            )
        },
    }
}

/// The state after a vote request: a granted vote is recorded; nothing else
/// changes.
pub open spec fn after_vote_request(
    s: NodeState,
    term: Term,
    candidate_id: usize,
    last_log_index: usize,
    last_log_term: Term,
) -> NodeState {
    if grants_vote(s, term, candidate_id, last_log_index, last_log_term) {
        NodeState { voted_for: Some(candidate_id), ..s }
    } else {
        s
    }
}

/// The state of a node on an accepted call from `leader_id` as leader of
/// `term`: a term newer than its own makes it a follower of that leader in
/// that term, with no vote cast; a candidate hearing from a leader of its
/// own term steps down to follower; otherwise nothing changes.
pub open spec fn follow_leader(s: NodeState, term: Term, leader_id: usize) -> NodeState {
    if term > own_term(s) {
        NodeState {
            role: Role::Follower,
            current_term: Some(term),
            voted_for: None,
            leader_id: Some(leader_id),
            ..s
        }
    } else if s.role == Role::Candidate {
        NodeState { role: Role::Follower, ..s }
    } else {
        s
    }
}

/// The state after the entries `written` were written to the log: the last
/// of them becomes the node's last entry.
pub open spec fn with_written<LogType>(s: NodeState, written: Seq<&Entry<LogType>>) -> NodeState {
    if written.len() == 0 {
        s
    } else {
        NodeState {
            last_log_index: written.last().index,
            last_log_term: written.last().term,
            ..s
        }
    }
}

/// The index of the last new entry of an append-entries call: the last
/// entry's index, or `prev_log_index` when the call carries none.
pub open spec fn last_new_index<LogType>(prev_log_index: usize, entries: Seq<&Entry<LogType>>) -> usize {
    if entries.len() == 0 {
        prev_log_index
    } else {
        entries.last().index
    }
}

/// Rule 5 of append-entries: if `leader_commit` is above `commit`, the
/// commit index becomes the lower of `leader_commit` and `last_new`.
pub open spec fn commit_after(commit: usize, leader_commit: usize, last_new: usize) -> usize {
    if leader_commit > commit {
        if leader_commit < last_new {
            leader_commit
        } else {
            last_new
        }
    } else {
        commit
    }
}

/// The state after an accepted append-entries call: the node follows the
/// leader, all entries are in its log, and the commit index follows rule 5.
pub open spec fn after_append<LogType>(
    s: NodeState,
    term: Term,
    leader_id: usize,
    prev_log_index: usize,
    entries: Seq<&Entry<LogType>>,
    leader_commit: usize,
) -> NodeState {
    let written = with_written(follow_leader(s, term, leader_id), entries);
    NodeState {
        commit_index: commit_after(
            written.commit_index,
            leader_commit,
            last_new_index(prev_log_index, entries),
        ),
        ..written
    }
}

/// The state of a node that has just started an election: the next term,
/// a vote for itself, the candidate role.
pub open spec fn candidate_state(s: NodeState) -> NodeState {
    NodeState {
        current_term: Some(next_term(s.current_term) as Term),
        voted_for: Some(s.id),
        role: Role::Candidate,
        ..s
    }
}

/// Two winning tallies in the same cluster add up to more than the cluster's
/// size, so any two majorities of a cluster share at least one member.
pub proof fn majorities_overlap(votes_a: int, votes_b: int, num_peers: int)
    requires
        0 <= num_peers,
        wins_election(votes_a, num_peers),
        wins_election(votes_b, num_peers),
    ensures
        votes_a + votes_b > num_peers + 1,
{
}

/// A node that has a term grants at most one candidate its vote: once it
/// has granted `first` its vote, it refuses any other candidate.
pub proof fn one_vote_per_term(
    s: NodeState,
    term: Term,
    first: usize,
    first_index: usize,
    first_term: Term,
    other: usize,
    other_index: usize,
    other_term: Term,
)
    requires
        s.current_term is Some,
        grants_vote(s, term, first, first_index, first_term),
        other != first,
    ensures
        !grants_vote(
            after_vote_request(s, term, first, first_index, first_term),
            term,
            other,
            other_index,
            other_term,
        ),
{
}

/// A vote request for a term older than the node's own is refused and
/// changes nothing.
pub proof fn stale_terms_are_refused(
    s: NodeState,
    term: Term,
    candidate_id: usize,
    last_log_index: usize,
    last_log_term: Term,
)
    requires
        term < term_rank(s.current_term),
    ensures
        !grants_vote(s, term, candidate_id, last_log_index, last_log_term),
        after_vote_request(s, term, candidate_id, last_log_index, last_log_term) == s,
{
}

/// Receiving the same append-entries call twice leaves a node as receiving it
/// once did.
pub proof fn append_is_idempotent<LogType>(
    s: NodeState,
    term: Term,
    leader_id: usize,
    prev_log_index: usize,
    entries: Seq<&Entry<LogType>>,
    leader_commit: usize,
)
    ensures
        after_append(
            after_append(s, term, leader_id, prev_log_index, entries, leader_commit),
            term,
            leader_id,
            prev_log_index,
            entries,
            leader_commit,
        ) == after_append(s, term, leader_id, prev_log_index, entries, leader_commit),
{
}

/// An accepted call never lowers a node's term, and a call for a newer term
/// than its own leaves the node in that term.
pub proof fn follow_leader_keeps_highest_term(s: NodeState, term: Term, leader_id: usize)
    ensures
        term_rank(s.current_term) <= term_rank(follow_leader(s, term, leader_id).current_term),
        own_term(s) < term ==> follow_leader(s, term, leader_id).current_term == Some(term),
{
}

/// An accepted call for a term newer than the node's (no term counting as 0)
/// makes it a follower of that leader in that term with no vote cast; a call
/// of the node's own term turns a candidate into a follower and leaves any
/// other node as it was. An election runs in the term after the node's.
pub proof fn follow_leader_rule(s: NodeState, term: Term, leader_id: usize)
    ensures
        own_term(s) < term ==> follow_leader(s, term, leader_id).current_term == Some(term)
            && follow_leader(s, term, leader_id).role == Role::Follower && follow_leader(
            s,
            term,
            leader_id,
        ).voted_for is None && follow_leader(s, term, leader_id).leader_id == Some(leader_id),
        term == own_term(s) && s.role == Role::Candidate ==> follow_leader(s, term, leader_id)
            == (NodeState { role: Role::Follower, ..s }),
        term == own_term(s) && s.role != Role::Candidate ==> follow_leader(s, term, leader_id) == s,
        follow_leader(s, term, leader_id).commit_index == s.commit_index,
        follow_leader(s, term, leader_id).last_log_index == s.last_log_index,
        s.current_term matches Some(t) ==> candidate_state(s).current_term == Some((t + 1) as Term),
        s.current_term is None ==> candidate_state(s).current_term == Some(0usize),
        candidate_state(s).voted_for == Some(s.id),
{
}

/// Adding one more peer to a cluster keeps the outcome of an election: with
/// that peer's vote a won election is still won, and without it a lost one is
/// still lost.
pub proof fn extra_peer_keeps_outcome(votes: int, num_peers: int)
    requires
        0 <= num_peers,
    ensures
        wins_election(votes, num_peers) ==> wins_election(votes + 1, num_peers + 1),
        !wins_election(votes, num_peers) ==> !wins_election(votes, num_peers + 1),
{
}

/// No operation changes a node's id: a vote request, an accepted
/// append-entries call and the start of an election all keep it (the end of
/// an election changes only the role and leader id).
pub proof fn id_is_kept<LogType>(
    s: NodeState,
    term: Term,
    peer_id: usize,
    prev_log_index: usize,
    last_log_term: Term,
    entries: Seq<&Entry<LogType>>,
    leader_commit: usize,
)
    ensures
        after_vote_request(s, term, peer_id, prev_log_index, last_log_term).id == s.id,
        after_append(s, term, peer_id, prev_log_index, entries, leader_commit).id == s.id,
        candidate_state(s).id == s.id,
{
}

/// How many of `ballots` are votes for the candidate.
pub open spec fn votes_for(ballots: Seq<Vote>) -> nat
    decreases ballots.len(),
{
    if ballots.len() == 0 {
        0
    } else {
        votes_for(ballots.drop_last()) + if ballots.last() == Vote::For {
            1nat
        } else {
            0nat
        }
    }
}

/// Counting votes: no ballots hold no vote, one more ballot for the
/// candidate adds one, and one more against adds none.
pub proof fn votes_for_counts_each_vote(ballots: Seq<Vote>, vote: Vote)
    ensures
        votes_for(Seq::<Vote>::empty()) == 0,
        vote == Vote::For ==> votes_for(ballots.push(vote)) == votes_for(ballots) + 1,
        vote == Vote::Against ==> votes_for(ballots.push(vote)) == votes_for(ballots),
        votes_for(ballots) <= ballots.len(),
    decreases ballots.len(),
{
    assert(ballots.push(vote).drop_last() =~= ballots);
    if ballots.len() > 0 {
        votes_for_counts_each_vote(ballots.drop_last(), vote);
    }
}

/// A strict majority of a cluster of `num_peers + 1` members: twice the votes
/// exceed the cluster's size.
pub proof fn wins_is_strict_majority(votes: int, num_peers: int)
    requires
        0 <= num_peers,
    ensures
        wins_election(votes, num_peers) <==> 2 * votes > num_peers + 1,
{
}

/// Rule 5 of append-entries: a higher leader commit moves the commit index
/// to the lower of the leader's commit and the last new entry's index, so it
/// never passes either of them; otherwise the commit index stays.
pub proof fn commit_follows_rule_five(commit: usize, leader_commit: usize, last_new: usize)
    ensures
        leader_commit > commit ==> commit_after(commit, leader_commit, last_new) <= leader_commit
            && commit_after(commit, leader_commit, last_new) <= last_new && (commit_after(
            commit,
            leader_commit,
            last_new,
        ) == leader_commit || commit_after(commit, leader_commit, last_new) == last_new),
        leader_commit <= commit ==> commit_after(commit, leader_commit, last_new) == commit,
{
}

/// A candidate whose log is longer in the same last term is as up-to-date as
/// one with a shorter log, and so is one whose last term is later.
pub proof fn up_to_date_is_monotone(
    last_index: usize,
    longer_index: usize,
    last_term: Term,
    later_term: Term,
    own_index: usize,
    own_term: Term,
)
    requires
        last_index <= longer_index,
        last_term <= later_term,
    ensures
        at_least_as_up_to_date(last_index, last_term, own_index, own_term) ==> at_least_as_up_to_date(
            longer_index,
            last_term,
            own_index,
            own_term,
        ),
        last_term == own_term ==> at_least_as_up_to_date(own_index, last_term, own_index, own_term),
        last_term > own_term ==> at_least_as_up_to_date(0, last_term, own_index, own_term),
        last_term < own_term ==> !at_least_as_up_to_date(longer_index, last_term, own_index, own_term),
{
}

/// A granted vote stays granted for a candidate with a longer log in the
/// same last term, or with a later last term.
pub proof fn grant_is_monotone_in_the_log(
    s: NodeState,
    term: Term,
    candidate_id: usize,
    last_log_index: usize,
    longer_index: usize,
    last_log_term: Term,
    later_term: Term,
)
    requires
        grants_vote(s, term, candidate_id, last_log_index, last_log_term),
        last_log_index <= longer_index,
        last_log_term < later_term,
    ensures
        grants_vote(s, term, candidate_id, longer_index, last_log_term),
        grants_vote(s, term, candidate_id, 0, later_term),
{
}

/// A node with a term that has not voted, asked for a term not older than
/// its own by a candidate whose log ends at its own last entry or later,
/// grants the vote; a node with no term grants every request.
pub proof fn free_node_grants(
    s: NodeState,
    term: Term,
    candidate_id: usize,
    last_log_index: usize,
    last_log_term: Term,
)
    ensures
        s.current_term is None ==> grants_vote(s, term, candidate_id, last_log_index, last_log_term),
        s.current_term matches Some(t) && t <= term && s.voted_for is None && last_log_term
            == s.last_log_term && last_log_index >= s.last_log_index ==> grants_vote(
            s,
            term,
            candidate_id,
            last_log_index,
            last_log_term,
        ),
        s.current_term matches Some(t) && t <= term && s.voted_for is None && last_log_term
            > s.last_log_term ==> grants_vote(s, term, candidate_id, last_log_index, last_log_term),
{
}

/// Adds one peer's reply to a running tally of `votes`: a vote for the
/// candidate counts one more, a vote against leaves the tally, and a
/// failed request ends the election with an error.
pub fn count_vote(votes: usize, reply: Result<Vote, Error>) -> (tally: Result<usize, Error>)
    requires
        votes < usize::MAX,
    ensures
        reply matches Ok(Vote::For) ==> tally == Ok::<usize, Error>((votes + 1) as usize),
        reply matches Ok(Vote::Against) ==> tally == Ok::<usize, Error>(votes),
        reply is Err ==> tally matches Err(Error::UnknownError),
{
    match reply {
        Ok(Vote::For) => Ok(votes + 1),
        Ok(Vote::Against) => Ok(votes),
        Err(_) => Err(Error::UnknownError),
    }
}

/// A node of the cluster running on this machine.
#[verifier::reject_recursive_types(LogType)]
pub struct LocalNode<
    'state_machine,
    'peers,
    'log_storage,
    'entry,
    LogType,
    S: Storage<'entry, LogType> + ?Sized + 'log_storage = dyn Storage<'entry, LogType> + 'log_storage,
    M: StateMachine<LogType> + ?Sized + 'state_machine = dyn StateMachine<LogType> + 'state_machine,
> {
    config: Config,
    current_term: Option<Term>,
    voted_for: Option<usize>,
    leader_id: Option<usize>,
    role: Role,
    last_log_index: usize,
    last_log_term: Term,
    commit_index: usize,
    peers: Vec<&'peers dyn Peer<'entry, LogType>>,
    log_storage: &'log_storage mut S,
    state_machine: &'state_machine M,
    ballots: Ghost<Seq<Vote>>,
}

impl<
    'state_machine,
    'peers,
    'log_storage,
    'entry,
    LogType: 'entry,
    S: Storage<'entry, LogType> + ?Sized + 'log_storage,
    M: StateMachine<LogType> + ?Sized + 'state_machine,
> LocalNode<'state_machine, 'peers, 'log_storage, 'entry, LogType, S, M> {
    /// The node's abstract state.
    pub closed spec fn state(&self) -> NodeState {
        NodeState {
            id: self.config.id,
            current_term: self.current_term,
            voted_for: self.voted_for,
            leader_id: self.leader_id,
            role: self.role,
            last_log_index: self.last_log_index,
            last_log_term: self.last_log_term,
            commit_index: self.commit_index,
        }
    }

    /// The node's log storage.
    pub closed spec fn storage_spec(&self) -> &S {
        &*self.log_storage
    }

    /// The state machine the node was created with.
    pub closed spec fn state_machine_spec(&self) -> &M {
        self.state_machine
    }

    /// The answers the node received to the vote requests of its last
    /// election, one per peer asked, in the order the peers were asked.
    pub closed spec fn ballots(&self) -> Seq<Vote> {
        self.ballots@
    }

    /// The node's peers, in the order they were added.
    pub closed spec fn peers_spec(&self) -> Seq<&'peers dyn Peer<'entry, LogType>> {
        self.peers@
    }

    pub fn new(
        config: Config,
        state_machine: &'state_machine M,
        log_storage: &'log_storage mut S,
    ) -> (node: Self)
        ensures
            node.state() == (NodeState {
                id: config.id_spec(),
                current_term: None,
                voted_for: None,
                leader_id: None,
                role: Role::Follower,
                last_log_index: 0,
                last_log_term: 0,
                commit_index: 0,
            }),
            node.peers_spec().len() == 0,
            node.storage_spec() == &*old(log_storage),
            node.state_machine_spec() == state_machine,
    {
        LocalNode {
            current_term: None,
            voted_for: None,
            leader_id: None,
            peers: Vec::new(),
            log_storage,
            role: Role::Follower,
            last_log_index: 0,
            last_log_term: 0,
            commit_index: 0,
            state_machine,
            config,
            ballots: Ghost(Seq::empty()),
        }
    }

    pub fn add_peer(&mut self, peer: &'peers dyn Peer<'entry, LogType>)
        ensures
            final(self).state() == old(self).state(),
            final(self).peers_spec().len() == old(self).peers_spec().len() + 1,
            final(self).peers_spec() == old(self).peers_spec().push(peer),
            final(self).storage_spec() == old(self).storage_spec(),
            final(self).state_machine_spec() == old(self).state_machine_spec(),
    {
        self.peers.push(peer);
        proof {
            vstd::seq::axiom_seq_push_len(old(self).peers@, peer);
        }
    }

    /// The arguments a candidate sends with its vote requests: its term, its
    /// id, and the index and term of its last log entry.
    pub fn vote_request(&self) -> (request: (Term, usize, usize, Term))
        requires
            self.state().current_term is Some,
        ensures
            request == (
                self.state().current_term->0,
                self.state().id,
                self.state().last_log_index,
                self.state().last_log_term,
            ),
    {
        (self.current_term.unwrap(), self.config.id, self.last_log_index, self.last_log_term)
    }

    /// The arguments a new leader sends with the empty append-entries call
    /// that announces it: its term, its id, no previous entry (index and term
    /// 0) and a commit index of 0.
    pub fn announcement(&self) -> (call: (Term, usize, usize, Term, usize))
        requires
            self.state().current_term is Some,
        ensures
            call == (self.state().current_term->0, self.state().id, 0usize, 0usize, 0usize),
    {
        (self.current_term.unwrap(), self.config.id, 0, 0, 0)
    }

    /// Closes the vote of an election: with `votes` votes, the node's own
    /// included, it becomes leader when that is a strict majority of the
    /// cluster (itself and its peers), and a follower otherwise.
    pub fn conclude_election(&mut self, votes: usize) -> (won: bool)
        ensures
            won == wins_election(votes as int, old(self).peers_spec().len() as int),
            won ==> final(self).state() == (NodeState {
                role: Role::Leader,
                leader_id: Some(old(self).state().id),
                ..old(self).state()
            }),
            !won ==> final(self).state() == (NodeState { role: Role::Follower, ..old(self).state() }),
            final(self).ballots() == old(self).ballots(),
            final(self).peers_spec() == old(self).peers_spec(),
            final(self).storage_spec() == old(self).storage_spec(),
            final(self).state_machine_spec() == old(self).state_machine_spec(),
    {
        let n: usize = self.peers.len();
        if votes > n / 2 + n % 2 {
            self.role = Role::Leader;
            self.leader_id = Some(self.config.id);
            true
        } else {
            self.role = Role::Follower;
            false
        }
    }

    /// Starts an election (§5.2): the node moves to the next term, votes for
    /// itself and becomes a candidate; then it sends every peer, in the order
    /// they were added, a vote request built by `vote_request`, and adds the
    /// reply to its tally with `count_vote`. With a strict majority
    /// (`conclude_election`) it becomes leader and announces itself to every
    /// peer with the call built by `announcement`; otherwise it becomes a
    /// follower. A failed vote request leaves it a candidate and a failed
    /// announcement leaves it leader; both end the election with an error.
    ///
    /// Election timers are not kept here: the caller decides when to start an
    /// election.
    pub fn run_election(&mut self) -> (r: Result<(), Error>)
        requires
            old(self).state().current_term != Some(usize::MAX),
            old(self).peers_spec().len() < usize::MAX,
        ensures
            final(self).state() == candidate_state(old(self).state()) || final(self).state() == (
            NodeState {
                role: Role::Leader,
                leader_id: Some(old(self).state().id),
                ..candidate_state(old(self).state())
            }) || final(self).state() == (NodeState {
                role: Role::Follower,
                ..candidate_state(old(self).state())
            }),
            term_rank(old(self).state().current_term) < term_rank(final(self).state().current_term),
            final(self).peers_spec() == old(self).peers_spec(),
            final(self).storage_spec() == old(self).storage_spec(),
            final(self).state_machine_spec() == old(self).state_machine_spec(),
            final(self).state().role == Role::Candidate ==> r is Err,
            final(self).state().role == Role::Follower ==> r is Ok,
            r is Ok ==> exists|votes: int|
                1 <= votes <= old(self).peers_spec().len() + 1 && ((final(self).state().role
                    == Role::Leader) <==> #[trigger] wins_election(votes, old(self).peers_spec().len() as int)),
            r is Err ==> r matches Err(Error::UnknownError),
            old(self).peers_spec().len() == 0 ==> r is Ok && final(self).state().role == Role::Leader,
            final(self).ballots().len() <= old(self).peers_spec().len(),
            final(self).state().role != Role::Candidate ==> final(self).ballots().len()
                == old(self).peers_spec().len() && ((final(self).state().role == Role::Leader)
                <==> wins_election(
                1 + votes_for(final(self).ballots()) as int,
                old(self).peers_spec().len() as int,
            )),
    {
        let new_term: Term = match self.current_term {
            Some(term) => term + 1,
            None => 0,
        };

        self.current_term = Some(new_term);
        self.voted_for = Some(self.config.id);
        self.role = Role::Candidate;
        assert(term_rank(old(self).state().current_term) < term_rank(self.state().current_term));

        let (term, candidate_id, last_log_index, last_log_term) = self.vote_request();
        let mut votes: usize = 1;
        let n: usize = self.peers.len();
        proof {
            self.ballots@ = Seq::empty();
        }
        let mut i: usize = 0;
        while i < n
            invariant
                n == self.peers@.len(),
                n < usize::MAX,
                i <= n,
                1 <= votes <= i + 1,
                self.ballots@.len() == i,
                votes == 1 + votes_for(self.ballots@),
                self.state() == candidate_state(old(self).state()),
                term_rank(old(self).state().current_term) < term_rank(self.state().current_term),
                self.peers_spec() == old(self).peers_spec(),
                self.storage_spec() == old(self).storage_spec(),
                self.state_machine_spec() == old(self).state_machine_spec(),
            decreases n - i,
        {
            let reply = self.peers[i].request_vote(term, candidate_id, last_log_index, last_log_term);
            let ghost answer = reply;
            match count_vote(votes, reply) {
                Ok(tally) => {
                    proof {
                        votes_for_counts_each_vote(self.ballots@, answer->Ok_0);
                        self.ballots@ = self.ballots@.push(answer->Ok_0);
                    }
                    votes = tally;
                },
                Err(err) => {
                    return Err(err);
                },
            }
            i = i + 1;
        }

        if self.conclude_election(votes) {
            let (term, leader_id, prev_log_index, prev_log_term, leader_commit) = self.announcement();
            let mut j: usize = 0;
            while j < n
                invariant
                    n == self.peers@.len(),
                    j <= n,
                    self.state() == (NodeState {
                        role: Role::Leader,
                        leader_id: Some(old(self).state().id),
                        ..candidate_state(old(self).state())
                    }),
                    term_rank(old(self).state().current_term) < term_rank(self.state().current_term),
                    self.peers_spec() == old(self).peers_spec(),
                    self.storage_spec() == old(self).storage_spec(),
                    self.state_machine_spec() == old(self).state_machine_spec(),
                    wins_election(votes as int, n as int),
                    1 <= votes <= n + 1,
                    self.ballots@.len() == n,
                    votes == 1 + votes_for(self.ballots@),
                decreases n - j,
            {
                let ack = self.peers[j].append_entries(
                    term,
                    leader_id,
                    prev_log_index,
                    prev_log_term,
                    Vec::new(),
                    leader_commit,
                );
                match ack {
                    Ok(()) => {},
                    Err(_) => {
                        return Err(Error::UnknownError);
                    },
                }
                j = j + 1;
            }
        }
        assert(wins_election(votes as int, n as int) <==> self.state().role == Role::Leader);
        Ok(())
    }

    /// Receiver implementation (§5.1, §5.2, §5.4):
    /// 1. Reply false if term < currentTerm
    /// 2. If votedFor is null or candidateId, and candidate’s log is at least as up-to-date as
    ///    receiver’s log, grant vote
    ///
    /// A node that has no term yet grants every request. A granted vote is
    /// recorded; nothing else about the node changes (its term is not
    /// adopted). The receiver's log is judged by the last entry this node
    /// has written since it was created: entries the storage held before are
    /// not seen.
    pub fn request_vote(
        &mut self,
        term: Term,
        candidate_id: usize,
        last_log_index: usize,
        last_log_term: Term,
    ) -> (r: Result<Vote, Error>)
        ensures
            r == Ok::<Vote, Error>(
                if grants_vote(old(self).state(), term, candidate_id, last_log_index, last_log_term) {
                    Vote::For
                } else {
                    Vote::Against
                },
            ),
            final(self).state() == after_vote_request(
                old(self).state(),
                term,
                candidate_id,
                last_log_index,
                last_log_term,
            ),
            final(self).peers_spec() == old(self).peers_spec(),
            final(self).storage_spec() == old(self).storage_spec(),
            final(self).state_machine_spec() == old(self).state_machine_spec(),
    {
        let grant = match self.current_term {
            None => true,
            Some(current_term) => {
                let free = match self.voted_for {
                    None => true,
                    Some(v) => v == candidate_id,
                };
                let up_to_date = last_log_term > self.last_log_term || (last_log_term
                    == self.last_log_term && last_log_index >= self.last_log_index);
                current_term <= term && free && up_to_date
            },
        };
        if grant {
            self.voted_for = Some(candidate_id);
            Ok(Vote::For)
        } else {
            Ok(Vote::Against)
        }
    }

    /// Receiver implementation (§5.1, §5.3):
    /// 1. Reply false if term < currentTerm
    /// 2. Reply false if log doesn’t contain an entry at prevLogIndex whose term matches
    ///    prevLogTerm
    /// 4. Append any new entries not already in the log
    /// 5. If leaderCommit > commitIndex, set commitIndex = min(leaderCommit, index of last new
    ///    entry)
    ///
    /// A call for an older term than the node's own (no term counting as 0)
    /// is refused before anything is touched. A newer term makes the node a
    /// follower of `leader_id` in that term with no vote cast; a candidate
    /// hearing from a leader of its own term steps down. A `prev_log_index`
    /// of 0 means the entries start the log, and is not looked up. The
    /// entries are written in order; a failed lookup or write ends the call
    /// with an error, and the commit index moves only after every entry was
    /// written.
    ///
    /// Rule 3 (deleting conflicting entries) is not carried out: the storage
    /// offers no way to remove entries.
    pub fn append_entries(
        &mut self,
        term: Term,
        leader_id: usize,
        prev_log_index: usize,
        prev_log_term: Term,
        entries: Collection<'entry, LogType>,
        leader_commit: usize,
    ) -> (r: Result<(), Error>)
        ensures
            term < own_term(old(self).state()) ==> (r matches Err(Error::UnknownError))
                && final(self).state() == old(self).state() && final(self).storage_spec() == old(
                self,
            ).storage_spec(),
            own_term(old(self).state()) <= term && r is Ok ==> final(self).state()
                == after_append(
                old(self).state(),
                term,
                leader_id,
                prev_log_index,
                entries@,
                leader_commit,
            ),
            own_term(old(self).state()) <= term && r is Err ==> exists|k: int|
                0 <= k <= entries@.len() && final(self).state() == #[trigger] with_written(
                    follow_leader(old(self).state(), term, leader_id),
                    entries@.take(k),
                ),
            ({
                let commit = final(self).state().commit_index;
                let last_new = if entries@.len() == 0 {
                    prev_log_index
                } else {
                    entries@.last().index
                };
                r is Ok && leader_commit > old(self).state().commit_index ==> commit <= leader_commit
                    && commit <= last_new && (commit == leader_commit || commit == last_new)
            }),
            r is Ok && leader_commit <= old(self).state().commit_index ==> final(self).state().commit_index
                == old(self).state().commit_index,
            r is Err ==> final(self).state().commit_index == old(self).state().commit_index,
            own_term(old(self).state()) <= term && prev_log_index == 0
                && entries@.len() == 0 ==> r is Ok,
            r is Err ==> r matches Err(Error::UnknownError),
            term_rank(old(self).state().current_term) <= term_rank(final(self).state().current_term),
            final(self).peers_spec() == old(self).peers_spec(),
            final(self).state_machine_spec() == old(self).state_machine_spec(),
    {
        let own: Term = self.current_term.unwrap_or(0);
        if term < own {
            return Err(Error::UnknownError);
        }
        if term > own {
            self.role = Role::Follower;
            self.current_term = Some(term);
            self.voted_for = None;
            self.leader_id = Some(leader_id);
        } else {
            match self.role {
                Role::Candidate => {
                    self.role = Role::Follower;
                },
                _ => {},
            }
        }
        let ghost followed = self.state();
        assert(followed == follow_leader(old(self).state(), term, leader_id));
        assert(entries@.take(0) =~= Seq::<&Entry<LogType>>::empty());
        assert(with_written(followed, entries@.take(0)) == followed);

        if prev_log_index > 0 {
            if self.log_storage.get(prev_log_term, prev_log_index).is_err() {
                return Err(Error::UnknownError);
            }
        }
        let mut i: usize = 0;
        while i < entries.len()
            invariant
                i <= entries@.len(),
                self.state() == with_written(followed, entries@.take(i as int)),
                followed == follow_leader(old(self).state(), term, leader_id),
                own_term(old(self).state()) <= term,
                self.peers_spec() == old(self).peers_spec(),
                self.state_machine_spec() == old(self).state_machine_spec(),
            decreases entries@.len() - i,
        {
            let entry = entries[i];
            match self.log_storage.write(entry) {
                Ok(()) => {},
                Err(_) => {
                    return Err(Error::UnknownError);
                },
            }
            self.last_log_index = entry.index;
            self.last_log_term = entry.term;
            assert(entries@.take(i + 1).last() == entry);
            i = i + 1;
        }
        assert(entries@.take(entries@.len() as int) =~= entries@);
        let last_new: usize = if entries.len() == 0 {
            prev_log_index
        } else {
            entries[entries.len() - 1].index
        };
        if leader_commit > self.commit_index {
            self.commit_index = if leader_commit < last_new {
                leader_commit
            } else {
                last_new
            };
        }
        Ok(())
    }

    pub fn id(&self) -> (id: usize)
        ensures
            id == self.state().id,
    {
        self.config.id
    }

    pub fn with_term(self, term: Term) -> (node: Self)
        ensures
            node.state() == (NodeState { current_term: Some(term), ..self.state() }),
            node.peers_spec() == self.peers_spec(),
            node.storage_spec() == self.storage_spec(),
            node.state_machine_spec() == self.state_machine_spec(),
    {
        let mut node = self;
        node.current_term = Some(term);
        node
    }

    pub fn with_role(self, role: Role) -> (node: Self)
        ensures
            node.state() == (NodeState { role: role, ..self.state() }),
            node.peers_spec() == self.peers_spec(),
            node.storage_spec() == self.storage_spec(),
            node.state_machine_spec() == self.state_machine_spec(),
    {
        let mut node = self;
        node.role = role;
        node
    }

    pub fn role(&self) -> (role: &Role)
        ensures
            *role == self.state().role,
    {
        &self.role
    }

    /// The node's current term; `None` until it has taken part in an election.
    pub fn current_term(&self) -> (term: Option<Term>)
        ensures
            term == self.state().current_term,
    {
        self.current_term
    }

    /// The candidate this node voted for in its current term.
    pub fn voted_for(&self) -> (candidate: Option<usize>)
        ensures
            candidate == self.state().voted_for,
    {
        self.voted_for
    }

    /// The leader this node last learned of.
    pub fn leader_id(&self) -> (leader: Option<usize>)
        ensures
            leader == self.state().leader_id,
    {
        self.leader_id
    }

    /// Index and term of the last entry this node has written; (0, 0) while
    /// it has written none.
    pub fn last_log(&self) -> (last: (usize, Term))
        ensures
            last == (self.state().last_log_index, self.state().last_log_term),
    {
        (self.last_log_index, self.last_log_term)
    }

    /// The highest log index known to be committed.
    pub fn commit_index(&self) -> (index: usize)
        ensures
            index == self.state().commit_index,
    {
        self.commit_index
    }

    pub fn storage(&self) -> (storage: &S)
        ensures
            storage == self.storage_spec(),
    {
        self.log_storage
    }
}

} // verus!
