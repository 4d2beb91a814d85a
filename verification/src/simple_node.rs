//! A minimal node: peers answer vote requests with yes or no, and a node
//! that wins an election takes the new term and sends heartbeats. A node can
//! itself answer as a peer of another node.

use vstd::prelude::*;

verus! {

/// Failure of a call to a peer.
#[derive(Debug)]
pub enum RaftError {
    UnknownError,
}

/// The role a node plays in the cluster.
#[derive(Debug, PartialEq, Eq, Structural)]
pub enum State {
    Follower,
    Candidate,
    Leader,
}

/// One entry of a node's log.
#[derive(Debug)]
pub struct LogEntry<LogType> {
    term: usize,
    log: LogType,
}

/// Another member of the cluster, as seen by a local node.
pub trait Peer<LogType> {
    fn request_vote(&mut self, term: usize) -> Result<bool, RaftError>;

    fn append_entries(&mut self, term: usize, entries: Vec<LogEntry<LogType>>) -> Result<(), RaftError>;

    fn heartbeat(&mut self, term: usize) -> Result<(), RaftError>;
}

/// The replicated state machine that commands are applied to.
pub trait StateMachine<LogType> {
    fn apply(&mut self, log: LogType) -> Result<(), RaftError>;
}

/// The abstract state of a node: everything but its peers, log and state
/// machine.
pub struct NodeState {
    pub current_term: Option<usize>,
    pub voted_for: Option<usize>,
    pub state: State,
}

/// The term an election started from `current` runs in: one past the
/// current term, or 1 when the node has no term yet.
pub open spec fn election_term(current: Option<usize>) -> int {
    match current {
        Some(t) => t + 1,
        None => 1,
    }
}

/// A candidate holding `votes` votes, its own included, wins against
/// `num_peers` peers when it has more than half as many votes as peers.
pub open spec fn wins(votes: int, num_peers: int) -> bool {
    votes > num_peers / 2
}

/// The state a node moves to on a heartbeat for `term`: a higher term than
/// its own (no term counting as zero) makes it a follower in that term.
pub open spec fn after_heartbeat(s: NodeState, term: usize) -> NodeState {
    let own = match s.current_term {
        Some(t) => t as int,
        None => 0,
    };
    if term > own {
        NodeState { state: State::Follower, current_term: Some(term), ..s }
    } else {
        s
    }
}

/// The reply of a node in state `s` to a vote request for `term`, and the
/// state it moves to: a node that has not voted, and whose term is not newer
/// than `term`, grants the vote and records it.
pub open spec fn after_vote_request(s: NodeState, term: usize) -> (bool, NodeState) {
    if s.voted_for is Some {
        (false, s)
    } else if s.current_term matches Some(t) && term < t {
        (false, s)
    } else {
        (true, NodeState { voted_for: Some(1), ..s })
    }
}

/// A node grants at most one vote: once it has granted one, every later
/// request is refused.
pub proof fn votes_at_most_once(s: NodeState, first: usize, second: usize)
    requires
        after_vote_request(s, first).0,
    ensures
        !after_vote_request(after_vote_request(s, first).1, second).0,
{
}

/// A heartbeat for a term newer than the node's (no term counting as 0)
/// makes it a follower in that term; any other heartbeat changes nothing.
/// An election always runs in a term newer than the node's.
pub proof fn heartbeat_rule(s: NodeState, term: usize)
    ensures
        (match s.current_term {
            Some(t) => t < term,
            None => 0 < term,
        }) ==> after_heartbeat(s, term).current_term == Some(term) && after_heartbeat(s, term).state
            == State::Follower && after_heartbeat(s, term).voted_for == s.voted_for,
        (match s.current_term {
            Some(t) => term <= t,
            None => term == 0,
        }) ==> after_heartbeat(s, term) == s,
        s.current_term matches Some(t) ==> t < election_term(s.current_term),
        s.current_term is None ==> election_term(s.current_term) == 1,
{
}

/// A heartbeat never lowers a node's term.
pub proof fn heartbeat_never_lowers_term(s: NodeState, term: usize)
    ensures
        s.current_term matches Some(t) ==> after_heartbeat(s, term).current_term matches Some(u)
            && t <= u,
{
}

/// How many of `answers` grant the vote.
pub open spec fn grants_in(answers: Seq<bool>) -> nat
    decreases answers.len(),
{
    if answers.len() == 0 {
        0
    } else {
        grants_in(answers.drop_last()) + if answers.last() {
            1nat
        } else {
            0nat
        }
    }
}

/// Counting grants: no answers hold none, one more granting answer adds one,
/// and one more refusal adds none.
pub proof fn grants_in_counts_each_answer(answers: Seq<bool>, answer: bool)
    ensures
        grants_in(Seq::<bool>::empty()) == 0,
        answer ==> grants_in(answers.push(answer)) == grants_in(answers) + 1,
        !answer ==> grants_in(answers.push(answer)) == grants_in(answers),
        grants_in(answers) <= answers.len(),
    decreases answers.len(),
{
    assert(answers.push(answer).drop_last() =~= answers);
    if answers.len() > 0 {
        grants_in_counts_each_answer(answers.drop_last(), answer);
    }
}

/// A candidate wins when twice its votes exceed the number of peers.
pub proof fn wins_is_more_than_half(votes: int, num_peers: int)
    requires
        0 <= num_peers,
    ensures
        wins(votes, num_peers) <==> 2 * votes > num_peers,
{
}

/// A node that has not voted grants every request whose term is not older
/// than its own, and records the vote; a node that has voted, or whose term
/// is newer than the request's, refuses and does not change.
pub proof fn vote_request_rule(s: NodeState, term: usize)
    ensures
        s.voted_for is None && (s.current_term is None || s.current_term->0 <= term) ==> after_vote_request(s, term).0
            && after_vote_request(s, term).1.voted_for is Some,
        s.voted_for is Some ==> !after_vote_request(s, term).0 && after_vote_request(s, term).1 == s,
        s.current_term matches Some(t) && term < t ==> !after_vote_request(s, term).0
            && after_vote_request(s, term).1 == s,
        after_vote_request(s, term).1.current_term == s.current_term,
        after_vote_request(s, term).1.state == s.state,
{
}

/// Adds one peer's answer to a running tally of `votes`: a granted vote
/// counts one more, a refused one leaves the tally, and a failed request
/// ends the election with an error.
pub fn count_grant(votes: usize, reply: Result<bool, RaftError>) -> (tally: Result<usize, RaftError>)
    requires
        votes < usize::MAX,
    ensures
        reply matches Ok(true) ==> tally == Ok::<usize, RaftError>((votes + 1) as usize),
        reply matches Ok(false) ==> tally == Ok::<usize, RaftError>(votes),
        reply is Err ==> tally matches Err(RaftError::UnknownError),
{
    match reply {
        Ok(true) => Ok(votes + 1),
        Ok(false) => Ok(votes),
        Err(_) => Err(RaftError::UnknownError),
    }
}

/// A node of the cluster running on this machine.
#[verifier::reject_recursive_types(LogType)]
pub struct LocalNode<
    'state_machine,
    'peers,
    LogType,
    P: Peer<LogType> + ?Sized + 'peers = dyn Peer<LogType> + 'peers,
    M: StateMachine<LogType> + ?Sized + 'state_machine = dyn StateMachine<LogType> + 'state_machine,
> {
    current_term: Option<usize>,
    voted_for: Option<usize>,
    state: State,
    peers: Vec<&'peers mut P>,
    logs: Vec<LogEntry<LogType>>,
    state_machine: &'state_machine M,
    answers: Ghost<Seq<bool>>,
}

impl<
    'state_machine,
    'peers,
    LogType,
    P: Peer<LogType> + ?Sized + 'peers,
    M: StateMachine<LogType> + ?Sized + 'state_machine,
> LocalNode<'state_machine, 'peers, LogType, P, M> {
    /// The node's abstract state.
    pub closed spec fn view_state(&self) -> NodeState {
        NodeState { current_term: self.current_term, voted_for: self.voted_for, state: self.state }
    }

    /// How many peers the node has.
    pub closed spec fn peer_count(&self) -> nat {
        self.peers@.len()
    }

    /// The node's peers, in the order they were added.
    pub closed spec fn peers_spec(&self) -> Seq<&'peers mut P> {
        self.peers@
    }

    /// The answers the node received to the vote requests of its last
    /// election, one per peer asked, in the order the peers were asked.
    pub closed spec fn answers(&self) -> Seq<bool> {
        self.answers@
    }

    /// How many entries the node's log holds.
    pub closed spec fn log_len(&self) -> nat {
        self.logs@.len()
    }

    /// The state machine the node was created with.
    pub closed spec fn state_machine_spec(&self) -> &M {
        self.state_machine
    }

    pub fn new(state_machine: &'state_machine M) -> (node: Self)
        ensures
            node.view_state() == (NodeState {
                current_term: None,
                voted_for: None,
                state: State::Follower,
            }),
            node.peer_count() == 0,
            node.log_len() == 0,
            node.state_machine_spec() == state_machine,
    {
        LocalNode {
            current_term: None,
            voted_for: None,
            peers: Vec::new(),
            logs: Vec::new(),
            state: State::Follower,
            state_machine,
            answers: Ghost(Seq::empty()),
        }
    }

    pub fn add_peer(&mut self, peer: &'peers mut P)
        ensures
            final(self).view_state() == old(self).view_state(),
            final(self).peer_count() == old(self).peer_count() + 1,
            final(self).peers_spec().drop_last() == old(self).peers_spec(),
            final(self).log_len() == old(self).log_len(),
            final(self).state_machine_spec() == old(self).state_machine_spec(),
    {
        self.peers.push(peer);
    }

    /// The term the node's next election runs in: one past its current
    /// term, or 1 when it has none.
    pub fn next_election_term(&self) -> (term: usize)
        requires
            self.view_state().current_term != Some(usize::MAX),
        ensures
            term == election_term(self.view_state().current_term),
    {
        match self.current_term {
            Some(term) => term + 1,
            None => 1,
        }
    }

    pub fn current_term(&self) -> (term: Option<usize>)
        ensures
            term == self.view_state().current_term,
    {
        self.current_term
    }

    pub fn voted_for(&self) -> (candidate: Option<usize>)
        ensures
            candidate == self.view_state().voted_for,
    {
        self.voted_for
    }

    pub fn state(&self) -> (state: &State)
        ensures
            *state == self.view_state().state,
    {
        &self.state
    }

    /// Asks every peer, in the order they were added, for its vote in the
    /// term given by `next_election_term`, adding each answer to the tally
    /// with `count_grant`. With more votes (its own included) than half the
    /// number of peers, the node takes that term and sends every peer a
    /// heartbeat for it; a failed vote request or heartbeat ends the election
    /// with an error.
    pub fn run_election(&mut self) -> (r: Result<(), RaftError>)
        requires
            old(self).view_state().current_term != Some(usize::MAX),
            old(self).peer_count() < usize::MAX,
        ensures
            final(self).view_state().voted_for == old(self).view_state().voted_for,
            final(self).view_state().state == old(self).view_state().state,
            final(self).peer_count() == old(self).peer_count(),
            final(self).view_state().current_term == old(self).view_state().current_term
                || final(self).view_state().current_term == Some(
                election_term(old(self).view_state().current_term) as usize,
            ),
            final(self).view_state().current_term != old(self).view_state().current_term ==> exists|
                votes: int,
            |
                1 <= votes <= old(self).peer_count() + 1 && #[trigger] wins(
                    votes,
                    old(self).peer_count() as int,
                ),
            r is Ok ==> exists|votes: int|
                1 <= votes <= old(self).peer_count() + 1 && ((final(self).view_state().current_term
                    != old(self).view_state().current_term) <==> #[trigger] wins(
                    votes,
                    old(self).peer_count() as int,
                )),
            r is Err ==> r matches Err(RaftError::UnknownError),
            old(self).peer_count() == 0 ==> r is Ok && final(self).view_state().current_term == Some(
                election_term(old(self).view_state().current_term) as usize,
            ),
            final(self).answers().len() <= old(self).peer_count(),
            ({
                let after = final(self).view_state().current_term;
                let tally = 1 + grants_in(final(self).answers()) as int;
                &&& r is Ok ==> final(self).answers().len() == old(self).peer_count() && ((after
                    != old(self).view_state().current_term) <==> wins(tally, old(self).peer_count() as int))
                &&& after != old(self).view_state().current_term ==> final(self).answers().len()
                    == old(self).peer_count() && wins(tally, old(self).peer_count() as int)
            }),
    {
        let new_term: usize = self.next_election_term();

        let mut votes: usize = 1;
        let n: usize = self.peers.len();
        proof {
            self.answers@ = Seq::empty();
        }
        let mut i: usize = 0;
        while i < n
            invariant
                n == self.peers@.len(),
                n == old(self).peers@.len(),
                n < usize::MAX,
                i <= n,
                1 <= votes <= i + 1,
                self.answers@.len() == i,
                votes == 1 + grants_in(self.answers@),
                self.view_state() == old(self).view_state(),
            decreases n - i,
        {
            let reply = self.peers[i].request_vote(new_term);
            let ghost answer = reply;
            match count_grant(votes, reply) {
                Ok(tally) => {
                    proof {
                        grants_in_counts_each_answer(self.answers@, answer->Ok_0);
                        self.answers@ = self.answers@.push(answer->Ok_0);
                    }
                    votes = tally;
                },
                Err(err) => {
                    return Err(err);
                },
            }
            i = i + 1;
        }

        if votes > n / 2 {
            self.current_term = Some(new_term);
            assert(old(self).view_state().current_term != self.current_term);
            let mut j: usize = 0;
            while j < n
                invariant
                    n == self.peers@.len(),
                    n == old(self).peers@.len(),
                    j <= n,
                    self.view_state() == (NodeState {
                        current_term: Some(new_term),
                        ..old(self).view_state()
                    }),
                    new_term == election_term(old(self).view_state().current_term),
                    old(self).view_state().current_term != Some(new_term),
                    1 <= votes <= n + 1,
                    wins(votes as int, n as int),
                    self.answers@.len() == n,
                    votes == 1 + grants_in(self.answers@),
                decreases n - j,
            {
                match self.peers[j].heartbeat(new_term) {
                    Ok(()) => {},
                    Err(_) => {
                        assert(wins(votes as int, old(self).peer_count() as int));
                        return Err(RaftError::UnknownError);
                    },
                }
                j = j + 1;
            }
        }
        assert(wins(votes as int, n as int) <==> self.current_term != old(self).view_state().current_term);
        Ok(())
    }

    /// Answers a vote request for `term` as a peer of another node: the vote
    /// is granted, and recorded, when the node has not voted yet and its term
    /// is not newer than `term`.
    pub fn request_vote(&mut self, term: usize) -> (r: Result<bool, RaftError>)
        ensures
            r == Ok::<bool, RaftError>(after_vote_request(old(self).view_state(), term).0),
            final(self).view_state() == after_vote_request(old(self).view_state(), term).1,
            final(self).peer_count() == old(self).peer_count(),
    {
        if self.voted_for.is_some() {
            return Ok(false);
        }
        match self.current_term {
            Some(t) => {
                if term < t {
                    return Ok(false);
                }
            },
            None => {},
        }
        self.voted_for = Some(1);
        Ok(true)
    }

    /// Receives a heartbeat for `term` as a peer of another node: a newer
    /// term than its own makes the node a follower in that term.
    pub fn heartbeat(&mut self, term: usize) -> (r: Result<(), RaftError>)
        ensures
            r is Ok,
            final(self).view_state() == after_heartbeat(old(self).view_state(), term),
            final(self).peer_count() == old(self).peer_count(),
    {
        if term > self.current_term.unwrap_or(0) {
            self.state = State::Follower;
            self.current_term = Some(term);
        }
        Ok(())
    }
}

} // verus!
