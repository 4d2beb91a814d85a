use raft::simple_node::{LocalNode, LogEntry, Peer, RaftError, State, StateMachine};

enum Command {
    SetTo(u32),
    Incr,
    Decr,
}

struct SimpleStateMachine {
    value: u32,
}

impl StateMachine<Command> for SimpleStateMachine {
    fn apply(&mut self, log: Command) -> Result<(), RaftError> {
        match log {
            Command::SetTo(x) => self.value = x,
            Command::Incr => self.value += 1,
            Command::Decr => self.value -= 1,
        }

        Ok(())
    }
}

impl<'state_machine, 'peers> Peer<Command> for LocalNode<'state_machine, 'peers, Command> {
    #[allow(unused_variables)]
    fn append_entries(&mut self, term: usize, entries: Vec<LogEntry<Command>>) -> Result<(), RaftError> {
        unreachable!("no test sends entries")
    }

    fn request_vote(&mut self, term: usize) -> Result<bool, RaftError> {
        LocalNode::request_vote(self, term)
    }

    fn heartbeat(&mut self, term: usize) -> Result<(), RaftError> {
        LocalNode::heartbeat(self, term)
    }
}

/// A peer whose answers are fixed.
struct Fixed {
    grant: Result<bool, ()>,
    beats: usize,
}

#[allow(unused_variables)]
impl Peer<Command> for Fixed {
    fn append_entries(&mut self, term: usize, entries: Vec<LogEntry<Command>>) -> Result<(), RaftError> {
        Ok(())
    }

    fn request_vote(&mut self, term: usize) -> Result<bool, RaftError> {
        match self.grant {
            Ok(b) => Ok(b),
            Err(()) => Err(RaftError::UnknownError),
        }
    }

    fn heartbeat(&mut self, term: usize) -> Result<(), RaftError> {
        self.beats += 1;
        Ok(())
    }
}

#[test]
fn node_new_node() {
    let _node = LocalNode::<Command>::new(&SimpleStateMachine { value: 20 });
    assert!(true)
}

#[test]
fn node_simple_state_machine() {
    let mut machine = SimpleStateMachine { value: 0 };

    assert!(matches!(machine.apply(Command::SetTo(10)), Ok(())));
    assert_eq!(machine.value, 10);
    assert!(matches!(machine.apply(Command::Incr), Ok(())));
    assert_eq!(machine.value, 11);
    assert!(matches!(machine.apply(Command::Incr), Ok(())));
    assert_eq!(machine.value, 12);
    assert!(matches!(machine.apply(Command::Decr), Ok(())));
    assert_eq!(machine.value, 11);
}

#[test]
fn election() {
    let mut node1 = LocalNode::<Command>::new(&SimpleStateMachine { value: 0 });
    let mut node2 = LocalNode::<Command>::new(&SimpleStateMachine { value: 0 });

    node1.add_peer(&mut node2);

    assert!(node1.run_election().is_ok());

    assert_eq!(node1.current_term(), Some(1));
    assert_eq!(node2.current_term(), Some(1));
}

#[test]
fn lone_simple_node_takes_term_one() {
    let mut node = LocalNode::<Command>::new(&SimpleStateMachine { value: 0 });
    assert!(node.run_election().is_ok());
    assert_eq!(node.current_term(), Some(1));
    assert!(node.run_election().is_ok());
    assert_eq!(node.current_term(), Some(2));
    assert_eq!(*node.state(), State::Follower);
    assert_eq!(node.voted_for(), None);
}

#[test]
fn lost_election_keeps_term() {
    let machine = SimpleStateMachine { value: 0 };
    let mut a = Fixed { grant: Ok(false), beats: 0 };
    let mut b = Fixed { grant: Ok(false), beats: 0 };
    let mut node = LocalNode::<Command, Fixed>::new(&machine);
    node.add_peer(&mut a);
    node.add_peer(&mut b);
    assert!(node.run_election().is_ok());
    assert_eq!(node.current_term(), None);
    assert_eq!(a.beats, 0);
}

#[test]
fn won_election_sends_heartbeats() {
    let machine = SimpleStateMachine { value: 0 };
    let mut a = Fixed { grant: Ok(true), beats: 0 };
    let mut b = Fixed { grant: Ok(false), beats: 0 };
    let mut node = LocalNode::<Command, Fixed>::new(&machine);
    node.add_peer(&mut a);
    node.add_peer(&mut b);
    assert!(node.run_election().is_ok());
    assert_eq!(node.current_term(), Some(1));
    assert_eq!(a.beats, 1);
    assert_eq!(b.beats, 1);
}

#[test]
fn failed_vote_request_is_an_error() {
    let machine = SimpleStateMachine { value: 0 };
    let mut a = Fixed { grant: Err(()), beats: 0 };
    let mut node = LocalNode::<Command, Fixed>::new(&machine);
    node.add_peer(&mut a);
    assert!(matches!(node.run_election(), Err(RaftError::UnknownError)));
    assert_eq!(node.current_term(), None);
}

#[test]
fn simple_node_votes_once() {
    let mut node = LocalNode::<Command>::new(&SimpleStateMachine { value: 0 });
    assert!(matches!(node.request_vote(3), Ok(true)));
    assert_eq!(node.voted_for(), Some(1));
    assert!(matches!(node.request_vote(4), Ok(false)));
}

#[test]
fn simple_node_refuses_older_term() {
    let mut node = LocalNode::<Command>::new(&SimpleStateMachine { value: 0 });
    assert!(node.heartbeat(5).is_ok());
    assert_eq!(node.current_term(), Some(5));
    assert!(matches!(node.request_vote(4), Ok(false)));
    assert_eq!(node.voted_for(), None);
    assert!(matches!(node.request_vote(5), Ok(true)));
}

#[test]
fn heartbeat_only_moves_term_forward() {
    let mut node = LocalNode::<Command>::new(&SimpleStateMachine { value: 0 });
    assert!(node.heartbeat(0).is_ok());
    assert_eq!(node.current_term(), None);
    assert!(node.heartbeat(7).is_ok());
    assert!(node.heartbeat(6).is_ok());
    assert_eq!(node.current_term(), Some(7));
    assert_eq!(*node.state(), State::Follower);
}
