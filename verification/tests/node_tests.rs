use raft::log::{Collection, Entry, Storage};
use raft::node::{Config, Error, LocalNode, Peer, Role, StateMachine, Vote};
use raft::term::Term;

#[allow(dead_code)]
enum Command {
    Noop,
    SetTo(u32),
    Incr,
    Decr,
}

struct SimpleStateMachine {
    value: u32,
}

impl StateMachine<Command> for SimpleStateMachine {
    fn apply(&mut self, log: Command) -> Result<(), Error> {
        match log {
            Command::SetTo(x) => self.value = x,
            Command::Incr => self.value += 1,
            Command::Decr => self.value -= 1,
            _ => {}
        }

        Ok(())
    }
}

struct InMemoryLogStorage<'entry, LogType> {
    logs: Collection<'entry, LogType>,
}

impl<'entry, LogType> Default for InMemoryLogStorage<'entry, LogType> {
    fn default() -> Self {
        Self { logs: vec![] }
    }
}

impl<'entry, LogType> Storage<'entry, LogType> for InMemoryLogStorage<'entry, LogType> {
    #[allow(unused_variables)]
    fn get(&self, term: Term, index: usize) -> Result<LogType, ()> {
        if let Some(_log) = self.logs.get(index) {}

        Err(())
    }

    fn write(&mut self, log: &'entry Entry<LogType>) -> Result<(), Error> {
        self.logs.push(log);
        Ok(())
    }
}

struct Voter {
    id: usize,
    vote: Vote,
}

#[allow(unused_variables)]
impl<'entry, LogType> Peer<'entry, LogType> for Voter {
    fn id(&self) -> usize {
        self.id
    }

    fn request_vote(
        &self,
        term: Term,
        candidate_id: usize,
        last_log_index: usize,
        last_log_term: Term,
    ) -> Result<Vote, Error> {
        Ok(self.vote)
    }

    fn append_entries(
        &self,
        term: Term,
        leader_id: usize,
        prev_log_index: usize,
        prev_log_term: Term,
        entries: Collection<LogType>,
        leader_commit: usize,
    ) -> Result<(), Error> {
        Ok(())
    }
}

impl Voter {
    fn new(id: usize, vote: Vote) -> Self {
        Self { id, vote }
    }
}

#[test]
fn new_node() {
    let mut storage = InMemoryLogStorage::default();
    let _node = LocalNode::<Command>::new(
        Config::default(),
        &SimpleStateMachine { value: 20 },
        &mut storage,
    );
    assert!(true)
}

#[test]
fn simple_state_machine() {
    let mut machine = SimpleStateMachine { value: 0 };

    assert!(matches!(machine.apply(Command::SetTo(10)), Ok(())));
    assert_eq!(machine.value, 10);
    assert!(matches!(machine.apply(Command::Incr), Ok(())));
    assert_eq!(machine.value, 11);
    assert!(matches!(machine.apply(Command::Incr), Ok(())));
    assert_eq!(machine.value, 12);
    assert!(matches!(machine.apply(Command::Decr), Ok(())));
    assert_eq!(machine.value, 11);
}

#[test]
fn election_peers_votes_yes() {
    let mut storage = InMemoryLogStorage::default();
    let mut node1 = LocalNode::<Command>::new(
        Config::default(),
        &SimpleStateMachine { value: 0 },
        &mut storage,
    );
    let node2 = Voter::new(2, Vote::For);
    let node3 = Voter::new(3, Vote::For);

    node1.add_peer(&node2);
    node1.add_peer(&node3);

    assert!(node1.run_election().is_ok());

    assert_eq!(node1.current_term(), Some(0));
    assert_eq!(*node1.role(), Role::Leader);
}

#[test]
fn election_peers_votes_no() {
    let mut storage = InMemoryLogStorage::default();
    let mut node1 = LocalNode::<Command>::new(
        Config::default(),
        &SimpleStateMachine { value: 0 },
        &mut storage,
    );
    let node2 = Voter::new(2, Vote::Against);
    let node3 = Voter::new(3, Vote::Against);

    node1.add_peer(&node2);
    node1.add_peer(&node3);

    assert!(node1.run_election().is_ok());

    assert_eq!(node1.current_term(), Some(0));
    assert_eq!(*node1.role(), Role::Follower);
}

#[test]
fn election_peers_small_majority() {
    let mut storage = InMemoryLogStorage::default();
    let mut node1 =
        LocalNode::<Command>::new(Config::new(1), &SimpleStateMachine { value: 0 }, &mut storage);
    let node2 = Voter::new(2, Vote::Against);
    let node3 = Voter::new(3, Vote::Against);
    let node4 = Voter::new(4, Vote::For);
    let node5 = Voter::new(5, Vote::For);

    node1.add_peer(&node2);
    node1.add_peer(&node3);
    node1.add_peer(&node4);
    node1.add_peer(&node5);

    assert!(node1.run_election().is_ok());

    assert_eq!(node1.current_term(), Some(0));
    assert_eq!(*node1.role(), Role::Leader);
    assert_eq!(node1.leader_id(), Some(1));
}

#[test]
fn election_deadlock_no_progress() {
    let mut storage = InMemoryLogStorage::default();
    let mut node1 = LocalNode::<Command>::new(
        Config::default(),
        &SimpleStateMachine { value: 0 },
        &mut storage,
    );
    let node2 = Voter::new(2, Vote::Against);

    node1.add_peer(&node2);

    assert!(node1.run_election().is_ok());

    assert_eq!(node1.current_term(), Some(0));
    assert_eq!(*node1.role(), Role::Follower);
}

#[test]
fn request_vote_returns_against_for_smaller_term() {
    let mut storage = InMemoryLogStorage::default();
    let mut node1 = LocalNode::<Command>::new(
        Config::default(),
        &SimpleStateMachine { value: 0 },
        &mut storage,
    )
    .with_term(10);

    assert!(matches!(node1.request_vote(9, 1, 0, 0), Ok(Vote::Against)));
}

#[test]
fn heartbeat_with_higher_term_sets_follower() {
    let mut storage = InMemoryLogStorage::default();
    let mut node1 = LocalNode::<Command>::new(
        Config::default(),
        &SimpleStateMachine { value: 0 },
        &mut storage,
    )
    .with_term(10)
    .with_role(Role::Leader);

    assert!(matches!(
        node1.append_entries(11, 2, 0, 0, vec![], 0),
        Ok(())
    ));
    assert_eq!(*node1.role(), Role::Follower);
    assert_eq!(node1.current_term(), Some(11));
}

#[test]
fn append_entries_adds_entries() {
    let mut storage = InMemoryLogStorage::default();
    let mut node1 = LocalNode::<Command>::new(
        Config::default(),
        &SimpleStateMachine { value: 0 },
        &mut storage,
    )
    .with_term(10)
    .with_role(Role::Follower);

    assert!(matches!(
        node1.append_entries(10, 2, 0, 0, vec![], 0),
        Ok(())
    ));
}
