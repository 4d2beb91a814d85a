# raft

A small Raft consensus core, verified with Verus.

- `src/node.rs`: `LocalNode`, a cluster member that runs elections, answers
  vote requests and accepts entries from a leader. Its peers, log storage and
  state machine are traits the user implements. Each operation's contract is
  stated over the node's abstract state (`NodeState`) and spec functions
  (`grants_vote`, `follow_leader`, `after_append`, `wins_election`), with the
  laws of the protocol proved beside them.
- `src/simple_node.rs`: a smaller node whose peers answer yes or no and take
  heartbeats.
- `src/wire.rs`: the 32-bit request messages and reply reading used by a peer
  reached over gRPC.
- `src/log.rs`, `src/term.rs`: log entries, the storage trait, terms.

`tests/` holds the tests, run against the compiled library.
