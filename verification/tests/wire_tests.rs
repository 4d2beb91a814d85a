use raft::node::{Error, Vote};
use raft::wire::{append_entries_msg, request_vote_msg, vote_from_reply};

#[test]
fn request_vote_msg_keeps_small_numbers() {
    let msg = request_vote_msg(3, 1, 10, 2);
    assert_eq!(msg.term, 3);
    assert_eq!(msg.candidate_id, 1);
    assert_eq!(msg.last_log_index, 10);
    assert_eq!(msg.last_log_term, 2);
}

#[test]
fn request_vote_msg_truncates_to_32_bits() {
    let big: usize = (1usize << 32) + 5;
    let msg = request_vote_msg(big, big + 1, 0, usize::MAX);
    assert_eq!(msg.term, 5);
    assert_eq!(msg.candidate_id, 6);
    assert_eq!(msg.last_log_index, 0);
    assert_eq!(msg.last_log_term, u32::MAX);
}

#[test]
fn append_entries_msg_carries_entries() {
    let msg = append_entries_msg(4, 2, 7, 3, vec![1, 2, 3], (1usize << 33) + 9);
    assert_eq!(msg.term, 4);
    assert_eq!(msg.leader_id, 2);
    assert_eq!(msg.prev_log_index, 7);
    assert_eq!(msg.prev_log_term, 3);
    assert_eq!(msg.entries, vec![1u8, 2, 3]);
    assert_eq!(msg.leader_commit, 9);
}

#[test]
fn vote_from_reply_values() {
    assert!(matches!(vote_from_reply(Some(true)), Ok(Vote::For)));
    assert!(matches!(vote_from_reply(Some(false)), Ok(Vote::Against)));
    assert!(matches!(vote_from_reply(None), Err(Error::UnknownError)));
}
