use rustystorage::backend::BackendReply;
use rustystorage::error::TransferError;
use rustystorage::identifier::{generate_uuid, Allocation, MAX_PROBES};
use std::collections::HashSet;

fn status(code: u16) -> BackendReply {
    BackendReply::Status { code, body: Vec::new() }
}

fn is_canonical(id: &str) -> bool {
    id.len() == 36
        && id.chars().enumerate().all(|(i, c)| match i {
            8 | 13 | 18 | 23 => c == '-',
            _ => c.is_ascii_digit() || ('a'..='f').contains(&c),
        })
}

#[test]
fn candidate_is_a_canonical_identifier() {
    let allocator = generate_uuid();
    assert!(is_canonical(allocator.candidate_id()));
    assert_eq!(allocator.collision_count(), 0);
    assert_eq!(allocator.candidate_id().as_bytes()[14], b'4');
}

#[test]
fn candidates_differ() {
    let mut seen = HashSet::new();
    for _ in 0..1000 {
        assert!(seen.insert(generate_uuid().candidate_id().clone()));
    }
}

#[test]
fn free_candidate_is_allocated() {
    let allocator = generate_uuid();
    let candidate = allocator.candidate_id().clone();
    match allocator.on_probe(&status(404)) {
        Allocation::Allocated(id) => assert_eq!(id, candidate),
        _ => panic!("a free candidate must be allocated"),
    }
}

#[test]
fn collision_is_retried_exactly_once() {
    let replies = [status(200), status(404)];
    let mut probed = Vec::new();
    let mut allocator = generate_uuid();
    let mut allocated = None;
    for reply in replies.iter() {
        probed.push(allocator.candidate_id().clone());
        match allocator.on_probe(reply) {
            Allocation::Probe(next) => allocator = next,
            Allocation::Allocated(id) => {
                allocated = Some(id);
                break;
            }
            Allocation::Failed(reason) => panic!("allocation failed: {:?}", reason),
        }
    }
    assert_eq!(probed.len(), 2);
    assert_ne!(probed[0], probed[1]);
    assert_eq!(allocated, Some(probed[1].clone()));
}

#[test]
fn collision_counts_up() {
    let allocator = generate_uuid();
    match allocator.on_probe(&status(200)) {
        Allocation::Probe(next) => {
            assert_eq!(next.collision_count(), 1);
            assert!(is_canonical(next.candidate_id()));
            match next.on_probe(&status(204)) {
                Allocation::Probe(third) => assert_eq!(third.collision_count(), 2),
                _ => panic!("a second collision must be probed again"),
            }
        }
        _ => panic!("a collision must be probed again"),
    }
}

#[test]
fn unanswered_probe_ends_the_allocation() {
    match generate_uuid().on_probe(&BackendReply::TransportFailure) {
        Allocation::Failed(reason) => assert_eq!(reason, TransferError::BackendUnavailable),
        _ => panic!("an unanswered probe must fail"),
    }
}

#[test]
fn allocation_gives_up_after_the_last_probe() {
    let mut allocator = generate_uuid();
    let mut collisions: u32 = 0;
    let reason = loop {
        match allocator.on_probe(&status(200)) {
            Allocation::Probe(next) => {
                collisions += 1;
                assert_eq!(next.collision_count(), collisions);
                allocator = next;
            }
            Allocation::Failed(reason) => break reason,
            Allocation::Allocated(_) => panic!("a candidate in use must not be allocated"),
        }
    };
    assert_eq!(reason, TransferError::AllocationExhausted);
    assert_eq!(collisions, MAX_PROBES - 1);
}
