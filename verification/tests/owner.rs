//! The owner-side worker: answering requests, INCR delivery, clears.

use x11_clipboard::event::{
    PropertyNotifyEvent, PropertyState, SelectionClearEvent, SelectionRequestEvent, XEvent,
};
use x11_clipboard::owner::{OwnerAction, OwnerWorker, ReplyData};
use x11_clipboard::store::{Offer, SelectionStore};
use x11_clipboard::INCR_CHUNK_SIZE;

const SELECTION: u32 = 11;
const TARGETS: u32 = 22;
const UTF8: u32 = 33;
const HTML: u32 = 44;
const STAGING: u32 = 55;
const PEER: u32 = 66;
const MAX_BYTES: usize = 4096;

fn request(target: u32, property: u32) -> XEvent {
    XEvent::SelectionRequest(SelectionRequestEvent {
        time: 1000,
        requestor: PEER,
        selection: SELECTION,
        target,
        property,
    })
}

fn deleted(property: u32) -> XEvent {
    XEvent::PropertyNotify(PropertyNotifyEvent {
        window: PEER,
        property,
        state: PropertyState::Deleted,
    })
}

#[test]
fn small_payload_is_written_whole() {
    let mut store = SelectionStore::new();
    store.put(SELECTION, UTF8, b"hello".to_vec());
    let mut worker = OwnerWorker::new();

    let action = worker.handle_event(&mut store, &request(UTF8, STAGING), TARGETS, MAX_BYTES);
    match action {
        OwnerAction::Answer(rep) => {
            assert_eq!(rep.requestor, PEER);
            assert_eq!(rep.property, STAGING);
            assert_eq!(rep.notify.property, STAGING);
            assert_eq!(rep.notify.time, 1000);
            match rep.data {
                ReplyData::Full { target, bytes } => {
                    assert_eq!(target, UTF8);
                    assert_eq!(bytes, b"hello".to_vec());
                },
                other => panic!("expected a full write, got {:?}", other),
            }
        },
        other => panic!("expected an answer, got {:?}", other),
    }
}

#[test]
fn targets_reply_lists_targets_and_every_offer() {
    let mut store = SelectionStore::new();
    let offers = vec![
        Offer { target: UTF8, value: b"plain".to_vec() },
        Offer { target: HTML, value: b"<b>rich</b>".to_vec() },
    ];
    store.put_many(SELECTION, offers);
    let mut worker = OwnerWorker::new();

    let action = worker.handle_event(&mut store, &request(TARGETS, STAGING), TARGETS, MAX_BYTES);
    match action {
        OwnerAction::Answer(rep) => match rep.data {
            ReplyData::TargetList(mut atoms) => {
                atoms.sort();
                let mut expected = vec![TARGETS, UTF8, HTML];
                expected.sort();
                assert_eq!(atoms, expected);
            },
            other => panic!("expected a target list, got {:?}", other),
        },
        other => panic!("expected an answer, got {:?}", other),
    }
}

#[test]
fn unoffered_target_is_refused_with_null_property() {
    let mut store = SelectionStore::new();
    store.put(SELECTION, UTF8, b"secret".to_vec());
    let mut worker = OwnerWorker::new();

    let action = worker.handle_event(&mut store, &request(HTML, STAGING), TARGETS, MAX_BYTES);
    match action {
        OwnerAction::Answer(rep) => {
            assert!(matches!(rep.data, ReplyData::Refuse));
            assert_eq!(rep.notify.property, 0);
        },
        other => panic!("expected an answer, got {:?}", other),
    }
}

#[test]
fn unknown_selection_is_ignored() {
    let mut store = SelectionStore::new();
    let mut worker = OwnerWorker::new();
    let action = worker.handle_event(&mut store, &request(UTF8, STAGING), TARGETS, MAX_BYTES);
    assert!(matches!(action, OwnerAction::Ignore));
}

#[test]
fn single_write_threshold_is_max_bytes_minus_24() {
    // The largest payload written whole is max_bytes - 25 bytes; one byte
    // more crosses into INCR delivery.
    for (len, incr_expected) in [(MAX_BYTES - 25, false), (MAX_BYTES - 24, true)] {
        let mut store = SelectionStore::new();
        store.put(SELECTION, UTF8, vec![1; len]);
        let mut worker = OwnerWorker::new();
        let action = worker.handle_event(&mut store, &request(UTF8, STAGING), TARGETS, MAX_BYTES);
        match action {
            OwnerAction::Answer(rep) => match rep.data {
                ReplyData::Full { bytes, .. } => {
                    assert!(!incr_expected);
                    assert_eq!(bytes.len(), len);
                },
                ReplyData::IncrBegin => assert!(incr_expected),
                other => panic!("expected data or INCR, got {:?}", other),
            },
            other => panic!("expected an answer, got {:?}", other),
        }
    }
}

#[test]
fn oversized_payload_traverses_the_incr_path() {
    let len = 10_000;
    let payload: Vec<u8> = (0..len).map(|i| (i % 251) as u8).collect();
    let mut store = SelectionStore::new();
    store.put(SELECTION, UTF8, payload.clone());
    let mut worker = OwnerWorker::new();

    let action = worker.handle_event(&mut store, &request(UTF8, STAGING), TARGETS, MAX_BYTES);
    match action {
        OwnerAction::Answer(rep) => assert!(matches!(rep.data, ReplyData::IncrBegin)),
        other => panic!("expected an answer, got {:?}", other),
    }
    assert!(worker.has_transfers());

    // Every deletion of the destination property asks for the next chunk.
    let mut chunks: Vec<Vec<u8>> = Vec::new();
    loop {
        let action = worker.handle_event(&mut store, &deleted(STAGING), TARGETS, MAX_BYTES);
        match action {
            OwnerAction::WriteChunk { requestor, property, target, bytes, done } => {
                assert_eq!(requestor, PEER);
                assert_eq!(property, STAGING);
                assert_eq!(target, UTF8);
                let end = bytes.is_empty();
                assert_eq!(done, end);
                chunks.push(bytes);
                if done {
                    break;
                }
            },
            other => panic!("expected a chunk, got {:?}", other),
        }
    }

    // ceil(len / INCR_CHUNK_SIZE) data chunks plus the terminator; only
    // the final chunk is empty.
    let data_chunks = (len + INCR_CHUNK_SIZE - 1) / INCR_CHUNK_SIZE;
    assert_eq!(chunks.len(), data_chunks + 1);
    for chunk in &chunks[..data_chunks] {
        assert!(!chunk.is_empty());
        assert!(chunk.len() <= INCR_CHUNK_SIZE);
    }
    assert!(chunks.last().unwrap().is_empty());

    let rebuilt: Vec<u8> = chunks.concat();
    assert_eq!(rebuilt, payload);
    assert!(!worker.has_transfers());
}

#[test]
fn concurrent_transfers_are_kept_apart_by_property() {
    let payload: Vec<u8> = (0..9_000).map(|i| (i % 241) as u8).collect();
    let mut store = SelectionStore::new();
    store.put(SELECTION, UTF8, payload.clone());
    let mut worker = OwnerWorker::new();

    let staging_a = 700;
    let staging_b = 701;
    for staging in [staging_a, staging_b] {
        let action = worker.handle_event(&mut store, &request(UTF8, staging), TARGETS, MAX_BYTES);
        match action {
            OwnerAction::Answer(rep) => assert!(matches!(rep.data, ReplyData::IncrBegin)),
            other => panic!("expected an answer, got {:?}", other),
        }
    }

    // Interleave the two requestors chunk by chunk.
    let mut rebuilt_a: Vec<u8> = Vec::new();
    let mut rebuilt_b: Vec<u8> = Vec::new();
    let mut done_a = false;
    let mut done_b = false;
    while !done_a || !done_b {
        for (staging, rebuilt, done) in [
            (staging_a, &mut rebuilt_a, &mut done_a),
            (staging_b, &mut rebuilt_b, &mut done_b),
        ] {
            if *done {
                continue;
            }
            let action = worker.handle_event(&mut store, &deleted(staging), TARGETS, MAX_BYTES);
            match action {
                OwnerAction::WriteChunk { property, bytes, done: end, .. } => {
                    assert_eq!(property, staging);
                    rebuilt.extend_from_slice(&bytes);
                    *done = end;
                },
                other => panic!("expected a chunk, got {:?}", other),
            }
        }
    }
    assert_eq!(rebuilt_a, payload);
    assert_eq!(rebuilt_b, payload);
}

#[test]
fn selection_clear_removes_the_entry_and_its_transfer() {
    let payload: Vec<u8> = vec![7; 8_000];
    let mut store = SelectionStore::new();
    store.put(SELECTION, UTF8, payload);
    let mut worker = OwnerWorker::new();

    // Start an INCR transfer so the clear has state to drop.
    worker.handle_event(&mut store, &request(UTF8, STAGING), TARGETS, MAX_BYTES);
    assert!(worker.has_transfers());

    let action = worker.handle_event(
        &mut store,
        &XEvent::SelectionClear(SelectionClearEvent { selection: SELECTION }),
        TARGETS,
        MAX_BYTES,
    );
    assert!(matches!(action, OwnerAction::Cleared));
    assert!(!store.has_selection(SELECTION));
    assert!(!worker.has_transfers());

    // A late-arriving request finds nothing: no stale bytes.
    let action = worker.handle_event(&mut store, &request(UTF8, STAGING), TARGETS, MAX_BYTES);
    assert!(matches!(action, OwnerAction::Ignore));
}

#[test]
fn store_change_invalidates_the_running_transfer() {
    let payload: Vec<u8> = vec![3; 8_000];
    let mut store = SelectionStore::new();
    store.put(SELECTION, UTF8, payload);
    let mut worker = OwnerWorker::new();

    worker.handle_event(&mut store, &request(UTF8, STAGING), TARGETS, MAX_BYTES);
    assert!(worker.has_transfers());

    worker.invalidate_selection(SELECTION);
    assert!(!worker.has_transfers());

    let action = worker.handle_event(&mut store, &deleted(STAGING), TARGETS, MAX_BYTES);
    assert!(matches!(action, OwnerAction::Ignore));
}
