//! Whole loads played against a local owner, and the store itself.

use x11_clipboard::error::Error;
use x11_clipboard::event::SelectionRequestEvent;
use x11_clipboard::exchange::exchange_load;
use x11_clipboard::owner::OwnerWorker;
use x11_clipboard::store::{targets_distinct, Offer, SelectionStore};

const SELECTION: u32 = 1;
const TARGETS: u32 = 2;
const UTF8: u32 = 3;
const HTML: u32 = 4;
const INCR: u32 = 5;
const STAGING: u32 = 6;
const WINDOW: u32 = 7;
const MAX_BYTES: usize = 4096;

fn request(target: u32, staging: u32) -> SelectionRequestEvent {
    SelectionRequestEvent {
        time: 12345,
        requestor: WINDOW,
        selection: SELECTION,
        target,
        property: staging,
    }
}

fn load(store: &mut SelectionStore, target: u32, staging: u32) -> Result<Vec<u8>, Error> {
    let mut worker = OwnerWorker::new();
    exchange_load(store, &mut worker, request(target, staging), TARGETS, INCR, MAX_BYTES)
}

#[test]
fn stored_value_loads_back_empty() {
    let mut store = SelectionStore::new();
    store.put(SELECTION, UTF8, Vec::new());
    assert_eq!(load(&mut store, UTF8, STAGING).unwrap(), Vec::<u8>::new());
}

#[test]
fn stored_value_loads_back_one_byte() {
    let mut store = SelectionStore::new();
    store.put(SELECTION, UTF8, vec![42]);
    assert_eq!(load(&mut store, UTF8, STAGING).unwrap(), vec![42]);
}

#[test]
fn stored_value_loads_back_past_the_incr_threshold() {
    let payload: Vec<u8> = (0..100_000).map(|i| (i % 199) as u8).collect();
    let mut store = SelectionStore::new();
    store.put(SELECTION, UTF8, payload.clone());
    assert_eq!(load(&mut store, UTF8, STAGING).unwrap(), payload);
}

#[test]
fn loading_an_unoffered_target_yields_the_empty_refusal() {
    let mut store = SelectionStore::new();
    store.put(SELECTION, UTF8, b"mine".to_vec());
    // Refused, never another target's bytes.
    assert_eq!(load(&mut store, HTML, STAGING).unwrap(), Vec::<u8>::new());
}

#[test]
fn loading_an_unowned_selection_times_out() {
    let mut store = SelectionStore::new();
    assert!(matches!(load(&mut store, UTF8, STAGING), Err(Error::Timeout)));
}

#[test]
fn two_loads_of_the_same_incr_selection_agree() {
    let payload: Vec<u8> = (0..50_000).map(|i| (i % 193) as u8).collect();
    let mut store = SelectionStore::new();
    store.put(SELECTION, UTF8, payload.clone());

    let first = load(&mut store, UTF8, STAGING).unwrap();
    let second = load(&mut store, UTF8, STAGING + 1).unwrap();
    assert_eq!(first, payload);
    assert_eq!(second, payload);
}

#[test]
fn several_representations_load_back_individually() {
    let mut store = SelectionStore::new();
    let offers = vec![
        Offer { target: UTF8, value: b"plain text".to_vec() },
        Offer { target: HTML, value: b"<p>rich text</p>".to_vec() },
    ];
    assert!(targets_distinct(&offers));
    store.put_many(SELECTION, offers);

    assert_eq!(load(&mut store, UTF8, STAGING).unwrap(), b"plain text".to_vec());
    assert_eq!(load(&mut store, HTML, STAGING).unwrap(), b"<p>rich text</p>".to_vec());
}

#[test]
fn a_new_store_replaces_the_whole_entry() {
    let mut store = SelectionStore::new();
    store.put(SELECTION, UTF8, b"old".to_vec());
    store.put(SELECTION, HTML, b"new".to_vec());
    // The old representation is gone with its entry.
    assert_eq!(load(&mut store, UTF8, STAGING).unwrap(), Vec::<u8>::new());
    assert_eq!(load(&mut store, HTML, STAGING).unwrap(), b"new".to_vec());
}

#[test]
fn duplicate_targets_are_detected() {
    let offers = vec![
        Offer { target: UTF8, value: b"a".to_vec() },
        Offer { target: UTF8, value: b"b".to_vec() },
    ];
    assert!(!targets_distinct(&offers));
    let offers = vec![
        Offer { target: UTF8, value: b"a".to_vec() },
        Offer { target: HTML, value: b"a".to_vec() },
    ];
    assert!(targets_distinct(&offers));
}

#[test]
fn removed_selection_no_longer_serves() {
    let mut store = SelectionStore::new();
    store.put(SELECTION, UTF8, b"gone soon".to_vec());
    assert!(store.has_selection(SELECTION));
    store.remove(SELECTION);
    assert!(!store.has_selection(SELECTION));
    assert!(matches!(load(&mut store, UTF8, STAGING), Err(Error::Timeout)));
}

#[test]
fn lookup_returns_the_requested_representation() {
    let mut store = SelectionStore::new();
    let offers = vec![
        Offer { target: UTF8, value: vec![1, 2] },
        Offer { target: HTML, value: vec![3, 4] },
    ];
    store.put_many(SELECTION, offers);
    assert_eq!(store.lookup(SELECTION, UTF8), Some(&vec![1, 2]));
    assert_eq!(store.lookup(SELECTION, HTML), Some(&vec![3, 4]));
    assert_eq!(store.lookup(SELECTION, TARGETS), None);
    assert_eq!(store.lookup(SELECTION + 1, UTF8), None);
}
