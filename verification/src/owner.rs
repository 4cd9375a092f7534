//! The owner-side protocol engine.
//!
//! One background thread serves every selection this process currently
//! owns.  Each protocol event it drains is handed to
//! [`OwnerWorker::handle_event`], which decides — with a proved contract
//! — what goes on the wire: a direct property write, a TARGETS list, the
//! start or the continuation of an INCR transfer, or nothing at all.
//! The caller performs the writes the returned [`OwnerAction`] names and
//! sends the selection-notify echo; the multiplexed wait on the
//! transport and the cancellation descriptor stays with the caller.

use vstd::prelude::*;
use std::collections::HashMap;
use crate::{Atom, Timestamp, Window, ATOM_NONE};
use crate::event::{PropertyState, SelectionRequestEvent, XEvent};
use crate::incr::{chunk_at, chunk_len};
use crate::store::{lookup_spec, Offer, SelectionStore};

verus! {

broadcast use vstd::std_specs::hash::group_hash_axioms;

/// Bookkeeping for one in-flight INCR delivery.  Keyed by the
/// destination property, so distinct concurrent requestors get distinct
/// state; `pos` is the transfer cursor — how many payload bytes have been
/// written so far — and never decreases.
#[derive(Clone, Copy, Debug, PartialEq, Eq, Structural)]
pub struct IncrTransfer {
    pub selection: Atom,
    pub requestor: Window,
    pub property: Atom,
    pub target: Atom,
    pub pos: usize,
}

/// The selection-notify event the owner sends back, echoing the
/// request's time, requestor, selection and target.  Its property names
/// where the answer was written, or is the null atom for a refusal.
#[derive(Clone, Copy, Debug, PartialEq, Eq, Structural)]
pub struct SelectionNotifyReply {
    pub time: Timestamp,
    pub requestor: Window,
    pub selection: Atom,
    pub target: Atom,
    pub property: Atom,
}

/// The data half of an answer to one selection-request.
#[derive(Debug)]
pub enum ReplyData {
    /// Write this list into the destination property, ATOM-typed,
    /// format 32.
    TargetList(Vec<Atom>),
    /// Write the payload whole into the destination property, typed by
    /// the requested target, format 8.
    Full { target: Atom, bytes: Vec<u8> },
    /// Subscribe to the requestor's property-change events, then write a
    /// zero-length property of type INCR: chunked delivery follows.
    IncrBegin,
    /// Refuse the conversion: write nothing.
    Refuse,
}

/// The complete answer to one selection-request: the data write, then
/// the selection-notify echo, then a flush.
#[derive(Debug)]
pub struct RequestReply {
    /// Whose property to write.
    pub requestor: Window,
    /// Which property to write.
    pub property: Atom,
    /// What to write there.
    pub data: ReplyData,
    /// The notify to send once the write is done.
    pub notify: SelectionNotifyReply,
}

/// What the worker does with one drained event.
#[derive(Debug)]
pub enum OwnerAction {
    /// The event asks nothing of us (unknown selection, stray event, a
    /// property-notify with no transfer behind it).
    Ignore,
    /// Answer a selection-request.
    Answer(RequestReply),
    /// Continue one INCR transfer: write `bytes` into `property` on
    /// `requestor`, typed by `target`, format 8, and flush.  When `done`,
    /// this zero-length write is the end-of-transfer marker.
    WriteChunk {
        requestor: Window,
        property: Atom,
        target: Atom,
        bytes: Vec<u8>,
        done: bool,
    },
    /// Ownership of the event's selection went elsewhere: its store
    /// entry and any transfer state for it are gone.  Nothing goes on
    /// the wire.
    Cleared,
}

/// An answer's data half, over mathematical values.
pub enum ReplyModel {
    TargetList(Seq<Atom>),
    Full { target: Atom, bytes: Seq<u8> },
    IncrBegin,
    Refuse,
}

/// The model an exec [`ReplyData`] denotes.
pub open spec fn reply_data_model(data: ReplyData) -> ReplyModel {
    match data {
        ReplyData::TargetList(atoms) => ReplyModel::TargetList(atoms@),
        ReplyData::Full { target, bytes } => ReplyModel::Full { target, bytes: bytes@ },
        ReplyData::IncrBegin => ReplyModel::IncrBegin,
        ReplyData::Refuse => ReplyModel::Refuse,
    }
}

/// The TARGETS answer for an entry: the TARGETS atom itself followed by
/// every offered target.
pub open spec fn targets_reply_spec(entry: Seq<Offer>, targets_atom: Atom) -> Seq<Atom> {
    seq![targets_atom] + entry.map_values(|o: Offer| o.target)
}

/// The owner's decision for a request of `target` against one entry:
/// the TARGETS enumeration; the payload whole if it fits a single
/// property write of at most `max_bytes - 24` bytes; chunked INCR
/// delivery if it does not; a refusal if the target is not offered.
pub open spec fn reply_spec(
    entry: Seq<Offer>,
    target: Atom,
    targets_atom: Atom,
    max_bytes: int,
) -> ReplyModel {
    if target == targets_atom {
        ReplyModel::TargetList(targets_reply_spec(entry, targets_atom))
    } else {
        match lookup_spec(entry, target) {
            Option::Some(bytes) => if bytes.len() + 24 < max_bytes {
                ReplyModel::Full { target, bytes }
            } else {
                ReplyModel::IncrBegin
            },
            Option::None => ReplyModel::Refuse,
        }
    }
}

/// The worker's decision for a whole selection-request: ignored when the
/// selection is not in the store, answered by [`reply_spec`] otherwise.
pub open spec fn answer_model(
    contents: Map<Atom, Vec<Offer>>,
    e: SelectionRequestEvent,
    targets_atom: Atom,
    max_bytes: int,
) -> Option<ReplyModel> {
    if contents.contains_key(e.selection) {
        Option::Some(reply_spec(contents[e.selection]@, e.target, targets_atom, max_bytes))
    } else {
        Option::None
    }
}

/// The owner worker's transfer bookkeeping: at most one INCR transfer
/// per destination property, and for each selection the destination
/// property of its latest INCR transfer.
pub struct OwnerWorker {
    transfers: HashMap<Atom, IncrTransfer>,
    incr_properties: HashMap<Atom, Atom>,
}

impl OwnerWorker {
    /// The in-flight transfers, keyed by destination property.
    pub closed spec fn transfers(self) -> Map<Atom, IncrTransfer> {
        self.transfers@
    }

    /// Each selection's latest INCR destination property.
    pub closed spec fn incr_properties(self) -> Map<Atom, Atom> {
        self.incr_properties@
    }

    /// A fresh worker: no transfer in flight.
    pub fn new() -> (w: OwnerWorker)
        ensures
            w.transfers() == Map::<Atom, IncrTransfer>::empty(),
            w.incr_properties() == Map::<Atom, Atom>::empty(),
    {
        OwnerWorker { transfers: HashMap::new(), incr_properties: HashMap::new() }
    }

    /// Whether any INCR transfer is still in flight.
    pub fn has_transfers(&self) -> (r: bool)
        ensures
            r == !self.transfers().is_empty(),
    {
        !self.transfers.is_empty()
    }

    /// The store changed for `selection`: whatever INCR transfer was
    /// serving its old entry is stale and is dropped.
    pub fn invalidate_selection(&mut self, selection: Atom)
        ensures
            ({
                let ip = old(self).incr_properties();
                if ip.contains_key(selection) {
                    &&& final(self).transfers() == old(self).transfers().remove(ip[selection])
                    &&& final(self).incr_properties() == ip.remove(selection)
                } else {
                    &&& final(self).transfers() == old(self).transfers()
                    &&& final(self).incr_properties() == ip
                }
            }),
    {
        match self.incr_properties.remove(&selection) {
            Some(property) => {
                self.transfers.remove(&property);
            },
            None => {},
        }
    }

    /// Dispatch one drained protocol event.
    ///
    /// `targets_atom` is the interned TARGETS atom; `max_bytes` is the
    /// transport's maximum request size in bytes (the protocol's maximum
    /// request length times four) — a payload is written whole only when
    /// it is under `max_bytes - 24`.
    ///
    /// The contract pins, per event kind: which bytes go on the wire and
    /// where; that a request for an unknown selection is ignored and one
    /// for an unoffered target refused; how the transfer table changes;
    /// and that a selection-clear removes the store entry, so nothing of
    /// it is served later.
    pub fn handle_event(
        &mut self,
        store: &mut SelectionStore,
        event: &XEvent,
        targets_atom: Atom,
        max_bytes: usize,
    ) -> (r: OwnerAction)
        requires
            max_bytes >= 24,
        ensures
            match *event {
                XEvent::SelectionRequest(e) => {
                    &&& final(store)@ == old(store)@
                    &&& match answer_model(old(store)@, e, targets_atom, max_bytes as int) {
                        Option::None => {
                            &&& r is Ignore
                            &&& final(self).transfers() == old(self).transfers()
                            &&& final(self).incr_properties() == old(self).incr_properties()
                        },
                        Option::Some(model) => match r {
                            OwnerAction::Answer(rep) => {
                                &&& rep.requestor == e.requestor
                                &&& rep.property == e.property
                                &&& reply_data_model(rep.data) == model
                                &&& rep.notify == (SelectionNotifyReply {
                                    time: e.time,
                                    requestor: e.requestor,
                                    selection: e.selection,
                                    target: e.target,
                                    property: if model is Refuse {
                                        ATOM_NONE
                                    } else {
                                        e.property
                                    },
                                })
                                &&& if model is IncrBegin {
                                    &&& final(self).transfers() == old(self).transfers().insert(
                                        e.property,
                                        (IncrTransfer {
                                            selection: e.selection,
                                            requestor: e.requestor,
                                            property: e.property,
                                            target: e.target,
                                            pos: 0,
                                        }),
                                    )
                                    &&& final(self).incr_properties() == old(
                                        self,
                                    ).incr_properties().insert(e.selection, e.property)
                                } else {
                                    &&& final(self).transfers() == old(self).transfers()
                                    &&& final(self).incr_properties() == old(
                                        self,
                                    ).incr_properties()
                                }
                            },
                            _ => false,
                        },
                    }
                },
                XEvent::PropertyNotify(e) => {
                    &&& final(store)@ == old(store)@
                    &&& {
                        let ts = old(self).transfers();
                        if e.state != PropertyState::Deleted || !ts.contains_key(e.property) {
                            &&& r is Ignore
                            &&& final(self).transfers() == ts
                            &&& final(self).incr_properties() == old(self).incr_properties()
                        } else {
                            let t = ts[e.property];
                            let m = old(store)@;
                            if !m.contains_key(t.selection) || lookup_spec(m[t.selection]@, t.target)
                                is None {
                                &&& r is Ignore
                                &&& final(self).transfers() == ts
                                &&& final(self).incr_properties() == old(self).incr_properties()
                            } else {
                                let v = lookup_spec(m[t.selection]@, t.target)->Some_0;
                                let pos = if t.pos <= v.len() {
                                    t.pos as nat
                                } else {
                                    v.len()
                                };
                                let cl = chunk_len(v.len(), pos);
                                &&& match r {
                                    OwnerAction::WriteChunk {
                                        requestor,
                                        property,
                                        target,
                                        bytes,
                                        done,
                                    } => {
                                        &&& requestor == t.requestor
                                        &&& property == e.property
                                        &&& target == t.target
                                        &&& bytes@ == chunk_at(v, pos)
                                        &&& done == (cl == 0)
                                    },
                                    _ => false,
                                }
                                &&& if cl == 0 {
                                    final(self).transfers() == ts.remove(e.property)
                                } else {
                                    final(self).transfers() == ts.insert(
                                        e.property,
                                        (IncrTransfer {
                                            selection: t.selection,
                                            requestor: t.requestor,
                                            property: t.property,
                                            target: t.target,
                                            pos: (pos + cl) as usize,
                                        }),
                                    )
                                }
                                &&& final(self).incr_properties() == old(self).incr_properties()
                            }
                        }
                    }
                },
                XEvent::SelectionClear(e) => {
                    &&& final(store)@ == old(store)@.remove(e.selection)
                    &&& r is Cleared
                    &&& {
                        let ip = old(self).incr_properties();
                        if ip.contains_key(e.selection) {
                            &&& final(self).transfers() == old(self).transfers().remove(
                                ip[e.selection],
                            )
                            &&& final(self).incr_properties() == ip.remove(e.selection)
                        } else {
                            &&& final(self).transfers() == old(self).transfers()
                            &&& final(self).incr_properties() == ip
                        }
                    }
                },
                _ => {
                    &&& r is Ignore
                    &&& final(store)@ == old(store)@
                    &&& final(self).transfers() == old(self).transfers()
                    &&& final(self).incr_properties() == old(self).incr_properties()
                },
            },
    {
        match event {
            XEvent::SelectionRequest(e) => self.answer_request(store, e, targets_atom, max_bytes),
            XEvent::PropertyNotify(e) => {
                if e.state == PropertyState::Deleted {
                    self.continue_transfer(store, e.property)
                } else {
                    OwnerAction::Ignore
                }
            },
            XEvent::SelectionClear(e) => {
                self.invalidate_selection(e.selection);
                store.remove(e.selection);
                OwnerAction::Cleared
            },
            _ => OwnerAction::Ignore,
        }
    }

    /// Answer one selection-request against the store.
    fn answer_request(
        &mut self,
        store: &SelectionStore,
        e: &SelectionRequestEvent,
        targets_atom: Atom,
        max_bytes: usize,
    ) -> (r: OwnerAction)
        requires
            max_bytes >= 24,
        ensures
            match answer_model(store@, *e, targets_atom, max_bytes as int) {
                Option::None => {
                    &&& r is Ignore
                    &&& final(self).transfers() == old(self).transfers()
                    &&& final(self).incr_properties() == old(self).incr_properties()
                },
                Option::Some(model) => match r {
                    OwnerAction::Answer(rep) => {
                        &&& rep.requestor == e.requestor
                        &&& rep.property == e.property
                        &&& reply_data_model(rep.data) == model
                        &&& rep.notify == (SelectionNotifyReply {
                            time: e.time,
                            requestor: e.requestor,
                            selection: e.selection,
                            target: e.target,
                            property: if model is Refuse {
                                ATOM_NONE
                            } else {
                                e.property
                            },
                        })
                        &&& if model is IncrBegin {
                            &&& final(self).transfers() == old(self).transfers().insert(
                                e.property,
                                (IncrTransfer {
                                    selection: e.selection,
                                    requestor: e.requestor,
                                    property: e.property,
                                    target: e.target,
                                    pos: 0,
                                }),
                            )
                            &&& final(self).incr_properties() == old(
                                self,
                            ).incr_properties().insert(e.selection, e.property)
                        } else {
                            &&& final(self).transfers() == old(self).transfers()
                            &&& final(self).incr_properties() == old(self).incr_properties()
                        }
                    },
                    _ => false,
                },
            },
    {
        let offers = match store.entry(e.selection) {
            Some(offers) => offers,
            None => {
                return OwnerAction::Ignore;
            },
        };
        let data = if e.target == targets_atom {
            ReplyData::TargetList(collect_targets(offers, targets_atom))
        } else {
            match lookup_in_entry(offers, e.target) {
                Some(value) => {
                    if value.len() < max_bytes - 24 {
                        let bytes = copy_range(value, 0, value.len());
                        proof {
                            assert(bytes@ =~= value@);
                        }
                        ReplyData::Full { target: e.target, bytes }
                    } else {
                        self.transfers.insert(
                            e.property,
                            IncrTransfer {
                                selection: e.selection,
                                requestor: e.requestor,
                                property: e.property,
                                target: e.target,
                                pos: 0,
                            },
                        );
                        self.incr_properties.insert(e.selection, e.property);
                        ReplyData::IncrBegin
                    }
                },
                None => ReplyData::Refuse,
            }
        };
        let refused = match &data {
            ReplyData::Refuse => true,
            _ => false,
        };
        let notify = SelectionNotifyReply {
            time: e.time,
            requestor: e.requestor,
            selection: e.selection,
            target: e.target,
            property: if refused {
                ATOM_NONE
            } else {
                e.property
            },
        };
        OwnerAction::Answer(RequestReply { requestor: e.requestor, property: e.property, data, notify })
    }

    /// Serve the next chunk of the INCR transfer bound to `property`,
    /// whose destination property the requestor has just deleted.
    fn continue_transfer(&mut self, store: &SelectionStore, property: Atom) -> (r: OwnerAction)
        ensures
            ({
                let ts = old(self).transfers();
                if !ts.contains_key(property) {
                    &&& r is Ignore
                    &&& final(self).transfers() == ts
                    &&& final(self).incr_properties() == old(self).incr_properties()
                } else {
                    let t = ts[property];
                    let m = store@;
                    if !m.contains_key(t.selection) || lookup_spec(m[t.selection]@, t.target)
                        is None {
                        &&& r is Ignore
                        &&& final(self).transfers() == ts
                        &&& final(self).incr_properties() == old(self).incr_properties()
                    } else {
                        let v = lookup_spec(m[t.selection]@, t.target)->Some_0;
                        let pos = if t.pos <= v.len() {
                            t.pos as nat
                        } else {
                            v.len()
                        };
                        let cl = chunk_len(v.len(), pos);
                        &&& match r {
                            OwnerAction::WriteChunk {
                                requestor,
                                property: wp,
                                target,
                                bytes,
                                done,
                            } => {
                                &&& requestor == t.requestor
                                &&& wp == property
                                &&& target == t.target
                                &&& bytes@ == chunk_at(v, pos)
                                &&& done == (cl == 0)
                            },
                            _ => false,
                        }
                        &&& if cl == 0 {
                            final(self).transfers() == ts.remove(property)
                        } else {
                            final(self).transfers() == ts.insert(
                                property,
                                (IncrTransfer {
                                    selection: t.selection,
                                    requestor: t.requestor,
                                    property: t.property,
                                    target: t.target,
                                    pos: (pos + cl) as usize,
                                }),
                            )
                        }
                        &&& final(self).incr_properties() == old(self).incr_properties()
                    }
                }
            }),
    {
        let t = match self.transfers.get(&property) {
            Some(t) => *t,
            None => {
                return OwnerAction::Ignore;
            },
        };
        let value = match store.lookup(t.selection, t.target) {
            Some(value) => value,
            None => {
                return OwnerAction::Ignore;
            },
        };
        let pos = if t.pos <= value.len() {
            t.pos
        } else {
            value.len()
        };
        let remaining = value.len() - pos;
        let len = if remaining < crate::INCR_CHUNK_SIZE {
            remaining
        } else {
            crate::INCR_CHUNK_SIZE
        };
        let bytes = copy_range(value, pos, len);
        if len == 0 {
            self.transfers.remove(&property);
        } else {
            self.transfers.insert(
                property,
                IncrTransfer {
                    selection: t.selection,
                    requestor: t.requestor,
                    property: t.property,
                    target: t.target,
                    pos: pos + len,
                },
            );
        }
        OwnerAction::WriteChunk {
            requestor: t.requestor,
            property,
            target: t.target,
            bytes,
            done: len == 0,
        }
    }
}

/// The TARGETS atom followed by every target the entry offers.
fn collect_targets(offers: &Vec<Offer>, targets_atom: Atom) -> (r: Vec<Atom>)
    ensures
        r@ == targets_reply_spec(offers@, targets_atom),
{
    let mut atoms: Vec<Atom> = Vec::new();
    atoms.push(targets_atom);
    let n = offers.len();
    let mut i: usize = 0;
    while i < n
        invariant
            0 <= i <= n,
            n == offers.len(),
            atoms@.len() == i + 1,
            atoms@[0] == targets_atom,
            forall|k: int| 0 <= k < i ==> atoms@[k + 1] == (#[trigger] offers@[k]).target,
        decreases n - i,
    {
        atoms.push(offers[i].target);
        i = i + 1;
    }
    proof {
        assert(atoms@ =~= targets_reply_spec(offers@, targets_atom));
    }
    atoms
}

/// First-match lookup borrowed from the entry (the store's own `lookup`
/// without the selection step).
fn lookup_in_entry(offers: &Vec<Offer>, target: Atom) -> (r: Option<&Vec<u8>>)
    ensures
        match r {
            Some(value) => lookup_spec(offers@, target) == Some(value@),
            None => lookup_spec(offers@, target) is None,
        },
{
    let n = offers.len();
    let mut i: usize = 0;
    proof {
        assert(offers@.skip(0) =~= offers@);
    }
    while i < n
        invariant
            0 <= i <= n,
            n == offers.len(),
            lookup_spec(offers@, target) == lookup_spec(offers@.skip(i as int), target),
        decreases n - i,
    {
        proof {
            assert(offers@.skip(i as int).first() == offers@[i as int]);
            assert(offers@.skip(i as int).drop_first() =~= offers@.skip(i as int + 1));
        }
        if offers[i].target == target {
            return Some(&offers[i].value);
        }
        i = i + 1;
    }
    proof {
        assert(offers@.skip(n as int).len() == 0);
    }
    None
}

/// `v[pos .. pos + len]` as an owned vector.
fn copy_range(v: &Vec<u8>, pos: usize, len: usize) -> (r: Vec<u8>)
    requires
        pos + len <= v.len(),
    ensures
        r@ == v@.subrange(pos as int, pos + len),
{
    let mut out: Vec<u8> = Vec::new();
    let mut i: usize = 0;
    while i < len
        invariant
            0 <= i <= len,
            pos + len <= v.len(),
            out@ =~= v@.subrange(pos as int, pos + i),
        decreases len - i,
    {
        out.push(v[pos + i]);
        proof {
            assert(out@ =~= v@.subrange(pos as int, pos + i + 1));
        }
        i = i + 1;
    }
    out
}

} // verus!
