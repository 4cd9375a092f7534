//! The two engines run against each other: a verified round trip.
//!
//! [`exchange_load`] plays one complete load against a local owner,
//! event by event, exactly as the wire would carry it: the request, the
//! owner's answer, the notify, and — for an oversized payload — the whole
//! INCR chunk dance down to the zero-length terminator.  Its contract is
//! the round-trip law: whatever was stored for (selection, target) is
//! what the requestor reassembles, byte for byte, at every payload size;
//! a target never stored yields the empty result; an unowned selection
//! leaves the requestor to its timeout.
//!
//! In production the two machines live in different processes and the X
//! server relays these events; this function is the concurrency-free
//! composition of the very same verified steps.

use vstd::prelude::*;
use crate::{Atom, ATOM_NONE};
use crate::error::Error;
use crate::event::{
    PropertyNotifyEvent, PropertyState, SelectionNotifyEvent, SelectionRequestEvent, XEvent,
};
use crate::incr::chunk_at;
use crate::owner::{IncrTransfer, OwnerAction, OwnerWorker, ReplyData};
use crate::requestor::{LoadPhase, ReqAction, Requestor};
use crate::store::{lookup_spec, SelectionStore};

verus! {

/// Drive one load to completion against our own store and worker.
///
/// `e` is the selection-request the load puts on the wire: `e.target`
/// names the wanted representation (not TARGETS — enumeration answers
/// are ATOM-typed, not payloads) and `e.property` the staging property,
/// which may not carry a transfer already.
pub fn exchange_load(
    store: &mut SelectionStore,
    worker: &mut OwnerWorker,
    e: SelectionRequestEvent,
    targets_atom: Atom,
    incr_atom: Atom,
    max_bytes: usize,
) -> (r: Result<Vec<u8>, Error>)
    requires
        max_bytes >= 24,
        e.target != targets_atom,
        e.target != incr_atom,
        e.property != ATOM_NONE,
        !old(worker).transfers().contains_key(e.property),
    ensures
        final(store)@ == old(store)@,
        final(worker).transfers() == old(worker).transfers(),
        final(worker).incr_properties() == old(worker).incr_properties() || final(worker)
            .incr_properties() == old(worker).incr_properties().insert(e.selection, e.property),
        match r {
            Ok(bytes) => {
                &&& old(store)@.contains_key(e.selection)
                &&& match lookup_spec(old(store)@[e.selection]@, e.target) {
                    Option::Some(v) => bytes@ == v,
                    Option::None => bytes@.len() == 0,
                }
            },
            Err(err) => err == Error::Timeout && !old(store)@.contains_key(e.selection),
        },
{
    let ghost m0 = store@;
    let ghost ts0 = worker.transfers();
    let ghost ip0 = worker.incr_properties();

    let mut req = Requestor::new(e.selection, e.target, e.property, incr_atom);

    let oa = worker.handle_event(store, &XEvent::SelectionRequest(e), targets_atom, max_bytes);
    let rep = match oa {
        OwnerAction::Answer(rep) => rep,
        _ => {
            // The selection is not in the store: the owner ignores the
            // request and a polling load expires.
            return Err(Error::Timeout);
        },
    };

    // The echo reaches the requestor's window as a selection-notify.
    let notify_ev = XEvent::SelectionNotify(
        SelectionNotifyEvent {
            time: rep.notify.time,
            selection: rep.notify.selection,
            target: rep.notify.target,
            property: rep.notify.property,
        },
    );
    let ra = req.on_event(&notify_ev, false);

    if rep.notify.property == ATOM_NONE {
        // Conversion refused: terminate successfully with an empty result.
        proof {
            assert(ra == ReqAction::Finished);
        }
        return Ok(req.into_bytes());
    }
    proof {
        assert(ra == (ReqAction::FetchProperty { property: e.property, offset: 0 }));
    }

    match rep.data {
        ReplyData::Full { target: wire_type, bytes } => {
            // The whole value fits one property: read it, typed by the
            // requested target, and finish.
            match req.absorb_reply(wire_type, bytes, None) {
                Ok(a) => {
                    proof {
                        assert(a == ReqAction::Finished);
                        assert(req.buf@ =~= lookup_spec(m0[e.selection]@, e.target)->Some_0);
                    }
                    Ok(req.into_bytes())
                },
                Err(err) => {
                    proof {
                        assert(false);
                    }
                    Err(err)
                },
            }
        },
        ReplyData::IncrBegin => {
            let ghost v0 = lookup_spec(m0[e.selection]@, e.target)->Some_0;
            // The staging property reads back typed INCR: enter chunked
            // mode and delete it to ask for the first chunk.
            match req.absorb_reply(incr_atom, Vec::new(), None) {
                Ok(_) => {},
                Err(err) => {
                    proof {
                        assert(false);
                    }
                    return Err(err);
                },
            }
            proof {
                assert(req.buf@ =~= v0.subrange(0, req.buf.len() as int));
            }
            // Each deletion of the staging property asks the owner for
            // the next chunk; each write lands as a new value to read.
            let deleted_ev = XEvent::PropertyNotify(
                PropertyNotifyEvent {
                    window: e.requestor,
                    property: e.property,
                    state: PropertyState::Deleted,
                },
            );
            let new_value_ev = XEvent::PropertyNotify(
                PropertyNotifyEvent {
                    window: e.requestor,
                    property: e.property,
                    state: PropertyState::NewValue,
                },
            );
            loop
                invariant_except_break
                    max_bytes >= 24,
                    e.target != targets_atom && e.target != incr_atom,
                    deleted_ev == (XEvent::PropertyNotify(PropertyNotifyEvent {
                        window: e.requestor,
                        property: e.property,
                        state: PropertyState::Deleted,
                    })),
                    new_value_ev == (XEvent::PropertyNotify(PropertyNotifyEvent {
                        window: e.requestor,
                        property: e.property,
                        state: PropertyState::NewValue,
                    })),
                    req.selection == e.selection && req.target == e.target && req.property
                        == e.property && req.incr_atom == incr_atom,
                    req.phase == LoadPhase::Incr,
                    store@ == m0,
                    m0.contains_key(e.selection),
                    lookup_spec(m0[e.selection]@, e.target) == Some(v0),
                    req.buf@.len() <= v0.len(),
                    req.buf@ == v0.subrange(0, req.buf.len() as int),
                    !ts0.contains_key(e.property),
                    worker.transfers() == ts0.insert(
                        e.property,
                        (IncrTransfer {
                            selection: e.selection,
                            requestor: e.requestor,
                            property: e.property,
                            target: e.target,
                            pos: req.buf.len(),
                        }),
                    ),
                    worker.incr_properties() == ip0.insert(e.selection, e.property),
                ensures
                    req.selection == e.selection && req.target == e.target,
                    req.phase == LoadPhase::Done,
                    req.buf@ == v0,
                    store@ == m0,
                    worker.transfers() == ts0.insert(
                        e.property,
                        (IncrTransfer {
                            selection: e.selection,
                            requestor: e.requestor,
                            property: e.property,
                            target: e.target,
                            pos: v0.len() as usize,
                        }),
                    ).remove(e.property),
                    worker.incr_properties() == ip0.insert(e.selection, e.property),
                decreases v0.len() - req.buf@.len(),
            {
                let oa = worker.handle_event(store, &deleted_ev, targets_atom, max_bytes);
                match oa {
                    OwnerAction::WriteChunk { target: wire_type, bytes, done, .. } => {
                        proof {
                            assert(bytes@ == chunk_at(v0, req.buf.len() as nat));
                        }
                        let ra = req.on_event(&new_value_ev, false);
                        match ra {
                            ReqAction::FetchChunk { .. } => {},
                            _ => {
                                proof {
                                    assert(false);
                                }
                                return Err(Error::ProtocolIo);
                            },
                        }
                        let a = req.absorb_chunk(wire_type, bytes);
                        if done {
                            // The zero-length chunk ended the transfer.
                            proof {
                                assert(req.buf@ =~= v0);
                            }
                            break;
                        }
                        proof {
                            assert(a == ReqAction::Wait);
                            assert(req.buf@ =~= v0.subrange(0, req.buf.len() as int));
                            assert(worker.transfers() =~= ts0.insert(
                                e.property,
                                (IncrTransfer {
                                    selection: e.selection,
                                    requestor: e.requestor,
                                    property: e.property,
                                    target: e.target,
                                    pos: req.buf.len(),
                                }),
                            ));
                        }
                    },
                    _ => {
                        proof {
                            assert(false);
                        }
                        return Err(Error::ProtocolIo);
                    },
                }
            }
            proof {
                assert(worker.transfers() =~= ts0);
            }
            Ok(req.into_bytes())
        },
        ReplyData::TargetList(_) => {
            proof {
                assert(false);
            }
            Err(Error::ProtocolIo)
        },
        ReplyData::Refuse => {
            proof {
                assert(false);
            }
            Err(Error::ProtocolIo)
        },
    }
}

} // verus!
