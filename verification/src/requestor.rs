//! The requestor-side protocol engine.
//!
//! A `load` issues one convert-selection request naming a staging
//! property, then drives this machine over the events its window
//! receives: a selection-notify settles whether the transfer is plain,
//! refused, or INCR; in INCR mode each property-notify announces one
//! more chunk.  The machine only decides — each returned [`ReqAction`]
//! names the one read, delete or reissue the caller must perform, and
//! the caller feeds the outcome back through [`Requestor::absorb_reply`]
//! or [`Requestor::absorb_chunk`].  Polling, timeouts and the final
//! deletion of the staging property stay with the caller.

use vstd::prelude::*;
use crate::{Atom, Timestamp, ATOM_NONE};
use crate::error::Error;
use crate::event::{PropertyState, XEvent};

verus! {

/// Where the transfer stands.
#[derive(Clone, Copy, Debug, PartialEq, Eq, Structural)]
pub enum LoadPhase {
    /// Waiting for the owner's selection-notify.
    AwaitNotify,
    /// The owner announced an INCR transfer; chunks are arriving.
    Incr,
    /// Terminal: `buf` holds the loaded value.
    Done,
}

/// What the machine asks its driver to do next.
#[derive(Clone, Copy, Debug, PartialEq, Eq, Structural)]
pub enum ReqAction {
    /// Nothing: wait for (or poll) the next event.
    Wait,
    /// Reissue the convert-selection request with this timestamp — the
    /// notification's own, as the convention requires.
    Reissue { timestamp: Timestamp },
    /// Read `property` on our window without deleting it, starting at
    /// byte `offset`, and feed the reply to `absorb_reply`.
    FetchProperty { property: Atom, offset: usize },
    /// Delete the staging property — announcing readiness for the first
    /// INCR chunk — then wait.
    DeleteStaging { property: Atom },
    /// A new chunk waits in the staging property: probe its length with
    /// a zero-length read, read exactly that many bytes deleting the
    /// property, and feed the reply to `absorb_chunk`.
    FetchChunk { property: Atom },
    /// Terminal: the transfer is over and `buf` holds the value.
    Finished,
}

/// The caller-thread state machine of one load.
pub struct Requestor {
    /// The selection being read.
    pub selection: Atom,
    /// The representation asked of the owner.
    pub target: Atom,
    /// The staging property the owner was asked to write into.
    pub property: Atom,
    /// The interned INCR atom, to recognise a chunked reply.
    pub incr_atom: Atom,
    /// The bytes accumulated so far.
    pub buf: Vec<u8>,
    /// Where the transfer stands.
    pub phase: LoadPhase,
}

impl Requestor {
    /// The machine's fixed parameters never change after creation.
    pub open spec fn same_request(self, other: Requestor) -> bool {
        &&& self.selection == other.selection
        &&& self.target == other.target
        &&& self.property == other.property
        &&& self.incr_atom == other.incr_atom
    }

    /// A fresh machine for one load: nothing accumulated, awaiting the
    /// owner's notify.
    pub fn new(selection: Atom, target: Atom, property: Atom, incr_atom: Atom) -> (r: Requestor)
        ensures
            r.selection == selection,
            r.target == target,
            r.property == property,
            r.incr_atom == incr_atom,
            r.buf@ == Seq::<u8>::empty(),
            r.phase == LoadPhase::AwaitNotify,
    {
        Requestor {
            selection,
            target,
            property,
            incr_atom,
            buf: Vec::new(),
            phase: LoadPhase::AwaitNotify,
        }
    }

    /// React to one event.  `live` is true for a `load_wait`, which
    /// reissues the convert-selection request on every ownership-change
    /// notification; a polling `load` ignores those.  Unrelated events
    /// never fail the transfer: they answer `Wait`.
    pub fn on_event(&mut self, event: &XEvent, live: bool) -> (r: ReqAction)
        ensures
            old(self).same_request(*final(self)),
            final(self).buf == old(self).buf,
            match old(self).phase {
                LoadPhase::AwaitNotify => match *event {
                    XEvent::OwnershipChanged { timestamp } => {
                        &&& final(self).phase == LoadPhase::AwaitNotify
                        &&& r == (if live {
                            ReqAction::Reissue { timestamp }
                        } else {
                            ReqAction::Wait
                        })
                    },
                    XEvent::SelectionNotify(n) => if n.selection != old(self).selection {
                        final(self).phase == LoadPhase::AwaitNotify && r == ReqAction::Wait
                    } else if n.property == ATOM_NONE {
                        // The owner declined the conversion: done, empty.
                        final(self).phase == LoadPhase::Done && r == ReqAction::Finished
                    } else {
                        &&& final(self).phase == LoadPhase::AwaitNotify
                        &&& r == (ReqAction::FetchProperty {
                            property: n.property,
                            offset: old(self).buf.len(),
                        })
                    },
                    _ => final(self).phase == old(self).phase && r == ReqAction::Wait,
                },
                LoadPhase::Incr => match *event {
                    XEvent::PropertyNotify(p) => if p.state == PropertyState::NewValue {
                        &&& final(self).phase == LoadPhase::Incr
                        &&& r == (ReqAction::FetchChunk { property: old(self).property })
                    } else {
                        final(self).phase == LoadPhase::Incr && r == ReqAction::Wait
                    },
                    _ => final(self).phase == old(self).phase && r == ReqAction::Wait,
                },
                LoadPhase::Done => final(self).phase == LoadPhase::Done && r
                    == ReqAction::Finished,
            },
    {
        match self.phase {
            LoadPhase::AwaitNotify => match event {
                XEvent::OwnershipChanged { timestamp } => {
                    if live {
                        ReqAction::Reissue { timestamp: *timestamp }
                    } else {
                        ReqAction::Wait
                    }
                },
                XEvent::SelectionNotify(n) => {
                    if n.selection != self.selection {
                        ReqAction::Wait
                    } else if n.property == ATOM_NONE {
                        self.phase = LoadPhase::Done;
                        ReqAction::Finished
                    } else {
                        ReqAction::FetchProperty { property: n.property, offset: self.buf.len() }
                    }
                },
                _ => ReqAction::Wait,
            },
            LoadPhase::Incr => match event {
                XEvent::PropertyNotify(p) => {
                    if p.state == PropertyState::NewValue {
                        ReqAction::FetchChunk { property: self.property }
                    } else {
                        ReqAction::Wait
                    }
                },
                _ => ReqAction::Wait,
            },
            LoadPhase::Done => ReqAction::Finished,
        }
    }

    /// Absorb the reply to a `FetchProperty`.
    ///
    /// A reply typed INCR announces a chunked transfer: the machine
    /// enters INCR mode, reserves room per the owner's optional size
    /// hint, and asks for the staging property to be deleted.  A reply
    /// of the requested type is the whole value: append and finish.
    /// Anything else fails with `UnexpectedType` — never another
    /// representation's bytes.
    pub fn absorb_reply(&mut self, type_: Atom, bytes: Vec<u8>, size_hint: Option<u32>) -> (r:
        Result<ReqAction, Error>)
        requires
            old(self).phase == LoadPhase::AwaitNotify,
        ensures
            old(self).same_request(*final(self)),
            if type_ == old(self).incr_atom {
                &&& final(self).phase == LoadPhase::Incr
                &&& final(self).buf@ == old(self).buf@
                &&& r == Ok::<ReqAction, Error>(ReqAction::DeleteStaging {
                    property: old(self).property,
                })
            } else if type_ != old(self).target {
                &&& final(self).phase == old(self).phase
                &&& final(self).buf@ == old(self).buf@
                &&& r == Err::<ReqAction, Error>(Error::UnexpectedType(type_))
            } else {
                &&& final(self).phase == LoadPhase::Done
                &&& final(self).buf@ == old(self).buf@ + bytes@
                &&& r == Ok::<ReqAction, Error>(ReqAction::Finished)
            },
    {
        if type_ == self.incr_atom {
            match size_hint {
                Some(hint) => {
                    let hint = hint as usize;
                    if hint > self.buf.len() {
                        self.buf.reserve(hint - self.buf.len());
                    }
                },
                None => {},
            }
            self.phase = LoadPhase::Incr;
            Ok(ReqAction::DeleteStaging { property: self.property })
        } else if type_ != self.target {
            Err(Error::UnexpectedType(type_))
        } else {
            let mut bytes = bytes;
            self.buf.append(&mut bytes);
            self.phase = LoadPhase::Done;
            Ok(ReqAction::Finished)
        }
    }

    /// Absorb one INCR chunk, read (and thereby deleted) from the
    /// staging property.
    ///
    /// A chunk of the wrong type is ignored — keep waiting.  A
    /// zero-length chunk is the end-of-transfer marker.  Any other chunk
    /// extends the buffer.
    pub fn absorb_chunk(&mut self, type_: Atom, bytes: Vec<u8>) -> (r: ReqAction)
        requires
            old(self).phase == LoadPhase::Incr,
        ensures
            old(self).same_request(*final(self)),
            if type_ != old(self).target {
                &&& final(self).phase == LoadPhase::Incr
                &&& final(self).buf@ == old(self).buf@
                &&& r == ReqAction::Wait
            } else if bytes@.len() == 0 {
                &&& final(self).phase == LoadPhase::Done
                &&& final(self).buf@ == old(self).buf@
                &&& r == ReqAction::Finished
            } else {
                &&& final(self).phase == LoadPhase::Incr
                &&& final(self).buf@ == old(self).buf@ + bytes@
                &&& r == ReqAction::Wait
            },
    {
        if type_ != self.target {
            ReqAction::Wait
        } else if bytes.len() == 0 {
            self.phase = LoadPhase::Done;
            ReqAction::Finished
        } else {
            let mut bytes = bytes;
            self.buf.append(&mut bytes);
            ReqAction::Wait
        }
    }

    /// Hand the accumulated value out, consuming the machine.
    pub fn into_bytes(self) -> (r: Vec<u8>)
        ensures
            r == self.buf,
    {
        self.buf
    }
}

/// The deadline rule of a polling `load`: with a timeout set, the load
/// fails with `Timeout` as soon as the time elapsed since it began
/// reaches the timeout; with none it polls forever.
pub fn deadline_passed(elapsed_ms: u64, timeout_ms: Option<u64>) -> (r: bool)
    ensures
        r == match timeout_ms {
            Some(t) => elapsed_ms >= t,
            None => false,
        },
{
    match timeout_ms {
        Some(t) => elapsed_ms >= t,
        None => false,
    }
}

} // verus!
