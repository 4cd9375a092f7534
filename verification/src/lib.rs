//! ICCCM-compliant X11 selection (clipboard) exchange, verified.
//!
//! The crate models both sides of the selection protocol as pure,
//! event-driven state machines:
//!
//! * [`requestor`] drives a `load` — converting a selection request into
//!   accumulated bytes, handling plain and INCR transfers;
//! * [`owner`] answers `SelectionRequest`, `PropertyNotify` and
//!   `SelectionClear` events for the selections this process offers,
//!   serving INCR chunked delivery per destination property;
//! * [`store`] is the mapping from a selection to the set of
//!   (target, payload) representations currently offered.
//!
//! Every decision the protocol takes — which bytes go on the wire, when a
//! transfer is complete, when a request is refused — is made here with a
//! proved contract.  The transport itself (the X connection, its event
//! queue, the worker thread's multiplexed wait) stays outside: a caller
//! performs the I/O each returned action names and feeds the outcome back
//! into the machine.

use vstd::prelude::*;

pub mod error;
pub mod event;
pub mod exchange;
pub mod incr;
pub mod laws;
pub mod owner;
pub mod requestor;
pub mod store;

use crate::error::Error;

verus! {

/// A 32-bit server-interned identifier naming selections, targets and
/// properties.  Value-equal; valid for the server session.
pub type Atom = u32;

/// A handle to an X window.
pub type Window = u32;

/// An X server timestamp, in server time.
pub type Timestamp = u32;

/// The null atom: "no property".  A selection-notify carrying it as its
/// property means the owner refused the conversion.
pub const ATOM_NONE: Atom = 0;

/// Number of payload bytes the owner writes per INCR property update.
pub const INCR_CHUNK_SIZE: usize = 4000;

/// Milliseconds a polling `load` sleeps between attempts.
pub const POLL_DURATION: u64 = 50;

/// The well-known atoms a context resolves once, at creation.
///
/// `property` is the private staging property a `load` asks owners to
/// write into.
#[derive(Clone, Copy, Debug)]
pub struct Atoms {
    pub primary: Atom,
    pub clipboard: Atom,
    pub property: Atom,
    pub targets: Atom,
    pub string: Atom,
    pub utf8_string: Atom,
    pub incr: Atom,
}

/// The check a `store` makes after claiming a selection: ownership is
/// established exactly when the server reports our own window as the
/// selection's owner; anything else — another window, or no answer —
/// fails with `Owner`.
pub fn confirm_ownership(reported_owner: Option<Window>, own_window: Window) -> (r: Result<
    (),
    Error,
>)
    ensures
        r is Ok <==> reported_owner == Some(own_window),
        r is Err ==> r->Err_0 == Error::Owner,
{
    match reported_owner {
        Some(owner) => {
            if owner == own_window {
                Ok(())
            } else {
                Err(Error::Owner)
            }
        },
        None => Err(Error::Owner),
    }
}

} // verus!
