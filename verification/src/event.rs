//! The selection-related X events, as a tagged union.
//!
//! Both state machines dispatch on this one enum with an exhaustive
//! match; events that do not concern a machine are ignored, never
//! treated as errors.

use vstd::prelude::*;
use crate::{Atom, Timestamp, Window};

verus! {

/// The `state` field of a property-notify event.
#[derive(Clone, Copy, Debug, PartialEq, Eq, Structural)]
pub enum PropertyState {
    /// The property was given a new value.
    NewValue,
    /// The property was deleted.
    Deleted,
}

/// A peer asks us — the selection's owner — to convert it to `target`
/// and write the result into `property` on `requestor`.
#[derive(Clone, Copy, Debug, PartialEq, Eq, Structural)]
pub struct SelectionRequestEvent {
    pub time: Timestamp,
    pub requestor: Window,
    pub selection: Atom,
    pub target: Atom,
    pub property: Atom,
}

/// A property on `window` changed or was deleted.
#[derive(Clone, Copy, Debug, PartialEq, Eq, Structural)]
pub struct PropertyNotifyEvent {
    pub window: Window,
    pub property: Atom,
    pub state: PropertyState,
}

/// The server granted `selection` to another owner; we lost it.
#[derive(Clone, Copy, Debug, PartialEq, Eq, Structural)]
pub struct SelectionClearEvent {
    pub selection: Atom,
}

/// The owner answered our convert-selection request: the converted value
/// waits in `property` on our window, or `property` is the null atom and
/// the conversion was refused.
#[derive(Clone, Copy, Debug, PartialEq, Eq, Structural)]
pub struct SelectionNotifyEvent {
    pub time: Timestamp,
    pub selection: Atom,
    pub target: Atom,
    pub property: Atom,
}

/// Every event either state machine reacts to.
///
/// `OwnershipChanged` is the extension-provided asynchronous signal that
/// the selection has a new owner, carrying the event's own timestamp;
/// `Other` stands for any event the protocol engine ignores.
#[derive(Clone, Copy, Debug, PartialEq, Eq, Structural)]
pub enum XEvent {
    SelectionRequest(SelectionRequestEvent),
    PropertyNotify(PropertyNotifyEvent),
    SelectionClear(SelectionClearEvent),
    SelectionNotify(SelectionNotifyEvent),
    OwnershipChanged { timestamp: Timestamp },
    Other,
}

} // verus!
